//! Rendering options and their encoding into the foreign flag bitmask.

use vstd::prelude::*;

verus! {

/// Flag bit asking the foreign routine for plain-text error messages
/// instead of HTML-formatted ones.
pub const PIKCHR_PLAINTEXT_ERRORS: u32 = 0x0001;

/// Flag bit asking the foreign routine for a colour palette suited to
/// dark backgrounds.
pub const PIKCHR_DARK_MODE: u32 = 0x0002;

/// Flags for converting pikchr source.
///
/// The default flags generate plain text errors and light-mode diagrams.
/// Each option maps to exactly one bit of the mask handed to the foreign
/// routine; [`PikchrFlags::encode`] computes that mask.
#[derive(Copy, Clone)]
pub struct PikchrFlags {
    plain_errors: bool,
    dark_mode: bool,
}

impl PikchrFlags {
    /// Whether plain text errors will be generated.
    pub closed spec fn spec_plain_errors(self) -> bool {
        self.plain_errors
    }

    /// Whether dark mode will be used for images.
    pub closed spec fn spec_dark_mode(self) -> bool {
        self.dark_mode
    }

    /// The bitmask this flag record encodes to: the bitwise OR of the bit
    /// of each option that is set.
    pub open spec fn spec_encode(self) -> u32 {
        (if self.spec_plain_errors() {
            PIKCHR_PLAINTEXT_ERRORS
        } else {
            0u32
        }) | (if self.spec_dark_mode() {
            PIKCHR_DARK_MODE
        } else {
            0u32
        })
    }

    /// Return whether or not plain text errors will be generated.
    pub fn plain_errors(&self) -> (r: bool)
        ensures
            r == self.spec_plain_errors(),
    {
        self.plain_errors
    }

    /// Request plain text errors be generated.
    pub fn generate_plain_errors(&mut self) -> (r: &mut PikchrFlags)
        ensures
            (*r).spec_plain_errors(),
            (*r).spec_dark_mode() == old(self).spec_dark_mode(),
            *final(self) == *final(r),
    {
        self.plain_errors = true;
        self
    }

    /// Request HTML encoded errors be generated.
    pub fn generate_html_errors(&mut self) -> (r: &mut PikchrFlags)
        ensures
            !(*r).spec_plain_errors(),
            (*r).spec_dark_mode() == old(self).spec_dark_mode(),
            *final(self) == *final(r),
    {
        self.plain_errors = false;
        self
    }

    /// Return whether or not dark mode will be used for images.
    pub fn dark_mode(&self) -> (r: bool)
        ensures
            r == self.spec_dark_mode(),
    {
        self.dark_mode
    }

    /// Set the dark-mode flag.
    pub fn use_dark_mode(&mut self) -> (r: &mut PikchrFlags)
        ensures
            (*r).spec_dark_mode(),
            (*r).spec_plain_errors() == old(self).spec_plain_errors(),
            *final(self) == *final(r),
    {
        self.dark_mode = true;
        self
    }

    /// Clear the dark-mode flag.
    pub fn clear_dark_mode(&mut self) -> (r: &mut PikchrFlags)
        ensures
            !(*r).spec_dark_mode(),
            (*r).spec_plain_errors() == old(self).spec_plain_errors(),
            *final(self) == *final(r),
    {
        self.dark_mode = false;
        self
    }

    /// Encode these flags as the bitmask the foreign routine expects.
    ///
    /// Pure and total: the result is a function of the flag record alone,
    /// so encoding the same record twice always yields the same mask.
    pub fn encode(&self) -> (m: u32)
        ensures
            m == self.spec_encode(),
    {
        let plain: u32 = if self.plain_errors {
            PIKCHR_PLAINTEXT_ERRORS
        } else {
            0u32
        };
        let dark: u32 = if self.dark_mode {
            PIKCHR_DARK_MODE
        } else {
            0u32
        };
        plain | dark
    }
}

impl Default for PikchrFlags {
    /// The default flags: plain text errors on, dark mode off.
    fn default() -> (r: Self)
        ensures
            r.spec_plain_errors(),
            !r.spec_dark_mode(),
    {
        PikchrFlags { plain_errors: true, dark_mode: false }
    }
}

/// Law: two flag records that agree on dark mode and differ on the error
/// mode encode to masks that differ in exactly the plaintext-errors bit;
/// the dark-mode bit of the mask is unaffected.
pub proof fn lemma_plain_errors_bit_independent(a: PikchrFlags, b: PikchrFlags)
    requires
        a.spec_dark_mode() == b.spec_dark_mode(),
        a.spec_plain_errors(),
        !b.spec_plain_errors(),
    ensures
        a.spec_encode() ^ b.spec_encode() == PIKCHR_PLAINTEXT_ERRORS,
        a.spec_encode() & PIKCHR_DARK_MODE == b.spec_encode() & PIKCHR_DARK_MODE,
{
    assert((1u32 | 2u32) ^ (0u32 | 2u32) == 1u32) by (bit_vector);
    assert((1u32 | 0u32) ^ (0u32 | 0u32) == 1u32) by (bit_vector);
    assert(((1u32 | 2u32) & 2u32) == ((0u32 | 2u32) & 2u32)) by (bit_vector);
    assert(((1u32 | 0u32) & 2u32) == ((0u32 | 0u32) & 2u32)) by (bit_vector);
}

/// Law: two flag records that agree on the error mode and differ on dark
/// mode encode to masks that differ in exactly the dark-mode bit; the
/// plaintext-errors bit of the mask is unaffected.
pub proof fn lemma_dark_mode_bit_independent(a: PikchrFlags, b: PikchrFlags)
    requires
        a.spec_plain_errors() == b.spec_plain_errors(),
        a.spec_dark_mode(),
        !b.spec_dark_mode(),
    ensures
        a.spec_encode() ^ b.spec_encode() == PIKCHR_DARK_MODE,
        a.spec_encode() & PIKCHR_PLAINTEXT_ERRORS == b.spec_encode() & PIKCHR_PLAINTEXT_ERRORS,
{
    assert((1u32 | 2u32) ^ (1u32 | 0u32) == 2u32) by (bit_vector);
    assert((0u32 | 2u32) ^ (0u32 | 0u32) == 2u32) by (bit_vector);
    assert(((1u32 | 2u32) & 1u32) == ((1u32 | 0u32) & 1u32)) by (bit_vector);
    assert(((0u32 | 2u32) & 1u32) == ((0u32 | 0u32) & 1u32)) by (bit_vector);
}

/// Law: encoding is deterministic: equal flag records encode to equal
/// masks, so encoding one record twice yields an identical bitmask.
pub proof fn lemma_encode_deterministic(a: PikchrFlags, b: PikchrFlags)
    requires
        a.spec_plain_errors() == b.spec_plain_errors(),
        a.spec_dark_mode() == b.spec_dark_mode(),
    ensures
        a.spec_encode() == b.spec_encode(),
{
}

} // verus!
