//! Validation and construction of the inputs handed to the foreign routine.
//!
//! The foreign routine takes NUL-terminated byte sequences, so a source
//! text or class name with an embedded NUL byte cannot be passed to it and
//! is rejected here, before any call is made.  A [`CallPlan`] holds the
//! fully prepared call inputs: the terminated byte sequences and the
//! encoded flag bitmask.

use vstd::prelude::*;
use vstd::slice::slice_to_vec;
use vstd::string::StringSliceAdditionalSpecFns;

use crate::flags::PikchrFlags;

verus! {

/// A byte sequence fit to hand to the foreign routine: non-empty,
/// terminated by a NUL byte, with no NUL byte anywhere before the end.
pub open spec fn is_z_string(s: Seq<u8>) -> bool {
    &&& s.len() >= 1
    &&& s[s.len() - 1] == 0u8
    &&& forall|i: int| 0 <= i < s.len() - 1 ==> s[i] != 0u8
}

/// The prepared inputs of one foreign call: the NUL-terminated source
/// text, the optional NUL-terminated class name, and the flag bitmask.
#[derive(Debug)]
pub struct CallPlan {
    source_z: Vec<u8>,
    class_z: Option<Vec<u8>>,
    mask: u32,
}

impl CallPlan {
    /// The NUL-terminated source text bytes.
    pub closed spec fn spec_source_z(self) -> Seq<u8> {
        self.source_z@
    }

    /// The NUL-terminated class name bytes, if a class name was given.
    pub closed spec fn spec_class_z(self) -> Option<Seq<u8>> {
        match self.class_z {
            Some(v) => Some(v@),
            None => None,
        }
    }

    /// The encoded flag bitmask.
    pub closed spec fn spec_mask(self) -> u32 {
        self.mask
    }

    /// Both byte sequences are properly NUL-terminated.
    pub open spec fn wf(self) -> bool {
        &&& is_z_string(self.spec_source_z())
        &&& (self.spec_class_z() matches Some(c) ==> is_z_string(c))
    }

    /// Validate the inputs of a render call and prepare the exact values
    /// the foreign routine takes.
    ///
    /// Succeeds if and only if neither the source text nor the class name
    /// contains an embedded NUL byte; on success the plan holds each input
    /// with a NUL terminator appended and the bitmask encoding `flags`.
    pub fn new(source: &str, class: Option<&str>, flags: PikchrFlags) -> (r: Result<
        CallPlan,
        String,
    >)
        ensures
            r is Ok <==> (!source.spec_bytes().contains(0u8) && (class matches Some(c)
                ==> !c.spec_bytes().contains(0u8))),
            r matches Ok(p) ==> {
                &&& p.wf()
                &&& p.spec_source_z() == source.spec_bytes().push(0u8)
                &&& (match class {
                    Some(c) => p.spec_class_z() == Some(c.spec_bytes().push(0u8)),
                    None => p.spec_class_z() is None,
                })
                &&& p.spec_mask() == flags.spec_encode()
            },
            source.spec_bytes().contains(0u8) ==> (r matches Err(e) && e@
                == "pikchr source text contains an embedded NUL byte"@),
            (!source.spec_bytes().contains(0u8) && (class matches Some(c)
                && c.spec_bytes().contains(0u8))) ==> (r matches Err(e) && e@
                == "pikchr class name contains an embedded NUL byte"@),
    {
        let source_bytes = source.as_bytes();
        if contains_nul(source_bytes) {
            return Err("pikchr source text contains an embedded NUL byte".to_owned());
        }
        let class_z = match class {
            Some(c) => {
                let class_bytes = c.as_bytes();
                if contains_nul(class_bytes) {
                    return Err("pikchr class name contains an embedded NUL byte".to_owned());
                }
                Some(make_z(class_bytes))
            },
            None => None,
        };
        let plan = CallPlan { source_z: make_z(source_bytes), class_z, mask: flags.encode() };
        proof {
            lemma_push_nul_is_z(source.spec_bytes());
            if let Some(c) = class {
                lemma_push_nul_is_z(c.spec_bytes());
            }
        }
        Ok(plan)
    }

    /// The NUL-terminated source text, for making the foreign call.
    pub fn source_bytes(&self) -> (r: &Vec<u8>)
        ensures
            r@ == self.spec_source_z(),
    {
        &self.source_z
    }

    /// The NUL-terminated class name, if any, for making the foreign call.
    pub fn class_bytes(&self) -> (r: &Option<Vec<u8>>)
        ensures
            match *r {
                Some(v) => self.spec_class_z() == Some(v@),
                None => self.spec_class_z() is None,
            },
    {
        &self.class_z
    }

    /// The encoded flag bitmask, for making the foreign call.
    pub fn mask(&self) -> (m: u32)
        ensures
            m == self.spec_mask(),
    {
        self.mask
    }
}

/// Appending a NUL terminator to a byte sequence without one yields a
/// well-formed NUL-terminated sequence.
proof fn lemma_push_nul_is_z(s: Seq<u8>)
    requires
        !s.contains(0u8),
    ensures
        is_z_string(s.push(0u8)),
{
    let z = s.push(0u8);
    assert(z[z.len() - 1] == 0u8);
    assert forall|i: int| 0 <= i < z.len() - 1 implies z[i] != 0u8 by {
        assert(z[i] == s[i]);
    }
}

/// Whether the byte slice holds a NUL byte anywhere.
fn contains_nul(bytes: &[u8]) -> (r: bool)
    ensures
        r == bytes@.contains(0u8),
{
    let n = bytes.len();
    let mut i: usize = 0;
    while i < n
        invariant
            n == bytes@.len(),
            i <= n,
            forall|j: int| 0 <= j < i ==> bytes@[j] != 0u8,
        decreases n - i,
    {
        if bytes[i] == 0u8 {
            assert(bytes@.contains(0u8)) by {
                assert(bytes@[i as int] == 0u8);
            }
            return true;
        }
        i += 1;
    }
    false
}

/// Copy a byte slice into an owned vector and append a NUL terminator.
fn make_z(bytes: &[u8]) -> (v: Vec<u8>)
    ensures
        v@ == bytes@.push(0u8),
{
    let mut v = slice_to_vec(bytes);
    v.push(0u8);
    v
}

} // verus!
