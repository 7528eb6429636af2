//! Interpretation of the foreign routine's outcome, and the owned result.
//!
//! The foreign routine reports success or failure through a single buffer
//! and a sign sentinel: a negative reported width means the buffer holds an
//! error message, a non-negative width means it holds the rendered SVG.
//! [`Pikchr::interpret`] performs that sign check exactly once; past this
//! point the rest of the program sees only a `Result`.

use vstd::prelude::*;

verus! {

/// The raw triple one foreign call reports, with the buffer already
/// decoded to owned text: the foreign allocation itself never crosses
/// into this library, only its decoded contents do.
///
/// The foreign routine pairs a non-negative width with a non-negative
/// height; [`ForeignOutcome::wf`] records that pairing.
pub struct ForeignOutcome {
    /// The decoded buffer contents: the rendered SVG on success, the
    /// error message on failure.
    pub text: String,
    /// The reported width; negative exactly when the call failed.
    pub width: i32,
    /// The reported height.
    pub height: i32,
}

impl ForeignOutcome {
    /// The pairing the foreign routine guarantees: a successful call
    /// reports a non-negative height along with its non-negative width.
    pub open spec fn wf(self) -> bool {
        self.width >= 0 ==> self.height >= 0
    }
}

/// A rendered pikchr diagram: the SVG text of one successful render call
/// together with its reported width and height.
///
/// A value of this type is created only by [`Pikchr::interpret`] on the
/// success path, owns its text outright, and cannot be copied; its width
/// and height are never negative.
#[derive(Debug)]
pub struct Pikchr {
    rendered: String,
    width: i32,
    height: i32,
}

impl Pikchr {
    /// The rendered SVG text.
    pub closed spec fn spec_rendered(self) -> Seq<char> {
        self.rendered@
    }

    /// The reported width.
    pub closed spec fn spec_width(self) -> int {
        self.width as int
    }

    /// The reported height.
    pub closed spec fn spec_height(self) -> int {
        self.height as int
    }

    /// The dimensions of a successfully rendered diagram are never
    /// negative.
    pub open spec fn wf(self) -> bool {
        self.spec_width() >= 0 && self.spec_height() >= 0
    }

    /// Classify the outcome of one foreign call as success or failure.
    ///
    /// The sign of the reported width is the sole discriminator: a
    /// negative width means the decoded buffer was an error message,
    /// which is returned as the error value; otherwise the decoded buffer
    /// is the rendered SVG, which is wrapped together with the reported
    /// dimensions.  Total for every well-formed outcome: each one maps to
    /// exactly one of the two variants.
    pub fn interpret(outcome: ForeignOutcome) -> (r: Result<Pikchr, String>)
        requires
            outcome.wf(),
        ensures
            r is Ok <==> outcome.width >= 0,
            r matches Ok(p) ==> {
                &&& p.wf()
                &&& p.spec_rendered() == outcome.text@
                &&& p.spec_width() == outcome.width as int
                &&& p.spec_height() == outcome.height as int
            },
            r matches Err(e) ==> e@ == outcome.text@,
    {
        if outcome.width < 0 {
            Err(outcome.text)
        } else {
            Ok(Pikchr { rendered: outcome.text, width: outcome.width, height: outcome.height })
        }
    }

    /// Retrieve the width of this Pikchr.
    pub fn width(&self) -> (w: isize)
        ensures
            w as int == self.spec_width(),
    {
        self.width as isize
    }

    /// Retrieve the height of this Pikchr.
    pub fn height(&self) -> (h: isize)
        ensures
            h as int == self.spec_height(),
    {
        self.height as isize
    }

    /// Retrieve the rendered SVG text.
    pub fn rendered(&self) -> (r: &str)
        ensures
            r@ == self.spec_rendered(),
    {
        self.rendered.as_str()
    }
}

} // verus!
