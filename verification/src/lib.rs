//! Safe, verified core of a binding to the pikchr diagram renderer.
//!
//! The renderer itself is a foreign routine that turns PIC-like markup into
//! an SVG document.  Everything this library can check statically is checked:
//! encoding the caller's options into the flag bitmask the routine expects,
//! validating and NUL-terminating the byte sequences handed to it, and
//! classifying the routine's sentinel-discriminated outcome into an owned
//! success value or an error message.  The single foreign call, which needs
//! raw pointers, lives outside this library.

mod flags;
mod image;
mod plan;

pub use flags::lemma_dark_mode_bit_independent;
pub use flags::lemma_encode_deterministic;
pub use flags::lemma_plain_errors_bit_independent;
pub use flags::PikchrFlags;
pub use flags::PIKCHR_DARK_MODE;
pub use flags::PIKCHR_PLAINTEXT_ERRORS;
pub use image::ForeignOutcome;
pub use image::Pikchr;
pub use plan::is_z_string;
pub use plan::CallPlan;
