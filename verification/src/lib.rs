//! A sound-synthesizer core: a waveform expression language with a verified
//! parser, together with the exact integer and decision logic of the signal
//! generators.  The floating-point sample arithmetic itself lives outside the
//! verified library.

pub mod ast;
pub mod combine;
pub mod noise;
pub mod parse;
