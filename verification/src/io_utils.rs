//! The standard library's utility streams (an always-empty reader, a reader
//! that repeats one byte forever, and a writer that discards everything),
//! made known to the verifier so that verified code can build them.

use vstd::prelude::*;

verus! {

/// `std::io::Empty` is carried as an opaque value.
#[verifier::external_type_specification]
#[verifier::external_body]
pub struct ExEmpty(std::io::Empty);

/// `std::io::Repeat` is carried as an opaque value.
#[verifier::external_type_specification]
#[verifier::external_body]
pub struct ExRepeat(std::io::Repeat);

/// `std::io::Sink` is carried as an opaque value.
#[verifier::external_type_specification]
#[verifier::external_body]
pub struct ExSink(std::io::Sink);

/// `std::io::empty` builds a reader that is always at end of file; it takes
/// no input, and nothing about the value is claimed.
pub assume_specification[ std::io::empty ]() -> std::io::Empty;

/// `std::io::repeat` builds a reader that yields `byte` forever; nothing
/// about the opaque value is claimed.
pub assume_specification[ std::io::repeat ](byte: u8) -> std::io::Repeat;

/// `std::io::sink` builds a writer that discards what it is given; nothing
/// about the value is claimed.
pub assume_specification[ std::io::sink ]() -> std::io::Sink;

/// Builds each utility stream once, showing that all three can be made
/// without any setup: an empty reader, a reader repeating the byte `b'c'`, and a sink.
pub fn const_utils() {
    let _empty: std::io::Empty = std::io::empty();
    let _repeat: std::io::Repeat = std::io::repeat(0x63u8);
    let _sink: std::io::Sink = std::io::sink();
}

} // verus!
