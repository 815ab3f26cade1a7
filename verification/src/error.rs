use vstd::prelude::*;

verus! {

/// Everything that can go wrong in the library or at its edges.
///
/// Only configuration problems (`DuplicateKey`) are fatal to the whole
/// process; the rest stay local to one module or one cycle.
#[derive(Debug, PartialEq, Eq)]
pub enum Error {
    /// A computed value does not fit the range of the output type.
    OutOfRange,
    /// A message arrived whose key no registered module owns.
    UnknownKey(char),
    /// Two registered modules were given the same key.
    DuplicateKey(char),
    /// Reading an external data source failed; holds the source's name.
    Read(String),
    /// Text read from an external source could not be parsed.
    Parse(String),
    /// The message channel closed: every producer has exited.
    ChannelClosed,
}

} // verus!
