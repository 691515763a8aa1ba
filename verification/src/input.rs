//! Input abstractions for the interactive session.

use vstd::prelude::*;

verus! {

/// A source of user input lines.
///
/// The interactive loop reads through this trait, so it runs the same
/// over a console, a test script, or a channel. An implementation
/// returns None once its input is exhausted.
pub trait InputReader {
    /// Read one line of input; None at end of input.
    fn read_line(&mut self) -> Option<String>;
}

/// The marker for the console reader; the application layer wires it
/// to standard input.
#[derive(Debug)]
pub struct StdinInputReader;

impl StdinInputReader {
    /// The console reader.
    pub fn new() -> StdinInputReader {
        StdinInputReader
    }
}

} // verus!
