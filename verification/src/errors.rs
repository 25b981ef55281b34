//! Fatal assembly errors: a kind, a human-readable cause, and the 1-based
//! source line they arose on.

use vstd::prelude::*;

verus! {

/// The kinds of fatal error the assembler can report.
#[derive(Clone, Copy, PartialEq, Eq, Structural, Debug)]
pub enum ErrorKind {
    /// The line matches no production of the source grammar.
    Syntax,
    /// An identifier in an operand resolved in neither namespace.
    UndefinedSymbol,
    /// An instruction-shaped line whose mnemonic is not in the opcode table.
    UnknownMnemonic,
    /// The classifier selected a mode the mnemonic does not support.
    IllegalAddressMode,
    /// A relative displacement outside -128..=127.
    BranchOutOfRange,
    /// A directive outside the recognized set.
    UnknownPseudoOp,
    /// An error raised by a caller through `ErrorMsg::new`.
    General,
}

impl ErrorKind {
    /// A short rendering of the cause.
    pub fn describe(&self) -> &'static str {
        match self {
            ErrorKind::Syntax => "invalid syntax",
            ErrorKind::UndefinedSymbol => "undefined symbol",
            ErrorKind::UnknownMnemonic => "unknown mnemonic",
            ErrorKind::IllegalAddressMode => "illegal addressing mode",
            ErrorKind::BranchOutOfRange => "branch out of range",
            ErrorKind::UnknownPseudoOp => "invalid pseudo-op",
            ErrorKind::General => "error",
        }
    }
}

/// A fatal error with its cause and source position. A line number of 0
/// conventionally means the error is not tied to a line.
#[derive(Debug)]
pub struct ErrorMsg {
    pub kind: ErrorKind,
    pub msg: String,
    pub line_num: usize,
}

impl ErrorMsg {
    /// Wraps a free-form message and line number.
    pub fn new(msg: String, line_num: usize) -> (r: Self)
        ensures
            r.kind == ErrorKind::General,
            r.msg == msg,
            r.line_num == line_num,
    {
        ErrorMsg { kind: ErrorKind::General, msg, line_num }
    }

    /// Builds the error for a kind at a line.
    pub fn from_kind(kind: ErrorKind, line_num: usize) -> (r: Self)
        ensures
            r.kind == kind,
            r.line_num == line_num,
    {
        let msg = kind.describe().to_string();
        ErrorMsg { kind, msg, line_num }
    }
}

} // verus!
