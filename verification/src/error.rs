//! The translator's error taxonomy.
//!
//! Translation is all-or-nothing per input: every error is fatal to the run.
//! `Malformed` covers a missing expected input slot, field, mutation entry or
//! referenced block, mismatched parallel argument arrays, and an unrecognized
//! opcode in a position where one is required; `Unsupported` covers a member
//! of a recognized opcode family with no translation rule; `Structure` covers
//! a program-entry count other than one; `Depth` is returned when the
//! resolver's recursion bound is exhausted, which only happens on a cyclic or
//! absurdly deep block graph.

use vstd::prelude::*;

verus! {

/// A fatal translation error.
#[derive(Debug)]
pub enum CompileError {
    /// Malformed input: the payload names the missing slot, field, mutation
    /// key or block identifier, or holds the unrecognized opcode.
    Malformed(String),
    /// A member of a recognized opcode family with no translation rule: the
    /// payload is the offending opcode or operator.
    Unsupported(String),
    /// The number of program-entry blocks is not exactly one.
    Structure,
    /// The recursion bound was exhausted while walking the block graph.
    Depth,
}

/// Mathematical view of `CompileError`.
#[verifier::ext_equal]
pub enum ErrorV {
    Malformed(Seq<char>),
    Unsupported(Seq<char>),
    Structure,
    Depth,
}

impl DeepView for CompileError {
    type V = ErrorV;

    open spec fn deep_view(&self) -> ErrorV {
        match self {
            CompileError::Malformed(s) => ErrorV::Malformed(s@),
            CompileError::Unsupported(s) => ErrorV::Unsupported(s@),
            CompileError::Structure => ErrorV::Structure,
            CompileError::Depth => ErrorV::Depth,
        }
    }
}

impl CompileError {
    /// A short description of the error kind, for reporting by callers.
    pub fn kind_message(&self) -> (r: &'static str)
        ensures
            r@ == match self.deep_view() {
                ErrorV::Malformed(_) => "malformed input"@,
                ErrorV::Unsupported(_) => "unsupported construct"@,
                ErrorV::Structure => "program entry count is not one"@,
                ErrorV::Depth => "recursion limit reached"@,
            },
    {
        match self {
            CompileError::Malformed(_) => "malformed input",
            CompileError::Unsupported(_) => "unsupported construct",
            CompileError::Structure => "program entry count is not one",
            CompileError::Depth => "recursion limit reached",
        }
    }

    /// The context payload, where the error carries one.
    pub fn context(&self) -> (r: Option<&String>)
        ensures
            match self.deep_view() {
                ErrorV::Malformed(s) => r matches Some(c) && c@ == s,
                ErrorV::Unsupported(s) => r matches Some(c) && c@ == s,
                _ => r is None,
            },
    {
        match self {
            CompileError::Malformed(s) => Some(s),
            CompileError::Unsupported(s) => Some(s),
            CompileError::Structure => None,
            CompileError::Depth => None,
        }
    }
}

/// The deep view of a `Result`, mapping both sides.
pub open spec fn rv<T: DeepView, E: DeepView>(r: Result<T, E>) -> Result<T::V, E::V> {
    match r {
        Ok(t) => Ok(t.deep_view()),
        Err(e) => Err(e.deep_view()),
    }
}

} // verus!
