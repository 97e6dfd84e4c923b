//! The structured error taxonomy of the embedding layer.
//!
//! Every fallible operation returns one of these; none aborts on an
//! engine-reported failure. `Compiler` and `Exception` are recorded by the
//! engine-fired hooks into the pending-error mailbox, `Vm` is the opaque
//! fallback when no hook fired, `Nul` is caught before the engine is ever
//! called, and `Str` is a diagnostic raised by this layer itself.

use vstd::prelude::*;

verus! {

/// A failure reported by the embedding layer.
#[derive(Debug, PartialEq)]
pub enum Error {
    /// Caller text held an embedded null byte; the payload is the position
    /// of the first one. Raised before any engine call is made.
    Nul(usize),
    /// A diagnostic raised by this layer, such as an unrecognized raw type
    /// tag.
    Str(String),
    /// An opaque engine failure for which no hook recorded anything finer.
    Vm,
    /// A compile failure recorded by the compiler-error hook.
    Compiler { desc: String, file: String, line: i64, col: i64 },
    /// A runtime failure recorded by the runtime-error hook.
    Exception(String),
}

/// The mathematical shape of an [`Error`], with text as character sequences.
pub enum ErrorModel {
    Nul(int),
    Str(Seq<char>),
    Vm,
    Compiler { desc: Seq<char>, file: Seq<char>, line: i64, col: i64 },
    Exception(Seq<char>),
}

impl View for Error {
    type V = ErrorModel;

    open spec fn view(&self) -> ErrorModel {
        match self {
            Error::Nul(i) => ErrorModel::Nul(*i as int),
            Error::Str(s) => ErrorModel::Str(s@),
            Error::Vm => ErrorModel::Vm,
            Error::Compiler { desc, file, line, col } => (ErrorModel::Compiler {
                desc: desc@,
                file: file@,
                line: *line,
                col: *col,
            }),
            Error::Exception(s) => ErrorModel::Exception(s@),
        }
    }
}

} // verus!
