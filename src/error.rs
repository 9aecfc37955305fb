use vstd::prelude::*;

use crate::element::{ElementType, PrimitiveType};

verus! {

/// The recoverable errors of the library.
#[derive(Debug, Clone, PartialEq, Eq)]
pub enum Error {
    /// A structural primitive type was used where an element type is needed.
    NotAnElementType { got: PrimitiveType },
    /// The runtime reported a type code that names no primitive type.
    UnexpectedElementType(i32),
    /// A value holds elements of one type and the host asked for another.
    ElementTypeMismatch { on_literal: ElementType, on_host: ElementType },
    /// Reading or writing a serialized module failed.
    Io { msg: String },
    /// The runtime reported a failure: its message, and the call stack that
    /// was captured when the failure was read.
    XlaError { msg: String, backtrace: String },
}

} // verus!
