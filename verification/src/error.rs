//! The errors that a call reports to the peer.

use vstd::prelude::*;

verus! {

/// Why a tool call failed.
#[derive(Debug, PartialEq, Eq)]
pub enum ToolError {
    /// An argument is missing or of the wrong kind; holds the field's name.
    InvalidParameters(String),
    /// The store could not be read or written; holds the store's message.
    ExecutionError(String),
    /// No tool of that name is registered; holds the name.
    NotFound(String),
}

/// The mathematical value of a [`ToolError`].
pub ghost enum ToolErrorView {
    InvalidParameters(Seq<char>),
    ExecutionError(Seq<char>),
    NotFound(Seq<char>),
}

impl View for ToolError {
    type V = ToolErrorView;

    open spec fn view(&self) -> ToolErrorView {
        match self {
            ToolError::InvalidParameters(s) => ToolErrorView::InvalidParameters(s@),
            ToolError::ExecutionError(s) => ToolErrorView::ExecutionError(s@),
            ToolError::NotFound(s) => ToolErrorView::NotFound(s@),
        }
    }
}

/// Why a resource could not be read.
#[derive(Debug, PartialEq, Eq)]
pub enum ResourceError {
    /// No resource has that URI; holds the URI.
    NotFound(String),
}

/// Why a prompt could not be had.
#[derive(Debug, PartialEq, Eq)]
pub enum PromptError {
    /// No prompt has that name; holds the name.
    NotFound(String),
}

} // verus!
