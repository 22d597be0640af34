//! The ways a transfer can fail. Each of them ends the worker that meets it.

use vstd::prelude::*;
use vstd::string::*;

verus! {

#[derive(Debug, PartialEq, Eq)]
pub enum TransferError {
    /// A message that is malformed, or that the current state does not expect.
    Protocol(String),
    /// The filesystem refused to open, read or write the file.
    Io(String),
    /// An expected response did not arrive within its bound.
    Timeout(String),
    /// The peer answered with an error of its own.
    Remote(String),
}

/// What a `TransferError` stands for in contracts.
pub enum TransferErrorView {
    Protocol(Seq<char>),
    Io(Seq<char>),
    Timeout(Seq<char>),
    Remote(Seq<char>),
}

impl View for TransferError {
    type V = TransferErrorView;

    open spec fn view(&self) -> TransferErrorView {
        match self {
            TransferError::Protocol(text) => TransferErrorView::Protocol(text@),
            TransferError::Io(text) => TransferErrorView::Io(text@),
            TransferError::Timeout(text) => TransferErrorView::Timeout(text@),
            TransferError::Remote(text) => TransferErrorView::Remote(text@),
        }
    }
}

impl TransferErrorView {
    /// The text that travels up the response chain.
    pub open spec fn description(self) -> Seq<char> {
        match self {
            TransferErrorView::Protocol(text) => text,
            TransferErrorView::Io(text) => text,
            TransferErrorView::Timeout(text) => text,
            TransferErrorView::Remote(text) => text,
        }
    }
}

impl Clone for TransferError {
    fn clone(&self) -> (copy: Self)
        ensures
            copy == *self,
    {
        match self {
            TransferError::Protocol(text) => TransferError::Protocol(text.clone()),
            TransferError::Io(text) => TransferError::Io(text.clone()),
            TransferError::Timeout(text) => TransferError::Timeout(text.clone()),
            TransferError::Remote(text) => TransferError::Remote(text.clone()),
        }
    }
}

impl TransferError {
    /// The text that travels up the response chain.
    pub fn description(&self) -> (text: String)
        ensures
            text@ == self@.description(),
    {
        match self {
            TransferError::Protocol(text) => text.clone(),
            TransferError::Io(text) => text.clone(),
            TransferError::Timeout(text) => text.clone(),
            TransferError::Remote(text) => text.clone(),
        }
    }
}

} // verus!
