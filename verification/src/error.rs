//! Failures of harness operations.

use vstd::prelude::*;

verus! {

/// Why a harness operation failed.
#[derive(Debug)]
pub enum HarnessError {
    /// The app-server could not be started.
    Spawn(String),
    /// The connection to the app-server, or a channel of this process, failed.
    Transport(String),
    /// A message or an operation broke the protocol.
    Protocol(String),
    /// No answer came in time.
    Timeout(String),
    /// The operation is not available in the current state.
    Unsupported(String),
    /// The app-server answered with an error.
    ProviderRejected {
        /// The JSON-RPC error code.
        code: i64,
        /// The message that came with it.
        message: String,
    },
}

/// A failure, with the characters of its message.
pub enum ErrorView {
    /// View of [`HarnessError::Spawn`].
    Spawn(Seq<char>),
    /// View of [`HarnessError::Transport`].
    Transport(Seq<char>),
    /// View of [`HarnessError::Protocol`].
    Protocol(Seq<char>),
    /// View of [`HarnessError::Timeout`].
    Timeout(Seq<char>),
    /// View of [`HarnessError::Unsupported`].
    Unsupported(Seq<char>),
    /// View of [`HarnessError::ProviderRejected`].
    ProviderRejected {
        /// The JSON-RPC error code.
        code: i64,
        /// The message that came with it.
        message: Seq<char>,
    },
}

impl View for HarnessError {
    type V = ErrorView;

    open spec fn view(&self) -> ErrorView {
        match *self {
            HarnessError::Spawn(m) => ErrorView::Spawn(m@),
            HarnessError::Transport(m) => ErrorView::Transport(m@),
            HarnessError::Protocol(m) => ErrorView::Protocol(m@),
            HarnessError::Timeout(m) => ErrorView::Timeout(m@),
            HarnessError::Unsupported(m) => ErrorView::Unsupported(m@),
            HarnessError::ProviderRejected { code, message } => ErrorView::ProviderRejected {
                code,
                message: message@,
            },
        }
    }
}

impl HarnessError {
    /// Another value of the same failure.
    pub fn copy(&self) -> (error: HarnessError)
        ensures
            error == *self,
    {
        match self {
            HarnessError::Spawn(m) => HarnessError::Spawn(m.clone()),
            HarnessError::Transport(m) => HarnessError::Transport(m.clone()),
            HarnessError::Protocol(m) => HarnessError::Protocol(m.clone()),
            HarnessError::Timeout(m) => HarnessError::Timeout(m.clone()),
            HarnessError::Unsupported(m) => HarnessError::Unsupported(m.clone()),
            HarnessError::ProviderRejected { code, message } => HarnessError::ProviderRejected {
                code: *code,
                message: message.clone(),
            },
        }
    }
}

/// The result of an operation, with the failure's message as characters.
pub open spec fn outcome<T>(result: Result<T, HarnessError>) -> Result<T, ErrorView> {
    match result {
        Ok(value) => Ok(value),
        Err(error) => Err(error@),
    }
}

/// The result of an operation, with the success and the failure by their views.
pub open spec fn outcome_view<T: View>(result: Result<T, HarnessError>) -> Result<T::V, ErrorView> {
    match result {
        Ok(value) => Ok(value@),
        Err(error) => Err(error@),
    }
}

} // verus!
