//! The ways in which the server turns a request down.
use vstd::prelude::*;

use crate::ids::{ThreadId, TurnId};
use crate::text;

verus! {

/// Why the server turned a request down.
#[derive(Debug, Clone, PartialEq, Eq)]
pub enum AppServerError {
    InvalidRequest(String),
    ThreadNotFound(ThreadId),
    ThreadBusy(ThreadId),
    TurnRejected { thread_id: ThreadId, reason: String },
    TurnInterrupted { thread_id: ThreadId, turn_id: TurnId },
}

impl AppServerError {
    /// The error in words.
    pub open spec fn words(self) -> Seq<char> {
        match self {
            AppServerError::InvalidRequest(reason) => "invalid request: "@ + reason@,
            AppServerError::ThreadNotFound(thread_id) => "thread not found: "@ + thread_id@,
            AppServerError::ThreadBusy(thread_id) => "thread is busy: "@ + thread_id@,
            AppServerError::TurnRejected { thread_id, reason } => "turn rejected for thread "@
                + thread_id@ + ": "@ + reason@,
            AppServerError::TurnInterrupted { thread_id, turn_id } =>
                "turn interrupted for thread "@ + thread_id@ + ": "@ + turn_id@,
        }
    }

    /// The error in words.
    pub fn message(&self) -> (res: String)
        ensures
            res@ == self.words(),
    {
        match self {
            AppServerError::InvalidRequest(reason) => text::concat2(
                "invalid request: ",
                reason.as_str(),
            ),
            AppServerError::ThreadNotFound(thread_id) => text::concat2(
                "thread not found: ",
                thread_id.as_str(),
            ),
            AppServerError::ThreadBusy(thread_id) => text::concat2(
                "thread is busy: ",
                thread_id.as_str(),
            ),
            AppServerError::TurnRejected { thread_id, reason } => text::concat4(
                "turn rejected for thread ",
                thread_id.as_str(),
                ": ",
                reason.as_str(),
            ),
            AppServerError::TurnInterrupted { thread_id, turn_id } => text::concat4(
                "turn interrupted for thread ",
                thread_id.as_str(),
                ": ",
                turn_id.as_str(),
            ),
        }
    }

    /// An invalid request, for this reason.
    pub fn invalid(reason: &str) -> (res: Self)
        ensures
            res.is_invalid(reason@),
    {
        AppServerError::InvalidRequest(reason.to_owned())
    }

    /// Whether this is an invalid request, for this reason.
    pub open spec fn is_invalid(self, reason: Seq<char>) -> bool {
        self matches AppServerError::InvalidRequest(given) && given@ == reason
    }

    /// Whether this says that there is no thread of this id.
    pub open spec fn is_not_found(self, id: Seq<char>) -> bool {
        self matches AppServerError::ThreadNotFound(given) && given@ == id
    }

    /// Whether this turns down a turn of the thread with this id, for this reason.
    pub open spec fn is_rejected(self, id: Seq<char>, why: Seq<char>) -> bool {
        self matches AppServerError::TurnRejected { thread_id, reason } && thread_id@ == id
            && reason@ == why
    }
}

} // verus!
