//! Identifiers: text with a purpose.
use vstd::prelude::*;

use crate::data::{Alike, Duplicate};

verus! {

/// Names a thread.
#[derive(Debug, Clone, PartialEq, Eq, Hash)]
pub struct ThreadId(pub String);

impl DeepView for ThreadId {
    type V = Seq<char>;

    open spec fn deep_view(&self) -> Seq<char> {
        self.0@
    }
}

impl View for ThreadId {
    type V = Seq<char>;

    open spec fn view(&self) -> Seq<char> {
        self.0@
    }
}

impl ThreadId {
    /// The identifier written `text`.
    pub fn new(text: &str) -> (res: Self)
        ensures
            res@ == text@,
    {
        ThreadId(text.to_owned())
    }

    /// The text of the identifier.
    pub fn as_str(&self) -> (res: &str)
        ensures
            res@ == self@,
    {
        self.0.as_str()
    }
}

impl Duplicate for ThreadId {
    fn duplicate(&self) -> (res: Self) {
        ThreadId(self.0.clone())
    }
}

impl Alike for ThreadId {
    fn alike(&self, other: &Self) -> (res: bool) {
        self.0 == other.0
    }
}

/// Names a turn of a thread.
#[derive(Debug, Clone, PartialEq, Eq, Hash)]
pub struct TurnId(pub String);

impl DeepView for TurnId {
    type V = Seq<char>;

    open spec fn deep_view(&self) -> Seq<char> {
        self.0@
    }
}

impl View for TurnId {
    type V = Seq<char>;

    open spec fn view(&self) -> Seq<char> {
        self.0@
    }
}

impl TurnId {
    /// The identifier written `text`.
    pub fn new(text: &str) -> (res: Self)
        ensures
            res@ == text@,
    {
        TurnId(text.to_owned())
    }

    /// The text of the identifier.
    pub fn as_str(&self) -> (res: &str)
        ensures
            res@ == self@,
    {
        self.0.as_str()
    }
}

impl Duplicate for TurnId {
    fn duplicate(&self) -> (res: Self) {
        TurnId(self.0.clone())
    }
}

impl Alike for TurnId {
    fn alike(&self, other: &Self) -> (res: bool) {
        self.0 == other.0
    }
}

/// Names a recorded event.
#[derive(Debug, Clone, PartialEq, Eq, Hash)]
pub struct EventId(pub String);

impl DeepView for EventId {
    type V = Seq<char>;

    open spec fn deep_view(&self) -> Seq<char> {
        self.0@
    }
}

impl View for EventId {
    type V = Seq<char>;

    open spec fn view(&self) -> Seq<char> {
        self.0@
    }
}

impl EventId {
    /// The identifier written `text`.
    pub fn new(text: &str) -> (res: Self)
        ensures
            res@ == text@,
    {
        EventId(text.to_owned())
    }

    /// The text of the identifier.
    pub fn as_str(&self) -> (res: &str)
        ensures
            res@ == self@,
    {
        self.0.as_str()
    }
}

impl Duplicate for EventId {
    fn duplicate(&self) -> (res: Self) {
        EventId(self.0.clone())
    }
}

impl Alike for EventId {
    fn alike(&self, other: &Self) -> (res: bool) {
        self.0 == other.0
    }
}

/// Names a request that waits for the user.
#[derive(Debug, Clone, PartialEq, Eq, Hash)]
pub struct ApprovalId(pub String);

impl DeepView for ApprovalId {
    type V = Seq<char>;

    open spec fn deep_view(&self) -> Seq<char> {
        self.0@
    }
}

impl View for ApprovalId {
    type V = Seq<char>;

    open spec fn view(&self) -> Seq<char> {
        self.0@
    }
}

impl ApprovalId {
    /// The identifier written `text`.
    pub fn new(text: &str) -> (res: Self)
        ensures
            res@ == text@,
    {
        ApprovalId(text.to_owned())
    }

    /// The text of the identifier.
    pub fn as_str(&self) -> (res: &str)
        ensures
            res@ == self@,
    {
        self.0.as_str()
    }
}

impl Duplicate for ApprovalId {
    fn duplicate(&self) -> (res: Self) {
        ApprovalId(self.0.clone())
    }
}

impl Alike for ApprovalId {
    fn alike(&self, other: &Self) -> (res: bool) {
        self.0 == other.0
    }
}

/// Names a session.
#[derive(Debug, Clone, PartialEq, Eq, Hash)]
pub struct SessionId(pub String);

impl DeepView for SessionId {
    type V = Seq<char>;

    open spec fn deep_view(&self) -> Seq<char> {
        self.0@
    }
}

impl View for SessionId {
    type V = Seq<char>;

    open spec fn view(&self) -> Seq<char> {
        self.0@
    }
}

impl SessionId {
    /// The identifier written `text`.
    pub fn new(text: &str) -> (res: Self)
        ensures
            res@ == text@,
    {
        SessionId(text.to_owned())
    }

    /// The text of the identifier.
    pub fn as_str(&self) -> (res: &str)
        ensures
            res@ == self@,
    {
        self.0.as_str()
    }
}

impl Duplicate for SessionId {
    fn duplicate(&self) -> (res: Self) {
        SessionId(self.0.clone())
    }
}

impl Alike for SessionId {
    fn alike(&self, other: &Self) -> (res: bool) {
        self.0 == other.0
    }
}

/// Names a running command.
#[derive(Debug, Clone, PartialEq, Eq, Hash)]
pub struct ExecSessionId(pub String);

impl DeepView for ExecSessionId {
    type V = Seq<char>;

    open spec fn deep_view(&self) -> Seq<char> {
        self.0@
    }
}

impl View for ExecSessionId {
    type V = Seq<char>;

    open spec fn view(&self) -> Seq<char> {
        self.0@
    }
}

impl ExecSessionId {
    /// The identifier written `text`.
    pub fn new(text: &str) -> (res: Self)
        ensures
            res@ == text@,
    {
        ExecSessionId(text.to_owned())
    }

    /// The text of the identifier.
    pub fn as_str(&self) -> (res: &str)
        ensures
            res@ == self@,
    {
        self.0.as_str()
    }
}

impl Duplicate for ExecSessionId {
    fn duplicate(&self) -> (res: Self) {
        ExecSessionId(self.0.clone())
    }
}

impl Alike for ExecSessionId {
    fn alike(&self, other: &Self) -> (res: bool) {
        self.0 == other.0
    }
}

} // verus!
