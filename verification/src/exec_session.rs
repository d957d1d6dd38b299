//! Commands that run beside a conversation.
use vstd::prelude::*;

use crate::data::Duplicate;
use crate::events::ExecOutputStream;
use crate::ids::{EventId, ExecSessionId, SessionId};
use crate::text;
use crate::text_map::TextMap;

verus! {

/// Where a command stands.
#[derive(Debug, Clone, Copy, PartialEq, Eq, Structural)]
pub enum ExecSessionStatus {
    Running,
    Exited,
    Terminated,
}

/// What is known of a command: what it has written so far, where it stands, and how it ended.
#[derive(Debug, Clone, PartialEq, Eq)]
pub struct ExecSessionState {
    pub stdout: String,
    pub stderr: String,
    pub status: Option<ExecSessionStatus>,
    pub exit_code: Option<i32>,
}

/// What is shown of a command.
#[derive(Debug, Clone, PartialEq, Eq)]
pub struct ExecSessionSnapshot {
    pub exec_session_id: ExecSessionId,
    pub command: String,
    pub cwd: String,
    pub status: ExecSessionStatus,
    pub stdout: String,
    pub stderr: String,
    pub exit_code: Option<i32>,
}

/// What is recorded of the output of a command.
#[derive(Debug, Clone, PartialEq, Eq)]
pub struct ExecOutputEvent {
    pub event_id: EventId,
    pub session_id: SessionId,
    pub exec_session_id: ExecSessionId,
    pub stream: ExecOutputStream,
    pub chunk: String,
}

impl ExecSessionState {
    /// A command that has just been started.
    pub fn start() -> (res: Self)
        ensures
            res.stdout@.len() == 0,
            res.stderr@.len() == 0,
            res.status == Some(ExecSessionStatus::Running),
            res.exit_code is None,
    {
        ExecSessionState {
            stdout: String::new(),
            stderr: String::new(),
            status: Some(ExecSessionStatus::Running),
            exit_code: None,
        }
    }

    /// Whether the command runs.
    pub open spec fn is_running(self) -> bool {
        self.status == Some(ExecSessionStatus::Running)
    }

    /// What is known of the command after a look at its process: `exited` holds the exit code,
    /// where the process has ended. A command that was ended otherwise stays so.
    pub open spec fn refreshed(self, exited: Option<Option<i32>>) -> Self {
        match exited {
            Some(exit_code) => if self.is_running() {
                ExecSessionState { status: Some(ExecSessionStatus::Exited), exit_code, ..self }
            } else {
                self
            },
            None => self,
        }
    }

    /// What is known of the command after it was ended from outside: such a command has no exit
    /// code.
    pub open spec fn terminated(self) -> Self {
        ExecSessionState {
            status: Some(ExecSessionStatus::Terminated),
            exit_code: None,
            ..self
        }
    }

    /// Takes in what became of the process.
    pub fn refresh_status(&mut self, exited: Option<Option<i32>>)
        ensures
            *final(self) == old(self).refreshed(exited),
    {
        if let Some(code) = exited {
            if let Some(ExecSessionStatus::Running) = self.status {
                self.status = Some(ExecSessionStatus::Exited);
                self.exit_code = code;
            }
        }
    }

    /// Marks the command as ended from outside.
    pub fn terminate(&mut self)
        ensures
            *final(self) == old(self).terminated(),
    {
        self.status = Some(ExecSessionStatus::Terminated);
        self.exit_code = None;
    }

    /// Takes in what the command has written.
    pub fn append_output(&mut self, stream: ExecOutputStream, chunk: &str)
        ensures
            final(self).status == old(self).status,
            final(self).exit_code == old(self).exit_code,
            match stream {
                ExecOutputStream::Stdout => {
                    &&& final(self).stdout@ == old(self).stdout@ + chunk@
                    &&& final(self).stderr == old(self).stderr
                },
                ExecOutputStream::Stderr => {
                    &&& final(self).stderr@ == old(self).stderr@ + chunk@
                    &&& final(self).stdout == old(self).stdout
                },
            },
    {
        match stream {
            ExecOutputStream::Stdout => {
                self.stdout = text::concat2(self.stdout.as_str(), chunk);
            },
            ExecOutputStream::Stderr => {
                self.stderr = text::concat2(self.stderr.as_str(), chunk);
            },
        }
    }

    /// Whether something can be written to the command: it must run, and its input must be open.
    pub fn write_stdin(&self, stdin_open: bool) -> (res: Result<(), &'static str>)
        ensures
            match res {
                Ok(_) => self.is_running() && stdin_open,
                Err(reason) => if !self.is_running() {
                    reason@ == "exec session is not running"@
                } else {
                    !stdin_open && reason@ == "stdin is closed for this exec session"@
                },
            },
    {
        match self.status {
            Some(ExecSessionStatus::Running) => {
                if stdin_open {
                    Ok(())
                } else {
                    Err("stdin is closed for this exec session")
                }
            },
            _ => Err("exec session is not running"),
        }
    }

    /// What is shown of the command.
    pub fn snapshot(&self, exec_session_id: &ExecSessionId, command: &str, cwd: &str) -> (res:
        ExecSessionSnapshot)
        ensures
            res.exec_session_id@ == exec_session_id@,
            res.command@ == command@,
            res.cwd@ == cwd@,
            res.status == match self.status {
                Some(status) => status,
                None => ExecSessionStatus::Running,
            },
            res.stdout@ == self.stdout@,
            res.stderr@ == self.stderr@,
            res.exit_code == self.exit_code,
    {
        ExecSessionSnapshot {
            exec_session_id: exec_session_id.duplicate(),
            command: command.to_owned(),
            cwd: cwd.to_owned(),
            status: match self.status {
                Some(status) => status,
                None => ExecSessionStatus::Running,
            },
            stdout: self.stdout.clone(),
            stderr: self.stderr.clone(),
            exit_code: self.exit_code,
        }
    }
}

/// A command ends once: whatever is seen of its process later, it stays as it ended.
pub proof fn commands_end_once(
    state: ExecSessionState,
    exited: Option<Option<i32>>,
    later: Option<Option<i32>>,
)
    ensures
        state.terminated().refreshed(later) == state.terminated(),
        exited is Some ==> state.refreshed(exited).refreshed(later) == state.refreshed(exited),
{
}

/// What is recorded of the output of a command.
pub fn output_event(
    event_id: EventId,
    session_id: &SessionId,
    exec_session_id: &ExecSessionId,
    stream: ExecOutputStream,
    chunk: String,
) -> (res: ExecOutputEvent)
    ensures
        res.event_id == event_id,
        res.session_id@ == session_id@,
        res.exec_session_id@ == exec_session_id@,
        res.stream == stream,
        res.chunk == chunk,
{
    ExecOutputEvent {
        event_id,
        session_id: session_id.duplicate(),
        exec_session_id: exec_session_id.duplicate(),
        stream,
        chunk,
    }
}

/// Numbers the commands and their events, from one.
#[derive(Debug, Clone, Copy, PartialEq, Eq, Structural)]
pub struct ExecCounters {
    pub next_session: u64,
    pub next_event: u64,
}

/// The id of the command with this number.
pub open spec fn exec_session_id_of(n: nat) -> Seq<char> {
    "exec_"@ + text::decimal_of(n)
}

/// The id of the event with this number.
pub open spec fn exec_event_id_of(n: nat) -> Seq<char> {
    "exec_evt_"@ + text::decimal_of(n)
}

impl ExecCounters {
    /// Nothing is numbered yet.
    pub fn new() -> (res: Self)
        ensures
            res == (ExecCounters { next_session: 1, next_event: 1 }),
    {
        ExecCounters { next_session: 1, next_event: 1 }
    }

    /// A new id for a command.
    pub fn new_exec_session_id(&mut self) -> (res: ExecSessionId)
        ensures
            res@ == exec_session_id_of(old(self).next_session as nat),
            *final(self) == (ExecCounters {
                next_session: old(self).next_session.wrapping_add(1),
                ..*old(self)
            }),
    {
        let number = text::decimal(self.next_session);
        self.next_session = self.next_session.wrapping_add(1);
        ExecSessionId(text::concat2("exec_", number.as_str()))
    }

    /// A new id for an event.
    pub fn new_exec_event_id(&mut self) -> (res: EventId)
        ensures
            res@ == exec_event_id_of(old(self).next_event as nat),
            *final(self) == (ExecCounters {
                next_event: old(self).next_event.wrapping_add(1),
                ..*old(self)
            }),
    {
        let number = text::decimal(self.next_event);
        self.next_event = self.next_event.wrapping_add(1);
        EventId(text::concat2("exec_evt_", number.as_str()))
    }
}

/// Different numbers give different ids.
pub proof fn exec_ids_differ(a: nat, b: nat)
    ensures
        exec_session_id_of(a) == exec_session_id_of(b) ==> a == b,
        exec_event_id_of(a) == exec_event_id_of(b) ==> a == b,
{
    if exec_session_id_of(a) == exec_session_id_of(b) {
        let n = "exec_"@.len() as int;
        assert(exec_session_id_of(a).skip(n) =~= text::decimal_of(a));
        assert(exec_session_id_of(b).skip(n) =~= text::decimal_of(b));
        text::decimals_differ(a, b);
    }
    if exec_event_id_of(a) == exec_event_id_of(b) {
        let n = "exec_evt_"@.len() as int;
        assert(exec_event_id_of(a).skip(n) =~= text::decimal_of(a));
        assert(exec_event_id_of(b).skip(n) =~= text::decimal_of(b));
        text::decimals_differ(a, b);
    }
}

/// The commands that were started, by session.
#[derive(Debug)]
pub struct ExecSessionManager<H> {
    pub sessions: TextMap<TextMap<H>>,
}

impl<H> ExecSessionManager<H> {
    /// Whether a command is known.
    pub open spec fn has(self, session: Seq<char>, exec: Seq<char>) -> bool {
        self.sessions@.contains_key(session) && self.sessions@[session]@.contains_key(exec)
    }

    /// What is kept of a command.
    pub open spec fn handle(self, session: Seq<char>, exec: Seq<char>) -> H {
        self.sessions@[session]@[exec]
    }

    /// No command was started.
    pub fn new() -> (res: Self)
        ensures
            forall|session: Seq<char>, exec: Seq<char>| !res.has(session, exec),
    {
        ExecSessionManager { sessions: TextMap::new() }
    }

    /// Makes a command known.
    pub fn insert_handle(
        &mut self,
        session_id: &SessionId,
        exec_session_id: &ExecSessionId,
        handle: H,
    )
        ensures
            final(self).has(session_id@, exec_session_id@),
            final(self).handle(session_id@, exec_session_id@) == handle,
            forall|session: Seq<char>, exec: Seq<char>|
                session != session_id@ || exec != exec_session_id@ ==> {
                    &&& #[trigger] final(self).has(session, exec) == old(self).has(session, exec)
                    &&& old(self).has(session, exec) ==> final(self).handle(session, exec)
                        == old(self).handle(session, exec)
                },
    {
        let session = session_id.as_str().to_owned();
        let mut entries = match self.sessions.remove(&session) {
            Some(entries) => entries,
            None => TextMap::new(),
        };
        entries.insert(exec_session_id.as_str().to_owned(), handle);
        self.sessions.insert(session, entries);
    }

    /// What is kept of a command, which must be known.
    pub fn get_handle(&self, session_id: &SessionId, exec_session_id: &ExecSessionId) -> (res:
        Result<&H, String>)
        ensures
            match res {
                Ok(handle) => self.has(session_id@, exec_session_id@) && *handle == self.handle(
                    session_id@,
                    exec_session_id@,
                ),
                Err(message) => !self.has(session_id@, exec_session_id@) && message@
                    == "unknown exec session: "@ + exec_session_id@,
            },
    {
        if let Some(entries) = self.sessions.get(&session_id.as_str().to_owned()) {
            if let Some(handle) = entries.get(&exec_session_id.as_str().to_owned()) {
                return Ok(handle);
            }
        }
        Err(text::concat2("unknown exec session: ", exec_session_id.as_str()))
    }
}

} // verus!
