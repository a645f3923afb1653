//! Asking the assistant and waiting for its answer.
//!
//! A question is posted to the thread, a run is started, and the run is
//! looked at again and again until it has ended. The machine here decides
//! what comes next; the caller makes the calls and does the waiting.

use vstd::prelude::*;
use crate::ais::assistant::{AssistantId, ThreadId};
use crate::ais::msg::{first_text, get_first_thread_msg_content, user_msg, Message, UserMessage};
use crate::error::BuddyError;

verus! {

/// Time to wait before a run is looked at again, in milliseconds.
pub const POLLING_DURATION_MS: u64 = 500;

/// Number of messages to list for the answer: the newest only.
pub const ANSWER_LIMIT: u32 = 1;

/// The state of a run, as the service reports it.
#[derive(Debug, Clone, Copy, PartialEq, Eq, Structural)]
pub enum RunStatus {
    Queued,
    InProgress,
    RequiresAction,
    Cancelling,
    Cancelled,
    Failed,
    Completed,
    Expired,
}

/// Where a thread run stands.
#[derive(Debug, Clone, Copy, PartialEq, Eq, Structural)]
pub enum RunPhase {
    /// Waiting for the question to be posted.
    Posting,
    /// Waiting for the run to be created.
    Creating,
    /// Waiting for the state of the run.
    Polling,
    /// Waiting for the pause between two looks to pass.
    Waiting,
    /// Waiting for the messages of the thread.
    Fetching,
    /// Done: the answer is known.
    Finished,
    /// Given up.
    Failed,
}

/// What the run of a given state calls for.
#[derive(Debug, Clone, Copy, PartialEq, Eq, Structural)]
pub enum Verdict {
    /// The run is still under way: look again later.
    Wait,
    /// The run has completed: the answer can be fetched.
    Fetch,
    /// The run has ended without an answer.
    Fail,
}

/// What the run of state `status` calls for: a queued or running run is
/// waited for, a completed one is read, any other has failed.
pub open spec fn verdict_on(status: RunStatus) -> Verdict {
    match status {
        RunStatus::Queued | RunStatus::InProgress => Verdict::Wait,
        RunStatus::Completed => Verdict::Fetch,
        _ => Verdict::Fail,
    }
}

/// Decides what the run of state `status` calls for.
pub fn judge(status: RunStatus) -> (verdict: Verdict)
    ensures
        verdict == verdict_on(status),
{
    match status {
        RunStatus::Queued | RunStatus::InProgress => Verdict::Wait,
        RunStatus::Completed => Verdict::Fetch,
        _ => Verdict::Fail,
    }
}

/// What the service answered to the last call.
#[derive(Debug, Clone)]
pub enum RunEvent {
    /// The question is posted.
    Posted,
    /// The run exists under `run_id`.
    Created { run_id: String },
    /// The run is in the state `status`.
    Status { status: RunStatus },
    /// The pause has passed.
    Slept,
    /// The newest messages of the thread, the newest first.
    Messages { messages: Vec<Message> },
    /// The call failed.
    Failed,
}

/// The call to make next.
#[derive(Debug, Clone)]
pub enum RunAction {
    /// Post the message to the thread.
    PostMessage { thread_id: ThreadId, message: UserMessage },
    /// Start a run of the assistant on the thread.
    CreateRun { thread_id: ThreadId, assistant_id: AssistantId },
    /// Ask for the state of the run.
    RetrieveRun { thread_id: ThreadId, run_id: String },
    /// Let `millis` milliseconds pass.
    Sleep { millis: u64 },
    /// List the newest `limit` messages of the thread.
    ListMessages { thread_id: ThreadId, limit: u32 },
    /// Nothing more to do: the assistant answered `text`.
    Finish { text: String },
    /// Nothing more to do: the run or its answer is of no use.
    Fail { error: BuddyError },
    /// Nothing more to do: a call failed.
    Abort,
}

/// A [`RunAction`] as plain text.
pub enum RunActionView {
    PostMessage { thread_id: Seq<char>, role: Seq<char>, content: Seq<char> },
    CreateRun { thread_id: Seq<char>, assistant_id: Seq<char> },
    RetrieveRun { thread_id: Seq<char>, run_id: Seq<char> },
    Sleep { millis: u64 },
    ListMessages { thread_id: Seq<char>, limit: u32 },
    Finish { text: Seq<char> },
    Fail { error: BuddyError },
    Abort,
}

impl View for RunAction {
    type V = RunActionView;

    open spec fn view(&self) -> RunActionView {
        match self {
            RunAction::PostMessage { thread_id, message } => RunActionView::PostMessage {
                thread_id: thread_id@,
                role: message.role@,
                content: message.content@,
            },
            RunAction::CreateRun { thread_id, assistant_id } => RunActionView::CreateRun {
                thread_id: thread_id@,
                assistant_id: assistant_id@,
            },
            RunAction::RetrieveRun { thread_id, run_id } => RunActionView::RetrieveRun {
                thread_id: thread_id@,
                run_id: run_id@,
            },
            RunAction::Sleep { millis } => RunActionView::Sleep { millis: *millis },
            RunAction::ListMessages { thread_id, limit } => RunActionView::ListMessages {
                thread_id: thread_id@,
                limit: *limit,
            },
            RunAction::Finish { text } => RunActionView::Finish { text: text@ },
            RunAction::Fail { error } => RunActionView::Fail { error: *error },
            RunAction::Abort => RunActionView::Abort,
        }
    }
}

/// One question to the assistant, as far as it has come.
#[derive(Debug, Clone)]
pub struct ThreadRun {
    assistant_id: String,
    thread_id: String,
    msg: String,
    phase: RunPhase,
    run_id: Option<String>,
    answer: Option<String>,
    error: Option<BuddyError>,
}

/// A [`ThreadRun`] as plain text.
pub struct ThreadRunView {
    /// The assistant that is asked.
    pub assistant_id: Seq<char>,
    /// The thread the question goes to.
    pub thread_id: Seq<char>,
    /// The question.
    pub msg: Seq<char>,
    pub phase: RunPhase,
    /// Identifier of the run, once it exists.
    pub run_id: Option<Seq<char>>,
    /// The answer, once it is known.
    pub answer: Option<Seq<char>>,
    /// Why the run is of no use, if it is not a failed call that ended it.
    pub error: Option<BuddyError>,
}

impl View for ThreadRun {
    type V = ThreadRunView;

    closed spec fn view(&self) -> ThreadRunView {
        ThreadRunView {
            assistant_id: self.assistant_id@,
            thread_id: self.thread_id@,
            msg: self.msg@,
            phase: self.phase,
            run_id: match self.run_id {
                Some(id) => Some(id@),
                None => None,
            },
            answer: match self.answer {
                Some(text) => Some(text@),
                None => None,
            },
            error: self.error,
        }
    }
}

impl ThreadRunView {
    /// A question that has not been posted yet.
    pub open spec fn start(assistant_id: Seq<char>, thread_id: Seq<char>, msg: Seq<char>) -> ThreadRunView {
        ThreadRunView {
            assistant_id,
            thread_id,
            msg,
            phase: RunPhase::Posting,
            run_id: None,
            answer: None,
            error: None,
        }
    }

    /// The run after a call that failed or was not asked for.
    pub open spec fn give_up(self) -> ThreadRunView {
        ThreadRunView { phase: RunPhase::Failed, error: None, ..self }
    }

    /// The run after it proved of no use because of `error`.
    pub open spec fn fail(self, error: BuddyError) -> ThreadRunView {
        ThreadRunView { phase: RunPhase::Failed, error: Some(error), ..self }
    }
}

/// The run after the answer `event`.
///
/// The question is posted, the run created, and its state asked for. A
/// run under way is asked for again after a pause; a completed run leads
/// to the newest message, whose text is the answer; a run in any other
/// state has failed. A failed call ends everything.
pub open spec fn run_step(s: ThreadRunView, event: RunEvent) -> ThreadRunView {
    match s.phase {
        RunPhase::Posting => match event {
            RunEvent::Posted => ThreadRunView { phase: RunPhase::Creating, ..s },
            _ => s.give_up(),
        },
        RunPhase::Creating => match event {
            RunEvent::Created { run_id } => ThreadRunView { phase: RunPhase::Polling, run_id: Some(run_id@), ..s },
            _ => s.give_up(),
        },
        RunPhase::Polling => match event {
            RunEvent::Status { status } => match verdict_on(status) {
                Verdict::Wait => ThreadRunView { phase: RunPhase::Waiting, ..s },
                Verdict::Fetch => ThreadRunView { phase: RunPhase::Fetching, ..s },
                Verdict::Fail => s.fail(BuddyError::RunFailed { status }),
            },
            _ => s.give_up(),
        },
        RunPhase::Waiting => match event {
            RunEvent::Slept => ThreadRunView { phase: RunPhase::Polling, ..s },
            _ => s.give_up(),
        },
        RunPhase::Fetching => match event {
            RunEvent::Messages { messages } => match first_text(messages@) {
                Ok(text) => ThreadRunView { phase: RunPhase::Finished, answer: Some(text), ..s },
                Err(error) => s.fail(error),
            },
            _ => s.give_up(),
        },
        RunPhase::Finished | RunPhase::Failed => s,
    }
}

/// The call that a run in state `s` waits for.
pub open spec fn run_action(s: ThreadRunView) -> RunActionView {
    match s.phase {
        RunPhase::Posting => RunActionView::PostMessage { thread_id: s.thread_id, role: "user"@, content: s.msg },
        RunPhase::Creating => RunActionView::CreateRun { thread_id: s.thread_id, assistant_id: s.assistant_id },
        RunPhase::Polling => match s.run_id {
            Some(run_id) => RunActionView::RetrieveRun { thread_id: s.thread_id, run_id },
            None => RunActionView::Abort,
        },
        RunPhase::Waiting => RunActionView::Sleep { millis: POLLING_DURATION_MS },
        RunPhase::Fetching => RunActionView::ListMessages { thread_id: s.thread_id, limit: ANSWER_LIMIT },
        RunPhase::Finished => match s.answer {
            Some(text) => RunActionView::Finish { text },
            None => RunActionView::Abort,
        },
        RunPhase::Failed => match s.error {
            Some(error) => RunActionView::Fail { error },
            None => RunActionView::Abort,
        },
    }
}

/// Starts asking the assistant `assistant_id` the question `msg` in the
/// thread `thread_id`. The first call to make is
/// [`RunAction::PostMessage`].
pub fn run_thread_msg(assistant_id: &AssistantId, thread_id: &ThreadId, msg: &str) -> (run: ThreadRun)
    ensures
        run@ == ThreadRunView::start(assistant_id@, thread_id@, msg@),
{
    ThreadRun {
        assistant_id: assistant_id.to_string(),
        thread_id: thread_id.to_string(),
        msg: msg.to_owned(),
        phase: RunPhase::Posting,
        run_id: None,
        answer: None,
        error: None,
    }
}

impl ThreadRun {
    /// Where the run stands.
    pub fn phase(&self) -> (phase: RunPhase)
        ensures
            phase == self@.phase,
    {
        self.phase
    }

    /// The call the run waits for.
    pub fn action(&self) -> (action: RunAction)
        ensures
            action@ == run_action(self@),
    {
        match self.phase {
            RunPhase::Posting => RunAction::PostMessage {
                thread_id: ThreadId(self.thread_id.clone()),
                message: user_msg(self.msg.as_str()),
            },
            RunPhase::Creating => RunAction::CreateRun {
                thread_id: ThreadId(self.thread_id.clone()),
                assistant_id: AssistantId(self.assistant_id.clone()),
            },
            RunPhase::Polling => match &self.run_id {
                Some(run_id) => RunAction::RetrieveRun {
                    thread_id: ThreadId(self.thread_id.clone()),
                    run_id: run_id.clone(),
                },
                None => RunAction::Abort,
            },
            RunPhase::Waiting => RunAction::Sleep { millis: POLLING_DURATION_MS },
            RunPhase::Fetching => RunAction::ListMessages {
                thread_id: ThreadId(self.thread_id.clone()),
                limit: ANSWER_LIMIT,
            },
            RunPhase::Finished => match &self.answer {
                Some(text) => RunAction::Finish { text: text.clone() },
                None => RunAction::Abort,
            },
            RunPhase::Failed => match &self.error {
                Some(error) => RunAction::Fail { error: error.duplicate() },
                None => RunAction::Abort,
            },
        }
    }

    /// Takes in the answer to the last call and names the next one.
    pub fn advance(&mut self, event: RunEvent) -> (action: RunAction)
        ensures
            final(self)@ == run_step(old(self)@, event),
            action@ == run_action(final(self)@),
    {
        match self.phase {
            RunPhase::Posting => match event {
                RunEvent::Posted => {
                    self.phase = RunPhase::Creating;
                },
                _ => {
                    self.error = None;
                    self.phase = RunPhase::Failed;
                },
            },
            RunPhase::Creating => match event {
                RunEvent::Created { run_id } => {
                    self.run_id = Some(run_id);
                    self.phase = RunPhase::Polling;
                },
                _ => {
                    self.error = None;
                    self.phase = RunPhase::Failed;
                },
            },
            RunPhase::Polling => match event {
                RunEvent::Status { status } => match judge(status) {
                    Verdict::Wait => {
                        self.phase = RunPhase::Waiting;
                    },
                    Verdict::Fetch => {
                        self.phase = RunPhase::Fetching;
                    },
                    Verdict::Fail => {
                        self.error = Some(BuddyError::RunFailed { status });
                        self.phase = RunPhase::Failed;
                    },
                },
                _ => {
                    self.error = None;
                    self.phase = RunPhase::Failed;
                },
            },
            RunPhase::Waiting => match event {
                RunEvent::Slept => {
                    self.phase = RunPhase::Polling;
                },
                _ => {
                    self.error = None;
                    self.phase = RunPhase::Failed;
                },
            },
            RunPhase::Fetching => match event {
                RunEvent::Messages { messages } => match get_first_thread_msg_content(messages) {
                    Ok(text) => {
                        self.answer = Some(text);
                        self.phase = RunPhase::Finished;
                    },
                    Err(error) => {
                        self.error = Some(error);
                        self.phase = RunPhase::Failed;
                    },
                },
                _ => {
                    self.error = None;
                    self.phase = RunPhase::Failed;
                },
            },
            RunPhase::Finished | RunPhase::Failed => {},
        }
        self.action()
    }
}

} // verus!
