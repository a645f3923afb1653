//! Taking up the saved conversation, or starting a new one.

use vstd::prelude::*;
use crate::ais::assistant::ThreadId;

verus! {

/// Where the setup of a conversation stands.
#[derive(Debug, Clone, Copy, PartialEq, Eq, Structural)]
pub enum SetupPhase {
    /// Waiting to learn whether a conversation is saved.
    Probing,
    /// Waiting for the saved conversation to be removed.
    Removing,
    /// Waiting for the saved conversation to be read.
    Loading,
    /// Waiting to learn whether the service knows the saved thread.
    Verifying,
    /// Waiting for a new thread.
    Creating,
    /// Waiting for the new conversation to be saved.
    Saving,
    /// Done: the conversation is known.
    Finished,
    /// The service does not know the saved thread.
    Unknown,
    /// Given up: a step failed.
    Failed,
}

/// What came of the last step.
#[derive(Debug, Clone)]
pub enum SetupEvent {
    /// Whether the file of the saved conversation exists.
    Probed { exists: bool },
    /// The file is removed.
    Removed,
    /// The file holds the conversation in thread `thread_id`.
    Loaded { thread_id: ThreadId },
    /// The file is missing or cannot be read.
    NotLoaded,
    /// The service knows the thread.
    Verified,
    /// The service made the thread `thread_id`.
    Created { thread_id: ThreadId },
    /// The conversation is saved.
    Saved,
    /// The step failed.
    Failed,
}

/// A [`SetupEvent`] as plain text.
pub enum SetupEventView {
    Probed { exists: bool },
    Removed,
    Loaded { thread_id: Seq<char> },
    NotLoaded,
    Verified,
    Created { thread_id: Seq<char> },
    Saved,
    Failed,
}

impl View for SetupEvent {
    type V = SetupEventView;

    open spec fn view(&self) -> SetupEventView {
        match self {
            SetupEvent::Probed { exists } => SetupEventView::Probed { exists: *exists },
            SetupEvent::Removed => SetupEventView::Removed,
            SetupEvent::Loaded { thread_id } => SetupEventView::Loaded { thread_id: thread_id@ },
            SetupEvent::NotLoaded => SetupEventView::NotLoaded,
            SetupEvent::Verified => SetupEventView::Verified,
            SetupEvent::Created { thread_id } => SetupEventView::Created { thread_id: thread_id@ },
            SetupEvent::Saved => SetupEventView::Saved,
            SetupEvent::Failed => SetupEventView::Failed,
        }
    }
}

/// The step to take next.
#[derive(Debug, Clone)]
pub enum SetupAction {
    /// Find out whether the file of the saved conversation exists.
    ProbeFile,
    /// Remove that file.
    RemoveFile,
    /// Read the conversation from that file.
    LoadFile,
    /// Ask the service for the thread.
    RetrieveThread { thread_id: ThreadId },
    /// Have the service make a thread.
    CreateThread,
    /// Save the conversation in thread `thread_id` to the file.
    SaveFile { thread_id: ThreadId },
    /// Nothing more to do: the conversation runs in `thread_id`, and
    /// `created` tells whether it is new.
    Finish { thread_id: ThreadId, created: bool },
    /// Nothing more to do: the service does not know the saved thread.
    ThreadNotFound { thread_id: ThreadId },
    /// Nothing more to do: a step failed.
    Abort,
}

/// A [`SetupAction`] as plain text.
pub enum SetupActionView {
    ProbeFile,
    RemoveFile,
    LoadFile,
    RetrieveThread { thread_id: Seq<char> },
    CreateThread,
    SaveFile { thread_id: Seq<char> },
    Finish { thread_id: Seq<char>, created: bool },
    ThreadNotFound { thread_id: Seq<char> },
    Abort,
}

impl View for SetupAction {
    type V = SetupActionView;

    open spec fn view(&self) -> SetupActionView {
        match self {
            SetupAction::ProbeFile => SetupActionView::ProbeFile,
            SetupAction::RemoveFile => SetupActionView::RemoveFile,
            SetupAction::LoadFile => SetupActionView::LoadFile,
            SetupAction::RetrieveThread { thread_id } => SetupActionView::RetrieveThread { thread_id: thread_id@ },
            SetupAction::CreateThread => SetupActionView::CreateThread,
            SetupAction::SaveFile { thread_id } => SetupActionView::SaveFile { thread_id: thread_id@ },
            SetupAction::Finish { thread_id, created } => SetupActionView::Finish {
                thread_id: thread_id@,
                created: *created,
            },
            SetupAction::ThreadNotFound { thread_id } => SetupActionView::ThreadNotFound { thread_id: thread_id@ },
            SetupAction::Abort => SetupActionView::Abort,
        }
    }
}

/// The setup of a conversation, as far as it has come.
#[derive(Debug, Clone)]
pub struct ConversationSetup {
    phase: SetupPhase,
    thread_id: Option<ThreadId>,
    created: bool,
}

/// A [`ConversationSetup`] as plain text.
pub struct ConversationSetupView {
    pub phase: SetupPhase,
    /// The thread in hand: the saved one, or the new one.
    pub thread_id: Option<Seq<char>>,
    /// Whether the thread in hand is new.
    pub created: bool,
}

impl View for ConversationSetup {
    type V = ConversationSetupView;

    closed spec fn view(&self) -> ConversationSetupView {
        ConversationSetupView {
            phase: self.phase,
            thread_id: match self.thread_id {
                Some(id) => Some(id@),
                None => None,
            },
            created: self.created,
        }
    }
}

impl ConversationSetupView {
    /// A setup that has not taken a step yet: it begins by looking for
    /// the saved conversation in order to discard it if `recreate` is
    /// set, and by reading it if not.
    pub open spec fn start(recreate: bool) -> ConversationSetupView {
        ConversationSetupView {
            phase: if recreate {
                SetupPhase::Probing
            } else {
                SetupPhase::Loading
            },
            thread_id: None,
            created: false,
        }
    }

    /// The setup after a step that failed or was not asked for.
    pub open spec fn give_up(self) -> ConversationSetupView {
        ConversationSetupView { phase: SetupPhase::Failed, ..self }
    }
}

/// The setup after the report `event`.
pub open spec fn setup_step(s: ConversationSetupView, event: SetupEventView) -> ConversationSetupView {
    match s.phase {
        SetupPhase::Probing => match event {
            SetupEventView::Probed { exists } => ConversationSetupView {
                phase: if exists {
                    SetupPhase::Removing
                } else {
                    SetupPhase::Loading
                },
                ..s
            },
            _ => s.give_up(),
        },
        SetupPhase::Removing => match event {
            SetupEventView::Removed => ConversationSetupView { phase: SetupPhase::Loading, ..s },
            _ => s.give_up(),
        },
        SetupPhase::Loading => match event {
            SetupEventView::Loaded { thread_id } => ConversationSetupView {
                phase: SetupPhase::Verifying,
                thread_id: Some(thread_id),
                ..s
            },
            SetupEventView::NotLoaded => ConversationSetupView { phase: SetupPhase::Creating, ..s },
            _ => s.give_up(),
        },
        SetupPhase::Verifying => match event {
            SetupEventView::Verified => ConversationSetupView { phase: SetupPhase::Finished, ..s },
            SetupEventView::Failed => ConversationSetupView { phase: SetupPhase::Unknown, ..s },
            _ => s.give_up(),
        },
        SetupPhase::Creating => match event {
            SetupEventView::Created { thread_id } => ConversationSetupView {
                phase: SetupPhase::Saving,
                thread_id: Some(thread_id),
                created: true,
            },
            _ => s.give_up(),
        },
        SetupPhase::Saving => match event {
            SetupEventView::Saved => ConversationSetupView { phase: SetupPhase::Finished, ..s },
            _ => s.give_up(),
        },
        SetupPhase::Finished | SetupPhase::Unknown | SetupPhase::Failed => s,
    }
}

/// The step that a setup in state `s` waits for.
pub open spec fn setup_action(s: ConversationSetupView) -> SetupActionView {
    match s.phase {
        SetupPhase::Probing => SetupActionView::ProbeFile,
        SetupPhase::Removing => SetupActionView::RemoveFile,
        SetupPhase::Loading => SetupActionView::LoadFile,
        SetupPhase::Creating => SetupActionView::CreateThread,
        SetupPhase::Failed => SetupActionView::Abort,
        SetupPhase::Verifying => match s.thread_id {
            Some(thread_id) => SetupActionView::RetrieveThread { thread_id },
            None => SetupActionView::Abort,
        },
        SetupPhase::Saving => match s.thread_id {
            Some(thread_id) => SetupActionView::SaveFile { thread_id },
            None => SetupActionView::Abort,
        },
        SetupPhase::Finished => match s.thread_id {
            Some(thread_id) => SetupActionView::Finish { thread_id, created: s.created },
            None => SetupActionView::Abort,
        },
        SetupPhase::Unknown => match s.thread_id {
            Some(thread_id) => SetupActionView::ThreadNotFound { thread_id },
            None => SetupActionView::Abort,
        },
    }
}

impl ConversationSetup {
    /// A setup that has not taken a step yet.
    pub(crate) fn start(recreate: bool) -> (setup: ConversationSetup)
        ensures
            setup@ == ConversationSetupView::start(recreate),
    {
        ConversationSetup {
            phase: if recreate {
                SetupPhase::Probing
            } else {
                SetupPhase::Loading
            },
            thread_id: None,
            created: false,
        }
    }

    /// Where the setup stands.
    pub fn phase(&self) -> (phase: SetupPhase)
        ensures
            phase == self@.phase,
    {
        self.phase
    }

    /// The step the setup waits for.
    pub fn action(&self) -> (action: SetupAction)
        ensures
            action@ == setup_action(self@),
    {
        match self.phase {
            SetupPhase::Probing => SetupAction::ProbeFile,
            SetupPhase::Removing => SetupAction::RemoveFile,
            SetupPhase::Loading => SetupAction::LoadFile,
            SetupPhase::Creating => SetupAction::CreateThread,
            SetupPhase::Failed => SetupAction::Abort,
            SetupPhase::Verifying => match &self.thread_id {
                Some(id) => SetupAction::RetrieveThread { thread_id: ThreadId(id.0.clone()) },
                None => SetupAction::Abort,
            },
            SetupPhase::Saving => match &self.thread_id {
                Some(id) => SetupAction::SaveFile { thread_id: ThreadId(id.0.clone()) },
                None => SetupAction::Abort,
            },
            SetupPhase::Finished => match &self.thread_id {
                Some(id) => SetupAction::Finish { thread_id: ThreadId(id.0.clone()), created: self.created },
                None => SetupAction::Abort,
            },
            SetupPhase::Unknown => match &self.thread_id {
                Some(id) => SetupAction::ThreadNotFound { thread_id: ThreadId(id.0.clone()) },
                None => SetupAction::Abort,
            },
        }
    }

    /// Takes in the report on the last step and names the next one.
    pub fn advance(&mut self, event: SetupEvent) -> (action: SetupAction)
        ensures
            final(self)@ == setup_step(old(self)@, event@),
            action@ == setup_action(final(self)@),
    {
        match self.phase {
            SetupPhase::Probing => match event {
                SetupEvent::Probed { exists } => {
                    self.phase = if exists {
                        SetupPhase::Removing
                    } else {
                        SetupPhase::Loading
                    };
                },
                _ => {
                    self.phase = SetupPhase::Failed;
                },
            },
            SetupPhase::Removing => match event {
                SetupEvent::Removed => {
                    self.phase = SetupPhase::Loading;
                },
                _ => {
                    self.phase = SetupPhase::Failed;
                },
            },
            SetupPhase::Loading => match event {
                SetupEvent::Loaded { thread_id } => {
                    self.thread_id = Some(thread_id);
                    self.phase = SetupPhase::Verifying;
                },
                SetupEvent::NotLoaded => {
                    self.phase = SetupPhase::Creating;
                },
                _ => {
                    self.phase = SetupPhase::Failed;
                },
            },
            SetupPhase::Verifying => match event {
                SetupEvent::Verified => {
                    self.phase = SetupPhase::Finished;
                },
                SetupEvent::Failed => {
                    self.phase = SetupPhase::Unknown;
                },
                _ => {
                    self.phase = SetupPhase::Failed;
                },
            },
            SetupPhase::Creating => match event {
                SetupEvent::Created { thread_id } => {
                    self.thread_id = Some(thread_id);
                    self.created = true;
                    self.phase = SetupPhase::Saving;
                },
                _ => {
                    self.phase = SetupPhase::Failed;
                },
            },
            SetupPhase::Saving => match event {
                SetupEvent::Saved => {
                    self.phase = SetupPhase::Finished;
                },
                _ => {
                    self.phase = SetupPhase::Failed;
                },
            },
            SetupPhase::Finished | SetupPhase::Unknown | SetupPhase::Failed => {},
        }
        self.action()
    }
}

} // verus!
