//! Bringing one named file of an assistant up to date.
//!
//! The upload is a conversation with the service. The machine here holds the
//! decisions: it names the next call to make, and moves on when it is told
//! what came of the call.

use vstd::prelude::*;
use crate::ais::assistant::{AssistantId, FileId};
use crate::ais::files::{RemoteFile, RemoteFileView, get_files_hashmap, file_id_by_name, file_views, id_texts};

verus! {

/// Where an upload stands.
#[derive(Debug, Clone, Copy, PartialEq, Eq, Structural)]
pub enum UploadPhase {
    /// Waiting for the lists of remote files.
    Listing,
    /// Waiting for the old file to be deleted from the account.
    Deleting,
    /// Waiting for the old file to be taken off the assistant.
    Detaching,
    /// Waiting for the new file to arrive in the account.
    Uploading,
    /// Waiting for the new file to be attached to the assistant.
    Attaching,
    /// Done: the file's identifier is known.
    Finished,
    /// Given up: a call the upload depends on failed.
    Failed,
}

/// Something that went wrong without stopping the upload.
#[derive(Debug, Clone, Copy, PartialEq, Eq, Structural)]
pub enum ConsistencyWarning {
    /// The old file could not be deleted from the account.
    DeleteFailed,
    /// The old file could not be taken off the assistant.
    DetachFailed,
    /// The service attached a file under another identifier than it was
    /// uploaded under.
    IdMismatch,
}

/// What the service answered to the last call.
#[derive(Debug, Clone)]
pub enum UploadEvent {
    /// The files attached to the assistant and the files of the account.
    Listed { assistant_files: Vec<FileId>, account_files: Vec<RemoteFile> },
    /// The file is deleted from the account.
    Deleted,
    /// The file is taken off the assistant.
    Detached,
    /// The file arrived in the account under `file_id`.
    Uploaded { file_id: FileId },
    /// The file is attached to the assistant under `file_id`.
    Attached { file_id: FileId },
    /// The call failed.
    Failed,
}

/// An [`UploadEvent`] as plain text.
pub enum UploadEventView {
    Listed { assistant_files: Seq<Seq<char>>, account_files: Seq<RemoteFileView> },
    Deleted,
    Detached,
    Uploaded { file_id: Seq<char> },
    Attached { file_id: Seq<char> },
    Failed,
}

impl View for UploadEvent {
    type V = UploadEventView;

    open spec fn view(&self) -> UploadEventView {
        match self {
            UploadEvent::Listed { assistant_files, account_files } => UploadEventView::Listed {
                assistant_files: id_texts(assistant_files@),
                account_files: file_views(account_files@),
            },
            UploadEvent::Deleted => UploadEventView::Deleted,
            UploadEvent::Detached => UploadEventView::Detached,
            UploadEvent::Uploaded { file_id } => UploadEventView::Uploaded { file_id: file_id@ },
            UploadEvent::Attached { file_id } => UploadEventView::Attached { file_id: file_id@ },
            UploadEvent::Failed => UploadEventView::Failed,
        }
    }
}

/// The call to make next.
#[derive(Debug, Clone)]
pub enum UploadAction {
    /// List the assistant's files and the account's files.
    ListFiles { assistant_id: AssistantId },
    /// Delete the file from the account. A failure is reported and survived.
    DeleteFile { file_id: FileId },
    /// Take the file off the assistant. A failure is reported and survived.
    DetachFile { assistant_id: AssistantId, file_id: FileId },
    /// Send the local file to the account, to be known there as
    /// `file_name`.
    UploadFile { file_name: String },
    /// Attach the uploaded file to the assistant.
    AttachFile { assistant_id: AssistantId, file_id: FileId },
    /// Nothing more to do: the file is known as `file_id`, and `uploaded`
    /// tells whether this upload sent it.
    Finish { file_id: FileId, uploaded: bool },
    /// Nothing more to do: the upload failed.
    Abort,
}

/// An [`UploadAction`] as plain text.
pub enum UploadActionView {
    ListFiles { assistant_id: Seq<char> },
    DeleteFile { file_id: Seq<char> },
    DetachFile { assistant_id: Seq<char>, file_id: Seq<char> },
    UploadFile { file_name: Seq<char> },
    AttachFile { assistant_id: Seq<char>, file_id: Seq<char> },
    Finish { file_id: Seq<char>, uploaded: bool },
    Abort,
}

impl View for UploadAction {
    type V = UploadActionView;

    open spec fn view(&self) -> UploadActionView {
        match self {
            UploadAction::ListFiles { assistant_id } => UploadActionView::ListFiles { assistant_id: assistant_id@ },
            UploadAction::DeleteFile { file_id } => UploadActionView::DeleteFile { file_id: file_id@ },
            UploadAction::DetachFile { assistant_id, file_id } => UploadActionView::DetachFile {
                assistant_id: assistant_id@,
                file_id: file_id@,
            },
            UploadAction::UploadFile { file_name } => UploadActionView::UploadFile { file_name: file_name@ },
            UploadAction::AttachFile { assistant_id, file_id } => UploadActionView::AttachFile {
                assistant_id: assistant_id@,
                file_id: file_id@,
            },
            UploadAction::Finish { file_id, uploaded } => UploadActionView::Finish {
                file_id: file_id@,
                uploaded: *uploaded,
            },
            UploadAction::Abort => UploadActionView::Abort,
        }
    }
}

/// What an answer leads to: the next call, and a warning if the answer
/// calls for one.
#[derive(Debug, Clone)]
pub struct UploadStep {
    pub action: UploadAction,
    pub warning: Option<ConsistencyWarning>,
}

/// The upload of one file, as far as it has come.
#[derive(Debug, Clone)]
pub struct Upload {
    assistant_id: String,
    file_name: String,
    force: bool,
    phase: UploadPhase,
    file_id: Option<FileId>,
    uploaded: bool,
}

/// An [`Upload`] as plain text.
pub struct UploadView {
    /// The assistant that is to hold the file.
    pub assistant_id: Seq<char>,
    /// Name under which the file is known to the service.
    pub file_name: Seq<char>,
    /// Whether a file already there is to be replaced.
    pub force: bool,
    pub phase: UploadPhase,
    /// The identifier in hand: of the old file while it is removed, of the
    /// new file from its arrival on.
    pub file_id: Option<Seq<char>>,
    /// Whether the file was sent.
    pub uploaded: bool,
}

impl View for Upload {
    type V = UploadView;

    closed spec fn view(&self) -> UploadView {
        UploadView {
            assistant_id: self.assistant_id@,
            file_name: self.file_name@,
            force: self.force,
            phase: self.phase,
            file_id: match self.file_id {
                Some(id) => Some(id@),
                None => None,
            },
            uploaded: self.uploaded,
        }
    }
}

impl UploadView {
    /// An upload that has not made a call yet.
    pub open spec fn start(assistant_id: Seq<char>, file_name: Seq<char>, force: bool) -> UploadView {
        UploadView { assistant_id, file_name, force, phase: UploadPhase::Listing, file_id: None, uploaded: false }
    }

    /// An identifier is in hand in every phase that needs one, and only a
    /// finished upload can have sent the file.
    pub open spec fn wf(self) -> bool {
        &&& self.uploaded ==> self.phase == UploadPhase::Finished
        &&& match self.phase {
            UploadPhase::Deleting | UploadPhase::Detaching | UploadPhase::Attaching | UploadPhase::Finished => self.file_id is Some,
            _ => true,
        }
    }

    /// The upload after a call that its phase did not allow for, or that
    /// failed where a failure cannot be survived.
    pub open spec fn give_up(self) -> UploadView {
        UploadView { phase: UploadPhase::Failed, ..self }
    }
}

/// The upload after the answer `event`.
///
/// With the lists in hand, a file already on record ends the upload unless
/// `force` is set; otherwise the old file, if any, is deleted and detached
/// before the new one is sent and attached. A failed deletion or detachment
/// does not stop the upload; any other failure does.
pub open spec fn upload_step(s: UploadView, event: UploadEventView) -> UploadView {
    match s.phase {
        UploadPhase::Listing => match event {
            UploadEventView::Listed { assistant_files, account_files } => {
                let by_name = file_id_by_name(assistant_files, account_files);
                if !by_name.contains_key(s.file_name) {
                    UploadView { phase: UploadPhase::Uploading, ..s }
                } else if s.force {
                    UploadView { phase: UploadPhase::Deleting, file_id: Some(by_name[s.file_name]), ..s }
                } else {
                    UploadView { phase: UploadPhase::Finished, file_id: Some(by_name[s.file_name]), ..s }
                }
            },
            _ => s.give_up(),
        },
        UploadPhase::Deleting => match event {
            UploadEventView::Deleted | UploadEventView::Failed => UploadView { phase: UploadPhase::Detaching, ..s },
            _ => s.give_up(),
        },
        UploadPhase::Detaching => match event {
            UploadEventView::Detached | UploadEventView::Failed => UploadView {
                phase: UploadPhase::Uploading,
                file_id: None,
                ..s
            },
            _ => s.give_up(),
        },
        UploadPhase::Uploading => match event {
            UploadEventView::Uploaded { file_id } => UploadView {
                phase: UploadPhase::Attaching,
                file_id: Some(file_id),
                ..s
            },
            _ => s.give_up(),
        },
        UploadPhase::Attaching => match event {
            UploadEventView::Attached { file_id } => UploadView {
                phase: UploadPhase::Finished,
                file_id: Some(file_id),
                uploaded: true,
                ..s
            },
            _ => s.give_up(),
        },
        UploadPhase::Finished | UploadPhase::Failed => s,
    }
}

/// The warning that the answer `event` calls for.
pub open spec fn upload_warning(s: UploadView, event: UploadEventView) -> Option<ConsistencyWarning> {
    match (s.phase, event) {
        (UploadPhase::Deleting, UploadEventView::Failed) => Some(ConsistencyWarning::DeleteFailed),
        (UploadPhase::Detaching, UploadEventView::Failed) => Some(ConsistencyWarning::DetachFailed),
        (UploadPhase::Attaching, UploadEventView::Attached { file_id }) => if s.file_id != Some(file_id) {
            Some(ConsistencyWarning::IdMismatch)
        } else {
            None
        },
        _ => None,
    }
}

/// The call that an upload in state `s` waits for.
pub open spec fn upload_action(s: UploadView) -> UploadActionView {
    match s.phase {
        UploadPhase::Listing => UploadActionView::ListFiles { assistant_id: s.assistant_id },
        UploadPhase::Uploading => UploadActionView::UploadFile { file_name: s.file_name },
        UploadPhase::Failed => UploadActionView::Abort,
        UploadPhase::Deleting => match s.file_id {
            Some(file_id) => UploadActionView::DeleteFile { file_id },
            None => UploadActionView::Abort,
        },
        UploadPhase::Detaching => match s.file_id {
            Some(file_id) => UploadActionView::DetachFile { assistant_id: s.assistant_id, file_id },
            None => UploadActionView::Abort,
        },
        UploadPhase::Attaching => match s.file_id {
            Some(file_id) => UploadActionView::AttachFile { assistant_id: s.assistant_id, file_id },
            None => UploadActionView::Abort,
        },
        UploadPhase::Finished => match s.file_id {
            Some(file_id) => UploadActionView::Finish { file_id, uploaded: s.uploaded },
            None => UploadActionView::Abort,
        },
    }
}

/// The upload after the answers `events`, one after the other.
pub open spec fn upload_run(s: UploadView, events: Seq<UploadEventView>) -> UploadView
    decreases events.len(),
{
    if events.len() == 0 {
        s
    } else {
        upload_step(upload_run(s, events.drop_last()), events.last())
    }
}

/// Whatever is answered, an upload stays well formed.
pub proof fn lemma_upload_stays_wf(s: UploadView, events: Seq<UploadEventView>)
    requires
        s.wf(),
    ensures
        upload_run(s, events).wf(),
    decreases events.len(),
{
    if events.len() > 0 {
        lemma_upload_stays_wf(s, events.drop_last());
    }
}

/// Without `force` nothing is ever removed: whatever is answered, an
/// upload that was started with `force` unset never asks for a file to be
/// deleted or detached.
pub proof fn lemma_no_removal_without_force(
    assistant_id: Seq<char>,
    file_name: Seq<char>,
    events: Seq<UploadEventView>,
)
    ensures
        ({
            let reached = upload_run(UploadView::start(assistant_id, file_name, false), events);
            &&& !reached.force
            &&& !(upload_action(reached) is DeleteFile)
            &&& !(upload_action(reached) is DetachFile)
        }),
    decreases events.len(),
{
    if events.len() > 0 {
        lemma_no_removal_without_force(assistant_id, file_name, events.drop_last());
    }
}

/// Whatever is answered, an upload that counts its file as sent is
/// finished and asks for nothing more.
pub proof fn lemma_sent_means_finished(
    assistant_id: Seq<char>,
    file_name: Seq<char>,
    force: bool,
    events: Seq<UploadEventView>,
)
    ensures
        ({
            let reached = upload_run(UploadView::start(assistant_id, file_name, force), events);
            reached.uploaded ==> upload_action(reached) is Finish
        }),
{
    lemma_upload_stays_wf(UploadView::start(assistant_id, file_name, force), events);
}

/// Starts the upload of the file known to the service as `file_name` to
/// the assistant `assistant_id`.
///
/// With `force` unset a file already on record is left alone; with `force`
/// set it is deleted and sent again. The first call to make is
/// [`UploadAction::ListFiles`].
pub fn upload_file_by_name(assistant_id: &AssistantId, file_name: &str, force: bool) -> (upload: Upload)
    ensures
        upload@ == UploadView::start(assistant_id@, file_name@, force),
        upload@.wf(),
{
    Upload {
        assistant_id: assistant_id.to_string(),
        file_name: file_name.to_owned(),
        force,
        phase: UploadPhase::Listing,
        file_id: None,
        uploaded: false,
    }
}

impl Upload {
    /// Name under which the file is known to the service.
    pub fn file_name(&self) -> (name: &str)
        ensures
            name@ == self@.file_name,
    {
        self.file_name.as_str()
    }

    /// Where the upload stands.
    pub fn phase(&self) -> (phase: UploadPhase)
        ensures
            phase == self@.phase,
    {
        self.phase
    }

    /// The call the upload waits for.
    pub fn action(&self) -> (action: UploadAction)
        ensures
            action@ == upload_action(self@),
    {
        match self.phase {
            UploadPhase::Listing => UploadAction::ListFiles { assistant_id: AssistantId(self.assistant_id.clone()) },
            UploadPhase::Uploading => UploadAction::UploadFile { file_name: self.file_name.clone() },
            UploadPhase::Failed => UploadAction::Abort,
            UploadPhase::Deleting => match &self.file_id {
                Some(id) => UploadAction::DeleteFile { file_id: FileId(id.0.clone()) },
                None => UploadAction::Abort,
            },
            UploadPhase::Detaching => match &self.file_id {
                Some(id) => UploadAction::DetachFile {
                    assistant_id: AssistantId(self.assistant_id.clone()),
                    file_id: FileId(id.0.clone()),
                },
                None => UploadAction::Abort,
            },
            UploadPhase::Attaching => match &self.file_id {
                Some(id) => UploadAction::AttachFile {
                    assistant_id: AssistantId(self.assistant_id.clone()),
                    file_id: FileId(id.0.clone()),
                },
                None => UploadAction::Abort,
            },
            UploadPhase::Finished => match &self.file_id {
                Some(id) => UploadAction::Finish { file_id: FileId(id.0.clone()), uploaded: self.uploaded },
                None => UploadAction::Abort,
            },
        }
    }

    /// Takes in the answer to the last call and names the next one.
    pub fn advance(&mut self, event: UploadEvent) -> (step: UploadStep)
        ensures
            final(self)@ == upload_step(old(self)@, event@),
            step.action@ == upload_action(final(self)@),
            step.warning == upload_warning(old(self)@, event@),
            old(self)@.wf() ==> final(self)@.wf(),
    {
        let mut warning: Option<ConsistencyWarning> = None;
        match self.phase {
            UploadPhase::Listing => match event {
                UploadEvent::Listed { assistant_files, account_files } => {
                    let by_name = get_files_hashmap(&assistant_files, &account_files);
                    match by_name.get(self.file_name.as_str()) {
                        None => {
                            self.phase = UploadPhase::Uploading;
                        },
                        Some(id) => {
                            self.file_id = Some(id);
                            self.phase = if self.force {
                                UploadPhase::Deleting
                            } else {
                                UploadPhase::Finished
                            };
                        },
                    }
                },
                _ => {
                    self.phase = UploadPhase::Failed;
                },
            },
            UploadPhase::Deleting => match event {
                UploadEvent::Deleted => {
                    self.phase = UploadPhase::Detaching;
                },
                UploadEvent::Failed => {
                    warning = Some(ConsistencyWarning::DeleteFailed);
                    self.phase = UploadPhase::Detaching;
                },
                _ => {
                    self.phase = UploadPhase::Failed;
                },
            },
            UploadPhase::Detaching => match event {
                UploadEvent::Detached => {
                    self.file_id = None;
                    self.phase = UploadPhase::Uploading;
                },
                UploadEvent::Failed => {
                    warning = Some(ConsistencyWarning::DetachFailed);
                    self.file_id = None;
                    self.phase = UploadPhase::Uploading;
                },
                _ => {
                    self.phase = UploadPhase::Failed;
                },
            },
            UploadPhase::Uploading => match event {
                UploadEvent::Uploaded { file_id } => {
                    self.file_id = Some(file_id);
                    self.phase = UploadPhase::Attaching;
                },
                _ => {
                    self.phase = UploadPhase::Failed;
                },
            },
            UploadPhase::Attaching => match event {
                UploadEvent::Attached { file_id } => {
                    let same = match &self.file_id {
                        Some(sent) => sent.0 == file_id.0,
                        None => false,
                    };
                    if !same {
                        warning = Some(ConsistencyWarning::IdMismatch);
                    }
                    self.file_id = Some(file_id);
                    self.uploaded = true;
                    self.phase = UploadPhase::Finished;
                },
                _ => {
                    self.phase = UploadPhase::Failed;
                },
            },
            UploadPhase::Finished | UploadPhase::Failed => {},
        }
        UploadStep { action: self.action(), warning }
    }
}

} // verus!
