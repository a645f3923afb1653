//! The service's side of an upload, as far as the upload depends on it.
//!
//! Everything here is ghost: a picture of the remote files, of what each
//! call does to them, and of a whole pass of the upload machine against
//! them. It serves to state what a pass leaves behind.

use vstd::prelude::*;
use crate::ais::files::{RemoteFileView, file_id_by_name, lemma_file_id_by_name, on_record};
use crate::ais::upload::{UploadActionView, UploadEventView, UploadPhase, UploadView, upload_action, upload_step};

verus! {

/// The files of an account and which of them one assistant holds.
pub struct RemoteFiles {
    /// File name of each file of the account, by the file's identifier.
    pub files: Map<Seq<char>, Seq<char>>,
    /// Identifiers attached to the assistant.
    pub attached: Set<Seq<char>>,
}

/// How the service answers during one pass.
pub struct Answers {
    /// Whether listing succeeds, and the two lists it gives.
    pub list_ok: bool,
    pub assistant_files: Seq<Seq<char>>,
    pub account_files: Seq<RemoteFileView>,
    /// Whether deleting the old file succeeds.
    pub delete_ok: bool,
    /// Whether detaching the old file succeeds.
    pub detach_ok: bool,
    /// Whether sending the new file succeeds, and the identifier it gets.
    pub upload_ok: bool,
    pub fresh: Seq<char>,
    /// Whether attaching the new file succeeds.
    pub attach_ok: bool,
}

impl RemoteFiles {
    /// A file of the account that the assistant holds: a remote record.
    pub open spec fn is_record(self, id: Seq<char>) -> bool {
        self.files.contains_key(id) && self.attached.contains(id)
    }

    /// No two records carry the same file name.
    pub open spec fn one_record_per_name(self) -> bool {
        forall|a: Seq<char>, b: Seq<char>|
            self.is_record(a) && self.is_record(b) && self.files[a] == self.files[b] ==> a == b
    }

    /// The two lists show the files as they are.
    pub open spec fn listed_as(self, assistant_files: Seq<Seq<char>>, account_files: Seq<RemoteFileView>) -> bool {
        &&& forall|id: Seq<char>| assistant_files.contains(id) <==> self.attached.contains(id)
        &&& forall|i: int|
            0 <= i < account_files.len() ==> self.files.contains_key(#[trigger] account_files[i].id)
                && self.files[account_files[i].id] == account_files[i].filename
        &&& forall|id: Seq<char>| #[trigger]
            self.files.contains_key(id) ==> exists|i: int|
                0 <= i < account_files.len() && #[trigger] account_files[i].id == id
    }

    /// The files after the call `action` for the file `name`, and the
    /// answer to it.
    pub open spec fn serve(self, action: UploadActionView, name: Seq<char>, answers: Answers) -> (
        RemoteFiles,
        UploadEventView,
    ) {
        match action {
            UploadActionView::ListFiles { .. } => if answers.list_ok {
                (
                    self,
                    UploadEventView::Listed {
                        assistant_files: answers.assistant_files,
                        account_files: answers.account_files,
                    },
                )
            } else {
                (self, UploadEventView::Failed)
            },
            UploadActionView::DeleteFile { file_id } => if answers.delete_ok {
                (RemoteFiles { files: self.files.remove(file_id), ..self }, UploadEventView::Deleted)
            } else {
                (self, UploadEventView::Failed)
            },
            UploadActionView::DetachFile { file_id, .. } => if answers.detach_ok {
                (RemoteFiles { attached: self.attached.remove(file_id), ..self }, UploadEventView::Detached)
            } else {
                (self, UploadEventView::Failed)
            },
            UploadActionView::UploadFile { .. } => if answers.upload_ok {
                (
                    RemoteFiles { files: self.files.insert(answers.fresh, name), ..self },
                    UploadEventView::Uploaded { file_id: answers.fresh },
                )
            } else {
                (self, UploadEventView::Failed)
            },
            UploadActionView::AttachFile { file_id, .. } => if answers.attach_ok {
                (
                    RemoteFiles { attached: self.attached.insert(file_id), ..self },
                    UploadEventView::Attached { file_id },
                )
            } else {
                (self, UploadEventView::Failed)
            },
            UploadActionView::Finish { .. } | UploadActionView::Abort => (self, UploadEventView::Failed),
        }
    }
}

/// The upload and the remote files after at most `calls` further calls,
/// each answered as `answers` says.
pub open spec fn pass(upload: UploadView, remote: RemoteFiles, answers: Answers, calls: nat) -> (
    UploadView,
    RemoteFiles,
)
    decreases calls,
{
    if calls == 0 || upload.phase == UploadPhase::Finished || upload.phase == UploadPhase::Failed {
        (upload, remote)
    } else {
        let (served, event) = remote.serve(upload_action(upload), upload.file_name, answers);
        pass(upload_step(upload, event), served, answers, (calls - 1) as nat)
    }
}

/// An upload comes to an end within five calls.
pub proof fn lemma_pass_ends(
    assistant_id: Seq<char>,
    file_name: Seq<char>,
    force: bool,
    remote: RemoteFiles,
    answers: Answers,
)
    ensures
        ({
            let end = pass(UploadView::start(assistant_id, file_name, force), remote, answers, 5).0;
            end.phase == UploadPhase::Finished || end.phase == UploadPhase::Failed
        }),
{
    reveal_with_fuel(pass, 6);
}

/// A pass keeps the remote files at one record per file name.
///
/// If no two records share a name before the pass and the lists show the
/// files as they are, then no two records share a name after the pass,
/// provided that the old file, where there is one to replace, leaves the
/// account or the assistant: that the deletion or the detachment
/// succeeds.
pub proof fn lemma_pass_keeps_one_record_per_name(
    assistant_id: Seq<char>,
    file_name: Seq<char>,
    force: bool,
    remote: RemoteFiles,
    answers: Answers,
)
    requires
        remote.one_record_per_name(),
        remote.listed_as(answers.assistant_files, answers.account_files),
        force && answers.list_ok && file_id_by_name(answers.assistant_files, answers.account_files).contains_key(
            file_name,
        ) ==> answers.delete_ok || answers.detach_ok,
    ensures
        pass(UploadView::start(assistant_id, file_name, force), remote, answers, 5).1.one_record_per_name(),
{
    reveal_with_fuel(pass, 6);
    let start = UploadView::start(assistant_id, file_name, force);
    let by_name = file_id_by_name(answers.assistant_files, answers.account_files);
    lemma_file_id_by_name(answers.assistant_files, answers.account_files, file_name);
    let end = pass(start, remote, answers, 5).1;
    if answers.list_ok {
        if by_name.contains_key(file_name) {
            let old = by_name[file_name];
            let i = choose|i: int|
                #![trigger on_record(answers.assistant_files, answers.account_files, i, file_name)]
                on_record(answers.assistant_files, answers.account_files, i, file_name) && by_name[file_name]
                    == answers.account_files[i].id;
            assert(remote.is_record(old) && remote.files[old] == file_name);
            if force {
                assert forall|a: Seq<char>, b: Seq<char>|
                    end.is_record(a) && end.is_record(b) && end.files[a] == end.files[b] implies a == b by {
                    if a != answers.fresh && b != answers.fresh {
                        assert(remote.is_record(a) && remote.is_record(b));
                    } else if a != answers.fresh {
                        assert(remote.is_record(a));
                        assert(a != old);
                    } else if b != answers.fresh {
                        assert(remote.is_record(b));
                        assert(b != old);
                    }
                }
            }
        } else {
            assert forall|id: Seq<char>| remote.is_record(id) implies remote.files[id] != file_name by {
                if remote.files[id] == file_name {
                    let i = choose|i: int|
                        0 <= i < answers.account_files.len() && #[trigger] answers.account_files[i].id == id;
                    assert(on_record(answers.assistant_files, answers.account_files, i, file_name));
                }
            }
            assert forall|a: Seq<char>, b: Seq<char>|
                end.is_record(a) && end.is_record(b) && end.files[a] == end.files[b] implies a == b by {
                if a != answers.fresh && b != answers.fresh {
                    assert(remote.is_record(a) && remote.is_record(b));
                } else if a != answers.fresh {
                    assert(remote.is_record(a));
                } else if b != answers.fresh {
                    assert(remote.is_record(b));
                }
            }
        }
    }
}

/// Where the old file can neither be deleted nor detached, a forced
/// upload still goes through, and two records then carry the file's name:
/// the old one and the new one.
pub proof fn lemma_failed_removal_leaves_two_records(
    assistant_id: Seq<char>,
    file_name: Seq<char>,
    remote: RemoteFiles,
    answers: Answers,
)
    requires
        remote.listed_as(answers.assistant_files, answers.account_files),
        file_id_by_name(answers.assistant_files, answers.account_files).contains_key(file_name),
        !remote.files.contains_key(answers.fresh),
        answers.list_ok && answers.upload_ok && answers.attach_ok,
        !answers.delete_ok && !answers.detach_ok,
    ensures
        ({
            let old_id = file_id_by_name(answers.assistant_files, answers.account_files)[file_name];
            let (upload, after) = pass(UploadView::start(assistant_id, file_name, true), remote, answers, 5);
            &&& upload_action(upload) == UploadActionView::Finish { file_id: answers.fresh, uploaded: true }
            &&& old_id != answers.fresh
            &&& after.is_record(old_id) && after.files[old_id] == file_name
            &&& after.is_record(answers.fresh) && after.files[answers.fresh] == file_name
        }),
{
    reveal_with_fuel(pass, 6);
    lemma_file_id_by_name(answers.assistant_files, answers.account_files, file_name);
}

/// With `force` unset, a file that is on record is never sent again: the
/// lists end the upload at once, with the identifier on record and
/// `uploaded` unset, and nothing that is reported afterwards changes that.
pub proof fn lemma_skip_rule(
    upload: UploadView,
    assistant_files: Seq<Seq<char>>,
    account_files: Seq<RemoteFileView>,
    later: UploadEventView,
)
    requires
        upload.wf(),
        upload.phase == UploadPhase::Listing,
        !upload.force,
        file_id_by_name(assistant_files, account_files).contains_key(upload.file_name),
    ensures
        ({
            let listed = upload_step(upload, UploadEventView::Listed { assistant_files, account_files });
            &&& upload_action(listed) == UploadActionView::Finish {
                file_id: file_id_by_name(assistant_files, account_files)[upload.file_name],
                uploaded: false,
            }
            &&& upload_step(listed, later) == listed
        }),
{
}

} // verus!
