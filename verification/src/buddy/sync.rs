//! Bringing the files of an assistant up to date, bundle by bundle.
//!
//! The machine here decides what is listed, removed, written and uploaded,
//! and in which order. The caller does each of these and reports back.

use vstd::prelude::*;
use crate::buddy::{artifact_name, BuddyView};
use crate::buddy::config::{bundle_views, FileBundle, FileBundleView};
use crate::text::{clone_texts, contains_text, has_subtext, texts};

verus! {

/// Where a sync stands.
#[derive(Debug, Clone, Copy, PartialEq, Eq, Structural)]
pub enum SyncPhase {
    /// Waiting for the list of bundle files left by another assistant.
    ListingStale,
    /// Waiting for a stale bundle file to be removed.
    Removing,
    /// Stopped before removing a file that lies outside the data
    /// directory.
    Refused,
    /// Waiting for the list of a bundle's source files.
    ListingSources,
    /// Waiting for a bundle file to be written.
    Bundling,
    /// Waiting for a bundle file to be uploaded.
    Uploading,
    /// Done with all bundles.
    Finished,
    /// Given up: a step failed.
    Failed,
}

/// What came of the last step.
#[derive(Debug, Clone)]
pub enum SyncEvent {
    /// The files that the listing found.
    Listed { files: Vec<String> },
    /// The file is removed.
    Removed,
    /// The bundle file is written; `existed` tells whether a file of that
    /// name was there before.
    Bundled { existed: bool },
    /// The upload came to an end; `uploaded` tells whether the file was
    /// sent.
    Uploaded { uploaded: bool },
    /// The step failed.
    Failed,
}

/// A [`SyncEvent`] as plain text.
pub enum SyncEventView {
    Listed { files: Seq<Seq<char>> },
    Removed,
    Bundled { existed: bool },
    Uploaded { uploaded: bool },
    Failed,
}

impl View for SyncEvent {
    type V = SyncEventView;

    open spec fn view(&self) -> SyncEventView {
        match self {
            SyncEvent::Listed { files } => SyncEventView::Listed { files: texts(files@) },
            SyncEvent::Removed => SyncEventView::Removed,
            SyncEvent::Bundled { existed } => SyncEventView::Bundled { existed: *existed },
            SyncEvent::Uploaded { uploaded } => SyncEventView::Uploaded { uploaded: *uploaded },
            SyncEvent::Failed => SyncEventView::Failed,
        }
    }
}

/// The step to take next.
#[derive(Debug, Clone)]
pub enum SyncAction {
    /// List the files right under the data directory that match
    /// `include_globs` and not `exclude_globs`.
    ListStale { include_globs: Vec<String>, exclude_globs: Vec<String> },
    /// Remove the file.
    RemoveFile { path: String },
    /// Stop: the file was up for removal but lies outside the data
    /// directory.
    Refuse { path: String },
    /// List the files under `src_dir` that match `include_globs`. A
    /// directory that cannot be opened makes the step fail.
    ListSources { src_dir: String, include_globs: Vec<String> },
    /// Bundle `files` into the file `file_name` of the data directory.
    WriteBundle { files: Vec<String>, file_name: String },
    /// Upload the bundle file `file_name`.
    Upload { file_name: String, force: bool },
    /// Nothing more to do: `num_uploaded` bundles were sent.
    Finish { num_uploaded: u32 },
    /// Nothing more to do: the sync failed.
    Abort,
}

/// A [`SyncAction`] as plain text.
pub enum SyncActionView {
    ListStale { include_globs: Seq<Seq<char>>, exclude_globs: Seq<Seq<char>> },
    RemoveFile { path: Seq<char> },
    Refuse { path: Seq<char> },
    ListSources { src_dir: Seq<char>, include_globs: Seq<Seq<char>> },
    WriteBundle { files: Seq<Seq<char>>, file_name: Seq<char> },
    Upload { file_name: Seq<char>, force: bool },
    Finish { num_uploaded: u32 },
    Abort,
}

impl View for SyncAction {
    type V = SyncActionView;

    open spec fn view(&self) -> SyncActionView {
        match self {
            SyncAction::ListStale { include_globs, exclude_globs } => SyncActionView::ListStale {
                include_globs: texts(include_globs@),
                exclude_globs: texts(exclude_globs@),
            },
            SyncAction::RemoveFile { path } => SyncActionView::RemoveFile { path: path@ },
            SyncAction::Refuse { path } => SyncActionView::Refuse { path: path@ },
            SyncAction::ListSources { src_dir, include_globs } => SyncActionView::ListSources {
                src_dir: src_dir@,
                include_globs: texts(include_globs@),
            },
            SyncAction::WriteBundle { files, file_name } => SyncActionView::WriteBundle {
                files: texts(files@),
                file_name: file_name@,
            },
            SyncAction::Upload { file_name, force } => SyncActionView::Upload { file_name: file_name@, force: *force },
            SyncAction::Finish { num_uploaded } => SyncActionView::Finish { num_uploaded: *num_uploaded },
            SyncAction::Abort => SyncActionView::Abort,
        }
    }
}

/// A sync of the files of one assistant, as far as it has come.
#[derive(Debug)]
pub struct FilesSync {
    name: String,
    assistant_id: String,
    bundles: Vec<FileBundle>,
    recreate: bool,
    phase: SyncPhase,
    cursor: usize,
    stale: Vec<String>,
    files: Vec<String>,
    force: bool,
    num_uploaded: u32,
}

/// A [`FilesSync`] as plain text.
pub struct FilesSyncView {
    /// Display name of the assistant.
    pub name: Seq<char>,
    pub assistant_id: Seq<char>,
    pub bundles: Seq<FileBundleView>,
    /// Whether every bundle is to be uploaded anew.
    pub recreate: bool,
    pub phase: SyncPhase,
    /// The stale file or the bundle at hand, by its place.
    pub cursor: int,
    /// The stale bundle files found.
    pub stale: Seq<Seq<char>>,
    /// The source files of the bundle at hand.
    pub files: Seq<Seq<char>>,
    /// Whether the bundle at hand is uploaded even if the assistant holds
    /// it.
    pub force: bool,
    /// Number of bundles sent so far.
    pub num_uploaded: u32,
}

impl View for FilesSync {
    type V = FilesSyncView;

    closed spec fn view(&self) -> FilesSyncView {
        FilesSyncView {
            name: self.name@,
            assistant_id: self.assistant_id@,
            bundles: bundle_views(self.bundles@),
            recreate: self.recreate,
            phase: self.phase,
            cursor: self.cursor as int,
            stale: texts(self.stale@),
            files: texts(self.files@),
            force: self.force,
            num_uploaded: self.num_uploaded,
        }
    }
}

/// Patterns of the files that may be bundle files.
pub open spec fn stale_include_globs() -> Seq<Seq<char>> {
    seq!["*.rs"@, "*.md"@]
}

/// Pattern of the bundle files that belong to the assistant `assistant_id`
/// and so are not stale.
pub open spec fn stale_exclude_globs(assistant_id: Seq<char>) -> Seq<Seq<char>> {
    seq!["*"@ + assistant_id + "*"@]
}

impl FilesSyncView {
    /// A sync that has not taken a step yet.
    pub open spec fn start(buddy: BuddyView, recreate: bool) -> FilesSyncView {
        FilesSyncView {
            name: buddy.name,
            assistant_id: buddy.assistant_id,
            bundles: buddy.bundles,
            recreate,
            phase: SyncPhase::ListingStale,
            cursor: 0,
            stale: Seq::empty(),
            files: Seq::empty(),
            force: false,
            num_uploaded: 0,
        }
    }

    /// The cursor points at what the phase works on, and no more bundles
    /// count as sent than have been gone through.
    pub open spec fn wf(self) -> bool {
        &&& self.bundles.len() <= u32::MAX
        &&& 0 <= self.cursor
        &&& match self.phase {
            SyncPhase::ListingStale => self.num_uploaded == 0,
            SyncPhase::Removing | SyncPhase::Refused => self.cursor < self.stale.len() && self.num_uploaded == 0,
            SyncPhase::ListingSources | SyncPhase::Bundling | SyncPhase::Uploading => self.cursor
                < self.bundles.len() && self.num_uploaded <= self.cursor,
            SyncPhase::Finished | SyncPhase::Failed => self.num_uploaded <= self.bundles.len(),
        }
    }

    /// The sync after a step that failed or was not asked for.
    pub open spec fn give_up(self) -> FilesSyncView {
        FilesSyncView { phase: SyncPhase::Failed, ..self }
    }

    /// The sync as it turns to the stale file at `k`: about to remove it
    /// if its path lies in the data directory, refusing if not, and on to
    /// the bundles if there is no such file.
    pub open spec fn at_stale(self, k: int) -> FilesSyncView {
        if k < self.stale.len() {
            if has_subtext(self.stale[k], ".buddy"@) {
                FilesSyncView { phase: SyncPhase::Removing, cursor: k, ..self }
            } else {
                FilesSyncView { phase: SyncPhase::Refused, cursor: k, ..self }
            }
        } else {
            self.at_bundle(0)
        }
    }

    /// The sync as it turns to the bundle at `i`: about to list its
    /// sources, or finished if there is no such bundle.
    pub open spec fn at_bundle(self, i: int) -> FilesSyncView {
        if i < self.bundles.len() {
            FilesSyncView { phase: SyncPhase::ListingSources, cursor: i, files: Seq::empty(), force: false, ..self }
        } else {
            FilesSyncView { phase: SyncPhase::Finished, cursor: i, files: Seq::empty(), force: false, ..self }
        }
    }

    /// The name of the file that holds the bundle at hand.
    pub open spec fn file_name(self) -> Seq<char> {
        artifact_name(
            self.name,
            self.bundles[self.cursor].bundle_name,
            self.assistant_id,
            self.bundles[self.cursor].dst_ext,
        )
    }
}

/// The sync after the report `event`.
///
/// A failed step ends the sync, a listing that fails because its directory
/// cannot be opened included.
/// Stale files are removed one by one. Then the bundles are gone through
/// in order: a bundle whose source directory holds no matching file is
/// passed over without writing or uploading anything;
/// any other is written, then uploaded, by force if `recreate` is set or
/// its file was not there before. A bundle counts as sent if its upload
/// says so. A failed step ends the sync.
pub open spec fn sync_step(s: FilesSyncView, event: SyncEventView) -> FilesSyncView {
    match s.phase {
        SyncPhase::ListingStale => match event {
            SyncEventView::Listed { files } => FilesSyncView { stale: files, ..s }.at_stale(0),
            _ => s.give_up(),
        },
        SyncPhase::Removing => match event {
            SyncEventView::Removed => s.at_stale(s.cursor + 1),
            _ => s.give_up(),
        },
        SyncPhase::ListingSources => match event {
            SyncEventView::Listed { files } => if files.len() == 0 {
                s.at_bundle(s.cursor + 1)
            } else {
                FilesSyncView { phase: SyncPhase::Bundling, files, ..s }
            },
            _ => s.give_up(),
        },
        SyncPhase::Bundling => match event {
            SyncEventView::Bundled { existed } => FilesSyncView {
                phase: SyncPhase::Uploading,
                force: s.recreate || !existed,
                ..s
            },
            _ => s.give_up(),
        },
        SyncPhase::Uploading => match event {
            SyncEventView::Uploaded { uploaded } => FilesSyncView {
                num_uploaded: if uploaded {
                    (s.num_uploaded + 1) as u32
                } else {
                    s.num_uploaded
                },
                ..s
            }.at_bundle(s.cursor + 1),
            _ => s.give_up(),
        },
        SyncPhase::Refused | SyncPhase::Finished | SyncPhase::Failed => s,
    }
}

/// The step that a sync in state `s` waits for.
pub open spec fn sync_action(s: FilesSyncView) -> SyncActionView {
    match s.phase {
        SyncPhase::ListingStale => SyncActionView::ListStale {
            include_globs: stale_include_globs(),
            exclude_globs: stale_exclude_globs(s.assistant_id),
        },
        SyncPhase::Removing => SyncActionView::RemoveFile { path: s.stale[s.cursor] },
        SyncPhase::Refused => SyncActionView::Refuse { path: s.stale[s.cursor] },
        SyncPhase::ListingSources => SyncActionView::ListSources {
            src_dir: s.bundles[s.cursor].src_dir,
            include_globs: s.bundles[s.cursor].src_globs,
        },
        SyncPhase::Bundling => SyncActionView::WriteBundle { files: s.files, file_name: s.file_name() },
        SyncPhase::Uploading => SyncActionView::Upload { file_name: s.file_name(), force: s.force },
        SyncPhase::Finished => SyncActionView::Finish { num_uploaded: s.num_uploaded },
        SyncPhase::Failed => SyncActionView::Abort,
    }
}

/// A step keeps a sync well formed.
pub proof fn lemma_sync_step_keeps_wf(s: FilesSyncView, event: SyncEventView)
    requires
        s.wf(),
    ensures
        sync_step(s, event).wf(),
{
}

/// A bundle without source files is passed over: where the listing is
/// empty, the sync turns to the next bundle, or finishes, without asking
/// for a bundle file to be written or uploaded, and counts nothing.
pub proof fn lemma_no_sources_no_upload(s: FilesSyncView, event: SyncEventView)
    requires
        s.wf(),
        s.phase == SyncPhase::ListingSources,
        event == (SyncEventView::Listed { files: Seq::empty() }),
    ensures
        ({
            let next = sync_step(s, event);
            &&& next.num_uploaded == s.num_uploaded
            &&& next.cursor == s.cursor + 1
            &&& if s.cursor + 1 < s.bundles.len() {
                sync_action(next) == (SyncActionView::ListSources {
                    src_dir: s.bundles[s.cursor + 1].src_dir,
                    include_globs: s.bundles[s.cursor + 1].src_globs,
                })
            } else {
                sync_action(next) == (SyncActionView::Finish { num_uploaded: s.num_uploaded })
            }
        }),
{
}

/// No more bundles count as sent than uploads said so: a step raises the
/// count by one exactly on the report of an upload that sent its file, and
/// never otherwise.
pub proof fn lemma_count_follows_uploads(s: FilesSyncView, event: SyncEventView)
    requires
        s.wf(),
    ensures
        sync_step(s, event).num_uploaded == if s.phase == SyncPhase::Uploading && event == (SyncEventView::Uploaded {
            uploaded: true,
        }) {
            s.num_uploaded + 1
        } else {
            s.num_uploaded as int
        },
{
}

/// Puts together the name of a bundle's file.
pub(crate) fn make_artifact_name(name: &str, bundle_name: &str, assistant_id: &str, dst_ext: &str) -> (file_name:
    String)
    ensures
        file_name@ == artifact_name(name@, bundle_name@, assistant_id@, dst_ext@),
{
    let mut file_name = String::new();
    file_name.append(name);
    file_name.append("-");
    file_name.append(bundle_name);
    file_name.append("-bundle-");
    file_name.append(assistant_id);
    file_name.append(".");
    file_name.append(dst_ext);
    assert(file_name@ == artifact_name(name@, bundle_name@, assistant_id@, dst_ext@)) by {
        assert(Seq::<char>::empty() + name@ == name@);
    }
    file_name
}

/// A copy of `bundles`.
fn clone_bundles(bundles: &Vec<FileBundle>) -> (copy: Vec<FileBundle>)
    ensures
        bundle_views(copy@) == bundle_views(bundles@),
{
    let mut copy: Vec<FileBundle> = Vec::new();
    let mut i: usize = 0;
    while i < bundles.len()
        invariant
            i <= bundles.len(),
            bundle_views(copy@) == bundle_views(bundles@).take(i as int),
        decreases bundles.len() - i,
    {
        let ghost before = bundle_views(copy@);
        let bundle = &bundles[i];
        copy.push(
            FileBundle {
                bundle_name: bundle.bundle_name.clone(),
                src_dir: bundle.src_dir.clone(),
                dst_ext: bundle.dst_ext.clone(),
                src_globs: clone_texts(&bundle.src_globs),
            },
        );
        assert(bundle_views(copy@) == before.push(bundle@));
        assert(bundle_views(bundles@).take(i as int).push(bundle_views(bundles@)[i as int]) == bundle_views(
            bundles@,
        ).take(i + 1));
        i += 1;
    }
    assert(bundle_views(bundles@).take(i as int) == bundle_views(bundles@));
    copy
}

impl FilesSync {
    #[verifier::type_invariant]
    spec fn inv(self) -> bool {
        self@.wf()
    }

    /// A sync that has not taken a step yet.
    pub(crate) fn start(name: &str, assistant_id: &str, bundles: &Vec<FileBundle>, recreate: bool) -> (sync:
        FilesSync)
        requires
            bundles.len() <= u32::MAX,
        ensures
            sync@ == (FilesSyncView {
                name: name@,
                assistant_id: assistant_id@,
                bundles: bundle_views(bundles@),
                recreate,
                phase: SyncPhase::ListingStale,
                cursor: 0,
                stale: Seq::empty(),
                files: Seq::empty(),
                force: false,
                num_uploaded: 0,
            }),
    {
        let stale: Vec<String> = Vec::new();
        let files: Vec<String> = Vec::new();
        assert(texts(stale@) == Seq::<Seq<char>>::empty());
        FilesSync {
            name: name.to_owned(),
            assistant_id: assistant_id.to_owned(),
            bundles: clone_bundles(bundles),
            recreate,
            phase: SyncPhase::ListingStale,
            cursor: 0,
            stale,
            files,
            force: false,
            num_uploaded: 0,
        }
    }

    /// Where the sync stands.
    pub fn phase(&self) -> (phase: SyncPhase)
        ensures
            phase == self@.phase,
    {
        self.phase
    }

    /// Number of bundles sent so far.
    pub fn num_uploaded(&self) -> (count: u32)
        ensures
            count == self@.num_uploaded,
    {
        self.num_uploaded
    }

    /// The step the sync waits for.
    pub fn action(&self) -> (action: SyncAction)
        ensures
            action@ == sync_action(self@),
    {
        proof {
            use_type_invariant(self);
        }
        match self.phase {
            SyncPhase::ListingStale => {
                let mut include_globs: Vec<String> = Vec::new();
                include_globs.push("*.rs".to_owned());
                include_globs.push("*.md".to_owned());
                let mut pattern = String::new();
                pattern.append("*");
                pattern.append(self.assistant_id.as_str());
                pattern.append("*");
                let mut exclude_globs: Vec<String> = Vec::new();
                exclude_globs.push(pattern);
                proof {
                    assert(Seq::<char>::empty() + "*"@ == "*"@);
                    assert(texts(include_globs@) == stale_include_globs());
                    assert(texts(exclude_globs@) == stale_exclude_globs(self@.assistant_id));
                }
                SyncAction::ListStale { include_globs, exclude_globs }
            },
            SyncPhase::Removing => {
                assert(texts(self.stale@)[self.cursor as int] == self.stale[self.cursor as int]@);
                SyncAction::RemoveFile { path: self.stale[self.cursor].clone() }
            },
            SyncPhase::Refused => {
                assert(texts(self.stale@)[self.cursor as int] == self.stale[self.cursor as int]@);
                SyncAction::Refuse { path: self.stale[self.cursor].clone() }
            },
            SyncPhase::ListingSources => {
                let bundle = &self.bundles[self.cursor];
                assert(bundle_views(self.bundles@)[self.cursor as int] == bundle@);
                SyncAction::ListSources {
                    src_dir: bundle.src_dir.clone(),
                    include_globs: clone_texts(&bundle.src_globs),
                }
            },
            SyncPhase::Bundling => {
                let bundle = &self.bundles[self.cursor];
                assert(bundle_views(self.bundles@)[self.cursor as int] == bundle@);
                SyncAction::WriteBundle {
                    files: clone_texts(&self.files),
                    file_name: make_artifact_name(
                        self.name.as_str(),
                        bundle.bundle_name.as_str(),
                        self.assistant_id.as_str(),
                        bundle.dst_ext.as_str(),
                    ),
                }
            },
            SyncPhase::Uploading => {
                let bundle = &self.bundles[self.cursor];
                assert(bundle_views(self.bundles@)[self.cursor as int] == bundle@);
                SyncAction::Upload {
                    file_name: make_artifact_name(
                        self.name.as_str(),
                        bundle.bundle_name.as_str(),
                        self.assistant_id.as_str(),
                        bundle.dst_ext.as_str(),
                    ),
                    force: self.force,
                }
            },
            SyncPhase::Finished => SyncAction::Finish { num_uploaded: self.num_uploaded },
            SyncPhase::Failed => SyncAction::Abort,
        }
    }

    fn give_up(self) -> (next: FilesSync)
        ensures
            next@ == self@.give_up(),
    {
        proof {
            use_type_invariant(&self);
        }
        FilesSync { phase: SyncPhase::Failed, ..self }
    }

    fn at_bundle(self, i: usize, num_uploaded: u32) -> (next: FilesSync)
        requires
            num_uploaded <= i,
            i <= self@.bundles.len(),
        ensures
            next@ == (FilesSyncView { num_uploaded, ..self@ }).at_bundle(i as int),
    {
        proof {
            use_type_invariant(&self);
        }
        let files: Vec<String> = Vec::new();
        assert(texts(files@) == Seq::<Seq<char>>::empty());
        if i < self.bundles.len() {
            FilesSync { phase: SyncPhase::ListingSources, cursor: i, files, force: false, num_uploaded, ..self }
        } else {
            FilesSync { phase: SyncPhase::Finished, cursor: i, files, force: false, num_uploaded, ..self }
        }
    }

    fn at_stale(self, k: usize) -> (next: FilesSync)
        requires
            self@.num_uploaded == 0,
        ensures
            next@ == self@.at_stale(k as int),
    {
        proof {
            use_type_invariant(&self);
        }
        if k < self.stale.len() {
            assert(texts(self.stale@)[k as int] == self.stale[k as int]@);
            if contains_text(self.stale[k].as_str(), ".buddy") {
                FilesSync { phase: SyncPhase::Removing, cursor: k, ..self }
            } else {
                FilesSync { phase: SyncPhase::Refused, cursor: k, ..self }
            }
        } else {
            self.at_bundle(0, 0)
        }
    }

    /// Takes in the report on the last step and names the next one.
    pub fn advance(self, event: SyncEvent) -> (next: (FilesSync, SyncAction))
        ensures
            next.0@ == sync_step(self@, event@),
            next.1@ == sync_action(next.0@),
            next.0@.wf(),
    {
        proof {
            use_type_invariant(&self);
        }
        let cursor = self.cursor;
        let sent = self.num_uploaded;
        assert(self@.stale.len() == self.stale.len());
        assert(self@.bundles.len() == self.bundles.len());
        let moved = match self.phase {
            SyncPhase::ListingStale => match event {
                SyncEvent::Listed { files } => {
                    let listed = FilesSync { stale: files, ..self };
                    listed.at_stale(0)
                },
                _ => self.give_up(),
            },
            SyncPhase::Removing => match event {
                SyncEvent::Removed => self.at_stale(cursor + 1),
                _ => self.give_up(),
            },
            SyncPhase::ListingSources => match event {
                SyncEvent::Listed { files } => if files.len() == 0 {
                    assert(texts(files@).len() == 0);
                    self.at_bundle(cursor + 1, sent)
                } else {
                    assert(texts(files@).len() != 0);
                    FilesSync { phase: SyncPhase::Bundling, files, ..self }
                },
                _ => self.give_up(),
            },
            SyncPhase::Bundling => match event {
                SyncEvent::Bundled { existed } => FilesSync {
                    phase: SyncPhase::Uploading,
                    force: self.recreate || !existed,
                    ..self
                },
                _ => self.give_up(),
            },
            SyncPhase::Uploading => match event {
                SyncEvent::Uploaded { uploaded } => {
                    let num_uploaded = if uploaded {
                        sent + 1
                    } else {
                        sent
                    };
                    self.at_bundle(cursor + 1, num_uploaded)
                },
                _ => self.give_up(),
            },
            SyncPhase::Refused | SyncPhase::Finished | SyncPhase::Failed => self,
        };
        proof {
            use_type_invariant(&moved);
        }
        let action = moved.action();
        (moved, action)
    }
}

} // verus!
