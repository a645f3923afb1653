//! The buddy: one assistant and the project it knows.

pub mod config;
pub mod conversation;
pub mod sync;

use vstd::prelude::*;
use vstd::std_specs::convert::FromSpecImpl;
use crate::ais::assistant::{AssistantId, ThreadId};
use crate::ais::run::{run_thread_msg, ThreadRun, ThreadRunView};
use crate::buddy::config::{bundle_views, Config, FileBundle, FileBundleView};
use crate::buddy::conversation::{ConversationSetup, ConversationSetupView};
use crate::buddy::sync::{FilesSync, FilesSyncView};

verus! {

/// An assistant together with its settings.
#[derive(Debug, Clone)]
pub struct Buddy {
    assistant_id: AssistantId,
    config: Config,
}

/// A [`Buddy`] as plain text, as far as its files are concerned.
pub struct BuddyView {
    /// Display name of the assistant.
    pub name: Seq<char>,
    /// Model the assistant runs on.
    pub model: Seq<char>,
    /// File that holds the assistant's instructions.
    pub instructions_file: Seq<char>,
    pub assistant_id: Seq<char>,
    pub bundles: Seq<FileBundleView>,
}

impl View for Buddy {
    type V = BuddyView;

    closed spec fn view(&self) -> BuddyView {
        BuddyView {
            name: self.config.name@,
            model: self.config.model@,
            instructions_file: self.config.instructions_file@,
            assistant_id: self.assistant_id@,
            bundles: bundle_views(self.config.file_bundles@),
        }
    }
}

/// A conversation with the assistant: the thread it runs in.
#[derive(Debug, Clone)]
pub struct Conversation {
    thread_id: ThreadId,
}

impl View for Conversation {
    type V = Seq<char>;

    closed spec fn view(&self) -> Seq<char> {
        self.thread_id@
    }
}

impl From<ThreadId> for Conversation {
    fn from(thread_id: ThreadId) -> (conversation: Conversation) {
        Conversation { thread_id }
    }
}

impl FromSpecImpl<ThreadId> for Conversation {
    open spec fn obeys_from_spec() -> bool {
        true
    }

    closed spec fn from_spec(thread_id: ThreadId) -> Conversation {
        Conversation { thread_id }
    }
}

impl Conversation {
    /// The conversation that runs in `thread_id`.
    pub fn new(thread_id: ThreadId) -> (conversation: Conversation)
        ensures
            conversation@ == thread_id@,
    {
        Conversation { thread_id }
    }

    /// The thread the conversation runs in.
    pub fn thread_id(&self) -> (thread_id: &ThreadId)
        ensures
            thread_id@ == self@,
    {
        &self.thread_id
    }
}

/// The name of a bundle's file: assistant name, bundle name, the word
/// `bundle` and the assistant's identifier, joined by hyphens, then a dot
/// and the extension.
pub open spec fn artifact_name(
    name: Seq<char>,
    bundle_name: Seq<char>,
    assistant_id: Seq<char>,
    dst_ext: Seq<char>,
) -> Seq<char> {
    name + "-"@ + bundle_name + "-bundle-"@ + assistant_id + "."@ + dst_ext
}

impl Buddy {
    /// The buddy for the assistant `assistant_id` with the settings
    /// `config`.
    pub fn new(assistant_id: AssistantId, config: Config) -> (buddy: Buddy)
        ensures
            buddy@ == (BuddyView {
                name: config.name@,
                model: config.model@,
                instructions_file: config.instructions_file@,
                assistant_id: assistant_id@,
                bundles: bundle_views(config.file_bundles@),
            }),
    {
        Buddy { assistant_id, config }
    }

    /// Display name of the assistant.
    pub fn name(&self) -> (name: &str)
        ensures
            name@ == self@.name,
    {
        self.config.name.as_str()
    }

    /// Identifier of the assistant.
    pub fn assistant_id(&self) -> (id: &AssistantId)
        ensures
            id@ == self@.assistant_id,
    {
        &self.assistant_id
    }

    /// The settings.
    pub fn config(&self) -> (config: &Config)
        ensures
            config.name@ == self@.name,
            config.model@ == self@.model,
            config.instructions_file@ == self@.instructions_file,
            bundle_views(config.file_bundles@) == self@.bundles,
    {
        &self.config
    }

    /// The name of the file that holds `bundle`: see [`artifact_name`].
    pub fn bundle_file_name(&self, bundle: &FileBundle) -> (file_name: String)
        ensures
            file_name@ == artifact_name(self@.name, bundle@.bundle_name, self@.assistant_id, bundle@.dst_ext),
    {
        sync::make_artifact_name(
            self.config.name.as_str(),
            bundle.bundle_name.as_str(),
            self.assistant_id.as_str(),
            bundle.dst_ext.as_str(),
        )
    }

    /// Starts asking the assistant `msg` in the conversation
    /// `conversation`.
    pub fn chat(&self, conversation: &Conversation, msg: &str) -> (run: ThreadRun)
        ensures
            run@ == ThreadRunView::start(self@.assistant_id, conversation@, msg@),
    {
        run_thread_msg(&self.assistant_id, conversation.thread_id(), msg)
    }

    /// Starts finding the conversation to go on with.
    ///
    /// A saved conversation is taken up again if the service still knows
    /// its thread; with `recreate` set it is discarded first. Where none
    /// is saved, or what is saved cannot be read, a new one is created and
    /// saved.
    pub fn load_or_create_conversation(&self, recreate: bool) -> (setup: ConversationSetup)
        ensures
            setup@ == ConversationSetupView::start(recreate),
    {
        ConversationSetup::start(recreate)
    }

    /// Starts bringing the assistant's files up to date.
    ///
    /// Bundle files left by another assistant are removed first. Then each
    /// configured bundle whose source directory holds matching files is
    /// written anew and uploaded: always if `recreate` is set or the bundle
    /// file was not there before, else only if the assistant does not hold
    /// it yet. A source directory that cannot be listed ends the sync.
    pub fn upload_files(&self, recreate: bool) -> (sync: FilesSync)
        requires
            self@.bundles.len() <= u32::MAX,
        ensures
            sync@ == FilesSyncView::start(self@, recreate),
            sync@.wf(),
    {
        FilesSync::start(
            self.config.name.as_str(),
            self.assistant_id.as_str(),
            &self.config.file_bundles,
            recreate,
        )
    }
}

} // verus!
