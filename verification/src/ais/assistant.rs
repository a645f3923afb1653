//! Assistants and the identifiers the service hands out.

use vstd::prelude::*;
use vstd::std_specs::convert::FromSpecImpl;

verus! {

/// What is needed to create an assistant.
#[derive(Debug, Clone)]
pub struct CreateConfig {
    pub name: String,
    pub model: String,
}

/// Identifier the service gave to an assistant.
#[derive(Debug, Clone)]
pub struct AssistantId(pub String);

/// Identifier the service gave to a conversation thread.
#[derive(Debug, Clone)]
pub struct ThreadId(pub String);

/// Identifier the service gave to an uploaded file.
#[derive(Debug, Clone)]
pub struct FileId(pub String);

impl View for AssistantId {
    type V = Seq<char>;

    open spec fn view(&self) -> Seq<char> {
        self.0@
    }
}

impl From<String> for AssistantId {
    fn from(value: String) -> (id: AssistantId) {
        AssistantId(value)
    }
}

impl FromSpecImpl<String> for AssistantId {
    open spec fn obeys_from_spec() -> bool {
        true
    }

    open spec fn from_spec(value: String) -> AssistantId {
        AssistantId(value)
    }
}

impl AssistantId {
    /// The identifier as text.
    pub fn as_str(&self) -> (text: &str)
        ensures
            text@ == self@,
    {
        self.0.as_str()
    }

    /// An owned copy of the identifier's text.
    pub fn to_string(&self) -> (text: String)
        ensures
            text@ == self@,
    {
        self.0.clone()
    }
}

impl View for ThreadId {
    type V = Seq<char>;

    open spec fn view(&self) -> Seq<char> {
        self.0@
    }
}

impl From<String> for ThreadId {
    fn from(value: String) -> (id: ThreadId) {
        ThreadId(value)
    }
}

impl FromSpecImpl<String> for ThreadId {
    open spec fn obeys_from_spec() -> bool {
        true
    }

    open spec fn from_spec(value: String) -> ThreadId {
        ThreadId(value)
    }
}

impl ThreadId {
    /// The identifier as text.
    pub fn as_str(&self) -> (text: &str)
        ensures
            text@ == self@,
    {
        self.0.as_str()
    }

    /// An owned copy of the identifier's text.
    pub fn to_string(&self) -> (text: String)
        ensures
            text@ == self@,
    {
        self.0.clone()
    }
}

impl View for FileId {
    type V = Seq<char>;

    open spec fn view(&self) -> Seq<char> {
        self.0@
    }
}

impl From<String> for FileId {
    fn from(value: String) -> (id: FileId) {
        FileId(value)
    }
}

impl FromSpecImpl<String> for FileId {
    open spec fn obeys_from_spec() -> bool {
        true
    }

    open spec fn from_spec(value: String) -> FileId {
        FileId(value)
    }
}

impl FileId {
    /// The identifier as text.
    pub fn as_str(&self) -> (text: &str)
        ensures
            text@ == self@,
    {
        self.0.as_str()
    }

    /// An owned copy of the identifier's text.
    pub fn to_string(&self) -> (text: String)
        ensures
            text@ == self@,
    {
        self.0.clone()
    }
}

/// One assistant as the service lists it.
#[derive(Debug, Clone)]
pub struct AssistantSummary {
    pub id: AssistantId,
    pub name: Option<String>,
}

/// An [`AssistantSummary`] as plain text.
pub struct AssistantSummaryView {
    pub id: Seq<char>,
    pub name: Option<Seq<char>>,
}

impl View for AssistantSummary {
    type V = AssistantSummaryView;

    open spec fn view(&self) -> AssistantSummaryView {
        AssistantSummaryView {
            id: self.id@,
            name: match self.name {
                Some(name) => Some(name@),
                None => None,
            },
        }
    }
}

/// The assistants in `assistants`, as plain text.
pub open spec fn summary_views(assistants: Seq<AssistantSummary>) -> Seq<AssistantSummaryView> {
    assistants.map_values(|assistant: AssistantSummary| assistant@)
}

/// Whether the assistant at `i` carries the name `name`.
pub open spec fn named(assistants: Seq<AssistantSummaryView>, i: int, name: Seq<char>) -> bool {
    0 <= i < assistants.len() && assistants[i].name == Some(name)
}

/// The identifier of the first listed assistant called `name`, if there
/// is one.
pub open spec fn found_by_name(assistants: Seq<AssistantSummaryView>, name: Seq<char>) -> Option<Seq<char>>
    decreases assistants.len(),
{
    if assistants.len() == 0 {
        None
    } else if assistants[0].name == Some(name) {
        Some(assistants[0].id)
    } else {
        found_by_name(assistants.drop_first(), name)
    }
}

/// No assistant is found exactly if none carries the name, and the one
/// found is the first that does.
pub proof fn lemma_found_by_name(assistants: Seq<AssistantSummaryView>, name: Seq<char>)
    ensures
        found_by_name(assistants, name) is None <==> forall|i: int| !named(assistants, i, name),
        found_by_name(assistants, name) matches Some(id) ==> exists|i: int|
            #![trigger named(assistants, i, name)]
            named(assistants, i, name) && id == assistants[i].id && forall|j: int|
                0 <= j < i ==> !named(assistants, j, name),
    decreases assistants.len(),
{
    if assistants.len() == 0 {
    } else if assistants[0].name == Some(name) {
        assert(named(assistants, 0, name));
    } else {
        let rest = assistants.drop_first();
        lemma_found_by_name(rest, name);
        assert forall|i: int| named(assistants, i, name) implies named(rest, i - 1, name) by {}
        assert forall|i: int| named(rest, i, name) implies named(assistants, i + 1, name) by {}
        if found_by_name(rest, name) is Some {
            let i = choose|i: int|
                #![trigger named(rest, i, name)]
                named(rest, i, name) && found_by_name(rest, name) == Some(rest[i].id) && forall|j: int|
                    0 <= j < i ==> !named(rest, j, name);
            assert(named(assistants, i + 1, name));
            assert forall|j: int| 0 <= j < i + 1 implies !named(assistants, j, name) by {
                if j > 0 && named(assistants, j, name) {
                    assert(named(rest, j - 1, name));
                }
            }
        } else {
            assert forall|i: int| !named(assistants, i, name) by {
                if named(assistants, i, name) {
                    assert(named(rest, i - 1, name));
                }
            }
        }
    }
}

/// The first listed assistant called `name`, if there is one.
pub fn find_by_name(assistants: &Vec<AssistantSummary>, name: &str) -> (found: Option<AssistantId>)
    ensures
        match found {
            Some(id) => found_by_name(summary_views(assistants@), name@) == Some(id@),
            None => found_by_name(summary_views(assistants@), name@) is None,
        },
{
    let ghost listed = summary_views(assistants@);
    let wanted = name.to_owned();
    let mut i: usize = 0;
    assert(listed.skip(0) == listed);
    while i < assistants.len()
        invariant
            i <= assistants.len(),
            wanted@ == name@,
            listed == summary_views(assistants@),
            found_by_name(listed.skip(i as int), name@) == found_by_name(listed, name@),
        decreases assistants.len() - i,
    {
        assert(listed.skip(i as int)[0] == assistants[i as int]@);
        assert(listed.skip(i as int).drop_first() == listed.skip(i + 1));
        let hit = match &assistants[i].name {
            Some(n) => *n == wanted,
            None => false,
        };
        if hit {
            return Some(AssistantId(assistants[i].id.0.clone()));
        }
        i += 1;
    }
    None
}

/// Where the setup of an assistant stands.
#[derive(Debug, Clone, Copy, PartialEq, Eq, Structural)]
pub enum AssistantPhase {
    /// Waiting for the list of assistants.
    Listing,
    /// Waiting for the old assistant to be deleted.
    Deleting,
    /// Waiting for the new assistant.
    Creating,
    /// Done: the assistant is known.
    Finished,
    /// Given up: a call failed.
    Failed,
}

/// What the service answered to the last call.
#[derive(Debug, Clone)]
pub enum AssistantEvent {
    /// The assistants of the account.
    Listed { assistants: Vec<AssistantSummary> },
    /// The assistant is deleted.
    Deleted,
    /// The service made the assistant `id`.
    Created { id: AssistantId },
    /// The call failed.
    Failed,
}

/// An [`AssistantEvent`] as plain text.
pub enum AssistantEventView {
    Listed { assistants: Seq<AssistantSummaryView> },
    Deleted,
    Created { id: Seq<char> },
    Failed,
}

impl View for AssistantEvent {
    type V = AssistantEventView;

    open spec fn view(&self) -> AssistantEventView {
        match self {
            AssistantEvent::Listed { assistants } => AssistantEventView::Listed {
                assistants: summary_views(assistants@),
            },
            AssistantEvent::Deleted => AssistantEventView::Deleted,
            AssistantEvent::Created { id } => AssistantEventView::Created { id: id@ },
            AssistantEvent::Failed => AssistantEventView::Failed,
        }
    }
}

/// The call to make next.
#[derive(Debug, Clone)]
pub enum AssistantAction {
    /// List the assistants of the account.
    ListAssistants,
    /// Delete the assistant.
    DeleteAssistant { id: AssistantId },
    /// Create an assistant.
    CreateAssistant { config: CreateConfig },
    /// Nothing more to do: the assistant is `id`, and `created` tells
    /// whether it is new.
    Finish { id: AssistantId, created: bool },
    /// Nothing more to do: a call failed, and no assistant is at hand.
    Abort,
}

/// An [`AssistantAction`] as plain text.
pub enum AssistantActionView {
    ListAssistants,
    DeleteAssistant { id: Seq<char> },
    CreateAssistant { name: Seq<char>, model: Seq<char> },
    Finish { id: Seq<char>, created: bool },
    Abort,
}

impl View for AssistantAction {
    type V = AssistantActionView;

    open spec fn view(&self) -> AssistantActionView {
        match self {
            AssistantAction::ListAssistants => AssistantActionView::ListAssistants,
            AssistantAction::DeleteAssistant { id } => AssistantActionView::DeleteAssistant { id: id@ },
            AssistantAction::CreateAssistant { config } => AssistantActionView::CreateAssistant {
                name: config.name@,
                model: config.model@,
            },
            AssistantAction::Finish { id, created } => AssistantActionView::Finish { id: id@, created: *created },
            AssistantAction::Abort => AssistantActionView::Abort,
        }
    }
}

/// The setup of an assistant, as far as it has come.
#[derive(Debug, Clone)]
pub struct AssistantSetup {
    name: String,
    model: String,
    recreate: bool,
    phase: AssistantPhase,
    id: Option<AssistantId>,
    created: bool,
}

/// An [`AssistantSetup`] as plain text.
pub struct AssistantSetupView {
    /// Name the assistant goes by.
    pub name: Seq<char>,
    /// Model a new assistant runs on.
    pub model: Seq<char>,
    /// Whether an assistant of that name is replaced.
    pub recreate: bool,
    pub phase: AssistantPhase,
    /// The assistant in hand: the one found, or the new one.
    pub id: Option<Seq<char>>,
    /// Whether the assistant in hand is new.
    pub created: bool,
}

impl View for AssistantSetup {
    type V = AssistantSetupView;

    closed spec fn view(&self) -> AssistantSetupView {
        AssistantSetupView {
            name: self.name@,
            model: self.model@,
            recreate: self.recreate,
            phase: self.phase,
            id: match self.id {
                Some(id) => Some(id@),
                None => None,
            },
            created: self.created,
        }
    }
}

impl AssistantSetupView {
    /// A setup that has not made a call yet.
    pub open spec fn start(name: Seq<char>, model: Seq<char>, recreate: bool) -> AssistantSetupView {
        AssistantSetupView { name, model, recreate, phase: AssistantPhase::Listing, id: None, created: false }
    }

    /// The setup after a call that failed or was not asked for.
    pub open spec fn give_up(self) -> AssistantSetupView {
        AssistantSetupView { phase: AssistantPhase::Failed, ..self }
    }
}

/// The setup after the answer `event`.
///
/// The first assistant that goes by the name is kept, unless `recreate`
/// is set: then it is deleted, and only after it is gone a new one is
/// created. Where none goes by the name, one is created. Any failed call
/// ends the setup; after a failed deletion nothing is created.
pub open spec fn assistant_step(s: AssistantSetupView, event: AssistantEventView) -> AssistantSetupView {
    match s.phase {
        AssistantPhase::Listing => match event {
            AssistantEventView::Listed { assistants } => match found_by_name(assistants, s.name) {
                None => AssistantSetupView { phase: AssistantPhase::Creating, ..s },
                Some(id) => if s.recreate {
                    AssistantSetupView { phase: AssistantPhase::Deleting, id: Some(id), ..s }
                } else {
                    AssistantSetupView { phase: AssistantPhase::Finished, id: Some(id), ..s }
                },
            },
            _ => s.give_up(),
        },
        AssistantPhase::Deleting => match event {
            AssistantEventView::Deleted => AssistantSetupView { phase: AssistantPhase::Creating, id: None, ..s },
            _ => s.give_up(),
        },
        AssistantPhase::Creating => match event {
            AssistantEventView::Created { id } => AssistantSetupView {
                phase: AssistantPhase::Finished,
                id: Some(id),
                created: true,
                ..s
            },
            _ => s.give_up(),
        },
        AssistantPhase::Finished | AssistantPhase::Failed => s,
    }
}

/// The call that a setup in state `s` waits for.
pub open spec fn assistant_action(s: AssistantSetupView) -> AssistantActionView {
    match s.phase {
        AssistantPhase::Listing => AssistantActionView::ListAssistants,
        AssistantPhase::Creating => AssistantActionView::CreateAssistant { name: s.name, model: s.model },
        AssistantPhase::Failed => AssistantActionView::Abort,
        AssistantPhase::Deleting => match s.id {
            Some(id) => AssistantActionView::DeleteAssistant { id },
            None => AssistantActionView::Abort,
        },
        AssistantPhase::Finished => match s.id {
            Some(id) => AssistantActionView::Finish { id, created: s.created },
            None => AssistantActionView::Abort,
        },
    }
}

/// The setup after the answers `events`, one after the other.
pub open spec fn assistant_run(s: AssistantSetupView, events: Seq<AssistantEventView>) -> AssistantSetupView
    decreases events.len(),
{
    if events.len() == 0 {
        s
    } else {
        assistant_step(assistant_run(s, events.drop_last()), events.last())
    }
}

/// After a deletion that failed nothing is created: whatever is answered
/// afterwards, the setup asks for no further call.
pub proof fn lemma_failed_deletion_creates_nothing(s: AssistantSetupView, later: Seq<AssistantEventView>)
    requires
        s.phase == AssistantPhase::Deleting,
    ensures
        assistant_action(assistant_run(assistant_step(s, AssistantEventView::Failed), later))
            == AssistantActionView::Abort,
    decreases later.len(),
{
    if later.len() > 0 {
        lemma_failed_deletion_creates_nothing(s, later.drop_last());
    }
}

/// Whatever is answered, a setup holds an assistant while it deletes or
/// has finished and none while it lists or creates; it deletes only with
/// `recreate` set, and with `recreate` set it finishes only with an
/// assistant that it created after the old one was gone.
pub proof fn lemma_setup_invariant(
    name: Seq<char>,
    model: Seq<char>,
    recreate: bool,
    events: Seq<AssistantEventView>,
)
    ensures
        ({
            let reached = assistant_run(AssistantSetupView::start(name, model, recreate), events);
            &&& reached.recreate == recreate
            &&& reached.name == name
            &&& reached.model == model
            &&& reached.phase == AssistantPhase::Listing || reached.phase == AssistantPhase::Creating
                ==> reached.id is None && !reached.created
            &&& reached.phase == AssistantPhase::Deleting ==> reached.id is Some && reached.recreate
                && !reached.created
            &&& reached.phase == AssistantPhase::Finished ==> reached.id is Some && (reached.created
                || !reached.recreate)
        }),
    decreases events.len(),
{
    if events.len() > 0 {
        lemma_setup_invariant(name, model, recreate, events.drop_last());
    }
}

/// Starts finding or making the assistant that `config` describes.
///
/// An assistant that goes by the name is kept unless `recreate` is set;
/// then it is deleted first and a new one created. The first call to make
/// is [`AssistantAction::ListAssistants`].
pub fn load_or_create(config: CreateConfig, recreate: bool) -> (setup: AssistantSetup)
    ensures
        setup@ == AssistantSetupView::start(config.name@, config.model@, recreate),
{
    AssistantSetup {
        name: config.name,
        model: config.model,
        recreate,
        phase: AssistantPhase::Listing,
        id: None,
        created: false,
    }
}

impl AssistantSetup {
    /// Where the setup stands.
    pub fn phase(&self) -> (phase: AssistantPhase)
        ensures
            phase == self@.phase,
    {
        self.phase
    }

    /// The call the setup waits for.
    pub fn action(&self) -> (action: AssistantAction)
        ensures
            action@ == assistant_action(self@),
    {
        match self.phase {
            AssistantPhase::Listing => AssistantAction::ListAssistants,
            AssistantPhase::Creating => AssistantAction::CreateAssistant {
                config: CreateConfig { name: self.name.clone(), model: self.model.clone() },
            },
            AssistantPhase::Failed => AssistantAction::Abort,
            AssistantPhase::Deleting => match &self.id {
                Some(id) => AssistantAction::DeleteAssistant { id: AssistantId(id.0.clone()) },
                None => AssistantAction::Abort,
            },
            AssistantPhase::Finished => match &self.id {
                Some(id) => AssistantAction::Finish { id: AssistantId(id.0.clone()), created: self.created },
                None => AssistantAction::Abort,
            },
        }
    }

    /// Takes in the answer to the last call and names the next one.
    pub fn advance(&mut self, event: AssistantEvent) -> (action: AssistantAction)
        ensures
            final(self)@ == assistant_step(old(self)@, event@),
            action@ == assistant_action(final(self)@),
    {
        match self.phase {
            AssistantPhase::Listing => match event {
                AssistantEvent::Listed { assistants } => match find_by_name(&assistants, self.name.as_str()) {
                    None => {
                        self.phase = AssistantPhase::Creating;
                    },
                    Some(id) => {
                        self.id = Some(id);
                        self.phase = if self.recreate {
                            AssistantPhase::Deleting
                        } else {
                            AssistantPhase::Finished
                        };
                    },
                },
                _ => {
                    self.phase = AssistantPhase::Failed;
                },
            },
            AssistantPhase::Deleting => match event {
                AssistantEvent::Deleted => {
                    self.id = None;
                    self.phase = AssistantPhase::Creating;
                },
                _ => {
                    self.phase = AssistantPhase::Failed;
                },
            },
            AssistantPhase::Creating => match event {
                AssistantEvent::Created { id } => {
                    self.id = Some(id);
                    self.created = true;
                    self.phase = AssistantPhase::Finished;
                },
                _ => {
                    self.phase = AssistantPhase::Failed;
                },
            },
            AssistantPhase::Finished | AssistantPhase::Failed => {},
        }
        self.action()
    }
}

} // verus!
