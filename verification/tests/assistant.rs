use buddy::ais::assistant::{
    find_by_name, load_or_create, AssistantAction, AssistantEvent, AssistantId, AssistantPhase, AssistantSetup,
    AssistantSummary, CreateConfig, FileId, ThreadId,
};
use buddy::ais::run::RunAction;
use buddy::buddy::config::Config;
use buddy::buddy::conversation::{SetupAction, SetupEvent, SetupPhase};
use buddy::buddy::{Buddy, Conversation};

fn summary(id: &str, name: Option<&str>) -> AssistantSummary {
    AssistantSummary { id: AssistantId::from(id.to_string()), name: name.map(|n| n.to_string()) }
}

fn config() -> Config {
    Config {
        name: "buddy-01".to_string(),
        model: "gpt-3.5-turbo-1106".to_string(),
        instructions_file: "instructions.md".to_string(),
        file_bundles: vec![],
    }
}

#[test]
fn identifiers_wrap_their_text() {
    assert_eq!(AssistantId::from("asst_1".to_string()).as_str(), "asst_1");
    assert_eq!(ThreadId::from("thread_1".to_string()).to_string(), "thread_1");
    assert_eq!(FileId::from("file_1".to_string()).as_str(), "file_1");
    let id: FileId = "file_2".to_string().into();
    assert_eq!(id.to_string(), "file_2");
}

#[test]
fn the_create_config_takes_name_and_model() {
    let create = CreateConfig::from(&config());
    assert_eq!(create.name, "buddy-01");
    assert_eq!(create.model, "gpt-3.5-turbo-1106");
}

#[test]
fn the_first_assistant_of_the_name_is_found() {
    let listed = vec![
        summary("a1", None),
        summary("a2", Some("other")),
        summary("a3", Some("buddy-01")),
        summary("a4", Some("buddy-01")),
    ];
    assert_eq!(find_by_name(&listed, "buddy-01").map(|id| id.to_string()), Some("a3".to_string()));
    assert_eq!(find_by_name(&listed, "buddy").map(|id| id.to_string()), None);
    assert_eq!(find_by_name(&vec![], "buddy-01").map(|id| id.to_string()), None);
}

fn setup(recreate: bool) -> AssistantSetup {
    load_or_create(CreateConfig::from(&config()), recreate)
}

fn listed() -> AssistantEvent {
    AssistantEvent::Listed {
        assistants: vec![summary("a1", Some("other")), summary("a3", Some("buddy-01")), summary("a4", Some("buddy-01"))],
    }
}

#[test]
fn an_assistant_that_exists_is_loaded() {
    let mut setup = setup(false);
    assert!(matches!(setup.action(), AssistantAction::ListAssistants));
    let action = setup.advance(listed());
    assert!(matches!(&action, AssistantAction::Finish { id, created: false } if id.as_str() == "a3"));
    assert_eq!(setup.phase(), AssistantPhase::Finished);
}

#[test]
fn an_assistant_that_is_missing_is_created() {
    for recreate in [false, true] {
        let mut setup = setup(recreate);
        let action = setup.advance(AssistantEvent::Listed { assistants: vec![summary("a1", Some("other"))] });
        match action {
            AssistantAction::CreateAssistant { config } => {
                assert_eq!(config.name, "buddy-01");
                assert_eq!(config.model, "gpt-3.5-turbo-1106");
            }
            other => panic!("went on with {:?}", other),
        }
        let action = setup.advance(AssistantEvent::Created { id: AssistantId::from("a9".to_string()) });
        assert!(matches!(&action, AssistantAction::Finish { id, created: true } if id.as_str() == "a9"));
    }
}

#[test]
fn recreate_deletes_before_it_creates() {
    let mut setup = setup(true);
    let action = setup.advance(listed());
    assert!(matches!(&action, AssistantAction::DeleteAssistant { id } if id.as_str() == "a3"));
    let action = setup.advance(AssistantEvent::Deleted);
    assert!(matches!(action, AssistantAction::CreateAssistant { .. }));
    let action = setup.advance(AssistantEvent::Created { id: AssistantId::from("a9".to_string()) });
    assert!(matches!(&action, AssistantAction::Finish { id, created: true } if id.as_str() == "a9"));
}

#[test]
fn a_failed_deletion_creates_nothing() {
    let mut setup = setup(true);
    setup.advance(listed());
    assert!(matches!(setup.advance(AssistantEvent::Failed), AssistantAction::Abort));
    assert_eq!(setup.phase(), AssistantPhase::Failed);
    let action = setup.advance(AssistantEvent::Created { id: AssistantId::from("a9".to_string()) });
    assert!(matches!(action, AssistantAction::Abort));
}

#[test]
fn a_failed_listing_or_creation_ends_the_setup() {
    let mut setup = setup(false);
    assert!(matches!(setup.advance(AssistantEvent::Failed), AssistantAction::Abort));
    let mut setup = self::setup(false);
    setup.advance(AssistantEvent::Listed { assistants: vec![] });
    assert!(matches!(setup.advance(AssistantEvent::Failed), AssistantAction::Abort));
}

#[test]
fn a_buddy_keeps_its_settings() {
    let buddy = Buddy::new(AssistantId::from("a".to_string()), config());
    assert_eq!(buddy.config().model, "gpt-3.5-turbo-1106");
    assert_eq!(buddy.config().instructions_file, "instructions.md");
    assert_eq!(buddy.config().name, "buddy-01");
}

#[test]
fn a_conversation_is_its_thread() {
    let conversation = Conversation::from(ThreadId::from("thread_7".to_string()));
    assert_eq!(conversation.thread_id().as_str(), "thread_7");
    assert_eq!(Conversation::new(ThreadId::from("t".to_string())).thread_id().as_str(), "t");
}

#[test]
fn a_chat_goes_to_the_thread_of_the_conversation() {
    let buddy = Buddy::new(AssistantId::from("asst_9".to_string()), config());
    let conversation = Conversation::from(ThreadId::from("thread_7".to_string()));
    match buddy.chat(&conversation, "hi").action() {
        RunAction::PostMessage { thread_id, message } => {
            assert_eq!(thread_id.as_str(), "thread_7");
            assert_eq!(message.content, "hi");
        }
        other => panic!("begins with {:?}", other),
    }
}

#[test]
fn a_saved_conversation_is_taken_up_again() {
    let buddy = Buddy::new(AssistantId::from("a".to_string()), config());
    let mut setup = buddy.load_or_create_conversation(false);
    assert!(matches!(setup.action(), SetupAction::LoadFile));
    let action = setup.advance(SetupEvent::Loaded { thread_id: ThreadId::from("t1".to_string()) });
    assert!(matches!(&action, SetupAction::RetrieveThread { thread_id } if thread_id.as_str() == "t1"));
    let action = setup.advance(SetupEvent::Verified);
    assert!(matches!(&action, SetupAction::Finish { thread_id, created: false } if thread_id.as_str() == "t1"));
    assert_eq!(setup.phase(), SetupPhase::Finished);
}

#[test]
fn a_saved_thread_that_is_unknown_is_an_error() {
    let buddy = Buddy::new(AssistantId::from("a".to_string()), config());
    let mut setup = buddy.load_or_create_conversation(false);
    setup.advance(SetupEvent::Loaded { thread_id: ThreadId::from("t1".to_string()) });
    let action = setup.advance(SetupEvent::Failed);
    assert!(matches!(&action, SetupAction::ThreadNotFound { thread_id } if thread_id.as_str() == "t1"));
}

#[test]
fn without_a_saved_conversation_a_new_one_is_made_and_saved() {
    let buddy = Buddy::new(AssistantId::from("a".to_string()), config());
    let mut setup = buddy.load_or_create_conversation(false);
    assert!(matches!(setup.advance(SetupEvent::NotLoaded), SetupAction::CreateThread));
    let action = setup.advance(SetupEvent::Created { thread_id: ThreadId::from("t2".to_string()) });
    assert!(matches!(&action, SetupAction::SaveFile { thread_id } if thread_id.as_str() == "t2"));
    let action = setup.advance(SetupEvent::Saved);
    assert!(matches!(&action, SetupAction::Finish { thread_id, created: true } if thread_id.as_str() == "t2"));
}

#[test]
fn recreate_discards_the_saved_conversation_first() {
    let buddy = Buddy::new(AssistantId::from("a".to_string()), config());
    let mut setup = buddy.load_or_create_conversation(true);
    assert!(matches!(setup.action(), SetupAction::ProbeFile));
    assert!(matches!(setup.advance(SetupEvent::Probed { exists: true }), SetupAction::RemoveFile));
    assert!(matches!(setup.advance(SetupEvent::Removed), SetupAction::LoadFile));

    let mut setup = buddy.load_or_create_conversation(true);
    assert!(matches!(setup.advance(SetupEvent::Probed { exists: false }), SetupAction::LoadFile));

    let mut setup = buddy.load_or_create_conversation(true);
    setup.advance(SetupEvent::Probed { exists: true });
    assert!(matches!(setup.advance(SetupEvent::Failed), SetupAction::Abort));
}
