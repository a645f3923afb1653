use buddy::ais::assistant::{AssistantId, ThreadId};
use buddy::ais::msg::{get_first_thread_msg_content, get_text_content, user_msg, Message, MessageContent};
use buddy::ais::run::{
    judge, run_thread_msg, RunAction, RunEvent, RunPhase, RunStatus, ThreadRun, Verdict, ANSWER_LIMIT,
    POLLING_DURATION_MS,
};
use buddy::error::BuddyError;

fn ask(msg: &str) -> ThreadRun {
    run_thread_msg(&AssistantId::from("asst_1".to_string()), &ThreadId::from("thread_1".to_string()), msg)
}

fn text(value: &str) -> MessageContent {
    MessageContent::Text { value: value.to_string() }
}

#[test]
fn a_user_message_has_the_user_role() {
    let msg = user_msg("hello");
    assert_eq!(msg.role, "user");
    assert_eq!(msg.content, "hello");
}

#[test]
fn the_text_of_a_message_is_its_first_piece() {
    assert_eq!(get_text_content(Message { content: vec![text("one"), text("two")] }), Ok("one".to_string()));
    assert_eq!(get_text_content(Message { content: vec![] }), Err(BuddyError::NoMessageContent));
    assert_eq!(
        get_text_content(Message { content: vec![MessageContent::ImageFile, text("later")] }),
        Err(BuddyError::ImageNotSupported)
    );
}

#[test]
fn the_newest_message_is_the_first_listed() {
    let messages = vec![Message { content: vec![text("newest")] }, Message { content: vec![text("older")] }];
    assert_eq!(get_first_thread_msg_content(messages), Ok("newest".to_string()));
    assert_eq!(get_first_thread_msg_content(vec![]), Err(BuddyError::NoMessage));
    assert_eq!(
        get_first_thread_msg_content(vec![Message { content: vec![] }]),
        Err(BuddyError::NoMessageContent)
    );
}

#[test]
fn each_state_of_a_run_has_its_verdict() {
    assert_eq!(judge(RunStatus::Queued), Verdict::Wait);
    assert_eq!(judge(RunStatus::InProgress), Verdict::Wait);
    assert_eq!(judge(RunStatus::Completed), Verdict::Fetch);
    assert_eq!(judge(RunStatus::RequiresAction), Verdict::Fail);
    assert_eq!(judge(RunStatus::Cancelling), Verdict::Fail);
    assert_eq!(judge(RunStatus::Cancelled), Verdict::Fail);
    assert_eq!(judge(RunStatus::Failed), Verdict::Fail);
    assert_eq!(judge(RunStatus::Expired), Verdict::Fail);
}

#[test]
fn a_run_is_polled_until_it_completes() {
    let mut run = ask("Where is Quacklandia?");
    match run.action() {
        RunAction::PostMessage { thread_id, message } => {
            assert_eq!(thread_id.as_str(), "thread_1");
            assert_eq!(message.role, "user");
            assert_eq!(message.content, "Where is Quacklandia?");
        }
        other => panic!("begins with {:?}", other),
    }
    let action = run.advance(RunEvent::Posted);
    assert!(matches!(&action, RunAction::CreateRun { thread_id, assistant_id }
        if thread_id.as_str() == "thread_1" && assistant_id.as_str() == "asst_1"));
    let action = run.advance(RunEvent::Created { run_id: "run_1".to_string() });
    assert!(matches!(&action, RunAction::RetrieveRun { thread_id, run_id }
        if thread_id.as_str() == "thread_1" && run_id == "run_1"));
    let action = run.advance(RunEvent::Status { status: RunStatus::Queued });
    assert!(matches!(action, RunAction::Sleep { millis: 500 }));
    assert_eq!(POLLING_DURATION_MS, 500);
    let action = run.advance(RunEvent::Slept);
    assert!(matches!(&action, RunAction::RetrieveRun { run_id, .. } if run_id == "run_1"));
    let action = run.advance(RunEvent::Status { status: RunStatus::InProgress });
    assert!(matches!(action, RunAction::Sleep { millis: 500 }));
    run.advance(RunEvent::Slept);
    let action = run.advance(RunEvent::Status { status: RunStatus::Completed });
    assert!(matches!(&action, RunAction::ListMessages { thread_id, limit: 1 } if thread_id.as_str() == "thread_1"));
    assert_eq!(ANSWER_LIMIT, 1);
    let action = run.advance(RunEvent::Messages { messages: vec![Message { content: vec![text("Far away.")] }] });
    assert!(matches!(&action, RunAction::Finish { text } if text == "Far away."));
    assert_eq!(run.phase(), RunPhase::Finished);
}

#[test]
fn a_run_that_ends_otherwise_has_failed() {
    let mut run = ask("q");
    run.advance(RunEvent::Posted);
    run.advance(RunEvent::Created { run_id: "r".to_string() });
    let action = run.advance(RunEvent::Status { status: RunStatus::Expired });
    assert!(matches!(action, RunAction::Fail { error: BuddyError::RunFailed { status: RunStatus::Expired } }));
    assert_eq!(run.phase(), RunPhase::Failed);
    let action = run.advance(RunEvent::Slept);
    assert!(matches!(action, RunAction::Fail { error: BuddyError::RunFailed { status: RunStatus::Expired } }));
}

#[test]
fn an_answer_without_text_is_an_error() {
    let mut run = ask("q");
    run.advance(RunEvent::Posted);
    run.advance(RunEvent::Created { run_id: "r".to_string() });
    run.advance(RunEvent::Status { status: RunStatus::Completed });
    let action = run.advance(RunEvent::Messages { messages: vec![] });
    assert!(matches!(action, RunAction::Fail { error: BuddyError::NoMessage }));

    let mut run = ask("q");
    run.advance(RunEvent::Posted);
    run.advance(RunEvent::Created { run_id: "r".to_string() });
    run.advance(RunEvent::Status { status: RunStatus::Completed });
    let action = run.advance(RunEvent::Messages { messages: vec![Message { content: vec![MessageContent::ImageFile] }] });
    assert!(matches!(action, RunAction::Fail { error: BuddyError::ImageNotSupported }));
}

#[test]
fn a_failed_call_ends_the_run() {
    let mut run = ask("q");
    assert!(matches!(run.advance(RunEvent::Failed), RunAction::Abort));
    let mut run = ask("q");
    run.advance(RunEvent::Posted);
    run.advance(RunEvent::Created { run_id: "r".to_string() });
    assert!(matches!(run.advance(RunEvent::Failed), RunAction::Abort));
    let mut run = ask("q");
    run.advance(RunEvent::Posted);
    assert!(matches!(run.advance(RunEvent::Slept), RunAction::Abort));
}
