use buddy::ais::assistant::{AssistantId, FileId};
use buddy::ais::files::{get_files_hashmap, RemoteFile};
use buddy::ais::upload::{upload_file_by_name, ConsistencyWarning, UploadAction, UploadEvent, UploadPhase};

fn id(text: &str) -> FileId {
    FileId::from(text.to_string())
}

fn assistant() -> AssistantId {
    AssistantId::from("asst_1".to_string())
}

fn file(file_id: &str, filename: &str) -> RemoteFile {
    RemoteFile { id: id(file_id), filename: filename.to_string() }
}

struct Remote {
    files: Vec<(String, String)>,
    attached: Vec<String>,
    delete_works: bool,
    detach_works: bool,
    next_id: u32,
    uploads: u32,
}

impl Remote {
    fn records(&self, filename: &str) -> usize {
        self.files.iter().filter(|(id, name)| name == filename && self.attached.contains(id)).count()
    }

    fn serve(&mut self, action: &UploadAction, filename: &str) -> UploadEvent {
        match action {
            UploadAction::ListFiles { assistant_id } => {
                assert_eq!(assistant_id.as_str(), "asst_1");
                UploadEvent::Listed {
                    assistant_files: self.attached.iter().map(|a| id(a)).collect(),
                    account_files: self.files.iter().map(|(i, n)| file(i, n)).collect(),
                }
            }
            UploadAction::DeleteFile { file_id } => {
                if self.delete_works {
                    self.files.retain(|(i, _)| i != file_id.as_str());
                    UploadEvent::Deleted
                } else {
                    UploadEvent::Failed
                }
            }
            UploadAction::DetachFile { file_id, .. } => {
                if self.detach_works {
                    self.attached.retain(|i| i != file_id.as_str());
                    UploadEvent::Detached
                } else {
                    UploadEvent::Failed
                }
            }
            UploadAction::UploadFile { file_name } => {
                assert_eq!(file_name, filename);
                self.next_id += 1;
                self.uploads += 1;
                let fresh = format!("file-{}", self.next_id);
                self.files.push((fresh.clone(), filename.to_string()));
                UploadEvent::Uploaded { file_id: id(&fresh) }
            }
            UploadAction::AttachFile { file_id, .. } => {
                self.attached.push(file_id.to_string());
                UploadEvent::Attached { file_id: id(file_id.as_str()) }
            }
            UploadAction::Finish { .. } | UploadAction::Abort => panic!("nothing to serve"),
        }
    }
}

fn run(remote: &mut Remote, filename: &str, force: bool) -> (UploadAction, Vec<ConsistencyWarning>) {
    let mut upload = upload_file_by_name(&assistant(), filename, force);
    let mut action = upload.action();
    let mut warnings = Vec::new();
    let mut calls = 0;
    loop {
        if matches!(action, UploadAction::Finish { .. } | UploadAction::Abort) {
            return (action, warnings);
        }
        calls += 1;
        assert!(calls <= 5);
        let event = remote.serve(&action, filename);
        let step = upload.advance(event);
        if let Some(warning) = step.warning {
            warnings.push(warning);
        }
        action = step.action;
    }
}

fn remote_with_record() -> Remote {
    Remote {
        files: vec![("file-1".to_string(), "b-src-bundle-a1.md".to_string()), ("file-9".to_string(), "other".to_string())],
        attached: vec!["file-1".to_string(), "file-9".to_string()],
        delete_works: true,
        detach_works: true,
        next_id: 1,
        uploads: 0,
    }
}

#[test]
fn a_new_file_is_uploaded_and_attached() {
    let mut remote = Remote {
        files: vec![],
        attached: vec![],
        delete_works: true,
        detach_works: true,
        next_id: 0,
        uploads: 0,
    };
    let (end, warnings) = run(&mut remote, "b-src-bundle-a1.md", false);
    match end {
        UploadAction::Finish { file_id, uploaded } => {
            assert_eq!(file_id.as_str(), "file-1");
            assert!(uploaded);
        }
        other => panic!("ended with {:?}", other),
    }
    assert!(warnings.is_empty());
    assert_eq!(remote.records("b-src-bundle-a1.md"), 1);
}

#[test]
fn a_file_on_record_is_not_uploaded_again() {
    let mut remote = remote_with_record();
    let (end, warnings) = run(&mut remote, "b-src-bundle-a1.md", false);
    match end {
        UploadAction::Finish { file_id, uploaded } => {
            assert_eq!(file_id.as_str(), "file-1");
            assert!(!uploaded);
        }
        other => panic!("ended with {:?}", other),
    }
    assert!(warnings.is_empty());
    assert_eq!(remote.uploads, 0);
    assert_eq!(remote.records("b-src-bundle-a1.md"), 1);
}

#[test]
fn force_replaces_the_file_on_record() {
    let mut remote = remote_with_record();
    let (end, warnings) = run(&mut remote, "b-src-bundle-a1.md", true);
    match end {
        UploadAction::Finish { file_id, uploaded } => {
            assert_eq!(file_id.as_str(), "file-2");
            assert!(uploaded);
        }
        other => panic!("ended with {:?}", other),
    }
    assert!(warnings.is_empty());
    assert_eq!(remote.uploads, 1);
    assert_eq!(remote.records("b-src-bundle-a1.md"), 1);
    assert_eq!(remote.records("other"), 1);
}

#[test]
fn a_failed_delete_leaves_two_records_and_a_warning() {
    let mut remote = remote_with_record();
    remote.delete_works = false;
    remote.detach_works = false;
    let (end, warnings) = run(&mut remote, "b-src-bundle-a1.md", true);
    match end {
        UploadAction::Finish { file_id, uploaded } => {
            assert_eq!(file_id.as_str(), "file-2");
            assert!(uploaded);
        }
        other => panic!("ended with {:?}", other),
    }
    assert_eq!(warnings, vec![ConsistencyWarning::DeleteFailed, ConsistencyWarning::DetachFailed]);
    assert_eq!(remote.uploads, 1);
    assert_eq!(remote.records("b-src-bundle-a1.md"), 2);
}

#[test]
fn one_failed_removal_still_leaves_one_record() {
    let mut remote = remote_with_record();
    remote.delete_works = false;
    let (_, warnings) = run(&mut remote, "b-src-bundle-a1.md", true);
    assert_eq!(warnings, vec![ConsistencyWarning::DeleteFailed]);
    assert_eq!(remote.records("b-src-bundle-a1.md"), 1);
}

#[test]
fn the_calls_of_a_forced_upload_come_in_order() {
    let mut upload = upload_file_by_name(&assistant(), "n", true);
    assert_eq!(upload.file_name(), "n");
    assert!(matches!(&upload.action(), UploadAction::ListFiles { assistant_id } if assistant_id.as_str() == "asst_1"));
    let step = upload.advance(UploadEvent::Listed {
        assistant_files: vec![id("f1")],
        account_files: vec![file("f1", "n")],
    });
    assert!(matches!(&step.action, UploadAction::DeleteFile { file_id } if file_id.as_str() == "f1"));
    let step = upload.advance(UploadEvent::Deleted);
    assert!(matches!(&step.action, UploadAction::DetachFile { assistant_id, file_id }
        if assistant_id.as_str() == "asst_1" && file_id.as_str() == "f1"));
    let step = upload.advance(UploadEvent::Detached);
    assert!(matches!(&step.action, UploadAction::UploadFile { file_name } if file_name == "n"));
    let step = upload.advance(UploadEvent::Uploaded { file_id: id("f2") });
    assert!(matches!(&step.action, UploadAction::AttachFile { assistant_id, file_id }
        if assistant_id.as_str() == "asst_1" && file_id.as_str() == "f2"));
    let step = upload.advance(UploadEvent::Attached { file_id: id("f2") });
    assert!(matches!(&step.action, UploadAction::Finish { file_id, uploaded: true } if file_id.as_str() == "f2"));
    assert_eq!(step.warning, None);
    assert_eq!(upload.phase(), UploadPhase::Finished);
    let step = upload.advance(UploadEvent::Failed);
    assert!(matches!(&step.action, UploadAction::Finish { file_id, uploaded: true } if file_id.as_str() == "f2"));
}

#[test]
fn another_identifier_on_attaching_is_reported_and_returned() {
    let mut upload = upload_file_by_name(&assistant(), "n", false);
    upload.advance(UploadEvent::Listed { assistant_files: vec![], account_files: vec![] });
    upload.advance(UploadEvent::Uploaded { file_id: id("sent") });
    let step = upload.advance(UploadEvent::Attached { file_id: id("other") });
    assert_eq!(step.warning, Some(ConsistencyWarning::IdMismatch));
    assert!(matches!(&step.action, UploadAction::Finish { file_id, uploaded: true } if file_id.as_str() == "other"));
}

#[test]
fn a_failed_listing_upload_or_attachment_ends_the_upload() {
    let mut upload = upload_file_by_name(&assistant(), "n", false);
    assert!(matches!(upload.advance(UploadEvent::Failed).action, UploadAction::Abort));
    assert_eq!(upload.phase(), UploadPhase::Failed);

    let mut upload = upload_file_by_name(&assistant(), "n", false);
    upload.advance(UploadEvent::Listed { assistant_files: vec![], account_files: vec![] });
    assert!(matches!(upload.advance(UploadEvent::Failed).action, UploadAction::Abort));

    let mut upload = upload_file_by_name(&assistant(), "n", false);
    upload.advance(UploadEvent::Listed { assistant_files: vec![], account_files: vec![] });
    upload.advance(UploadEvent::Uploaded { file_id: id("x") });
    let step = upload.advance(UploadEvent::Failed);
    assert!(matches!(step.action, UploadAction::Abort));
    assert_eq!(step.warning, None);
}

#[test]
fn an_answer_out_of_turn_ends_the_upload() {
    let mut upload = upload_file_by_name(&assistant(), "n", false);
    assert!(matches!(upload.advance(UploadEvent::Uploaded { file_id: id("x") }).action, UploadAction::Abort));
}

#[test]
fn only_attached_files_are_on_record_and_the_later_one_wins() {
    let by_name = get_files_hashmap(
        &vec![id("a"), id("c"), id("d")],
        &vec![file("a", "one"), file("b", "two"), file("c", "one"), file("d", "three"), file("e", "three")],
    );
    assert_eq!(by_name.get("one").map(|f| f.to_string()), Some("c".to_string()));
    assert_eq!(by_name.get("two").map(|f| f.to_string()), None);
    assert_eq!(by_name.get("three").map(|f| f.to_string()), Some("d".to_string()));
    assert_eq!(by_name.get("four").map(|f| f.to_string()), None);
}
