use recommend_server::error::{handle_rejection, CustomError, RejectionInfo};
use recommend_server::query::{query_token, Query};
use recommend_server::upload::{
    join_chunks, upload_dir, upload_file_path, UploadAction, UploadError, UploadEvent,
    UploadKind, UploadPhase, UploadSession,
};

fn respond(action: UploadAction) -> Result<String, UploadError> {
    match action {
        UploadAction::Respond(r) => r,
        _ => panic!("expected an answer"),
    }
}

fn path_of(action: &UploadAction) -> String {
    match action {
        UploadAction::CreateDirectory(p) | UploadAction::WriteFile(p) | UploadAction::ScanDirectory(p) => p.clone(),
        _ => panic!("expected a path"),
    }
}

#[test]
fn paths_of_uploads() {
    assert_eq!(upload_dir("1234"), "./files/1234");
    assert_eq!(upload_file_path("1234", UploadKind::Score), "./files/1234/score.db");
    assert_eq!(upload_file_path("1234", UploadKind::ScoreLog), "./files/1234/score_log.db");
    assert_eq!(upload_file_path("1234", UploadKind::SongData), "./files/1234/song_data.db");
}

#[test]
fn song_data_upload_is_answered_with_its_path() {
    let (mut s, first) = UploadSession::new(UploadKind::SongData, "u7".to_string());
    assert!(matches!(first, UploadAction::CollectParts));
    assert!(matches!(s.step(UploadEvent::PartsCollected(Some("file".to_string()))), UploadAction::ReadFile));
    let mkdir = s.step(UploadEvent::FileRead(true));
    assert_eq!(path_of(&mkdir), "./files/u7");
    let write = s.step(UploadEvent::DirectoryCreated(true));
    assert_eq!(path_of(&write), "./files/u7/song_data.db");
    assert_eq!(respond(s.step(UploadEvent::FileWritten(true))), Ok("./files/u7/song_data.db".to_string()));
    assert_eq!(s.phase, UploadPhase::Finished);
}

#[test]
fn score_upload_looks_at_the_directory_then_answers() {
    let (mut s, _) = UploadSession::new(UploadKind::Score, "u7".to_string());
    s.step(UploadEvent::PartsCollected(Some("file".to_string())));
    s.step(UploadEvent::FileRead(true));
    s.step(UploadEvent::DirectoryCreated(true));
    let scan = s.step(UploadEvent::FileWritten(true));
    assert!(matches!(scan, UploadAction::ScanDirectory(_)));
    assert_eq!(path_of(&scan), "./files/u7");
    assert_eq!(respond(s.step(UploadEvent::DirectoryScanned)), Ok("aiueo".to_string()));
}

#[test]
fn form_without_parts() {
    let (mut s, _) = UploadSession::new(UploadKind::SongData, "u".to_string());
    assert_eq!(respond(s.step(UploadEvent::PartsCollected(None))), Ok(String::new()));
    let (mut s, _) = UploadSession::new(UploadKind::ScoreLog, "u".to_string());
    let scan = s.step(UploadEvent::PartsCollected(None));
    assert_eq!(path_of(&scan), "./files/u");
    assert_eq!(respond(s.step(UploadEvent::DirectoryScanned)), Ok("aiueo".to_string()));
}

#[test]
fn refused_uploads() {
    let (mut s, _) = UploadSession::new(UploadKind::Score, "u".to_string());
    assert_eq!(respond(s.step(UploadEvent::PartsFailed)), Err(UploadError::Rejected));
    let (mut s, _) = UploadSession::new(UploadKind::Score, "u".to_string());
    assert_eq!(respond(s.step(UploadEvent::PartsCollected(Some("files".to_string())))), Err(UploadError::Rejected));

    let (mut s, _) = UploadSession::new(UploadKind::Score, "u".to_string());
    s.step(UploadEvent::PartsCollected(Some("file".to_string())));
    assert_eq!(respond(s.step(UploadEvent::FileRead(false))), Err(UploadError::Custom(CustomError::ReadingFileError)));

    let (mut s, _) = UploadSession::new(UploadKind::Score, "u".to_string());
    s.step(UploadEvent::PartsCollected(Some("file".to_string())));
    s.step(UploadEvent::FileRead(true));
    assert_eq!(
        respond(s.step(UploadEvent::DirectoryCreated(false))),
        Err(UploadError::Custom(CustomError::DirectoryCouldNotCreated))
    );

    let (mut s, _) = UploadSession::new(UploadKind::SongData, "u".to_string());
    s.step(UploadEvent::PartsCollected(Some("file".to_string())));
    s.step(UploadEvent::FileRead(true));
    s.step(UploadEvent::DirectoryCreated(true));
    assert_eq!(respond(s.step(UploadEvent::FileWritten(false))), Err(UploadError::Custom(CustomError::WritingFileError)));
    assert_eq!(s.phase, UploadPhase::Finished);
}

#[test]
fn file_lands_in_created_directory() {
    for kind in [UploadKind::Score, UploadKind::ScoreLog, UploadKind::SongData] {
        let (mut s, _) = UploadSession::new(kind, "someone".to_string());
        s.step(UploadEvent::PartsCollected(Some("file".to_string())));
        let dir = path_of(&s.step(UploadEvent::FileRead(true)));
        let file = path_of(&s.step(UploadEvent::DirectoryCreated(true)));
        assert!(file.starts_with(&format!("{}/", dir)));
        assert!(file.ends_with(".db"));
    }
}

#[test]
fn upload_advances_each_step() {
    let (mut s, _) = UploadSession::new(UploadKind::Score, "u".to_string());
    let events = vec![
        UploadEvent::PartsCollected(Some("file".to_string())),
        UploadEvent::FileRead(true),
        UploadEvent::DirectoryCreated(true),
        UploadEvent::FileWritten(true),
        UploadEvent::DirectoryScanned,
    ];
    let phases = [
        UploadPhase::ReadingFile,
        UploadPhase::CreatingDirectory,
        UploadPhase::WritingFile,
        UploadPhase::ScanningDirectory,
        UploadPhase::Finished,
    ];
    for (event, phase) in events.into_iter().zip(phases) {
        let action = s.step(event);
        assert_eq!(s.phase, phase);
        assert_eq!(matches!(action, UploadAction::Respond(_)), phase == UploadPhase::Finished);
    }
}

#[test]
fn disk_failures_are_server_errors() {
    for e in [CustomError::DirectoryCouldNotCreated, CustomError::WritingFileError] {
        let info = RejectionInfo { not_found: false, custom: Some(e), invalid_body: false, method_not_allowed: false };
        assert_eq!(handle_rejection(&info).status.as_u16(), 500);
    }
    let info = RejectionInfo {
        not_found: false,
        custom: Some(CustomError::ReadingFileError),
        invalid_body: false,
        method_not_allowed: false,
    };
    assert_eq!(handle_rejection(&info).status.as_u16(), 400);
}

#[test]
fn chunks_are_joined_in_order() {
    let chunks = vec![vec![1u8, 2], vec![], vec![3], vec![4, 5, 6]];
    assert_eq!(join_chunks(&chunks), vec![1, 2, 3, 4, 5, 6]);
    assert_eq!(join_chunks(&Vec::new()), Vec::<u8>::new());
}

#[test]
fn token_is_taken_from_the_query() {
    let mut q = Query::new();
    assert_eq!(query_token(&q), Err(CustomError::TokenIsNotFound));
    q.insert("token".to_string(), "eyJ".to_string());
    assert_eq!(query_token(&q), Ok("eyJ".to_string()));
}
