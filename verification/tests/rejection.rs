use recommend_server::error::{handle_rejection, CustomError, RejectionInfo};

fn custom(e: CustomError) -> RejectionInfo {
    RejectionInfo { not_found: false, custom: Some(e), invalid_body: false, method_not_allowed: false }
}

fn answer(info: RejectionInfo) -> (u16, String, bool) {
    let r = handle_rejection(&info);
    (r.status.as_u16(), r.message, r.unhandled)
}

#[test]
fn not_found_is_404() {
    let info = RejectionInfo { not_found: true, custom: None, invalid_body: false, method_not_allowed: false };
    assert_eq!(answer(info), (404, "Not Found".to_string(), false));
}

#[test]
fn not_found_wins_over_everything_else() {
    let info = RejectionInfo {
        not_found: true,
        custom: Some(CustomError::WritingFileError),
        invalid_body: true,
        method_not_allowed: true,
    };
    assert_eq!(answer(info), (404, "Not Found".to_string(), false));
}

#[test]
fn custom_error_wins_over_body_and_method() {
    let info = RejectionInfo {
        not_found: false,
        custom: Some(CustomError::TokenIsInvalid),
        invalid_body: true,
        method_not_allowed: true,
    };
    assert_eq!(answer(info), (401, "Token Is Invalid".to_string(), false));
}

#[test]
fn every_custom_error_has_its_answer() {
    let expected = [
        (CustomError::TokenIsNotFound, 401, "Token Not Found"),
        (CustomError::TokenIsInvalid, 401, "Token Is Invalid"),
        (CustomError::AccountIsNotFound, 400, "Account Not Found"),
        (CustomError::ReadingFileError, 400, "Reading File Error"),
        (CustomError::WritingFileError, 500, "Writing File Error"),
        (CustomError::DirectoryCouldNotCreated, 500, "Upload Failed"),
        (CustomError::FileIsNotComplete, 200, "File Is Not Complete"),
        (CustomError::SaveIsNotComplete, 200, "Save Is Not Complete"),
    ];
    for (e, code, message) in expected {
        assert_eq!(answer(custom(e)), (code, message.to_string(), false));
    }
}

#[test]
fn invalid_body_is_400() {
    let info = RejectionInfo { not_found: false, custom: None, invalid_body: true, method_not_allowed: true };
    assert_eq!(answer(info), (400, "Invalid Body".to_string(), false));
}

#[test]
fn wrong_method_is_401() {
    let info = RejectionInfo { not_found: false, custom: None, invalid_body: false, method_not_allowed: true };
    assert_eq!(answer(info), (401, "Method Not Allowed".to_string(), false));
}

#[test]
fn anything_else_is_500_and_reported() {
    let info = RejectionInfo { not_found: false, custom: None, invalid_body: false, method_not_allowed: false };
    assert_eq!(answer(info), (500, "Internal Server Error".to_string(), true));
}
