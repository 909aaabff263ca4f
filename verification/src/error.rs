use vstd::prelude::*;
use vstd::string::*;
use http::status::InvalidStatusCode;
use http::StatusCode;

verus! {

/// `http::StatusCode`, carried through opaquely.
#[verifier::external_type_specification]
#[verifier::external_body]
pub struct ExStatusCode(StatusCode);

/// `http::status::InvalidStatusCode`, the error of `StatusCode::from_u16`.
#[verifier::external_type_specification]
#[verifier::external_body]
pub struct ExInvalidStatusCode(InvalidStatusCode);

/// The status code that `StatusCode::from_u16` builds from a number it accepts.
pub uninterp spec fn status_of(code: u16) -> StatusCode;

/// Calls `http::StatusCode::from_u16`. Its source accepts exactly the numbers
/// from 100 up to 999 and otherwise returns `InvalidStatusCode`; the accepted
/// code is named `status_of(code)` (that its `as_u16` gives `code` back is not
/// stated here).
#[verifier::external_body]
fn status_from_u16(code: u16) -> (r: Result<StatusCode, InvalidStatusCode>)
    ensures
        r is Ok <==> 100 <= code < 1000,
        r matches Ok(s) ==> s == status_of(code),
{
    StatusCode::from_u16(code)
}

/// The errors that the handlers reject a request with.
#[derive(Clone, Copy, Debug, PartialEq, Eq, Structural)]
pub enum CustomError {
    TokenIsNotFound,
    TokenIsInvalid,
    AccountIsNotFound,
    ReadingFileError,
    WritingFileError,
    DirectoryCouldNotCreated,
    FileIsNotComplete,
    SaveIsNotComplete,
}

/// What a rejected request carries, as far as the answer depends on it.
#[derive(Clone, Copy, Debug, PartialEq, Eq, Structural)]
pub struct RejectionInfo {
    /// No route matched the request.
    pub not_found: bool,
    /// The error of this crate that the request was rejected with, if any.
    pub custom: Option<CustomError>,
    /// The request body could not be deserialized.
    pub invalid_body: bool,
    /// The route exists but not for this method.
    pub method_not_allowed: bool,
}

/// The cause that decides the answer to a rejection.
#[derive(Clone, Copy, Debug, PartialEq, Eq, Structural)]
pub enum RejectionKind {
    NotFound,
    Custom(CustomError),
    InvalidBody,
    MethodNotAllowed,
    Unhandled,
}

/// The answer to a rejected request: a status and the message of the JSON body.
pub struct ErrorReply {
    pub status: StatusCode,
    pub message: String,
    /// The rejection was of no known kind, and is reported on the error log.
    pub unhandled: bool,
}

/// The causes are examined in a fixed order: not found, then an error of this
/// crate, then an undeserializable body, then a wrong method.
pub open spec fn classify(info: RejectionInfo) -> RejectionKind {
    if info.not_found {
        RejectionKind::NotFound
    } else if info.custom is Some {
        RejectionKind::Custom(info.custom->0)
    } else if info.invalid_body {
        RejectionKind::InvalidBody
    } else if info.method_not_allowed {
        RejectionKind::MethodNotAllowed
    } else {
        RejectionKind::Unhandled
    }
}

pub open spec fn reply_code(kind: RejectionKind) -> u16 {
    match kind {
        RejectionKind::NotFound => 404,
        RejectionKind::Custom(e) => match e {
            CustomError::TokenIsNotFound => 401,
            CustomError::TokenIsInvalid => 401,
            CustomError::AccountIsNotFound => 400,
            CustomError::ReadingFileError => 400,
            CustomError::WritingFileError => 500,
            CustomError::DirectoryCouldNotCreated => 500,
            CustomError::FileIsNotComplete => 200,
            CustomError::SaveIsNotComplete => 200,
        },
        RejectionKind::InvalidBody => 400,
        RejectionKind::MethodNotAllowed => 401,
        RejectionKind::Unhandled => 500,
    }
}

pub open spec fn reply_message(kind: RejectionKind) -> Seq<char> {
    match kind {
        RejectionKind::NotFound => "Not Found"@,
        RejectionKind::Custom(e) => match e {
            CustomError::TokenIsNotFound => "Token Not Found"@,
            CustomError::TokenIsInvalid => "Token Is Invalid"@,
            CustomError::AccountIsNotFound => "Account Not Found"@,
            CustomError::ReadingFileError => "Reading File Error"@,
            CustomError::WritingFileError => "Writing File Error"@,
            CustomError::DirectoryCouldNotCreated => "Upload Failed"@,
            CustomError::FileIsNotComplete => "File Is Not Complete"@,
            CustomError::SaveIsNotComplete => "Save Is Not Complete"@,
        },
        RejectionKind::InvalidBody => "Invalid Body"@,
        RejectionKind::MethodNotAllowed => "Method Not Allowed"@,
        RejectionKind::Unhandled => "Internal Server Error"@,
    }
}

/// A request that matched no route is answered `404 Not Found`, whatever else
/// its rejection carries; an error of this crate decides the answer unless the
/// request matched no route.
pub proof fn law_rejection_priority(info: RejectionInfo)
    ensures
        info.not_found ==> reply_code(classify(info)) == 404 && reply_message(classify(info))
            == "Not Found"@,
        !info.not_found && info.custom is Some ==> classify(info) == RejectionKind::Custom(
            info.custom->0,
        ),
{
}

/// Every rejection gets the answer of its first cause: no route 404 "Not
/// Found"; an error of this crate its own answer; an undeserializable body 400
/// "Invalid Body", whatever the method; a wrong method 401 "Method Not
/// Allowed"; anything else 500 "Internal Server Error", reported as unhandled.
/// Only the last case is reported.
pub proof fn law_rejection_answers(info: RejectionInfo)
    ensures
        forall|e: CustomError| !info.not_found && info.custom == Some(e) ==> classify(info) == RejectionKind::Custom(e),
        !info.not_found && info.custom is None && info.invalid_body ==> {
            &&& classify(info) == RejectionKind::InvalidBody
            &&& reply_code(classify(info)) == 400
            &&& reply_message(classify(info)) == "Invalid Body"@
        },
        !info.not_found && info.custom is None && !info.invalid_body && info.method_not_allowed
            ==> {
            &&& classify(info) == RejectionKind::MethodNotAllowed
            &&& reply_code(classify(info)) == 401
            &&& reply_message(classify(info)) == "Method Not Allowed"@
        },
        !info.not_found && info.custom is None && !info.invalid_body && !info.method_not_allowed
            ==> {
            &&& classify(info) == RejectionKind::Unhandled
            &&& reply_code(classify(info)) == 500
            &&& reply_message(classify(info)) == "Internal Server Error"@
        },
        (classify(info) == RejectionKind::Unhandled) <==> (!info.not_found && info.custom is None
            && !info.invalid_body && !info.method_not_allowed),
{
}

/// The answer to each error of this crate: missing or invalid tokens are 401,
/// a missing account or an unreadable upload 400, failures to store an upload
/// 500, and the two incomplete-upload notices 200.
pub proof fn law_custom_error_answers()
    ensures
        reply_code(RejectionKind::Custom(CustomError::TokenIsNotFound)) == 401,
        reply_message(RejectionKind::Custom(CustomError::TokenIsNotFound)) == "Token Not Found"@,
        reply_code(RejectionKind::Custom(CustomError::TokenIsInvalid)) == 401,
        reply_message(RejectionKind::Custom(CustomError::TokenIsInvalid)) == "Token Is Invalid"@,
        reply_code(RejectionKind::Custom(CustomError::AccountIsNotFound)) == 400,
        reply_message(RejectionKind::Custom(CustomError::AccountIsNotFound))
            == "Account Not Found"@,
        reply_code(RejectionKind::Custom(CustomError::ReadingFileError)) == 400,
        reply_message(RejectionKind::Custom(CustomError::ReadingFileError))
            == "Reading File Error"@,
        reply_code(RejectionKind::Custom(CustomError::WritingFileError)) == 500,
        reply_message(RejectionKind::Custom(CustomError::WritingFileError))
            == "Writing File Error"@,
        reply_code(RejectionKind::Custom(CustomError::DirectoryCouldNotCreated)) == 500,
        reply_message(RejectionKind::Custom(CustomError::DirectoryCouldNotCreated))
            == "Upload Failed"@,
        reply_code(RejectionKind::Custom(CustomError::FileIsNotComplete)) == 200,
        reply_message(RejectionKind::Custom(CustomError::FileIsNotComplete))
            == "File Is Not Complete"@,
        reply_code(RejectionKind::Custom(CustomError::SaveIsNotComplete)) == 200,
        reply_message(RejectionKind::Custom(CustomError::SaveIsNotComplete))
            == "Save Is Not Complete"@,
{
}

/// Picks the cause that decides the answer.
pub fn classify_rejection(info: &RejectionInfo) -> (kind: RejectionKind)
    ensures
        kind == classify(*info),
{
    if info.not_found {
        RejectionKind::NotFound
    } else if let Some(e) = info.custom {
        RejectionKind::Custom(e)
    } else if info.invalid_body {
        RejectionKind::InvalidBody
    } else if info.method_not_allowed {
        RejectionKind::MethodNotAllowed
    } else {
        RejectionKind::Unhandled
    }
}

/// The status number and message with which a cause is answered.
fn reply_parts(kind: RejectionKind) -> (r: (u16, &'static str))
    ensures
        r.0 == reply_code(kind),
        r.1@ == reply_message(kind),
{
    match kind {
        RejectionKind::NotFound => (404, "Not Found"),
        RejectionKind::Custom(e) => match e {
            CustomError::TokenIsNotFound => (401, "Token Not Found"),
            CustomError::TokenIsInvalid => (401, "Token Is Invalid"),
            CustomError::AccountIsNotFound => (400, "Account Not Found"),
            CustomError::ReadingFileError => (400, "Reading File Error"),
            CustomError::WritingFileError => (500, "Writing File Error"),
            CustomError::DirectoryCouldNotCreated => (500, "Upload Failed"),
            CustomError::FileIsNotComplete => (200, "File Is Not Complete"),
            CustomError::SaveIsNotComplete => (200, "Save Is Not Complete"),
        },
        RejectionKind::InvalidBody => (400, "Invalid Body"),
        RejectionKind::MethodNotAllowed => (401, "Method Not Allowed"),
        RejectionKind::Unhandled => (500, "Internal Server Error"),
    }
}

/// Answers a rejected request: the status and message that its deciding cause
/// gets, and whether it is to be reported as unhandled.
pub fn handle_rejection(info: &RejectionInfo) -> (r: ErrorReply)
    ensures
        r.status == status_of(reply_code(classify(*info))),
        r.message@ == reply_message(classify(*info)),
        r.unhandled == (classify(*info) == RejectionKind::Unhandled),
{
    let kind = classify_rejection(info);
    let (code, text) = reply_parts(kind);
    let status = status_from_u16(code).unwrap();
    let unhandled = match kind {
        RejectionKind::Unhandled => true,
        _ => false,
    };
    ErrorReply { status, message: String::from_str(text), unhandled }
}

} // verus!

verus! {

/// The errors with which the score-detail handlers reject a request.
#[derive(Clone, Debug)]
pub enum HandleError {
    AccountIsNotFound,
    AccountIsNotSelected,
    AccountSelectionIsInvalid,
    OtherError(String),
}

/// The errors of the Google sign-in exchange.
#[derive(Clone, Copy, Debug, PartialEq, Eq, Structural)]
pub enum OAuthError {
    CodeIsNotFound,
    GoogleEndPointIsDown,
    GoogleResponseIsInvalid,
}

} // verus!
