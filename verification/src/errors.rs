use vstd::prelude::*;

verus! {

/// The code that a MeiliSearch server attaches to a refused request.
#[derive(Debug, Clone, PartialEq, Eq)]
pub enum ErrorCode {
    IndexCreationFailed,
    IndexAlreadyExists,
    IndexNotFound,
    InvalidIndexUid,
    IndexNotAccessible,
    /// A code this library does not know, kept as the server wrote it.
    Unknown(String),
}

/// The category that a MeiliSearch server gives to a refused request.
#[derive(Debug, Clone, PartialEq, Eq)]
pub enum ErrorType {
    InvalidRequest,
    Internal,
    Authentication,
    /// A category this library does not know, kept as the server wrote it.
    Unknown(String),
}

/// What can go wrong when talking to a MeiliSearch server.
#[derive(Debug, Clone)]
pub enum Error {
    /// The server answered with an error description.
    MeiliSearchError {
        message: String,
        error_code: ErrorCode,
        error_type: ErrorType,
        error_link: String,
    },
    /// The server could not be reached.
    UnreachableServer,
    /// The server's answer could not be decoded; the text says why.
    ParseError(String),
    /// The server answered with an empty body where one was needed.
    Empty,
    /// The request took too long.
    Timeout,
    /// The HTTP layer failed; the text says how.
    HttpError(String),
}

/// The wire text of each known error code.
pub open spec fn known_code_text(c: ErrorCode) -> Seq<char> {
    match c {
        ErrorCode::IndexCreationFailed => "index_creation_failed"@,
        ErrorCode::IndexAlreadyExists => "index_already_exists"@,
        ErrorCode::IndexNotFound => "index_not_found"@,
        ErrorCode::InvalidIndexUid => "invalid_index_uid"@,
        ErrorCode::IndexNotAccessible => "index_not_accessible"@,
        ErrorCode::Unknown(s) => s@,
    }
}

/// Whether `text` is the wire text of one of the known codes.
pub open spec fn is_known_code_text(text: Seq<char>) -> bool {
    ||| text == "index_creation_failed"@
    ||| text == "index_already_exists"@
    ||| text == "index_not_found"@
    ||| text == "invalid_index_uid"@
    ||| text == "index_not_accessible"@
}

/// The wire text of each known error category.
pub open spec fn type_text(t: ErrorType) -> Seq<char> {
    match t {
        ErrorType::InvalidRequest => "invalid_request"@,
        ErrorType::Internal => "internal"@,
        ErrorType::Authentication => "authentication"@,
        ErrorType::Unknown(s) => s@,
    }
}

/// Whether `text` is the wire text of one of the known categories.
pub open spec fn is_known_type_text(text: Seq<char>) -> bool {
    ||| text == "invalid_request"@
    ||| text == "internal"@
    ||| text == "authentication"@
}

/// The wire texts of the known codes are pairwise different.
proof fn lemma_code_texts_distinct()
    ensures
        "index_creation_failed"@ != "index_already_exists"@,
        "index_creation_failed"@ != "index_not_found"@,
        "index_creation_failed"@ != "invalid_index_uid"@,
        "index_creation_failed"@ != "index_not_accessible"@,
        "index_already_exists"@ != "index_not_found"@,
        "index_already_exists"@ != "invalid_index_uid"@,
        "index_already_exists"@ != "index_not_accessible"@,
        "index_not_found"@ != "invalid_index_uid"@,
        "index_not_found"@ != "index_not_accessible"@,
        "invalid_index_uid"@ != "index_not_accessible"@,
{
    reveal_strlit("index_creation_failed");
    reveal_strlit("index_already_exists");
    reveal_strlit("index_not_found");
    reveal_strlit("invalid_index_uid");
    reveal_strlit("index_not_accessible");
    assert("index_creation_failed"@.len() == 21);
    assert("index_already_exists"@.len() == 20);
    assert("index_not_found"@.len() == 15);
    assert("invalid_index_uid"@.len() == 17);
    assert("index_not_accessible"@.len() == 20);
    assert("index_already_exists"@[6] == 'a');
    assert("index_not_accessible"@[6] == 'n');
}

/// The wire texts of the known categories are pairwise different.
proof fn lemma_type_texts_distinct()
    ensures
        "invalid_request"@ != "internal"@,
        "invalid_request"@ != "authentication"@,
        "internal"@ != "authentication"@,
{
    reveal_strlit("invalid_request");
    reveal_strlit("internal");
    reveal_strlit("authentication");
    assert("invalid_request"@.len() == 15);
    assert("internal"@.len() == 8);
    assert("authentication"@.len() == 14);
}

impl ErrorCode {
    /// Reads an error code from its wire text.
    pub fn from_text(text: &str) -> (code: ErrorCode)
        ensures
            known_code_text(code) == text@,
            code is Unknown <==> !is_known_code_text(text@),
            text@ == "index_creation_failed"@ ==> code == ErrorCode::IndexCreationFailed,
            text@ == "index_already_exists"@ ==> code == ErrorCode::IndexAlreadyExists,
            text@ == "index_not_found"@ ==> code == ErrorCode::IndexNotFound,
            text@ == "invalid_index_uid"@ ==> code == ErrorCode::InvalidIndexUid,
            text@ == "index_not_accessible"@ ==> code == ErrorCode::IndexNotAccessible,
            code matches ErrorCode::Unknown(t) ==> t@ == text@,
    {
        proof {
            lemma_code_texts_distinct();
        }
        let t = String::from(text);
        if t == String::from("index_creation_failed") {
            ErrorCode::IndexCreationFailed
        } else if t == String::from("index_already_exists") {
            ErrorCode::IndexAlreadyExists
        } else if t == String::from("index_not_found") {
            ErrorCode::IndexNotFound
        } else if t == String::from("invalid_index_uid") {
            ErrorCode::InvalidIndexUid
        } else if t == String::from("index_not_accessible") {
            ErrorCode::IndexNotAccessible
        } else {
            ErrorCode::Unknown(t)
        }
    }
}

impl ErrorType {
    /// Reads an error category from its wire text.
    pub fn from_text(text: &str) -> (kind: ErrorType)
        ensures
            type_text(kind) == text@,
            kind is Unknown <==> !is_known_type_text(text@),
            text@ == "invalid_request"@ ==> kind == ErrorType::InvalidRequest,
            text@ == "internal"@ ==> kind == ErrorType::Internal,
            text@ == "authentication"@ ==> kind == ErrorType::Authentication,
            kind matches ErrorType::Unknown(t) ==> t@ == text@,
    {
        proof {
            lemma_type_texts_distinct();
        }
        let t = String::from(text);
        if t == String::from("invalid_request") {
            ErrorType::InvalidRequest
        } else if t == String::from("internal") {
            ErrorType::Internal
        } else if t == String::from("authentication") {
            ErrorType::Authentication
        } else {
            ErrorType::Unknown(t)
        }
    }
}

impl Error {
    /// Builds the error that a server's error description stands for.
    pub fn from_description(message: String, code: &str, kind: &str, link: String) -> (e: Error)
        ensures
            e matches Error::MeiliSearchError { message: m, error_code: c, error_type: t, error_link: l }
                && m == message && l == link
                && known_code_text(c) == code@ && (c is Unknown <==> !is_known_code_text(code@))
                && type_text(t) == kind@ && (t is Unknown <==> !is_known_type_text(kind@)),
    {
        Error::MeiliSearchError {
            message,
            error_code: ErrorCode::from_text(code),
            error_type: ErrorType::from_text(kind),
            error_link: link,
        }
    }
}

/// Reading back the wire text of a known error code gives that code again:
/// two known codes with the same text are the same code.
pub proof fn lemma_known_code_text_determines_code(c1: ErrorCode, c2: ErrorCode)
    requires
        !(c1 is Unknown),
        !(c2 is Unknown),
        known_code_text(c1) == known_code_text(c2),
    ensures
        c1 == c2,
        is_known_code_text(known_code_text(c1)),
{
    reveal_strlit("index_creation_failed");
    reveal_strlit("index_already_exists");
    reveal_strlit("index_not_found");
    reveal_strlit("invalid_index_uid");
    reveal_strlit("index_not_accessible");
    assert("index_creation_failed"@.len() == 21);
    assert("index_already_exists"@.len() == 20);
    assert("index_not_found"@.len() == 15);
    assert("invalid_index_uid"@.len() == 17);
    assert("index_not_accessible"@.len() == 20);
    assert("index_already_exists"@[6] == 'a');
    assert("index_not_accessible"@[6] == 'n');
}

/// Reading back the wire text of a known error category gives that category
/// again: two known categories with the same text are the same category.
pub proof fn lemma_type_text_determines_type(t1: ErrorType, t2: ErrorType)
    requires
        !(t1 is Unknown),
        !(t2 is Unknown),
        type_text(t1) == type_text(t2),
    ensures
        t1 == t2,
        is_known_type_text(type_text(t1)),
{
    reveal_strlit("invalid_request");
    reveal_strlit("internal");
    reveal_strlit("authentication");
    assert("invalid_request"@.len() == 15);
    assert("internal"@.len() == 8);
    assert("authentication"@.len() == 14);
}

} // verus!
