use vstd::prelude::*;
use vstd::string::*;

verus! {

/// The uniform wrapper around every result of the service.
///
/// `code` mirrors the HTTP status of the response. A success carries its
/// payload in `data`, a failure its detail in `errors`; never both.
#[derive(Debug)]
pub struct ApiResponse<T> {
    pub status: String,
    pub code: u16,
    pub message: String,
    pub data: Option<T>,
    pub errors: Option<T>,
}

/// A structured error: a short code and a message for people.
#[derive(Debug)]
pub struct ErrorDetail {
    pub code: String,
    pub message: String,
}

/// The ways in which a request can fail.
///
/// The first three are the client's doing and answered with status 400; a
/// document that is not there is answered with 404; anything that goes wrong
/// between the service and the database with 500.
#[derive(Debug, Clone, Copy, PartialEq, Eq, Structural)]
pub enum ErrorKind {
    /// A create request lacks a required field.
    MissingFields,
    /// An identifier is not in the identifier format.
    InvalidId,
    /// An update request supplies no field.
    NoFields,
    /// No document has the identifier asked for.
    NotFound,
    /// No client is at hand, or the driver reported a failure.
    DatabaseFailure,
}

impl ErrorKind {
    /// The HTTP status that answers a failure of this kind.
    pub open spec fn status_code(self) -> u16 {
        match self {
            ErrorKind::MissingFields => 400,
            ErrorKind::InvalidId => 400,
            ErrorKind::NoFields => 400,
            ErrorKind::NotFound => 404,
            ErrorKind::DatabaseFailure => 500,
        }
    }

    /// The message that names a failure of this kind.
    pub open spec fn message_text(self) -> Seq<char> {
        match self {
            ErrorKind::MissingFields => "Missing fields"@,
            ErrorKind::InvalidId => "Invalid ID format"@,
            ErrorKind::NoFields => "No fields to update"@,
            ErrorKind::NotFound => "User not found"@,
            ErrorKind::DatabaseFailure => "Internal server error"@,
        }
    }

    /// The HTTP status that answers a failure of this kind.
    pub fn code(self) -> (code: u16)
        ensures
            code == self.status_code(),
    {
        match self {
            ErrorKind::MissingFields => 400,
            ErrorKind::InvalidId => 400,
            ErrorKind::NoFields => 400,
            ErrorKind::NotFound => 404,
            ErrorKind::DatabaseFailure => 500,
        }
    }

    /// The message that names a failure of this kind.
    pub fn message(self) -> (message: &'static str)
        ensures
            message@ == self.message_text(),
    {
        match self {
            ErrorKind::MissingFields => "Missing fields",
            ErrorKind::InvalidId => "Invalid ID format",
            ErrorKind::NoFields => "No fields to update",
            ErrorKind::NotFound => "User not found",
            ErrorKind::DatabaseFailure => "Internal server error",
        }
    }
}

/// The mathematical content of a response whose payload is text.
pub struct Envelope {
    pub status: Seq<char>,
    pub code: u16,
    pub message: Seq<char>,
    pub data: Option<Seq<char>>,
    pub errors: Option<Seq<char>>,
}

/// The envelope of a success that carries `data`.
pub open spec fn success_envelope(message: Seq<char>, data: Seq<char>) -> Envelope {
    Envelope { status: "Success"@, code: 200, message, data: Some(data), errors: None }
}

/// The envelope of a failure of the given kind, with its detail.
pub open spec fn error_envelope(kind: ErrorKind, detail: Seq<char>) -> Envelope {
    Envelope {
        status: "error"@,
        code: kind.status_code(),
        message: kind.message_text(),
        data: None,
        errors: Some(detail),
    }
}

/// The envelope of a failure of the database, or of a missing connection.
pub open spec fn db_error_envelope(detail: Seq<char>) -> Envelope {
    error_envelope(ErrorKind::DatabaseFailure, detail)
}

/// The envelope that answers an identifier of the wrong format.
pub open spec fn invalid_id_envelope(params: Seq<char>) -> Envelope {
    error_envelope(ErrorKind::InvalidId, "Invalid ID format: "@ + params)
}

impl Envelope {
    /// A success: code 200, a payload and no error detail.
    pub open spec fn is_success(self) -> bool {
        &&& self.status == "Success"@
        &&& self.code == 200
        &&& self.data is Some
        &&& self.errors is None
    }

    /// A failure: one of the codes 400, 404 and 500, an error detail and no
    /// payload.
    pub open spec fn is_error(self) -> bool {
        &&& self.status == "error"@
        &&& (self.code == 400 || self.code == 404 || self.code == 500)
        &&& self.data is None
        &&& self.errors is Some
    }

    /// Every response is a success or a failure, so exactly one of payload
    /// and error detail is there.
    pub open spec fn wf(self) -> bool {
        self.is_success() || self.is_error()
    }
}

impl View for ApiResponse<String> {
    type V = Envelope;

    open spec fn view(&self) -> Envelope {
        Envelope {
            status: self.status@,
            code: self.code,
            message: self.message@,
            data: match self.data {
                Some(text) => Some(text@),
                None => None,
            },
            errors: match self.errors {
                Some(text) => Some(text@),
                None => None,
            },
        }
    }
}

impl<T> ApiResponse<T> {
    /// This response is the success that carries `data` under `message`.
    pub open spec fn is_success_with(&self, message: Seq<char>, data: T) -> bool {
        &&& self.status@ == "Success"@
        &&& self.code == 200
        &&& self.message@ == message
        &&& self.data == Some(data)
        &&& self.errors is None
    }

    /// Exactly one of payload and error detail is there.
    pub open spec fn has_one_payload(&self) -> bool {
        (self.data is Some) != (self.errors is Some)
    }

    /// Wraps a payload as a success.
    pub fn success(message: &str, data: T) -> (response: Self)
        ensures
            response.is_success_with(message@, data),
            response.has_one_payload(),
    {
        ApiResponse {
            status: String::from_str("Success"),
            code: 200,
            message: String::from_str(message),
            data: Some(data),
            errors: None,
        }
    }
}

impl ApiResponse<String> {
    /// Wraps an error detail as a failure of the given kind.
    pub fn failure(kind: ErrorKind, detail: String) -> (response: Self)
        ensures
            response@ == error_envelope(kind, detail@),
            response@.is_error(),
    {
        ApiResponse {
            status: String::from_str("error"),
            code: kind.code(),
            message: String::from_str(kind.message()),
            data: None,
            errors: Some(detail),
        }
    }
}

/// The response to a failure of the database: status 500, with the detail of
/// the failure, as already rendered, in `errors`.
pub fn handle_db_error(detail: String) -> (response: ApiResponse<String>)
    ensures
        response@ == db_error_envelope(detail@),
        response@.wf(),
{
    ApiResponse::failure(ErrorKind::DatabaseFailure, detail)
}

/// The response to an identifier that is not in the identifier format:
/// status 400, naming the text that was received.
pub fn handle_invalid_id_error(params: &str) -> (response: ApiResponse<String>)
    ensures
        response@ == invalid_id_envelope(params@),
        response@.wf(),
{
    let mut detail = String::from_str("Invalid ID format: ");
    detail.append(params);
    ApiResponse::failure(ErrorKind::InvalidId, detail)
}

} // verus!
