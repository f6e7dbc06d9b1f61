use vstd::prelude::*;

verus! {

/// The kind of a rejected request.
#[derive(Clone, Copy, Debug, PartialEq, Eq, Structural)]
pub enum ErrorKind {
    /// A required text field is empty.
    MissingField,
    /// Text does not decode under its encoding, or to the required length.
    InvalidEncoding,
    /// A numeric field lies outside its accepted domain.
    InvalidRange,
    /// Valid fields that break a rule across fields.
    SemanticConflict,
    /// The instruction builder rejected inputs that looked valid.
    ConstructionFailure,
}

/// A rejected request: `success` is always false, `error` says why.
#[derive(Clone, Debug)]
pub struct ErrorResponse {
    pub success: bool,
    pub error: String,
    pub kind: ErrorKind,
}

/// `r` is a rejection of kind `kind` with the text `msg`.
pub open spec fn rejected_as<T>(r: Result<T, ErrorResponse>, kind: ErrorKind, msg: Seq<char>) -> bool {
    &&& r is Err
    &&& !r->Err_0.success
    &&& r->Err_0.kind == kind
    &&& r->Err_0.error@ == msg
}

/// The expected rejection `e` (a kind and a text) is what `r` holds.
pub open spec fn rejected_with<T>(r: Result<T, ErrorResponse>, e: (ErrorKind, Seq<char>)) -> bool {
    rejected_as(r, e.0, e.1)
}

/// `e` is the rejection `rejection`: its kind, then its text.
pub open spec fn error_is(e: ErrorResponse, rejection: (ErrorKind, Seq<char>)) -> bool {
    &&& !e.success
    &&& e.kind == rejection.0
    &&& e.error@ == rejection.1
}

impl ErrorResponse {
    /// A rejection of the given kind with the given text.
    pub fn new(kind: ErrorKind, msg: &str) -> (r: ErrorResponse)
        ensures
            !r.success,
            r.kind == kind,
            r.error@ == msg@,
    {
        ErrorResponse { success: false, error: msg.to_owned(), kind }
    }
}

} // verus!
