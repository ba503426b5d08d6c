use vstd::prelude::*;

verus! {

/// Why a request, a lookup or a write was refused.
#[derive(Debug)]
pub enum ServiceError {
    /// The request names a method the service does not know.
    InvalidMethod(String),
    /// No key type could be determined for the public key carried here.
    InvalidEncryption(String),
    /// The signer does not own the record it tries to change.
    InvalidOwner(String),
    /// A lookup found no record.
    RecordNotFound(String),
    /// The request carries no key type.
    NoEncryptionType(),
    /// The key type carried here is not one the service verifies.
    NotSupportedEncryptionType(String),
    /// The signature does not match the data and the public key.
    InvalidSignature(String),
    /// A storage or service failure, with its description.
    InternalError(String),
}

/// A `ServiceError` with its texts taken as character sequences.
pub enum ErrorView {
    InvalidMethod(Seq<char>),
    InvalidEncryption(Seq<char>),
    InvalidOwner(Seq<char>),
    RecordNotFound(Seq<char>),
    NoEncryptionType,
    NotSupportedEncryptionType(Seq<char>),
    InvalidSignature(Seq<char>),
    InternalError(Seq<char>),
}

impl View for ServiceError {
    type V = ErrorView;

    open spec fn view(&self) -> ErrorView {
        match self {
            ServiceError::InvalidMethod(s) => ErrorView::InvalidMethod(s@),
            ServiceError::InvalidEncryption(s) => ErrorView::InvalidEncryption(s@),
            ServiceError::InvalidOwner(s) => ErrorView::InvalidOwner(s@),
            ServiceError::RecordNotFound(s) => ErrorView::RecordNotFound(s@),
            ServiceError::NoEncryptionType() => ErrorView::NoEncryptionType,
            ServiceError::NotSupportedEncryptionType(s) => ErrorView::NotSupportedEncryptionType(s@),
            ServiceError::InvalidSignature(s) => ErrorView::InvalidSignature(s@),
            ServiceError::InternalError(s) => ErrorView::InternalError(s@),
        }
    }
}

/// The view of an optional error.
pub open spec fn error_opt_view(e: Option<ServiceError>) -> Option<ErrorView> {
    match e {
        Some(e) => Some(e@),
        None => None,
    }
}

/// The text of an error, as it is stored in a transaction's error text.
pub open spec fn error_text(e: ErrorView) -> Seq<char> {
    match e {
        ErrorView::InvalidMethod(s) => s,
        ErrorView::InvalidEncryption(s) => "invalid encryption: "@ + s,
        ErrorView::InvalidOwner(s) => s,
        ErrorView::RecordNotFound(s) => "record not found: "@ + s,
        ErrorView::NoEncryptionType => "no encryption type"@,
        ErrorView::NotSupportedEncryptionType(s) => "not supported encryption type: "@ + s,
        ErrorView::InvalidSignature(s) => s,
        ErrorView::InternalError(s) => s,
    }
}

impl ServiceError {
    /// The text of this error, as it is stored in a transaction's error text.
    pub fn message(&self) -> (r: String)
        ensures
            r@ == error_text(self@),
    {
        match self {
            ServiceError::InvalidMethod(s) => s.clone(),
            ServiceError::InvalidEncryption(s) => {
                String::from_str("invalid encryption: ").concat(s.as_str())
            },
            ServiceError::InvalidOwner(s) => s.clone(),
            ServiceError::RecordNotFound(s) => {
                String::from_str("record not found: ").concat(s.as_str())
            },
            ServiceError::NoEncryptionType() => String::from_str("no encryption type"),
            ServiceError::NotSupportedEncryptionType(s) => {
                String::from_str("not supported encryption type: ").concat(s.as_str())
            },
            ServiceError::InvalidSignature(s) => s.clone(),
            ServiceError::InternalError(s) => s.clone(),
        }
    }

    /// Whether this error reports a missing record.
    pub fn is_not_found(&self) -> (r: bool)
        ensures
            r == (self@ is RecordNotFound),
    {
        match self {
            ServiceError::RecordNotFound(_) => true,
            _ => false,
        }
    }
}

} // verus!
