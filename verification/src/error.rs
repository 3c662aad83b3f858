use std::fmt::Write;
use vstd::prelude::*;

verus! {

/// Declares `serde_json::Error` so that it can be handed to the library.
#[verifier::external_type_specification]
#[verifier::external_body]
pub struct ExJsonError(serde_json::Error);

/// The errors of the IndexedDB event repository.
#[derive(Debug)]
pub enum IndexDbAggregateError {
    /// An event with the same key is already stored, or the transaction did not settle.
    OptimisticLock,
    /// The database could not be reached.
    ConnectionError(String),
    /// Stored data could not be read back.
    DeserializationError(String),
    /// Anything else.
    UnknownError(String),
}

/// The variants of `cqrs_es::AggregateError` that this repository's errors become.
#[derive(Debug, Clone, Copy, PartialEq, Eq, Structural)]
pub enum AggregateErrorKind {
    AggregateConflict,
    DatabaseConnectionError,
    DeserializationError,
    UnexpectedError,
}

/// The variants of `cqrs_es::persist::PersistenceError` that this repository's errors become.
#[derive(Debug, Clone, Copy, PartialEq, Eq, Structural)]
pub enum PersistenceErrorKind {
    OptimisticLockError,
    ConnectionError,
    UnknownError,
}

/// The categories of `serde_json::error::Category`.
#[derive(Debug, Clone, Copy, PartialEq, Eq, Structural)]
pub enum JsonErrorCategory {
    Io,
    Syntax,
    Data,
    Eof,
}

/// The text that an error displays.
pub open spec fn error_message(e: IndexDbAggregateError) -> Seq<char> {
    match e {
        IndexDbAggregateError::OptimisticLock => "optimistic lock error"@,
        IndexDbAggregateError::ConnectionError(s) => s@,
        IndexDbAggregateError::DeserializationError(s) => s@,
        IndexDbAggregateError::UnknownError(s) => s@,
    }
}

/// Which `AggregateError` variant an error becomes.
pub open spec fn aggregate_kind_of(e: IndexDbAggregateError) -> AggregateErrorKind {
    match e {
        IndexDbAggregateError::OptimisticLock => AggregateErrorKind::AggregateConflict,
        IndexDbAggregateError::ConnectionError(_) => AggregateErrorKind::DatabaseConnectionError,
        IndexDbAggregateError::DeserializationError(_) => AggregateErrorKind::DeserializationError,
        IndexDbAggregateError::UnknownError(_) => AggregateErrorKind::UnexpectedError,
    }
}

/// Which `PersistenceError` variant an error becomes: a deserialization
/// failure is reported as an unknown persistence error.
pub open spec fn persistence_kind_of(e: IndexDbAggregateError) -> PersistenceErrorKind {
    match e {
        IndexDbAggregateError::OptimisticLock => PersistenceErrorKind::OptimisticLockError,
        IndexDbAggregateError::ConnectionError(_) => PersistenceErrorKind::ConnectionError,
        IndexDbAggregateError::DeserializationError(_) => PersistenceErrorKind::UnknownError,
        IndexDbAggregateError::UnknownError(_) => PersistenceErrorKind::UnknownError,
    }
}

/// `e` is what a JSON error of category `category` and text `message` becomes:
/// malformed or mistyped input is a deserialization error, a failed stream or a
/// premature end of input is an unknown error, and the text is kept.
pub open spec fn is_json_error_conversion(
    e: IndexDbAggregateError,
    category: JsonErrorCategory,
    message: Seq<char>,
) -> bool {
    match e {
        IndexDbAggregateError::DeserializationError(s) => {
            &&& (category == JsonErrorCategory::Data || category == JsonErrorCategory::Syntax)
            &&& s@ == message
        },
        IndexDbAggregateError::UnknownError(s) => {
            &&& (category == JsonErrorCategory::Io || category == JsonErrorCategory::Eof)
            &&& s@ == message
        },
        _ => false,
    }
}

/// The category that `serde_json::Error::classify` gives an error; it depends
/// on the error alone.
pub uninterp spec fn spec_json_category(err: serde_json::Error) -> JsonErrorCategory;

/// Calls `serde_json::Error::classify`; the contract claims that the category
/// is the one the error has, `spec_json_category`.
#[verifier::external_body]
fn json_error_category(err: &serde_json::Error) -> (category: JsonErrorCategory)
    ensures
        category == spec_json_category(*err),
{
    match err.classify() {
        serde_json::error::Category::Io => JsonErrorCategory::Io,
        serde_json::error::Category::Syntax => JsonErrorCategory::Syntax,
        serde_json::error::Category::Data => JsonErrorCategory::Data,
        serde_json::error::Category::Eof => JsonErrorCategory::Eof,
    }
}

/// The text that a `serde_json::Error` other than an I/O error displays: its
/// message or the fixed text of its code, then the line and column where one
/// is known. It depends on the error alone.
pub uninterp spec fn spec_json_text(err: serde_json::Error) -> Seq<char>;

/// Writes a `serde_json::Error` through its `Display` (`write!` into a
/// `String`); `None` where that `Display` fails. The contract claims that an
/// error other than an I/O error is written, as `spec_json_text`. Of an I/O
/// error it claims nothing: its text is the wrapped `std::io::Error`'s, which
/// need not be the same on every call, and that `Display` may fail.
#[verifier::external_body]
fn json_error_text(err: &serde_json::Error) -> (text: Option<String>)
    ensures
        spec_json_category(*err) != JsonErrorCategory::Io ==> (text is Some && text->Some_0@ == spec_json_text(
            *err,
        )),
{
    let mut text = String::new();
    match write!(text, "{}", err) {
        Ok(()) => Some(text),
        Err(_) => None,
    }
}

impl IndexDbAggregateError {
    /// The text of the error, as its `Display` shows it.
    pub fn message(&self) -> (text: String)
        ensures
            text@ == error_message(*self),
    {
        match self {
            IndexDbAggregateError::OptimisticLock => "optimistic lock error".to_owned(),
            IndexDbAggregateError::ConnectionError(s) => s.clone(),
            IndexDbAggregateError::DeserializationError(s) => s.clone(),
            IndexDbAggregateError::UnknownError(s) => s.clone(),
        }
    }

    /// The `cqrs_es::AggregateError` variant that this error converts into.
    pub fn aggregate_error_kind(&self) -> (kind: AggregateErrorKind)
        ensures
            kind == aggregate_kind_of(*self),
            (kind == AggregateErrorKind::AggregateConflict) <==> (*self is OptimisticLock),
            *self is ConnectionError ==> kind == AggregateErrorKind::DatabaseConnectionError,
            *self is DeserializationError ==> kind == AggregateErrorKind::DeserializationError,
            *self is UnknownError ==> kind == AggregateErrorKind::UnexpectedError,
    {
        match self {
            IndexDbAggregateError::OptimisticLock => AggregateErrorKind::AggregateConflict,
            IndexDbAggregateError::ConnectionError(_) => AggregateErrorKind::DatabaseConnectionError,
            IndexDbAggregateError::DeserializationError(_) => AggregateErrorKind::DeserializationError,
            IndexDbAggregateError::UnknownError(_) => AggregateErrorKind::UnexpectedError,
        }
    }

    /// The `cqrs_es::persist::PersistenceError` variant that this error converts into.
    pub fn persistence_error_kind(&self) -> (kind: PersistenceErrorKind)
        ensures
            kind == persistence_kind_of(*self),
            (kind == PersistenceErrorKind::OptimisticLockError) <==> (*self is OptimisticLock),
            *self is ConnectionError ==> kind == PersistenceErrorKind::ConnectionError,
            *self is DeserializationError ==> kind == PersistenceErrorKind::UnknownError,
            *self is UnknownError ==> kind == PersistenceErrorKind::UnknownError,
    {
        match self {
            IndexDbAggregateError::OptimisticLock => PersistenceErrorKind::OptimisticLockError,
            IndexDbAggregateError::ConnectionError(_) => PersistenceErrorKind::ConnectionError,
            IndexDbAggregateError::DeserializationError(_) => PersistenceErrorKind::UnknownError,
            IndexDbAggregateError::UnknownError(_) => PersistenceErrorKind::UnknownError,
        }
    }

    /// The error that a JSON error of the given category and text becomes.
    pub fn from_json_category(category: JsonErrorCategory, message: String) -> (e: Self)
        ensures
            is_json_error_conversion(e, category, message@),
    {
        match category {
            JsonErrorCategory::Data => IndexDbAggregateError::DeserializationError(message),
            JsonErrorCategory::Syntax => IndexDbAggregateError::DeserializationError(message),
            JsonErrorCategory::Io => IndexDbAggregateError::UnknownError(message),
            JsonErrorCategory::Eof => IndexDbAggregateError::UnknownError(message),
        }
    }

    /// Converts a `serde_json::Error`: it is classified by its category and
    /// carries the text it displays (an empty text where displaying an I/O
    /// error fails).
    pub fn from_json_error(err: &serde_json::Error) -> (e: Self)
        ensures
            is_json_error_conversion(e, spec_json_category(*err), error_message(e)),
            spec_json_category(*err) != JsonErrorCategory::Io ==> error_message(e) == spec_json_text(*err),
    {
        let category = json_error_category(err);
        let text = match json_error_text(err) {
            Some(text) => text,
            None => String::new(),
        };
        Self::from_json_category(category, text)
    }
}


/// The `AggregateError` variant of an error depends on its variant alone,
/// whatever text it carries: an optimistic lock is a conflict, a connection
/// error a database-connection error, a deserialization error a
/// deserialization error, and an unknown error an unexpected error.
pub proof fn lemma_aggregate_kind_by_variant(text: String)
    ensures
        aggregate_kind_of(IndexDbAggregateError::OptimisticLock) == AggregateErrorKind::AggregateConflict,
        aggregate_kind_of(IndexDbAggregateError::ConnectionError(text))
            == AggregateErrorKind::DatabaseConnectionError,
        aggregate_kind_of(IndexDbAggregateError::DeserializationError(text))
            == AggregateErrorKind::DeserializationError,
        aggregate_kind_of(IndexDbAggregateError::UnknownError(text)) == AggregateErrorKind::UnexpectedError,
{
}

/// The `PersistenceError` variant of an error depends on its variant alone,
/// whatever text it carries: an optimistic lock is an optimistic-lock error,
/// a connection error a connection error, and a deserialization or unknown
/// error an unknown error.
pub proof fn lemma_persistence_kind_by_variant(text: String)
    ensures
        persistence_kind_of(IndexDbAggregateError::OptimisticLock) == PersistenceErrorKind::OptimisticLockError,
        persistence_kind_of(IndexDbAggregateError::ConnectionError(text)) == PersistenceErrorKind::ConnectionError,
        persistence_kind_of(IndexDbAggregateError::DeserializationError(text)) == PersistenceErrorKind::UnknownError,
        persistence_kind_of(IndexDbAggregateError::UnknownError(text)) == PersistenceErrorKind::UnknownError,
{
}

/// Two errors of the same variant convert alike, whatever texts they carry.
pub proof fn lemma_kinds_ignore_text(a: String, b: String)
    ensures
        aggregate_kind_of(IndexDbAggregateError::ConnectionError(a)) == aggregate_kind_of(
            IndexDbAggregateError::ConnectionError(b),
        ),
        persistence_kind_of(IndexDbAggregateError::ConnectionError(a)) == persistence_kind_of(
            IndexDbAggregateError::ConnectionError(b),
        ),
        aggregate_kind_of(IndexDbAggregateError::DeserializationError(a)) == aggregate_kind_of(
            IndexDbAggregateError::DeserializationError(b),
        ),
        persistence_kind_of(IndexDbAggregateError::DeserializationError(a)) == persistence_kind_of(
            IndexDbAggregateError::DeserializationError(b),
        ),
        aggregate_kind_of(IndexDbAggregateError::UnknownError(a)) == aggregate_kind_of(
            IndexDbAggregateError::UnknownError(b),
        ),
        persistence_kind_of(IndexDbAggregateError::UnknownError(a)) == persistence_kind_of(
            IndexDbAggregateError::UnknownError(b),
        ),
{
}

/// A converted JSON error displays the JSON error's text, and reaches
/// `cqrs_es` as a deserialization error (an unknown persistence error) when the
/// input was at fault, and as an unexpected (unknown) error otherwise.
pub proof fn lemma_json_error_reporting(e: IndexDbAggregateError, category: JsonErrorCategory, message: Seq<char>)
    requires
        is_json_error_conversion(e, category, message),
    ensures
        error_message(e) == message,
        persistence_kind_of(e) == PersistenceErrorKind::UnknownError,
        (category == JsonErrorCategory::Data || category == JsonErrorCategory::Syntax) ==> aggregate_kind_of(e)
            == AggregateErrorKind::DeserializationError,
        (category == JsonErrorCategory::Io || category == JsonErrorCategory::Eof) ==> aggregate_kind_of(e)
            == AggregateErrorKind::UnexpectedError,
{
}

} // verus!
