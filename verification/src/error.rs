//! The service's error taxonomy, and its single stable mapping to an HTTP
//! status code, an internal code and a prompt message. Every subtype of a
//! store failure or extractor rejection is covered; no variant is left to a
//! placeholder.

use vstd::prelude::*;
use vstd::string::StringExecFns;
use crate::text::{dec_of_int, i64_to_string};

verus! {

/// The kind of a store failure, one tag per failure the store reports.
#[derive(Clone, Copy, Debug, PartialEq, Eq, Structural)]
pub enum DbFaultKind {
    ConnectionAcquire,
    TryInto,
    Conn,
    Exec,
    Query,
    ConvertFromU64,
    UnpackInsertId,
    UpdateGetPrimaryKey,
    RecordNotFound,
    AttrNotSet,
    Custom,
    Type,
    Json,
    Migration,
    RecordNotInserted,
    RecordNotUpdated,
}

/// A store failure: its kind, and the message the store rendered for it.
#[derive(Debug)]
pub struct DbFault {
    pub kind: DbFaultKind,
    pub message: String,
}

/// The kind of a rejected request body.
#[derive(Clone, Copy, Debug, PartialEq, Eq, Structural)]
pub enum JsonFaultKind {
    DataError,
    SyntaxError,
    MissingContentType,
    BytesRejection,
}

/// A rejected request body: its kind, and the rejection's own text.
#[derive(Debug)]
pub struct JsonFault {
    pub kind: JsonFaultKind,
    pub message: String,
}

/// The kind of a rejected path parameter.
#[derive(Clone, Copy, Debug, PartialEq, Eq, Structural)]
pub enum PathFaultKind {
    FailedToDeserializePathParams,
    MissingPathParams,
}

/// A rejected path parameter: its kind, and the rejection's own text.
#[derive(Debug)]
pub struct PathFault {
    pub kind: PathFaultKind,
    pub message: String,
}

/// A rejected query string, with the rejection's own text.
#[derive(Debug)]
pub struct QueryFault {
    pub message: String,
}

/// Every error the service reports to a caller.
#[derive(Debug)]
pub enum ServiceError {
    /// An opaque store failure.
    Database(DbFault),
    /// A field-presence rule was violated; the message names the field and
    /// category.
    Validation(String),
    /// A category token that is not one of "ask", "comment", "story".
    InvalidCategory,
    /// A request failed declarative input validation.
    InvalidInputError(String),
    /// A todo lookup by id found nothing.
    TodoNotFoundError(i64),
    /// An item lookup by id found nothing.
    ItemNotFound(i64),
    /// A user lookup by id found nothing.
    UserNotFound(i64),
    /// The item table is empty.
    ItemEmpty,
    /// The user table is empty.
    UserEmpty,
    /// The request body could not be extracted.
    JsonExtractorRejection(JsonFault),
    /// The query string could not be extracted.
    QueryExtractorRejection(QueryFault),
    /// The path parameters could not be extracted.
    PathExtractorRejection(PathFault),
}

/// The HTTP status code owed to each error.
pub open spec fn status_of(e: ServiceError) -> u16 {
    match e {
        ServiceError::QueryExtractorRejection(_) => 400,
        ServiceError::PathExtractorRejection(_) => 400,
        ServiceError::JsonExtractorRejection(_) => 422,
        ServiceError::InvalidInputError(_) => 400,
        ServiceError::Validation(_) => 400,
        ServiceError::InvalidCategory => 400,
        ServiceError::TodoNotFoundError(_) => 404,
        ServiceError::ItemNotFound(_) => 404,
        ServiceError::UserNotFound(_) => 404,
        ServiceError::ItemEmpty => 204,
        ServiceError::UserEmpty => 204,
        ServiceError::Database(_) => 500,
    }
}

/// The stable internal code of each error, covering every store-failure and
/// rejection subtype.
pub open spec fn code_of(e: ServiceError) -> i32 {
    match e {
        ServiceError::InvalidInputError(_) => 40000,
        ServiceError::Validation(_) => 40001,
        ServiceError::InvalidCategory => 40002,
        ServiceError::QueryExtractorRejection(_) => 40100,
        ServiceError::PathExtractorRejection(f) => match f.kind {
            PathFaultKind::FailedToDeserializePathParams => 40200,
            PathFaultKind::MissingPathParams => 40201,
        },
        ServiceError::JsonExtractorRejection(f) => match f.kind {
            JsonFaultKind::DataError => 40300,
            JsonFaultKind::SyntaxError => 40301,
            JsonFaultKind::MissingContentType => 40302,
            JsonFaultKind::BytesRejection => 40303,
        },
        ServiceError::TodoNotFoundError(_) => 40400,
        ServiceError::ItemNotFound(_) => 40401,
        ServiceError::UserNotFound(_) => 40402,
        ServiceError::ItemEmpty => 40410,
        ServiceError::UserEmpty => 40411,
        ServiceError::Database(f) => match f.kind {
            DbFaultKind::TryInto => 50004,
            DbFaultKind::ConnectionAcquire => 50100,
            DbFaultKind::Conn => 50101,
            DbFaultKind::Exec => 50102,
            DbFaultKind::Query => 50103,
            DbFaultKind::ConvertFromU64 => 50104,
            DbFaultKind::UnpackInsertId => 50105,
            DbFaultKind::UpdateGetPrimaryKey => 50106,
            DbFaultKind::RecordNotFound => 50107,
            DbFaultKind::AttrNotSet => 50108,
            DbFaultKind::Custom => 50109,
            DbFaultKind::Type => 50110,
            DbFaultKind::Json => 50111,
            DbFaultKind::Migration => 50112,
            DbFaultKind::RecordNotInserted => 50113,
            DbFaultKind::RecordNotUpdated => 50114,
        },
    }
}

/// The human-readable message owed to each error.
pub open spec fn prompt_of(e: ServiceError) -> Seq<char> {
    match e {
        ServiceError::Database(f) => f.message@,
        ServiceError::Validation(m) => m@,
        ServiceError::InvalidCategory => "invalid category"@,
        ServiceError::InvalidInputError(m) => m@,
        ServiceError::TodoNotFoundError(id) => "cannot find todo with id "@ + dec_of_int(
            id as int,
        ),
        ServiceError::ItemNotFound(id) => "Item "@ + dec_of_int(id as int) + " not found"@,
        ServiceError::UserNotFound(id) => "User "@ + dec_of_int(id as int) + " not found"@,
        ServiceError::ItemEmpty => "Cannot find item in database"@,
        ServiceError::UserEmpty => "Cannot find user in database"@,
        ServiceError::JsonExtractorRejection(f) => f.message@,
        ServiceError::QueryExtractorRejection(f) => f.message@,
        ServiceError::PathExtractorRejection(f) => f.message@,
    }
}

impl ServiceError {
    /// The HTTP status code for this error.
    pub fn get_status_code(&self) -> (r: u16)
        ensures
            r == status_of(*self),
    {
        match self {
            ServiceError::QueryExtractorRejection(_) => 400,
            ServiceError::PathExtractorRejection(_) => 400,
            ServiceError::JsonExtractorRejection(_) => 422,
            ServiceError::InvalidInputError(_) => 400,
            ServiceError::Validation(_) => 400,
            ServiceError::InvalidCategory => 400,
            ServiceError::TodoNotFoundError(_) => 404,
            ServiceError::ItemNotFound(_) => 404,
            ServiceError::UserNotFound(_) => 404,
            ServiceError::ItemEmpty => 204,
            ServiceError::UserEmpty => 204,
            ServiceError::Database(_) => 500,
        }
    }

    /// The stable internal code for this error.
    pub fn get_internal_code(&self) -> (r: i32)
        ensures
            r == code_of(*self),
    {
        match self {
            ServiceError::InvalidInputError(_) => 40000,
            ServiceError::Validation(_) => 40001,
            ServiceError::InvalidCategory => 40002,
            ServiceError::QueryExtractorRejection(_) => 40100,
            ServiceError::PathExtractorRejection(f) => match f.kind {
                PathFaultKind::FailedToDeserializePathParams => 40200,
                PathFaultKind::MissingPathParams => 40201,
            },
            ServiceError::JsonExtractorRejection(f) => match f.kind {
                JsonFaultKind::DataError => 40300,
                JsonFaultKind::SyntaxError => 40301,
                JsonFaultKind::MissingContentType => 40302,
                JsonFaultKind::BytesRejection => 40303,
            },
            ServiceError::TodoNotFoundError(_) => 40400,
            ServiceError::ItemNotFound(_) => 40401,
            ServiceError::UserNotFound(_) => 40402,
            ServiceError::ItemEmpty => 40410,
            ServiceError::UserEmpty => 40411,
            ServiceError::Database(f) => match f.kind {
                DbFaultKind::TryInto => 50004,
                DbFaultKind::ConnectionAcquire => 50100,
                DbFaultKind::Conn => 50101,
                DbFaultKind::Exec => 50102,
                DbFaultKind::Query => 50103,
                DbFaultKind::ConvertFromU64 => 50104,
                DbFaultKind::UnpackInsertId => 50105,
                DbFaultKind::UpdateGetPrimaryKey => 50106,
                DbFaultKind::RecordNotFound => 50107,
                DbFaultKind::AttrNotSet => 50108,
                DbFaultKind::Custom => 50109,
                DbFaultKind::Type => 50110,
                DbFaultKind::Json => 50111,
                DbFaultKind::Migration => 50112,
                DbFaultKind::RecordNotInserted => 50113,
                DbFaultKind::RecordNotUpdated => 50114,
            },
        }
    }

    /// The human-readable message for this error.
    pub fn get_prompt_message(&self) -> (r: String)
        ensures
            r@ == prompt_of(*self),
    {
        match self {
            ServiceError::Database(f) => f.message.clone(),
            ServiceError::Validation(m) => m.clone(),
            ServiceError::InvalidCategory => String::from_str("invalid category"),
            ServiceError::InvalidInputError(m) => m.clone(),
            ServiceError::TodoNotFoundError(id) => {
                let n = i64_to_string(*id);
                String::from_str("cannot find todo with id ").concat(n.as_str())
            },
            ServiceError::ItemNotFound(id) => {
                let n = i64_to_string(*id);
                let r = String::from_str("Item ").concat(n.as_str()).concat(" not found");
                proof {
                    assert(r@ =~= prompt_of(*self));
                }
                r
            },
            ServiceError::UserNotFound(id) => {
                let n = i64_to_string(*id);
                let r = String::from_str("User ").concat(n.as_str()).concat(" not found");
                proof {
                    assert(r@ =~= prompt_of(*self));
                }
                r
            },
            ServiceError::ItemEmpty => String::from_str("Cannot find item in database"),
            ServiceError::UserEmpty => String::from_str("Cannot find user in database"),
            ServiceError::JsonExtractorRejection(f) => f.message.clone(),
            ServiceError::QueryExtractorRejection(f) => f.message.clone(),
            ServiceError::PathExtractorRejection(f) => f.message.clone(),
        }
    }
}

} // verus!
