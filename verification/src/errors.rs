//! The errors of the session service, with their codes and messages.

use crate::ids::{hyphenated, BattleId, PlayerId};
use crate::text::join3;
use vstd::prelude::*;

verus! {

/// What the standard library's `Debug` formatting (`{:?}`) writes for a
/// `str`: the text between double quotes, with the characters escaped that
/// the standard library escapes.
pub uninterp spec fn debug_quoted(text: Seq<char>) -> Seq<char>;

/// The standard library's `Debug` formatting of a `str`, by `format!` with
/// `{:?}`. Nothing is proved of it: the result is what [`debug_quoted`]
/// names, and no more is claimed.
#[verifier::external_body]
fn quote_debug(text: &str) -> (r: String)
    ensures
        r@ == debug_quoted(text@),
{
    format!("{:?}", text)
}

/// An error of the session service, as a mathematical value.
pub enum ErrorModel {
    BattleNotFound { battle_id: u128 },
    PlayerNotAuthorized { player_id: Seq<char> },
    InvalidAction { message: Seq<char> },
    InvalidBattleState { state: Seq<char> },
    DatabaseError { message: Seq<char> },
    StoreConflict { message: Seq<char> },
    ValidationError { message: Seq<char> },
    InternalError { message: Seq<char> },
    AuthRequired,
    BadRequest { message: Seq<char> },
}

impl ErrorModel {
    /// Whether the error is one of the session store: a database error or
    /// a store conflict.
    pub open spec fn from_the_store(self) -> bool {
        self is DatabaseError || self is StoreConflict
    }

    /// The HTTP status code that the error maps to.
    pub open spec fn status_code(self) -> u16 {
        match self {
            ErrorModel::BattleNotFound { .. } => 404,
            ErrorModel::PlayerNotAuthorized { .. } => 403,
            ErrorModel::InvalidAction { .. } => 400,
            ErrorModel::InvalidBattleState { .. } => 409,
            ErrorModel::DatabaseError { .. } => 500,
            ErrorModel::StoreConflict { .. } => 409,
            ErrorModel::ValidationError { .. } => 400,
            ErrorModel::InternalError { .. } => 500,
            ErrorModel::AuthRequired => 401,
            ErrorModel::BadRequest { .. } => 400,
        }
    }

    /// The error's code in responses.
    pub open spec fn error_code(self) -> Seq<char> {
        match self {
            ErrorModel::BattleNotFound { .. } => "BATTLE_NOT_FOUND"@,
            ErrorModel::PlayerNotAuthorized { .. } => "PLAYER_NOT_AUTHORIZED"@,
            ErrorModel::InvalidAction { .. } => "INVALID_ACTION"@,
            ErrorModel::InvalidBattleState { .. } => "INVALID_BATTLE_STATE"@,
            ErrorModel::DatabaseError { .. } => "DATABASE_ERROR"@,
            ErrorModel::StoreConflict { .. } => "STORE_CONFLICT"@,
            ErrorModel::ValidationError { .. } => "VALIDATION_ERROR"@,
            ErrorModel::InternalError { .. } => "INTERNAL_ERROR"@,
            ErrorModel::AuthRequired => "AUTH_REQUIRED"@,
            ErrorModel::BadRequest { .. } => "BAD_REQUEST"@,
        }
    }

    /// The error's message for a human reader.
    pub open spec fn message(self) -> Seq<char> {
        match self {
            ErrorModel::BattleNotFound { battle_id } => "Battle "@ + hyphenated(battle_id)
                + " not found"@,
            ErrorModel::PlayerNotAuthorized { player_id } => "Player "@ + player_id
                + " is not authorized for this battle"@,
            ErrorModel::InvalidAction { message } => "Invalid action: "@ + message,
            ErrorModel::InvalidBattleState { state } => "Battle is in state "@ + debug_quoted(
                state,
            ) + ", cannot accept actions"@,
            ErrorModel::DatabaseError { message } => "Database error: "@ + message,
            ErrorModel::StoreConflict { message } => "Store conflict: "@ + message,
            ErrorModel::ValidationError { message } => "Validation error: "@ + message,
            ErrorModel::InternalError { message } => "Internal server error: "@ + message,
            ErrorModel::AuthRequired => "Authentication required"@,
            ErrorModel::BadRequest { message } => "Invalid request format: "@ + message,
        }
    }

    /// The error as it is sent to a client.
    pub open spec fn to_response(self) -> ResponseModel {
        ResponseModel {
            error: self.error_code(),
            message: self.message(),
            status_code: self.status_code(),
        }
    }
}

/// Main error type of the session service, with HTTP status code mapping.
#[derive(Debug)]
pub enum ApiError {
    /// No session is stored under the identifier.
    BattleNotFound { battle_id: BattleId },
    /// The participant is not one of the two sides of the session.
    PlayerNotAuthorized { player_id: String },
    /// The action is not admissible in the current phase, or the resolution
    /// engine found it illegal.
    InvalidAction { message: String },
    /// The battle has ended and takes no further action.
    InvalidBattleState { state: String },
    /// The session store failed a read or a write.
    DatabaseError { message: String },
    /// The session store refused a conditional write: the record to create
    /// exists already, or the record to rewrite is gone or has been
    /// rewritten meanwhile.
    StoreConflict { message: String },
    /// A request to create a session is malformed.
    ValidationError { message: String },
    /// A defect: the driver hit its iteration ceiling, or the engine failed.
    InternalError { message: String },
    AuthRequired,
    BadRequest { message: String },
}

impl View for ApiError {
    type V = ErrorModel;

    open spec fn view(&self) -> ErrorModel {
        match self {
            ApiError::BattleNotFound { battle_id } => ErrorModel::BattleNotFound {
                battle_id: battle_id.0,
            },
            ApiError::PlayerNotAuthorized { player_id } => ErrorModel::PlayerNotAuthorized {
                player_id: player_id@,
            },
            ApiError::InvalidAction { message } => ErrorModel::InvalidAction { message: message@ },
            ApiError::InvalidBattleState { state } => ErrorModel::InvalidBattleState {
                state: state@,
            },
            ApiError::DatabaseError { message } => ErrorModel::DatabaseError { message: message@ },
            ApiError::StoreConflict { message } => ErrorModel::StoreConflict { message: message@ },
            ApiError::ValidationError { message } => ErrorModel::ValidationError {
                message: message@,
            },
            ApiError::InternalError { message } => ErrorModel::InternalError { message: message@ },
            ApiError::AuthRequired => ErrorModel::AuthRequired,
            ApiError::BadRequest { message } => ErrorModel::BadRequest { message: message@ },
        }
    }
}

impl DeepView for ApiError {
    type V = ErrorModel;

    open spec fn deep_view(&self) -> ErrorModel {
        self@
    }
}

/// An error response, as a mathematical value.
pub struct ResponseModel {
    pub error: Seq<char>,
    pub message: Seq<char>,
    pub status_code: u16,
}

/// API error response format.
#[derive(Debug)]
pub struct ApiErrorResponse {
    pub error: String,
    pub message: String,
    pub status_code: u16,
}

impl View for ApiErrorResponse {
    type V = ResponseModel;

    open spec fn view(&self) -> ResponseModel {
        ResponseModel {
            error: self.error@,
            message: self.message@,
            status_code: self.status_code,
        }
    }
}

impl ApiError {
    /// Get HTTP status code for this error.
    pub fn status_code(&self) -> (code: u16)
        ensures
            code == self@.status_code(),
    {
        match self {
            ApiError::BattleNotFound { .. } => 404,
            ApiError::PlayerNotAuthorized { .. } => 403,
            ApiError::InvalidAction { .. } => 400,
            ApiError::InvalidBattleState { .. } => 409,
            ApiError::DatabaseError { .. } => 500,
            ApiError::StoreConflict { .. } => 409,
            ApiError::ValidationError { .. } => 400,
            ApiError::InternalError { .. } => 500,
            ApiError::AuthRequired => 401,
            ApiError::BadRequest { .. } => 400,
        }
    }

    /// Get error code for API responses.
    pub fn error_code(&self) -> (code: &'static str)
        ensures
            code@ == self@.error_code(),
    {
        match self {
            ApiError::BattleNotFound { .. } => "BATTLE_NOT_FOUND",
            ApiError::PlayerNotAuthorized { .. } => "PLAYER_NOT_AUTHORIZED",
            ApiError::InvalidAction { .. } => "INVALID_ACTION",
            ApiError::InvalidBattleState { .. } => "INVALID_BATTLE_STATE",
            ApiError::DatabaseError { .. } => "DATABASE_ERROR",
            ApiError::StoreConflict { .. } => "STORE_CONFLICT",
            ApiError::ValidationError { .. } => "VALIDATION_ERROR",
            ApiError::InternalError { .. } => "INTERNAL_ERROR",
            ApiError::AuthRequired => "AUTH_REQUIRED",
            ApiError::BadRequest { .. } => "BAD_REQUEST",
        }
    }

    /// The message of this error for a human reader.
    pub fn to_string(&self) -> (text: String)
        ensures
            text@ == self@.message(),
    {
        match self {
            ApiError::BattleNotFound { battle_id } => {
                let id = battle_id.to_string();
                join3("Battle ", id.as_str(), " not found")
            },
            ApiError::PlayerNotAuthorized { player_id } => join3(
                "Player ",
                player_id.as_str(),
                " is not authorized for this battle",
            ),
            ApiError::InvalidAction { message } => String::from_str("Invalid action: ").concat(
                message.as_str(),
            ),
            ApiError::InvalidBattleState { state } => {
                let quoted = quote_debug(state.as_str());
                join3("Battle is in state ", quoted.as_str(), ", cannot accept actions")
            },
            ApiError::DatabaseError { message } => String::from_str("Database error: ").concat(
                message.as_str(),
            ),
            ApiError::StoreConflict { message } => String::from_str("Store conflict: ").concat(
                message.as_str(),
            ),
            ApiError::ValidationError { message } => String::from_str(
                "Validation error: ",
            ).concat(message.as_str()),
            ApiError::InternalError { message } => String::from_str(
                "Internal server error: ",
            ).concat(message.as_str()),
            ApiError::AuthRequired => String::from_str("Authentication required"),
            ApiError::BadRequest { message } => String::from_str(
                "Invalid request format: ",
            ).concat(message.as_str()),
        }
    }

    /// Convert to API response format.
    pub fn to_response(&self) -> (response: ApiErrorResponse)
        ensures
            response@ == self@.to_response(),
    {
        ApiErrorResponse {
            error: String::from_str(self.error_code()),
            message: self.to_string(),
            status_code: self.status_code(),
        }
    }

    /// The error for a session that is not stored.
    pub fn battle_not_found(battle_id: BattleId) -> (e: Self)
        ensures
            e@ == (ErrorModel::BattleNotFound { battle_id: battle_id.0 }),
    {
        ApiError::BattleNotFound { battle_id }
    }

    /// The error for a participant that is not a side of the session.
    pub fn player_not_authorized(player_id: &PlayerId) -> (e: Self)
        ensures
            e@ == (ErrorModel::PlayerNotAuthorized { player_id: player_id@ }),
    {
        ApiError::PlayerNotAuthorized { player_id: player_id.0.clone() }
    }

    /// The error for an action that is not admitted.
    pub fn invalid_action(message: &str) -> (e: Self)
        ensures
            e@ == (ErrorModel::InvalidAction { message: message@ }),
    {
        ApiError::InvalidAction { message: String::from_str(message) }
    }

    /// The error for a malformed request to create a session.
    pub fn validation_error(message: &str) -> (e: Self)
        ensures
            e@ == (ErrorModel::ValidationError { message: message@ }),
    {
        ApiError::ValidationError { message: String::from_str(message) }
    }

    /// The error for a request that cannot be read.
    pub fn bad_request(message: &str) -> (e: Self)
        ensures
            e@ == (ErrorModel::BadRequest { message: message@ }),
    {
        ApiError::BadRequest { message: String::from_str(message) }
    }
}

/// A result whose error is taken by its view.
pub open spec fn outcome<T>(r: Result<T, ApiError>) -> Result<T, ErrorModel> {
    match r {
        Ok(v) => Ok(v),
        Err(e) => Err(e@),
    }
}

} // verus!
