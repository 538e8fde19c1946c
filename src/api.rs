//! The envelopes in which results and errors are handed to callers, the
//! request and token records, and the net-worth figures.
use crate::money::{decimal_product, decimal_sum, Money};
use vstd::prelude::*;

verus! {

/// A successful reply: the data, with an optional message.
pub struct ApiResponse<T> {
    pub success: bool,
    pub data: T,
    pub message: Option<String>,
}

impl<T> ApiResponse<T> {
    /// A reply that reports success.
    pub fn success(data: T, message: Option<String>) -> (r: Self)
        ensures
            r.success,
            r.data == data,
            r.message == message,
    {
        ApiResponse { success: true, data, message }
    }
}

/// One error of an error reply: a stable code and a message.
pub struct ErrorDetail {
    pub code: String,
    pub message: String,
}

/// An error reply.
pub struct ErrorResponse {
    pub success: bool,
    pub errors: Vec<ErrorDetail>,
}

/// The errors that callers see.
#[derive(Debug)]
pub enum AppError {
    /// The store failed; the detail is kept out of replies.
    DatabaseError(String),
    ValidationError(String),
    AuthError(String),
    NotFoundError(String),
    InternalServerError(String),
}

/// The HTTP status, the code and the message that a reply gives for an
/// error. A store failure shows a generic message only.
pub open spec fn error_parts(e: AppError) -> (u16, Seq<char>, Seq<char>) {
    match e {
        AppError::DatabaseError(_) => (500, "DB-500"@, "Internal Server Error"@),
        AppError::ValidationError(m) => (400, "VAL-400"@, m@),
        AppError::AuthError(m) => (401, "AUTH-401"@, m@),
        AppError::NotFoundError(m) => (404, "NOT-404"@, m@),
        AppError::InternalServerError(m) => (500, "INT-500"@, m@),
    }
}

impl AppError {
    /// The HTTP status and the body of the reply for this error: one error
    /// detail, and `success` false.
    pub fn into_reply(self) -> (r: (u16, ErrorResponse))
        ensures
            r.0 == error_parts(self).0,
            !r.1.success,
            r.1.errors@.len() == 1,
            r.1.errors@[0].code@ == error_parts(self).1,
            r.1.errors@[0].message@ == error_parts(self).2,
    {
        let (status, code, message) = match self {
            AppError::DatabaseError(_) => (
                500u16,
                "DB-500".to_owned(),
                "Internal Server Error".to_owned(),
            ),
            AppError::ValidationError(msg) => (400u16, "VAL-400".to_owned(), msg),
            AppError::AuthError(msg) => (401u16, "AUTH-401".to_owned(), msg),
            AppError::NotFoundError(msg) => (404u16, "NOT-404".to_owned(), msg),
            AppError::InternalServerError(msg) => (500u16, "INT-500".to_owned(), msg),
        };
        let mut errors: Vec<ErrorDetail> = Vec::new();
        errors.push(ErrorDetail { code, message });
        (status, ErrorResponse { success: false, errors })
    }
}

/// The claims of a session token.
pub struct Claims {
    /// The user's identifier.
    pub sub: String,
    pub company: String,
    /// Expiry, in seconds since the epoch.
    pub exp: usize,
}

pub struct RegisterRequest {
    pub username: String,
    pub email: String,
    pub password: String,
    pub base_currency: String,
}

pub struct LoginRequest {
    pub email: String,
    pub password: String,
}

pub struct AuthResponse {
    pub token: String,
    pub message: String,
}

pub struct UpdateCurrency {
    pub base_currency: String,
}

/// A user's net worth in the base currency.
pub struct FinancialHealth {
    pub cash_balance: Money,
    pub investment_balance: Money,
    pub total_net_worth: Money,
}

/// Net worth from the cash balance and the invested amount in USD, with
/// `rate` converting USD into the base currency: the investments are
/// converted, then added to the cash. `None` where the decimal arithmetic
/// overflows.
pub fn financial_health(cash: Money, invested_usd: Money, rate: Money) -> (r: Option<
    FinancialHealth,
>)
    ensures
        r is Some <==> (decimal_product(invested_usd, rate) matches Some(i) && decimal_sum(
            cash,
            i,
        ) is Some),
        r matches Some(h) ==> {
            &&& h.cash_balance == cash
            &&& decimal_product(invested_usd, rate) == Some(h.investment_balance)
            &&& decimal_sum(cash, h.investment_balance) == Some(h.total_net_worth)
        },
{
    let invested = match invested_usd.checked_mul(&rate) {
        Some(v) => v,
        None => return None,
    };
    let net_worth = match cash.checked_add(&invested) {
        Some(v) => v,
        None => return None,
    };
    Some(
        FinancialHealth {
            cash_balance: cash,
            investment_balance: invested,
            total_net_worth: net_worth,
        },
    )
}

} // verus!
