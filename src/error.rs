use vstd::prelude::*;

verus! {

/// The error conditions of the service.
#[derive(Clone, Debug, PartialEq, Eq)]
pub enum PaymeError {
    /// The store failed; carries its message.
    Database(String),
    /// A request field is malformed; carries the field's name.
    Validation(String),
    /// The month, category or row is absent or owned by someone else.
    NotFound,
    /// The caller is not authenticated.
    Unauthorized,
    /// The request cannot be served as asked.
    BadRequest(String),
    /// Rendering or storing failed.
    Internal(String),
    /// The month is already closed, or a row that must be unique exists.
    Conflict,
    /// A row of a closed month was to be changed.
    MonthClosed,
}

impl PaymeError {
    /// The HTTP status that reports this error.
    pub open spec fn spec_status_code(&self) -> u16 {
        match self {
            PaymeError::Database(_) => 500,
            PaymeError::Validation(_) => 400,
            PaymeError::NotFound => 404,
            PaymeError::Unauthorized => 401,
            PaymeError::BadRequest(_) => 400,
            PaymeError::Internal(_) => 500,
            PaymeError::Conflict => 409,
            PaymeError::MonthClosed => 400,
        }
    }

    /// The HTTP status that reports this error.
    pub fn status_code(&self) -> (r: u16)
        ensures
            r == self.spec_status_code(),
    {
        match self {
            PaymeError::Database(_) => 500,
            PaymeError::Validation(_) => 400,
            PaymeError::NotFound => 404,
            PaymeError::Unauthorized => 401,
            PaymeError::BadRequest(_) => 400,
            PaymeError::Internal(_) => 500,
            PaymeError::Conflict => 409,
            PaymeError::MonthClosed => 400,
        }
    }

    /// The human-readable text of this error.
    pub fn message(&self) -> (r: String)
        ensures
            match self {
                PaymeError::Database(m) => r@ == "Database error: "@ + m@,
                PaymeError::Validation(m) => r@ == "Validation error: "@ + m@,
                PaymeError::NotFound => r@ == "Not found"@,
                PaymeError::Unauthorized => r@ == "Unauthorized"@,
                PaymeError::BadRequest(m) => r@ == "Bad request: "@ + m@,
                PaymeError::Internal(m) => r@ == "Internal error: "@ + m@,
                PaymeError::Conflict => r@ == "Conflict"@,
                PaymeError::MonthClosed => r@ == "Month is closed"@,
            },
    {
        match self {
            PaymeError::Database(m) => String::from_str("Database error: ").concat(m.as_str()),
            PaymeError::Validation(m) => String::from_str("Validation error: ").concat(m.as_str()),
            PaymeError::NotFound => String::from_str("Not found"),
            PaymeError::Unauthorized => String::from_str("Unauthorized"),
            PaymeError::BadRequest(m) => String::from_str("Bad request: ").concat(m.as_str()),
            PaymeError::Internal(m) => String::from_str("Internal error: ").concat(m.as_str()),
            PaymeError::Conflict => String::from_str("Conflict"),
            PaymeError::MonthClosed => String::from_str("Month is closed"),
        }
    }
}

} // verus!
