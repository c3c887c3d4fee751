//! A minimal user-registration service, verified: a bounded connection
//! pool, a unified error taxonomy rendered as HTTP responses, signup-form
//! validation, an in-memory user store behind the query interface, and a
//! pure HTML renderer for the user list, tied together by the two request
//! handlers.

mod config;
mod errors;
pub mod handlers;
mod numbers;
mod pool;
mod response;
mod storage;
pub mod users;
mod validation;

pub use config::Config;
pub use errors::{CustomError, PoolError, StorageError};
pub use numbers::{
    dec_rep, dec_value, digit_char, digit_val, is_decimal_digit, lemma_dec_rep_reads_back,
    u64_to_string,
};
pub use pool::{lemma_pool_never_over_capacity, pool_exhausted_message, Connection, Pool};
pub use response::HttpResponse;
pub use storage::{
    duplicate_email_message, ids_exhausted_message, views_of, Storage, User, UserRecord,
    UserRecordView, UserView,
};
pub use validation::{email_ok, validate, SignUp, ValidationError};
