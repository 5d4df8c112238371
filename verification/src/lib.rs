//! Client-side authentication core: token lifecycle, storage model,
//! error classification, and the authenticated-request state machine.

pub mod error;
pub mod http;
pub mod ops;
pub mod request;
pub mod storage;
pub mod token;
pub mod user;

pub use error::{AuthError, AuthErrorBody, AuthErrorType};
pub use http::{ClientConfig, Method, OutRequest, RequestBody, ResponseParts};
pub use request::{AuthRequest, SendState};
pub use storage::AuthStorage;
pub use token::AuthToken;
pub use user::{LoginUser, RegisterUser, ResetUser, UserInfo};
