//! Session-authentication core for a single-slot login portal.
//!
//! The library owns a fixed credential directory, a single mutable session
//! slot, and the three operations a host process exposes to its presentation
//! layer: authenticate, end-session and query-session. Every operation's
//! observable behaviour is stated in its contract and proved; a lock-guarded
//! facade makes the core safe to share between concurrent callers.

pub mod auth;
pub mod directory;
pub mod portal;
pub mod service;
pub mod session;
pub mod types;

pub use auth::AuthCore;
pub use directory::CredentialDirectory;
pub use portal::AuthPortal;
pub use service::AuthService;
pub use session::SessionStore;
pub use types::LoginRequest;
pub use types::LoginResponse;
pub use types::UserInfo;
