//! Capture subsystem for an OAuth authorization flow driven through the
//! system browser: a local callback listener's route logic, the shared slot
//! that holds at most one captured callback value, and the lifecycle
//! operations the host calls around them.

pub mod controller;
pub mod deep_link;
pub mod json;
pub mod routes;
pub mod slot;
pub mod tasks;
pub mod urls;

pub use controller::get_oauth_result;
pub use controller::open_oauth_url;
pub use controller::start_oauth_server;
pub use controller::stop_oauth_server;
pub use controller::OAuthError;
pub use slot::CaptureSlot;
pub use urls::OAUTH_PORT;
