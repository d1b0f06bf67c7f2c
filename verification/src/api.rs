//! The request flows: registration, login, logout, email verification,
//! password reset, session check and refresh, the counter endpoints and the
//! admin actions — each a function from the store, the request payload and
//! the clock to a typed response, with auth extraction in front.

pub mod auth_extractor;
pub mod utils;
pub mod health;
pub mod counter;
pub mod logout;
pub mod login;
pub mod register;
pub mod verify_email;
pub mod password_reset;
pub mod auth;
pub mod admin;

pub use auth_extractor::AuthenticatedUser;
pub use auth_extractor::AdminUser;
pub use auth_extractor::AdminRejection;
pub use auth_extractor::authenticate;
pub use auth_extractor::authenticate_admin;
pub use utils::SessionCookie;
pub use utils::SameSite;
pub use utils::create_session_cookie;
pub use health::health_check;
pub use counter::get_counter;
pub use counter::set_counter;
pub use logout::logout_user;
pub use login::login_user;
pub use register::register_user;
pub use register::PendingRegistration;
pub use verify_email::verify_email;
pub use password_reset::request_password_reset;
pub use password_reset::complete_password_reset;
pub use password_reset::ResetEmailJob;
pub use auth::auth_check;
pub use auth::refresh_session;
