pub mod get_current_user;
pub mod login;
pub mod logout;

pub use get_current_user::{CurrentUserResponse, GetCurrentUserUseCase, UserDetail};
pub use login::{LoginResponse, LoginUseCase, UserSummary};
pub use logout::LogoutUseCase;
