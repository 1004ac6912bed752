pub mod data_stores;
pub mod email;
pub mod error;
pub mod password;
pub mod two_fa;
pub mod user;

pub use data_stores::BannedTokenStore;
pub use data_stores::BannedTokenStoreError;
pub use data_stores::EmailClient;
pub use data_stores::TwoFACodeStore;
pub use data_stores::TwoFACodeStoreError;
pub use data_stores::UserStore;
pub use data_stores::UserStoreError;
pub use email::Email;
pub use error::AuthAPIError;
pub use error::ErrorResponse;
pub use password::Password;
pub use two_fa::LoginAttemptId;
pub use two_fa::TwoFACode;
pub use user::User;
