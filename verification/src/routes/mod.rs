pub mod login;
pub mod logout;
pub mod signup;
pub mod verify_2fa;
pub mod verify_token;

pub use login::login;
pub use login::LoginRequest;
pub use login::LoginResponse;
pub use login::TwoFactorAuthResponse;
pub use logout::logout;
pub use signup::signup;
pub use signup::SignupRequest;
pub use signup::SignupResponse;
pub use verify_2fa::verify_2fa;
pub use verify_2fa::Verify2FARequest;
pub use verify_token::verify_token;
pub use verify_token::VerifyTokenRequest;
