//! The user module's plain request types.
use vstd::prelude::*;

verus! {

/// Sign-in by student id and password.
#[derive(Debug)]
pub struct LoginRequest {
    pub student_id: String,
    pub password: String,
}

/// A new account.
#[derive(Debug)]
pub struct RegisterRequest {
    pub student_id: String,
    pub password: String,
    pub name: String,
    pub college: String,
    pub major: String,
    pub phone: String,
}

/// A password change.
#[derive(Debug)]
pub struct ChangePasswordRequest {
    pub old_password: String,
    pub new_password: String,
}

/// A partial change to a user's profile.
#[derive(Debug)]
pub struct UpdateUserProfile {
    pub name: Option<String>,
    pub avatar_url: Option<String>,
    pub bio: Option<String>,
    pub phone: Option<String>,
    pub email: Option<String>,
    pub wechat_id: Option<String>,
    pub setting_theme: Option<String>,
    pub setting_privacy_course: Option<String>,
    pub setting_notification_switch: Option<bool>,
}

} // verus!
