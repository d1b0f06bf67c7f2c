//! The page and component view models: class selection, local form checks
//! and the reaction to each call outcome.

use authcore::ui;
use authcore::ui::DashboardAction;
use authcore::ui::DashboardFetchError;
use authcore::ui::PageAction;
use authcore::ui::Route;
use authcore::ui::VerifyEmailView;
use authcore::api::create_session_cookie;
use authcore::api::utils;
use authcore::api::SameSite;
use authcore::api_types::FieldType;
use authcore::api_types::ValidationErrorCode;
use authcore::api_types::ValidationErrorData;
use authcore::api_types::ValidationFieldError;

#[test]
fn auth_layout_frames_title_and_back_link() {
    let v = ui::AuthLayout("Sign in to your account".to_string());
    assert_eq!(v.title, "Sign in to your account");
    assert_eq!(v.back_label, "Back to Home");
    assert_eq!(v.back_to, Route::Home);
}

#[test]
fn back_button_passes_its_props_through() {
    let v = ui::BackButton(ui::BackButtonProps {
        label: "Back to Login".to_string(),
        to: Route::Login,
    });
    assert_eq!(v.label, "Back to Login");
    assert_eq!(v.to, Route::Login);
}

#[test]
fn button_class_defaults_only_when_empty() {
    let default = ui::Button(ui::ButtonProps {
        button_type: "submit".to_string(),
        class: String::new(),
    });
    assert_eq!(default.class, ui::BUTTON_BASE_CLASS);
    assert_eq!(default.button_type, "submit");
    let custom = ui::Button(ui::ButtonProps {
        button_type: "button".to_string(),
        class: "my-class".to_string(),
    });
    assert_eq!(custom.class, "my-class");
}

#[test]
fn link_button_appends_extra_classes() {
    let default = ui::LinkButton(ui::LinkButtonProps { class: String::new(), to: Route::Login });
    assert_eq!(default.class, ui::LINK_BUTTON_BASE_CLASS);
    let custom = ui::LinkButton(ui::LinkButtonProps {
        class: "mt-6".to_string(),
        to: Route::Register,
    });
    assert_eq!(custom.class, format!("{} {}", ui::LINK_BUTTON_BASE_CLASS, "mt-6"));
    assert_eq!(custom.to, Route::Register);
}

#[test]
fn text_input_border_follows_the_error() {
    let plain = ui::TextInput(
        "Username".to_string(),
        "alice".to_string(),
        "text".to_string(),
        None,
        true,
        String::new(),
    );
    assert_eq!(plain.border_class, ui::INPUT_NORMAL_BORDER);
    let failed = ui::TextInput(
        "Username".to_string(),
        "a".to_string(),
        "text".to_string(),
        Some("too short".to_string()),
        true,
        String::new(),
    );
    assert_eq!(failed.border_class, ui::INPUT_ERROR_BORDER);
    assert_eq!(failed.error, Some("too short".to_string()));
}

#[test]
fn login_page_reacts_to_each_outcome() {
    let user = "alice".to_string();
    let pass = "P@ssw0rd1".to_string();
    let idle = ui::Login(&user, &pass, None);
    assert_eq!(idle.action, PageAction::AwaitInput);
    assert_eq!(idle.data.username, "alice");
    assert_eq!(idle.data.password, "P@ssw0rd1");
    let ok: Result<ui::LoginResponse, String> = Ok(ui::LoginResponse {
        username: "alice".to_string(),
        redirect_url: "/dashboard".to_string(),
    });
    assert_eq!(ui::Login(&user, &pass, Some(&ok)).action, PageAction::Navigate(Route::Home));
    let err: Result<ui::LoginResponse, String> = Err("Invalid credentials".to_string());
    assert_eq!(
        ui::Login(&user, &pass, Some(&err)).action,
        PageAction::ShowError("Invalid credentials".to_string())
    );
}

#[test]
fn register_page_checks_the_confirmation_itself() {
    let u = "alice".to_string();
    let e = "alice@x.com".to_string();
    let p = "P@ssw0rd1".to_string();
    let mismatch = "different".to_string();
    let v = ui::Register(&u, &e, &p, &mismatch, None, None, None, None);
    assert_eq!(v.confirm_password_error, Some("Passwords do not match".to_string()));
    assert!(!v.can_submit);
    let ok = ui::Register(&u, &e, &p, &p, None, None, None, None);
    assert_eq!(ok.confirm_password_error, None);
    assert!(ok.can_submit);
    let vetoed = ui::Register(&u, &e, &p, &p, Some(&"bad".to_string()), None, None, None);
    assert!(!vetoed.can_submit);
    let done: Result<(), String> = Ok(());
    assert_eq!(
        ui::Register(&u, &e, &p, &p, None, None, None, Some(&done)).action,
        PageAction::Navigate(Route::Login)
    );
}

#[test]
fn verify_email_page_needs_a_token() {
    let empty = String::new();
    assert_eq!(
        ui::VerifyEmail(&empty, None),
        VerifyEmailView::Failed("No verification token provided".to_string())
    );
    let token = "deadbeef".to_string();
    assert_eq!(ui::VerifyEmail(&token, None), VerifyEmailView::Pending);
    let ok: Result<(), String> = Ok(());
    assert_eq!(ui::VerifyEmail(&token, Some(&ok)), VerifyEmailView::Verified);
    let err: Result<(), String> = Err("Token expired".to_string());
    assert_eq!(
        ui::VerifyEmail(&token, Some(&err)),
        VerifyEmailView::Failed("Token expired".to_string())
    );
}

#[test]
fn forgot_password_page_stays_generic_on_failure() {
    let empty = String::new();
    let v = ui::ForgotPassword(&empty, None);
    assert!(v.data.is_none());
    assert_eq!(
        v.action,
        PageAction::ShowError("Please enter your email or username".to_string())
    );
    let ident = "alice@x.com".to_string();
    let sent: Result<(), String> = Ok(());
    let ok = ui::ForgotPassword(&ident, Some(&sent));
    assert_eq!(ok.data.unwrap().identifier, "alice@x.com");
    assert_eq!(
        ok.action,
        PageAction::ShowMessage(
            "If an account exists with that email/username, a password reset link has been sent."
                .to_string()
        )
    );
    // whatever the transport said, the shown error reveals nothing
    let failed: Result<(), String> = Err("user ghost@x.com does not exist".to_string());
    let v2 = ui::ForgotPassword(&ident, Some(&failed));
    assert_eq!(
        v2.action,
        PageAction::ShowError("An error occurred. Please try again later.".to_string())
    );
}

#[test]
fn reset_password_page_checks_in_order() {
    let empty = String::new();
    let token = "tok".to_string();
    let short = "short".to_string();
    let good = "longenough".to_string();
    let other = "different-pw".to_string();
    let v1 = ui::ResetPassword(&empty, &good, &good, None);
    assert_eq!(v1.action, PageAction::ShowError("Invalid or missing reset token".to_string()));
    let v2 = ui::ResetPassword(&token, &short, &short, None);
    assert_eq!(
        v2.action,
        PageAction::ShowError("Password must be at least 8 characters long".to_string())
    );
    let v3 = ui::ResetPassword(&token, &good, &other, None);
    assert_eq!(v3.action, PageAction::ShowError("Passwords do not match".to_string()));
    let v4 = ui::ResetPassword(&token, &good, &good, None);
    assert_eq!(v4.action, PageAction::AwaitInput);
    let d = v4.data.unwrap();
    assert_eq!(d.token, "tok");
    assert_eq!(d.new_password, "longenough");
    let done: Result<(), String> = Ok(());
    assert_eq!(ui::ResetPassword(&token, &good, &good, Some(&done)).action, PageAction::Success);
}

#[test]
fn dashboard_reacts_to_fetch_and_offers_increment() {
    let idle = ui::Dashboard(41, None);
    assert_eq!(idle.next_counter, 42);
    assert_eq!(idle.action, DashboardAction::Idle);
    let fetched: Result<i64, DashboardFetchError> = Ok(7);
    assert_eq!(ui::Dashboard(0, Some(&fetched)).action, DashboardAction::SetCounter(7));
    let lost: Result<i64, DashboardFetchError> = Err(DashboardFetchError::NotAuthenticated);
    assert_eq!(ui::Dashboard(0, Some(&lost)).action, DashboardAction::GoLogin);
    let broke: Result<i64, DashboardFetchError> =
        Err(DashboardFetchError::Other("boom".to_string()));
    assert_eq!(
        ui::Dashboard(0, Some(&broke)).action,
        DashboardAction::ShowError("boom".to_string())
    );
}

#[test]
fn blog_links_its_neighbours() {
    let v = ui::Blog(5);
    assert_eq!(v.id, 5);
    assert_eq!(v.prev, 4);
    assert_eq!(v.next, 6);
}

#[test]
fn validation_data_aggregates_field_verdicts() {
    let clean = ValidationFieldError::new(FieldType::Email);
    assert!(clean.is_valid());
    let mut dirty = ValidationFieldError::new(FieldType::Password);
    dirty.add_error(ValidationErrorCode::TooFewDigits);
    dirty.add_error(ValidationErrorCode::TooShort);
    assert!(!dirty.is_valid());
    assert_eq!(dirty.errors.len(), 2);
    let all = ValidationErrorData::from_errors(vec![clean.clone(), dirty.clone()]);
    assert!(!all.is_valid());
    let fine = ValidationErrorData::from_errors(vec![clean]);
    assert!(fine.is_valid());
    assert!(ValidationErrorData::new().is_valid());
}

#[test]
fn session_cookie_attributes() {
    let prod = create_session_cookie("value".to_string(), Some(777), false);
    assert_eq!(prod.name, "session_token");
    assert_eq!(prod.value, "value");
    assert_eq!(prod.path, "/");
    assert!(prod.http_only);
    assert!(prod.secure);
    assert_eq!(prod.same_site, SameSite::Lax);
    assert_eq!(prod.expires_at, Some(777));
    let dev = create_session_cookie("v".to_string(), None, true);
    assert!(!dev.secure);
    assert_eq!(dev.expires_at, None);
}

#[test]
fn links_are_built_verbatim() {
    assert_eq!(
        utils::verification_link(utils::BASE_URL_DEV, "abc123"),
        "http://localhost:4000/verify-email?token=abc123"
    );
    assert_eq!(
        utils::reset_link(utils::BASE_URL_PROD, "t0k"),
        "https://example.com/reset-password?token=t0k"
    );
}
