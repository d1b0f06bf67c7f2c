//! The view models of the frontend pages and components. Each page
//! function is the pure half of a component: it takes the form state and
//! the latest outcome of the page's API call, and decides what to render
//! and what to do next — the rendering shell and the network calls stay
//! outside. Field-validation messages arrive as inputs; only the
//! confirm-password comparison is decided here.

use vstd::prelude::*;
use crate::db::str_eq;

verus! {

/// The routes of the frontend.
#[derive(Clone, Debug, PartialEq)]
pub enum Route {
    Home,
    Login,
    Register,
    VerifyEmail { token: String },
    ForgotPassword,
    ResetPassword { token: String },
    Dashboard,
    Blog { id: i32 },
}

/// Registration form data, as the register call sends it.
#[derive(Clone, Debug, PartialEq)]
pub struct RegistrationData {
    pub username: String,
    pub email: String,
    pub password: String,
}

/// Login form data, as the login call sends it.
#[derive(Clone, Debug, PartialEq)]
pub struct LoginData {
    pub username: String,
    pub password: String,
}

/// What the login call answers on success.
#[derive(Clone, Debug, PartialEq)]
pub struct LoginResponse {
    pub username: String,
    pub redirect_url: String,
}

/// A field validation message set, as pages display it.
#[derive(Clone, Debug, PartialEq)]
pub struct ValidationData {
    pub field_type: String,
    pub messages: Vec<String>,
}

/// Reset request data: the email or username to reset.
#[derive(Clone, Debug, PartialEq)]
pub struct ResetRequestData {
    pub identifier: String,
}

/// Reset completion data: the token from the link and the new password.
#[derive(Clone, Debug, PartialEq)]
pub struct ResetPasswordData {
    pub token: String,
    pub new_password: String,
}

/// What a page does after an event: keep showing the form, go somewhere,
/// show a message, show an error, or stand in its success state.
#[derive(Clone, Debug, PartialEq)]
pub enum PageAction {
    AwaitInput,
    Navigate(Route),
    ShowMessage(String),
    ShowError(String),
    Success,
}

// ---------------------------------------------------------------------------
// Components
// ---------------------------------------------------------------------------

/// Base class of the primary button.
pub const BUTTON_BASE_CLASS: &'static str =
    "w-full flex justify-center py-2 px-4 border border-transparent rounded-md shadow-sm text-sm font-medium text-white bg-indigo-600 hover:bg-indigo-700 dark:bg-indigo-600 dark:hover:bg-indigo-700 focus:outline-none focus:ring-2 focus:ring-offset-2 focus:ring-indigo-500";

/// Base class of the link button.
pub const LINK_BUTTON_BASE_CLASS: &'static str =
    "w-full flex justify-center py-2 px-4 border border-transparent rounded-md shadow-sm text-sm font-medium text-primary-600 bg-primary-50 hover:bg-primary-100";

/// Border classes of a text input with a validation error.
pub const INPUT_ERROR_BORDER: &'static str =
    "border-red-500 text-red-900 placeholder-red-400 bg-red-50 focus:ring-red-500 focus:border-red-500";

/// Border classes of a text input without one.
pub const INPUT_NORMAL_BORDER: &'static str =
    "border-neutral-300 dark:border-neutral-700 placeholder-neutral-400 dark:placeholder-neutral-500 focus:ring-indigo-500 focus:border-indigo-500";

/// What the auth layout frames around a page: the title, and the back link
/// it always offers.
pub struct AuthLayoutView {
    pub title: String,
    pub back_label: String,
    pub back_to: Route,
}

/// The auth layout: the given title over the page, with a back link to the
/// home page underneath.
#[allow(non_snake_case)]
pub fn AuthLayout(title: String) -> (v: AuthLayoutView)
    ensures
        v.title == title,
        v.back_label@ == "Back to Home"@,
        v.back_to == Route::Home,
{
    AuthLayoutView { title, back_label: "Back to Home".to_owned(), back_to: Route::Home }
}

/// The back button's inputs.
pub struct BackButtonProps {
    pub label: String,
    pub to: Route,
}

/// What the back button renders.
pub struct BackButtonView {
    pub label: String,
    pub to: Route,
}

/// The back button: a link with the given label to the given route.
#[allow(non_snake_case)]
pub fn BackButton(props: BackButtonProps) -> (v: BackButtonView)
    ensures
        v.label == props.label,
        v.to == props.to,
{
    BackButtonView { label: props.label, to: props.to }
}

/// The primary button's inputs. An empty class keeps the default styling.
pub struct ButtonProps {
    pub button_type: String,
    pub class: String,
}

/// What the primary button renders.
pub struct ButtonView {
    pub button_type: String,
    pub class: String,
}

/// The primary button: the default class when none was given, otherwise
/// exactly the given one.
#[allow(non_snake_case)]
pub fn Button(props: ButtonProps) -> (v: ButtonView)
    ensures
        v.button_type == props.button_type,
        props.class@.len() == 0 ==> v.class@ == BUTTON_BASE_CLASS@,
        props.class@.len() > 0 ==> v.class == props.class,
{
    let class = if props.class.as_str().is_empty() {
        BUTTON_BASE_CLASS.to_owned()
    } else {
        props.class
    };
    ButtonView { button_type: props.button_type, class }
}

/// The link button's inputs. A non-empty class is appended to the default.
pub struct LinkButtonProps {
    pub class: String,
    pub to: Route,
}

/// What the link button renders.
pub struct LinkButtonView {
    pub class: String,
    pub to: Route,
}

/// The link button: the default class alone when none was given, otherwise
/// the default with the given one appended after a space.
#[allow(non_snake_case)]
pub fn LinkButton(props: LinkButtonProps) -> (v: LinkButtonView)
    ensures
        v.to == props.to,
        props.class@.len() == 0 ==> v.class@ == LINK_BUTTON_BASE_CLASS@,
        props.class@.len() > 0 ==> v.class@ == LINK_BUTTON_BASE_CLASS@ + " "@ + props.class@,
{
    let class = if props.class.as_str().is_empty() {
        LINK_BUTTON_BASE_CLASS.to_owned()
    } else {
        let mut out = LINK_BUTTON_BASE_CLASS.to_owned();
        out.append(" ");
        out.append(props.class.as_str());
        out
    };
    LinkButtonView { class, to: props.to }
}

/// What a text input renders: its label, value and attributes, and the
/// border class chosen by whether a validation error is shown.
pub struct TextInputView {
    pub label: String,
    pub value: String,
    pub input_type: String,
    pub error: Option<String>,
    pub required: bool,
    pub placeholder: String,
    pub border_class: String,
}

/// The text input: error styling exactly when an error message is shown.
#[allow(non_snake_case)]
pub fn TextInput(
    label: String,
    value: String,
    input_type: String,
    error: Option<String>,
    required: bool,
    placeholder: String,
) -> (v: TextInputView)
    ensures
        v.label == label,
        v.value == value,
        v.input_type == input_type,
        v.error == error,
        v.required == required,
        v.placeholder == placeholder,
        error is Some ==> v.border_class@ == INPUT_ERROR_BORDER@,
        error is None ==> v.border_class@ == INPUT_NORMAL_BORDER@,
{
    let border_class = match &error {
        Some(_) => INPUT_ERROR_BORDER.to_owned(),
        None => INPUT_NORMAL_BORDER.to_owned(),
    };
    TextInputView { label, value, input_type, error, required, placeholder, border_class }
}

// ---------------------------------------------------------------------------
// Pages
// ---------------------------------------------------------------------------

/// What the login page renders and does.
pub struct LoginView {
    pub data: LoginData,
    pub action: PageAction,
}

/// The login page: the form data a submit would send, and the reaction to
/// the latest call — home on success, the error message on failure.
#[allow(non_snake_case)]
pub fn Login(username: &String, password: &String, outcome: Option<&Result<LoginResponse, String>>)
    -> (v: LoginView)
    ensures
        v.data.username@ == username@,
        v.data.password@ == password@,
        outcome is None ==> v.action == PageAction::AwaitInput,
        outcome matches Some(o) ==> match o {
            Ok(_) => v.action == PageAction::Navigate(Route::Home),
            Err(e) => v.action matches PageAction::ShowError(m) && m@ == e@,
        },
{
    let action = match outcome {
        None => PageAction::AwaitInput,
        Some(Ok(_)) => PageAction::Navigate(Route::Home),
        Some(Err(e)) => PageAction::ShowError(e.clone()),
    };
    LoginView {
        data: LoginData { username: username.clone(), password: password.clone() },
        action,
    }
}

/// What the register page renders and does.
pub struct RegisterView {
    /// The page's own check: set exactly when the two passwords differ.
    pub confirm_password_error: Option<String>,
    /// All four fields pass: the three validator verdicts and the match.
    pub can_submit: bool,
    pub data: RegistrationData,
    pub action: PageAction,
}

/// The register page. The three field messages come from the validator
/// outside; the confirm-password comparison is this page's own check. A
/// submit is only offered when all four pass; success navigates to the
/// login page.
#[allow(non_snake_case)]
pub fn Register(
    username: &String,
    email: &String,
    password: &String,
    confirm_password: &String,
    username_error: Option<&String>,
    email_error: Option<&String>,
    password_error: Option<&String>,
    outcome: Option<&Result<(), String>>,
) -> (v: RegisterView)
    ensures
        password@ == confirm_password@ ==> v.confirm_password_error is None,
        password@ != confirm_password@ ==> (v.confirm_password_error matches Some(m) && m@
            == "Passwords do not match"@),
        v.can_submit == (username_error is None && email_error is None && password_error is None
            && password@ == confirm_password@),
        v.data.username@ == username@,
        v.data.email@ == email@,
        v.data.password@ == password@,
        outcome is None ==> v.action == PageAction::AwaitInput,
        outcome matches Some(o) ==> match o {
            Ok(_) => v.action == PageAction::Navigate(Route::Login),
            Err(e) => v.action matches PageAction::ShowError(m) && m@ == e@,
        },
{
    let passwords_match = str_eq(password.as_str(), confirm_password.as_str());
    let confirm_password_error = if passwords_match {
        None
    } else {
        Some("Passwords do not match".to_owned())
    };
    let can_submit = match (username_error, email_error, password_error) {
        (None, None, None) => passwords_match,
        _ => false,
    };
    let action = match outcome {
        None => PageAction::AwaitInput,
        Some(Ok(_)) => PageAction::Navigate(Route::Login),
        Some(Err(e)) => PageAction::ShowError(e.clone()),
    };
    RegisterView {
        confirm_password_error,
        can_submit,
        data: RegistrationData {
            username: username.clone(),
            email: email.clone(),
            password: password.clone(),
        },
        action,
    }
}

/// What the verify-email page shows: still waiting, verified, or failed
/// with a message.
#[derive(Clone, Debug, PartialEq)]
pub enum VerifyEmailView {
    Pending,
    Verified,
    Failed(String),
}

/// The verify-email page: an empty token fails at once without any call;
/// otherwise the page mirrors the call's outcome.
#[allow(non_snake_case)]
pub fn VerifyEmail(token: &String, api_result: Option<&Result<(), String>>) -> (v: VerifyEmailView)
    ensures
        token@.len() == 0 ==> (v matches VerifyEmailView::Failed(m) && m@
            == "No verification token provided"@),
        token@.len() > 0 ==> match api_result {
            None => v == VerifyEmailView::Pending,
            Some(o) => match o {
                Ok(_) => v == VerifyEmailView::Verified,
                Err(e) => v matches VerifyEmailView::Failed(m) && m@ == e@,
            },
        },
{
    if token.as_str().is_empty() {
        return VerifyEmailView::Failed("No verification token provided".to_owned());
    }
    match api_result {
        None => VerifyEmailView::Pending,
        Some(Ok(_)) => VerifyEmailView::Verified,
        Some(Err(e)) => VerifyEmailView::Failed(e.clone()),
    }
}

/// What the forgot-password page renders and does.
pub struct ForgotPasswordView {
    /// The request a submit would send; absent while the identifier is
    /// empty.
    pub data: Option<ResetRequestData>,
    pub action: PageAction,
}

/// The forgot-password page: an empty identifier is refused locally;
/// otherwise the page mirrors the call's outcome — the confirmation on
/// success, and a deliberately generic error otherwise, which reveals
/// nothing about the account's existence.
#[allow(non_snake_case)]
pub fn ForgotPassword(identifier: &String, outcome: Option<&Result<(), String>>) -> (v:
    ForgotPasswordView)
    ensures
        identifier@.len() == 0 ==> v.data is None && (v.action matches PageAction::ShowError(m)
            && m@ == "Please enter your email or username"@),
        identifier@.len() > 0 ==> {
            &&& v.data matches Some(d) && d.identifier@ == identifier@
            &&& match outcome {
                None => v.action == PageAction::AwaitInput,
                Some(o) => match o {
                    Ok(_) => v.action matches PageAction::ShowMessage(m) && m@
                        == "If an account exists with that email/username, a password reset link has been sent."@,
                    Err(_) => v.action matches PageAction::ShowError(m) && m@
                        == "An error occurred. Please try again later."@,
                },
            }
        },
{
    if identifier.as_str().is_empty() {
        return ForgotPasswordView {
            data: None,
            action: PageAction::ShowError("Please enter your email or username".to_owned()),
        };
    }
    let action = match outcome {
        None => PageAction::AwaitInput,
        Some(Ok(_)) => PageAction::ShowMessage(
            "If an account exists with that email/username, a password reset link has been sent.".to_owned(),
        ),
        Some(Err(_)) => PageAction::ShowError(
            "An error occurred. Please try again later.".to_owned(),
        ),
    };
    ForgotPasswordView {
        data: Some(ResetRequestData { identifier: identifier.clone() }),
        action,
    }
}

/// What the reset-password page renders and does.
pub struct ResetPasswordView {
    /// The request a submit would send; absent while a local check fails.
    pub data: Option<ResetPasswordData>,
    pub action: PageAction,
}

/// The reset-password page. Local checks run in order — the token must be
/// present, the password at least eight characters, the two passwords
/// equal — and only then is the request offered; success shows the done
/// state.
#[allow(non_snake_case)]
pub fn ResetPassword(
    token: &String,
    password: &String,
    confirm_password: &String,
    outcome: Option<&Result<(), String>>,
) -> (v: ResetPasswordView)
    ensures
        token@.len() == 0 ==> v.data is None && (v.action matches PageAction::ShowError(m) && m@
            == "Invalid or missing reset token"@),
        token@.len() > 0 && password@.len() < 8 ==> v.data is None && (v.action matches
            PageAction::ShowError(m) && m@ == "Password must be at least 8 characters long"@),
        token@.len() > 0 && password@.len() >= 8 && password@ != confirm_password@ ==> v.data
            is None && (v.action matches PageAction::ShowError(m) && m@
            == "Passwords do not match"@),
        token@.len() > 0 && password@.len() >= 8 && password@ == confirm_password@ ==> {
            &&& v.data matches Some(d) && d.token@ == token@ && d.new_password@ == password@
            &&& match outcome {
                None => v.action == PageAction::AwaitInput,
                Some(o) => match o {
                    Ok(_) => v.action == PageAction::Success,
                    Err(e) => v.action matches PageAction::ShowError(m) && m@ == e@,
                },
            }
        },
{
    if token.as_str().is_empty() {
        return ResetPasswordView {
            data: None,
            action: PageAction::ShowError("Invalid or missing reset token".to_owned()),
        };
    }
    if password.as_str().unicode_len() < 8 {
        return ResetPasswordView {
            data: None,
            action: PageAction::ShowError(
                "Password must be at least 8 characters long".to_owned(),
            ),
        };
    }
    if !str_eq(password.as_str(), confirm_password.as_str()) {
        return ResetPasswordView {
            data: None,
            action: PageAction::ShowError("Passwords do not match".to_owned()),
        };
    }
    let action = match outcome {
        None => PageAction::AwaitInput,
        Some(Ok(_)) => PageAction::Success,
        Some(Err(e)) => PageAction::ShowError(e.clone()),
    };
    ResetPasswordView {
        data: Some(
            ResetPasswordData { token: token.clone(), new_password: password.clone() },
        ),
        action,
    }
}

/// How the dashboard's counter fetch failed: the session was missing or
/// invalid, or something else went wrong. The transport layer sorts its
/// errors into these two before calling the page.
#[derive(Clone, Debug, PartialEq)]
pub enum DashboardFetchError {
    NotAuthenticated,
    Other(String),
}

/// What the dashboard does after an event.
#[derive(Clone, Debug, PartialEq)]
pub enum DashboardAction {
    Idle,
    SetCounter(i64),
    GoLogin,
    ShowError(String),
}

/// What the dashboard renders and does.
pub struct DashboardView {
    /// The value an increment click would store.
    pub next_counter: i64,
    pub action: DashboardAction,
}

/// The dashboard: shows the counter, offers the increment, and reacts to
/// the latest fetch — an unauthenticated fetch sends the visitor to the
/// login page.
#[allow(non_snake_case)]
pub fn Dashboard(counter: i64, fetch: Option<&Result<i64, DashboardFetchError>>) -> (v:
    DashboardView)
    requires
        counter < i64::MAX,
    ensures
        v.next_counter == counter + 1,
        fetch is None ==> v.action == DashboardAction::Idle,
        fetch matches Some(o) ==> match o {
            Ok(val) => v.action == DashboardAction::SetCounter(*val),
            Err(e) => match e {
                DashboardFetchError::NotAuthenticated => v.action == DashboardAction::GoLogin,
                DashboardFetchError::Other(m) => v.action matches DashboardAction::ShowError(m2)
                    && m2@ == m@,
            },
        },
{
    let action = match fetch {
        None => DashboardAction::Idle,
        Some(Ok(val)) => DashboardAction::SetCounter(*val),
        Some(Err(DashboardFetchError::NotAuthenticated)) => DashboardAction::GoLogin,
        Some(Err(DashboardFetchError::Other(m))) => DashboardAction::ShowError(m.clone()),
    };
    DashboardView { next_counter: counter + 1, action }
}

/// What the blog page renders: this entry and its two neighbours.
#[derive(Clone, Copy, Debug, PartialEq, Eq, Structural)]
pub struct BlogView {
    pub id: i32,
    pub prev: i32,
    pub next: i32,
}

/// The blog page: entry `id`, with links to the entries before and after.
#[allow(non_snake_case)]
pub fn Blog(id: i32) -> (v: BlogView)
    requires
        i32::MIN < id < i32::MAX,
    ensures
        v.id == id,
        v.prev == id - 1,
        v.next == id + 1,
{
    BlogView { id, prev: id - 1, next: id + 1 }
}

} // verus!
