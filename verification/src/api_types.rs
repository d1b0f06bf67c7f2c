//! The request and response types of the API surface, and the field-level
//! validation data they carry. These are plain values: the HTTP layer
//! decodes into them and encodes out of them.

use vstd::prelude::*;

pub use crate::db::UserRole;

verus! {

// ---------------------------------------------------------------------------
// Validation data
// ---------------------------------------------------------------------------

/// Which field a validation verdict speaks about.
#[derive(Clone, Copy, Debug, PartialEq, Eq, Structural)]
pub enum FieldType {
    Unspecified,
    Username,
    Email,
    Password,
}

/// Why a field was rejected.
#[derive(Clone, Copy, Debug, PartialEq, Eq, Structural)]
pub enum ValidationErrorCode {
    Unspecified,
    Required,
    TooShort,
    TooLong,
    InvalidCharacters,
    InvalidFormat,
    TooFewUppercaseLetters,
    TooFewLowercaseLetters,
    TooFewDigits,
    TooFewSpecialCharacters,
}

/// How strong a password was judged.
#[derive(Clone, Copy, Debug, PartialEq, Eq, Structural)]
pub enum PasswordStrength {
    Unspecified,
    Weak,
    Medium,
    Strong,
    Cia,
}

/// The validation verdict for a single field: empty means the field passed.
/// The rules that produce these verdicts live outside this crate; flows only
/// consume pass or fail.
#[derive(Clone, Debug, PartialEq)]
pub struct ValidationFieldError {
    pub field: FieldType,
    pub errors: Vec<ValidationErrorCode>,
}

impl ValidationFieldError {
    /// Creates a verdict with no errors.
    pub fn new(field: FieldType) -> (r: ValidationFieldError)
        ensures
            r.field == field,
            r.errors@.len() == 0,
            r.spec_is_valid(),
    {
        ValidationFieldError { field, errors: Vec::new() }
    }

    /// A field passed when no error was recorded against it.
    pub open spec fn spec_is_valid(&self) -> bool {
        self.errors@.len() == 0
    }

    /// Whether the field passed.
    pub fn is_valid(&self) -> (r: bool)
        ensures
            r == self.spec_is_valid(),
    {
        self.errors.len() == 0
    }

    /// Records one more error against the field.
    pub fn add_error(&mut self, code: ValidationErrorCode)
        ensures
            final(self).field == old(self).field,
            final(self).errors@ == old(self).errors@.push(code),
    {
        self.errors.push(code);
    }
}

/// Validation verdicts for several fields at once.
#[derive(Clone, Debug, PartialEq)]
pub struct ValidationErrorData {
    pub field_errors: Vec<ValidationFieldError>,
}

impl ValidationErrorData {
    /// Creates an empty collection of verdicts.
    pub fn new() -> (r: ValidationErrorData)
        ensures
            r.field_errors@.len() == 0,
            r.spec_is_valid(),
    {
        ValidationErrorData { field_errors: Vec::new() }
    }

    /// Wraps a list of field verdicts.
    pub fn from_errors(errors: Vec<ValidationFieldError>) -> (r: ValidationErrorData)
        ensures
            r.field_errors@ == errors@,
    {
        ValidationErrorData { field_errors: errors }
    }

    /// The whole collection passed when every field did.
    pub open spec fn spec_is_valid(&self) -> bool {
        forall|i: int|
            0 <= i < self.field_errors@.len() ==> (#[trigger] self.field_errors@[i]).spec_is_valid()
    }

    /// Whether every field passed.
    pub fn is_valid(&self) -> (r: bool)
        ensures
            r == self.spec_is_valid(),
    {
        let n = self.field_errors.len();
        let mut i: usize = 0;
        while i < n
            invariant
                n == self.field_errors@.len(),
                i <= n,
                forall|j: int| 0 <= j < i ==> (#[trigger] self.field_errors@[j]).spec_is_valid(),
            decreases n - i,
        {
            if !self.field_errors[i].is_valid() {
                return false;
            }
            i = i + 1;
        }
        true
    }
}

impl Default for ValidationErrorData {
    /// An empty collection: nothing failed.
    fn default() -> (r: ValidationErrorData)
        ensures
            r.field_errors@.len() == 0,
    {
        ValidationErrorData::new()
    }
}

/// A password verdict together with the strength assessment.
#[derive(Clone, Debug, PartialEq)]
pub struct ValidationDetailedPasswordData {
    pub data: Option<ValidationFieldError>,
    pub strength: PasswordStrength,
    pub score: u32,
}

impl ValidationDetailedPasswordData {
    /// Wraps a verdict with its strength assessment.
    pub fn new(data: ValidationFieldError, strength: PasswordStrength, score: u32) -> (r:
        ValidationDetailedPasswordData)
        ensures
            r.data == Some(data),
            r.strength == strength,
            r.score == score,
    {
        ValidationDetailedPasswordData { data: Some(data), strength, score }
    }
}

// ---------------------------------------------------------------------------
// Request payloads
// ---------------------------------------------------------------------------

/// Registration request payload.
#[derive(Clone, Debug, PartialEq)]
pub struct RegistrationRequest {
    pub username: String,
    pub email: String,
    pub password: String,
}

/// Login request payload.
#[derive(Clone, Debug, PartialEq)]
pub struct LoginRequest {
    pub username: String,
    pub password: String,
}

/// Email verification request payload.
#[derive(Clone, Debug, PartialEq)]
pub struct EmailVerificationRequest {
    pub token: String,
}

/// Set-counter request payload.
#[derive(Clone, Copy, Debug, PartialEq, Eq, Structural)]
pub struct SetCounterRequest {
    pub value: i64,
}

/// Password reset request payload (initial step).
#[derive(Clone, Debug, PartialEq)]
pub struct PasswordResetRequest {
    pub email: String,
}

/// Password reset completion request payload.
#[derive(Clone, Debug, PartialEq)]
pub struct PasswordResetCompleteRequest {
    pub token: String,
    pub new_password: String,
}

/// Create-post request payload; the image arrives separately.
#[derive(Clone, Debug, PartialEq)]
pub struct CreatePostRequest {
    pub title: String,
    pub description: Option<String>,
}

/// Update-post request payload.
#[derive(Clone, Debug, PartialEq)]
pub struct UpdatePostRequest {
    pub title: String,
    pub description: Option<String>,
}

/// Pagination query parameters.
#[derive(Clone, Copy, Debug, PartialEq, Eq, Structural)]
pub struct PaginationQuery {
    pub limit: i64,
    pub offset: i64,
}

/// Search query parameters.
#[derive(Clone, Debug, PartialEq)]
pub struct SearchQuery {
    pub q: String,
    pub limit: i64,
    pub offset: i64,
}

/// Create-comment request payload.
#[derive(Clone, Debug, PartialEq)]
pub struct CreateCommentRequest {
    pub content: String,
}

/// Rate-post request payload: 1 for an upvote, -1 for a downvote.
#[derive(Clone, Copy, Debug, PartialEq, Eq, Structural)]
pub struct RatePostRequest {
    pub value: i32,
}

/// Update-user-role request payload.
#[derive(Clone, Copy, Debug, PartialEq, Eq, Structural)]
pub struct UpdateUserRoleRequest {
    pub role: UserRole,
}

// ---------------------------------------------------------------------------
// Response payloads
// ---------------------------------------------------------------------------

/// Error codes of the registration endpoint.
#[derive(Clone, Copy, Debug, PartialEq, Eq, Structural)]
pub enum RegisterError {
    UsernameTaken,
    EmailTaken,
    Validation,
    Internal,
}

/// Registration error response.
#[derive(Clone, Debug, PartialEq)]
pub struct RegisterErrorResponse {
    pub error: RegisterError,
    pub validation: Option<ValidationErrorData>,
}

/// Login success response.
#[derive(Clone, Debug, PartialEq)]
pub struct LoginResponse {
    pub username: String,
    pub email: String,
    pub role: UserRole,
    /// Unix seconds at which the session expires.
    pub session_expires_at: i64,
    /// Unix seconds at which the session was created.
    pub session_created_at: i64,
}

/// Error codes of the login endpoint.
#[derive(Clone, Copy, Debug, PartialEq, Eq, Structural)]
pub enum LoginError {
    InvalidCredentials,
    EmailNotVerified,
    Validation,
    Internal,
}

/// Login error response.
#[derive(Clone, Debug, PartialEq)]
pub struct LoginErrorResponse {
    pub error: LoginError,
    pub validation: Option<ValidationErrorData>,
}

/// Error codes of the email-verification endpoint. Absent, already-used and
/// expired tokens all surface as `InvalidToken`: the endpoint never reveals
/// which it was.
#[derive(Clone, Copy, Debug, PartialEq, Eq, Structural)]
pub enum VerifyEmailError {
    InvalidToken,
    Internal,
}

/// Email-verification error response.
#[derive(Clone, Copy, Debug, PartialEq, Eq, Structural)]
pub struct VerifyEmailErrorResponse {
    pub error: VerifyEmailError,
}

/// Error codes of the password-reset completion endpoint.
#[derive(Clone, Copy, Debug, PartialEq, Eq, Structural)]
pub enum CompletePasswordResetError {
    InvalidToken,
    Validation,
    Internal,
}

/// Password-reset completion error response.
#[derive(Clone, Debug, PartialEq)]
pub struct CompletePasswordResetErrorResponse {
    pub error: CompletePasswordResetError,
    pub validation: Option<ValidationErrorData>,
}

/// Session data returned by the auth check and refresh endpoints.
#[derive(Clone, Debug, PartialEq)]
pub struct AuthSessionResponse {
    pub username: String,
    pub email: String,
    pub role: UserRole,
    pub session_expires_at: i64,
    pub session_created_at: i64,
}

/// Error codes of the auth check and refresh endpoints. A missing, invalid
/// or expired session and a missing account all surface as
/// `InvalidCredentials`: the extractor never reveals which it was.
#[derive(Clone, Copy, Debug, PartialEq, Eq, Structural)]
pub enum AuthError {
    InvalidCredentials,
    Internal,
}

/// Auth error response.
#[derive(Clone, Copy, Debug, PartialEq, Eq, Structural)]
pub struct AuthErrorResponse {
    pub error: AuthError,
}

impl Default for AuthErrorResponse {
    /// The default rejection: invalid credentials, the one the auth extractor hands
    /// out for every failure that is not an internal fault.
    fn default() -> (r: AuthErrorResponse)
        ensures
            r.error == AuthError::InvalidCredentials,
    {
        AuthErrorResponse { error: AuthError::InvalidCredentials }
    }
}

/// Counter value payload.
#[derive(Clone, Copy, Debug, PartialEq, Eq, Structural)]
pub struct CounterData {
    pub value: i64,
}

/// One post, as the API returns it.
#[derive(Clone, Debug, PartialEq)]
pub struct PostResponse {
    pub post_id: i64,
    pub user_id: i64,
    pub username: String,
    pub is_user_deleted: bool,
    pub title: String,
    pub description: Option<String>,
    pub image_url: String,
    pub score: i64,
    pub comment_count: i64,
    pub user_rating: Option<i32>,
    pub created_at: i64,
    pub updated_at: Option<i64>,
}

/// A page of posts.
#[derive(Clone, Debug, PartialEq)]
pub struct PostListResponse {
    pub posts: Vec<PostResponse>,
    pub total: i64,
    pub limit: i64,
    pub offset: i64,
}

/// Post creation success response.
#[derive(Clone, Copy, Debug, PartialEq, Eq, Structural)]
pub struct CreatePostResponse {
    pub post_id: i64,
}

/// Error codes of the post endpoints.
#[derive(Clone, Copy, Debug, PartialEq, Eq, Structural)]
pub enum PostError {
    NotFound,
    Validation,
    InvalidImage,
    FileTooLarge,
    Internal,
}

/// Post error response.
#[derive(Clone, Debug, PartialEq)]
pub struct PostErrorResponse {
    pub error: PostError,
    pub validation: Option<ValidationErrorData>,
}

/// One comment, as the API returns it.
#[derive(Clone, Debug, PartialEq)]
pub struct CommentResponse {
    pub comment_id: i64,
    pub post_id: i64,
    pub user_id: i64,
    pub username: String,
    pub is_user_deleted: bool,
    pub content: String,
    pub created_at: i64,
}

/// A page of comments.
#[derive(Clone, Debug, PartialEq)]
pub struct CommentListResponse {
    pub comments: Vec<CommentResponse>,
    pub total: i64,
}

/// Comment creation success response.
#[derive(Clone, Copy, Debug, PartialEq, Eq, Structural)]
pub struct CreateCommentResponse {
    pub comment_id: i64,
}

/// Error codes of the comment endpoints.
#[derive(Clone, Copy, Debug, PartialEq, Eq, Structural)]
pub enum CommentError {
    NotFound,
    PostNotFound,
    Validation,
    Internal,
}

/// Comment error response.
#[derive(Clone, Debug, PartialEq)]
pub struct CommentErrorResponse {
    pub error: CommentError,
    pub validation: Option<ValidationErrorData>,
}

/// Rating response: the score after the vote, and the caller's own vote.
#[derive(Clone, Copy, Debug, PartialEq, Eq, Structural)]
pub struct RatingResponse {
    pub score: i64,
    pub user_rating: Option<i32>,
}

/// Error codes of the rating endpoints.
#[derive(Clone, Copy, Debug, PartialEq, Eq, Structural)]
pub enum RatingError {
    PostNotFound,
    InvalidValue,
    Internal,
}

/// Rating error response.
#[derive(Clone, Copy, Debug, PartialEq, Eq, Structural)]
pub struct RatingErrorResponse {
    pub error: RatingError,
}

/// One account, as the admin listing returns it.
#[derive(Clone, Debug, PartialEq)]
pub struct UserInfoResponse {
    pub user_id: i64,
    pub username: String,
    pub email: String,
    pub role: UserRole,
    pub email_verified: bool,
    pub is_deleted: bool,
}

/// The admin listing of accounts.
#[derive(Clone, Debug, PartialEq)]
pub struct UserListResponse {
    pub users: Vec<UserInfoResponse>,
}

/// One soft-deleted post, as the admin restore listing returns it.
#[derive(Clone, Debug, PartialEq)]
pub struct DeletedPostResponse {
    pub post_id: i64,
    pub user_id: i64,
    pub username: String,
    pub is_user_deleted: bool,
    pub title: String,
    pub deleted_at: i64,
}

/// The admin listing of soft-deleted posts.
#[derive(Clone, Debug, PartialEq)]
pub struct DeletedPostsListResponse {
    pub posts: Vec<DeletedPostResponse>,
    pub total: i64,
}

/// Success codes the API can report.
#[derive(Clone, Copy, Debug, PartialEq, Eq, Structural)]
pub enum SuccessCode {
    Unspecified,
    Okay,
    Registered,
    LoggedIn,
    LoggedOut,
    EmailVerified,
    SessionRefreshed,
    PasswordResetRequested,
    PasswordResetCompleted,
    CounterUpdated,
}

/// Error codes the API can report.
#[derive(Clone, Copy, Debug, PartialEq, Eq, Structural)]
pub enum ErrorCode {
    Unspecified,
    InvalidInput,
    UsernameTaken,
    InvalidCredentials,
    EmailNotVerified,
    InvalidToken,
    Database,
    Internal,
    Validation,
    EmailTaken,
}

} // verus!
