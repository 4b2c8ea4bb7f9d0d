use vstd::prelude::*;

verus! {

/// The failure kinds of every operation of the library.
#[derive(Debug, Clone, Copy, PartialEq, Eq, Structural)]
pub enum BlogError {
    /// A keyed lookup found no user, post or comment.
    NotFound,
    /// The username is already held by another user.
    DuplicateUsername,
    /// The username or the password did not verify.
    InvalidCredentials,
    /// The requester is authenticated but does not own the resource.
    Forbidden,
    /// No valid session where one is required.
    Unauthenticated,
    /// A field broke its length bounds.
    ValidationFailed,
    /// The underlying store or hashing machinery failed.
    Infrastructure,
}

/// The message shown for each error kind.
pub open spec fn message_text(e: BlogError) -> Seq<char> {
    match e {
        BlogError::NotFound => "not found"@,
        BlogError::DuplicateUsername => "username is already taken"@,
        BlogError::InvalidCredentials => "invalid username or password"@,
        BlogError::Forbidden => "you do not have permission to do that"@,
        BlogError::Unauthenticated => "you must be logged in"@,
        BlogError::ValidationFailed => "validation failed"@,
        BlogError::Infrastructure => "an internal error occurred"@,
    }
}

impl BlogError {
    /// A short human-readable message for the error kind.
    pub fn message(&self) -> (r: String)
        ensures
            r@ == message_text(*self),
            r@.len() > 0,
    {
        let s = match self {
            BlogError::NotFound => "not found",
            BlogError::DuplicateUsername => "username is already taken",
            BlogError::InvalidCredentials => "invalid username or password",
            BlogError::Forbidden => "you do not have permission to do that",
            BlogError::Unauthenticated => "you must be logged in",
            BlogError::ValidationFailed => "validation failed",
            BlogError::Infrastructure => "an internal error occurred",
        };
        proof {
            reveal_strlit("not found");
            reveal_strlit("username is already taken");
            reveal_strlit("invalid username or password");
            reveal_strlit("you do not have permission to do that");
            reveal_strlit("you must be logged in");
            reveal_strlit("validation failed");
            reveal_strlit("an internal error occurred");
        }
        s.to_string()
    }
}

} // verus!
