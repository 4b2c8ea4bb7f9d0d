use vstd::prelude::*;
use vstd::string::StrSliceExecFns;
use crate::error::BlogError;

verus! {

/// The registration form.
pub struct CreateUser {
    pub username: String,
    pub password: String,
}

/// The login form.
pub struct LoginUser {
    pub username: String,
    pub password: String,
}

/// The form that renames the current user.
pub struct UpdateUsername {
    pub username: String,
}

/// The form that changes the current user's password.
pub struct UpdatePassword {
    pub current_password: String,
    pub new_password: String,
}

/// The form that writes or edits a post.
pub struct CreatePost {
    pub title: String,
    pub content: String,
}

/// The form that writes or edits a comment.
pub struct CreateComment {
    pub content: String,
}

pub const MIN_USERNAME_CHARS: usize = 3;

pub const MIN_PASSWORD_CHARS: usize = 6;

pub const MAX_TITLE_CHARS: usize = 100;

/// A username is at least three characters long.
pub open spec fn valid_username(name: Seq<char>) -> bool {
    name.len() >= MIN_USERNAME_CHARS
}

/// A password is at least six characters long.
pub open spec fn valid_password(password: Seq<char>) -> bool {
    password.len() >= MIN_PASSWORD_CHARS
}

/// A title holds one to a hundred characters.
pub open spec fn valid_title(title: Seq<char>) -> bool {
    1 <= title.len() <= MAX_TITLE_CHARS
}

/// A post or comment body is not empty.
pub open spec fn valid_content(content: Seq<char>) -> bool {
    content.len() >= 1
}

fn at_least(s: &String, n: usize) -> (r: bool)
    ensures
        r == (s@.len() >= n),
{
    s.as_str().unicode_len() >= n
}

impl CreateUser {
    pub open spec fn is_valid(&self) -> bool {
        valid_username(self.username@) && valid_password(self.password@)
    }

    pub fn validate(&self) -> (r: Result<(), BlogError>)
        ensures
            r is Ok <==> self.is_valid(),
            r is Err ==> r == Err::<(), BlogError>(BlogError::ValidationFailed),
    {
        if at_least(&self.username, MIN_USERNAME_CHARS) && at_least(&self.password, MIN_PASSWORD_CHARS) {
            Ok(())
        } else {
            Err(BlogError::ValidationFailed)
        }
    }
}

impl UpdateUsername {
    pub open spec fn is_valid(&self) -> bool {
        valid_username(self.username@)
    }

    pub fn validate(&self) -> (r: Result<(), BlogError>)
        ensures
            r is Ok <==> self.is_valid(),
            r is Err ==> r == Err::<(), BlogError>(BlogError::ValidationFailed),
    {
        if at_least(&self.username, MIN_USERNAME_CHARS) {
            Ok(())
        } else {
            Err(BlogError::ValidationFailed)
        }
    }
}

impl UpdatePassword {
    pub open spec fn is_valid(&self) -> bool {
        valid_password(self.new_password@)
    }

    pub fn validate(&self) -> (r: Result<(), BlogError>)
        ensures
            r is Ok <==> self.is_valid(),
            r is Err ==> r == Err::<(), BlogError>(BlogError::ValidationFailed),
    {
        if at_least(&self.new_password, MIN_PASSWORD_CHARS) {
            Ok(())
        } else {
            Err(BlogError::ValidationFailed)
        }
    }
}

impl CreatePost {
    pub open spec fn is_valid(&self) -> bool {
        valid_title(self.title@) && valid_content(self.content@)
    }

    pub fn validate(&self) -> (r: Result<(), BlogError>)
        ensures
            r is Ok <==> self.is_valid(),
            r is Err ==> r == Err::<(), BlogError>(BlogError::ValidationFailed),
    {
        let n = self.title.as_str().unicode_len();
        if 1 <= n && n <= MAX_TITLE_CHARS && at_least(&self.content, 1) {
            Ok(())
        } else {
            Err(BlogError::ValidationFailed)
        }
    }
}

impl CreateComment {
    pub open spec fn is_valid(&self) -> bool {
        valid_content(self.content@)
    }

    pub fn validate(&self) -> (r: Result<(), BlogError>)
        ensures
            r is Ok <==> self.is_valid(),
            r is Err ==> r == Err::<(), BlogError>(BlogError::ValidationFailed),
    {
        if at_least(&self.content, 1) {
            Ok(())
        } else {
            Err(BlogError::ValidationFailed)
        }
    }
}

} // verus!
