//! What the client asks of a username and a password before it sends them.

use vstd::prelude::*;
use vstd::string::StrSliceExecFns;

verus! {

/// The greatest number of characters in a username.
pub const MAX_USERNAME_LENGTH: usize = 24;

/// The least number of characters in a password.
pub const MIN_PASSWORD_LENGTH: usize = 8;

/// Whether a username has between one and [`MAX_USERNAME_LENGTH`]
/// characters.
pub fn is_valid_username(username: &str) -> (valid: bool)
    ensures
        valid == (1 <= username@.len() <= MAX_USERNAME_LENGTH),
{
    let length = username.unicode_len();
    1 <= length && length <= MAX_USERNAME_LENGTH
}

/// Whether a password has [`MIN_PASSWORD_LENGTH`] characters or more.
pub fn is_valid_password(password: &str) -> (valid: bool)
    ensures
        valid == (password@.len() >= MIN_PASSWORD_LENGTH),
{
    password.unicode_len() >= MIN_PASSWORD_LENGTH
}

} // verus!
