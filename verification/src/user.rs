//! The user of a `CCash` instance: a username and a password, and the rules
//! that a username has to meet.

use crate::text::{lemma_without_spaces, strip_spaces, without_spaces};
use vstd::prelude::*;
use vstd::string::{StrSliceExecFns, StringExecFns};
use vstd::utf8::is_ascii_chars;

verus! {

/// The lowercase form of a letter from `A` to `Z`; any other character of
/// ASCII as it is.
pub open spec fn ascii_lowercase(c: char) -> char {
    if 'A' <= c <= 'Z' {
        (c as u8 + 32) as u8 as char
    } else {
        c
    }
}

/// The lowercase form that `str::to_lowercase` returns for a `text` that
/// holds a character beyond ASCII.
pub uninterp spec fn lowercase_beyond_ascii(text: Seq<char>) -> Seq<char>;

/// The lowercase form of `text` that `str::to_lowercase` returns. In a text
/// of ASCII characters each letter from `A` to `Z` becomes the letter from
/// `a` to `z`, and nothing else changes.
pub open spec fn lowercase(text: Seq<char>) -> Seq<char> {
    if is_ascii_chars(text) {
        text.map_values(|c: char| ascii_lowercase(c))
    } else {
        lowercase_beyond_ascii(text)
    }
}

/// The letters and digits of ASCII.
pub open spec fn is_ascii_letter_or_digit(c: char) -> bool {
    'a' <= c <= 'z' || 'A' <= c <= 'Z' || '0' <= c <= '9'
}

/// Whether `char::is_alphanumeric` holds of a character `c` beyond ASCII.
pub uninterp spec fn alphanumeric_beyond_ascii(c: char) -> bool;

/// Whether `char::is_alphanumeric` holds of `c`. Of the characters of ASCII
/// it holds of the letters and the digits, and of no other.
pub open spec fn alphanumeric(c: char) -> bool {
    if c <= '\u{7f}' {
        is_ascii_letter_or_digit(c)
    } else {
        alphanumeric_beyond_ascii(c)
    }
}

/// `str::to_lowercase` returns the lowercase form of the text as a new
/// `String`; the form depends on the text alone. Lowercase is that of
/// Unicode, which in ASCII changes the letters from `A` to `Z` and nothing
/// else.
pub assume_specification[ str::to_lowercase ](text: &str) -> (r: String)
    ensures
        r@ == if is_ascii_chars(text@) {
            text@.map_values(|c: char| ascii_lowercase(c))
        } else {
            lowercase_beyond_ascii(text@)
        },
;

/// `char::is_alphanumeric` tells whether the character is alphabetic or
/// numeric; the answer depends on the character alone. The properties are
/// those of Unicode, which in ASCII the letters and the digits have, and no
/// other character.
pub assume_specification[ char::is_alphanumeric ](c: char) -> (r: bool)
    ensures
        r == if c <= '\u{7f}' {
            is_ascii_letter_or_digit(c)
        } else {
            alphanumeric_beyond_ascii(c)
        },
;

/// Why a username is refused.
#[derive(Debug)]
pub enum CCashUsernameError {
    /// The username has fewer than 3 characters.
    NameTooShort,
    /// The username has more than 16 characters.
    NameTooLong,
    /// The username holds a character that is not allowed. The text says
    /// which kind.
    NameContainsInvalidCharacters(String),
}

/// The view of a `CCashUsernameError`: the same cases, with the text as a
/// sequence of characters.
pub enum UsernameFault {
    NameTooShort,
    NameTooLong,
    NameContainsInvalidCharacters(Seq<char>),
}

impl View for CCashUsernameError {
    type V = UsernameFault;

    open spec fn view(&self) -> UsernameFault {
        match self {
            CCashUsernameError::NameTooShort => UsernameFault::NameTooShort,
            CCashUsernameError::NameTooLong => UsernameFault::NameTooLong,
            CCashUsernameError::NameContainsInvalidCharacters(text) =>
                UsernameFault::NameContainsInvalidCharacters(text@),
        }
    }
}

impl Clone for CCashUsernameError {
    fn clone(&self) -> (r: Self)
        ensures
            r@ == self@,
    {
        match self {
            CCashUsernameError::NameTooShort => CCashUsernameError::NameTooShort,
            CCashUsernameError::NameTooLong => CCashUsernameError::NameTooLong,
            CCashUsernameError::NameContainsInvalidCharacters(text) =>
                CCashUsernameError::NameContainsInvalidCharacters(text.clone()),
        }
    }
}

/// A username may hold underscores, letters and numbers.
pub open spec fn is_name_char(c: char) -> bool {
    c == '_' || alphanumeric(c)
}

/// Every character of `name` is one that a username may hold.
pub open spec fn has_only_name_chars(name: Seq<char>) -> bool {
    forall|i: int| 0 <= i < name.len() ==> is_name_char(#[trigger] name[i])
}

/// The first rule that the lowercase username `name` breaks, if it breaks
/// one: its length, which is the number of its characters, is checked
/// first, then spaces, then the other characters.
pub open spec fn name_fault(name: Seq<char>) -> Option<UsernameFault> {
    if name.len() < 3 {
        Some(UsernameFault::NameTooShort)
    } else if name.len() > 16 {
        Some(UsernameFault::NameTooLong)
    } else if name.contains(' ') {
        Some(UsernameFault::NameContainsInvalidCharacters("Name cannot contain spaces"@))
    } else if !has_only_name_chars(name) {
        Some(
            UsernameFault::NameContainsInvalidCharacters(
                "Name cannot contain non-alphanumeric characters"@,
            ),
        )
    } else {
        None
    }
}

/// A space is none of the characters that a username may hold.
pub proof fn lemma_name_chars_hold_no_space(name: Seq<char>)
    requires
        has_only_name_chars(name),
    ensures
        !name.contains(' '),
{
    if name.contains(' ') {
        let i = choose|i: int| 0 <= i < name.len() && name[i] == ' ';
        assert(is_name_char(name[i]));
    }
}

/// A lowercase username breaks no rule exactly if it has 3 to 16 characters
/// and each of them is an underscore, a letter or a number.
pub open spec fn is_valid_name(name: Seq<char>) -> bool {
    3 <= name.len() <= 16 && has_only_name_chars(name)
}

/// The rules by their cases. A lowercase username of fewer than 3
/// characters is too short, and one of more than 16 is too long, whatever it
/// holds. One of a length in between that holds a space, or a character
/// that is neither an underscore nor a letter nor a number, holds invalid
/// characters. Every other username breaks no rule: those are the names of
/// 3 to 16 characters that are underscores, letters and numbers.
pub proof fn lemma_name_rules(name: Seq<char>)
    ensures
        name.len() < 3 ==> name_fault(name) == Some(UsernameFault::NameTooShort),
        name.len() > 16 ==> name_fault(name) == Some(UsernameFault::NameTooLong),
        3 <= name.len() <= 16 && (name.contains(' ') || !has_only_name_chars(name)) ==> name_fault(
            name,
        ) matches Some(UsernameFault::NameContainsInvalidCharacters(_)),
        name_fault(name) is None <==> is_valid_name(name),
{
    if has_only_name_chars(name) {
        lemma_name_chars_hold_no_space(name);
    }
}

/// The view of a `CCashUser`: its username and its password.
pub struct Credentials {
    pub username: Seq<char>,
    pub password: Seq<char>,
}

/// The user that checked construction makes of a lowercase username that
/// breaks no rule.
pub open spec fn checked_credentials(name: Seq<char>, password: Seq<char>) -> Credentials {
    Credentials { username: name, password: without_spaces(password) }
}

/// What a checked user always meets: the username breaks no rule and the
/// password holds no space.
pub open spec fn is_checked(user: Credentials) -> bool {
    is_valid_name(user.username) && !user.password.contains(' ')
}

/// A username and a password, as they are sent to authenticate.
#[derive(Debug, PartialEq, Eq, Hash)]
pub struct CCashUser {
    username: String,
    password: String,
}

impl View for CCashUser {
    type V = Credentials;

    closed spec fn view(&self) -> Credentials {
        Credentials { username: self.username@, password: self.password@ }
    }
}

impl Clone for CCashUser {
    fn clone(&self) -> (r: Self)
        ensures
            r@ == self@,
    {
        CCashUser { username: self.username.clone(), password: self.password.clone() }
    }
}

/// Whether `name` holds a space.
fn holds_space(name: &str) -> (r: bool)
    ensures
        r == name@.contains(' '),
{
    let mut found = false;
    let chars = name.chars();
    for c in it: chars
        invariant
            it.seq() == name@,
            found == name@.take(it.index()).contains(' '),
    {
        proof {
            let i = it.index();
            let before = name@.take(i);
            let after = name@.take(i + 1);
            if before.contains(' ') {
                let j = choose|j: int| 0 <= j < before.len() && before[j] == ' ';
                assert(after[j] == ' ');
            }
            if c == ' ' {
                assert(after[i] == ' ');
            }
            if after.contains(' ') && c != ' ' {
                let j = choose|j: int| 0 <= j < after.len() && after[j] == ' ';
                assert(before[j] == ' ');
            }
        }
        if c == ' ' {
            found = true;
        }
    }
    assert(name@.take(name@.len() as int) =~= name@);
    found
}

/// Whether every character of `name` is an underscore, a letter or a number.
fn holds_only_name_chars(name: &str) -> (r: bool)
    ensures
        r == has_only_name_chars(name@),
{
    let mut all = true;
    let chars = name.chars();
    for c in it: chars
        invariant
            it.seq() == name@,
            all == has_only_name_chars(name@.take(it.index())),
    {
        proof {
            let i = it.index();
            let before = name@.take(i);
            let after = name@.take(i + 1);
            if has_only_name_chars(after) {
                assert forall|j: int| 0 <= j < before.len() implies is_name_char(
                    #[trigger] before[j],
                ) by {
                    assert(before[j] == after[j]);
                }
                assert(after[i] == c);
            }
            if has_only_name_chars(before) && is_name_char(c) {
                assert forall|j: int| 0 <= j < after.len() implies is_name_char(
                    #[trigger] after[j],
                ) by {
                    if j < i {
                        assert(after[j] == before[j]);
                    }
                }
            }
        }
        if !(c == '_' || c.is_alphanumeric()) {
            all = false;
        }
    }
    assert(name@.take(name@.len() as int) =~= name@);
    all
}

impl CCashUser {
    /// Makes a user of a username that is checked against the rules of
    /// `CCash`, and of a password. The username is made lowercase first, and
    /// the spaces of the password are dropped.
    pub fn new(username: &str, password: &str) -> (r: Result<CCashUser, CCashUsernameError>)
        ensures
            r is Ok <==> is_valid_name(lowercase(username@)),
            match r {
                Ok(user) => user@ == checked_credentials(lowercase(username@), password@)
                    && is_checked(user@),
                Err(error) => name_fault(lowercase(username@)) == Some(error@),
            },
    {
        let username = username.to_lowercase();
        CCashUser::from_lowercase(username, password)
    }

    /// Makes a user of a username that is lowercase already: the username is
    /// checked against the rules, in the order of `name_fault`, and the
    /// spaces of the password are dropped.
    pub fn from_lowercase(username: String, password: &str) -> (r: Result<
        CCashUser,
        CCashUsernameError,
    >)
        ensures
            r is Ok <==> is_valid_name(username@),
            match r {
                Ok(user) => user@ == checked_credentials(username@, password@) && is_checked(
                    user@,
                ),
                Err(error) => name_fault(username@) == Some(error@),
            },
    {
        proof {
            lemma_name_rules(username@);
        }
        let length = username.as_str().unicode_len();
        if length < 3 {
            return Err(CCashUsernameError::NameTooShort);
        } else if length > 16 {
            return Err(CCashUsernameError::NameTooLong);
        } else if holds_space(username.as_str()) {
            return Err(
                CCashUsernameError::NameContainsInvalidCharacters(
                    String::from_str("Name cannot contain spaces"),
                ),
            );
        } else if !holds_only_name_chars(username.as_str()) {
            return Err(
                CCashUsernameError::NameContainsInvalidCharacters(
                    String::from_str("Name cannot contain non-alphanumeric characters"),
                ),
            );
        }
        proof {
            lemma_without_spaces(password@);
        }
        Ok(CCashUser { username, password: strip_spaces(password) })
    }

    /// Makes a user of a username and a password as they are, with no check.
    pub fn new_unchecked(username: &str, password: &str) -> (r: CCashUser)
        ensures
            r@ == (Credentials { username: username@, password: password@ }),
    {
        CCashUser { username: String::from_str(username), password: String::from_str(password) }
    }

    /// The username.
    pub fn get_username(&self) -> (r: &str)
        ensures
            r@ == self@.username,
    {
        self.username.as_str()
    }

    /// The password.
    pub fn get_password(&self) -> (r: &str)
        ensures
            r@ == self@.password,
    {
        self.password.as_str()
    }

    /// Replaces the password by `new_password` as it is; the username stays.
    pub(crate) fn update_password(&mut self, new_password: &str)
        ensures
            final(self)@ == (Credentials {
                username: old(self)@.username,
                password: new_password@,
            }),
    {
        self.password = String::from_str(new_password);
    }
}

} // verus!
