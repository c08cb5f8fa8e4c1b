//! Input rules of the request bodies.
use crate::dto_auth::{LoginRequest, RegisterRequest};
use vstd::prelude::*;
use vstd::string::*;
use vstd::utf8::encode_utf8;

verus! {

/// Unicode `Uppercase` property (`char::is_uppercase`).
pub uninterp spec fn upper_char(c: char) -> bool;

/// Unicode `Lowercase` property (`char::is_lowercase`).
pub uninterp spec fn lower_char(c: char) -> bool;

/// Unicode alphabetic or numeric (`char::is_alphanumeric`).
pub uninterp spec fn alnum_char(c: char) -> bool;

/// Unicode `White_Space` property (`char::is_whitespace`).
pub uninterp spec fn space_char(c: char) -> bool;

/// Relies on std's `char::is_uppercase`.
#[verifier::external_body]
fn is_upper(c: char) -> (r: bool)
    ensures
        r == upper_char(c),
{
    c.is_uppercase()
}

/// Relies on std's `char::is_lowercase`.
#[verifier::external_body]
fn is_lower(c: char) -> (r: bool)
    ensures
        r == lower_char(c),
{
    c.is_lowercase()
}

/// Relies on std's `char::is_alphanumeric`.
#[verifier::external_body]
fn is_alnum(c: char) -> (r: bool)
    ensures
        r == alnum_char(c),
{
    c.is_alphanumeric()
}

/// Relies on std's `char::is_whitespace`.
#[verifier::external_body]
fn is_space(c: char) -> (r: bool)
    ensures
        r == space_char(c),
{
    c.is_whitespace()
}

pub open spec fn any_char(s: Seq<char>, p: spec_fn(char) -> bool) -> bool {
    exists|i: int| 0 <= i < s.len() && p(#[trigger] s[i])
}

pub open spec fn ascii_digit(c: char) -> bool {
    '0' <= c && c <= '9'
}

/// The first rule of a strong password that `p` breaks, as its message.
pub open spec fn password_problem(p: Seq<char>) -> Option<Seq<char>> {
    if encode_utf8(p).len() < 12 {
        Some("Password must be at least 12 characters"@)
    } else if !any_char(p, |c: char| upper_char(c)) {
        Some("Password must contain at least one uppercase letter"@)
    } else if !any_char(p, |c: char| lower_char(c)) {
        Some("Password must contain at least one lowercase letter"@)
    } else if !any_char(p, |c: char| ascii_digit(c)) {
        Some("Password must contain at least one digit"@)
    } else if !any_char(p, |c: char| !alnum_char(c)) {
        Some("Password must contain at least one special character"@)
    } else {
        None
    }
}

/// Which of the character tests some character of `s` passes: uppercase,
/// lowercase, ASCII digit, neither letter nor digit.
fn char_classes(s: &str) -> (r: (bool, bool, bool, bool))
    ensures
        r.0 == any_char(s@, |c: char| upper_char(c)),
        r.1 == any_char(s@, |c: char| lower_char(c)),
        r.2 == any_char(s@, |c: char| ascii_digit(c)),
        r.3 == any_char(s@, |c: char| !alnum_char(c)),
{
    let n = s.unicode_len();
    let mut upper = false;
    let mut lower = false;
    let mut digit = false;
    let mut special = false;
    let mut i: usize = 0;
    while i < n
        invariant
            n == s@.len(),
            i <= n,
            upper == exists|j: int| 0 <= j < i && upper_char(#[trigger] s@[j]),
            lower == exists|j: int| 0 <= j < i && lower_char(#[trigger] s@[j]),
            digit == exists|j: int| 0 <= j < i && ascii_digit(#[trigger] s@[j]),
            special == exists|j: int| 0 <= j < i && !alnum_char(#[trigger] s@[j]),
        decreases n - i,
    {
        let c = s.get_char(i);
        if is_upper(c) {
            upper = true;
        }
        if is_lower(c) {
            lower = true;
        }
        if '0' <= c && c <= '9' {
            digit = true;
        }
        if !is_alnum(c) {
            special = true;
        }
        i += 1;
    }
    (upper, lower, digit, special)
}

/// Password strength: at least 12 bytes, with an uppercase letter, a lowercase
/// letter, an ASCII digit and a character that is neither letter nor digit.
pub fn validate_strong_password(password: &str) -> (r: Result<(), String>)
    ensures
        match password_problem(password@) {
            None => r is Ok,
            Some(m) => r matches Err(e) && e@ == m,
        },
{
    let byte_len = password.as_bytes().len();
    if byte_len < 12 {
        return Err("Password must be at least 12 characters".to_string());
    }
    let (upper, lower, digit, special) = char_classes(password);
    if !upper {
        return Err("Password must contain at least one uppercase letter".to_string());
    }
    if !lower {
        return Err("Password must contain at least one lowercase letter".to_string());
    }
    if !digit {
        return Err("Password must contain at least one digit".to_string());
    }
    if !special {
        return Err("Password must contain at least one special character".to_string());
    }
    Ok(())
}

pub open spec fn register_problem(r: RegisterRequest) -> Option<Seq<char>> {
    if !(3 <= r.username@.len() <= 255) {
        Some("Username must be between 3 and 255 characters"@)
    } else if password_problem(r.password@) is Some {
        Some(
            "Password must be at least 12 characters and contain uppercase, lowercase, digit, and special character"@,
        )
    } else {
        None
    }
}

pub open spec fn login_problem(r: LoginRequest) -> Option<Seq<char>> {
    if r.username@.len() < 1 {
        Some("Username is required"@)
    } else if r.password@.len() < 1 {
        Some("Password is required"@)
    } else {
        None
    }
}

impl RegisterRequest {
    /// Username of 3 to 255 characters and a strong password.
    pub fn validate(&self) -> (r: Result<(), String>)
        ensures
            match register_problem(*self) {
                None => r is Ok,
                Some(m) => r matches Err(e) && e@ == m,
            },
    {
        let n = self.username.as_str().unicode_len();
        if n < 3 || n > 255 {
            return Err("Username must be between 3 and 255 characters".to_string());
        }
        if validate_strong_password(self.password.as_str()).is_err() {
            return Err(
                "Password must be at least 12 characters and contain uppercase, lowercase, digit, and special character".to_string(),
            );
        }
        Ok(())
    }
}

impl LoginRequest {
    /// Username and password must both be present.
    pub fn validate(&self) -> (r: Result<(), String>)
        ensures
            match login_problem(*self) {
                None => r is Ok,
                Some(m) => r matches Err(e) && e@ == m,
            },
    {
        if self.username.as_str().unicode_len() < 1 {
            return Err("Username is required".to_string());
        }
        if self.password.as_str().unicode_len() < 1 {
            return Err("Password is required".to_string());
        }
        Ok(())
    }
}

/// Emoji and pictograph blocks that folder names may not hold.
pub open spec fn emoji_char(c: char) -> bool {
    ('\u{1F600}' <= c && c <= '\u{1F64F}') || ('\u{1F300}' <= c && c <= '\u{1F5FF}') || (
    '\u{1F680}' <= c && c <= '\u{1F6FF}') || ('\u{1F1E0}' <= c && c <= '\u{1F1FF}') || ('\u{2600}'
        <= c && c <= '\u{26FF}') || ('\u{2700}' <= c && c <= '\u{27BF}') || ('\u{FE00}' <= c && c
        <= '\u{FE0F}') || ('\u{1F900}' <= c && c <= '\u{1F9FF}') || ('\u{1F018}' <= c && c
        <= '\u{1F27F}')
}

pub fn is_emoji(c: char) -> (r: bool)
    ensures
        r == emoji_char(c),
{
    ('\u{1F600}' <= c && c <= '\u{1F64F}') || ('\u{1F300}' <= c && c <= '\u{1F5FF}') || (
    '\u{1F680}' <= c && c <= '\u{1F6FF}') || ('\u{1F1E0}' <= c && c <= '\u{1F1FF}') || ('\u{2600}'
        <= c && c <= '\u{26FF}') || ('\u{2700}' <= c && c <= '\u{27BF}') || ('\u{FE00}' <= c && c
        <= '\u{FE0F}') || ('\u{1F900}' <= c && c <= '\u{1F9FF}') || ('\u{1F018}' <= c && c
        <= '\u{1F27F}')
}

/// `s` holds `pat` at some position.
pub open spec fn holds_at(s: Seq<char>, pat: Seq<char>) -> bool {
    exists|i: int| 0 <= i && i + pat.len() <= s.len() && #[trigger] s.subrange(i, i + pat.len()) == pat
}

/// The first rule that a folder name breaks, as its message.
pub open spec fn folder_name_problem(name: Seq<char>) -> Option<Seq<char>> {
    if forall|i: int| 0 <= i < name.len() ==> space_char(#[trigger] name[i]) {
        Some("Folder name cannot be empty or whitespace only"@)
    } else if name.len() > 255 {
        Some("Folder name must not exceed 255 characters"@)
    } else if name.contains('\0') {
        Some("Folder name cannot contain null bytes"@)
    } else if holds_at(name, seq!['.', '.', '/']) || holds_at(name, seq!['.', '/']) {
        Some("Folder name cannot contain path traversal patterns"@)
    } else if exists|i: int| 0 <= i < name.len() && emoji_char(#[trigger] name[i]) {
        Some("Folder name cannot contain emojis"@)
    } else {
        None
    }
}

/// What the folder-name rules need to know of a name, in one pass: whether it
/// is all whitespace, holds a NUL, holds `../` or `./`, holds an emoji.
fn folder_name_scan(s: &str) -> (r: (bool, bool, bool, bool))
    ensures
        r.0 == forall|i: int| 0 <= i < s@.len() ==> space_char(#[trigger] s@[i]),
        r.1 == s@.contains('\0'),
        r.2 == (holds_at(s@, seq!['.', '.', '/']) || holds_at(s@, seq!['.', '/'])),
        r.3 == exists|i: int| 0 <= i < s@.len() && emoji_char(#[trigger] s@[i]),
{
    let n = s.unicode_len();
    let mut blank = true;
    let mut nul = false;
    let mut dot_slash = false;
    let mut emoji = false;
    let mut i: usize = 0;
    while i < n
        invariant
            n == s@.len(),
            i <= n,
            blank == forall|j: int| 0 <= j < i ==> space_char(#[trigger] s@[j]),
            nul == exists|j: int| 0 <= j < i && #[trigger] s@[j] == '\0',
            dot_slash == exists|j: int| 0 <= j && j + 1 < i && s@[j] == '.' && #[trigger] s@[j + 1] == '/',
            emoji == exists|j: int| 0 <= j < i && emoji_char(#[trigger] s@[j]),
        decreases n - i,
    {
        let c = s.get_char(i);
        if !is_space(c) {
            blank = false;
        }
        if c == '\0' {
            nul = true;
        }
        if c == '/' && i > 0 && s.get_char(i - 1) == '.' {
            dot_slash = true;
            assert(s@[i - 1] == '.' && s@[(i - 1) + 1] == '/');
        }
        if is_emoji(c) {
            emoji = true;
        }
        i += 1;
    }
    proof {
        let short_pat = seq!['.', '/'];
        let long_pat = seq!['.', '.', '/'];
        if dot_slash {
            let j = choose|j: int| 0 <= j && j + 1 < n && s@[j] == '.' && #[trigger] s@[j + 1] == '/';
            assert(s@.subrange(j, j + 2) =~= short_pat);
            assert(s@.subrange(j, j + short_pat.len()) == short_pat);
        }
        if holds_at(s@, short_pat) {
            let j = choose|j: int| 0 <= j && j + short_pat.len() <= s@.len() && #[trigger] s@.subrange(j, j + short_pat.len()) == short_pat;
            assert(s@.subrange(j, j + 2)[0] == '.');
            assert(s@.subrange(j, j + 2)[1] == '/');
            assert(s@[j] == '.' && s@[j + 1] == '/');
        }
        if holds_at(s@, long_pat) {
            let j = choose|j: int| 0 <= j && j + long_pat.len() <= s@.len() && #[trigger] s@.subrange(j, j + long_pat.len()) == long_pat;
            assert(s@.subrange(j, j + 3)[1] == '.');
            assert(s@.subrange(j, j + 3)[2] == '/');
            assert(s@[j + 1] == '.' && s@[(j + 1) + 1] == '/');
        }
        if nul {
            let j = choose|j: int| 0 <= j < n && #[trigger] s@[j] == '\0';
            assert(s@.contains('\0'));
        }
    }
    (blank, nul, dot_slash, emoji)
}

/// Folder names: not blank, at most 255 characters, no NUL, no `../` or `./`,
/// no emoji.
pub fn validate_folder_name(name: &str) -> (r: Result<(), String>)
    ensures
        match folder_name_problem(name@) {
            None => r is Ok,
            Some(m) => r matches Err(e) && e@ == m,
        },
{
    let (blank, nul, traversal, emoji) = folder_name_scan(name);
    if blank {
        return Err("Folder name cannot be empty or whitespace only".to_string());
    }
    if name.unicode_len() > 255 {
        return Err("Folder name must not exceed 255 characters".to_string());
    }
    if nul {
        return Err("Folder name cannot contain null bytes".to_string());
    }
    if traversal {
        return Err("Folder name cannot contain path traversal patterns".to_string());
    }
    if emoji {
        return Err("Folder name cannot contain emojis".to_string());
    }
    Ok(())
}

} // verus!
