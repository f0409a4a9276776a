//! The API key, as read from the key file or typed at the prompt.
//!
//! Where the key comes from is the caller's business. Here is what is done
//! with the text once it is there.

use vstd::prelude::*;
use vstd::string::*;

verus! {

/// Why a stored key is unusable.
#[derive(Clone, Copy, Debug, PartialEq, Eq, Structural)]
pub enum CredentialError {
    /// The key file holds nothing but white space.
    EmptyKeyFile,
}

/// Name of the key file inside the configuration directory.
pub const KEY_FILE: &'static str = "api_key";

/// Shown before the key is read from the terminal.
pub const PROMPT: &'static str = "Deepgram API key not found. Please enter it:";

/// Shown once a typed key is stored.
pub const SAVED: &'static str = "API key saved.";

/// Whether `char::is_whitespace` holds of `c`: whether `c` has the Unicode
/// property White_Space.
pub uninterp spec fn white_space(c: char) -> bool;

/// `text` without the white space it begins with.
pub open spec fn trim_start(text: Seq<char>) -> Seq<char>
    decreases text.len(),
{
    if text.len() > 0 && white_space(text.first()) {
        trim_start(text.drop_first())
    } else {
        text
    }
}

/// `text` without the white space it ends with.
pub open spec fn trim_end(text: Seq<char>) -> Seq<char>
    decreases text.len(),
{
    if text.len() > 0 && white_space(text.last()) {
        trim_end(text.drop_last())
    } else {
        text
    }
}

/// `text` without the white space around it.
pub open spec fn trimmed(text: Seq<char>) -> Seq<char> {
    trim_end(trim_start(text))
}

/// `str::trim`: the text without leading and trailing white space, where
/// white space is what `char::is_whitespace` accepts.
#[verifier::external_body]
fn trim(text: &str) -> (r: &str)
    ensures
        r@ == trimmed(text@),
        r@.len() > 0 ==> !white_space(r@.first()) && !white_space(r@.last()),
{
    text.trim()
}

impl CredentialError {
    /// Text shown for this error.
    pub open spec fn text(self) -> Seq<char> {
        "API key file is empty"@
    }

    /// Text shown for this error.
    pub fn message(&self) -> (r: String)
        ensures
            r@ == self.text(),
    {
        String::from_str("API key file is empty")
    }
}

/// Accepts a key that is already free of surrounding white space, unless
/// nothing is left of it.
pub fn accept_key(key: &str) -> (r: Result<String, CredentialError>)
    ensures
        match r {
            Ok(accepted) => accepted@ == key@ && key@.len() > 0,
            Err(e) => key@.len() == 0 && e == CredentialError::EmptyKeyFile,
        },
{
    if key.is_empty() {
        Err(CredentialError::EmptyKeyFile)
    } else {
        Ok(String::from_str(key))
    }
}

/// The key in the content of the key file: the content without the white
/// space around it. A file with nothing else in it is refused.
pub fn key_from_file(contents: &str) -> (r: Result<String, CredentialError>)
    ensures
        match r {
            Ok(key) => key@ == trimmed(contents@) && key@.len() > 0,
            Err(e) => trimmed(contents@).len() == 0 && e == CredentialError::EmptyKeyFile,
        },
{
    accept_key(trim(contents))
}

/// The key in a line typed at the prompt: the line without the white space
/// around it, whatever is left.
pub fn key_from_prompt(line: &str) -> (r: String)
    ensures
        r@ == trimmed(line@),
{
    String::from_str(trim(line))
}

} // verus!
