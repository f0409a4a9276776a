use transcribe::credential::{
    accept_key, key_from_file, key_from_prompt, CredentialError, KEY_FILE, PROMPT, SAVED,
};

#[test]
fn a_stored_key_loses_the_white_space_around_it() {
    assert_eq!(key_from_file("abc123\n"), Ok("abc123".to_string()));
    assert_eq!(key_from_file("  \t abc123 \r\n\n"), Ok("abc123".to_string()));
    assert_eq!(key_from_file("abc123"), Ok("abc123".to_string()));
    assert_eq!(key_from_file("\u{a0}abc\u{3000}"), Ok("abc".to_string()));
}

#[test]
fn white_space_inside_a_key_stays() {
    assert_eq!(key_from_file(" a b\tc \n"), Ok("a b\tc".to_string()));
}

#[test]
fn an_empty_key_file_is_refused() {
    for contents in ["", "\n", "   ", " \t\r\n "] {
        assert_eq!(key_from_file(contents), Err(CredentialError::EmptyKeyFile));
    }
    assert_eq!(CredentialError::EmptyKeyFile.message(), "API key file is empty");
}

#[test]
fn a_typed_key_is_the_line_without_its_end() {
    assert_eq!(key_from_prompt("invalid_key_for_testing\n"), "invalid_key_for_testing");
    assert_eq!(key_from_prompt("  key  \r\n"), "key");
    assert_eq!(key_from_prompt("\n"), "");
    assert_eq!(key_from_prompt(""), "");
}

#[test]
fn a_key_is_accepted_as_it_is_unless_empty() {
    assert_eq!(accept_key("k"), Ok("k".to_string()));
    assert_eq!(accept_key(" k "), Ok(" k ".to_string()));
    assert_eq!(accept_key(""), Err(CredentialError::EmptyKeyFile));
}

#[test]
fn the_user_is_told_what_happens_to_the_key() {
    assert_eq!(KEY_FILE, "api_key");
    assert_eq!(PROMPT, "Deepgram API key not found. Please enter it:");
    assert_eq!(SAVED, "API key saved.");
}
