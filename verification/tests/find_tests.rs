use oxide::find_dialog::glob_match;

#[test]
fn glob_star_offline_zip_matches_offline_zip() {
    assert!(glob_match("*offline.zip", "offline.zip", true));
    assert!(glob_match("*offline.zip", "offline.zip", false));
}

#[test]
fn glob_exact_and_star_prefix() {
    assert!(glob_match("offline.zip", "offline.zip", true));
    assert!(glob_match("*", "offline.zip", true));
    assert!(glob_match("*.zip", "offline.zip", true));
    assert!(glob_match("", "anything", true));
}

#[test]
fn find_dialog_glob_star_offline_zip_matches_offline_zip() {
    assert!(glob_match("*offline.zip", "offline.zip", true));
    assert!(glob_match("*offline.zip", "offline.zip", false));
}

#[test]
fn find_dialog_glob_exact_and_star_prefix() {
    assert!(glob_match("offline.zip", "offline.zip", true));
    assert!(glob_match("*", "offline.zip", true));
    assert!(glob_match("*.zip", "offline.zip", true));
    assert!(glob_match("", "anything", true));
}

#[test]
fn glob_question_mark_matches_one_character() {
    assert!(glob_match("a?c", "abc", true));
    assert!(!glob_match("a?c", "ac", true));
    assert!(!glob_match("a?c", "abbc", true));
}

#[test]
fn glob_case_follows_flag() {
    assert!(!glob_match("*.ZIP", "offline.zip", true));
    assert!(glob_match("*.ZIP", "offline.zip", false));
    assert!(glob_match("Read*", "readme.md", false));
}

#[test]
fn glob_literal_mismatch_and_trailing_text() {
    assert!(!glob_match("offline.zip", "offline.zips", true));
    assert!(!glob_match("*.zip", "offline.tar", true));
    assert!(glob_match("a*b*c", "axxbyyc", true));
    assert!(!glob_match("a*b*c", "axxbyy", true));
}
