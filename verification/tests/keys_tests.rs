use mochiwm::keys::{
    eq_ignore_ascii_case, key_code, key_value, modifier_code, modifier_value, text_eq, MOD_ALT,
    MOD_CONTROL, MOD_SHIFT, MOD_WIN, VK_1, VK_RETURN,
};

#[test]
fn modifier_codes_of_lowercase_names() {
    assert_eq!(modifier_code("alt"), MOD_ALT);
    assert_eq!(modifier_code("ctrl"), MOD_CONTROL);
    assert_eq!(modifier_code("control"), MOD_CONTROL);
    assert_eq!(modifier_code("shift"), MOD_SHIFT);
    assert_eq!(modifier_code("win"), MOD_WIN);
    assert_eq!(modifier_code("super"), MOD_WIN);
    assert_eq!(modifier_code("hyper"), MOD_ALT);
    assert_eq!(modifier_code(""), MOD_ALT);
}

#[test]
fn modifier_names_ignore_case() {
    assert_eq!(modifier_value("CTRL"), MOD_CONTROL);
    assert_eq!(modifier_value("Shift"), MOD_SHIFT);
    assert_eq!(modifier_value("SuPeR"), MOD_WIN);
}

#[test]
fn key_codes_of_lowercase_names() {
    assert_eq!(key_code("return"), VK_RETURN);
    assert_eq!(key_code("enter"), VK_RETURN);
    assert_eq!(key_code("q"), 0x51);
    assert_eq!(key_code("t"), 0x54);
    assert_eq!(key_code("j"), 0x4A);
    assert_eq!(key_code("k"), 0x4B);
    assert_eq!(key_code("l"), 0x4C);
    assert_eq!(key_code("f"), 0x46);
    assert_eq!(key_code("h"), 0x48);
    assert_eq!(key_code("1"), VK_1);
    assert_eq!(key_code("5"), 0x35);
    assert_eq!(key_code("9"), 0x39);
    assert_eq!(key_code("0"), 0);
    assert_eq!(key_code("x"), 0);
    assert_eq!(key_code("Q"), 0);
}

#[test]
fn key_names_ignore_case() {
    assert_eq!(key_value("RETURN"), VK_RETURN);
    assert_eq!(key_value("Q"), 0x51);
    assert_eq!(key_value("Enter"), VK_RETURN);
    assert_eq!(key_value("space"), 0);
}

#[test]
fn unicode_lowercasing_reaches_ascii_names() {
    // The Kelvin sign lowercases to the letter k.
    assert_eq!(key_value("\u{212A}"), 0x4B);
}

#[test]
fn text_equality() {
    assert!(text_eq("alt", "alt"));
    assert!(!text_eq("alt", "alt "));
    assert!(!text_eq("alt", "Alt"));
    assert!(text_eq("", ""));
    assert!(text_eq("é", "é"));
}

#[test]
fn ascii_case_insensitive_equality() {
    assert!(eq_ignore_ascii_case("Shell_TrayWnd", "shell_traywnd"));
    assert!(eq_ignore_ascii_case("PROGMAN", "Progman"));
    assert!(!eq_ignore_ascii_case("Progman", "Progma"));
    assert!(!eq_ignore_ascii_case("É", "é"));
    assert!(eq_ignore_ascii_case("É", "É"));
}
