//! Key names of the settings file and the Win32 codes they stand for.
//!
//! The names are matched without regard to case: a name is lowercased first
//! (Unicode lowercasing, as `str::to_lowercase` does it), then compared with
//! the known names. The codes are Win32's hotkey modifier flags and virtual
//! key codes.
use vstd::prelude::*;
use vstd::string::*;

verus! {

/// `MOD_ALT`: the Alt key as a hotkey modifier.
pub const MOD_ALT: u32 = 0x0001;

/// `MOD_CONTROL`: the Ctrl key as a hotkey modifier.
pub const MOD_CONTROL: u32 = 0x0002;

/// `MOD_SHIFT`: the Shift key as a hotkey modifier.
pub const MOD_SHIFT: u32 = 0x0004;

/// `MOD_WIN`: the Windows key as a hotkey modifier.
pub const MOD_WIN: u32 = 0x0008;

/// `VK_RETURN`: the virtual key code of Enter.
pub const VK_RETURN: u32 = 0x0D;

/// `VK_1`: the virtual key code of the digit 1; the digits up to 9 follow it.
pub const VK_1: u32 = 0x31;

/// What `str::to_lowercase` gives for a string: its Unicode lowercase mapping.
pub uninterp spec fn lowercase(s: Seq<char>) -> Seq<char>;

/// Calls `str::to_lowercase`, which maps each character of `s` to its
/// Unicode lowercase form. The result is named by `lowercase`; which
/// characters that mapping changes is not stated here.
#[verifier::external_body]
fn to_lowercase(s: &str) -> (r: String)
    ensures
        r@ == lowercase(s@),
{
    s.to_lowercase()
}

/// The two strings hold the same characters.
pub fn text_eq(a: &str, b: &str) -> (r: bool)
    ensures
        r == (a@ == b@),
{
    let n = a.unicode_len();
    if n != b.unicode_len() {
        return false;
    }
    let mut i: usize = 0;
    while i < n
        invariant
            n == a@.len(),
            n == b@.len(),
            0 <= i <= n,
            forall|j: int| 0 <= j < i ==> a@[j] == b@[j],
        decreases n - i,
    {
        if a.get_char(i) != b.get_char(i) {
            return false;
        }
        i = i + 1;
    }
    assert(a@ =~= b@);
    true
}

/// The modifier flag that a lowercased modifier name stands for; Alt for an
/// unknown name.
pub open spec fn modifier_code_of(name: Seq<char>) -> u32 {
    if name == "alt"@ {
        MOD_ALT
    } else if name == "ctrl"@ || name == "control"@ {
        MOD_CONTROL
    } else if name == "shift"@ {
        MOD_SHIFT
    } else if name == "win"@ || name == "super"@ {
        MOD_WIN
    } else {
        MOD_ALT
    }
}

/// The virtual key code that a lowercased key name stands for; 0 for a name
/// that stands for no key.
pub open spec fn key_code_of(name: Seq<char>) -> u32 {
    if name == "return"@ || name == "enter"@ {
        VK_RETURN
    } else if name == "q"@ {
        0x51
    } else if name == "t"@ {
        0x54
    } else if name == "j"@ {
        0x4A
    } else if name == "k"@ {
        0x4B
    } else if name == "l"@ {
        0x4C
    } else if name == "f"@ {
        0x46
    } else if name == "h"@ {
        0x48
    } else if name == "1"@ {
        VK_1
    } else if name == "2"@ {
        0x32
    } else if name == "3"@ {
        0x33
    } else if name == "4"@ {
        0x34
    } else if name == "5"@ {
        0x35
    } else if name == "6"@ {
        0x36
    } else if name == "7"@ {
        0x37
    } else if name == "8"@ {
        0x38
    } else if name == "9"@ {
        0x39
    } else {
        0
    }
}

/// The modifier flag of an already lowercased modifier name.
pub fn modifier_code(lower: &str) -> (r: u32)
    ensures
        r == modifier_code_of(lower@),
{
    if text_eq(lower, "alt") {
        MOD_ALT
    } else if text_eq(lower, "ctrl") || text_eq(lower, "control") {
        MOD_CONTROL
    } else if text_eq(lower, "shift") {
        MOD_SHIFT
    } else if text_eq(lower, "win") || text_eq(lower, "super") {
        MOD_WIN
    } else {
        MOD_ALT
    }
}

/// The virtual key code of an already lowercased key name.
pub fn key_code(lower: &str) -> (r: u32)
    ensures
        r == key_code_of(lower@),
{
    if text_eq(lower, "return") || text_eq(lower, "enter") {
        VK_RETURN
    } else if text_eq(lower, "q") {
        0x51
    } else if text_eq(lower, "t") {
        0x54
    } else if text_eq(lower, "j") {
        0x4A
    } else if text_eq(lower, "k") {
        0x4B
    } else if text_eq(lower, "l") {
        0x4C
    } else if text_eq(lower, "f") {
        0x46
    } else if text_eq(lower, "h") {
        0x48
    } else if text_eq(lower, "1") {
        VK_1
    } else if text_eq(lower, "2") {
        0x32
    } else if text_eq(lower, "3") {
        0x33
    } else if text_eq(lower, "4") {
        0x34
    } else if text_eq(lower, "5") {
        0x35
    } else if text_eq(lower, "6") {
        0x36
    } else if text_eq(lower, "7") {
        0x37
    } else if text_eq(lower, "8") {
        0x38
    } else if text_eq(lower, "9") {
        0x39
    } else {
        0
    }
}

/// The modifier flag of a modifier name as the settings file writes it.
pub fn modifier_value(name: &str) -> (r: u32)
    ensures
        r == modifier_code_of(lowercase(name@)),
{
    let lower = to_lowercase(name);
    modifier_code(lower.as_str())
}

/// The virtual key code of a key name as the settings file writes it.
pub fn key_value(name: &str) -> (r: u32)
    ensures
        r == key_code_of(lowercase(name@)),
{
    let lower = to_lowercase(name);
    key_code(lower.as_str())
}

// ----------------------------------------------------------------------------
// Matching without regard to ASCII case
// ----------------------------------------------------------------------------

/// `c` with an ASCII capital letter turned into its small letter.
pub open spec fn ascii_lower(c: char) -> char {
    if 'A' <= c && c <= 'Z' {
        ((c as u32) + 32) as char
    } else {
        c
    }
}

/// The two character sequences are equal once ASCII letters are lowercased,
/// as `str::eq_ignore_ascii_case` compares them.
pub open spec fn eq_ignoring_ascii_case(a: Seq<char>, b: Seq<char>) -> bool {
    &&& a.len() == b.len()
    &&& forall|i: int| 0 <= i < a.len() ==> #[trigger] ascii_lower(a[i]) == ascii_lower(b[i])
}

fn char_ascii_lower(c: char) -> (r: char)
    ensures
        r == ascii_lower(c),
{
    if 'A' <= c && c <= 'Z' {
        ((c as u8) + 32) as char
    } else {
        c
    }
}

/// Whether the two strings are equal once ASCII letters are lowercased.
pub fn eq_ignore_ascii_case(a: &str, b: &str) -> (r: bool)
    ensures
        r == eq_ignoring_ascii_case(a@, b@),
{
    let n = a.unicode_len();
    if n != b.unicode_len() {
        return false;
    }
    let mut i: usize = 0;
    while i < n
        invariant
            n == a@.len(),
            n == b@.len(),
            0 <= i <= n,
            forall|j: int| 0 <= j < i ==> #[trigger] ascii_lower(a@[j]) == ascii_lower(b@[j]),
        decreases n - i,
    {
        if char_ascii_lower(a.get_char(i)) != char_ascii_lower(b.get_char(i)) {
            return false;
        }
        i = i + 1;
    }
    true
}


// ----------------------------------------------------------------------------
// Key codes are the keys' characters
// ----------------------------------------------------------------------------

/// The one-letter key names stand for the keys of those letters, whose
/// virtual key codes are the ASCII codes of the capital letters.
pub proof fn lemma_letter_keys(c: char)
    requires
        c == 'q' || c == 't' || c == 'j' || c == 'k' || c == 'l' || c == 'f' || c == 'h',
    ensures
        key_code_of(seq![c]) == (c as u32) - 32,
{
    reveal_strlit("return");
    reveal_strlit("enter");
    reveal_strlit("q");
    reveal_strlit("t");
    reveal_strlit("j");
    reveal_strlit("k");
    reveal_strlit("l");
    reveal_strlit("f");
    reveal_strlit("h");
    assert("return"@.len() == 6 && "enter"@.len() == 5);
    assert("q"@[0] == 'q' && "t"@[0] == 't' && "j"@[0] == 'j' && "k"@[0] == 'k');
    assert("l"@[0] == 'l' && "f"@[0] == 'f' && "h"@[0] == 'h');
    assert("q"@.len() == 1 && "t"@.len() == 1 && "j"@.len() == 1 && "k"@.len() == 1);
    assert("l"@.len() == 1 && "f"@.len() == 1 && "h"@.len() == 1);
    let s = seq![c];
    assert(s.len() == 1 && s[0] == c);
    if c == 'q' {
        assert(s =~= "q"@);
    } else if c == 't' {
        assert(s =~= "t"@);
    } else if c == 'j' {
        assert(s =~= "j"@);
    } else if c == 'k' {
        assert(s =~= "k"@);
    } else if c == 'l' {
        assert(s =~= "l"@);
    } else if c == 'f' {
        assert(s =~= "f"@);
    } else {
        assert(s =~= "h"@);
    }
}

/// The digit key names 1 to 9 stand for the digit keys, whose virtual key
/// codes are the ASCII codes of the digits.
pub proof fn lemma_digit_keys(c: char)
    requires
        '1' <= c <= '9',
    ensures
        key_code_of(seq![c]) == c as u32,
{
    reveal_strlit("return");
    reveal_strlit("enter");
    reveal_strlit("q");
    reveal_strlit("t");
    reveal_strlit("j");
    reveal_strlit("k");
    reveal_strlit("l");
    reveal_strlit("f");
    reveal_strlit("h");
    reveal_strlit("1");
    reveal_strlit("2");
    reveal_strlit("3");
    reveal_strlit("4");
    reveal_strlit("5");
    reveal_strlit("6");
    reveal_strlit("7");
    reveal_strlit("8");
    reveal_strlit("9");
    let s = seq![c];
    assert(s.len() == 1 && s[0] == c);
    assert("return"@.len() == 6 && "enter"@.len() == 5);
    assert("q"@[0] == 'q' && "t"@[0] == 't' && "j"@[0] == 'j' && "k"@[0] == 'k');
    assert("l"@[0] == 'l' && "f"@[0] == 'f' && "h"@[0] == 'h');
    assert("1"@[0] == '1' && "2"@[0] == '2' && "3"@[0] == '3' && "4"@[0] == '4' && "5"@[0] == '5');
    assert("6"@[0] == '6' && "7"@[0] == '7' && "8"@[0] == '8' && "9"@[0] == '9');
    assert("1"@.len() == 1 && "2"@.len() == 1 && "3"@.len() == 1 && "4"@.len() == 1);
    assert("5"@.len() == 1 && "6"@.len() == 1 && "7"@.len() == 1 && "8"@.len() == 1);
    assert("9"@.len() == 1);
    assert(s != "q"@ && s != "t"@ && s != "j"@ && s != "k"@ && s != "l"@ && s != "f"@ && s
        != "h"@);
    if c == '1' {
        assert(s =~= "1"@);
    } else if c == '2' {
        assert(s =~= "2"@);
    } else if c == '3' {
        assert(s =~= "3"@);
    } else if c == '4' {
        assert(s =~= "4"@);
    } else if c == '5' {
        assert(s =~= "5"@);
    } else if c == '6' {
        assert(s =~= "6"@);
    } else if c == '7' {
        assert(s =~= "7"@);
    } else if c == '8' {
        assert(s =~= "8"@);
    } else {
        assert(s =~= "9"@);
    }
}

/// The Enter key can be named "return" or "enter", and an unknown
/// modifier name falls back to Alt; the four known modifiers have four
/// different flags.
pub proof fn lemma_named_keys()
    ensures
        key_code_of("return"@) == VK_RETURN,
        key_code_of("enter"@) == VK_RETURN,
        modifier_code_of("control"@) == modifier_code_of("ctrl"@),
        modifier_code_of("super"@) == modifier_code_of("win"@),
        modifier_code_of("alt"@) == MOD_ALT,
        modifier_code_of("ctrl"@) == MOD_CONTROL,
        modifier_code_of("shift"@) == MOD_SHIFT,
        modifier_code_of("win"@) == MOD_WIN,
{
    reveal_strlit("return");
    reveal_strlit("enter");
    reveal_strlit("alt");
    reveal_strlit("ctrl");
    reveal_strlit("control");
    reveal_strlit("shift");
    reveal_strlit("win");
    reveal_strlit("super");
    assert("alt"@.len() == 3 && "ctrl"@.len() == 4 && "control"@.len() == 7);
    assert("shift"@.len() == 5 && "win"@.len() == 3 && "super"@.len() == 5);
    assert("alt"@[0] == 'a' && "win"@[0] == 'w' && "shift"@[1] == 'h' && "super"@[1] == 'u');
    assert("return"@.len() == 6 && "enter"@.len() == 5);
}

} // verus!
