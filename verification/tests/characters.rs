use crossplatform_path::canonical::{
    contains_char, contains_control, contains_double_slash, contains_forbidden, contains_reserved_component,
    reserved_name, trimmed_bounds, with_drive_rewritten, with_slashes,
};
use crossplatform_path::chars::{ascii_letter, control_char, forbidden_char, to_ascii_lower, whitespace_char};
use crossplatform_path::text::{chars_of, string_of, string_of_range};

#[test]
fn white_space_is_what_the_standard_library_trims() {
    for code in 0..=0x10FFFFu32 {
        if let Some(c) = char::from_u32(code) {
            assert_eq!(whitespace_char(c), c.is_whitespace(), "{:?}", c);
        }
    }
}

#[test]
fn trimmed_text_is_what_the_standard_library_leaves() {
    for raw in ["", " ", "  a  ", "\u{a0}a b\u{2028}\t", "a", " \n "] {
        let chars = chars_of(raw);
        let (from, to) = trimmed_bounds(&chars);
        assert_eq!(string_of_range(&chars, from, to), raw.trim());
    }
}

#[test]
fn lower_case_of_ascii_is_that_of_unicode() {
    for code in 0..=0x10FFFFu32 {
        if let Some(c) = char::from_u32(code) {
            let lowered: String = c.to_lowercase().collect();
            if c.is_ascii() {
                assert_eq!(lowered, to_ascii_lower(c).to_string());
            } else {
                assert!(!lowered.chars().any(|l| "conprauxlmt123456789./".contains(l)), "{:?}", c);
                assert_eq!(to_ascii_lower(c), c);
            }
        }
    }
}

#[test]
fn character_classes() {
    for c in ['<', '>', '"', '|', '?', '*'] {
        assert!(forbidden_char(c));
    }
    for c in [':', '/', '\\', 'a', ' ', '.'] {
        assert!(!forbidden_char(c));
    }
    assert!(control_char('\0') && control_char('\u{1f}') && control_char('\u{7f}'));
    assert!(!control_char(' ') && !control_char('~') && !control_char('\u{80}'));
    assert!(ascii_letter('a') && ascii_letter('Z') && !ascii_letter('1') && !ascii_letter('é'));
    assert!(!ascii_letter('@') && !ascii_letter('[') && !ascii_letter('`') && !ascii_letter('{'));
    assert_eq!(to_ascii_lower('Q'), 'q');
    assert_eq!(to_ascii_lower('q'), 'q');
    assert_eq!(to_ascii_lower('É'), 'É');
    assert_eq!(to_ascii_lower('@'), '@');
    assert_eq!(to_ascii_lower('['), '[');
}

#[test]
fn text_goes_to_characters_and_back() {
    for raw in ["", "a", "a/b", "日本語/ü"] {
        let chars = chars_of(raw);
        assert_eq!(chars, raw.chars().collect::<Vec<char>>());
        assert_eq!(string_of(&chars), raw);
    }
    let chars = chars_of("0123456");
    assert_eq!(string_of_range(&chars, 2, 5), "234");
    assert_eq!(string_of_range(&chars, 3, 3), "");
}

#[test]
fn scans_of_the_text() {
    assert!(contains_forbidden(&chars_of("ab?")));
    assert!(!contains_forbidden(&chars_of("ab:")));
    assert!(contains_control(&chars_of("a\rb")));
    assert!(!contains_control(&chars_of("a b")));
    assert!(contains_char(&chars_of("a:b"), ':'));
    assert!(!contains_char(&chars_of("ab"), ':'));
    assert!(contains_double_slash(&chars_of("a//b")));
    assert!(contains_double_slash(&chars_of("//")));
    assert!(!contains_double_slash(&chars_of("/a/b/")));
    assert!(!contains_double_slash(&chars_of("/")));
    assert!(!contains_double_slash(&chars_of("")));
}

#[test]
fn reserved_names_by_component() {
    let chars = chars_of("a/CoM7/b");
    assert!(reserved_name(&chars, 2, 6));
    assert!(!reserved_name(&chars, 2, 5));
    assert!(!reserved_name(&chars, 0, 1));
    assert!(contains_reserved_component(&chars));
    assert!(!contains_reserved_component(&chars_of("a/com7b/com/7")));
    assert!(contains_reserved_component(&chars_of("nul")));
    assert!(contains_reserved_component(&chars_of("a/..")));
    assert!(!contains_reserved_component(&chars_of("")));
    assert!(!contains_reserved_component(&chars_of("//")));
}

#[test]
fn rewriting_steps() {
    let chars = chars_of(r" a\b\ ");
    assert_eq!(string_of(&with_slashes(&chars, 1, 5)), "a/b/");
    assert_eq!(string_of(&with_drive_rewritten(chars_of("C:/x"))), "/mnt/c/x");
    assert_eq!(string_of(&with_drive_rewritten(chars_of("C/x"))), "C/x");
    assert_eq!(string_of(&with_drive_rewritten(chars_of("1:/x"))), "1:/x");
    assert_eq!(string_of(&with_drive_rewritten(chars_of(":"))), ":");
}
