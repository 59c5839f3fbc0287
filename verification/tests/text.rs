use logi_lcd::wire::str_to_wchar;
use logi_lcd::LcdError;

fn std_wire(s: &str) -> Vec<u16> {
    let mut v: Vec<u16> = s.encode_utf16().collect();
    v.push(0);
    v
}

#[test]
fn ascii_text_is_its_units_and_a_terminator() {
    assert_eq!(str_to_wchar("abc"), Ok(vec![97u16, 98, 99, 0]));
}

#[test]
fn empty_text_is_the_terminator_alone() {
    assert_eq!(str_to_wchar(""), Ok(vec![0u16]));
}

#[test]
fn wire_form_is_one_longer_than_the_units() {
    for s in ["", "a", "Hello, LCD", "Zwölf Boxkämpfer", "日本語", "a😀b"] {
        let units = s.encode_utf16().count();
        let wire = str_to_wchar(s).unwrap();
        assert_eq!(wire.len(), units + 1);
        assert_eq!(wire[units], 0);
        assert!(wire[..units].iter().all(|&u| u != 0));
    }
}

#[test]
fn text_within_sixteen_bits_has_one_unit_per_character() {
    let s = "Grüße €";
    let wire = str_to_wchar(s).unwrap();
    assert_eq!(wire.len(), s.chars().count() + 1);
    for (i, c) in s.chars().enumerate() {
        assert_eq!(u32::from(wire[i]), u32::from(c));
    }
    assert_eq!(wire, vec![0x47, 0x72, 0xFC, 0xDF, 0x65, 0x20, 0x20AC, 0]);
}

#[test]
fn character_beyond_sixteen_bits_is_a_surrogate_pair() {
    assert_eq!(str_to_wchar("😀"), Ok(vec![0xD83Du16, 0xDE00, 0]));
    assert_eq!(str_to_wchar("\u{10000}"), Ok(vec![0xD800u16, 0xDC00, 0]));
    assert_eq!(str_to_wchar("\u{10FFFF}"), Ok(vec![0xDBFFu16, 0xDFFF, 0]));
}

#[test]
fn edges_of_the_sixteen_bit_range() {
    assert_eq!(str_to_wchar("\u{1}"), Ok(vec![1u16, 0]));
    assert_eq!(str_to_wchar("\u{D7FF}"), Ok(vec![0xD7FFu16, 0]));
    assert_eq!(str_to_wchar("\u{E000}"), Ok(vec![0xE000u16, 0]));
    assert_eq!(str_to_wchar("\u{FFFF}"), Ok(vec![0xFFFFu16, 0]));
}

#[test]
fn wire_form_agrees_with_the_standard_encoder() {
    for s in [
        "",
        "x",
        "The quick brown fox",
        "Ünïcödé",
        "Ελληνικά",
        "日本語のテキスト",
        "😀😃😄",
        "mixed: a€𝄞z",
        "\u{FFFF}\u{10000}\u{D7FF}\u{E000}",
    ] {
        assert_eq!(str_to_wchar(s), Ok(std_wire(s)));
    }
}

#[test]
fn null_character_at_the_start_is_refused() {
    assert_eq!(str_to_wchar("\0abc"), Err(LcdError::NullCharacter));
}

#[test]
fn null_character_in_the_middle_is_refused() {
    assert_eq!(str_to_wchar("ab\0cd"), Err(LcdError::NullCharacter));
}

#[test]
fn null_character_at_the_end_is_refused() {
    assert_eq!(str_to_wchar("abc\0"), Err(LcdError::NullCharacter));
}

#[test]
fn null_character_alone_is_refused() {
    assert_eq!(str_to_wchar("\0"), Err(LcdError::NullCharacter));
}

#[test]
fn null_character_after_a_surrogate_pair_is_refused() {
    assert_eq!(str_to_wchar("😀\0"), Err(LcdError::NullCharacter));
}
