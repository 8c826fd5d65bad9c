use clip_inject::text::{empty_payload, piped_payload, TERMINATOR};

#[test]
fn piped_hello_is_utf16_with_terminator() {
    let expected: Vec<u16> = vec![
        'h' as u16, 'e' as u16, 'l' as u16, 'l' as u16, 'o' as u16, 0,
    ];
    assert_eq!(piped_payload("hello"), expected);
}

#[test]
fn piped_empty_is_terminator_alone() {
    assert_eq!(piped_payload(""), vec![TERMINATOR]);
}

#[test]
fn piped_non_ascii_keeps_code_points() {
    let expected: Vec<u16> = vec![0xDC, 0x6E, 0xEF, 0x63, 0x6F, 0x64, 0xE9, 0];
    assert_eq!(piped_payload("Ünïcodé"), expected);
}

#[test]
fn piped_astral_character_becomes_surrogate_pair() {
    assert_eq!(piped_payload("a\u{1F600}"), vec![0x61, 0xD83D, 0xDE00, 0]);
}

#[test]
fn piped_text_with_newlines_is_kept_whole() {
    assert_eq!(piped_payload("a\r\nb\n"), vec![0x61, 0x0D, 0x0A, 0x62, 0x0A, 0]);
}

#[test]
fn empty_payload_is_terminator() {
    assert_eq!(empty_payload(), vec![0]);
}
