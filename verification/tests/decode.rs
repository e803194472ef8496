use keydecode::input::{decode, decode_arrow, Key};

#[test]
fn uppercase_letters_decode_case_preserving() {
    assert_eq!(decode(65), Key::Letter('A'));
    assert_eq!(decode(66), Key::Letter('B'));
    assert_eq!(decode(89), Key::Letter('Y'));
    assert_eq!(decode(90), Key::Letter('Z'));
}

#[test]
fn lowercase_letters_decode_case_preserving() {
    assert_eq!(decode(97), Key::Letter('a'));
    assert_eq!(decode(98), Key::Letter('b'));
    assert_eq!(decode(121), Key::Letter('y'));
    assert_eq!(decode(122), Key::Letter('z'));
}

#[test]
fn digits_decode_to_their_value() {
    assert_eq!(decode(48), Key::Number(0));
    assert_eq!(decode(49), Key::Number(1));
    assert_eq!(decode(53), Key::Number(5));
    assert_eq!(decode(57), Key::Number(9));
}

#[test]
fn colon_byte_yields_number_ten_boundary_quirk() {
    assert_eq!(decode(58), Key::Number(10));
}

#[test]
fn carriage_return_decodes_to_enter() {
    assert_eq!(decode(13), Key::Enter);
}

#[test]
fn escape_byte_decodes_to_pending_marker() {
    assert_eq!(decode(27), Key::Escape);
}

#[test]
fn unrecognized_bytes_decode_to_nothing() {
    assert_eq!(decode(200), Key::Nothing);
    assert_eq!(decode(0), Key::Nothing);
    assert_eq!(decode(12), Key::Nothing);
    assert_eq!(decode(14), Key::Nothing);
    assert_eq!(decode(47), Key::Nothing);
    assert_eq!(decode(59), Key::Nothing);
    assert_eq!(decode(64), Key::Nothing);
    assert_eq!(decode(91), Key::Nothing);
    assert_eq!(decode(96), Key::Nothing);
    assert_eq!(decode(123), Key::Nothing);
    assert_eq!(decode(255), Key::Nothing);
}

#[test]
fn arrow_codes_decode_to_arrows() {
    assert_eq!(decode_arrow(91, 65), Key::Up);
    assert_eq!(decode_arrow(91, 66), Key::Down);
    assert_eq!(decode_arrow(91, 67), Key::Right);
    assert_eq!(decode_arrow(91, 68), Key::Left);
}

#[test]
fn arrow_ignores_first_byte() {
    assert_eq!(decode_arrow(0, 65), Key::Up);
    assert_eq!(decode_arrow(255, 66), Key::Down);
    assert_eq!(decode_arrow(91, 69), Key::Nothing);
    assert_eq!(decode_arrow(91, 90), Key::Nothing);
    assert_eq!(decode_arrow(91, 27), Key::Nothing);
}

#[test]
fn decode_is_stateless_across_calls() {
    let first = decode(97);
    let _ = decode(200);
    let _ = decode_arrow(91, 66);
    let second = decode(97);
    assert_eq!(first, second);
    assert_eq!(decode_arrow(91, 65), decode_arrow(91, 65));
}
