use zoom_sdk::marshal::{option_str_encode_nul_wide, str_to_u16_vec};
use zoom_sdk::meeting_ui::MeetingUiController;

#[test]
fn ascii_is_encoded_with_terminator() {
    assert_eq!(str_to_u16_vec("ab"), vec![0x61, 0x62, 0]);
}

#[test]
fn empty_string_is_just_the_terminator() {
    assert_eq!(str_to_u16_vec(""), vec![0]);
}

#[test]
fn bmp_characters_are_single_units() {
    assert_eq!(str_to_u16_vec("é"), vec![0x00E9, 0]);
    assert_eq!(str_to_u16_vec("日本"), vec![0x65E5, 0x672C, 0]);
}

#[test]
fn astral_characters_become_surrogate_pairs() {
    assert_eq!(str_to_u16_vec("😀"), vec![0xD83D, 0xDE00, 0]);
    assert_eq!(str_to_u16_vec("a😀b"), vec![0x61, 0xD83D, 0xDE00, 0x62, 0]);
}

#[test]
fn encoding_agrees_with_the_host_encoder() {
    let mixed = "Zoom 会議 🎥 réunion";
    let expected: Vec<u16> = mixed.encode_utf16().chain([0]).collect();
    assert_eq!(str_to_u16_vec(mixed), expected);
}

#[test]
fn optional_strings_encode_presence() {
    assert_eq!(option_str_encode_nul_wide(None), None);
    assert_eq!(option_str_encode_nul_wide(Some("hi")), Some(vec![0x68, 0x69, 0]));
}

#[test]
fn ui_controller_keeps_its_address() {
    let controller = MeetingUiController::new(42);
    assert_eq!(controller.instance_address(), 42);
}
