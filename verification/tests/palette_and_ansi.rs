use console_mux::ansi::{
    clear_attributes, clear_screen, push_clear_attributes, push_decimal, push_fg_color,
    set_fg_color, ESC,
};
use console_mux::palette::{
    capsule_color, hypervisor_color, HYPERVISOR_COLOR, PALETTE, PALETTE_SIZE,
};

#[test]
fn hypervisor_color_is_red() {
    assert_eq!(hypervisor_color(), 31);
    assert_eq!(HYPERVISOR_COLOR, 31);
}

#[test]
fn palette_holds_six_codes_from_green_to_white() {
    assert_eq!(PALETTE, [32, 33, 34, 35, 36, 37]);
    assert_eq!(PALETTE_SIZE, 6);
    assert_eq!(PALETTE.len(), PALETTE_SIZE);
}

#[test]
fn capsule_color_is_palette_entry_at_identifier_modulo_six() {
    let expected = [32, 33, 34, 35, 36, 37, 32, 33, 34, 35, 36, 37, 32];
    for id in 0..expected.len() {
        assert_eq!(capsule_color(id), expected[id]);
    }
    for id in 0..1000usize {
        assert_eq!(capsule_color(id), PALETTE[id % 6]);
    }
}

#[test]
fn capsule_color_of_capsules_one_and_seven_is_the_same() {
    assert_eq!(capsule_color(1), 33);
    assert_eq!(capsule_color(7), 33);
}

#[test]
fn capsule_color_of_largest_identifier() {
    assert_eq!(capsule_color(usize::MAX), PALETTE[usize::MAX % 6]);
    assert_eq!(capsule_color(u32::MAX as usize), 35);
}

#[test]
fn capsule_color_does_not_depend_on_earlier_calls() {
    let first = capsule_color(4);
    let _ = capsule_color(5);
    let _ = capsule_color(0);
    assert_eq!(capsule_color(4), first);
    assert_eq!(first, 36);
}

#[test]
fn escape_character_is_code_27() {
    assert_eq!(ESC as u32, 27);
}

#[test]
fn clear_screen_homes_cursor_then_clears() {
    assert_eq!(clear_screen(), "\x1b[1;1H\x1b[0J");
}

#[test]
fn clear_attributes_is_reset_sequence() {
    assert_eq!(clear_attributes(), "\x1b[0m");
}

#[test]
fn set_fg_color_writes_code_in_decimal() {
    assert_eq!(set_fg_color(31), "\x1b[1;31m");
    assert_eq!(set_fg_color(37), "\x1b[1;37m");
    assert_eq!(set_fg_color(0), "\x1b[1;0m");
    assert_eq!(set_fg_color(7), "\x1b[1;7m");
    assert_eq!(set_fg_color(100), "\x1b[1;100m");
    assert_eq!(set_fg_color(usize::MAX), format!("\x1b[1;{}m", usize::MAX));
}

#[test]
fn push_decimal_appends_the_numeral() {
    let mut out = String::from("n=");
    push_decimal(&mut out, 0);
    assert_eq!(out, "n=0");
    push_decimal(&mut out, 1090);
    assert_eq!(out, "n=01090");
    for n in [1usize, 2, 3, 4, 5, 6, 7, 8, 9, 10, 11, 99, 100, 101, 12345, 4294967295] {
        let mut text = String::new();
        push_decimal(&mut text, n);
        assert_eq!(text, n.to_string());
    }
}

#[test]
fn push_fg_color_and_reset_append_to_what_is_there() {
    let mut out = String::from("abc");
    push_fg_color(&mut out, 32);
    assert_eq!(out, "abc\x1b[1;32m");
    push_clear_attributes(&mut out);
    assert_eq!(out, "abc\x1b[1;32m\x1b[0m");
}
