use apple1::terminal::SCREEN_COLUMNS;
use apple1::terminal::SCREEN_LINES;
use apple1::NcursesDisplay;
use apple1::NcursesKeyboard;

#[test]
fn screen_size() {
    assert_eq!(SCREEN_LINES, 60);
    assert_eq!(SCREEN_COLUMNS, 40);
}

#[test]
fn key_codes_below_256_are_sent_as_they_are() {
    let keyboard = NcursesKeyboard::new();
    assert_eq!(keyboard.key_byte(0x41), 0x41);
    assert_eq!(keyboard.key_byte(0x03), 0x03);
    assert_eq!(keyboard.key_byte(0), 0);
    assert_eq!(keyboard.key_byte(255), 255);
}

#[test]
fn key_codes_are_cut_to_their_low_byte() {
    let keyboard = NcursesKeyboard::new();
    assert_eq!(keyboard.key_byte(258), 2);
    assert_eq!(keyboard.key_byte(0x1_0A), 0x0A);
    assert_eq!(keyboard.key_byte(-1), 0xFF);
    assert_eq!(keyboard.key_byte(i32::MIN), 0);
    assert_eq!(keyboard.key_byte(i32::MAX), 0xFF);
}

#[test]
fn a_cell_is_the_code_point() {
    let display = NcursesDisplay::new();
    assert_eq!(display.cell('A'), 65);
    assert_eq!(display.cell('\n'), 10);
    assert_eq!(display.cell('\0'), 0);
    assert_eq!(display.cell('\u{7F}'), 127);
}
