use apple1::PiaBus;
use apple1::DSP;
use apple1::KBD;
use apple1::KBDCR;
use mos6502::memory::Bus;

#[test]
fn fresh_memory_is_zero() {
    let mut bus = PiaBus::new();
    for addr in [0x0000u16, 0x00FF, 0x7000, KBD, KBDCR, DSP, 0xE000, 0xFF00, 0xFFFF] {
        assert_eq!(bus.peek(addr), 0);
    }
}

#[test]
fn poke_stores_one_byte() {
    let mut bus = PiaBus::new();
    bus.poke(0x1234, 0xAB);
    assert_eq!(bus.peek(0x1234), 0xAB);
    assert_eq!(bus.peek(0x1233), 0);
    assert_eq!(bus.peek(0x1235), 0);
}

#[test]
fn poke_does_not_raise_any_flag() {
    let mut bus = PiaBus::new();
    bus.poke(KBD, 0xC1);
    bus.poke(DSP, 0x41);
    assert_eq!(bus.peek(KBD), 0xC1);
    assert_eq!(bus.peek(KBDCR), 0x00);
    assert_eq!(bus.peek(DSP), 0x41);
}

#[test]
fn plain_memory_reads_back_what_was_written() {
    let mut bus = PiaBus::new();
    bus.set(0x0200, 0x55);
    assert_eq!(bus.get(0x0200), 0x55);
    assert_eq!(bus.get(0x0200), 0x55);
    assert_eq!(bus.peek(0x0201), 0);
}

#[test]
fn writing_kbd_raises_the_flag_in_kbdcr() {
    let mut bus = PiaBus::new();
    bus.set(KBD, 0xC1);
    assert_eq!(bus.peek(KBD), 0xC1);
    assert_eq!(bus.peek(KBDCR), 0x80);
}

#[test]
fn reading_kbd_returns_the_key_and_clears_kbdcr() {
    let mut bus = PiaBus::new();
    bus.set(KBD, 0xC1);
    assert_eq!(bus.get(KBD), 0xC1);
    assert_eq!(bus.peek(KBDCR), 0x00);
    assert_eq!(bus.peek(KBD), 0xC1);
}

#[test]
fn reading_kbd_clears_kbdcr_whatever_kbd_holds() {
    for key in [0x00u8, 0x41, 0x80, 0xFF] {
        let mut bus = PiaBus::new();
        bus.poke(KBD, key);
        bus.poke(KBDCR, 0xFF);
        assert_eq!(bus.get(KBD), key);
        assert_eq!(bus.peek(KBDCR), 0x00);
    }
}

#[test]
fn reading_kbdcr_leaves_the_flag() {
    let mut bus = PiaBus::new();
    bus.set(KBD, 0xC1);
    assert_eq!(bus.get(KBDCR), 0x80);
    assert_eq!(bus.get(KBDCR), 0x80);
}

#[test]
fn writing_dsp_sets_bit_7() {
    let mut bus = PiaBus::new();
    bus.set(DSP, 0x41);
    assert_eq!(bus.peek(DSP), 0xC1);
    assert_eq!(bus.get(DSP), 0xC1);
    assert_eq!(bus.peek(DSP), 0xC1);
}

#[test]
fn writing_zero_to_dsp_clears_it() {
    let mut bus = PiaBus::new();
    bus.set(DSP, 0x41);
    bus.set(DSP, 0x00);
    assert_eq!(bus.peek(DSP), 0x00);
}

#[test]
fn a_second_write_to_dsp_replaces_the_first() {
    let mut bus = PiaBus::new();
    bus.set(DSP, 0x41);
    bus.set(DSP, 0x42);
    assert_eq!(bus.peek(DSP), 0xC2);
}

#[test]
fn load_copies_the_bytes_in_place() {
    let mut bus = PiaBus::new();
    bus.load(&[1, 2, 3, 4], 0x7000);
    assert_eq!(bus.peek(0x6FFF), 0);
    assert_eq!(bus.peek(0x7000), 1);
    assert_eq!(bus.peek(0x7001), 2);
    assert_eq!(bus.peek(0x7002), 3);
    assert_eq!(bus.peek(0x7003), 4);
    assert_eq!(bus.peek(0x7004), 0);
}

#[test]
fn load_reaches_the_last_address() {
    let mut bus = PiaBus::new();
    bus.load(&[0x00, 0xFF], 0xFFFE);
    assert_eq!(bus.peek(0xFFFE), 0x00);
    assert_eq!(bus.peek(0xFFFF), 0xFF);
    bus.load(&[], 0xFFFF);
    assert_eq!(bus.peek(0xFFFF), 0xFF);
}

#[test]
fn load_over_the_registers_raises_no_flag() {
    let mut bus = PiaBus::new();
    bus.load(&[0x41, 0x00, 0x42], KBD);
    assert_eq!(bus.peek(KBD), 0x41);
    assert_eq!(bus.peek(KBDCR), 0x00);
    assert_eq!(bus.peek(DSP), 0x42);
}

#[test]
fn the_processor_reads_and_writes_through_the_intercepts() {
    let mut bus = PiaBus::new();
    bus.set_byte(KBD, 0xC1);
    assert_eq!(bus.peek(KBDCR), 0x80);
    assert_eq!(bus.get_byte(KBD), 0xC1);
    assert_eq!(bus.peek(KBDCR), 0x00);
    bus.set_byte(DSP, 0x0D);
    assert_eq!(bus.get_byte(DSP), 0x8D);
    bus.set_byte(0x0010, 7);
    assert_eq!(bus.get_byte(0x0010), 7);
}
