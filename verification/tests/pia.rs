use apple1::read_callback;
use apple1::write_callback;
use apple1::DSP;
use apple1::KBD;
use apple1::KBDCR;

#[test]
fn register_addresses() {
    assert_eq!(KBD, 0xD010);
    assert_eq!(KBDCR, 0xD011);
    assert_eq!(DSP, 0xD012);
}

#[test]
fn reading_kbd_clears_kbdcr() {
    assert_eq!(read_callback(KBD), Some((KBDCR, 0x00)));
}

#[test]
fn reading_anything_else_has_no_effect() {
    for addr in 0..=0xFFFFu16 {
        if addr != KBD {
            assert_eq!(read_callback(addr), None, "address {:#06x}", addr);
        }
    }
}

#[test]
fn writing_kbd_sets_the_key_ready_flag() {
    for value in 0..=255u8 {
        assert_eq!(write_callback(KBD, value), Some((KBDCR, 0x80)));
    }
}

#[test]
fn writing_zero_to_dsp_has_no_effect() {
    assert_eq!(write_callback(DSP, 0), None);
}

#[test]
fn writing_a_character_to_dsp_flags_it_as_pending() {
    assert_eq!(write_callback(DSP, 0x41), Some((DSP, 0xC1)));
    assert_eq!(write_callback(DSP, 0x0D), Some((DSP, 0x8D)));
    assert_eq!(write_callback(DSP, 0x80), Some((DSP, 0x80)));
    for value in 1..=255u8 {
        assert_eq!(write_callback(DSP, value), Some((DSP, value | 0x80)));
    }
}

#[test]
fn writing_kbdcr_has_no_effect() {
    for value in 0..=255u8 {
        assert_eq!(write_callback(KBDCR, value), None);
    }
}

#[test]
fn addresses_outside_the_registers_have_no_effect() {
    for addr in 0..=0xFFFFu16 {
        if addr != KBD && addr != KBDCR && addr != DSP {
            assert_eq!(read_callback(addr), None);
            for value in [0x00u8, 0x01, 0x41, 0x80, 0xFF] {
                assert_eq!(write_callback(addr, value), None);
            }
        }
    }
}
