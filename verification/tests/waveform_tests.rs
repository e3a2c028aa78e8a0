use sinus::waveform::{word, DAC_MAX_CODE, POINTS};

#[test]
fn word_places_x_low_and_y_high() {
    assert_eq!(word(1, 2), 0x0002_0001);
    assert_eq!(word(DAC_MAX_CODE, DAC_MAX_CODE), 0x0FFF_0FFF);
    assert_eq!(word(0, 0), 0);
    assert_eq!(word(2048, 0), 2048);
    assert_eq!(word(0, 2048), 2048 << 16);
}

#[test]
fn word_fields_read_back() {
    for x in [0u32, 1, 1000, 2047, 4095] {
        for y in [0u32, 7, 3000, 4095] {
            let w = word(x, y);
            assert_eq!(w & 0xFFF, x);
            assert_eq!((w >> 16) & 0xFFF, y);
            assert_eq!(w & 0xF000_F000, 0);
        }
    }
}

#[test]
fn word_wide_inputs_follow_the_bit_formula() {
    assert_eq!(word(0x1_0000, 0), 0x1_0000);
    assert_eq!(word(0, 0x1_0001), 0x0001_0000);
}

#[test]
fn table_size() {
    assert_eq!(POINTS, 1024);
}
