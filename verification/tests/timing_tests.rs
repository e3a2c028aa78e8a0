use sinus::timing::{tim6_timing, Tim6Timing};

#[test]
fn sixty_frames_of_1024_points_at_200_mhz() {
    let t = tim6_timing(200_000_000, 60 * 1024);
    assert_eq!(t, Tim6Timing { psc: 0, arr: 3254, actual_hz: 61443 });
}

#[test]
fn one_hertz_needs_the_prescaler() {
    let t = tim6_timing(200_000_000, 1);
    assert_eq!(t, Tim6Timing { psc: 3051, arr: 65529, actual_hz: 1 });
}

#[test]
fn faster_than_the_clock_gives_one_cycle() {
    let t = tim6_timing(100, 1000);
    assert_eq!(t, Tim6Timing { psc: 0, arr: 0, actual_hz: 100 });
}

#[test]
fn largest_clock_fits_the_registers() {
    let t = tim6_timing(u32::MAX, 1);
    assert_eq!(t, Tim6Timing { psc: 65535, arr: 65534, actual_hz: 1 });
}

#[test]
fn period_rounds_to_nearest() {
    // 1000 / 3 = 333.33 -> 333 cycles; 1000 / 6 = 166.67 -> 167 cycles.
    assert_eq!(tim6_timing(1000, 3).arr, 332);
    assert_eq!(tim6_timing(1000, 6).arr, 166);
}
