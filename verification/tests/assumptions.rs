//! Sanity checks on the fixed-point configuration constants and the
//! 16-bit saturation.

use blip_buf::clamp;
use blip_buf::MAX_FRAME;
use blip_buf::MAX_RATIO;
use blip_buf::MAX_SAMPLE;
use blip_buf::TIME_BITS;
use blip_buf::TIME_UNIT;

#[test]
fn check_assumptions() {
    const MIN_SAMPLE: i32 = -32768;

    let mut n: i32;

    assert!((-3 >> 1) == -2); /* right shift must preserve sign */
    n = MAX_SAMPLE * 2;
    n = clamp(n);
    assert!(n == MAX_SAMPLE);

    n = MIN_SAMPLE * 2;
    n = clamp(n);
    assert!(n == MIN_SAMPLE);

    assert!((MAX_RATIO as u64) <= TIME_UNIT);
    assert!((MAX_FRAME as u64) <= !1u64 >> TIME_BITS);
}
