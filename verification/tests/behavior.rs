//! Behavioral tests: saturation, rounding safety of `clocks_needed`,
//! silence after `clear`, energy conservation of a single delta, split
//! reads, stereo interleaving, and rate-configuration errors.

use blip_buf::clamp;
use blip_buf::BlipBuf;
use blip_buf::BlipError;
use blip_buf::MIN_FACTOR;

#[test]
fn clamp_saturates() {
    assert_eq!(clamp(0), 0);
    assert_eq!(clamp(123), 123);
    assert_eq!(clamp(-123), -123);
    assert_eq!(clamp(32767), 32767);
    assert_eq!(clamp(-32768), -32768);
    assert_eq!(clamp(32768), 32767);
    assert_eq!(clamp(-32769), -32768);
    assert_eq!(clamp(65534), 32767);
    assert_eq!(clamp(-65536), -32768);
    assert_eq!(clamp(i32::MAX), 32767);
    assert_eq!(clamp(i32::MIN), -32768);
}

#[test]
fn clocks_needed_is_never_underestimated() {
    for &(clock_rate, sample_rate) in &[
        (1000000u64, 4800u64),
        (1000000, 48000),
        (1 << 22, 44100),
        (3579545, 44100),
        (48000, 48000),
        (7, 3),
    ] {
        let mut blip = BlipBuf::new(256);
        blip.set_rates(clock_rate, sample_rate).unwrap();
        for n in [0u32, 1, 2, 7, 100] {
            let clocks = blip.clocks_needed(n);
            let before = blip.samples_avail();
            blip.end_frame(clocks);
            assert!(blip.samples_avail() >= before + n as usize);
            let mut sink = vec![0i16; 256];
            blip.read_samples(&mut sink, false);
        }
    }
}

#[test]
fn clocks_needed_exact_for_fresh_buffer() {
    // A fresh buffer has MAX_RATIO clocks per sample and half a sample of
    // carried fraction, so one sample costs exactly 2^20 clocks.
    let mut blip = BlipBuf::new(100);
    assert_eq!(blip.clocks_needed(0), 0);
    assert_eq!(blip.clocks_needed(1), 1048576);
    blip.end_frame(1048576);
    assert_eq!(blip.samples_avail(), 1);
    assert_eq!(blip.clocks_needed(1), 1048576);
}

#[test]
fn clear_gives_silence() {
    let mut blip = BlipBuf::new(64);
    blip.set_rates(1000000, 48000).unwrap();
    blip.add_delta(0, 5000);
    blip.add_delta(300, -700);
    blip.end_frame(2000);
    assert!(blip.samples_avail() > 0);
    blip.clear();
    assert_eq!(blip.samples_avail(), 0);
    let mut buf = vec![99i16; 32];
    assert_eq!(blip.read_samples(&mut buf, false), 0);
    assert_eq!(buf, vec![99i16; 32]);
    assert_eq!(blip.samples_avail(), 0);
}

#[test]
fn single_delta_settles_at_its_own_level() {
    // One clock per sample: a lone delta of 10000 at time zero must come
    // out at (approximately) level 10000 once the step transient has
    // passed, decaying only by the high-pass filter.
    let mut blip = BlipBuf::new(100);
    blip.set_rates(48000, 48000).unwrap();
    blip.add_delta(0, 10000);
    blip.end_frame(30);
    let mut buf = vec![0i16; 100];
    let count = blip.read_samples(&mut buf, false);
    assert_eq!(count, 30);
    let expected: Vec<i16> = vec![
        0, 13, -22, 84, -65, 282, 3, 1791, 8203, 9976, 9677, 10005, 9837, 9924, 9870, 9864,
        9844, 9825, 9806, 9787, 9768, 9749, 9730, 9711, 9692, 9673, 9654, 9635, 9616, 9597,
    ];
    assert_eq!(&buf[..count], &expected[..]);
    // Steady state sits at the injected level, not some scaled multiple.
    assert!((buf[11] as i32 - 10000).abs() <= 100);
}

#[test]
fn fast_delta_lands_on_two_slots() {
    let mut blip = BlipBuf::new(100);
    blip.set_rates(48000, 48000).unwrap();
    blip.add_delta_fast(0, 100);
    blip.end_frame(30);
    let mut buf = vec![0i16; 100];
    let count = blip.read_samples(&mut buf, false);
    assert_eq!(count, 30);
    let expected: Vec<i16> = vec![
        0, 0, 0, 0, 0, 0, 0, 0, 100, 99, 99, 99, 99, 99, 98, 98, 98, 98, 98, 97, 97, 97, 97,
        97, 96, 96, 96, 96, 96, 95,
    ];
    assert_eq!(&buf[..count], &expected[..]);
}

fn feed_frame(blip: &mut BlipBuf, time: &mut u32, state: &mut u32) {
    let clocks = 16666u32;
    while *time < clocks {
        *state = (state.wrapping_mul(1103515245).wrapping_add(12345)) & 0x7FFFFFFF;
        let delta = (*state % 4001) as i32 - 2000;
        blip.add_delta(*time, delta);
        *time += 500;
    }
    *time -= clocks;
    blip.end_frame(clocks);
}

#[test]
fn split_read_equals_whole_read() {
    let mut a = BlipBuf::new(480);
    a.set_rates(1000000, 4800).unwrap();
    let mut b = BlipBuf::new(480);
    b.set_rates(1000000, 4800).unwrap();

    let (mut ta, mut sa) = (0u32, 12345u32);
    let (mut tb, mut sb) = (0u32, 12345u32);
    feed_frame(&mut a, &mut ta, &mut sa);
    feed_frame(&mut b, &mut tb, &mut sb);

    let avail = a.samples_avail();
    assert!(avail > 17);
    let mut whole = vec![0i16; 480];
    let n = a.read_samples(&mut whole, false);
    assert_eq!(n, avail);

    let mut head = vec![0i16; 17];
    assert_eq!(b.read_samples(&mut head, false), 17);
    let mut tail = vec![0i16; 480];
    let rest = b.read_samples(&mut tail, false);
    assert_eq!(rest, avail - 17);
    assert_eq!(&whole[..17], &head[..]);
    assert_eq!(&whole[17..avail], &tail[..rest]);

    // The integrator carried over, so a further frame still agrees.
    feed_frame(&mut a, &mut ta, &mut sa);
    feed_frame(&mut b, &mut tb, &mut sb);
    let mut wa = vec![0i16; 480];
    let mut wb = vec![0i16; 480];
    let na = a.read_samples(&mut wa, false);
    let nb = b.read_samples(&mut wb, false);
    assert_eq!(na, nb);
    assert_eq!(wa, wb);
}

#[test]
fn stereo_read_interleaves() {
    let mut mono = BlipBuf::new(480);
    mono.set_rates(1000000, 4800).unwrap();
    let mut stereo = BlipBuf::new(480);
    stereo.set_rates(1000000, 4800).unwrap();

    let (mut tm, mut sm) = (0u32, 12345u32);
    let (mut ts, mut ss) = (0u32, 12345u32);
    feed_frame(&mut mono, &mut tm, &mut sm);
    feed_frame(&mut stereo, &mut ts, &mut ss);

    let mut plain = vec![0i16; 480];
    let n = mono.read_samples(&mut plain, false);
    assert!(n >= 20);

    let mut inter = vec![7777i16; 40];
    let m = stereo.read_samples(&mut inter, true);
    assert_eq!(m, 20);
    for i in 0..20 {
        assert_eq!(inter[2 * i], plain[i]);
    }
    for i in 0..20 {
        assert_eq!(inter[2 * i + 1], 7777);
    }
}

#[test]
fn set_rates_rejects_out_of_range() {
    let mut blip = BlipBuf::new(16);
    assert_eq!(blip.set_rates(0, 100), Err(BlipError::RateOutOfRange));
    assert_eq!(blip.set_rates((1 << 20) + 1, 1), Err(BlipError::RateOutOfRange));
    assert_eq!(blip.set_rates(1, u64::MAX), Err(BlipError::RateOutOfRange));
    assert_eq!(blip.set_rates(1 << 20, 1), Ok(()));
    // A refused pair leaves the configuration alone: behavior is unchanged.
    let before = blip.clocks_needed(1);
    assert_eq!(blip.set_rates(0, 100), Err(BlipError::RateOutOfRange));
    assert_eq!(blip.clocks_needed(1), before);
}

#[test]
fn set_factor_enforces_minimum() {
    let mut blip = BlipBuf::new(16);
    assert_eq!(blip.set_factor(MIN_FACTOR), Ok(()));
    assert_eq!(blip.set_factor(u64::MAX), Ok(()));
    assert_eq!(blip.set_factor(MIN_FACTOR - 1), Err(BlipError::RateOutOfRange));
    assert_eq!(blip.set_factor(0), Err(BlipError::RateOutOfRange));
}

#[test]
fn end_frame_carries_fraction_forward() {
    // 1 MHz in, 48 kHz out: 100 clocks are 4.8 samples, and the carried
    // fraction makes every fifth frame contribute one sample less.
    let mut blip = BlipBuf::new(100);
    blip.set_rates(1000000, 48000).unwrap();
    let mut seen = Vec::new();
    for _ in 0..10 {
        blip.end_frame(100);
        seen.push(blip.samples_avail());
    }
    assert_eq!(seen, vec![4, 9, 14, 19, 24, 28, 33, 38, 43, 48]);
}

#[test]
fn read_returns_at_most_avail() {
    let mut blip = BlipBuf::new(64);
    blip.set_rates(1000000, 48000).unwrap();
    blip.end_frame(500);
    let avail = blip.samples_avail();
    assert!(avail > 0);
    let mut buf = vec![0i16; 64];
    assert_eq!(blip.read_samples(&mut buf, false), avail);
    assert_eq!(blip.samples_avail(), 0);
}
