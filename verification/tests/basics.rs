//! Smoke test: building and configuring a buffer.

use blip_buf::BlipBuf;

#[test]
fn basics() {
    let mut blipbuf = BlipBuf::new(44100);
    blipbuf.set_rates(1 << 22, 44100).unwrap();
    drop(blipbuf);
}
