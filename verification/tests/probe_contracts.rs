use sgx_support::probes::{ShortReader, WriteObserver};

#[test]
fn short_reader_reads_min_of_cap_read_size_and_buffer() {
    let mut r = ShortReader { cap: 10, read_size: 4, observed_buffer: 0 };
    let mut buf = [7u8; 6];
    assert_eq!(r.read(&mut buf).unwrap(), 4);
    assert_eq!(r.cap, 6);
    assert_eq!(r.observed_buffer, 6);
    assert_eq!(buf, [7u8; 6]);

    let mut small = [0u8; 3];
    assert_eq!(r.read(&mut small).unwrap(), 3);
    assert_eq!(r.cap, 3);
    assert_eq!(r.observed_buffer, 6);
}

#[test]
fn short_reader_limited_by_cap_then_exhausted() {
    let mut r = ShortReader { cap: 2, read_size: 100, observed_buffer: 5 };
    let mut buf = [0u8; 50];
    assert_eq!(r.read(&mut buf).unwrap(), 2);
    assert_eq!(r.cap, 0);
    assert_eq!(r.observed_buffer, 50);
    assert_eq!(r.read(&mut buf).unwrap(), 0);
    assert_eq!(r.cap, 0);
}

#[test]
fn short_reader_empty_buffer_reads_nothing() {
    let mut r = ShortReader { cap: 9, read_size: 9, observed_buffer: 1 };
    let mut buf: [u8; 0] = [];
    assert_eq!(r.read(&mut buf).unwrap(), 0);
    assert_eq!(r.cap, 9);
    assert_eq!(r.observed_buffer, 1);
}

#[test]
fn short_reader_drains_exact_capacity() {
    let mut r = ShortReader { cap: 1000, read_size: 7, observed_buffer: 0 };
    let mut buf = [0u8; 64];
    let mut total = 0usize;
    loop {
        let n = r.read(&mut buf).unwrap();
        if n == 0 {
            break;
        }
        total += n;
    }
    assert_eq!(total, 1000);
    assert_eq!(r.cap, 0);
    assert_eq!(r.observed_buffer, 64);
}

#[test]
fn write_observer_accepts_everything_and_keeps_largest() {
    let mut w = WriteObserver { observed_buffer: 3 };
    assert_eq!(w.write(&[1, 2]).unwrap(), 2);
    assert_eq!(w.observed_buffer, 3);
    assert_eq!(w.write(&[0; 10]).unwrap(), 10);
    assert_eq!(w.observed_buffer, 10);
    assert_eq!(w.write(&[]).unwrap(), 0);
    assert_eq!(w.observed_buffer, 10);
    w.flush().unwrap();
    assert_eq!(w.observed_buffer, 10);
}
