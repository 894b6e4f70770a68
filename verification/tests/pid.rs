use bytes::BytesMut;
use mqttrs::{Error, Pid};

#[test]
fn pid_add_sub() {
    let t: Vec<(u16, u16, u16, u16)> = vec![
        (2, 1, 1, 3),
        (100, 1, 99, 101),
        (1, 1, std::u16::MAX, 2),
        (1, 2, std::u16::MAX - 1, 3),
        (1, 3, std::u16::MAX - 2, 4),
        (std::u16::MAX, 1, std::u16::MAX - 1, 1),
        (std::u16::MAX, 2, std::u16::MAX - 2, 2),
        (10, std::u16::MAX, 10, 10),
        (10, 0, 10, 10),
        (1, 0, 1, 1),
        (std::u16::MAX, 0, std::u16::MAX, std::u16::MAX),
    ];
    for (cur, d, prev, next) in t {
        let sub = Pid::try_from(cur).unwrap().sub(d);
        let add = Pid::try_from(cur).unwrap().add(d);
        assert_eq!(prev, sub.get(), "{} - {} should be {}", cur, d, prev);
        assert_eq!(next, add.get(), "{} + {} should be {}", cur, d, next);
    }
}

#[test]
fn pid_arithmetic_table() {
    // (cur, d) -> (subtract result, add result)
    let t: Vec<(u16, u16, u16, u16)> = vec![
        (2, 1, 1, 3),
        (100, 1, 99, 101),
        (1, 1, 65535, 2),
        (65535, 1, 65534, 1),
        (1, 0, 1, 1),
        (65535, 0, 65535, 65535),
    ];
    for (cur, d, prev, next) in t {
        let p = Pid::try_from(cur).unwrap();
        assert_eq!(p.sub(d).get(), prev);
        assert_eq!(p.add(d).get(), next);
    }
}

#[test]
fn pid_arithmetic_round_trip_never_zero() {
    let samples: Vec<u16> = vec![1, 2, 100, 32768, 65534, 65535];
    let deltas: Vec<u16> = vec![0, 1, 2, 255, 32767, 65534, 65535];
    for &cur in &samples {
        let p = Pid::try_from(cur).unwrap();
        for &d in &deltas {
            let up = p.add(d);
            let down = p.sub(d);
            assert_ne!(up.get(), 0);
            assert_ne!(down.get(), 0);
            assert_eq!(up.sub(d).get(), cur, "({} + {}) - {}", cur, d, d);
            assert_eq!(down.add(d).get(), cur, "({} - {}) + {}", cur, d, d);
        }
    }
}

#[test]
fn pid_new_is_one() {
    assert_eq!(Pid::new().get(), 1);
}

#[test]
fn pid_try_from_zero_fails() {
    assert_eq!(Pid::try_from(0).unwrap_err(), Error::InvalidPid);
}

#[test]
fn pid_try_from_valid_values() {
    let values: Vec<u16> = vec![1, 2, 42, 255, 256, 32768, 65534, 65535];
    for &n in &values {
        assert_eq!(Pid::try_from(n).unwrap().get(), n);
    }
}

#[test]
fn pid_ordering_and_hashing_by_value() {
    let a = Pid::try_from(3).unwrap();
    let b = Pid::try_from(7).unwrap();
    assert!(a < b);
    assert_eq!(a, Pid::try_from(3).unwrap());
    let mut pending = std::collections::HashMap::new();
    pending.insert(a, "first");
    pending.insert(b, "second");
    assert_eq!(pending.get(&Pid::try_from(3).unwrap()), Some(&"first"));
}

#[test]
fn pid_decode_zero_bytes_fails() {
    let mut buf = BytesMut::from(vec![0u8, 0u8]);
    assert_eq!(Pid::from_buffer(&mut buf).unwrap_err(), Error::InvalidPid);
    // the two bytes are consumed whether or not the value is accepted
    assert_eq!(buf.len(), 0);
}

#[test]
fn pid_decode_one() {
    let mut buf = BytesMut::from(vec![0x00u8, 0x01u8]);
    assert_eq!(Pid::from_buffer(&mut buf).unwrap().get(), 1);
    assert_eq!(buf.len(), 0);
}

#[test]
fn pid_decode_max() {
    let mut buf = BytesMut::from(vec![0xFFu8, 0xFFu8]);
    assert_eq!(Pid::from_buffer(&mut buf).unwrap().get(), 65535);
}

#[test]
fn pid_decode_big_endian() {
    let mut buf = BytesMut::from(vec![0x12u8, 0x34u8, 0x56u8]);
    assert_eq!(Pid::from_buffer(&mut buf).unwrap().get(), 0x1234);
    // exactly two bytes are consumed from the front
    assert_eq!(&buf[..], &[0x56u8][..]);
}

#[test]
fn pid_encode_big_endian() {
    let mut buf = BytesMut::with_capacity(2);
    Pid::try_from(0x1234).unwrap().to_buffer(&mut buf).unwrap();
    assert_eq!(&buf[..], &[0x12u8, 0x34u8][..]);
}

#[test]
fn pid_encode_write_zero_on_full_buffer() {
    // a buffer whose capacity is exhausted: no room for the two bytes
    let mut buf = BytesMut::from(vec![7u8; 64]);
    assert_eq!(buf.capacity() - buf.len(), 0);
    let r = Pid::try_from(42).unwrap().to_buffer(&mut buf);
    assert_eq!(r.unwrap_err(), Error::WriteZero);
    // the buffer is left unchanged
    assert_eq!(&buf[..], &[7u8; 64][..]);
}

#[test]
fn pid_encode_decode_round_trip() {
    let values: Vec<u16> = vec![1, 2, 255, 256, 0x1234, 32768, 65534, 65535];
    for &n in &values {
        let mut buf = BytesMut::with_capacity(2);
        let p = Pid::try_from(n).unwrap();
        p.to_buffer(&mut buf).unwrap();
        assert_eq!(buf.len(), 2);
        let back = Pid::from_buffer(&mut buf).unwrap();
        assert_eq!(back.get(), n);
        assert_eq!(back, p);
    }
}
