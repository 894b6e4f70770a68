use mqttrs::{Pid, QoS, QosPid};

#[test]
fn qospid_at_most_once_has_no_pid() {
    assert_eq!(QosPid::AtMostOnce.pid(), None);
}

#[test]
fn qospid_acknowledged_shapes_carry_their_pid() {
    let values: Vec<u16> = vec![1, 42, 65535];
    for &n in &values {
        let p = Pid::try_from(n).unwrap();
        assert_eq!(QosPid::AtLeastOnce(p).pid(), Some(p));
        assert_eq!(QosPid::ExactlyOnce(p).pid(), Some(p));
    }
}

#[test]
fn qospid_qos_projection() {
    let p = Pid::try_from(7).unwrap();
    assert_eq!(QosPid::AtMostOnce.qos(), QoS::AtMostOnce);
    assert_eq!(QosPid::AtLeastOnce(p).qos(), QoS::AtLeastOnce);
    assert_eq!(QosPid::ExactlyOnce(p).qos(), QoS::ExactlyOnce);
}

#[test]
fn qospid_from_u8u16_shapes() {
    assert_eq!(QosPid::from_u8u16(0, 9).qos(), QoS::AtMostOnce);
    assert_eq!(QosPid::from_u8u16(0, 9).pid(), None);

    let one = QosPid::from_u8u16(1, 9);
    assert_eq!(one.qos(), QoS::AtLeastOnce);
    assert_eq!(one.pid().unwrap().get(), 9);

    let two = QosPid::from_u8u16(2, 65535);
    assert_eq!(two.qos(), QoS::ExactlyOnce);
    assert_eq!(two.pid().unwrap().get(), 65535);
}
