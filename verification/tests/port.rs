use cwitter::api::port::{parse_u16, port_from_env, PortError, DEFAULT_PORT};

#[test]
fn unset_port_is_8080() {
    assert_eq!(DEFAULT_PORT, 8080);
    assert_eq!(port_from_env(None), Ok(8080));
}

#[test]
fn set_port_is_parsed() {
    assert_eq!(port_from_env(Some("8000")), Ok(8000));
    assert_eq!(port_from_env(Some("+443")), Ok(443));
    assert_eq!(port_from_env(Some("0")), Ok(0));
    assert_eq!(port_from_env(Some("65535")), Ok(65535));
    assert_eq!(port_from_env(Some("00080")), Ok(80));
}

#[test]
fn bad_port_is_refused() {
    for v in ["", "+", "-1", "65536", "99999999999999999999", "80 ", " 80", "8_0", "0x50", "８０", "++1"] {
        assert_eq!(port_from_env(Some(v)), Err(PortError::NotU16), "{:?}", v);
    }
}

#[test]
fn parse_agrees_with_std() {
    let samples = ["0", "1", "+1", "-0", "65535", "65536", "000000000000000000065535", "12a", "", "+", "٣", "1 ", "7"];
    for s in samples {
        assert_eq!(parse_u16(s), s.parse::<u16>().ok(), "{:?}", s);
    }
    for n in (0..=u16::MAX as u32).step_by(97) {
        let s = n.to_string();
        assert_eq!(parse_u16(&s), Some(n as u16));
    }
}
