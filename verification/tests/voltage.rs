use recisdb::Voltage;

#[test]
fn voltage_names_parse_ignoring_case() {
    assert_eq!("11v".parse::<Voltage>(), Ok(Voltage::_11v));
    assert_eq!("_11V".parse::<Voltage>(), Ok(Voltage::_11v));
    assert_eq!("15V".parse::<Voltage>(), Ok(Voltage::_15v));
    assert_eq!("_15v".parse::<Voltage>(), Ok(Voltage::_15v));
    assert_eq!("LoW".parse::<Voltage>(), Ok(Voltage::Low));
}

#[test]
fn unknown_voltage_is_refused() {
    assert_eq!("12v".parse::<Voltage>(), Err("expected one of: 11v, 15v, low"));
    assert_eq!("".parse::<Voltage>(), Err("expected one of: 11v, 15v, low"));
    assert_eq!(" low".parse::<Voltage>(), Err("expected one of: 11v, 15v, low"));
    assert_eq!(Voltage::parse("ŁOW"), Err("expected one of: 11v, 15v, low"));
}

#[test]
fn voltages_read_back_from_their_debug_text_in_any_case() {
    for v in [Voltage::_11v, Voltage::_15v, Voltage::Low] {
        let name = format!("{:?}", v);
        assert_eq!(name.parse::<Voltage>(), Ok(v));
        assert_eq!(name.to_ascii_uppercase().parse::<Voltage>(), Ok(v));
        assert_eq!(name.to_ascii_lowercase().parse::<Voltage>(), Ok(v));
    }
}
