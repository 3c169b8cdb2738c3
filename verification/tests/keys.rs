use recisdb::keys::{check_keys, parse_key_arg, parse_keys, KeyError};

fn strings(v: &[&str]) -> Vec<String> {
    v.iter().map(|s| s.to_string()).collect()
}

#[test]
fn key_arguments_are_hexadecimal() {
    assert_eq!(parse_key_arg("0x1F"), Some(0x1f));
    assert_eq!(parse_key_arg("0x0x1f"), Some(0x1f));
    assert_eq!(parse_key_arg("ffffffffffffffff"), Some(u64::MAX));
    assert_eq!(parse_key_arg("+10"), Some(16));
    assert_eq!(parse_key_arg("10000000000000000"), None);
    assert_eq!(parse_key_arg("0x"), None);
    assert_eq!(parse_key_arg("+"), None);
    assert_eq!(parse_key_arg("-1"), None);
    assert_eq!(parse_key_arg("0xg"), None);
}

#[test]
fn key_lists_come_in_pairs() {
    assert_eq!(check_keys(&None, &None), Ok(()));
    assert_eq!(check_keys(&Some(strings(&["1"])), &None), Err(KeyError::Unpaired));
    assert_eq!(check_keys(&None, &Some(strings(&["1"]))), Err(KeyError::Unpaired));
    assert_eq!(check_keys(&Some(strings(&["1"])), &Some(strings(&["zz"]))), Err(KeyError::InvalidKey));
    assert_eq!(parse_keys(None, None), None);
    let keys = parse_keys(Some(strings(&["0x10", "20"])), Some(strings(&["ab"])));
    assert_eq!(keys, Some((vec![0x10, 0x20], vec![0xab])));
}
