use ztproxy::args::{parse_args, parse_network_id, parse_port, parse_unsigned, ArgsError, NumError};

fn words(list: &[&str]) -> Vec<String> {
    list.iter().map(|w| w.to_string()).collect()
}

#[test]
fn network_id_hex() {
    assert_eq!(parse_network_id("8056c2e21c000001"), Ok(0x8056c2e21c000001));
    assert_eq!(parse_network_id("FF"), Ok(255));
    assert_eq!(parse_network_id("+a"), Ok(10));
    assert_eq!(parse_network_id("ffffffffffffffff"), Ok(u64::MAX));
}

#[test]
fn network_id_errors() {
    assert_eq!(parse_network_id(""), Err(NumError::Empty));
    assert_eq!(parse_network_id("+"), Err(NumError::InvalidDigit));
    assert_eq!(parse_network_id("-1"), Err(NumError::InvalidDigit));
    assert_eq!(parse_network_id("12g4"), Err(NumError::InvalidDigit));
    assert_eq!(parse_network_id("0x10"), Err(NumError::InvalidDigit));
    assert_eq!(parse_network_id("10000000000000000"), Err(NumError::Overflow));
}

#[test]
fn port_decimal() {
    assert_eq!(parse_port("0"), Ok(0));
    assert_eq!(parse_port("8080"), Ok(8080));
    assert_eq!(parse_port("65535"), Ok(65535));
    assert_eq!(parse_port("65536"), Err(NumError::Overflow));
    assert_eq!(parse_port("80a"), Err(NumError::InvalidDigit));
    assert_eq!(parse_port(""), Err(NumError::Empty));
}

#[test]
fn unsigned_other_radix() {
    assert_eq!(parse_unsigned("101", 2, 100), Ok(5));
    assert_eq!(parse_unsigned("2", 2, 100), Err(NumError::InvalidDigit));
    assert_eq!(parse_unsigned("zz", 36, 2000), Ok(1295));
    assert_eq!(parse_unsigned("101", 10, 100), Err(NumError::Overflow));
}

#[test]
fn full_command_line() {
    let a = words(&["ztproxy", "/var/lib/zt", "8056c2e21c000001", "8080", "10.0.0.5:80"]);
    let p = parse_args(&a).unwrap();
    assert_eq!(p.storage_path, "/var/lib/zt");
    assert_eq!(p.network_id, 0x8056c2e21c000001);
    assert_eq!(p.listen_port, 8080);
    assert_eq!(p.target, "10.0.0.5:80");
}

#[test]
fn command_line_errors() {
    assert_eq!(parse_args(&words(&["ztproxy", "a", "b"])).err(), Some(ArgsError::WrongCount));
    assert_eq!(parse_args(&words(&[])).err(), Some(ArgsError::WrongCount));
    assert_eq!(
        parse_args(&words(&["ztproxy", "p", "xyz", "80", "1.2.3.4:5"])).err(),
        Some(ArgsError::BadNetworkId(NumError::InvalidDigit))
    );
    assert_eq!(
        parse_args(&words(&["ztproxy", "p", "ab", "99999", "1.2.3.4:5"])).err(),
        Some(ArgsError::BadListenPort(NumError::Overflow))
    );
}
