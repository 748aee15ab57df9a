use rust_bootcamp_part1::parse_port;

#[test]
fn parse_port_reads_decimal() {
    assert_eq!(parse_port("8080"), Ok(8080));
    assert_eq!(parse_port("0"), Ok(0));
    assert_eq!(parse_port("00443"), Ok(443));
}

#[test]
fn parse_port_accepts_plus_prefix() {
    assert_eq!(parse_port("+443"), Ok(443));
}

#[test]
fn parse_port_accepts_largest_port() {
    assert_eq!(parse_port("65535"), Ok(65535));
}

#[test]
fn parse_port_rejects_empty() {
    assert_eq!(
        parse_port(""),
        Err(String::from("failed to parse port: cannot parse integer from empty string"))
    );
}

#[test]
fn parse_port_rejects_stray_characters() {
    let msg = "failed to parse port: invalid digit found in string";
    assert_eq!(parse_port("80a"), Err(String::from(msg)));
    assert_eq!(parse_port("-1"), Err(String::from(msg)));
    assert_eq!(parse_port("+"), Err(String::from(msg)));
    assert_eq!(parse_port(" 80"), Err(String::from(msg)));
}

#[test]
fn parse_port_rejects_too_large() {
    let msg = "failed to parse port: number too large to fit in target type";
    assert_eq!(parse_port("65536"), Err(String::from(msg)));
    assert_eq!(parse_port("99999"), Err(String::from(msg)));
}

#[test]
fn parse_port_matches_std() {
    for s in ["", "80", "+80", "65535", "65536", "99999x", "1a", "-0", "007"] {
        let expect: Result<u16, String> = s
            .parse::<u16>()
            .map_err(|e| format!("failed to parse port: {}", e));
        assert_eq!(parse_port(s), expect);
    }
}
