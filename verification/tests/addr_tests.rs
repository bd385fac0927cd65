use petemc::addr::AddressError;
use petemc::addr::ServerAddress;
use petemc::addr::parse;

#[test]
fn plain_host_has_no_port() {
    let a = parse("mc.example.com").unwrap();
    assert_eq!(a.host, "mc.example.com");
    assert_eq!(a.port, None);
}

#[test]
fn single_word_host() {
    let a = parse("localhost").unwrap();
    assert_eq!(a.host, "localhost");
    assert_eq!(a.port, None);
}

#[test]
fn host_and_port_split_at_first_colon() {
    let a = parse("mc.example.com:25566").unwrap();
    assert_eq!(a.host, "mc.example.com");
    assert_eq!(a.port, Some(25566));
}

#[test]
fn smallest_and_largest_ports() {
    assert_eq!(parse("h:1").unwrap().port, Some(1));
    assert_eq!(parse("h:65535").unwrap().port, Some(65535));
}

#[test]
fn unparsable_port_falls_back_to_default() {
    assert_eq!(parse("h:abc").unwrap().port, None);
    assert_eq!(parse("h:25x65").unwrap().port, None);
    assert_eq!(parse("h:").unwrap().port, None);
}

#[test]
fn out_of_range_port_falls_back_to_default() {
    assert_eq!(parse("h:0").unwrap().port, None);
    assert_eq!(parse("h:65536").unwrap().port, None);
    assert_eq!(parse("h:99999999999999999999").unwrap().port, None);
}

#[test]
fn extra_colon_segments_are_ignored() {
    let a = parse("h:80:whatever:else").unwrap();
    assert_eq!(a.host, "h");
    assert_eq!(a.port, Some(80));
}

#[test]
fn empty_input_is_invalid() {
    assert_eq!(parse(""), Err(AddressError::InvalidAddress));
}

#[test]
fn only_empty_input_is_invalid() {
    // An empty host part is kept as it stands; it fails later, at the
    // probe's connection attempt, not at parse time.
    let a = parse(":25565").unwrap();
    assert_eq!(a.host, "");
    assert_eq!(a.port, Some(25565));
    assert_eq!(parse(":").unwrap().host, "");
}

#[test]
fn leading_plus_in_port_is_tolerated() {
    assert_eq!(parse("h:+80").unwrap().port, Some(80));
    assert_eq!(parse("h:++80").unwrap().port, None);
    assert_eq!(parse("h:+").unwrap().port, None);
}

#[test]
fn effective_port_applies_default_only_when_absent() {
    let with_port = ServerAddress { host: String::from("h"), port: Some(80) };
    let without = ServerAddress { host: String::from("h"), port: None };
    assert_eq!(with_port.effective_port(), 80);
    assert_eq!(without.effective_port(), 25565);
}
