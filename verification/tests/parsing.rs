use docker_sandbox::command::u64_to_decimal;
use docker_sandbox::Error;
use docker_sandbox::WindowsBuild;

#[test]
fn parse_four_fields() {
    let b: WindowsBuild = "10.0.17763.245".parse().unwrap();
    assert_eq!(b.major, 10);
    assert_eq!(b.minor, 0);
    assert_eq!(b.build, 17763);
    assert_eq!(b.revision, 245);
}

#[test]
fn parse_rejects_three_fields() {
    assert!(matches!(
        "10.0.17763".parse::<WindowsBuild>(),
        Err(Error::VersionParseFailure)
    ));
}

#[test]
fn parse_rejects_five_fields() {
    assert!(matches!(
        "10.0.17763.245.1".parse::<WindowsBuild>(),
        Err(Error::VersionParseFailure)
    ));
}

#[test]
fn parse_rejects_empty_string() {
    assert!(matches!(
        "".parse::<WindowsBuild>(),
        Err(Error::VersionParseFailure)
    ));
}

#[test]
fn parse_rejects_empty_field() {
    assert!(matches!(
        "10..17763.245".parse::<WindowsBuild>(),
        Err(Error::VersionParseFailure)
    ));
    assert!(matches!(
        "10.0.17763.".parse::<WindowsBuild>(),
        Err(Error::VersionParseFailure)
    ));
}

#[test]
fn parse_rejects_non_digits() {
    assert!(matches!(
        "a.b.c.d".parse::<WindowsBuild>(),
        Err(Error::VersionParseFailure)
    ));
    assert!(matches!(
        "10.0.17763.24x".parse::<WindowsBuild>(),
        Err(Error::VersionParseFailure)
    ));
    assert!(matches!(
        "-1.0.0.0".parse::<WindowsBuild>(),
        Err(Error::VersionParseFailure)
    ));
}

#[test]
fn parse_rejects_field_overflow() {
    assert!(matches!(
        "4294967296.0.0.0".parse::<WindowsBuild>(),
        Err(Error::VersionParseFailure)
    ));
    let b: WindowsBuild = "4294967295.0.0.0".parse().unwrap();
    assert_eq!(b.major, u32::MAX);
}

#[test]
fn decimal_formatting() {
    assert_eq!(u64_to_decimal(0), "0");
    assert_eq!(u64_to_decimal(7), "7");
    assert_eq!(u64_to_decimal(42), "42");
    assert_eq!(u64_to_decimal(1073741824), "1073741824");
    assert_eq!(u64_to_decimal(u64::MAX), "18446744073709551615");
}
