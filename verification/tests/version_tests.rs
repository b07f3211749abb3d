use umbrella::version::{Version, VersionError};

#[test]
fn parse_plain_version() {
    let v = Version::parse("1.2.3").unwrap();
    assert_eq!((v.major, v.minor, v.patch), (1, 2, 3));
    assert_eq!(v.pre, "");
    assert_eq!(v.build, "");
}

#[test]
fn parse_version_with_pre_and_build() {
    let v = Version::parse("10.20.30-beta.1+exp.sha.5114f85").unwrap();
    assert_eq!((v.major, v.minor, v.patch), (10, 20, 30));
    assert_eq!(v.pre, "beta.1");
    assert_eq!(v.build, "exp.sha.5114f85");
}

#[test]
fn parse_refuses_invalid_text() {
    for text in ["", "1.0", "1.0.01", "1.0.unknown", "1.0.0-", "1.0.0+", "1.0.0-alpha_123"] {
        assert!(
            matches!(Version::parse(text), Err(VersionError::Invalid)),
            "{text} must be refused"
        );
    }
}

#[test]
fn version_text() {
    for text in ["0.0.0", "1.2.3", "18446744073709551615.0.9", "1.0.0-rc.1", "1.0.0+build.7", "3.1.4-alpha+001"] {
        assert_eq!(Version::parse(text).unwrap().to_string(), text);
    }
}

#[test]
fn version_text_of_plain_values() {
    let v = Version {
        major: 7,
        minor: 0,
        patch: 120,
        pre: String::new(),
        build: "x".to_string(),
    };
    assert_eq!(v.to_string(), "7.0.120+x");
}

#[test]
fn parse_accepts_every_valid_version_text() {
    for text in ["0.0.0-0", "1.0.0-0a.alpha-1+001.x", "2.3.4-x.7.z.92", "5.6.7+-.--"] {
        let v = Version::parse(text).unwrap();
        assert_eq!(v.to_string(), text);
    }
}

#[test]
fn parse_refuses_leading_zero_in_numeric_prerelease() {
    assert!(Version::parse("1.0.0-01").is_err());
    assert!(Version::parse("1.0.0-a..b").is_err());
    assert!(Version::parse("01.0.0").is_err());
    assert!(Version::parse("1.0.0+01").is_ok());
}
