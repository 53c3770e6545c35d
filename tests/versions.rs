use deploy_core::errors::CommandError;
use deploy_core::versions::{
    generate_supported_version, get_self_hosted_mongodb_version, get_self_hosted_mysql_version,
    get_self_hosted_postgres_version, get_self_hosted_redis_version, get_supported_version_to_use,
    VersionsNumber,
};

fn s(v: &str) -> String {
    v.to_string()
}

#[test]
fn test_versions_number() {
    let test_cases: Vec<(&str, Result<VersionsNumber, CommandError>, &str)> = vec![
        (
            "",
            Err(CommandError::new_from_safe_message("version cannot be empty".to_string())),
            "empty version str",
        ),
        (
            "    ",
            Err(CommandError::new_from_safe_message("version cannot be empty".to_string())),
            "version a tab str",
        ),
        (
            " ",
            Err(CommandError::new_from_safe_message("version cannot be empty".to_string())),
            "version as a space str",
        ),
        ("-", Ok(VersionsNumber::new("-".to_string(), None, None, None)), "suffix separator only"),
        ("test", Ok(VersionsNumber::new("test".to_string(), None, None, None)), "bad string"),
        ("1,2,3,4", Ok(VersionsNumber::new("1,2,3,4".to_string(), None, None, None)), "bad versions separator"),
        ("1", Ok(VersionsNumber::new("1".to_string(), None, None, None)), "major only"),
        (
            "1.1",
            Ok(VersionsNumber::new("1".to_string(), Some("1".to_string()), None, None)),
            "major.minor only",
        ),
        (
            "1.1.1",
            Ok(VersionsNumber::new("1".to_string(), Some("1".to_string()), Some("1".to_string()), None)),
            "major.minor.update only",
        ),
        (
            "1.1.1.suffix",
            Ok(VersionsNumber::new(
                "1".to_string(),
                Some("1".to_string()),
                Some("1".to_string()),
                Some("suffix".to_string()),
            )),
            "major.minor.patch-suffix",
        ),
    ];

    for (input, expected_output, description) in test_cases {
        let result = VersionsNumber::from_str(input);
        assert_eq!(expected_output, result, "case {} : '{}'", description, input);
    }
}

#[test]
fn version_parts_are_trimmed_and_cleaned() {
    let v = VersionsNumber::from_str(" v13 . 2+ .1.a.b").unwrap();
    assert_eq!(v.major, "13");
    assert_eq!(v.minor, Some(s("2")));
    assert_eq!(v.patch, Some(s("1")));
    assert_eq!(v.suffix, Some(s("a.b")));
    assert_eq!(v.to_string(), "13.2.1.a.b");
    assert_eq!(v.to_major_version_string(), "13");
    assert_eq!(v.to_major_minor_version_string("0"), "13.2");
    let m = VersionsNumber::from_str("7").unwrap();
    assert_eq!(m.to_major_minor_version_string("0"), "7.0");
}

#[test]
fn generated_versions_cover_minors_and_updates() {
    let entries = generate_supported_version(5, 7, 7, Some(16), Some(18), None);
    let expected = vec![
        (s("5.7"), s("5.7.18")),
        (s("5.7.16"), s("5.7.16")),
        (s("5.7.17"), s("5.7.17")),
        (s("5.7.18"), s("5.7.18")),
        (s("5"), s("5.7.18")),
    ];
    assert_eq!(entries, expected);
}

#[test]
fn generated_versions_over_minor_range() {
    let entries = generate_supported_version(4, 0, 1, Some(2), Some(2), Some(s("-r1")));
    let expected = vec![
        (s("4.0"), s("4.0.2")),
        (s("4.0.2"), s("4.0.2-r1")),
        (s("4.1"), s("4.1.2")),
        (s("4.1.2"), s("4.1.2-r1")),
        (s("4"), s("4.1.2-r1")),
    ];
    assert_eq!(entries, expected);
    let plain = generate_supported_version(6, 0, 2, None, None, None);
    assert_eq!(
        plain,
        vec![(s("6.0"), s("6.0")), (s("6.1"), s("6.1")), (s("6.2"), s("6.2")), (s("6"), s("6.2"))]
    );
}

#[test]
fn supported_version_lookup() {
    let table = vec![(s("6"), s("6.0.9")), (s("6.0"), s("6.0.9")), (s("6"), s("6.2.1"))];
    assert_eq!(get_supported_version_to_use("Redis", &table, "6").unwrap(), "6.2.1");
    assert_eq!(get_supported_version_to_use("Redis", &table, "v6.0").unwrap(), "6.0.9");
    assert_eq!(
        get_supported_version_to_use("Redis", &table, "7").unwrap_err().message_safe,
        "Redis 7 version is not supported"
    );
    assert_eq!(
        get_supported_version_to_use("Redis", &table, "  ").unwrap_err().message_safe,
        "version cannot be empty"
    );
}

#[test]
fn self_hosted_versions() {
    assert_eq!(get_self_hosted_postgres_version(s("12")).unwrap(), "12.8.0");
    assert_eq!(get_self_hosted_postgres_version(s("10.4")).unwrap(), "10.4.0");
    assert_eq!(get_self_hosted_postgres_version(s("13.1.0")).unwrap(), "13.1.0");
    assert!(get_self_hosted_postgres_version(s("9")).is_err());
    assert_eq!(get_self_hosted_mysql_version(s("5.7")).unwrap(), "5.7.34");
    assert_eq!(get_self_hosted_mysql_version(s("8")).unwrap(), "8.0.24");
    assert_eq!(get_self_hosted_mongodb_version(s("4")).unwrap(), "4.4.4");
    assert_eq!(get_self_hosted_mongodb_version(s("3.6")).unwrap(), "3.6.22");
    assert_eq!(get_self_hosted_redis_version(s("5.0")).unwrap(), "5.0.10");
    assert_eq!(
        get_self_hosted_redis_version(s("4")).unwrap_err().message_safe,
        "Redis 4 version is not supported"
    );
}
