use deploy_core::application::Timeout;
use deploy_core::postgresql::{DatabaseOptions, PostgreSQL};
use deploy_core::service::{Action, ServiceKind};
use deploy_core::versions::VersionsNumber;

fn db(version: &str) -> PostgreSQL {
    PostgreSQL::new(
        "db1",
        Action::Create,
        "my_pg",
        VersionsNumber::from_str(version).unwrap(),
        "pg.example.com",
        "pg-id",
        "1".to_string(),
        512,
        "db-dev-s",
        DatabaseOptions {
            login: "admin".to_string(),
            password: "secret".to_string(),
            host: "pg.internal".to_string(),
            port: 5432,
            disk_size_in_gib: 10,
            database_disk_type: "bssd".to_string(),
            activate_high_availability: false,
            activate_backups: true,
            publicly_accessible: false,
        },
    )
}

#[test]
fn postgresql_accessors() {
    let d = db("12");
    assert_eq!(d.id(), "db1");
    assert_eq!(d.name(), "my_pg");
    assert_eq!(d.action(), Action::Create);
    assert_eq!(d.version(), "12");
    assert_eq!(d.private_port(), Some(5432));
    assert_eq!(d.start_timeout(), Timeout::Default);
    assert_eq!(d.total_instances(), 1);
    assert_eq!(d.sanitized_name(), "postgresql-my-pg");
    assert_eq!(d.selector(), "app=postgresql-my-pg");
    assert_eq!(d.helm_release_name(), "postgresql-db1");
    assert_eq!(d.service_ref().kind, ServiceKind::Database);
}

#[test]
fn managed_and_self_hosted_versions_differ() {
    assert_eq!(PostgreSQL::pick_postgres_version("12".to_string(), true).unwrap(), "12");
    assert_eq!(PostgreSQL::pick_postgres_version("12".to_string(), false).unwrap(), "12.8.0");
    assert_eq!(
        PostgreSQL::pick_managed_postgres_version("9").unwrap_err().message_safe,
        "RDB postgres 9 version is not supported"
    );
}

#[test]
fn matching_version_is_read_back() {
    let v = db("13").matching_correct_version(false).unwrap();
    assert_eq!(v, VersionsNumber::new("13".to_string(), Some("4".to_string()), Some("0".to_string()), None));
    let m = db("11.0").matching_correct_version(true).unwrap();
    assert_eq!(m.to_string(), "11.0");
    assert!(db("9").matching_correct_version(true).is_err());
}
