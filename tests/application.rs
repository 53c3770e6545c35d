use deploy_core::application::{Application, DoRegion, Image, Port, Storage, StorageType, Timeout};
use deploy_core::naming::{cut, managed_db_name_sanitizer, sanitize_name};
use deploy_core::router::{CustomDomain, Router};
use deploy_core::service::{Action, ServiceKind};

fn app(name: &str, ports: Vec<Port>, storage: Vec<Storage>) -> Application {
    Application::new(
        "abc123",
        Action::Create,
        name,
        ports,
        "500m".to_string(),
        "1".to_string(),
        256,
        1,
        3,
        60,
        Image {
            name: "img".to_string(),
            tag: "t".to_string(),
            commit_id: "0123456789".to_string(),
            registry_name: "reg".to_string(),
        },
        storage,
        vec![],
    )
}

#[test]
fn application_accessors() {
    let a = app("my_app", vec![], vec![]);
    assert_eq!(a.id(), "abc123");
    assert_eq!(a.name(), "my_app");
    assert_eq!(a.action(), Action::Create);
    assert_eq!(a.total_cpus(), "500m");
    assert_eq!(a.cpu_burst(), "1");
    assert_eq!(a.total_ram_in_mib(), 256);
    assert_eq!((a.min_instances(), a.max_instances()), (1, 3));
    assert_eq!(a.version(), "0123456789");
    assert_eq!(a.cloud_provider_name(), "digitalocean");
    assert_eq!(a.struct_name(), "application");
    assert_eq!(a.selector(), Some("appId=abc123".to_string()));
    assert_eq!(a.sanitized_name(), "app-my-app");
    assert_eq!(a.helm_release_name(), "application-my_app-abc123");
    assert_eq!(a.service_ref().kind, ServiceKind::Application);
}

#[test]
fn start_timeout_is_scaled() {
    assert_eq!(app("a", vec![], vec![]).start_timeout(), Timeout::Value(280));
}

#[test]
fn private_port_is_first_public_port() {
    let a = app(
        "a",
        vec![
            Port { port: 80, publicly_accessible: false },
            Port { port: 8080, publicly_accessible: true },
            Port { port: 9090, publicly_accessible: true },
        ],
        vec![],
    );
    assert_eq!(a.private_port(), Some(8080));
    assert!(a.publicly_accessible());
    let b = app("b", vec![Port { port: 80, publicly_accessible: false }], vec![]);
    assert_eq!(b.private_port(), None);
    assert!(!b.publicly_accessible());
}

#[test]
fn storage_makes_application_stateful() {
    let s = Storage {
        id: "s".to_string(),
        name: "photos".to_string(),
        storage_type: StorageType::Standard,
        size_in_gib: 10,
        mount_point: "/mnt/photos".to_string(),
        snapshot_retention_in_days: 0,
    };
    assert!(app("a", vec![], vec![s]).is_stateful());
    assert!(!app("a", vec![], vec![]).is_stateful());
}

#[test]
fn long_release_names_are_cut() {
    let a = app(&"x".repeat(60), vec![], vec![]);
    assert_eq!(a.helm_release_name().chars().count(), 50);
    assert_eq!(cut("abcdef", 3), "abc");
    assert_eq!(cut("ab", 3), "ab");
}

#[test]
fn regions_round_trip() {
    assert_eq!(DoRegion::Frankfurt.as_str(), "fra1");
    assert_eq!(DoRegion::NewYorkCity3.as_str(), "nyc3");
    assert_eq!(DoRegion::from_str("blr1").unwrap(), DoRegion::Bangalore);
    assert_eq!(DoRegion::from_str("sgp1").unwrap(), DoRegion::Singapore);
    let e = DoRegion::from_str("mars1").unwrap_err();
    assert_eq!(e.message_safe, "`mars1` region is not supported");
}

#[test]
fn names_are_sanitized() {
    assert_eq!(sanitize_name("postgresql", "my_db_1"), "postgresql-my-db-1");
    assert_eq!(managed_db_name_sanitizer(10, "db", "my_data-base"), "dbmydata");
    assert_eq!(managed_db_name_sanitizer(60, "db", "a_b"), "dbab");
}

#[test]
fn router_lists_default_then_custom_domains() {
    let r = Router::new(
        0x123e4567e89b12d3a456426614174000,
        "router",
        Action::Create,
        "default.example.com",
        vec![CustomDomain { domain: "www.shop.com".to_string(), target_domain: "t.example.com".to_string() }],
        vec![],
        false,
    )
    .unwrap();
    assert_eq!(r.id(), "z123e4567");
    assert_eq!(r.domains(), vec!["default.example.com".to_string(), "www.shop.com".to_string()]);
    assert!(r.has_custom_domains());
    assert_eq!(r.helm_release_name(), "router-z123e4567");
    assert_eq!(r.selector(), Some("routerId=z123e4567".to_string()));
    assert_eq!(r.sanitized_name(), "router-z123e4567");
    assert_eq!(r.service_ref().kind, ServiceKind::Router);
}
