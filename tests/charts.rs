use deploy_core::charts::{
    do_helm_charts, registry_docker_config, AgentVersions, ChartInfo, ChartsConfigPrerequisites,
    DigitalOceanQoveryTerraformConfig, DoksOptions, EngineLocation, HelmAction, HelmChartNamespaces, LevelInstaller,
    TerraformConfigFile,
};

fn s(v: &str) -> String {
    v.to_string()
}

fn prerequisites(metrics: bool, logs: bool, disable_pleco: bool) -> ChartsConfigPrerequisites {
    ChartsConfigPrerequisites::new(
        s("org"),
        0x123e4567e89b12d3a456426614174000,
        s("cluster"),
        1,
        s("do-cluster"),
        s("fra1"),
        s("name"),
        s("do"),
        true,
        s("tok"),
        s("space-id"),
        s("space-secret"),
        s("bucket"),
        s("kubeconfig"),
        EngineLocation::ClientSide,
        logs,
        metrics,
        s("example.com"),
        s("example.com"),
        s("1.1.1.1"),
        s("cloudflare"),
        s("dns@example.com"),
        s("https://acme"),
        s("cf@example.com"),
        s("cf-token"),
        disable_pleco,
        DoksOptions {
            qovery_api_url: s("https://api"),
            qovery_grpc_url: s("grpc"),
            qovery_cluster_secret_token: s("secret"),
            agent_version_controller_token: s("agent-token"),
            engine_version_controller_token: s("engine-token"),
            qovery_nats_url: s("nats"),
            qovery_nats_user: s("user"),
            qovery_nats_password: s("password"),
        },
    )
}

fn config() -> TerraformConfigFile {
    TerraformConfigFile::Parsed(DigitalOceanQoveryTerraformConfig {
        loki_storage_config_do_space_access_id: s("a"),
        loki_storage_config_do_space_secret_key: s("b"),
        loki_storage_config_do_space_region: s("c"),
        loki_storage_config_do_space_host: s("d"),
        loki_storage_config_do_space_bucket_name: s("e"),
    })
}

fn versions() -> AgentVersions {
    AgentVersions { agent: s("1.0"), shell_agent: s("2.0"), engine: s("3.0") }
}

fn names(levels: &[Vec<ChartInfo>]) -> Vec<Vec<String>> {
    levels.iter().map(|l| l.iter().map(|c| c.name.clone()).collect()).collect()
}

fn v(items: &[&str]) -> Vec<String> {
    items.iter().map(|x| x.to_string()).collect()
}

#[test]
fn base_schedule_with_all_flags_off() {
    let levels = do_helm_charts(config(), &prerequisites(false, false, false), None, &versions()).unwrap();
    assert_eq!(
        names(&levels),
        vec![
            v(&["q-storageclass", "coredns"]),
            v(&["container-registry-secret", "cert-manager"]),
            v(&["promtail"]),
            v(&["metrics-server", "externaldns"]),
            v(&["nginx-ingress", "pleco"]),
            v(&[
                "cert-manager-configs",
                "qovery-agent",
                "shell-agent",
                "qovery-engine",
                "digital-mobius",
                "k8s-token-rotate"
            ]),
        ]
    );
    assert_eq!(levels[0][0].path, ".///charts/q-storageclass");
}

#[test]
fn metrics_toggle_adds_three_units() {
    let off = do_helm_charts(config(), &prerequisites(false, true, false), None, &versions()).unwrap();
    let on = do_helm_charts(config(), &prerequisites(true, true, false), None, &versions()).unwrap();
    let count = |l: &Vec<Vec<ChartInfo>>| l.iter().map(|x| x.len()).sum::<usize>();
    assert_eq!(count(&on), count(&off) + 3);
    assert_eq!(names(&on)[1], v(&["container-registry-secret", "cert-manager", "kube-prometheus-stack"]));
    assert_eq!(
        names(&on)[3],
        v(&["metrics-server", "externaldns", "prometheus-adapter", "kube-state-metrics", "loki"])
    );
    assert_eq!(names(&off)[3], v(&["metrics-server", "externaldns", "loki"]));
    assert_eq!(names(&on)[5], names(&off)[5]);
}

#[test]
fn grafana_and_disabled_pleco() {
    let levels = do_helm_charts(config(), &prerequisites(true, false, true), Some("/lib"), &versions()).unwrap();
    assert_eq!(names(&levels)[4], v(&["nginx-ingress"]));
    assert_eq!(names(&levels)[5].last().unwrap(), "grafana");
    assert_eq!(levels[4][0].path, "/lib/common/charts/ingress-nginx");
    assert_eq!(levels[4][0].timeout_in_seconds, 800);
    assert_eq!(levels[4][0].namespace, HelmChartNamespaces::NginxIngress);
}

#[test]
fn missing_config_fails_before_any_level() {
    let r = do_helm_charts(TerraformConfigFile::Missing(s("no file")), &prerequisites(true, true, false), None, &versions());
    let e = r.unwrap_err();
    assert!(e.message_safe.starts_with("Can't deploy helm chart"));
    assert_eq!(e.message_raw, Some(s("no file")));
}

#[test]
fn unparseable_config_fails_before_any_level() {
    let r = do_helm_charts(
        TerraformConfigFile::Unparseable { path: s("/tmp/tf.json"), detail: s("eof") },
        &prerequisites(false, false, false),
        None,
        &versions(),
    );
    assert_eq!(r.unwrap_err().message_safe, "Error while parsing terraform config file /tmp/tf.json");
}

#[test]
fn engine_follows_its_location() {
    let mut p = prerequisites(false, false, false);
    let levels = do_helm_charts(config(), &p, None, &versions()).unwrap();
    assert_eq!(levels[5][3].action, HelmAction::Install);
    p.qovery_engine_location = EngineLocation::QoverySide;
    let levels = do_helm_charts(config(), &p, None, &versions()).unwrap();
    assert_eq!(levels[5][3].action, HelmAction::Destroy);
}

#[test]
fn promtail_carries_its_breaking_version() {
    let levels = do_helm_charts(config(), &prerequisites(false, false, false), None, &versions()).unwrap();
    let v = levels[2][0].last_breaking_version_requiring_restart.unwrap();
    assert_eq!((v.major, v.minor, v.patch), (0, 24, 0));
}

#[test]
fn registry_login_is_double_encoded() {
    assert_eq!(
        registry_docker_config("tok"),
        "eyJhdXRocyI6eyJyZWdpc3RyeS5kaWdpdGFsb2NlYW4uY29tIjp7ImF1dGgiOiJkRzlyT25SdmF3PT0ifX19"
    );
    let levels = do_helm_charts(config(), &prerequisites(false, false, false), None, &versions()).unwrap();
    let secret = &levels[1][0].values[0];
    assert_eq!(secret.key, "do_container_registry_docker_json_config");
    assert_eq!(secret.value, registry_docker_config("tok"));
}

#[test]
fn agent_values_carry_identifiers_as_text() {
    let levels = do_helm_charts(config(), &prerequisites(false, false, false), None, &versions()).unwrap();
    let agent = &levels[5][1];
    let org = agent.values.iter().find(|x| x.key == "environmentVariables.ORGANIZATION_ID").unwrap();
    assert_eq!(org.value, "123e4567-e89b-12d3-a456-426614174000");
    let tag = agent.values.iter().find(|x| x.key == "image.tag").unwrap();
    assert_eq!(tag.value, "1.0");
}

#[test]
fn levels_install_in_order_and_stop_at_first_failure() {
    let levels = do_helm_charts(config(), &prerequisites(false, false, false), None, &versions()).unwrap();
    let mut all = LevelInstaller::new(&levels);
    let mut seen = Vec::new();
    while let Some((l, u)) = all.next_unit() {
        seen.push(levels[l][u].name.clone());
        all.report(true);
    }
    assert_eq!(seen.len(), 15);
    assert_eq!(seen[0], "q-storageclass");
    assert_eq!(seen[14], "k8s-token-rotate");

    let mut stopped = LevelInstaller::new(&levels);
    let mut attempts = Vec::new();
    while let Some((l, u)) = stopped.next_unit() {
        attempts.push((l, u));
        stopped.report(!(l == 1 && u == 1));
    }
    assert_eq!(attempts, vec![(0, 0), (0, 1), (1, 0), (1, 1)]);
}

#[test]
fn empty_levels_are_skipped() {
    let levels = do_helm_charts(config(), &prerequisites(false, false, false), None, &versions()).unwrap();
    let shaped = vec![vec![], vec![levels[0][0].clone()], vec![], vec![levels[0][1].clone()]];
    let mut t = LevelInstaller::new(&shaped);
    let mut seen = Vec::new();
    while let Some(p) = t.next_unit() {
        seen.push(p);
        t.report(true);
    }
    assert_eq!(seen, vec![(1, 0), (3, 0)]);
    assert!(LevelInstaller::new(&vec![]).next_unit().is_none());
}

#[test]
fn installer_moves_forward_after_each_success() {
    let levels = do_helm_charts(config(), &prerequisites(false, false, false), None, &versions()).unwrap();
    let mut t = LevelInstaller::new(&levels);
    assert_eq!(t.next_unit(), Some((0, 0)));
    t.report(true);
    assert_eq!(t.next_unit(), Some((0, 1)));
    t.report(true);
    assert_eq!(t.next_unit(), Some((1, 0)));
}
