use vstd::prelude::*;

use crate::encoding::{base64_encode, base64_of, uuid_to_text};
use crate::errors::CommandError;
use crate::text::{join, join3};

verus! {

/// Namespaces that cluster infrastructure is installed into.
#[derive(Clone, Copy, Debug, PartialEq, Eq, Structural)]
pub enum HelmChartNamespaces {
    KubeSystem,
    Prometheus,
    Logging,
    CertManager,
    NginxIngress,
    Qovery,
}

impl HelmChartNamespaces {
    pub fn as_str(&self) -> (r: &'static str)
        ensures
            r@ == namespace_name(*self),
    {
        match self {
            HelmChartNamespaces::KubeSystem => "kube-system",
            HelmChartNamespaces::Prometheus => "prometheus",
            HelmChartNamespaces::Logging => "logging",
            HelmChartNamespaces::CertManager => "cert-manager",
            HelmChartNamespaces::NginxIngress => "nginx-ingress",
            HelmChartNamespaces::Qovery => "qovery",
        }
    }
}

pub open spec fn namespace_name(n: HelmChartNamespaces) -> Seq<char> {
    match n {
        HelmChartNamespaces::KubeSystem => "kube-system"@,
        HelmChartNamespaces::Prometheus => "prometheus"@,
        HelmChartNamespaces::Logging => "logging"@,
        HelmChartNamespaces::CertManager => "cert-manager"@,
        HelmChartNamespaces::NginxIngress => "nginx-ingress"@,
        HelmChartNamespaces::Qovery => "qovery"@,
    }
}

/// Whether a unit is installed or removed.
#[derive(Clone, Copy, Debug, PartialEq, Eq, Structural)]
pub enum HelmAction {
    Install,
    Destroy,
}

/// Where the deployment engine runs: on the client's cluster, or on the
/// provider's side, in which case its in-cluster agent is removed.
#[derive(Clone, Copy, Debug, PartialEq, Eq, Structural)]
pub enum EngineLocation {
    ClientSide,
    QoverySide,
}

pub open spec fn engine_action(location: EngineLocation) -> HelmAction {
    match location {
        EngineLocation::ClientSide => HelmAction::Install,
        EngineLocation::QoverySide => HelmAction::Destroy,
    }
}

pub fn get_engine_helm_action_from_location(location: EngineLocation) -> (r: HelmAction)
    ensures
        r == engine_action(location),
{
    match location {
        EngineLocation::ClientSide => HelmAction::Install,
        EngineLocation::QoverySide => HelmAction::Destroy,
    }
}

/// A version boundary: upgrading a unit across it needs a restart.
#[derive(Clone, Copy, Debug, PartialEq, Eq, Structural)]
pub struct ChartVersion {
    pub major: u64,
    pub minor: u64,
    pub patch: u64,
}

#[derive(Clone, Debug)]
pub struct ChartSetValue {
    pub key: String,
    pub value: String,
}

/// One installable unit.
#[derive(Clone, Debug)]
pub struct ChartInfo {
    pub name: String,
    pub path: String,
    pub namespace: HelmChartNamespaces,
    pub action: HelmAction,
    pub timeout_in_seconds: i64,
    pub values_files: Vec<String>,
    pub values: Vec<ChartSetValue>,
    pub last_breaking_version_requiring_restart: Option<ChartVersion>,
}

/// The installation timeout of a unit that sets none.
pub const DEFAULT_CHART_TIMEOUT_IN_SECONDS: i64 = 180;

/// Values produced by the provisioning step that precedes the installation.
#[derive(Clone, Debug)]
pub struct DigitalOceanQoveryTerraformConfig {
    pub loki_storage_config_do_space_access_id: String,
    pub loki_storage_config_do_space_secret_key: String,
    pub loki_storage_config_do_space_region: String,
    pub loki_storage_config_do_space_host: String,
    pub loki_storage_config_do_space_bucket_name: String,
}

/// What became of reading the provisioning step's output file.
pub enum TerraformConfigFile {
    /// The file could not be opened: the provisioning step did not render it.
    Missing(String),
    /// The file at `path` was read but does not hold the expected values.
    Unparseable { path: String, detail: String },
    Parsed(DigitalOceanQoveryTerraformConfig),
}

/// Options of the cluster that the agents need.
#[derive(Clone, Debug)]
pub struct DoksOptions {
    pub qovery_api_url: String,
    pub qovery_grpc_url: String,
    pub qovery_cluster_secret_token: String,
    pub agent_version_controller_token: String,
    pub engine_version_controller_token: String,
    pub qovery_nats_url: String,
    pub qovery_nats_user: String,
    pub qovery_nats_password: String,
}

/// Versions of the in-cluster agents, as published by the control plane.
#[derive(Clone, Debug)]
pub struct AgentVersions {
    pub agent: String,
    pub shell_agent: String,
    pub engine: String,
}

pub struct ChartsConfigPrerequisites {
    pub organization_id: String,
    pub organization_long_id: u128,
    pub cluster_id: String,
    pub cluster_long_id: u128,
    pub do_cluster_id: String,
    pub region: String,
    pub cluster_name: String,
    pub cloud_provider: String,
    pub test_cluster: bool,
    pub do_token: String,
    pub do_space_access_id: String,
    pub do_space_secret_key: String,
    pub do_space_bucket_kubeconfig: String,
    pub do_space_kubeconfig_filename: String,
    pub qovery_engine_location: EngineLocation,
    pub ff_log_history_enabled: bool,
    pub ff_metrics_history_enabled: bool,
    pub managed_dns_name: String,
    pub managed_dns_helm_format: String,
    pub managed_dns_resolvers_terraform_format: String,
    pub external_dns_provider: String,
    pub dns_email_report: String,
    pub acme_url: String,
    pub cloudflare_email: String,
    pub cloudflare_api_token: String,
    pub disable_pleco: bool,
    pub infra_options: DoksOptions,
}

impl ChartsConfigPrerequisites {
    pub fn new(
        organization_id: String,
        organization_long_id: u128,
        cluster_id: String,
        cluster_long_id: u128,
        do_cluster_id: String,
        region: String,
        cluster_name: String,
        cloud_provider: String,
        test_cluster: bool,
        do_token: String,
        do_space_access_id: String,
        do_space_secret_key: String,
        do_space_bucket_kubeconfig: String,
        do_space_kubeconfig_filename: String,
        qovery_engine_location: EngineLocation,
        ff_log_history_enabled: bool,
        ff_metrics_history_enabled: bool,
        managed_dns_name: String,
        managed_dns_helm_format: String,
        managed_dns_resolvers_terraform_format: String,
        external_dns_provider: String,
        dns_email_report: String,
        acme_url: String,
        cloudflare_email: String,
        cloudflare_api_token: String,
        disable_pleco: bool,
        infra_options: DoksOptions,
    ) -> (r: Self)
        ensures
            r.organization_id == organization_id,
            r.organization_long_id == organization_long_id,
            r.cluster_id == cluster_id,
            r.cluster_long_id == cluster_long_id,
            r.do_cluster_id == do_cluster_id,
            r.region == region,
            r.cluster_name == cluster_name,
            r.cloud_provider == cloud_provider,
            r.test_cluster == test_cluster,
            r.do_token == do_token,
            r.do_space_access_id == do_space_access_id,
            r.do_space_secret_key == do_space_secret_key,
            r.do_space_bucket_kubeconfig == do_space_bucket_kubeconfig,
            r.do_space_kubeconfig_filename == do_space_kubeconfig_filename,
            r.qovery_engine_location == qovery_engine_location,
            r.ff_log_history_enabled == ff_log_history_enabled,
            r.ff_metrics_history_enabled == ff_metrics_history_enabled,
            r.managed_dns_name == managed_dns_name,
            r.managed_dns_helm_format == managed_dns_helm_format,
            r.managed_dns_resolvers_terraform_format == managed_dns_resolvers_terraform_format,
            r.external_dns_provider == external_dns_provider,
            r.dns_email_report == dns_email_report,
            r.acme_url == acme_url,
            r.cloudflare_email == cloudflare_email,
            r.cloudflare_api_token == cloudflare_api_token,
            r.disable_pleco == disable_pleco,
            r.infra_options == infra_options,
    {
        ChartsConfigPrerequisites {
            organization_id,
            organization_long_id,
            cluster_id,
            cluster_long_id,
            do_cluster_id,
            region,
            cluster_name,
            cloud_provider,
            test_cluster,
            do_token,
            do_space_access_id,
            do_space_secret_key,
            do_space_bucket_kubeconfig,
            do_space_kubeconfig_filename,
            qovery_engine_location,
            ff_log_history_enabled,
            ff_metrics_history_enabled,
            managed_dns_name,
            managed_dns_helm_format,
            managed_dns_resolvers_terraform_format,
            external_dns_provider,
            dns_email_report,
            acme_url,
            cloudflare_email,
            cloudflare_api_token,
            disable_pleco,
            infra_options,
        }
    }
}

pub open spec fn when(cond: bool, names: Seq<Seq<char>>) -> Seq<Seq<char>> {
    if cond {
        names
    } else {
        Seq::empty()
    }
}

/// The names of the units of each level, in installation order. A unit
/// owned by a feature flag is added to its level only when the flag asks for
/// it, and never moves another unit to another level.
pub open spec fn level_names(metrics: bool, logs: bool, pleco_disabled: bool) -> Seq<
    Seq<Seq<char>>,
> {
    seq![
        seq!["q-storageclass"@, "coredns"@],
        seq!["container-registry-secret"@, "cert-manager"@] + when(
            metrics,
            seq!["kube-prometheus-stack"@],
        ),
        seq!["promtail"@],
        seq!["metrics-server"@, "externaldns"@] + when(
            metrics,
            seq!["prometheus-adapter"@, "kube-state-metrics"@],
        ) + when(logs, seq!["loki"@]),
        seq!["nginx-ingress"@] + when(!pleco_disabled, seq!["pleco"@]),
        seq![
            "cert-manager-configs"@,
            "qovery-agent"@,
            "shell-agent"@,
            "qovery-engine"@,
            "digital-mobius"@,
            "k8s-token-rotate"@,
        ] + when(metrics || logs, seq!["grafana"@]),
    ]
}

pub open spec fn chart_names(level: Seq<ChartInfo>) -> Seq<Seq<char>> {
    level.map_values(|c: ChartInfo| c.name@)
}

pub open spec fn schedule_names(levels: Seq<Vec<ChartInfo>>) -> Seq<Seq<Seq<char>>> {
    levels.map_values(|l: Vec<ChartInfo>| chart_names(l@))
}

/// The JSON document that logs the cluster into the container registry.
pub open spec fn registry_auth_json(auth: Seq<char>) -> Seq<char> {
    "{\"auths\":{\"registry.digitalocean.com\":{\"auth\":\""@ + auth + "\"}}}"@
}

/// The registry login for a token, as the registry secret stores it: the
/// encoded JSON document whose `auth` is the encoded `token:token`.
pub open spec fn registry_docker_config_spec(token: Seq<char>) -> Seq<char> {
    base64_of(registry_auth_json(base64_of(token + ":"@ + token)))
}

pub fn registry_docker_config(token: &str) -> (r: String)
    ensures
        r@ == registry_docker_config_spec(token@),
{
    let credentials = join3(token, ":", token);
    let auth = base64_encode(credentials.as_str());
    let json = join3(
        "{\"auths\":{\"registry.digitalocean.com\":{\"auth\":\"",
        auth.as_str(),
        "\"}}}",
    );
    base64_encode(json.as_str())
}

fn chart(name: &str, path: String, namespace: HelmChartNamespaces) -> (r: ChartInfo)
    ensures
        r.name@ == name@,
        r.path == path,
        r.namespace == namespace,
        r.action == HelmAction::Install,
        r.timeout_in_seconds == DEFAULT_CHART_TIMEOUT_IN_SECONDS,
        r.values@.len() == 0,
        r.values_files@.len() == 0,
        r.last_breaking_version_requiring_restart is None,
{
    ChartInfo {
        name: String::from_str(name),
        path,
        namespace,
        action: HelmAction::Install,
        timeout_in_seconds: DEFAULT_CHART_TIMEOUT_IN_SECONDS,
        values_files: Vec::new(),
        values: Vec::new(),
        last_breaking_version_requiring_restart: None,
    }
}

fn set_value(c: &mut ChartInfo, key: &str, value: String)
    ensures
        final(c).name == old(c).name,
        final(c).namespace == old(c).namespace,
        final(c).action == old(c).action,
        final(c).values@.len() == old(c).values@.len() + 1,
        final(c).values@.last().key@ == key@,
        final(c).values@.last().value == value,
{
    c.values.push(ChartSetValue { key: String::from_str(key), value });
}

fn set_static_value(c: &mut ChartInfo, key: &str, value: &str)
    ensures
        final(c).name == old(c).name,
        final(c).namespace == old(c).namespace,
        final(c).action == old(c).action,
        final(c).values@.len() == old(c).values@.len() + 1,
        final(c).values@.last().key@ == key@,
        final(c).values@.last().value@ == value@,
{
    c.values.push(ChartSetValue { key: String::from_str(key), value: String::from_str(value) });
}

fn add_values_file(c: &mut ChartInfo, file: String)
    ensures
        final(c).name == old(c).name,
        final(c).namespace == old(c).namespace,
        final(c).action == old(c).action,
{
    c.values_files.push(file);
}

fn push_chart(level: &mut Vec<ChartInfo>, c: ChartInfo)
    ensures
        final(level)@ == old(level)@.push(c),
        chart_names(final(level)@) == chart_names(old(level)@).push(c.name@),
{
    level.push(c);
    assert(chart_names(level@) =~= chart_names(old(level)@).push(c.name@));
}

fn chart_path(prefix: &str, path: &str) -> (r: String)
    ensures
        r@ == prefix@ + "/"@ + path@,
{
    join3(prefix, "/", path)
}

fn bool_text(b: bool) -> (r: &'static str)
    ensures
        r@ == (if b {
            "true"@
        } else {
            "false"@
        }),
{
    if b {
        "true"
    } else {
        "false"
    }
}

fn level_1(p: &ChartsConfigPrerequisites, prefix: &str) -> (r: Vec<ChartInfo>)
    ensures
        chart_names(r@) == level_names(
            p.ff_metrics_history_enabled,
            p.ff_log_history_enabled,
            p.disable_pleco,
        )[0],
{
    let mut level: Vec<ChartInfo> = Vec::new();
    let storage_class = chart(
        "q-storageclass",
        chart_path(prefix, "/charts/q-storageclass"),
        HelmChartNamespaces::KubeSystem,
    );
    push_chart(&mut level, storage_class);
    let mut coredns = chart(
        "coredns",
        chart_path(prefix, "/charts/coredns-config"),
        HelmChartNamespaces::KubeSystem,
    );
    set_value(&mut coredns, "managed_dns", p.managed_dns_helm_format.clone());
    set_value(
        &mut coredns,
        "managed_dns_resolvers",
        p.managed_dns_resolvers_terraform_format.clone(),
    );
    push_chart(&mut level, coredns);
    assert(chart_names(level@) =~= seq!["q-storageclass"@, "coredns"@]);
    level
}

fn level_2(p: &ChartsConfigPrerequisites, prefix: &str) -> (r: Vec<ChartInfo>)
    ensures
        chart_names(r@) == level_names(
            p.ff_metrics_history_enabled,
            p.ff_log_history_enabled,
            p.disable_pleco,
        )[1],
{
    let mut level: Vec<ChartInfo> = Vec::new();
    let mut registry = chart(
        "container-registry-secret",
        chart_path(prefix, "charts/container-registry-secret"),
        HelmChartNamespaces::KubeSystem,
    );
    add_values_file(&mut registry, chart_path(prefix, "chart_values/container-registry-secret.yaml"));
    set_value(
        &mut registry,
        "do_container_registry_docker_json_config",
        registry_docker_config(p.do_token.as_str()),
    );
    set_static_value(
        &mut registry,
        "do_container_registry_secret_identifier",
        "do-container-registry-secret-for-cluster",
    );
    set_static_value(
        &mut registry,
        "do_container_registry_secret_name",
        "do-container-registry-secret-for-cluster",
    );
    set_static_value(
        &mut registry,
        "do_container_registry_secret_namespace",
        HelmChartNamespaces::KubeSystem.as_str(),
    );
    push_chart(&mut level, registry);
    let mut cert_manager = chart(
        "cert-manager",
        chart_path(prefix, "common/charts/cert-manager"),
        HelmChartNamespaces::CertManager,
    );
    set_static_value(&mut cert_manager, "installCRDs", "true");
    push_chart(&mut level, cert_manager);
    if p.ff_metrics_history_enabled {
        let mut stack = chart(
            "kube-prometheus-stack",
            chart_path(prefix, "/common/charts/kube-prometheus-stack"),
            HelmChartNamespaces::Prometheus,
        );
        stack.timeout_in_seconds = 480;
        add_values_file(&mut stack, chart_path(prefix, "chart_values/kube-prometheus-stack.yaml"));
        push_chart(&mut level, stack);
    }
    assert(chart_names(level@) =~= level_names(
        p.ff_metrics_history_enabled,
        p.ff_log_history_enabled,
        p.disable_pleco,
    )[1]);
    level
}

fn level_3(p: &ChartsConfigPrerequisites, prefix: &str) -> (r: Vec<ChartInfo>)
    ensures
        chart_names(r@) == level_names(
            p.ff_metrics_history_enabled,
            p.ff_log_history_enabled,
            p.disable_pleco,
        )[2],
{
    let mut level: Vec<ChartInfo> = Vec::new();
    let mut promtail = chart(
        "promtail",
        chart_path(prefix, "common/charts/promtail"),
        HelmChartNamespaces::KubeSystem,
    );
    promtail.last_breaking_version_requiring_restart = Some(
        ChartVersion { major: 0, minor: 24, patch: 0 },
    );
    set_static_value(&mut promtail, "loki.serviceName", "loki.logging.svc");
    set_static_value(&mut promtail, "priorityClassName", "system-node-critical");
    push_chart(&mut level, promtail);
    assert(chart_names(level@) =~= seq!["promtail"@]);
    level
}

fn level_4(p: &ChartsConfigPrerequisites, c: &DigitalOceanQoveryTerraformConfig, prefix: &str) -> (r:
    Vec<ChartInfo>)
    ensures
        chart_names(r@) == level_names(
            p.ff_metrics_history_enabled,
            p.ff_log_history_enabled,
            p.disable_pleco,
        )[3],
{
    let mut level: Vec<ChartInfo> = Vec::new();
    let mut metrics_server = chart(
        "metrics-server",
        chart_path(prefix, "common/charts/metrics-server"),
        HelmChartNamespaces::KubeSystem,
    );
    add_values_file(&mut metrics_server, chart_path(prefix, "chart_values/metrics-server.yaml"));
    push_chart(&mut level, metrics_server);
    let mut external_dns = chart(
        "externaldns",
        chart_path(prefix, "common/charts/external-dns"),
        HelmChartNamespaces::KubeSystem,
    );
    add_values_file(&mut external_dns, chart_path(prefix, "chart_values/external-dns.yaml"));
    push_chart(&mut level, external_dns);
    let ghost base = chart_names(level@);
    if p.ff_metrics_history_enabled {
        let mut adapter = chart(
            "prometheus-adapter",
            chart_path(prefix, "common/charts/prometheus-adapter"),
            HelmChartNamespaces::Prometheus,
        );
        set_static_value(&mut adapter, "metricsRelistInterval", "30s");
        set_static_value(&mut adapter, "prometheus.url", "http://prometheus-operated.prometheus.svc");
        push_chart(&mut level, adapter);
        let mut state_metrics = chart(
            "kube-state-metrics",
            chart_path(prefix, "common/charts/kube-state-metrics"),
            HelmChartNamespaces::Prometheus,
        );
        set_static_value(&mut state_metrics, "prometheus.monitor.enabled", "true");
        push_chart(&mut level, state_metrics);
    }
    let ghost with_metrics = chart_names(level@);
    assert(with_metrics =~= base + when(
        p.ff_metrics_history_enabled,
        seq!["prometheus-adapter"@, "kube-state-metrics"@],
    ));
    if p.ff_log_history_enabled {
        let mut loki = chart(
            "loki",
            chart_path(prefix, "common/charts/loki"),
            HelmChartNamespaces::Logging,
        );
        add_values_file(&mut loki, chart_path(prefix, "chart_values/loki.yaml"));
        set_static_value(&mut loki, "config.storage_config.aws.s3forcepathstyle", "true");
        set_value(
            &mut loki,
            "config.storage_config.aws.bucketnames",
            c.loki_storage_config_do_space_bucket_name.clone(),
        );
        set_value(
            &mut loki,
            "config.storage_config.aws.endpoint",
            c.loki_storage_config_do_space_host.clone(),
        );
        set_value(
            &mut loki,
            "config.storage_config.aws.region",
            c.loki_storage_config_do_space_region.clone(),
        );
        set_value(
            &mut loki,
            "config.storage_config.aws.access_key_id",
            c.loki_storage_config_do_space_access_id.clone(),
        );
        set_value(
            &mut loki,
            "config.storage_config.aws.secret_access_key",
            c.loki_storage_config_do_space_secret_key.clone(),
        );
        set_static_value(&mut loki, "config.storage_config.aws.sse_encryption", "false");
        set_static_value(&mut loki, "config.storage_config.aws.insecure", "false");
        push_chart(&mut level, loki);
    }
    assert(chart_names(level@) =~= level_names(
        p.ff_metrics_history_enabled,
        p.ff_log_history_enabled,
        p.disable_pleco,
    )[3]);
    level
}

fn level_5(p: &ChartsConfigPrerequisites, prefix: &str) -> (r: Vec<ChartInfo>)
    ensures
        chart_names(r@) == level_names(
            p.ff_metrics_history_enabled,
            p.ff_log_history_enabled,
            p.disable_pleco,
        )[4],
{
    let mut level: Vec<ChartInfo> = Vec::new();
    let mut nginx = chart(
        "nginx-ingress",
        chart_path(prefix, "common/charts/ingress-nginx"),
        HelmChartNamespaces::NginxIngress,
    );
    nginx.timeout_in_seconds = 800;
    add_values_file(&mut nginx, chart_path(prefix, "chart_values/nginx-ingress.yaml"));
    push_chart(&mut level, nginx);
    if !p.disable_pleco {
        let mut pleco = chart(
            "pleco",
            chart_path(prefix, "common/charts/pleco"),
            HelmChartNamespaces::KubeSystem,
        );
        add_values_file(&mut pleco, chart_path(prefix, "chart_values/pleco-do.yaml"));
        set_static_value(&mut pleco, "enabledFeatures.disableDryRun", "true");
        set_value(&mut pleco, "environmentVariables.DO_API_TOKEN", p.do_token.clone());
        set_value(&mut pleco, "environmentVariables.DO_SPACES_KEY", p.do_space_access_id.clone());
        set_value(
            &mut pleco,
            "environmentVariables.DO_SPACES_SECRET",
            p.do_space_secret_key.clone(),
        );
        set_static_value(&mut pleco, "environmentVariables.DO_VOLUME_TIMEOUT", "168h");
        set_value(&mut pleco, "environmentVariables.PLECO_IDENTIFIER", p.cluster_id.clone());
        set_static_value(&mut pleco, "environmentVariables.LOG_LEVEL", "info");
        push_chart(&mut level, pleco);
    }
    assert(chart_names(level@) =~= level_names(
        p.ff_metrics_history_enabled,
        p.ff_log_history_enabled,
        p.disable_pleco,
    )[4]);
    level
}

fn level_6(p: &ChartsConfigPrerequisites, prefix: &str, versions: &AgentVersions) -> (r: Vec<
    ChartInfo,
>)
    ensures
        chart_names(r@) == level_names(
            p.ff_metrics_history_enabled,
            p.ff_log_history_enabled,
            p.disable_pleco,
        )[5],
        r@[3].action == engine_action(p.qovery_engine_location),
{
    let mut level: Vec<ChartInfo> = Vec::new();
    let mut issuer = chart(
        "cert-manager-configs",
        chart_path(prefix, "common/charts/cert-manager-configs"),
        HelmChartNamespaces::CertManager,
    );
    set_value(&mut issuer, "externalDnsProvider", p.external_dns_provider.clone());
    set_value(&mut issuer, "acme.letsEncrypt.emailReport", p.dns_email_report.clone());
    set_value(&mut issuer, "acme.letsEncrypt.acmeUrl", p.acme_url.clone());
    set_value(&mut issuer, "managedDns", p.managed_dns_helm_format.clone());
    if p.external_dns_provider == String::from_str("cloudflare") {
        set_value(&mut issuer, "provider.cloudflare.apiToken", p.cloudflare_api_token.clone());
        set_value(&mut issuer, "provider.cloudflare.email", p.cloudflare_email.clone());
    }
    push_chart(&mut level, issuer);

    let mut agent = chart(
        "qovery-agent",
        chart_path(prefix, "common/charts/qovery-agent"),
        HelmChartNamespaces::Qovery,
    );
    set_value(&mut agent, "image.tag", versions.agent.clone());
    set_static_value(&mut agent, "replicaCount", "1");
    set_value(&mut agent, "environmentVariables.GRPC_SERVER", p.infra_options.qovery_grpc_url.clone());
    set_value(
        &mut agent,
        "environmentVariables.CLUSTER_TOKEN",
        p.infra_options.qovery_cluster_secret_token.clone(),
    );
    set_value(&mut agent, "environmentVariables.CLUSTER_ID", uuid_to_text(p.cluster_long_id));
    set_value(
        &mut agent,
        "environmentVariables.ORGANIZATION_ID",
        uuid_to_text(p.organization_long_id),
    );
    set_static_value(
        &mut agent,
        "environmentVariables.LOKI_URL",
        "http://loki.logging.svc.cluster.local:3100",
    );
    if p.ff_log_history_enabled {
        set_static_value(&mut agent, "environmentVariables.FEATURES", "LogsHistory");
    }
    push_chart(&mut level, agent);

    let mut shell_agent = chart(
        "shell-agent",
        chart_path(prefix, "common/charts/qovery-shell-agent"),
        HelmChartNamespaces::Qovery,
    );
    set_value(&mut shell_agent, "image.tag", versions.shell_agent.clone());
    set_value(&mut shell_agent, "environmentVariables.GRPC_SERVER", p.infra_options.qovery_grpc_url.clone());
    set_value(
        &mut shell_agent,
        "environmentVariables.CLUSTER_TOKEN",
        p.infra_options.qovery_cluster_secret_token.clone(),
    );
    set_value(&mut shell_agent, "environmentVariables.CLUSTER_ID", uuid_to_text(p.cluster_long_id));
    set_value(
        &mut shell_agent,
        "environmentVariables.ORGANIZATION_ID",
        uuid_to_text(p.organization_long_id),
    );
    push_chart(&mut level, shell_agent);

    let mut engine = chart(
        "qovery-engine",
        chart_path(prefix, "common/charts/qovery-engine"),
        HelmChartNamespaces::Qovery,
    );
    engine.action = get_engine_helm_action_from_location(p.qovery_engine_location);
    engine.timeout_in_seconds = 900;
    set_value(&mut engine, "image.tag", versions.engine.clone());
    set_static_value(&mut engine, "autoscaler.min_replicas", "2");
    set_static_value(&mut engine, "metrics.enabled", bool_text(p.ff_metrics_history_enabled));
    set_static_value(&mut engine, "volumes.storageClassName", "do-block-storage");
    set_value(&mut engine, "environmentVariables.QOVERY_NATS_URL", p.infra_options.qovery_nats_url.clone());
    set_value(
        &mut engine,
        "environmentVariables.QOVERY_NATS_USER",
        p.infra_options.qovery_nats_user.clone(),
    );
    set_value(
        &mut engine,
        "environmentVariables.QOVERY_NATS_PASSWORD",
        p.infra_options.qovery_nats_password.clone(),
    );
    set_value(&mut engine, "environmentVariables.ORGANIZATION", p.organization_id.clone());
    set_static_value(&mut engine, "environmentVariables.CLOUD_PROVIDER", "do");
    set_value(&mut engine, "environmentVariables.REGION", p.region.clone());
    set_static_value(&mut engine, "environmentVariables.LIB_ROOT_DIR", "/home/qovery/lib");
    set_static_value(&mut engine, "environmentVariables.DOCKER_HOST", "tcp://0.0.0.0:2375");
    push_chart(&mut level, engine);

    let mut mobius = chart(
        "digital-mobius",
        chart_path(prefix, "charts/digital-mobius"),
        HelmChartNamespaces::KubeSystem,
    );
    set_static_value(&mut mobius, "environmentVariables.LOG_LEVEL", "debug");
    set_static_value(&mut mobius, "environmentVariables.DELAY_NODE_CREATION", "5m");
    set_value(&mut mobius, "environmentVariables.DIGITAL_OCEAN_TOKEN", p.do_token.clone());
    set_value(&mut mobius, "environmentVariables.DIGITAL_OCEAN_CLUSTER_ID", p.do_cluster_id.clone());
    set_static_value(&mut mobius, "enabledFeatures.disableDryRun", "true");
    push_chart(&mut level, mobius);

    let mut token_rotate = chart(
        "k8s-token-rotate",
        chart_path(prefix, "charts/do-k8s-token-rotate"),
        HelmChartNamespaces::KubeSystem,
    );
    set_value(&mut token_rotate, "environmentVariables.DO_API_TOKEN", p.do_token.clone());
    set_value(
        &mut token_rotate,
        "environmentVariables.SPACES_KEY_ACCESS",
        p.do_space_access_id.clone(),
    );
    set_value(
        &mut token_rotate,
        "environmentVariables.SPACES_SECRET_KEY",
        p.do_space_secret_key.clone(),
    );
    set_value(
        &mut token_rotate,
        "environmentVariables.SPACES_BUCKET",
        p.do_space_bucket_kubeconfig.clone(),
    );
    set_value(&mut token_rotate, "environmentVariables.SPACES_REGION", p.region.clone());
    set_value(
        &mut token_rotate,
        "environmentVariables.SPACES_FILENAME",
        p.do_space_kubeconfig_filename.clone(),
    );
    set_value(&mut token_rotate, "environmentVariables.K8S_CLUSTER_ID", p.cluster_id.clone());
    push_chart(&mut level, token_rotate);

    if p.ff_metrics_history_enabled || p.ff_log_history_enabled {
        let mut grafana = chart(
            "grafana",
            chart_path(prefix, "common/charts/grafana"),
            HelmChartNamespaces::Prometheus,
        );
        add_values_file(&mut grafana, chart_path(prefix, "chart_values/grafana.yaml"));
        push_chart(&mut level, grafana);
    }
    assert(chart_names(level@) =~= level_names(
        p.ff_metrics_history_enabled,
        p.ff_log_history_enabled,
        p.disable_pleco,
    )[5]);
    level
}

/// What the safe message says when the provisioning step's output is missing.
pub open spec fn missing_config_message() -> Seq<char> {
    "Can't deploy helm chart as Qovery terraform config file has not been rendered by Terraform. Are you running it in dry run mode?"@
}

pub open spec fn unparseable_config_message(path: Seq<char>) -> Seq<char> {
    "Error while parsing terraform config file "@ + path
}

/// Builds the installation levels of the cluster infrastructure. Nothing is
/// scheduled when the provisioning step's output is missing or does not
/// parse: the error comes before any level. Otherwise the levels hold the
/// units of `level_names` for the prerequisites' feature flags, in order,
/// and the engine's unit is installed or removed according to where the
/// engine runs. Unit paths are under `chart_prefix_path`, `./` by default.
pub fn do_helm_charts(
    config_file: TerraformConfigFile,
    chart_config_prerequisites: &ChartsConfigPrerequisites,
    chart_prefix_path: Option<&str>,
    versions: &AgentVersions,
) -> (r: Result<Vec<Vec<ChartInfo>>, CommandError>)
    ensures
        r is Ok <==> config_file is Parsed,
        config_file matches TerraformConfigFile::Missing(detail) ==> (r matches Err(e)
            && e.message_safe@ == missing_config_message() && e.message_raw == Some(detail)),
        config_file matches TerraformConfigFile::Unparseable { path, detail } ==> (r matches Err(e)
            && e.message_safe@ == unparseable_config_message(path@) && e.message_raw == Some(
            detail,
        )),
        r matches Ok(levels) ==> schedule_names(levels@) == level_names(
            chart_config_prerequisites.ff_metrics_history_enabled,
            chart_config_prerequisites.ff_log_history_enabled,
            chart_config_prerequisites.disable_pleco,
        ) && levels@[5]@[3].action == engine_action(
            chart_config_prerequisites.qovery_engine_location,
        ),
{
    let config = match config_file {
        TerraformConfigFile::Missing(detail) => {
            return Err(
                CommandError::new(
                    String::from_str(
                        "Can't deploy helm chart as Qovery terraform config file has not been rendered by Terraform. Are you running it in dry run mode?",
                    ),
                    Some(detail),
                ),
            );
        },
        TerraformConfigFile::Unparseable { path, detail } => {
            return Err(
                CommandError::new(
                    join("Error while parsing terraform config file ", path.as_str()),
                    Some(detail),
                ),
            );
        },
        TerraformConfigFile::Parsed(config) => config,
    };
    let prefix = match chart_prefix_path {
        Some(p) => p,
        None => "./",
    };
    let p = chart_config_prerequisites;
    let mut levels: Vec<Vec<ChartInfo>> = Vec::new();
    levels.push(level_1(p, prefix));
    levels.push(level_2(p, prefix));
    levels.push(level_3(p, prefix));
    levels.push(level_4(p, &config, prefix));
    levels.push(level_5(p, prefix));
    levels.push(level_6(p, prefix, versions));
    assert(schedule_names(levels@) =~= level_names(
        p.ff_metrics_history_enabled,
        p.ff_log_history_enabled,
        p.disable_pleco,
    ));
    Ok(levels)
}

pub open spec fn unit_count(levels: Seq<Seq<Seq<char>>>) -> int
    decreases levels.len(),
{
    if levels.len() == 0 {
        0
    } else {
        unit_count(levels.drop_last()) + levels.last().len()
    }
}

/// The base schedule: with every feature flag off (logs and metrics history
/// off, the lifecycle daemon not disabled), six levels with exactly the
/// base units.
pub proof fn lemma_base_schedule()
    ensures
        level_names(false, false, false) == seq![
            seq!["q-storageclass"@, "coredns"@],
            seq!["container-registry-secret"@, "cert-manager"@],
            seq!["promtail"@],
            seq!["metrics-server"@, "externaldns"@],
            seq!["nginx-ingress"@, "pleco"@],
            seq![
                "cert-manager-configs"@,
                "qovery-agent"@,
                "shell-agent"@,
                "qovery-engine"@,
                "digital-mobius"@,
                "k8s-token-rotate"@,
            ],
        ],
{
    let l = level_names(false, false, false);
    assert(l[1] =~= seq!["container-registry-secret"@, "cert-manager"@]);
    assert(l[3] =~= seq!["metrics-server"@, "externaldns"@]);
    assert(l[4] =~= seq!["nginx-ingress"@, "pleco"@]);
    assert(l[5] =~= seq![
        "cert-manager-configs"@,
        "qovery-agent"@,
        "shell-agent"@,
        "qovery-engine"@,
        "digital-mobius"@,
        "k8s-token-rotate"@,
    ]);
    assert(l =~= seq![
        seq!["q-storageclass"@, "coredns"@],
        seq!["container-registry-secret"@, "cert-manager"@],
        seq!["promtail"@],
        seq!["metrics-server"@, "externaldns"@],
        seq!["nginx-ingress"@, "pleco"@],
        seq![
            "cert-manager-configs"@,
            "qovery-agent"@,
            "shell-agent"@,
            "qovery-engine"@,
            "digital-mobius"@,
            "k8s-token-rotate"@,
        ],
    ]);
}

/// Turning metrics history on, with logs history on, adds exactly three
/// units, each to its own level, and moves or removes no other unit;
/// turning it off again removes exactly those three.
pub proof fn lemma_metrics_toggle(logs: bool, pleco_disabled: bool)
    requires
        logs,
    ensures
        ({
            let on = level_names(true, logs, pleco_disabled);
            let off = level_names(false, logs, pleco_disabled);
            &&& on.len() == 6 && off.len() == 6
            &&& on[0] == off[0] && on[2] == off[2] && on[4] == off[4] && on[5] == off[5]
            &&& on[1] == off[1].push("kube-prometheus-stack"@)
            &&& on[3] == off[3].take(2) + seq!["prometheus-adapter"@, "kube-state-metrics"@]
                + off[3].skip(2)
            &&& unit_count(on) == unit_count(off) + 3
        }),
{
    let on = level_names(true, logs, pleco_disabled);
    let off = level_names(false, logs, pleco_disabled);
    assert(on[1] =~= off[1].push("kube-prometheus-stack"@));
    assert(on[3] =~= off[3].take(2) + seq!["prometheus-adapter"@, "kube-state-metrics"@]
        + off[3].skip(2));
    assert(on[5] =~= off[5]);
    reveal_with_fuel(unit_count, 7);
    assert(on.drop_last().drop_last().drop_last().drop_last().drop_last().drop_last().len() == 0);
    assert(off.drop_last().drop_last().drop_last().drop_last().drop_last().drop_last().len() == 0);
}

/// One installation attempt: the unit at `unit` in level `level`, and
/// whether it succeeded.
pub struct InstallRecord {
    pub level: usize,
    pub unit: usize,
    pub ok: bool,
}

pub open spec fn installed(log: Seq<InstallRecord>, upto: int, level: usize, unit: usize) -> bool {
    exists|i: int|
        0 <= i < upto && (#[trigger] log[i]).level == level && log[i].unit == unit && log[i].ok
}

/// Installs levels in order: the units of a level in any order among
/// themselves (here, their listed order), each level only after every unit
/// of the levels below it succeeded; the first failure stops the run.
pub struct LevelInstaller {
    sizes: Vec<usize>,
    level: usize,
    unit: usize,
    failed: bool,
    log: Ghost<Seq<InstallRecord>>,
}

impl LevelInstaller {
    pub closed spec fn sizes(self) -> Seq<usize> {
        self.sizes@
    }

    pub closed spec fn log(self) -> Seq<InstallRecord> {
        self.log@
    }

    pub closed spec fn is_done(self) -> bool {
        self.failed || self.level >= self.sizes@.len()
    }

    pub closed spec fn failed(self) -> bool {
        self.failed
    }

    /// The level and the position in it of the unit to install next.
    pub closed spec fn position(self) -> (usize, usize) {
        (self.level, self.unit)
    }

    pub closed spec fn wf(self) -> bool {
        let log = self.log@;
        let sizes = self.sizes@;
        &&& self.level <= sizes.len()
        &&& self.level < sizes.len() ==> self.unit < sizes[self.level as int]
        &&& forall|k: int, u: int|
            0 <= k < self.level && k < sizes.len() && 0 <= u < sizes[k] ==> #[trigger] installed(
                log,
                log.len() as int,
                k as usize,
                u as usize,
            )
        &&& forall|u: int|
            0 <= u < self.unit ==> #[trigger] installed(
                log,
                log.len() as int,
                self.level,
                u as usize,
            )
        &&& !self.failed ==> forall|j: int| 0 <= j < log.len() ==> (#[trigger] log[j]).ok
        &&& self.failed ==> log.len() > 0 && !log.last().ok && forall|j: int|
            0 <= j < log.len() - 1 ==> (#[trigger] log[j]).ok
        &&& forall|j: int|
            0 <= j < log.len() ==> (#[trigger] log[j]).level <= self.level
        &&& forall|j: int, k: int, u: int|
            0 <= j < log.len() && 0 <= k < log[j].level && 0 <= u < sizes[k] ==> #[trigger] installed(
                log,
                j,
                k as usize,
                u as usize,
            )
    }

    /// Moves past empty levels.
    fn settle(&mut self)
        requires
            old(self).level <= old(self).sizes@.len(),
            old(self).unit == 0,
        ensures
            final(self).sizes == old(self).sizes,
            final(self).log == old(self).log,
            final(self).failed == old(self).failed,
            final(self).unit == 0,
            old(self).level <= final(self).level <= final(self).sizes@.len(),
            final(self).level < final(self).sizes@.len() ==> final(self).sizes@[final(self).level as int]
                > 0,
            forall|k: int|
                old(self).level <= k < final(self).level ==> #[trigger] final(self).sizes@[k] == 0,
    {
        let n = self.sizes.len();
        while self.level < n && self.sizes[self.level] == 0
            invariant
                n == self.sizes@.len(),
                self.sizes == old(self).sizes,
                self.log == old(self).log,
                self.failed == old(self).failed,
                self.unit == 0,
                old(self).level <= self.level <= n,
                forall|k: int| old(self).level <= k < self.level ==> #[trigger] self.sizes@[k] == 0,
            decreases n - self.level,
        {
            self.level = self.level + 1;
        }
    }

    pub fn new(levels: &Vec<Vec<ChartInfo>>) -> (r: LevelInstaller)
        ensures
            r.wf(),
            r.log().len() == 0,
            !r.failed(),
            r.sizes() == levels@.map_values(|l: Vec<ChartInfo>| l@.len() as usize),
    {
        let mut sizes: Vec<usize> = Vec::new();
        let n = levels.len();
        let mut i: usize = 0;
        while i < n
            invariant
                n == levels@.len(),
                i <= n,
                sizes@ == levels@.subrange(0, i as int).map_values(
                    |l: Vec<ChartInfo>| l@.len() as usize,
                ),
            decreases n - i,
        {
            sizes.push(levels[i].len());
            assert(sizes@ =~= levels@.subrange(0, i + 1).map_values(
                |l: Vec<ChartInfo>| l@.len() as usize,
            ));
            i = i + 1;
        }
        assert(levels@.subrange(0, n as int) =~= levels@);
        let mut r = LevelInstaller { sizes, level: 0, unit: 0, failed: false, log: Ghost(Seq::empty()) };
        r.settle();
        r
    }

    /// The unit to install next, as (level, position in the level), or
    /// `None` once every unit is installed or one failed.
    pub fn next_unit(&self) -> (r: Option<(usize, usize)>)
        requires
            self.wf(),
        ensures
            self.is_done() ==> r is None,
            !self.is_done() ==> r == Some(self.position()),
            !self.is_done() ==> self.position().1 < self.sizes()[self.position().0 as int],
    {
        if self.failed || self.level >= self.sizes.len() {
            None
        } else {
            Some((self.level, self.unit))
        }
    }

    /// Reports whether the unit returned by `next_unit` was installed.
    pub fn report(&mut self, ok: bool)
        requires
            old(self).wf(),
            !old(self).is_done(),
        ensures
            final(self).wf(),
            final(self).sizes() == old(self).sizes(),
            final(self).log() == old(self).log().push(
                InstallRecord { level: old(self).position().0, unit: old(self).position().1, ok },
            ),
            final(self).failed() == !ok,
            !ok ==> final(self).position() == old(self).position() && final(self).is_done(),
            ok && old(self).position().1 + 1 < old(self).sizes()[old(self).position().0 as int]
                ==> final(self).position() == (
                old(self).position().0,
                (old(self).position().1 + 1) as usize,
            ),
            ok && old(self).position().1 + 1 >= old(self).sizes()[old(self).position().0 as int]
                ==> {
                &&& final(self).position().1 == 0
                &&& old(self).position().0 < final(self).position().0 <= final(self).sizes().len()
                &&& forall|k: int|
                    old(self).position().0 < k < final(self).position().0
                        ==> #[trigger] final(self).sizes()[k] == 0
                &&& final(self).position().0 < final(self).sizes().len()
                    ==> final(self).sizes()[final(self).position().0 as int] > 0
                &&& final(self).is_done() <==> final(self).position().0 == final(self).sizes().len()
            },
    {
        let ghost old_log = self.log@;
        let ghost rec = InstallRecord { level: self.level, unit: self.unit, ok };
        self.log = Ghost(self.log@.push(rec));
        let ghost log = self.log@;
        assert forall|k: usize, u: usize, upto: int|
            0 <= upto <= old_log.len() && #[trigger] installed(old_log, upto, k, u) implies installed(
            log,
            upto,
            k,
            u,
        ) && installed(log, log.len() as int, k, u) by {
            let i = choose|i: int|
                0 <= i < upto && (#[trigger] old_log[i]).level == k && old_log[i].unit == u
                    && old_log[i].ok;
            assert(log[i] == old_log[i]);
        }
        let n = self.sizes.len();
        let ghost sizes = self.sizes@;
        let ghost lv = self.level;
        let ghost un = self.unit;
        assert forall|k: int, u: int|
            0 <= k < lv && k < sizes.len() && 0 <= u < sizes[k] implies #[trigger] installed(
            log,
            log.len() as int,
            k as usize,
            u as usize,
        ) && installed(log, old_log.len() as int, k as usize, u as usize) by {
            assert(installed(old_log, old_log.len() as int, k as usize, u as usize));
        }
        assert forall|j: int, k: int, u: int|
            0 <= j < log.len() && 0 <= k < log[j].level && 0 <= u < sizes[k] implies #[trigger] installed(
            log,
            j,
            k as usize,
            u as usize,
        ) by {
            if j < old_log.len() {
                assert(log[j] == old_log[j]);
                assert(installed(old_log, j, k as usize, u as usize));
            } else {
                assert(log[j] == rec);
                assert(installed(old_log, old_log.len() as int, k as usize, u as usize));
            }
        }
        assert forall|u: int| 0 <= u < un implies #[trigger] installed(
            log,
            log.len() as int,
            lv,
            u as usize,
        ) by {
            assert(installed(old_log, old_log.len() as int, lv, u as usize));
        }
        assert forall|j: int| 0 <= j < log.len() implies (#[trigger] log[j]).level <= lv by {
            if j < old_log.len() {
                assert(log[j] == old_log[j]);
            }
        }
        if !ok {
            self.failed = true;
            assert forall|j: int| 0 <= j < log.len() - 1 implies (#[trigger] log[j]).ok by {
                assert(log[j] == old_log[j]);
            }
            return;
        }
        assert forall|j: int| 0 <= j < log.len() implies (#[trigger] log[j]).ok by {
            if j < old_log.len() {
                assert(log[j] == old_log[j]);
            }
        }
        assert(installed(log, log.len() as int, lv, un)) by {
            assert(log[old_log.len() as int] == rec);
        }
        assert(self.level < n);
        if self.unit + 1 < self.sizes[self.level] {
            self.unit = self.unit + 1;
        } else {
            self.level = self.level + 1;
            self.unit = 0;
            self.settle();
            assert forall|k: int, u: int|
                0 <= k < self.level && k < self.sizes@.len() && 0 <= u < self.sizes@[k] implies #[trigger] installed(
                log,
                log.len() as int,
                k as usize,
                u as usize,
            ) by {
                if k > lv {
                    assert(self.sizes@[k] == 0);
                } else if k == lv {
                    if u < un {
                    } else {
                        assert(u == un);
                    }
                }
            }
        }
    }
}

/// A level is attempted only once every unit of every lower level has
/// succeeded, and nothing is attempted after a failure.
pub proof fn lemma_levels_in_order(t: LevelInstaller)
    requires
        t.wf(),
    ensures
        forall|j: int, k: int, u: int|
            0 <= j < t.log().len() && 0 <= k < t.log()[j].level && 0 <= u < t.sizes()[k]
                ==> #[trigger] installed(t.log(), j, k as usize, u as usize),
        forall|j: int| 0 <= j < t.log().len() - 1 ==> #[trigger] t.log()[j].ok,
{
}

/// A run that ends without a failure installed every unit of every level.
pub proof fn lemma_levels_complete(t: LevelInstaller)
    requires
        t.wf(),
        t.is_done(),
        !t.failed(),
    ensures
        forall|k: int, u: int|
            0 <= k < t.sizes().len() && 0 <= u < t.sizes()[k] ==> #[trigger] installed(
                t.log(),
                t.log().len() as int,
                k as usize,
                u as usize,
            ),
{
}

} // verus!
