use vstd::prelude::*;

use crate::application::Timeout;
use crate::errors::CommandError;
use crate::naming::{cut, sanitize_name, sanitize_name_spec};
use crate::service::{Action, ServiceKind, ServiceRef};
use crate::text::join;
use crate::versions::{
    entries_view, get_self_hosted_postgres_version, get_supported_version_to_use, parse_version_spec,
    parts_of, postgres_versions, result_view, supported_version_spec, version_text, Entries,
    VersionsNumber,
};

verus! {

/// Settings of a database service.
#[derive(Clone, Debug)]
pub struct DatabaseOptions {
    pub login: String,
    pub password: String,
    pub host: String,
    pub port: u16,
    pub disk_size_in_gib: u32,
    pub database_disk_type: String,
    pub activate_high_availability: bool,
    pub activate_backups: bool,
    pub publicly_accessible: bool,
}

/// A PostgreSQL database, managed by the provider in production
/// environments and self-hosted in the cluster otherwise.
pub struct PostgreSQL {
    id: String,
    action: Action,
    name: String,
    version: VersionsNumber,
    fqdn: String,
    fqdn_id: String,
    total_cpus: String,
    total_ram_in_mib: u32,
    database_instance_type: String,
    options: DatabaseOptions,
}

/// The versions the provider's managed PostgreSQL offers.
pub open spec fn managed_postgres_versions() -> Entries {
    seq![
        ("10"@, "10"@),
        ("10.0"@, "10.0"@),
        ("11"@, "11"@),
        ("11.0"@, "11.0"@),
        ("12"@, "12"@),
        ("12.0"@, "12.0"@),
        ("13"@, "13"@),
        ("13.0"@, "13.0"@),
    ]
}

pub open spec fn pick_postgres_version_spec(requested: Seq<char>, is_managed_service: bool) -> Result<
    Seq<char>,
    Seq<char>,
> {
    if is_managed_service {
        supported_version_spec("RDB postgres"@, managed_postgres_versions(), requested)
    } else {
        supported_version_spec("Postgresql"@, postgres_versions(), requested)
    }
}

impl PostgreSQL {
    pub closed spec fn id_spec(self) -> Seq<char> {
        self.id@
    }

    pub closed spec fn name_spec(self) -> Seq<char> {
        self.name@
    }

    pub closed spec fn action_spec(self) -> Action {
        self.action
    }

    pub closed spec fn version_spec(self) -> VersionsNumber {
        self.version
    }

    pub closed spec fn port_spec(self) -> u16 {
        self.options.port
    }

    pub fn new(
        id: &str,
        action: Action,
        name: &str,
        version: VersionsNumber,
        fqdn: &str,
        fqdn_id: &str,
        total_cpus: String,
        total_ram_in_mib: u32,
        database_instance_type: &str,
        options: DatabaseOptions,
    ) -> (r: Self)
        ensures
            r.id_spec() == id@,
            r.action_spec() == action,
            r.name_spec() == name@,
            r.version_spec() == version,
            r.port_spec() == options.port,
    {
        PostgreSQL {
            id: String::from_str(id),
            action,
            name: String::from_str(name),
            version,
            fqdn: String::from_str(fqdn),
            fqdn_id: String::from_str(fqdn_id),
            total_cpus,
            total_ram_in_mib,
            database_instance_type: String::from_str(database_instance_type),
            options,
        }
    }

    /// The managed version to ask the provider for.
    pub fn pick_managed_postgres_version(requested_version: &str) -> (r: Result<String, CommandError>)
        ensures
            result_view(r) == supported_version_spec(
                "RDB postgres"@,
                managed_postgres_versions(),
                requested_version@,
            ),
    {
        let mut versions: Vec<(String, String)> = Vec::new();
        versions.push((String::from_str("10"), String::from_str("10")));
        versions.push((String::from_str("10.0"), String::from_str("10.0")));
        versions.push((String::from_str("11"), String::from_str("11")));
        versions.push((String::from_str("11.0"), String::from_str("11.0")));
        versions.push((String::from_str("12"), String::from_str("12")));
        versions.push((String::from_str("12.0"), String::from_str("12.0")));
        versions.push((String::from_str("13"), String::from_str("13")));
        versions.push((String::from_str("13.0"), String::from_str("13.0")));
        assert(entries_view(versions@) =~= managed_postgres_versions());
        get_supported_version_to_use("RDB postgres", &versions, requested_version)
    }

    /// The version to deploy: the provider's managed one, or a self-hosted
    /// image.
    pub fn pick_postgres_version(requested_version: String, is_managed_service: bool) -> (r: Result<
        String,
        CommandError,
    >)
        ensures
            result_view(r) == pick_postgres_version_spec(requested_version@, is_managed_service),
    {
        if is_managed_service {
            Self::pick_managed_postgres_version(requested_version.as_str())
        } else {
            get_self_hosted_postgres_version(requested_version)
        }
    }

    /// The database's version resolved for where it runs, read back as a
    /// version number.
    pub fn matching_correct_version(&self, is_managed_services: bool) -> (r: Result<
        VersionsNumber,
        CommandError,
    >)
        ensures
            match pick_postgres_version_spec(version_text(self.version_spec()), is_managed_services) {
                Ok(v) => (r is Ok <==> parse_version_spec(v) is Some) && (r matches Ok(n) ==> Some(
                    parts_of(n),
                ) == parse_version_spec(v)),
                Err(m) => r matches Err(e) && e.message_safe@ == m,
            },
    {
        let picked = Self::pick_postgres_version(self.version.to_string(), is_managed_services);
        match picked {
            Ok(v) => VersionsNumber::from_str(v.as_str()),
            Err(e) => Err(e),
        }
    }

    pub fn id(&self) -> (r: &str)
        ensures
            r@ == self.id_spec(),
    {
        self.id.as_str()
    }

    pub fn name(&self) -> (r: &str)
        ensures
            r@ == self.name_spec(),
    {
        self.name.as_str()
    }

    pub fn action(&self) -> (r: Action)
        ensures
            r == self.action_spec(),
    {
        self.action
    }

    pub fn version(&self) -> (r: String)
        ensures
            r@ == version_text(self.version_spec()),
    {
        self.version.to_string()
    }

    pub fn private_port(&self) -> (r: Option<u16>)
        ensures
            r == Some(self.port_spec()),
    {
        Some(self.options.port)
    }

    /// Databases wait for the orchestrator's default start time.
    pub fn start_timeout(&self) -> (r: Timeout)
        ensures
            r == Timeout::Default,
    {
        Timeout::Default
    }

    pub fn total_instances(&self) -> (r: u16)
        ensures
            r == 1,
    {
        1
    }

    pub fn sanitized_name(&self) -> (r: String)
        ensures
            r@ == sanitize_name_spec("postgresql"@, self.name_spec()),
    {
        sanitize_name("postgresql", self.name.as_str())
    }

    pub fn selector(&self) -> (r: String)
        ensures
            r@ == "app="@ + sanitize_name_spec("postgresql"@, self.name_spec()),
    {
        let n = self.sanitized_name();
        join("app=", n.as_str())
    }

    /// The release name: `postgresql-<id>`, cut to 50 characters.
    pub fn helm_release_name(&self) -> (r: String)
        ensures
            ({
                let full = "postgresql-"@ + self.id_spec();
                r@ == if full.len() > 50 {
                    full.subrange(0, 50)
                } else {
                    full
                }
            }),
    {
        let full = join("postgresql-", self.id.as_str());
        cut(full.as_str(), 50)
    }

    /// The database as the orchestrator sees it.
    pub fn service_ref(&self) -> (r: ServiceRef)
        ensures
            r.id@ == self.id_spec(),
            r.name@ == self.name_spec(),
            r.kind == ServiceKind::Database,
    {
        ServiceRef { id: self.id.clone(), name: self.name.clone(), kind: ServiceKind::Database }
    }
}

} // verus!
