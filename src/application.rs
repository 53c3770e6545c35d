use vstd::prelude::*;

use crate::errors::CommandError;
use crate::naming::{cut, sanitize_name, sanitize_name_spec};
use crate::service::{Action, ServiceKind, ServiceRef};
use crate::text::{join, join3};

verus! {

#[derive(Clone, Copy, Debug, PartialEq, Eq, Structural)]
pub struct Port {
    pub port: u16,
    pub publicly_accessible: bool,
}

#[derive(Clone, Copy, Debug, PartialEq, Eq, Structural)]
pub enum StorageType {
    Standard,
}

#[derive(Clone, Debug)]
pub struct Storage {
    pub id: String,
    pub name: String,
    pub storage_type: StorageType,
    pub size_in_gib: u16,
    pub mount_point: String,
    pub snapshot_retention_in_days: u16,
}

#[derive(Clone, Debug)]
pub struct EnvironmentVariable {
    pub key: String,
    pub value: String,
}

/// The built image an application runs.
#[derive(Clone, Debug)]
pub struct Image {
    pub name: String,
    pub tag: String,
    pub commit_id: String,
    pub registry_name: String,
}

/// How long the orchestrator waits for a service to be ready.
#[derive(Clone, Copy, Debug, PartialEq, Eq, Structural)]
pub enum Timeout {
    Default,
    Value(u64),
}

/// A stateless application.
pub struct Application {
    id: String,
    action: Action,
    name: String,
    ports: Vec<Port>,
    total_cpus: String,
    cpu_burst: String,
    total_ram_in_mib: u32,
    min_instances: u32,
    max_instances: u32,
    start_timeout_in_seconds: u32,
    image: Image,
    storage: Vec<Storage>,
    environment_variables: Vec<EnvironmentVariable>,
}

/// The first publicly accessible port.
pub open spec fn first_public_port(ports: Seq<Port>) -> Option<u16>
    decreases ports.len(),
{
    if ports.len() == 0 {
        None
    } else if ports[0].publicly_accessible {
        Some(ports[0].port)
    } else {
        first_public_port(ports.drop_first())
    }
}

impl Application {
    pub closed spec fn id_spec(self) -> Seq<char> {
        self.id@
    }

    pub closed spec fn name_spec(self) -> Seq<char> {
        self.name@
    }

    pub closed spec fn action_spec(self) -> Action {
        self.action
    }

    pub closed spec fn ports_spec(self) -> Seq<Port> {
        self.ports@
    }

    pub closed spec fn storage_len(self) -> nat {
        self.storage@.len()
    }

    pub closed spec fn start_timeout_in_seconds_spec(self) -> u32 {
        self.start_timeout_in_seconds
    }

    pub closed spec fn sizing(self) -> (Seq<char>, Seq<char>, u32, u32, u32) {
        (
            self.total_cpus@,
            self.cpu_burst@,
            self.total_ram_in_mib,
            self.min_instances,
            self.max_instances,
        )
    }

    pub closed spec fn commit_id_spec(self) -> Seq<char> {
        self.image.commit_id@
    }

    pub fn new(
        id: &str,
        action: Action,
        name: &str,
        ports: Vec<Port>,
        total_cpus: String,
        cpu_burst: String,
        total_ram_in_mib: u32,
        min_instances: u32,
        max_instances: u32,
        start_timeout_in_seconds: u32,
        image: Image,
        storage: Vec<Storage>,
        environment_variables: Vec<EnvironmentVariable>,
    ) -> (r: Self)
        ensures
            r.id_spec() == id@,
            r.action_spec() == action,
            r.name_spec() == name@,
            r.ports_spec() == ports@,
            r.sizing() == (total_cpus@, cpu_burst@, total_ram_in_mib, min_instances, max_instances),
            r.start_timeout_in_seconds_spec() == start_timeout_in_seconds,
            r.commit_id_spec() == image.commit_id@,
            r.storage_len() == storage@.len(),
    {
        Application {
            id: String::from_str(id),
            action,
            name: String::from_str(name),
            ports,
            total_cpus,
            cpu_burst,
            total_ram_in_mib,
            min_instances,
            max_instances,
            start_timeout_in_seconds,
            image,
            storage,
            environment_variables,
        }
    }

    /// An application with storage keeps state across restarts.
    pub fn is_stateful(&self) -> (r: bool)
        ensures
            r == (self.storage_len() > 0),
    {
        self.storage.len() > 0
    }

    pub fn cloud_provider_name(&self) -> (r: &'static str)
        ensures
            r@ == "digitalocean"@,
    {
        "digitalocean"
    }

    pub fn struct_name(&self) -> (r: &'static str)
        ensures
            r@ == "application"@,
    {
        "application"
    }

    pub fn id(&self) -> (r: &str)
        ensures
            r@ == self.id_spec(),
    {
        self.id.as_str()
    }

    pub fn name(&self) -> (r: &str)
        ensures
            r@ == self.name_spec(),
    {
        self.name.as_str()
    }

    pub fn action(&self) -> (r: Action)
        ensures
            r == self.action_spec(),
    {
        self.action
    }

    pub fn image(&self) -> (r: &Image)
        ensures
            r.commit_id@ == self.commit_id_spec(),
    {
        &self.image
    }

    pub fn set_image(&mut self, image: Image)
        ensures
            final(self).commit_id_spec() == image.commit_id@,
            final(self).id_spec() == old(self).id_spec(),
            final(self).name_spec() == old(self).name_spec(),
            final(self).action_spec() == old(self).action_spec(),
            final(self).ports_spec() == old(self).ports_spec(),
            final(self).sizing() == old(self).sizing(),
            final(self).storage_len() == old(self).storage_len(),
            final(self).start_timeout_in_seconds_spec() == old(
                self,
            ).start_timeout_in_seconds_spec(),
    {
        self.image = image;
    }

    /// The version deployed: the commit the image was built from.
    pub fn version(&self) -> (r: String)
        ensures
            r@ == self.commit_id_spec(),
    {
        self.image.commit_id.clone()
    }

    /// The port of the first publicly accessible port, if any.
    pub fn private_port(&self) -> (r: Option<u16>)
        ensures
            r == first_public_port(self.ports_spec()),
    {
        let n = self.ports.len();
        let mut i: usize = 0;
        assert(self.ports@.skip(0) =~= self.ports@);
        while i < n
            invariant
                n == self.ports@.len(),
                i <= n,
                first_public_port(self.ports@) == first_public_port(self.ports@.skip(i as int)),
            decreases n - i,
        {
            assert(self.ports@.skip(i as int).drop_first() =~= self.ports@.skip(i + 1));
            if self.ports[i].publicly_accessible {
                return Some(self.ports[i].port);
            }
            i = i + 1;
        }
        None
    }

    pub fn publicly_accessible(&self) -> (r: bool)
        ensures
            r == first_public_port(self.ports_spec()) is Some,
    {
        self.private_port().is_some()
    }

    /// How long to wait for the application to start: the configured time
    /// plus ten seconds, four times over.
    pub fn start_timeout(&self) -> (r: Timeout)
        ensures
            r == Timeout::Value(((self.start_timeout_in_seconds_spec() + 10) * 4) as u64),
    {
        Timeout::Value((self.start_timeout_in_seconds as u64 + 10) * 4)
    }

    pub fn total_cpus(&self) -> (r: String)
        ensures
            r@ == self.sizing().0,
    {
        self.total_cpus.clone()
    }

    pub fn cpu_burst(&self) -> (r: String)
        ensures
            r@ == self.sizing().1,
    {
        self.cpu_burst.clone()
    }

    pub fn total_ram_in_mib(&self) -> (r: u32)
        ensures
            r == self.sizing().2,
    {
        self.total_ram_in_mib
    }

    pub fn min_instances(&self) -> (r: u32)
        ensures
            r == self.sizing().3,
    {
        self.min_instances
    }

    pub fn max_instances(&self) -> (r: u32)
        ensures
            r == self.sizing().4,
    {
        self.max_instances
    }

    pub fn sanitized_name(&self) -> (r: String)
        ensures
            r@ == sanitize_name_spec("app"@, self.name_spec()),
    {
        sanitize_name("app", self.name.as_str())
    }

    /// The release name: `application-<name>-<id>`, cut to 50 characters.
    pub fn helm_release_name(&self) -> (r: String)
        ensures
            ({
                let full = "application-"@ + self.name_spec() + "-"@ + self.id_spec();
                r@ == if full.len() > 50 {
                    full.subrange(0, 50)
                } else {
                    full
                }
            }),
    {
        let mut full = join3("application-", self.name.as_str(), "-");
        full.append(self.id.as_str());
        cut(full.as_str(), 50)
    }

    pub fn selector(&self) -> (r: Option<String>)
        ensures
            r matches Some(s) && s@ == "appId="@ + self.id_spec(),
    {
        Some(join("appId=", self.id.as_str()))
    }

    /// The application as the orchestrator sees it.
    pub fn service_ref(&self) -> (r: ServiceRef)
        ensures
            r.id@ == self.id_spec(),
            r.name@ == self.name_spec(),
            r.kind == ServiceKind::Application,
    {
        ServiceRef { id: self.id.clone(), name: self.name.clone(), kind: ServiceKind::Application }
    }
}

#[derive(Clone, Copy, Debug, PartialEq, Eq, Hash, Structural)]
pub enum DoRegion {
    NewYorkCity1,
    NewYorkCity2,
    NewYorkCity3,
    Amsterdam2,
    Amsterdam3,
    SanFrancisco1,
    SanFrancisco2,
    SanFrancisco3,
    Singapore,
    London,
    Frankfurt,
    Toronto,
    Bangalore,
}

pub open spec fn region_code(r: DoRegion) -> Seq<char> {
    match r {
        DoRegion::NewYorkCity1 => "nyc1"@,
        DoRegion::NewYorkCity2 => "nyc2"@,
        DoRegion::NewYorkCity3 => "nyc3"@,
        DoRegion::Amsterdam2 => "ams2"@,
        DoRegion::Amsterdam3 => "ams3"@,
        DoRegion::SanFrancisco1 => "sfo1"@,
        DoRegion::SanFrancisco2 => "sfo2"@,
        DoRegion::SanFrancisco3 => "sfo3"@,
        DoRegion::Singapore => "sgp1"@,
        DoRegion::London => "lon1"@,
        DoRegion::Frankfurt => "fra1"@,
        DoRegion::Toronto => "tor1"@,
        DoRegion::Bangalore => "blr1"@,
    }
}

impl DoRegion {
    pub fn as_str(&self) -> (r: &'static str)
        ensures
            r@ == region_code(*self),
    {
        match self {
            DoRegion::NewYorkCity1 => "nyc1",
            DoRegion::NewYorkCity2 => "nyc2",
            DoRegion::NewYorkCity3 => "nyc3",
            DoRegion::Amsterdam2 => "ams2",
            DoRegion::Amsterdam3 => "ams3",
            DoRegion::SanFrancisco1 => "sfo1",
            DoRegion::SanFrancisco2 => "sfo2",
            DoRegion::SanFrancisco3 => "sfo3",
            DoRegion::Singapore => "sgp1",
            DoRegion::London => "lon1",
            DoRegion::Frankfurt => "fra1",
            DoRegion::Toronto => "tor1",
            DoRegion::Bangalore => "blr1",
        }
    }

    fn all() -> (r: Vec<DoRegion>)
        ensures
            forall|g: DoRegion| #[trigger] r@.contains(g),
    {
        let r = vec![
            DoRegion::NewYorkCity1,
            DoRegion::NewYorkCity2,
            DoRegion::NewYorkCity3,
            DoRegion::Amsterdam2,
            DoRegion::Amsterdam3,
            DoRegion::SanFrancisco1,
            DoRegion::SanFrancisco2,
            DoRegion::SanFrancisco3,
            DoRegion::Singapore,
            DoRegion::London,
            DoRegion::Frankfurt,
            DoRegion::Toronto,
            DoRegion::Bangalore,
        ];
        assert forall|g: DoRegion| #[trigger] r@.contains(g) by {
            match g {
                DoRegion::NewYorkCity1 => assert(r@[0] == g),
                DoRegion::NewYorkCity2 => assert(r@[1] == g),
                DoRegion::NewYorkCity3 => assert(r@[2] == g),
                DoRegion::Amsterdam2 => assert(r@[3] == g),
                DoRegion::Amsterdam3 => assert(r@[4] == g),
                DoRegion::SanFrancisco1 => assert(r@[5] == g),
                DoRegion::SanFrancisco2 => assert(r@[6] == g),
                DoRegion::SanFrancisco3 => assert(r@[7] == g),
                DoRegion::Singapore => assert(r@[8] == g),
                DoRegion::London => assert(r@[9] == g),
                DoRegion::Frankfurt => assert(r@[10] == g),
                DoRegion::Toronto => assert(r@[11] == g),
                DoRegion::Bangalore => assert(r@[12] == g),
            }
        }
        r
    }

    /// The region whose code is `s`; an error for any other text.
    pub fn from_str(s: &str) -> (r: Result<DoRegion, CommandError>)
        ensures
            r matches Ok(g) ==> region_code(g) == s@,
            r is Err <==> forall|g: DoRegion| region_code(g) != s@,
            r matches Err(e) ==> e.message_safe@ == "`"@ + s@ + "` region is not supported"@,
    {
        let wanted = String::from_str(s);
        let regions = Self::all();
        let n = regions.len();
        let mut i: usize = 0;
        while i < n
            invariant
                n == regions@.len(),
                i <= n,
                wanted@ == s@,
                forall|k: int| 0 <= k < i ==> region_code(#[trigger] regions@[k]) != s@,
            decreases n - i,
        {
            let g = regions[i];
            if String::from_str(g.as_str()) == wanted {
                return Ok(g);
            }
            i = i + 1;
        }
        assert forall|g: DoRegion| region_code(g) != s@ by {
            assert(regions@.contains(g));
            let k = choose|k: int| 0 <= k < regions@.len() && regions@[k] == g;
            assert(region_code(regions@[k]) != s@);
        }
        Err(
            CommandError::new_from_safe_message(
                join3("`", s, "` region is not supported"),
            ),
        )
    }
}

} // verus!
