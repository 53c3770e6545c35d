use vstd::prelude::*;

use crate::encoding::{uuid_text, uuid_to_text};
use crate::errors::RouterError;
use crate::naming::{cut, sanitize_name, sanitize_name_spec};
use crate::service::{Action, ServiceKind, ServiceRef};
use crate::text::join;

verus! {

/// A domain of the user's that is a CNAME to `target_domain`.
#[derive(Clone, Debug)]
pub struct CustomDomain {
    pub domain: String,
    pub target_domain: String,
}

#[derive(Clone, Debug)]
pub struct Route {
    pub path: String,
    pub application_name: String,
}

/// An ingress router in front of an environment's applications.
pub struct Router {
    id: String,
    long_id: u128,
    action: Action,
    name: String,
    default_domain: String,
    custom_domains: Vec<CustomDomain>,
    sticky_sessions_enabled: bool,
    routes: Vec<Route>,
}

/// The short identifier of a long one: `z` and the first eight characters
/// of its text form.
pub open spec fn short_id(long_id: u128) -> Seq<char> {
    "z"@ + uuid_text(long_id).subrange(0, 8)
}

impl Router {
    pub closed spec fn id_spec(self) -> Seq<char> {
        self.id@
    }

    pub closed spec fn name_spec(self) -> Seq<char> {
        self.name@
    }

    pub closed spec fn long_id_spec(self) -> u128 {
        self.long_id
    }

    pub closed spec fn action_spec(self) -> Action {
        self.action
    }

    pub closed spec fn domains_spec(self) -> Seq<Seq<char>> {
        seq![self.default_domain@] + self.custom_domains@.map_values(|d: CustomDomain| d.domain@)
    }

    pub closed spec fn custom_domains_spec(self) -> Seq<CustomDomain> {
        self.custom_domains@
    }

    pub closed spec fn custom_domain_count(self) -> nat {
        self.custom_domains@.len()
    }

    pub fn new(
        long_id: u128,
        name: &str,
        action: Action,
        default_domain: &str,
        custom_domains: Vec<CustomDomain>,
        routes: Vec<Route>,
        sticky_sessions_enabled: bool,
    ) -> (r: Result<Self, RouterError>)
        ensures
            r matches Ok(router) && router.id_spec() == short_id(long_id) && router.long_id_spec()
                == long_id && router.name_spec() == name@ && router.action_spec() == action
                && router.domains_spec() == seq![default_domain@] + custom_domains@.map_values(
                |d: CustomDomain| d.domain@,
            ),
    {
        let long_text = uuid_to_text(long_id);
        let id = join("z", long_text.as_str().substring_char(0, 8));
        Ok(
            Router {
                id,
                long_id,
                action,
                name: String::from_str(name),
                default_domain: String::from_str(default_domain),
                custom_domains,
                sticky_sessions_enabled,
                routes,
            },
        )
    }

    pub fn id(&self) -> (r: &str)
        ensures
            r@ == self.id_spec(),
    {
        self.id.as_str()
    }

    pub fn name(&self) -> (r: &str)
        ensures
            r@ == self.name_spec(),
    {
        self.name.as_str()
    }

    pub fn action(&self) -> (r: Action)
        ensures
            r == self.action_spec(),
    {
        self.action
    }

    /// The default domain, then each custom domain in order.
    pub fn domains(&self) -> (r: Vec<String>)
        ensures
            r@.map_values(|d: String| d@) == self.domains_spec(),
    {
        let mut out: Vec<String> = Vec::new();
        out.push(self.default_domain.clone());
        let n = self.custom_domains.len();
        let mut i: usize = 0;
        while i < n
            invariant
                n == self.custom_domains@.len(),
                i <= n,
                out@.map_values(|d: String| d@) == seq![self.default_domain@]
                    + self.custom_domains@.subrange(0, i as int).map_values(
                    |d: CustomDomain| d.domain@,
                ),
            decreases n - i,
        {
            let ghost before = out@;
            out.push(self.custom_domains[i].domain.clone());
            assert(self.custom_domains@.subrange(0, i + 1).map_values(|d: CustomDomain| d.domain@)
                =~= self.custom_domains@.subrange(0, i as int).map_values(
                |d: CustomDomain| d.domain@,
            ).push(self.custom_domains@[i as int].domain@));
            assert(out@.map_values(|d: String| d@) =~= before.map_values(|d: String| d@).push(
                self.custom_domains@[i as int].domain@,
            ));
            i = i + 1;
        }
        assert(self.custom_domains@.subrange(0, n as int) =~= self.custom_domains@);
        out
    }

    /// The user's domains that must be CNAMEs to their targets.
    pub fn custom_domains(&self) -> (r: &Vec<CustomDomain>)
        ensures
            r@ == self.custom_domains_spec(),
            r@.len() == self.custom_domain_count(),
    {
        &self.custom_domains
    }

    pub fn has_custom_domains(&self) -> (r: bool)
        ensures
            r == (self.custom_domain_count() > 0),
    {
        self.custom_domains.len() > 0
    }

    pub fn sanitized_name(&self) -> (r: String)
        ensures
            r@ == sanitize_name_spec("router"@, self.id_spec()),
    {
        sanitize_name("router", self.id.as_str())
    }

    /// The release name: `router-<id>`, cut to 50 characters.
    pub fn helm_release_name(&self) -> (r: String)
        ensures
            ({
                let full = "router-"@ + self.id_spec();
                r@ == if full.len() > 50 {
                    full.subrange(0, 50)
                } else {
                    full
                }
            }),
    {
        let full = join("router-", self.id.as_str());
        cut(full.as_str(), 50)
    }

    pub fn selector(&self) -> (r: Option<String>)
        ensures
            r matches Some(s) && s@ == "routerId="@ + self.id_spec(),
    {
        Some(join("routerId=", self.id.as_str()))
    }

    /// The router as the orchestrator sees it.
    pub fn service_ref(&self) -> (r: ServiceRef)
        ensures
            r.id@ == self.id_spec(),
            r.name@ == self.name_spec(),
            r.kind == ServiceKind::Router,
    {
        ServiceRef { id: self.id.clone(), name: self.name.clone(), kind: ServiceKind::Router }
    }
}

} // verus!
