//! What the server is set up with.

use crate::path::{names_of, AbsPath};
use crate::registry::{
    discover_start, discover_step_view, host_start, host_step_view, DiscoverStep, HostStep,
};
use crate::site::Site;
use crate::text::optional_text;
use vstd::prelude::*;

verus! {

/// How often the proxy tries a request again.
pub const RETRY_COUNT: u8 = 4;

/// What the server is set up with.
pub struct Settings {
    /// The directory whose directories are the sites.
    pub sites_root: AbsPath,
    /// The name under which the proxy knows this server.
    pub traefik_service: String,
    /// The name of the proxy's certificate resolver, where routes are to be
    /// served over TLS.
    pub traefik_cert_resolver: Option<String>,
    /// The password that opens the internal routes.
    pub auth_password: String,
    /// The beginnings of the request paths that are never served.
    pub deny_prefixes: Vec<String>,
}

/// [`Settings`] in contracts.
pub struct SettingsView {
    pub sites_root: Seq<Seq<char>>,
    pub traefik_service: Seq<char>,
    pub traefik_cert_resolver: Option<Seq<char>>,
    pub auth_password: Seq<char>,
    pub deny_prefixes: Seq<Seq<char>>,
}

impl View for Settings {
    type V = SettingsView;

    open spec fn view(&self) -> SettingsView {
        SettingsView {
            sites_root: self.sites_root@,
            traefik_service: self.traefik_service@,
            traefik_cert_resolver: optional_text(self.traefik_cert_resolver),
            auth_password: self.auth_password@,
            deny_prefixes: names_of(self.deny_prefixes@),
        }
    }
}

impl Clone for Settings {
    fn clone(&self) -> (copy: Self)
        ensures
            copy@ == self@,
    {
        let traefik_cert_resolver = match &self.traefik_cert_resolver {
            Some(name) => Some(name.clone()),
            None => None,
        };
        let mut deny_prefixes: Vec<String> = Vec::new();
        let mut i: usize = 0;
        while i < self.deny_prefixes.len()
            invariant
                i <= self.deny_prefixes.len(),
                deny_prefixes.len() == i,
                forall|j: int| 0 <= j < i ==> deny_prefixes@[j]@ == self.deny_prefixes@[j]@,
            decreases self.deny_prefixes.len() - i,
        {
            deny_prefixes.push(self.deny_prefixes[i].clone());
            i = i + 1;
        }
        assert(names_of(deny_prefixes@) =~= names_of(self.deny_prefixes@));
        Settings {
            sites_root: self.sites_root.clone(),
            traefik_service: self.traefik_service.clone(),
            traefik_cert_resolver,
            auth_password: self.auth_password.clone(),
            deny_prefixes,
        }
    }
}

impl Settings {
    /// Begins the listing of the sites below the sites root.
    pub fn discover_sites(&self) -> (step: DiscoverStep)
        ensures
            discover_step_view(step) == discover_start(self@.sites_root),
    {
        Site::discover_all(&self.sites_root)
    }

    /// Begins the search for the site of `hostname` below the sites root.
    pub fn site_from_hostname(&self, hostname: &str) -> (step: HostStep)
        ensures
            host_step_view(step) == host_start(self@.sites_root, hostname@),
    {
        Site::from_hostname(&self.sites_root, hostname)
    }
}

} // verus!
