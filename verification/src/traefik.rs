//! The routing configuration that the proxy polls: one router for each site,
//! and one fixed set of middlewares.

use crate::json::{
    json_each, json_insert, json_list, json_number, json_object, json_of, json_text, Json,
};
use crate::registry::sites_view;
use crate::settings::{Settings, SettingsView};
use crate::site::{Site, SiteView};
use crate::text::{join_text, replace_char, replace_each};
use vstd::prelude::*;

verus! {

/// The name of the middleware that every router uses.
pub const DEFAULT_MIDDLEWARE_NAME: &'static str = "tp-default";

/// The name of the middleware that tries a request again.
pub const RETRY_MIDDLEWARE_NAME: &'static str = "tp-retry";

/// The name of the router of the site with the hostname `hostname`: the
/// hostname with a hyphen in place of each dot.
pub open spec fn router_name(hostname: Seq<char>) -> Seq<char> {
    replace_each(hostname, '.', "-"@)
}

/// The rule that matches the requests for `hostname`.
pub open spec fn host_rule(hostname: Seq<char>) -> Seq<char> {
    "Host(`"@ + hostname + "`)"@
}

/// The TLS block that names the certificate resolver `cert_resolver`.
pub open spec fn tls_json(cert_resolver: Seq<char>) -> Json {
    Json::Object(Map::empty().insert("certResolver"@, Json::Text(cert_resolver)))
}

/// The keys that every router has: its rule, the service that is the same for
/// all routers, and the one middleware that all of them use.
pub open spec fn router_fields(hostname: Seq<char>, service: Seq<char>) -> Map<Seq<char>, Json> {
    Map::empty().insert("rule"@, Json::Text(host_rule(hostname))).insert(
        "service"@,
        Json::Text(service),
    ).insert("middlewares"@, Json::List(seq![Json::Text(DEFAULT_MIDDLEWARE_NAME@)]))
}

/// The router of the site with the hostname `hostname`: the keys of
/// `router_fields`, and a TLS block where a certificate resolver is set.
pub open spec fn router_json(
    hostname: Seq<char>,
    service: Seq<char>,
    cert_resolver: Option<Seq<char>>,
) -> Json {
    match cert_resolver {
        Some(name) => Json::Object(router_fields(hostname, service).insert("tls"@, tls_json(name))),
        None => Json::Object(router_fields(hostname, service)),
    }
}

/// The middlewares: a chain that holds the retry middleware alone, and the
/// retry middleware with its number of attempts.
pub open spec fn middleware_json(retry_attempts: int) -> Json {
    Json::Object(
        Map::empty().insert(
            DEFAULT_MIDDLEWARE_NAME@,
            Json::Object(
                Map::empty().insert(
                    "chain"@,
                    Json::Object(
                        Map::empty().insert(
                            "middlewares"@,
                            Json::List(seq![Json::Text(RETRY_MIDDLEWARE_NAME@)]),
                        ),
                    ),
                ),
            ),
        ).insert(
            RETRY_MIDDLEWARE_NAME@,
            Json::Object(
                Map::empty().insert(
                    "retry"@,
                    Json::Object(Map::empty().insert("attempts"@, Json::Number(retry_attempts))),
                ),
            ),
        ),
    )
}

/// The routers of `sites`, each under its name. Of two sites with the same
/// router name the later one has the router.
pub open spec fn routers_json(sites: Seq<SiteView>, settings: SettingsView) -> Map<Seq<char>, Json>
    decreases sites.len(),
{
    if sites.len() == 0 {
        Map::empty()
    } else {
        routers_json(sites.drop_last(), settings).insert(
            router_name(sites.last().hostname()),
            router_json(
                sites.last().hostname(),
                settings.traefik_service,
                settings.traefik_cert_resolver,
            ),
        )
    }
}

/// The document that the proxy polls: under `http`, the routers of `sites`
/// and the middlewares.
pub open spec fn provider_json(
    sites: Seq<SiteView>,
    settings: SettingsView,
    retry_attempts: int,
) -> Json {
    Json::Object(
        Map::empty().insert(
            "http"@,
            Json::Object(
                Map::empty().insert("routers"@, Json::Object(routers_json(sites, settings))).insert(
                    "middlewares"@,
                    middleware_json(retry_attempts),
                ),
            ),
        ),
    )
}

/// A router has its rule, its service and its one middleware under three
/// keys, and a TLS block under a fourth exactly where a certificate resolver
/// is set.
pub proof fn lemma_router_keys(
    hostname: Seq<char>,
    service: Seq<char>,
    cert_resolver: Option<Seq<char>>,
)
    ensures
        router_json(hostname, service, cert_resolver) is Object,
        cert_resolver is Some ==> router_json(hostname, service, cert_resolver)->Object_0.dom()
            == set!["rule"@, "service"@, "middlewares"@, "tls"@],
        cert_resolver is None ==> router_json(hostname, service, cert_resolver)->Object_0.dom()
            == set!["rule"@, "service"@, "middlewares"@],
        router_json(hostname, service, cert_resolver)->Object_0["rule"@] == Json::Text(
            host_rule(hostname),
        ),
        router_json(hostname, service, cert_resolver)->Object_0["service"@] == Json::Text(service),
        router_json(hostname, service, cert_resolver)->Object_0["middlewares"@] == Json::List(
            seq![Json::Text(DEFAULT_MIDDLEWARE_NAME@)],
        ),
        cert_resolver matches Some(name) ==> router_json(
            hostname,
            service,
            cert_resolver,
        )->Object_0["tls"@] == tls_json(name),
{
    reveal_strlit("rule");
    reveal_strlit("service");
    reveal_strlit("middlewares");
    reveal_strlit("tls");
    assert("rule"@ != "service"@ && "rule"@ != "middlewares"@ && "rule"@ != "tls"@) by {
        assert("rule"@[0] == 'r');
    }
    assert("service"@ != "middlewares"@ && "service"@ != "tls"@) by {
        assert("service"@[0] == 's');
    }
    assert("middlewares"@ != "tls"@) by {
        assert("middlewares"@[0] == 'm');
    }
    let fields = router_json(hostname, service, cert_resolver)->Object_0;
    if cert_resolver is Some {
        assert(fields.dom() =~= set!["rule"@, "service"@, "middlewares"@, "tls"@]);
    } else {
        assert(fields.dom() =~= set!["rule"@, "service"@, "middlewares"@]);
    }
}

/// The middlewares are two, under two names: the chain, which holds the name
/// of the retry middleware and no other, and the retry middleware.
pub proof fn lemma_middleware_keys(retry_attempts: int)
    ensures
        middleware_json(retry_attempts) is Object,
        middleware_json(retry_attempts)->Object_0.dom() == set![
            DEFAULT_MIDDLEWARE_NAME@,
            RETRY_MIDDLEWARE_NAME@,
        ],
        DEFAULT_MIDDLEWARE_NAME@ != RETRY_MIDDLEWARE_NAME@,
        middleware_json(retry_attempts)->Object_0[DEFAULT_MIDDLEWARE_NAME@] == Json::Object(
            Map::empty().insert(
                "chain"@,
                Json::Object(
                    Map::empty().insert(
                        "middlewares"@,
                        Json::List(seq![Json::Text(RETRY_MIDDLEWARE_NAME@)]),
                    ),
                ),
            ),
        ),
        middleware_json(retry_attempts)->Object_0[RETRY_MIDDLEWARE_NAME@] == Json::Object(
            Map::empty().insert(
                "retry"@,
                Json::Object(Map::empty().insert("attempts"@, Json::Number(retry_attempts))),
            ),
        ),
{
    reveal_strlit("tp-default");
    reveal_strlit("tp-retry");
    assert(DEFAULT_MIDDLEWARE_NAME@ != RETRY_MIDDLEWARE_NAME@) by {
        assert(DEFAULT_MIDDLEWARE_NAME@[3] == 'd');
        assert(RETRY_MIDDLEWARE_NAME@[3] == 'r');
    }
    assert(middleware_json(retry_attempts)->Object_0.dom() =~= set![
        DEFAULT_MIDDLEWARE_NAME@,
        RETRY_MIDDLEWARE_NAME@,
    ]);
}

/// Under `http` the document holds the routers and the middlewares, and
/// nothing else.
pub proof fn lemma_provider_keys(sites: Seq<SiteView>, settings: SettingsView, retry_attempts: int)
    ensures
        provider_json(sites, settings, retry_attempts) is Object,
        provider_json(sites, settings, retry_attempts)->Object_0.dom() == set!["http"@],
        provider_json(sites, settings, retry_attempts)->Object_0["http"@] is Object,
        provider_json(sites, settings, retry_attempts)->Object_0["http"@]->Object_0.dom() == set![
            "routers"@,
            "middlewares"@,
        ],
        provider_json(sites, settings, retry_attempts)->Object_0["http"@]->Object_0["routers"@]
            == Json::Object(routers_json(sites, settings)),
        provider_json(
            sites,
            settings,
            retry_attempts,
        )->Object_0["http"@]->Object_0["middlewares"@] == middleware_json(retry_attempts),
{
    reveal_strlit("routers");
    reveal_strlit("middlewares");
    assert("routers"@ != "middlewares"@) by {
        assert("routers"@[0] == 'r');
        assert("middlewares"@[0] == 'm');
    }
    let document = provider_json(sites, settings, retry_attempts)->Object_0;
    assert(document.dom() =~= set!["http"@]);
    assert(document["http"@]->Object_0.dom() =~= set!["routers"@, "middlewares"@]);
}

/// Every site whose router name is `name` has its router in the document,
/// unless a later site has the same router name.
pub proof fn lemma_router_present(sites: Seq<SiteView>, settings: SettingsView, i: int)
    requires
        0 <= i < sites.len(),
        forall|j: int| i < j < sites.len() ==> router_name(sites[j].hostname()) != router_name(
            sites[i].hostname(),
        ),
    ensures
        routers_json(sites, settings).contains_key(router_name(sites[i].hostname())),
        routers_json(sites, settings)[router_name(sites[i].hostname())] == router_json(
            sites[i].hostname(),
            settings.traefik_service,
            settings.traefik_cert_resolver,
        ),
    decreases sites.len(),
{
    if i < sites.len() - 1 {
        let before = sites.drop_last();
        assert(before[i] == sites[i]);
        assert forall|j: int| i < j < before.len() implies router_name(before[j].hostname())
            != router_name(before[i].hostname()) by {
            assert(before[j] == sites[j]);
        }
        lemma_router_present(before, settings, i);
    }
}

/// The document has a router under a name only where a site has that router
/// name.
pub proof fn lemma_router_named(sites: Seq<SiteView>, settings: SettingsView, name: Seq<char>)
    requires
        routers_json(sites, settings).contains_key(name),
    ensures
        exists|i: int| 0 <= i < sites.len() && router_name(#[trigger] sites[i].hostname()) == name,
    decreases sites.len(),
{
    if sites.len() > 0 {
        if router_name(sites.last().hostname()) == name {
            assert(router_name(sites[sites.len() - 1].hostname()) == name);
        } else {
            let before = sites.drop_last();
            lemma_router_named(before, settings, name);
            let i = choose|i: int|
                0 <= i < before.len() && router_name(#[trigger] before[i].hostname()) == name;
            assert(before[i] == sites[i]);
        }
    }
}

/// The rule that matches the requests for `hostname`.
pub fn get_host_rule(hostname: &str) -> (rule: String)
    ensures
        rule@ == host_rule(hostname@),
{
    join_text(join_text("Host(`", hostname).as_str(), "`)")
}

/// The name of the router of `site`.
pub fn get_router_name(site: &Site) -> (name: String)
    ensures
        name@ == router_name(site@.hostname()),
{
    let hostname = site.get_hostname();
    replace_char(hostname.as_str(), '.', "-")
}

/// The router of `site`.
pub fn serialize_router(site: &Site, settings: &Settings) -> (router: serde_json::Value)
    ensures
        json_of(router) == router_json(
            site@.hostname(),
            settings@.traefik_service,
            settings@.traefik_cert_resolver,
        ),
{
    let hostname = site.get_hostname();
    let rule = get_host_rule(hostname.as_str());
    let mut middlewares: Vec<serde_json::Value> = Vec::new();
    middlewares.push(json_text(DEFAULT_MIDDLEWARE_NAME));
    assert(json_each(middlewares@) =~= seq![Json::Text(DEFAULT_MIDDLEWARE_NAME@)]);
    let mut router = json_object();
    json_insert(&mut router, "rule", json_text(rule.as_str()));
    json_insert(&mut router, "service", json_text(settings.traefik_service.as_str()));
    json_insert(&mut router, "middlewares", json_list(middlewares));
    match &settings.traefik_cert_resolver {
        Some(cert_resolver) => {
            let mut tls = json_object();
            json_insert(&mut tls, "certResolver", json_text(cert_resolver.as_str()));
            json_insert(&mut router, "tls", tls);
        },
        None => {},
    }
    router
}

/// The middlewares, with `retry_attempts` as the number of attempts.
pub fn get_middleware(retry_attempts: u8) -> (middlewares: serde_json::Value)
    ensures
        json_of(middlewares) == middleware_json(retry_attempts as int),
{
    let mut chained: Vec<serde_json::Value> = Vec::new();
    chained.push(json_text(RETRY_MIDDLEWARE_NAME));
    assert(json_each(chained@) =~= seq![Json::Text(RETRY_MIDDLEWARE_NAME@)]);
    let mut chain = json_object();
    json_insert(&mut chain, "middlewares", json_list(chained));
    let mut default_middleware = json_object();
    json_insert(&mut default_middleware, "chain", chain);

    let mut retry = json_object();
    json_insert(&mut retry, "attempts", json_number(retry_attempts));
    let mut retry_middleware = json_object();
    json_insert(&mut retry_middleware, "retry", retry);

    let mut middlewares = json_object();
    json_insert(&mut middlewares, DEFAULT_MIDDLEWARE_NAME, default_middleware);
    json_insert(&mut middlewares, RETRY_MIDDLEWARE_NAME, retry_middleware);
    middlewares
}

/// The document that the proxy polls, for the sites `sites`.
pub fn traefik_provider(sites: &Vec<Site>, settings: &Settings, retry_attempts: u8) -> (document:
    serde_json::Value)
    ensures
        json_of(document) == provider_json(
            sites_view(sites@),
            settings@,
            retry_attempts as int,
        ),
{
    let mut routers = json_object();
    let mut i: usize = 0;
    assert(sites_view(sites@).take(0) =~= Seq::<SiteView>::empty());
    while i < sites.len()
        invariant
            i <= sites.len(),
            json_of(routers) == Json::Object(
                routers_json(sites_view(sites@).take(i as int), settings@),
            ),
        decreases sites.len() - i,
    {
        let ghost upto = sites_view(sites@).take(i + 1);
        assert(upto.drop_last() =~= sites_view(sites@).take(i as int));
        assert(upto.last() == sites@[i as int]@);
        let name = get_router_name(&sites[i]);
        json_insert(&mut routers, name.as_str(), serialize_router(&sites[i], settings));
        i = i + 1;
    }
    assert(sites_view(sites@).take(i as int) =~= sites_view(sites@));
    let mut http = json_object();
    json_insert(&mut http, "routers", routers);
    json_insert(&mut http, "middlewares", get_middleware(retry_attempts));
    let mut document = json_object();
    json_insert(&mut document, "http", http);
    document
}

} // verus!
