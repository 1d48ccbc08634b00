//! The answer to one request: the file that the request's host and path
//! lead to, or that there is none.
//!
//! Whatever stands in the way of a file, the request is answered alike, as
//! not found; the reason is kept beside the answer for the server's own
//! records.

use crate::disk::{run, Disk, ErrorKind, Reply, ReplyView, Step, StepView};
use crate::files::lemma_within_transitive;
use crate::path::{names_of, within, AbsPath};
use crate::registry::{
    host_next, host_on, host_start, host_step_view, lemma_hosted_inside_root, HostState,
    HostStateView, HostStep, HostStepView,
};
use crate::settings::{Settings, SettingsView};
use crate::site::{
    file_next, file_on, file_start, file_step_view, is_valid_hostname,
    lemma_served_file_inside_root, valid_hostname, FileState, FileStateView, FileStep,
    FileStepView, Site, SiteView,
};
use crate::site_config::ConfigError;
use crate::text::{before_first, has_prefix, strip_leading, trim_start, up_to_char};
use vstd::prelude::*;

verus! {

/// Why a request is answered as not found.
#[derive(Clone, Copy, Debug, PartialEq, Eq, Structural)]
pub enum Refusal {
    /// The request's host cannot name a site.
    InvalidHost,
    /// No site has the name of the request's host.
    UnknownHost,
    /// The request's path begins with a prefix that is never served.
    DeniedPrefix,
    /// The site has no file for the request's path.
    File(ErrorKind),
}

/// The answer to a request.
#[derive(Debug, PartialEq, Eq)]
pub enum Served {
    /// The file to send.
    File(AbsPath),
    /// There is nothing to send; the reason is not for the client.
    NotFound(Refusal),
    /// The settings file of the site was refused.
    Fatal(ConfigError),
}

/// A [`Served`] in contracts.
pub enum ServedView {
    File(Seq<Seq<char>>),
    NotFound(Refusal),
    Fatal(ConfigError),
}

impl View for Served {
    type V = ServedView;

    open spec fn view(&self) -> ServedView {
        match self {
            Served::File(path) => ServedView::File(path@),
            Served::NotFound(refusal) => ServedView::NotFound(*refusal),
            Served::Fatal(error) => ServedView::Fatal(*error),
        }
    }
}

/// Where the answering of a request stands.
#[derive(Debug, PartialEq, Eq)]
pub enum ServeState {
    /// The site of the request's host is being searched for.
    Host { url_path: String, host: HostState },
    /// The file of the request's path is being searched for in `site`.
    File { site: Site, file: FileState },
}

/// A [`ServeState`] in contracts.
pub enum ServeStateView {
    Host { url_path: Seq<char>, host: HostStateView },
    File { site: SiteView, file: FileStateView },
}

impl View for ServeState {
    type V = ServeStateView;

    open spec fn view(&self) -> ServeStateView {
        match self {
            ServeState::Host { url_path, host } => ServeStateView::Host {
                url_path: url_path@,
                host: host@,
            },
            ServeState::File { site, file } => ServeStateView::File { site: site@, file: file@ },
        }
    }
}

/// A step of the answering of a request.
pub type ServeStep = Step<ServeState, Served>;

/// A [`ServeStep`] in contracts.
pub type ServeStepView = StepView<ServeStateView, ServedView>;

/// A step of the answering of a request in contracts.
pub open spec fn serve_step_view(step: ServeStep) -> ServeStepView {
    match step {
        Step::Ask(state, request) => StepView::Ask(state@, request@),
        Step::Done(served) => StepView::Done(served@),
    }
}

/// The hostname in the value of a request's host header: the part before
/// the port.
pub open spec fn hostname_of(host: Seq<char>) -> Seq<char> {
    before_first(host, ':')
}

/// The path that a request asks for, as it is looked up in a site: without
/// the separators that it begins with.
pub open spec fn url_path_of(path: Seq<char>) -> Seq<char> {
    strip_leading(path, '/')
}

/// Whether `url_path` begins with one of `deny_prefixes`, character for
/// character.
pub open spec fn is_denied(url_path: Seq<char>, deny_prefixes: Seq<Seq<char>>) -> bool {
    exists|i: int|
        0 <= i < deny_prefixes.len() && (#[trigger] deny_prefixes[i]).is_prefix_of(url_path)
}

/// A step of the search for a file in `site`, as a step of the answering of
/// the request.
pub open spec fn serve_step_of_file(site: SiteView, step: FileStepView) -> ServeStepView {
    match step {
        StepView::Ask(file, request) => StepView::Ask(ServeStateView::File { site, file }, request),
        StepView::Done(Ok(path)) => StepView::Done(ServedView::File(path)),
        StepView::Done(Err(kind)) => StepView::Done(ServedView::NotFound(Refusal::File(kind))),
    }
}

/// A step of the search for the site of the request's host, as a step of the
/// answering of the request: once the site is there, a path that is denied
/// ends the request, and any other is searched for in the site.
pub open spec fn serve_step_of_host(
    settings: SettingsView,
    url_path: Seq<char>,
    step: HostStepView,
) -> ServeStepView {
    match step {
        StepView::Ask(host, request) => StepView::Ask(
            ServeStateView::Host { url_path, host },
            request,
        ),
        StepView::Done(Err(error)) => StepView::Done(ServedView::Fatal(error)),
        StepView::Done(Ok(None)) => StepView::Done(ServedView::NotFound(Refusal::UnknownHost)),
        StepView::Done(Ok(Some(site))) => if is_denied(url_path, settings.deny_prefixes) {
            StepView::Done(ServedView::NotFound(Refusal::DeniedPrefix))
        } else {
            serve_step_of_file(site, file_start(site, url_path))
        },
    }
}

/// The first step of the answering of the request for `path` on `host`.
pub open spec fn serve_start(
    settings: SettingsView,
    host: Seq<char>,
    path: Seq<char>,
) -> ServeStepView {
    if valid_hostname(hostname_of(host)) {
        serve_step_of_host(
            settings,
            url_path_of(path),
            host_start(settings.sites_root, hostname_of(host)),
        )
    } else {
        StepView::Done(ServedView::NotFound(Refusal::InvalidHost))
    }
}

/// The step that follows `state` when the disk answers `reply`.
pub open spec fn serve_next(
    settings: SettingsView,
    state: ServeStateView,
    reply: ReplyView,
) -> ServeStepView {
    match state {
        ServeStateView::Host { url_path, host } => serve_step_of_host(
            settings,
            url_path,
            host_next(host, reply),
        ),
        ServeStateView::File { site, file } => serve_step_of_file(
            site,
            file_next(site, file, reply),
        ),
    }
}

/// The answer to the request for `path` on `host`, on `disk`.
///
/// The host is checked first, then its site is searched for, then the path is
/// held against the denied prefixes, and the file is searched for last.
pub open spec fn serve_on(
    disk: Disk,
    settings: SettingsView,
    host: Seq<char>,
    path: Seq<char>,
) -> ServedView {
    if !valid_hostname(hostname_of(host)) {
        ServedView::NotFound(Refusal::InvalidHost)
    } else {
        match host_on(disk, settings.sites_root, hostname_of(host)) {
            Err(error) => ServedView::Fatal(error),
            Ok(None) => ServedView::NotFound(Refusal::UnknownHost),
            Ok(Some(site)) => if is_denied(url_path_of(path), settings.deny_prefixes) {
                ServedView::NotFound(Refusal::DeniedPrefix)
            } else {
                match file_on(disk, site, url_path_of(path)) {
                    Ok(file) => ServedView::File(file),
                    Err(kind) => ServedView::NotFound(Refusal::File(kind)),
                }
            },
        }
    }
}

/// Where the answering of the request for `path` on `host` ends within five
/// requests to `disk`.
pub open spec fn run_serve(
    disk: Disk,
    settings: SettingsView,
    host: Seq<char>,
    path: Seq<char>,
) -> Option<ServedView> {
    run(
        disk,
        |state, reply| serve_next(settings, state, reply),
        serve_start(settings, host, path),
        5,
    )
}

/// The answering of a request ends after five requests to the disk at most,
/// with the answer that `serve_on` describes.
pub proof fn lemma_serve_run(disk: Disk, settings: SettingsView, host: Seq<char>, path: Seq<char>)
    ensures
        run_serve(disk, settings, host, path) == Some(serve_on(disk, settings, host, path)),
{
    reveal_with_fuel(run, 6);
}

/// A request is answered alike, as not found, whether its host cannot name a
/// site, no site has the name of its host, its path is denied in the site
/// `site` of its host, or that site has no file for its path and says
/// `kind`.
pub proof fn lemma_refusals_are_not_found(
    disk: Disk,
    settings: SettingsView,
    host: Seq<char>,
    path: Seq<char>,
    site: SiteView,
    kind: ErrorKind,
)
    ensures
        !valid_hostname(hostname_of(host)) ==> serve_on(disk, settings, host, path)
            == ServedView::NotFound(Refusal::InvalidHost),
        valid_hostname(hostname_of(host)) && host_on(disk, settings.sites_root, hostname_of(host))
            == Ok::<Option<SiteView>, ConfigError>(None) ==> serve_on(disk, settings, host, path)
            == ServedView::NotFound(Refusal::UnknownHost),
        valid_hostname(hostname_of(host)) && host_on(disk, settings.sites_root, hostname_of(host))
            == Ok::<Option<SiteView>, ConfigError>(Some(site)) && is_denied(
            url_path_of(path),
            settings.deny_prefixes,
        ) ==> serve_on(disk, settings, host, path) == ServedView::NotFound(Refusal::DeniedPrefix),
        valid_hostname(hostname_of(host)) && host_on(disk, settings.sites_root, hostname_of(host))
            == Ok::<Option<SiteView>, ConfigError>(Some(site)) && !is_denied(
            url_path_of(path),
            settings.deny_prefixes,
        ) && file_on(disk, site, url_path_of(path)) == Err::<Seq<Seq<char>>, ErrorKind>(kind)
            ==> serve_on(disk, settings, host, path) == ServedView::NotFound(Refusal::File(kind)),
{
}

/// Whatever is on the disk and whatever the request, a file that is served
/// lies inside the sites root: in the site of the request's host, which is
/// not that site's settings file, and never under a denied prefix.
pub proof fn lemma_served_inside_sites_root(
    disk: Disk,
    settings: SettingsView,
    host: Seq<char>,
    path: Seq<char>,
)
    ensures
        serve_on(disk, settings, host, path) matches ServedView::File(file) ==> within(
            file,
            settings.sites_root,
        ) && valid_hostname(hostname_of(host)) && !is_denied(
            url_path_of(path),
            settings.deny_prefixes,
        ),
        serve_on(disk, settings, host, path) matches ServedView::File(file) ==> host_on(
            disk,
            settings.sites_root,
            hostname_of(host),
        ) matches Ok(Some(site)) && within(file, site.root) && site.config_path != Some(file),
{
    if valid_hostname(hostname_of(host)) {
        lemma_hosted_inside_root(disk, settings.sites_root, hostname_of(host));
        match host_on(disk, settings.sites_root, hostname_of(host)) {
            Ok(Some(site)) => {
                lemma_served_file_inside_root(disk, site, url_path_of(path));
                match file_on(disk, site, url_path_of(path)) {
                    Ok(file) => {
                        lemma_within_transitive(file, site.root, settings.sites_root);
                    },
                    Err(_) => {},
                }
            },
            _ => {},
        }
    }
}

/// The hostname in the value of a request's host header.
pub fn get_hostname(host: &str) -> (hostname: String)
    ensures
        hostname@ == hostname_of(host@),
{
    up_to_char(host, ':')
}

/// Whether `url_path` begins with one of `deny_prefixes`.
pub fn denied(url_path: &str, deny_prefixes: &Vec<String>) -> (yes: bool)
    ensures
        yes == is_denied(url_path@, names_of(deny_prefixes@)),
{
    let mut i: usize = 0;
    while i < deny_prefixes.len()
        invariant
            i <= deny_prefixes.len(),
            forall|j: int|
                0 <= j < i ==> !(#[trigger] names_of(deny_prefixes@)[j]).is_prefix_of(
                    url_path@,
                ),
        decreases deny_prefixes.len() - i,
    {
        if has_prefix(url_path, deny_prefixes[i].as_str()) {
            assert(names_of(deny_prefixes@)[i as int].is_prefix_of(url_path@));
            return true;
        }
        i = i + 1;
    }
    false
}

/// Takes a step of the search for a file in `site` as a step of the
/// answering of the request.
fn lift_file(site: Site, step: FileStep) -> (lifted: ServeStep)
    ensures
        serve_step_view(lifted) == serve_step_of_file(site@, file_step_view(step)),
{
    match step {
        Step::Ask(file, request) => Step::Ask(ServeState::File { site, file }, request),
        Step::Done(Ok(path)) => Step::Done(Served::File(path)),
        Step::Done(Err(kind)) => Step::Done(Served::NotFound(Refusal::File(kind))),
    }
}

/// Takes a step of the search for the site as a step of the answering of
/// the request.
fn lift_host(settings: &Settings, url_path: String, step: HostStep) -> (lifted: ServeStep)
    ensures
        serve_step_view(lifted) == serve_step_of_host(
            settings@,
            url_path@,
            host_step_view(step),
        ),
{
    match step {
        Step::Ask(host, request) => Step::Ask(ServeState::Host { url_path, host }, request),
        Step::Done(Err(error)) => Step::Done(Served::Fatal(error)),
        Step::Done(Ok(None)) => Step::Done(Served::NotFound(Refusal::UnknownHost)),
        Step::Done(Ok(Some(site))) => {
            if denied(url_path.as_str(), &settings.deny_prefixes) {
                Step::Done(Served::NotFound(Refusal::DeniedPrefix))
            } else {
                let step = site.get_file_for_path(url_path.as_str());
                lift_file(site, step)
            }
        },
    }
}

/// Begins the answering of the request for `path` whose host header is
/// `host`.
pub fn serve_file(settings: &Settings, host: &str, path: &str) -> (step: ServeStep)
    ensures
        serve_step_view(step) == serve_start(settings@, host@, path@),
{
    let hostname = get_hostname(host);
    if !is_valid_hostname(hostname.as_str()) {
        return Step::Done(Served::NotFound(Refusal::InvalidHost));
    }
    let url_path = trim_start(path, '/');
    lift_host(settings, url_path, settings.site_from_hostname(hostname.as_str()))
}

/// Goes on with the answering of a request from `state`, with the disk's
/// answer to the request of the step before.
pub fn resume_serve_file(settings: &Settings, state: ServeState, reply: Reply) -> (step: ServeStep)
    ensures
        serve_step_view(step) == serve_next(settings@, state@, reply@),
{
    match state {
        ServeState::Host { url_path, host } => lift_host(
            settings,
            url_path,
            Site::resume_from_hostname(host, reply),
        ),
        ServeState::File { site, file } => {
            let step = site.resume_file_for_path(file, reply);
            lift_file(site, step)
        },
    }
}

} // verus!
