//! The sites below a sites root: finding the one that a hostname names, and
//! listing them all.
//!
//! Nothing is kept between two calls: every lookup and every listing asks the
//! disk anew.

use crate::disk::{
    children_view, list_on, run, Child, ChildView, Disk, ErrorKind, Reply, ReplyView,
    Request, RequestView, Step, StepView,
};
use crate::files::{guarded, resolve_within, safe_join};
use crate::path::{is_normal_segment, within, AbsPath};
use crate::site::{
    is_valid_hostname, site_next, site_on, site_start, valid_hostname, Site, SiteState,
    SiteStateView, SiteView,
};
use crate::site_config::{ConfigError, CONFIG_FILENAME};
use vstd::prelude::*;

verus! {

/// The sites of `sites`, each as it stands in contracts.
pub open spec fn sites_view(sites: Seq<Site>) -> Seq<SiteView> {
    sites.map_values(|site: Site| site@)
}

/// Where the search for the site of a hostname stands.
#[derive(Debug, PartialEq, Eq)]
pub enum HostState {
    /// The hostname is being looked up below `sites_root`.
    Root { sites_root: AbsPath },
    /// The directory of the hostname was found, and its site is being made.
    Building { inner: SiteState },
}

/// A [`HostState`] in contracts.
pub enum HostStateView {
    Root { sites_root: Seq<Seq<char>> },
    Building { inner: SiteStateView },
}

impl View for HostState {
    type V = HostStateView;

    open spec fn view(&self) -> HostStateView {
        match self {
            HostState::Root { sites_root } => HostStateView::Root { sites_root: sites_root@ },
            HostState::Building { inner } => HostStateView::Building { inner: inner@ },
        }
    }
}

/// A step of the search for the site of a hostname.
pub type HostStep = Step<HostState, Result<Option<Site>, ConfigError>>;

/// A [`HostStep`] in contracts.
pub type HostStepView = StepView<HostStateView, Result<Option<SiteView>, ConfigError>>;

/// The site of a hostname, if there is one, or why none could be made, in
/// contracts.
pub open spec fn hosted_view(hosted: Result<Option<Site>, ConfigError>) -> Result<
    Option<SiteView>,
    ConfigError,
> {
    match hosted {
        Ok(Some(site)) => Ok(Some(site@)),
        Ok(None) => Ok(None),
        Err(error) => Err(error),
    }
}

/// A step of the search for the site of a hostname in contracts.
pub open spec fn host_step_view(step: HostStep) -> HostStepView {
    match step {
        Step::Ask(state, request) => StepView::Ask(state@, request@),
        Step::Done(hosted) => StepView::Done(hosted_view(hosted)),
    }
}

/// A step of the making of a site, as a step of the search that the making
/// is part of.
pub open spec fn host_step_of(
    step: StepView<SiteStateView, Result<SiteView, ConfigError>>,
) -> HostStepView {
    match step {
        StepView::Ask(inner, request) => StepView::Ask(HostStateView::Building { inner }, request),
        StepView::Done(Ok(site)) => StepView::Done(Ok(Some(site))),
        StepView::Done(Err(error)) => StepView::Done(Err(error)),
    }
}

/// The first step of the search for the site of `hostname`: a hostname that
/// cannot name a site has none, and any other is looked up below the sites
/// root.
pub open spec fn host_start(sites_root: Seq<Seq<char>>, hostname: Seq<char>) -> HostStepView {
    if valid_hostname(hostname) {
        StepView::Ask(
            HostStateView::Root { sites_root },
            RequestView::Resolve { base: sites_root, relative: hostname },
        )
    } else {
        StepView::Done(Ok(None))
    }
}

/// The step that follows `state` when the disk answers `reply`: a hostname
/// that leads to nothing, or out of the sites root, has no site; where it
/// leads to an entry, the site at that entry is made.
pub open spec fn host_next(state: HostStateView, reply: ReplyView) -> HostStepView {
    match state {
        HostStateView::Root { sites_root } => match guarded(sites_root, reply.resolved()) {
            Err(_) => StepView::Done(Ok(None)),
            Ok(entry) => host_step_of(site_start(entry.path)),
        },
        HostStateView::Building { inner } => host_step_of(site_next(inner, reply)),
    }
}

/// The site of `hostname` below `sites_root` on `disk`.
///
/// There is none where the hostname cannot name a site, where nothing
/// exists under that name below the sites root, and where what exists
/// there lies outside the sites root. Else it is the site at the entry that
/// the name leads to.
pub open spec fn host_on(disk: Disk, sites_root: Seq<Seq<char>>, hostname: Seq<char>) -> Result<
    Option<SiteView>,
    ConfigError,
> {
    if !valid_hostname(hostname) {
        Ok(None)
    } else {
        match resolve_within(disk, sites_root, hostname) {
            Err(_) => Ok(None),
            Ok(entry) => match site_on(disk, entry.path) {
                Ok(site) => Ok(Some(site)),
                Err(error) => Err(error),
            },
        }
    }
}

/// The search for the site of a hostname ends after three requests at most,
/// with the result that `host_on` describes.
pub proof fn lemma_host_run(disk: Disk, sites_root: Seq<Seq<char>>, hostname: Seq<char>)
    ensures
        run(disk, |state, reply| host_next(state, reply), host_start(sites_root, hostname), 3)
            == Some(host_on(disk, sites_root, hostname)),
{
    reveal_with_fuel(run, 4);
}

/// Whatever is on the disk, the site that is found for a hostname lies
/// inside the sites root, and the hostname can name a site.
pub proof fn lemma_hosted_inside_root(disk: Disk, sites_root: Seq<Seq<char>>, hostname: Seq<char>)
    ensures
        host_on(disk, sites_root, hostname) matches Ok(Some(site)) ==> within(
            site.root,
            sites_root,
        ) && valid_hostname(hostname),
{
}

/// Why the sites below a sites root could not be listed.
#[derive(Clone, Copy, Debug, PartialEq, Eq, Structural)]
pub enum DiscoverError {
    /// The sites root could not be listed.
    List(ErrorKind),
    /// The settings file of one of the directories was refused.
    Config(ConfigError),
}

/// Whether an entry of the sites root may hold a site: it is a directory
/// whose name can be a name of a path in normal form.
pub open spec fn is_candidate(child: ChildView) -> bool {
    child.is_dir && is_normal_segment(child.name)
}

/// The paths of the entries of `children` that may hold a site, in the
/// order of `children`, where `children` are the entries of `sites_root`.
pub open spec fn site_roots(sites_root: Seq<Seq<char>>, children: Seq<ChildView>) -> Seq<
    Seq<Seq<char>>,
>
    decreases children.len(),
{
    if children.len() == 0 {
        Seq::empty()
    } else if is_candidate(children.last()) {
        site_roots(sites_root, children.drop_last()).push(sites_root.push(children.last().name))
    } else {
        site_roots(sites_root, children.drop_last())
    }
}

/// The paths of `paths`, each as it stands in contracts.
pub open spec fn paths_view(paths: Seq<AbsPath>) -> Seq<Seq<Seq<char>>> {
    paths.map_values(|path: AbsPath| path@)
}

/// The directories among the entries `children` of `sites_root`, each by its
/// path, in the order of `children`.
pub fn get_sites(sites_root: &AbsPath, children: &Vec<Child>) -> (roots: Vec<AbsPath>)
    ensures
        paths_view(roots@) == site_roots(sites_root@, children_view(children@)),
{
    let mut roots: Vec<AbsPath> = Vec::new();
    let mut i: usize = 0;
    assert(children_view(children@).take(0) =~= Seq::<ChildView>::empty());
    assert(paths_view(roots@) =~= Seq::<Seq<Seq<char>>>::empty());
    while i < children.len()
        invariant
            i <= children.len(),
            paths_view(roots@) == site_roots(
                sites_root@,
                children_view(children@).take(i as int),
            ),
        decreases children.len() - i,
    {
        let ghost before = paths_view(roots@);
        let ghost upto = children_view(children@).take(i + 1);
        assert(upto.drop_last() =~= children_view(children@).take(i as int));
        assert(upto.last() == children@[i as int]@);
        if children[i].is_dir {
            match sites_root.child(children[i].name.as_str()) {
                Some(root) => {
                    roots.push(root);
                    assert(paths_view(roots@) =~= before.push(root@));
                },
                None => {},
            }
        }
        i = i + 1;
    }
    assert(children_view(children@).take(i as int) =~= children_view(children@));
    roots
}

/// Where the listing of the sites below a sites root stands.
#[derive(Debug, PartialEq, Eq)]
pub enum DiscoverState {
    /// The entries of `sites_root` are being listed.
    Listing { sites_root: AbsPath },
    /// The directories that may hold a site are `roots`. Those before `next`
    /// are done and have given `sites`; the site of the last of them is
    /// being made.
    Building { roots: Vec<AbsPath>, next: usize, sites: Vec<Site>, inner: SiteState },
}

/// A [`DiscoverState`] in contracts.
pub enum DiscoverStateView {
    Listing { sites_root: Seq<Seq<char>> },
    Building {
        roots: Seq<Seq<Seq<char>>>,
        next: int,
        sites: Seq<SiteView>,
        inner: SiteStateView,
    },
}

impl View for DiscoverState {
    type V = DiscoverStateView;

    open spec fn view(&self) -> DiscoverStateView {
        match self {
            DiscoverState::Listing { sites_root } => DiscoverStateView::Listing {
                sites_root: sites_root@,
            },
            DiscoverState::Building { roots, next, sites, inner } => DiscoverStateView::Building {
                roots: paths_view(roots@),
                next: *next as int,
                sites: sites_view(sites@),
                inner: inner@,
            },
        }
    }
}

/// A step of the listing of sites.
pub type DiscoverStep = Step<DiscoverState, Result<Vec<Site>, DiscoverError>>;

/// A [`DiscoverStep`] in contracts.
pub type DiscoverStepView = StepView<DiscoverStateView, Result<Seq<SiteView>, DiscoverError>>;

/// The listed sites, or why there are none, in contracts.
pub open spec fn discovered_view(discovered: Result<Vec<Site>, DiscoverError>) -> Result<
    Seq<SiteView>,
    DiscoverError,
> {
    match discovered {
        Ok(sites) => Ok(sites_view(sites@)),
        Err(error) => Err(error),
    }
}

/// A step of the listing of sites in contracts.
pub open spec fn discover_step_view(step: DiscoverStep) -> DiscoverStepView {
    match step {
        Step::Ask(state, request) => StepView::Ask(state@, request@),
        Step::Done(discovered) => StepView::Done(discovered_view(discovered)),
    }
}

/// `sites` with `site` added where its hostname can name a site.
pub open spec fn with_site(sites: Seq<SiteView>, site: SiteView) -> Seq<SiteView> {
    if valid_hostname(site.hostname()) {
        sites.push(site)
    } else {
        sites
    }
}

/// The step of the listing when the directories before `next` are done and
/// have given `sites`: the site of the next directory is begun, and with
/// none left the listing ends with `sites`.
pub open spec fn discover_scan(
    roots: Seq<Seq<Seq<char>>>,
    next: int,
    sites: Seq<SiteView>,
) -> DiscoverStepView {
    if 0 <= next < roots.len() {
        StepView::Ask(
            DiscoverStateView::Building {
                roots,
                next: next + 1,
                sites,
                inner: SiteStateView::ConfigPath { root: roots[next] },
            },
            RequestView::Resolve { base: roots[next], relative: CONFIG_FILENAME@ },
        )
    } else {
        StepView::Done(Ok(sites))
    }
}

/// The first step of the listing of the sites below `sites_root`.
pub open spec fn discover_start(sites_root: Seq<Seq<char>>) -> DiscoverStepView {
    StepView::Ask(
        DiscoverStateView::Listing { sites_root },
        RequestView::List { dir: sites_root },
    )
}

/// The step that follows `state` when the disk answers `reply`.
///
/// A sites root that cannot be listed ends the listing with the disk's
/// error, and a settings file that is refused ends it with that error. A
/// site that was made is kept where its hostname can name a site.
pub open spec fn discover_next(state: DiscoverStateView, reply: ReplyView) -> DiscoverStepView {
    match state {
        DiscoverStateView::Listing { sites_root } => match reply.listed() {
            Err(kind) => StepView::Done(Err(DiscoverError::List(kind))),
            Ok(children) => discover_scan(site_roots(sites_root, children), 0, Seq::empty()),
        },
        DiscoverStateView::Building { roots, next, sites, inner } => match site_next(
            inner,
            reply,
        ) {
            StepView::Ask(inner, request) => StepView::Ask(
                DiscoverStateView::Building { roots, next, sites, inner },
                request,
            ),
            StepView::Done(Err(error)) => StepView::Done(Err(DiscoverError::Config(error))),
            StepView::Done(Ok(site)) => discover_scan(roots, next, with_site(sites, site)),
        },
    }
}

/// The sites that the directories of `roots` from `next` on add to `sites`,
/// on `disk`.
pub open spec fn discover_from(
    disk: Disk,
    roots: Seq<Seq<Seq<char>>>,
    next: int,
    sites: Seq<SiteView>,
) -> Result<Seq<SiteView>, DiscoverError>
    decreases roots.len() - next,
{
    if 0 <= next < roots.len() {
        match site_on(disk, roots[next]) {
            Err(error) => Err(DiscoverError::Config(error)),
            Ok(site) => discover_from(disk, roots, next + 1, with_site(sites, site)),
        }
    } else {
        Ok(sites)
    }
}

/// The sites below `sites_root` on `disk`, in the order in which the disk
/// lists their directories.
///
/// Each directory among the entries of the sites root has its site made, and
/// the site is kept where its hostname can name a site. A settings file that
/// is refused ends the listing, and so does a sites root that cannot be
/// listed.
pub open spec fn discover_on(disk: Disk, sites_root: Seq<Seq<char>>) -> Result<
    Seq<SiteView>,
    DiscoverError,
> {
    match list_on(disk, sites_root) {
        Err(kind) => Err(DiscoverError::List(kind)),
        Ok(children) => discover_from(disk, site_roots(sites_root, children), 0, Seq::empty()),
    }
}

/// Whether the hostname of every site of `sites` can name a site.
pub open spec fn all_valid(sites: Seq<SiteView>) -> bool {
    forall|i: int| 0 <= i < sites.len() ==> valid_hostname(#[trigger] sites[i].hostname())
}

proof fn lemma_scan_run(
    disk: Disk,
    roots: Seq<Seq<Seq<char>>>,
    next: int,
    sites: Seq<SiteView>,
    fuel: nat,
)
    requires
        0 <= next,
        fuel >= 2 * (roots.len() - next),
    ensures
        run(
            disk,
            |state, reply| discover_next(state, reply),
            discover_scan(roots, next, sites),
            fuel,
        ) == Some(discover_from(disk, roots, next, sites)),
    decreases roots.len() - next,
{
    reveal_with_fuel(run, 3);
    if next < roots.len() {
        let root = roots[next];
        let first = disk(RequestView::Resolve { base: root, relative: CONFIG_FILENAME@ });
        match guarded(root, first.resolved()) {
            Err(_) => {
                let site = site_on(disk, root)->Ok_0;
                lemma_scan_run(disk, roots, next + 1, with_site(sites, site), (fuel - 1) as nat);
            },
            Ok(entry) => {
                match site_on(disk, root) {
                    Err(_) => {},
                    Ok(site) => {
                        lemma_scan_run(
                            disk,
                            roots,
                            next + 1,
                            with_site(sites, site),
                            (fuel - 2) as nat,
                        );
                    },
                }
            },
        }
    }
}

/// The listing of sites ends after one request for the entries and two at
/// most for each directory among them, with the result that `discover_on`
/// describes.
pub proof fn lemma_discover_run(disk: Disk, sites_root: Seq<Seq<char>>, fuel: nat)
    requires
        fuel >= 1,
        list_on(disk, sites_root) matches Ok(children) ==> fuel >= 1 + 2 * site_roots(
            sites_root,
            children,
        ).len(),
    ensures
        run(disk, |state, reply| discover_next(state, reply), discover_start(sites_root), fuel)
            == Some(discover_on(disk, sites_root)),
{
    reveal_with_fuel(run, 2);
    match list_on(disk, sites_root) {
        Err(_) => {},
        Ok(children) => {
            lemma_scan_run(
                disk,
                site_roots(sites_root, children),
                0,
                Seq::empty(),
                (fuel - 1) as nat,
            );
        },
    }
}

proof fn lemma_discover_from_valid(
    disk: Disk,
    roots: Seq<Seq<Seq<char>>>,
    next: int,
    sites: Seq<SiteView>,
)
    requires
        0 <= next,
        all_valid(sites),
    ensures
        discover_from(disk, roots, next, sites) matches Ok(found) ==> all_valid(found),
    decreases roots.len() - next,
{
    if next < roots.len() {
        match site_on(disk, roots[next]) {
            Err(_) => {},
            Ok(site) => {
                lemma_discover_from_valid(disk, roots, next + 1, with_site(sites, site));
            },
        }
    }
}

/// Whatever is on the disk, no site is listed whose hostname is empty,
/// begins with a dot or has not the syntax of a host.
pub proof fn lemma_discovered_hostnames_valid(disk: Disk, sites_root: Seq<Seq<char>>)
    ensures
        discover_on(disk, sites_root) matches Ok(sites) ==> all_valid(sites),
{
    match list_on(disk, sites_root) {
        Err(_) => {},
        Ok(children) => {
            lemma_discover_from_valid(disk, site_roots(sites_root, children), 0, Seq::empty());
        },
    }
}

/// Whether every site of `sites` is at a directory directly below
/// `sites_root`.
pub open spec fn all_below(sites: Seq<SiteView>, sites_root: Seq<Seq<char>>) -> bool {
    forall|i: int|
        0 <= i < sites.len() ==> (#[trigger] sites[i]).root.len() > 0
            && sites[i].root.drop_last() == sites_root
}

/// Whether every path of `roots` is that of an entry of `sites_root`.
pub open spec fn directly_below(roots: Seq<Seq<Seq<char>>>, sites_root: Seq<Seq<char>>) -> bool {
    forall|i: int|
        0 <= i < roots.len() ==> (#[trigger] roots[i]).len() > 0 && roots[i].drop_last()
            == sites_root
}

proof fn lemma_site_roots_below(sites_root: Seq<Seq<char>>, children: Seq<ChildView>)
    ensures
        directly_below(site_roots(sites_root, children), sites_root),
    decreases children.len(),
{
    if children.len() > 0 {
        let before = site_roots(sites_root, children.drop_last());
        let roots = site_roots(sites_root, children);
        lemma_site_roots_below(sites_root, children.drop_last());
        assert(sites_root.push(children.last().name).drop_last() =~= sites_root);
        assert forall|i: int| 0 <= i < roots.len() implies (#[trigger] roots[i]).len() > 0
            && roots[i].drop_last() == sites_root by {
            if i < before.len() {
                assert(roots[i] == before[i]);
            }
        }
    }
}

proof fn lemma_discover_from_below(
    disk: Disk,
    sites_root: Seq<Seq<char>>,
    roots: Seq<Seq<Seq<char>>>,
    next: int,
    sites: Seq<SiteView>,
)
    requires
        0 <= next,
        all_below(sites, sites_root),
        directly_below(roots, sites_root),
    ensures
        discover_from(disk, roots, next, sites) matches Ok(found) ==> all_below(found, sites_root),
    decreases roots.len() - next,
{
    if next < roots.len() {
        match site_on(disk, roots[next]) {
            Err(_) => {},
            Ok(site) => {
                assert(site.root == roots[next]);
                lemma_discover_from_below(
                    disk,
                    sites_root,
                    roots,
                    next + 1,
                    with_site(sites, site),
                );
            },
        }
    }
}

/// Whatever is on the disk, every site that is listed is at a directory
/// directly below the sites root.
pub proof fn lemma_discovered_below_root(disk: Disk, sites_root: Seq<Seq<char>>)
    ensures
        discover_on(disk, sites_root) matches Ok(sites) ==> all_below(sites, sites_root),
{
    match list_on(disk, sites_root) {
        Err(_) => {},
        Ok(children) => {
            lemma_site_roots_below(sites_root, children);
            lemma_discover_from_below(
                disk,
                sites_root,
                site_roots(sites_root, children),
                0,
                Seq::empty(),
            );
        },
    }
}

/// Whether `sites` holds a site at the directory `root`.
pub open spec fn has_site_at(sites: Seq<SiteView>, root: Seq<Seq<char>>) -> bool {
    exists|k: int| 0 <= k < sites.len() && (#[trigger] sites[k]).root == root
}

proof fn lemma_discover_from_keeps(
    disk: Disk,
    roots: Seq<Seq<Seq<char>>>,
    next: int,
    sites: Seq<SiteView>,
    root: Seq<Seq<char>>,
)
    requires
        0 <= next,
        has_site_at(sites, root),
    ensures
        discover_from(disk, roots, next, sites) matches Ok(found) ==> has_site_at(found, root),
    decreases roots.len() - next,
{
    if next < roots.len() {
        match site_on(disk, roots[next]) {
            Err(_) => {},
            Ok(site) => {
                let k = choose|k: int| 0 <= k < sites.len() && (#[trigger] sites[k]).root == root;
                let grown = with_site(sites, site);
                assert(grown[k].root == root);
                lemma_discover_from_keeps(disk, roots, next + 1, grown, root);
            },
        }
    }
}

proof fn lemma_discover_from_complete(
    disk: Disk,
    roots: Seq<Seq<Seq<char>>>,
    next: int,
    sites: Seq<SiteView>,
    i: int,
)
    requires
        0 <= next <= i < roots.len(),
        roots[i].len() > 0,
        valid_hostname(roots[i].last()),
    ensures
        discover_from(disk, roots, next, sites) matches Ok(found) ==> has_site_at(found, roots[i]),
    decreases roots.len() - next,
{
    match site_on(disk, roots[next]) {
        Err(_) => {},
        Ok(site) => {
            let grown = with_site(sites, site);
            if next == i {
                assert(site.root == roots[i]);
                assert(grown[grown.len() - 1].root == roots[i]);
                lemma_discover_from_keeps(disk, roots, next + 1, grown, roots[i]);
            } else {
                lemma_discover_from_complete(disk, roots, next + 1, grown, i);
            }
        },
    }
}

proof fn lemma_site_roots_hold(sites_root: Seq<Seq<char>>, children: Seq<ChildView>, c: int)
    requires
        0 <= c < children.len(),
        is_candidate(children[c]),
    ensures
        exists|i: int|
            0 <= i < site_roots(sites_root, children).len() && #[trigger] site_roots(
                sites_root,
                children,
            )[i] == sites_root.push(children[c].name),
    decreases children.len(),
{
    let roots = site_roots(sites_root, children);
    if c == children.len() - 1 {
        assert(roots[roots.len() - 1] == sites_root.push(children[c].name));
    } else {
        let before = site_roots(sites_root, children.drop_last());
        lemma_site_roots_hold(sites_root, children.drop_last(), c);
        let i = choose|i: int|
            0 <= i < before.len() && #[trigger] before[i] == sites_root.push(
                children.drop_last()[c].name,
            );
        assert(roots[i] == before[i]);
    }
}

/// A directory of the sites root whose name can name a site has its site
/// listed, wherever the listing does not end on an error.
pub proof fn lemma_discovered_complete(disk: Disk, sites_root: Seq<Seq<char>>, name: Seq<char>)
    requires
        list_on(disk, sites_root) matches Ok(children) && children.contains(
            (ChildView { name, is_dir: true }),
        ),
        is_normal_segment(name),
        valid_hostname(name),
    ensures
        discover_on(disk, sites_root) matches Ok(sites) ==> has_site_at(
            sites,
            sites_root.push(name),
        ),
{
    let children = list_on(disk, sites_root)->Ok_0;
    let roots = site_roots(sites_root, children);
    let c = choose|c: int|
        0 <= c < children.len() && children[c] == (ChildView { name, is_dir: true });
    lemma_site_roots_hold(sites_root, children, c);
    let i = choose|i: int| 0 <= i < roots.len() && #[trigger] roots[i] == sites_root.push(name);
    lemma_discover_from_complete(disk, roots, 0, Seq::empty(), i);
}

/// Goes on with the listing when the directories before `next` are done.
fn scan(roots: Vec<AbsPath>, next: usize, sites: Vec<Site>) -> (step: DiscoverStep)
    ensures
        discover_step_view(step) == discover_scan(
            paths_view(roots@),
            next as int,
            sites_view(sites@),
        ),
{
    if next < roots.len() {
        let (inner, request) = Site::begin(roots[next].clone());
        Step::Ask(DiscoverState::Building { roots, next: next + 1, sites, inner }, request)
    } else {
        Step::Done(Ok(sites))
    }
}

impl Site {
    /// Begins the search for the site of `hostname` below `sites_root`.
    pub fn from_hostname(sites_root: &AbsPath, hostname: &str) -> (step: HostStep)
        ensures
            host_step_view(step) == host_start(sites_root@, hostname@),
    {
        if is_valid_hostname(hostname) {
            Step::Ask(
                HostState::Root { sites_root: sites_root.clone() },
                Request::Resolve { base: sites_root.clone(), relative: String::from_str(hostname) },
            )
        } else {
            Step::Done(Ok(None))
        }
    }

    /// Goes on with the search for the site of a hostname from `state`, with
    /// the disk's answer to the request of the step before.
    pub fn resume_from_hostname(state: HostState, reply: Reply) -> (step: HostStep)
        ensures
            host_step_view(step) == host_next(state@, reply@),
    {
        let inner_step = match state {
            HostState::Root { sites_root } => match safe_join(&sites_root, reply.resolved()) {
                Err(_) => {
                    return Step::Done(Ok(None));
                },
                Ok(entry) => Site::new(entry.path),
            },
            HostState::Building { inner } => Site::resume_new(inner, reply),
        };
        match inner_step {
            Step::Ask(inner, request) => Step::Ask(HostState::Building { inner }, request),
            Step::Done(Ok(site)) => Step::Done(Ok(Some(site))),
            Step::Done(Err(error)) => Step::Done(Err(error)),
        }
    }

    /// Begins the listing of the sites below `sites_root`.
    pub fn discover_all(sites_root: &AbsPath) -> (step: DiscoverStep)
        ensures
            discover_step_view(step) == discover_start(sites_root@),
    {
        Step::Ask(
            DiscoverState::Listing { sites_root: sites_root.clone() },
            Request::List { dir: sites_root.clone() },
        )
    }

    /// Goes on with the listing of sites from `state`, with the disk's answer
    /// to the request of the step before.
    pub fn resume_discover_all(state: DiscoverState, reply: Reply) -> (step: DiscoverStep)
        ensures
            discover_step_view(step) == discover_next(state@, reply@),
    {
        match state {
            DiscoverState::Listing { sites_root } => match reply.listed() {
                Err(kind) => Step::Done(Err(DiscoverError::List(kind))),
                Ok(children) => {
                    let sites: Vec<Site> = Vec::new();
                    assert(sites_view(sites@) =~= Seq::<SiteView>::empty());
                    scan(get_sites(&sites_root, &children), 0, sites)
                },
            },
            DiscoverState::Building { roots, next, sites, inner } => {
                match Site::resume_new(inner, reply) {
                    Step::Ask(inner, request) => Step::Ask(
                        DiscoverState::Building { roots, next, sites, inner },
                        request,
                    ),
                    Step::Done(Err(error)) => Step::Done(Err(DiscoverError::Config(error))),
                    Step::Done(Ok(site)) => {
                        let mut sites = sites;
                        let ghost before = sites_view(sites@);
                        let ghost added = site@;
                        let hostname = site.get_hostname();
                        if is_valid_hostname(hostname.as_str()) {
                            sites.push(site);
                            assert(sites_view(sites@) =~= before.push(added));
                        }
                        assert(sites_view(sites@) == with_site(before, added));
                        scan(roots, next, sites)
                    },
                }
            },
        }
    }
}

} // verus!
