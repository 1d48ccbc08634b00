//! A site: the directory that one hostname is served from, with its
//! settings.

use crate::disk::{
    path_view, read_on, resolve_on, run, Disk, EntryView, ErrorKind, Reply, ReplyView, Request,
    RequestView,
    Step, StepView,
};
use crate::files::{
    ensure_file, file_only, guarded, handle_index, index_step, lemma_within_transitive,
    resolve_within, safe_join,
};
use crate::path::{within, AbsPath};
use crate::site_config::{
    config_of_text, default_config, ConfigError, SiteConfig, SiteConfigView, CONFIG_FILENAME,
};
use crate::text::{
    begins_with, ends_with, ends_with_char, join_text, optional_text, starts_with_char,
};
use vstd::prelude::*;

verus! {

/// Whether `url::Host::parse` accepts `hostname`.
pub uninterp spec fn host_parses(hostname: Seq<char>) -> bool;

/// `url::Host::parse`: whether `hostname` has the syntax of a host.
#[verifier::external_body]
fn host_syntax_ok(hostname: &str) -> (ok: bool)
    ensures
        ok == host_parses(hostname@),
{
    url::Host::parse(hostname).is_ok()
}

/// Whether `hostname` can name a site: it is not empty, does not begin with
/// a dot, and has the syntax of a host.
pub open spec fn valid_hostname(hostname: Seq<char>) -> bool {
    &&& hostname.len() > 0
    &&& !begins_with(hostname, '.')
    &&& host_parses(hostname)
}

/// Whether `hostname` is free of what no site's name may have, whatever its
/// syntax as a host: it is not empty and does not begin with a dot.
pub fn plain_hostname(hostname: &str) -> (plain: bool)
    ensures
        plain == (hostname@.len() > 0 && !begins_with(hostname@, '.')),
{
    hostname.unicode_len() > 0 && !starts_with_char(hostname, '.')
}

/// Whether `hostname` can name a site.
pub fn is_valid_hostname(hostname: &str) -> (valid: bool)
    ensures
        valid == valid_hostname(hostname@),
{
    plain_hostname(hostname) && host_syntax_ok(hostname)
}

/// The directory that one hostname is served from, with its settings.
#[derive(Debug, PartialEq, Eq)]
pub struct Site {
    root: AbsPath,
    config: SiteConfig,
    config_path: Option<AbsPath>,
}

/// A [`Site`] in contracts.
pub struct SiteView {
    /// The directory of the site.
    pub root: Seq<Seq<char>>,
    /// The settings of the site.
    pub config: SiteConfigView,
    /// The file that the settings were read from, which is never served.
    pub config_path: Option<Seq<Seq<char>>>,
}

impl SiteView {
    /// The hostname of the site: the last name of its root, and the empty
    /// text for a site at the top of the disk.
    pub open spec fn hostname(self) -> Seq<char> {
        if self.root.len() > 0 {
            self.root.last()
        } else {
            Seq::empty()
        }
    }

    /// The name of the index file, where requests for a directory are
    /// answered with one.
    pub open spec fn index_file(self) -> Option<Seq<char>> {
        if self.config.dir_index {
            Some(self.config.dir_index_name)
        } else {
            None
        }
    }
}

/// An optional path in contracts.
pub open spec fn maybe_path_view(path: Option<AbsPath>) -> Option<Seq<Seq<char>>> {
    match path {
        Some(path) => Some(path@),
        None => None,
    }
}

impl View for Site {
    type V = SiteView;

    closed spec fn view(&self) -> SiteView {
        SiteView {
            root: self.root@,
            config: self.config@,
            config_path: maybe_path_view(self.config_path),
        }
    }
}

impl Clone for Site {
    fn clone(&self) -> (copy: Self)
        ensures
            copy@ == self@,
    {
        let config_path = match &self.config_path {
            Some(path) => Some(path.clone()),
            None => None,
        };
        Site { root: self.root.clone(), config: self.config.clone(), config_path }
    }
}

/// A site, or why there is none, in contracts.
pub open spec fn built_view(built: Result<Site, ConfigError>) -> Result<SiteView, ConfigError> {
    match built {
        Ok(site) => Ok(site@),
        Err(error) => Err(error),
    }
}

/// Where the making of a site stands.
#[derive(Debug, PartialEq, Eq)]
pub enum SiteState {
    /// The settings file of the site at `root` is being looked up.
    ConfigPath { root: AbsPath },
    /// The settings file was found at `config_path` and is being read.
    ConfigText { root: AbsPath, config_path: AbsPath },
}

/// A [`SiteState`] in contracts.
pub enum SiteStateView {
    ConfigPath { root: Seq<Seq<char>> },
    ConfigText { root: Seq<Seq<char>>, config_path: Seq<Seq<char>> },
}

impl View for SiteState {
    type V = SiteStateView;

    open spec fn view(&self) -> SiteStateView {
        match self {
            SiteState::ConfigPath { root } => SiteStateView::ConfigPath { root: root@ },
            SiteState::ConfigText { root, config_path } => SiteStateView::ConfigText {
                root: root@,
                config_path: config_path@,
            },
        }
    }
}

/// A step of the making of a site.
pub type SiteStep = Step<SiteState, Result<Site, ConfigError>>;

/// A [`SiteStep`] in contracts.
pub type SiteStepView = StepView<SiteStateView, Result<SiteView, ConfigError>>;

/// A step of the making of a site in contracts.
pub open spec fn site_step_view(step: SiteStep) -> SiteStepView {
    match step {
        Step::Ask(state, request) => StepView::Ask(state@, request@),
        Step::Done(built) => StepView::Done(built_view(built)),
    }
}

/// The first step of the making of the site at `root`: its settings file is
/// looked up below the root.
pub open spec fn site_start(root: Seq<Seq<char>>) -> SiteStepView {
    StepView::Ask(
        SiteStateView::ConfigPath { root },
        RequestView::Resolve { base: root, relative: CONFIG_FILENAME@ },
    )
}

/// The step that follows `state` when the disk answers `reply`.
///
/// A settings file that was not found, or that lies outside the root, leaves
/// the site with the default settings. One that was found is read; from then
/// on the site has the settings of the file, or none at all.
pub open spec fn site_next(state: SiteStateView, reply: ReplyView) -> SiteStepView {
    match state {
        SiteStateView::ConfigPath { root } => match guarded(root, reply.resolved()) {
            Err(_) => StepView::Done(
                Ok(SiteView { root, config: default_config(), config_path: None }),
            ),
            Ok(entry) => StepView::Ask(
                SiteStateView::ConfigText { root, config_path: entry.path },
                RequestView::Read { path: entry.path },
            ),
        },
        SiteStateView::ConfigText { root, config_path } => match reply.text() {
            None => StepView::Done(Err(ConfigError::Unreadable)),
            Some(text) => match config_of_text(text) {
                Err(error) => StepView::Done(Err(error)),
                Ok(config) => StepView::Done(
                    Ok(SiteView { root, config, config_path: Some(config_path) }),
                ),
            },
        },
    }
}

/// The site at `root` on `disk`.
///
/// Its settings file is the entry `CONFIG_FILENAME` below the root, where
/// that exists and lies inside the root. With such a file the site has the
/// settings that the file's text gives, and no site is made where the file
/// cannot be read or its text is refused. Without one the site has the
/// default settings.
pub open spec fn site_on(disk: Disk, root: Seq<Seq<char>>) -> Result<SiteView, ConfigError> {
    match resolve_within(disk, root, CONFIG_FILENAME@) {
        Err(_) => Ok(SiteView { root, config: default_config(), config_path: None }),
        Ok(entry) => match read_on(disk, entry.path) {
            None => Err(ConfigError::Unreadable),
            Some(text) => match config_of_text(text) {
                Err(error) => Err(error),
                Ok(config) => Ok(SiteView { root, config, config_path: Some(entry.path) }),
            },
        },
    }
}

/// The making of a site ends after two requests at most, with the site that
/// `site_on` describes.
pub proof fn lemma_site_run(disk: Disk, root: Seq<Seq<char>>)
    ensures
        run(disk, |state, reply| site_next(state, reply), site_start(root), 2) == Some(
            site_on(disk, root),
        ),
{
    reveal_with_fuel(run, 3);
}

/// Where the search for the file of a request stands.
#[derive(Debug, PartialEq, Eq)]
pub enum FileState {
    /// What the request names is being looked up below the site's root.
    Target,
    /// The request named the directory `dir`, whose index file is being
    /// looked up below it.
    Index { dir: AbsPath },
}

/// A [`FileState`] in contracts.
pub enum FileStateView {
    Target,
    Index { dir: Seq<Seq<char>> },
}

impl View for FileState {
    type V = FileStateView;

    open spec fn view(&self) -> FileStateView {
        match self {
            FileState::Target => FileStateView::Target,
            FileState::Index { dir } => FileStateView::Index { dir: dir@ },
        }
    }
}

/// A step of the search for a file.
pub type FileStep = Step<FileState, Result<AbsPath, ErrorKind>>;

/// A [`FileStep`] in contracts.
pub type FileStepView = StepView<FileStateView, Result<Seq<Seq<char>>, ErrorKind>>;

/// A step of the search for a file in contracts.
pub open spec fn file_step_view(step: FileStep) -> FileStepView {
    match step {
        Step::Ask(state, request) => StepView::Ask(state@, request@),
        Step::Done(file) => StepView::Done(path_view(file)),
    }
}

/// What is looked up for the request path `path`: a path that is empty or
/// ends with a separator names a directory, and where the site answers
/// directories with their index file, the name of that file is added to it.
pub open spec fn request_target(config: SiteConfigView, path: Seq<char>) -> Seq<char> {
    if config.dir_index && (path.len() == 0 || ends_with(path, '/')) {
        path + config.dir_index_name
    } else {
        path
    }
}

/// What a request gets that has led to the file at `path`: the path, unless
/// it is the site's own settings file, which counts as not found.
pub open spec fn masked(site: SiteView, path: Seq<Seq<char>>) -> Result<Seq<Seq<char>>, ErrorKind> {
    if site.config_path == Some(path) {
        Err(ErrorKind::NotFound)
    } else {
        Ok(path)
    }
}

/// The first step of the search for the file of the request path `path`.
pub open spec fn file_start(site: SiteView, path: Seq<char>) -> FileStepView {
    StepView::Ask(
        FileStateView::Target,
        RequestView::Resolve { base: site.root, relative: request_target(site.config, path) },
    )
}

/// The step that follows `state` when the disk answers `reply`.
///
/// What was looked up has to lie inside the site's root, and the index file
/// of a directory inside that directory. A directory is answered with its
/// index file where the site has one, and is `InvalidInput` where it has
/// none. An index file that is itself a directory is `NotFound`. A file is
/// answered with its path, the site's settings file excepted.
pub open spec fn file_next(site: SiteView, state: FileStateView, reply: ReplyView) -> FileStepView {
    match state {
        FileStateView::Target => match guarded(site.root, reply.resolved()) {
            Err(kind) => StepView::Done(Err(kind)),
            Ok(entry) => match site.index_file() {
                None => match file_only(Ok(entry)) {
                    Err(kind) => StepView::Done(Err(kind)),
                    Ok(path) => StepView::Done(masked(site, path)),
                },
                Some(name) => match index_step(entry, name) {
                    StepView::Ask(dir, request) => StepView::Ask(
                        FileStateView::Index { dir },
                        request,
                    ),
                    StepView::Done(path) => StepView::Done(masked(site, path)),
                },
            },
        },
        FileStateView::Index { dir } => match guarded(dir, reply.resolved()) {
            Err(kind) => StepView::Done(Err(kind)),
            Ok(entry) => if entry.is_dir {
                StepView::Done(Err(ErrorKind::NotFound))
            } else {
                StepView::Done(masked(site, entry.path))
            },
        },
    }
}

/// The file that `site` serves for the request path `path` on `disk`.
///
/// The target of the request is looked up below the site's root and has to
/// lie inside it. Where a directory is there, the site's index file is looked
/// up below the directory and has to lie inside it; without an index file
/// the request is `InvalidInput`, and with an index file that is a directory
/// it is `NotFound`. The file that is reached is served, unless it is the
/// site's settings file, which is `NotFound`.
pub open spec fn file_on(disk: Disk, site: SiteView, path: Seq<char>) -> Result<
    Seq<Seq<char>>,
    ErrorKind,
> {
    match resolve_within(disk, site.root, request_target(site.config, path)) {
        Err(kind) => Err(kind),
        Ok(entry) => if !entry.is_dir {
            masked(site, entry.path)
        } else if !site.config.dir_index {
            Err(ErrorKind::InvalidInput)
        } else {
            match resolve_within(disk, entry.path, site.config.dir_index_name) {
                Err(kind) => Err(kind),
                Ok(index) => if index.is_dir {
                    Err(ErrorKind::NotFound)
                } else {
                    masked(site, index.path)
                },
            }
        },
    }
}

/// The search for a file ends after two requests at most, with the result
/// that `file_on` describes.
pub proof fn lemma_file_run(disk: Disk, site: SiteView, path: Seq<char>)
    ensures
        run(disk, |state, reply| file_next(site, state, reply), file_start(site, path), 2)
            == Some(file_on(disk, site, path)),
{
    reveal_with_fuel(run, 3);
}

/// A request whose target lies outside the site, wherever that is, is
/// `InvalidInput`, and one whose target does not exist is `NotFound`.
pub proof fn lemma_request_outside_or_missing(disk: Disk, site: SiteView, path: Seq<char>)
    ensures
        resolve_on(disk, site.root, request_target(site.config, path)) matches Ok(entry)
            && !within(entry.path, site.root) ==> file_on(disk, site, path) == Err::<
            Seq<Seq<char>>,
            ErrorKind,
        >(ErrorKind::InvalidInput),
        resolve_on(disk, site.root, request_target(site.config, path)) == Err::<
            EntryView,
            ErrorKind,
        >(ErrorKind::NotFound) ==> file_on(disk, site, path) == Err::<Seq<Seq<char>>, ErrorKind>(
            ErrorKind::NotFound,
        ),
{
}

/// A request for a directory, one whose path is empty or ends with a
/// separator, is answered with the index file of that directory where the
/// site answers directories so and the index file is a file of the site. So
/// a request for the empty path is answered with the index file in the
/// site's root.
pub proof fn lemma_directory_request_serves_index(disk: Disk, site: SiteView, path: Seq<char>)
    requires
        site.config.dir_index,
        path.len() == 0 || ends_with(path, '/'),
        resolve_within(disk, site.root, path + site.config.dir_index_name) matches Ok(entry)
            && !entry.is_dir && site.config_path != Some(entry.path),
    ensures
        resolve_within(disk, site.root, path + site.config.dir_index_name) matches Ok(entry)
            && file_on(disk, site, path) == Ok::<Seq<Seq<char>>, ErrorKind>(entry.path),
{
}

/// A request that leads to a directory of the site is `InvalidInput` where
/// the site does not answer directories with an index file.
pub proof fn lemma_bare_directory_is_invalid_input(disk: Disk, site: SiteView, path: Seq<char>)
    requires
        !site.config.dir_index,
        resolve_within(disk, site.root, path) matches Ok(entry) && entry.is_dir,
    ensures
        file_on(disk, site, path) == Err::<Seq<Seq<char>>, ErrorKind>(ErrorKind::InvalidInput),
{
}

/// A site never serves the file that its settings were read from: the
/// request for it by name is `NotFound`, whatever else is on the disk.
pub proof fn lemma_config_file_is_not_found(disk: Disk, root: Seq<Seq<char>>)
    requires
        site_on(disk, root) matches Ok(site) && site.config_path is Some,
        resolve_within(disk, root, CONFIG_FILENAME@) matches Ok(entry) && !entry.is_dir,
    ensures
        site_on(disk, root) matches Ok(site) && file_on(disk, site, CONFIG_FILENAME@) == Err::<
            Seq<Seq<char>>,
            ErrorKind,
        >(ErrorKind::NotFound),
{
    reveal_strlit("pages.toml");
    let site = site_on(disk, root)->Ok_0;
    assert(CONFIG_FILENAME@.len() == 10);
    assert(CONFIG_FILENAME@[9] == 'l');
    assert(request_target(site.config, CONFIG_FILENAME@) == CONFIG_FILENAME@);
}

/// Whatever is on the disk and whatever the request, the file that a site
/// serves lies inside the site's root and is not the site's settings file.
pub proof fn lemma_served_file_inside_root(disk: Disk, site: SiteView, path: Seq<char>)
    ensures
        file_on(disk, site, path) matches Ok(file) ==> within(file, site.root)
            && site.config_path != Some(file),
{
    match resolve_within(disk, site.root, request_target(site.config, path)) {
        Err(_) => {},
        Ok(entry) => {
            if entry.is_dir && site.config.dir_index {
                match resolve_within(disk, entry.path, site.config.dir_index_name) {
                    Err(_) => {},
                    Ok(index) => {
                        lemma_within_transitive(index.path, entry.path, site.root);
                    },
                }
            }
        },
    }
}

impl Site {
    /// Begins the making of the site at `root`.
    pub fn new(root: AbsPath) -> (step: SiteStep)
        ensures
            site_step_view(step) == site_start(root@),
    {
        let (state, request) = Site::begin(root);
        Step::Ask(state, request)
    }

    /// The state and the request that the making of the site at `root`
    /// begins with.
    pub(crate) fn begin(root: AbsPath) -> (first: (SiteState, Request))
        ensures
            StepView::<SiteStateView, Result<SiteView, ConfigError>>::Ask(first.0@, first.1@)
                == site_start(root@),
    {
        let base = root.clone();
        (
            SiteState::ConfigPath { root },
            Request::Resolve { base, relative: String::from_str(CONFIG_FILENAME) },
        )
    }

    /// Goes on with the making of a site from `state`, with the disk's
    /// answer to the request of the step before.
    pub fn resume_new(state: SiteState, reply: Reply) -> (step: SiteStep)
        ensures
            site_step_view(step) == site_next(state@, reply@),
    {
        match state {
            SiteState::ConfigPath { root } => match safe_join(&root, reply.resolved()) {
                Err(_) => Step::Done(
                    Ok(Site { root, config: SiteConfig::default(), config_path: None }),
                ),
                Ok(entry) => {
                    let path = entry.path.clone();
                    Step::Ask(
                        SiteState::ConfigText { root, config_path: entry.path },
                        Request::Read { path },
                    )
                },
            },
            SiteState::ConfigText { root, config_path } => match reply.text() {
                None => Step::Done(Err(ConfigError::Unreadable)),
                Some(text) => match SiteConfig::new(text.as_str()) {
                    Err(error) => Step::Done(Err(error)),
                    Ok(config) => Step::Done(
                        Ok(Site { root, config, config_path: Some(config_path) }),
                    ),
                },
            },
        }
    }

    /// What is looked up for the request path `path`.
    pub fn request_target(&self, path: &str) -> (target: String)
        ensures
            target@ == request_target(self@.config, path@),
    {
        if self.config.dir_index && (path.unicode_len() == 0 || ends_with_char(path, '/')) {
            join_text(path, self.config.dir_index_name.as_str())
        } else {
            String::from_str(path)
        }
    }

    /// Lets through a path that a request has led to, unless it is the
    /// site's own settings file.
    pub fn mask_config(&self, path: AbsPath) -> (file: Result<AbsPath, ErrorKind>)
        ensures
            path_view(file) == masked(self@, path@),
    {
        let hidden = match &self.config_path {
            Some(config_path) => path.same_as(config_path),
            None => false,
        };
        if hidden {
            Err(ErrorKind::NotFound)
        } else {
            Ok(path)
        }
    }

    /// Begins the search for the file of the request path `path`.
    pub fn get_file_for_path(&self, path: &str) -> (step: FileStep)
        ensures
            file_step_view(step) == file_start(self@, path@),
    {
        Step::Ask(
            FileState::Target,
            Request::Resolve { base: self.root.clone(), relative: self.request_target(path) },
        )
    }

    /// Goes on with the search for a file from `state`, with the disk's
    /// answer to the request of the step before.
    pub fn resume_file_for_path(&self, state: FileState, reply: Reply) -> (step: FileStep)
        ensures
            file_step_view(step) == file_next(self@, state@, reply@),
    {
        match state {
            FileState::Target => match safe_join(&self.root, reply.resolved()) {
                Err(kind) => Step::Done(Err(kind)),
                Ok(entry) => match self.get_index_file() {
                    None => match ensure_file(Ok(entry)) {
                        Err(kind) => Step::Done(Err(kind)),
                        Ok(path) => Step::Done(self.mask_config(path)),
                    },
                    Some(name) => match handle_index(entry, name.as_str()) {
                        Step::Ask(dir, request) => Step::Ask(FileState::Index { dir }, request),
                        Step::Done(path) => Step::Done(self.mask_config(path)),
                    },
                },
            },
            FileState::Index { dir } => match safe_join(&dir, reply.resolved()) {
                Err(kind) => Step::Done(Err(kind)),
                Ok(entry) => {
                    if entry.is_dir {
                        Step::Done(Err(ErrorKind::NotFound))
                    } else {
                        Step::Done(self.mask_config(entry.path))
                    }
                },
            },
        }
    }

    /// The name of the index file, where requests for a directory are
    /// answered with one.
    pub fn get_index_file(&self) -> (name: Option<String>)
        ensures
            optional_text(name) == self@.index_file(),
    {
        if self.config.dir_index {
            Some(self.config.dir_index_name.clone())
        } else {
            None
        }
    }

    /// The hostname of the site: the last name of its root.
    pub fn get_hostname(&self) -> (hostname: String)
        ensures
            hostname@ == self@.hostname(),
    {
        match self.root.file_name() {
            Some(name) => name,
            None => String::new(),
        }
    }

    /// The settings of the site.
    pub fn config(&self) -> (config: &SiteConfig)
        ensures
            config@ == self@.config,
    {
        &self.config
    }

    /// The directory of the site.
    pub fn root(&self) -> (root: &AbsPath)
        ensures
            root@ == self@.root,
    {
        &self.root
    }

    /// The file that the settings were read from, if there is one.
    pub fn config_path(&self) -> (path: &Option<AbsPath>)
        ensures
            maybe_path_view(*path) == self@.config_path,
    {
        &self.config_path
    }
}

} // verus!
