use traefik_pages::disk::{is_dir, Child, Entry, ErrorKind, Reply, Request, Step};
use traefik_pages::files::{ensure_file, handle_index, safe_join};
use traefik_pages::path::AbsPath;
use traefik_pages::registry::{get_sites, DiscoverError};
use traefik_pages::routes::sites_list;
use traefik_pages::serve::{denied, get_hostname, resume_serve_file, serve_file, Refusal, Served};
use traefik_pages::settings::{Settings, RETRY_COUNT};
use traefik_pages::site::{is_valid_hostname, plain_hostname, FileState, Site, SiteState};
use traefik_pages::site_config::{
    count_nesting_marks, ConfigError, Field, SiteConfig, CONFIG_FILENAME, MAX_NESTING,
};
use traefik_pages::traefik::traefik_provider;

/// A disk held in memory: directories, files with their text, and links.
struct FakeDisk {
    dirs: Vec<Vec<String>>,
    files: Vec<(Vec<String>, Option<String>)>,
    links: Vec<(Vec<String>, Vec<String>)>,
    unlistable: Vec<Vec<String>>,
}

fn names(path: &str) -> Vec<String> {
    path.split('/').filter(|s| !s.is_empty()).map(|s| s.to_string()).collect()
}

fn path(text: &str) -> AbsPath {
    AbsPath::new(names(text)).expect("a path in normal form")
}

impl FakeDisk {
    fn new() -> FakeDisk {
        FakeDisk {
            dirs: vec![Vec::new()],
            files: Vec::new(),
            links: Vec::new(),
            unlistable: Vec::new(),
        }
    }

    fn dir(mut self, at: &str) -> FakeDisk {
        let segments = names(at);
        for end in 1..=segments.len() {
            let prefix = segments[..end].to_vec();
            if !self.dirs.contains(&prefix) {
                self.dirs.push(prefix);
            }
        }
        self
    }

    fn file(mut self, at: &str, text: &str) -> FakeDisk {
        let segments = names(at);
        let parent = segments[..segments.len() - 1].join("/");
        self = self.dir(&parent);
        self.files.push((segments, Some(text.to_string())));
        self
    }

    fn binary(mut self, at: &str) -> FakeDisk {
        self.files.push((names(at), None));
        self
    }

    fn link(mut self, at: &str, to: &str) -> FakeDisk {
        self.links.push((names(at), names(to)));
        self
    }

    fn is_file(&self, at: &[String]) -> bool {
        self.files.iter().any(|(p, _)| p.as_slice() == at)
    }

    fn is_directory(&self, at: &[String]) -> bool {
        self.dirs.iter().any(|p| p.as_slice() == at)
    }

    fn canonicalize(&self, base: &[String], relative: &str) -> Result<Vec<String>, ErrorKind> {
        let mut at: Vec<String> = if relative.starts_with('/') {
            Vec::new()
        } else {
            base.to_vec()
        };
        for segment in relative.split('/') {
            if self.is_file(&at) {
                return Err(ErrorKind::Other);
            }
            if !self.is_directory(&at) {
                return Err(ErrorKind::NotFound);
            }
            match segment {
                "" | "." => {}
                ".." => {
                    at.pop();
                }
                name => {
                    at.push(name.to_string());
                    if let Some((_, target)) = self.links.iter().find(|(p, _)| p == &at) {
                        at = target.clone();
                    }
                    if !self.is_file(&at) && !self.is_directory(&at) {
                        return Err(ErrorKind::NotFound);
                    }
                }
            }
        }
        Ok(at)
    }

    fn answer(&self, request: Request) -> Reply {
        match request {
            Request::Resolve { base, relative } => {
                Reply::Resolved(self.canonicalize(base.segments(), &relative).map(|found| {
                    let dir = is_dir(Ok(self.is_directory(&found)));
                    Entry { path: AbsPath::new(found).expect("a path in normal form"), is_dir: dir }
                }))
            }
            Request::Read { path } => Reply::Text(
                self.files
                    .iter()
                    .find(|(p, _)| p == path.segments())
                    .and_then(|(_, text)| text.clone()),
            ),
            Request::List { dir } => {
                let at = dir.segments();
                if self.unlistable.contains(at) {
                    return Reply::Listed(Err(ErrorKind::Other));
                }
                if !self.is_directory(at) {
                    return Reply::Listed(Err(ErrorKind::NotFound));
                }
                let mut children = Vec::new();
                for d in &self.dirs {
                    if d.len() == at.len() + 1 && d.starts_with(at) {
                        children.push(Child { name: d[at.len()].clone(), is_dir: true });
                    }
                }
                for (f, _) in &self.files {
                    if f.len() == at.len() + 1 && f.starts_with(at) {
                        children.push(Child { name: f[at.len()].clone(), is_dir: false });
                    }
                }
                Reply::Listed(Ok(children))
            }
        }
    }

    fn read(&self, at: &AbsPath) -> String {
        match self.answer(Request::Read { path: at.clone() }) {
            Reply::Text(Some(text)) => text,
            _ => panic!("no text at {:?}", at),
        }
    }
}

/// Runs an operation to its end, with `disk` answering; counts the requests.
fn run<S, T>(
    disk: &FakeDisk,
    first: Step<S, T>,
    resume: impl Fn(S, Reply) -> Step<S, T>,
) -> (T, usize) {
    let mut step = first;
    let mut asked = 0;
    loop {
        match step {
            Step::Done(outcome) => return (outcome, asked),
            Step::Ask(state, request) => {
                asked += 1;
                step = resume(state, disk.answer(request));
            }
        }
    }
}

fn example_dir() -> AbsPath {
    path("/srv/example/sites")
}

fn example_disk() -> FakeDisk {
    FakeDisk::new()
        .file("/srv/Cargo.toml", "[package]\n")
        .file("/srv/example/sites/localhost/index.html", "localhost index\n")
        .file("/srv/example/sites/localhost/pages.toml", "")
        .file("/srv/example/sites/localhost/sub/index.html", "localhost subdir\n")
        .file("/srv/example/sites/localhost/sub-no-index/other.html", "other\n")
        .file("/srv/example/sites/localhost/sub-nested/index.html/deep.html", "deep\n")
        .file("/srv/example/sites/site1.localhost/index.html", "Site 1\n")
        .file("/srv/example/sites/no-index.localhost/pages.toml", "dir_index = false\n")
        .file("/srv/example/sites/no-index.localhost/index.html", "No index\n")
        .file("/srv/example/sites/no-index.localhost/sub/index.html", "No index sub\n")
        .file("/srv/example/sites/.hidden/index.html", "hidden\n")
        .file("/srv/example/sites/not a host/index.html", "spaced\n")
        .file("/srv/example/sites/README.md", "sites\n")
        .link("/srv/example/sites/localhost/outside.html", "/srv/Cargo.toml")
        .link(
            "/srv/example/sites/localhost/inside.html",
            "/srv/example/sites/localhost/sub/index.html",
        )
        .link("/srv/example/sites/away.localhost", "/srv")
}

fn resolve(disk: &FakeDisk, base: &AbsPath, relative: &str) -> Result<Entry, ErrorKind> {
    let found = disk
        .answer(Request::Resolve { base: base.clone(), relative: relative.to_string() })
        .resolved();
    safe_join(base, found)
}

fn site(disk: &FakeDisk, root: AbsPath) -> Site {
    let (built, _) = run(disk, Site::new(root), Site::resume_new);
    built.expect("a site")
}

fn file_for_path(disk: &FakeDisk, site: &Site, request: &str) -> Result<AbsPath, ErrorKind> {
    run(disk, site.get_file_for_path(request), |state, reply| {
        site.resume_file_for_path(state, reply)
    })
    .0
}

fn discover(disk: &FakeDisk, sites_root: &AbsPath) -> Result<Vec<Site>, DiscoverError> {
    run(disk, Site::discover_all(sites_root), Site::resume_discover_all).0
}

#[test]
fn test_is_dir() {
    assert!(is_dir(Ok(true)));
    assert!(!is_dir(Ok(false)));
    assert!(!is_dir(Err(ErrorKind::NotFound)));
    assert!(!is_dir(Err(ErrorKind::Other)));
}

#[test]
fn test_safe_join_success() {
    let disk = example_disk();
    assert_eq!(
        resolve(&disk, &example_dir(), "localhost").unwrap().path,
        example_dir().child("localhost").unwrap()
    );
}

#[test]
fn test_safe_join_fail() {
    let disk = example_disk();
    let join_err = resolve(&disk, &example_dir(), "localhost2");
    assert!(join_err.is_err());
    assert_eq!(join_err.unwrap_err(), ErrorKind::NotFound);
}

#[test]
fn test_resolve_fail_traversal() {
    let disk = example_disk();
    let resolve_err = resolve(&disk, &example_dir(), "../../Cargo.toml").unwrap_err();
    assert_eq!(resolve_err, ErrorKind::InvalidInput);
}

#[test]
fn test_safe_join_on_given_results() {
    let base = path("/srv/sites/localhost");
    let inside = Entry { path: path("/srv/sites/localhost/a/b.html"), is_dir: false };
    assert_eq!(safe_join(&base, Ok(inside.clone())), Ok(inside));
    let itself = Entry { path: path("/srv/sites/localhost"), is_dir: true };
    assert_eq!(safe_join(&base, Ok(itself.clone())), Ok(itself));
    let sibling = Entry { path: path("/srv/sites/localhost2/b.html"), is_dir: false };
    assert_eq!(safe_join(&base, Ok(sibling)), Err(ErrorKind::InvalidInput));
    let parent = Entry { path: path("/srv/sites"), is_dir: true };
    assert_eq!(safe_join(&base, Ok(parent)), Err(ErrorKind::InvalidInput));
    assert_eq!(safe_join(&base, Err(ErrorKind::NotFound)), Err(ErrorKind::NotFound));
    assert_eq!(safe_join(&base, Err(ErrorKind::Other)), Err(ErrorKind::Other));
}

#[test]
fn test_safe_join_refuses_link_out_of_root() {
    let disk = example_disk();
    let root = path("/srv/example/sites/localhost");
    assert_eq!(resolve(&disk, &root, "outside.html"), Err(ErrorKind::InvalidInput));
    assert_eq!(
        resolve(&disk, &root, "inside.html").unwrap().path,
        path("/srv/example/sites/localhost/sub/index.html")
    );
    assert_eq!(resolve(&disk, &root, "/srv/Cargo.toml"), Err(ErrorKind::InvalidInput));
    assert_eq!(
        resolve(&disk, &root, "sub/../../site1.localhost/index.html"),
        Err(ErrorKind::InvalidInput)
    );
    assert_eq!(
        resolve(&disk, &root, "sub/../index.html").unwrap().path,
        path("/srv/example/sites/localhost/index.html")
    );
}

#[test]
fn test_ensure_file() {
    let file = Entry { path: path("/srv/a.html"), is_dir: false };
    let dir = Entry { path: path("/srv/a"), is_dir: true };
    assert_eq!(ensure_file(Ok(file)), Ok(path("/srv/a.html")));
    assert_eq!(ensure_file(Ok(dir)), Err(ErrorKind::InvalidInput));
    assert_eq!(ensure_file(Err(ErrorKind::NotFound)), Err(ErrorKind::NotFound));
}

fn index_of(disk: &FakeDisk, at: &str, index_file_name: &str) -> Result<AbsPath, ErrorKind> {
    let at = path(at);
    let entry = Entry { is_dir: disk.is_directory(at.segments()), path: at };
    match handle_index(entry, index_file_name) {
        Step::Done(file) => Ok(file),
        Step::Ask(dir, request) => safe_join(&dir, disk.answer(request).resolved()).map(|e| e.path),
    }
}

#[test]
fn test_handle_index() {
    let disk = example_disk();
    assert_eq!(
        index_of(&disk, "/srv/example/sites/localhost/sub", "index.html").unwrap(),
        path("/srv/example/sites/localhost/sub/index.html")
    );
    assert_eq!(
        index_of(&disk, "/srv/example/sites/localhost/index.html", "index.html").unwrap(),
        path("/srv/example/sites/localhost/index.html")
    );
    assert!(index_of(&disk, "/srv/example/sites/localhost/sub", "index.php").is_err());
}

#[test]
fn test_handle_index_asks_below_the_directory() {
    let dir = Entry { path: path("/srv/sites/localhost/sub"), is_dir: true };
    assert_eq!(
        handle_index(dir, "index.html"),
        Step::Ask(
            path("/srv/sites/localhost/sub"),
            Request::Resolve {
                base: path("/srv/sites/localhost/sub"),
                relative: "index.html".to_string()
            }
        )
    );
}

#[test]
fn test_is_valid_hostname() {
    assert!(is_valid_hostname("example.com"));
    assert!(is_valid_hostname("subdomain.example.com"));
    assert!(is_valid_hostname("example"));

    assert!(!is_valid_hostname(".example.com"));
    assert!(!is_valid_hostname("../site"));
}

#[test]
fn test_is_valid_hostname_edges() {
    assert!(!is_valid_hostname(""));
    assert!(!is_valid_hostname("."));
    assert!(!is_valid_hostname("not a host"));
    assert!(!is_valid_hostname("a/b"));
    assert!(is_valid_hostname("no-index.localhost"));
    assert!(is_valid_hostname("127.0.0.1"));
    assert!(plain_hostname("not a host"));
    assert!(!plain_hostname(""));
    assert!(!plain_hostname(".localhost"));
}

#[test]
fn test_defaults() {
    let site_config = SiteConfig::default();

    assert!(site_config.dir_index);
    assert_eq!(&site_config.dir_index_name, "index.html");
}

#[test]
fn test_parse() {
    let disk = example_disk();
    let text = disk.read(&path("/srv/example/sites/localhost").child(CONFIG_FILENAME).unwrap());
    SiteConfig::new(&text).unwrap();
}

#[test]
fn test_site_config_new() {
    assert_eq!(SiteConfig::new(""), Ok(SiteConfig::default()));
    assert_eq!(
        SiteConfig::new("dir_index = false\n"),
        Ok(SiteConfig { dir_index: false, dir_index_name: "index.html".to_string() })
    );
    assert_eq!(
        SiteConfig::new("dir_index_name = \"home.htm\"\n"),
        Ok(SiteConfig { dir_index: true, dir_index_name: "home.htm".to_string() })
    );
    assert_eq!(
        SiteConfig::new(
            "dir_index_name = 'start.html'\ndir_index = false\nother = 3\n[table]\nx = 1\n"
        ),
        Ok(SiteConfig { dir_index: false, dir_index_name: "start.html".to_string() })
    );
    assert_eq!(SiteConfig::new("dir_index = "), Err(ConfigError::Malformed));
    assert_eq!(
        SiteConfig::new("dir_index = true\ndir_index = false\n"),
        Err(ConfigError::Malformed)
    );
    assert_eq!(SiteConfig::new("dir_index = \"yes\"\n"), Err(ConfigError::DirIndex));
    assert_eq!(SiteConfig::new("dir_index = 1\n"), Err(ConfigError::DirIndex));
    assert_eq!(SiteConfig::new("dir_index_name = true\n"), Err(ConfigError::DirIndexName));
    assert_eq!(SiteConfig::new("dir_index_name = [\"a\"]\n"), Err(ConfigError::DirIndexName));
    assert_eq!(
        SiteConfig::new("dir_index = 0\ndir_index_name = 0\n"),
        Err(ConfigError::DirIndex)
    );
}

#[test]
fn test_site_config_nesting() {
    assert_eq!(MAX_NESTING, 256);
    assert_eq!(count_nesting_marks(""), 0);
    assert_eq!(count_nesting_marks("dir_index_name = \"index.html\"\n"), 1);
    assert_eq!(count_nesting_marks("[a.b]\nx = [{ y = 1 }, []]\n"), 5);
    let nested = |depth: usize| format!("x = {}{}\n", "[".repeat(depth), "]".repeat(depth));
    assert_eq!(SiteConfig::new(&nested(256)), Ok(SiteConfig::default()));
    assert_eq!(SiteConfig::new(&nested(257)), Err(ConfigError::TooDeep));
    assert_eq!(SiteConfig::new(&nested(100_000)), Err(ConfigError::TooDeep));
    let dotted = |depth: usize| format!("{} = 1\n", vec!["a"; depth].join("."));
    assert_eq!(SiteConfig::new(&dotted(257)), Ok(SiteConfig::default()));
    assert_eq!(SiteConfig::new(&dotted(258)), Err(ConfigError::TooDeep));
    let braces = |depth: usize| format!("x = {}1{}\n", "{ a = ".repeat(depth), " }".repeat(depth));
    assert_eq!(SiteConfig::new(&braces(256)), Ok(SiteConfig::default()));
    assert_eq!(SiteConfig::new(&braces(100_000)), Err(ConfigError::TooDeep));
    assert_eq!(SiteConfig::new(&"[".repeat(300)), Err(ConfigError::TooDeep));
    assert_eq!(SiteConfig::new(&"[".repeat(200)), Err(ConfigError::Malformed));
}

#[test]
fn test_site_config_from_fields() {
    assert_eq!(SiteConfig::from_fields(None, None), Ok(SiteConfig::default()));
    assert_eq!(
        SiteConfig::from_fields(
            Some(Field::Boolean(false)),
            Some(Field::Text("i.html".to_string()))
        ),
        Ok(SiteConfig { dir_index: false, dir_index_name: "i.html".to_string() })
    );
    assert_eq!(
        SiteConfig::from_fields(Some(Field::Other), None),
        Err(ConfigError::DirIndex)
    );
    assert_eq!(
        SiteConfig::from_fields(Some(Field::Text("true".to_string())), None),
        Err(ConfigError::DirIndex)
    );
    assert_eq!(
        SiteConfig::from_fields(None, Some(Field::Boolean(true))),
        Err(ConfigError::DirIndexName)
    );
    assert_eq!(
        SiteConfig::from_fields(Some(Field::Boolean(true)), Some(Field::Other)),
        Err(ConfigError::DirIndexName)
    );
}

#[test]
fn test_from_path() {
    let disk = example_disk();
    let site = site(&disk, example_dir().child("localhost").unwrap());
    assert_eq!(site.get_hostname(), "localhost")
}

#[test]
fn sites_test_get_hostname() {
    let disk = FakeDisk::new();
    assert_eq!(site(&disk, path("/foo/example.com")).get_hostname(), "example.com");
    assert_eq!(site(&disk, path("example.com")).get_hostname(), "example.com");
    assert_eq!(site(&disk, path("/")).get_hostname(), "");
}

#[test]
fn test_site_new_asks_for_the_config_file() {
    let root = path("/srv/sites/localhost");
    assert_eq!(
        Site::new(root.clone()),
        Step::Ask(
            SiteState::ConfigPath { root: root.clone() },
            Request::Resolve { base: root, relative: "pages.toml".to_string() }
        )
    );
}

#[test]
fn test_site_new_with_and_without_config() {
    let disk = example_disk();
    let root = path("/srv/example/sites/no-index.localhost");
    let (with, asked) = run(&disk, Site::new(root), Site::resume_new);
    let with = with.unwrap();
    assert_eq!(asked, 2);
    assert!(!with.config().dir_index);
    assert_eq!(with.get_index_file(), None);
    assert_eq!(
        with.config_path(),
        &Some(path("/srv/example/sites/no-index.localhost/pages.toml"))
    );
    assert_eq!(with.root(), &path("/srv/example/sites/no-index.localhost"));

    let root = path("/srv/example/sites/site1.localhost");
    let (without, asked) = run(&disk, Site::new(root), Site::resume_new);
    let without = without.unwrap();
    assert_eq!(asked, 1);
    assert_eq!(without.config(), &SiteConfig::default());
    assert_eq!(without.get_index_file(), Some("index.html".to_string()));
    assert_eq!(without.config_path(), &None);
}

#[test]
fn test_site_new_refuses_a_bad_config() {
    let disk = FakeDisk::new()
        .file("/sites/broken/pages.toml", "dir_index = maybe\n")
        .file("/sites/typed/pages.toml", "dir_index_name = 7\n")
        .dir("/sites/binary")
        .binary("/sites/binary/pages.toml")
        .file("/sites/dir/pages.toml/inner", "")
        .file("/elsewhere.toml", "dir_index = false\n")
        .dir("/sites/linked")
        .link("/sites/linked/pages.toml", "/elsewhere.toml");
    let build = |root: &str| run(&disk, Site::new(path(root)), Site::resume_new).0;
    assert_eq!(build("/sites/broken"), Err(ConfigError::Malformed));
    assert_eq!(build("/sites/typed"), Err(ConfigError::DirIndexName));
    assert_eq!(build("/sites/binary"), Err(ConfigError::Unreadable));
    assert_eq!(build("/sites/dir"), Err(ConfigError::Unreadable));
    let linked = build("/sites/linked").unwrap();
    assert_eq!(linked.config(), &SiteConfig::default());
    assert_eq!(linked.config_path(), &None);
}

#[test]
fn test_get_file_for_path() {
    let disk = example_disk();
    let site = site(&disk, example_dir().child("localhost").unwrap());

    assert!(file_for_path(&disk, &site, "index.html").is_ok());
    assert!(file_for_path(&disk, &site, "missing.html").is_err());

    assert_eq!(
        file_for_path(&disk, &site, "index.html").unwrap(),
        path("/srv/example/sites/localhost/index.html")
    );

    assert_eq!(
        file_for_path(&disk, &site, "sub").unwrap(),
        path("/srv/example/sites/localhost/sub/index.html")
    );

    assert_eq!(
        file_for_path(&disk, &site, "").unwrap(),
        path("/srv/example/sites/localhost/index.html")
    );
    assert!(file_for_path(&disk, &site, "sub-no-index").is_err());
    assert!(file_for_path(&disk, &site, CONFIG_FILENAME).is_err());
}

#[test]
fn test_get_file_for_path_error_kinds() {
    let disk = example_disk();
    let site = site(&disk, example_dir().child("localhost").unwrap());
    assert_eq!(file_for_path(&disk, &site, "missing.html"), Err(ErrorKind::NotFound));
    assert_eq!(file_for_path(&disk, &site, "sub-no-index"), Err(ErrorKind::NotFound));
    assert_eq!(file_for_path(&disk, &site, "sub-no-index/"), Err(ErrorKind::NotFound));
    assert_eq!(file_for_path(&disk, &site, "sub-nested"), Err(ErrorKind::NotFound));
    assert_eq!(file_for_path(&disk, &site, CONFIG_FILENAME), Err(ErrorKind::NotFound));
    assert_eq!(file_for_path(&disk, &site, "sub/../pages.toml"), Err(ErrorKind::NotFound));
    assert_eq!(file_for_path(&disk, &site, "../../../Cargo.toml"), Err(ErrorKind::InvalidInput));
    assert_eq!(file_for_path(&disk, &site, "../../Cargo.toml"), Err(ErrorKind::NotFound));
    assert_eq!(
        file_for_path(&disk, &site, "../site1.localhost/index.html"),
        Err(ErrorKind::InvalidInput)
    );
    assert_eq!(file_for_path(&disk, &site, "outside.html"), Err(ErrorKind::InvalidInput));
    assert_eq!(
        file_for_path(&disk, &site, "inside.html"),
        Ok(path("/srv/example/sites/localhost/sub/index.html"))
    );
}

#[test]
fn test_directory_requests_get_the_index() {
    let disk = example_disk();
    let site = site(&disk, example_dir().child("localhost").unwrap());
    assert_eq!(site.request_target(""), "index.html");
    assert_eq!(site.request_target("sub/"), "sub/index.html");
    assert_eq!(site.request_target("sub"), "sub");
    assert_eq!(site.request_target("a/b.html"), "a/b.html");
    assert_eq!(
        file_for_path(&disk, &site, ""),
        Ok(path("/srv/example/sites/localhost/index.html"))
    );
    assert_eq!(
        file_for_path(&disk, &site, "sub/"),
        Ok(path("/srv/example/sites/localhost/sub/index.html"))
    );
    let (_, asked) = run(&disk, site.get_file_for_path("sub/"), |state, reply| {
        site.resume_file_for_path(state, reply)
    });
    assert_eq!(asked, 1);
    let (_, asked) = run(&disk, site.get_file_for_path("sub"), |state, reply| {
        site.resume_file_for_path(state, reply)
    });
    assert_eq!(asked, 2);
}

#[test]
fn test_directory_without_index_is_invalid_input() {
    let disk = example_disk();
    let site = site(&disk, example_dir().child("no-index.localhost").unwrap());
    assert_eq!(site.request_target(""), "");
    assert_eq!(site.request_target("sub/"), "sub/");
    assert_eq!(file_for_path(&disk, &site, "sub"), Err(ErrorKind::InvalidInput));
    assert_eq!(file_for_path(&disk, &site, "sub/"), Err(ErrorKind::InvalidInput));
    assert_eq!(file_for_path(&disk, &site, ""), Err(ErrorKind::InvalidInput));
    assert_eq!(
        file_for_path(&disk, &site, "sub/index.html"),
        Ok(path("/srv/example/sites/no-index.localhost/sub/index.html"))
    );
    assert_eq!(file_for_path(&disk, &site, "pages.toml"), Err(ErrorKind::NotFound));
}

#[test]
fn test_config_file_is_masked_as_index_too() {
    let disk = FakeDisk::new()
        .file("/sites/odd/pages.toml", "dir_index_name = \"pages.toml\"\n")
        .file("/sites/odd/sub/pages.toml", "not the settings\n");
    let site = site(&disk, path("/sites/odd"));
    assert_eq!(file_for_path(&disk, &site, ""), Err(ErrorKind::NotFound));
    assert_eq!(file_for_path(&disk, &site, "pages.toml"), Err(ErrorKind::NotFound));
    assert_eq!(file_for_path(&disk, &site, "sub"), Ok(path("/sites/odd/sub/pages.toml")));
}

#[test]
fn test_mask_config() {
    let disk = example_disk();
    let site = site(&disk, example_dir().child("localhost").unwrap());
    assert_eq!(
        site.mask_config(path("/srv/example/sites/localhost/pages.toml")),
        Err(ErrorKind::NotFound)
    );
    assert_eq!(
        site.mask_config(path("/srv/example/sites/localhost/sub/pages.toml")),
        Ok(path("/srv/example/sites/localhost/sub/pages.toml"))
    );
}

#[test]
fn test_resume_file_for_path_steps() {
    let disk = example_disk();
    let site = site(&disk, example_dir().child("localhost").unwrap());
    let dir = Entry { path: path("/srv/example/sites/localhost/sub"), is_dir: true };
    assert_eq!(
        site.resume_file_for_path(FileState::Target, Reply::Resolved(Ok(dir))),
        Step::Ask(
            FileState::Index { dir: path("/srv/example/sites/localhost/sub") },
            Request::Resolve {
                base: path("/srv/example/sites/localhost/sub"),
                relative: "index.html".to_string()
            }
        )
    );
    let nested = Entry { path: path("/srv/example/sites/localhost/sub/index.html"), is_dir: true };
    assert_eq!(
        site.resume_file_for_path(
            FileState::Index { dir: path("/srv/example/sites/localhost/sub") },
            Reply::Resolved(Ok(nested))
        ),
        Step::Done(Err(ErrorKind::NotFound))
    );
    let escaped = Entry { path: path("/srv/example/sites/localhost/index.html"), is_dir: false };
    assert_eq!(
        site.resume_file_for_path(
            FileState::Index { dir: path("/srv/example/sites/localhost/sub") },
            Reply::Resolved(Ok(escaped))
        ),
        Step::Done(Err(ErrorKind::InvalidInput))
    );
    assert_eq!(
        site.resume_file_for_path(FileState::Target, Reply::Text(Some("text".to_string()))),
        Step::Done(Err(ErrorKind::Other))
    );
}

#[test]
fn test_get_sites() {
    let disk = FakeDisk::new()
        .file("/example/localhost/index.html", "x")
        .file("/example/notes.txt", "n");
    let children = disk.answer(Request::List { dir: path("/example") }).listed().unwrap();
    let sites = get_sites(&path("/example"), &children);
    assert_eq!(sites.len(), 1);
    assert_eq!(
        sites.iter().map(|root| root.file_name().unwrap()).collect::<Vec<String>>(),
        vec!["localhost"]
    );
}

#[test]
fn test_get_sites_keeps_order_and_skips_odd_names() {
    let children = vec![
        Child { name: "b".to_string(), is_dir: true },
        Child { name: "file".to_string(), is_dir: false },
        Child { name: "..".to_string(), is_dir: true },
        Child { name: "a".to_string(), is_dir: true },
        Child { name: "".to_string(), is_dir: true },
        Child { name: ".git".to_string(), is_dir: true },
    ];
    assert_eq!(
        get_sites(&path("/sites"), &children),
        vec![path("/sites/b"), path("/sites/a"), path("/sites/.git")]
    );
    assert_eq!(get_sites(&path("/sites"), &Vec::new()), Vec::<AbsPath>::new());
}

#[test]
fn test_discover_all() {
    let disk = example_disk();
    let sites = discover(&disk, &example_dir()).unwrap();
    assert_eq!(sites.len(), 3);
    let site_hostnames = sites.iter().map(Site::get_hostname).collect::<Vec<String>>();
    assert!(site_hostnames.contains(&String::from("localhost")));
    assert!(site_hostnames.contains(&String::from("site1.localhost")));
    assert!(site_hostnames.contains(&String::from("no-index.localhost")));
}

#[test]
fn test_discover_all_skips_invalid_hostnames() {
    let disk = example_disk();
    let listed = disk.answer(Request::List { dir: example_dir() }).listed().unwrap();
    assert!(listed.contains(&Child { name: ".hidden".to_string(), is_dir: true }));
    assert!(listed.contains(&Child { name: "not a host".to_string(), is_dir: true }));
    let sites = discover(&disk, &example_dir()).unwrap();
    for site in &sites {
        let hostname = site.get_hostname();
        assert!(is_valid_hostname(&hostname));
        assert!(!hostname.starts_with('.'));
        assert_eq!(site.root(), &example_dir().child(&hostname).unwrap());
    }
    assert_eq!(
        sites.iter().map(Site::get_hostname).collect::<Vec<String>>(),
        vec!["localhost", "site1.localhost", "no-index.localhost"]
    );
}

#[test]
fn test_discover_all_errors() {
    let mut disk = example_disk();
    assert_eq!(
        discover(&disk, &path("/srv/missing")),
        Err(DiscoverError::List(ErrorKind::NotFound))
    );
    disk.unlistable.push(names("/srv/example/sites"));
    assert_eq!(discover(&disk, &example_dir()), Err(DiscoverError::List(ErrorKind::Other)));

    let broken = FakeDisk::new()
        .file("/sites/a.example/index.html", "a")
        .file("/sites/b.example/pages.toml", "dir_index = ")
        .file("/sites/c.example/index.html", "c");
    assert_eq!(
        discover(&broken, &path("/sites")),
        Err(DiscoverError::Config(ConfigError::Malformed))
    );
    let empty = FakeDisk::new().dir("/sites");
    assert_eq!(discover(&empty, &path("/sites")), Ok(Vec::new()));
}

#[test]
fn test_from_hostname() {
    let disk = example_disk();
    let find = |hostname: &str| {
        run(&disk, Site::from_hostname(&example_dir(), hostname), Site::resume_from_hostname)
            .0
            .unwrap()
    };
    assert_eq!(find("localhost").unwrap().get_hostname(), "localhost");
    assert_eq!(find("no-index.localhost").unwrap().get_index_file(), None);
    assert!(find("unknown").is_none());
    assert!(find(".hidden").is_none());
    assert!(find("../sites").is_none());
    assert!(find("not a host").is_none());
    assert!(find("away.localhost").is_none());
    assert!(find("").is_none());
    assert_eq!(
        Site::from_hostname(&example_dir(), ".hidden"),
        Step::Done(Ok(None))
    );
}

#[test]
fn test_settings_begin_the_same_searches() {
    let settings = Settings {
        sites_root: example_dir(),
        traefik_service: String::from("traefik-service@docker"),
        traefik_cert_resolver: Some(String::from("le")),
        auth_password: String::from("password"),
        deny_prefixes: Vec::new(),
    };
    assert_eq!(settings.discover_sites(), Site::discover_all(&example_dir()));
    assert_eq!(
        settings.site_from_hostname("localhost"),
        Site::from_hostname(&example_dir(), "localhost")
    );
    let copy = settings.clone();
    assert_eq!(copy.sites_root, settings.sites_root);
    assert_eq!(copy.traefik_service, settings.traefik_service);
    assert_eq!(copy.traefik_cert_resolver, settings.traefik_cert_resolver);
    assert_eq!(copy.auth_password, settings.auth_password);
    assert_eq!(copy.deny_prefixes, settings.deny_prefixes);
}

fn get_test_settings() -> Settings {
    Settings {
        sites_root: example_dir(),
        traefik_service: String::from("traefik-service@docker"),
        traefik_cert_resolver: Some(String::from("le")),
        auth_password: String::from("password"),
        deny_prefixes: Vec::new(),
    }
}

fn serve(disk: &FakeDisk, settings: &Settings, host: &str, uri: &str) -> (Served, usize) {
    run(disk, serve_file(settings, host, uri), |state, reply| {
        resume_serve_file(settings, state, reply)
    })
}

fn get_content_at_path(hostname: &str, uri: &str) -> String {
    let disk = example_disk();
    match serve(&disk, &get_test_settings(), hostname, uri).0 {
        Served::File(file) => disk.read(&file),
        other => panic!("no file for {} on {}: {:?}", uri, hostname, other),
    }
}

fn status(served: &Served) -> u16 {
    match served {
        Served::File(_) => 200,
        Served::NotFound(_) => 404,
        Served::Fatal(_) => 500,
    }
}

#[test]
fn serve_test_get_hostname() {
    assert_eq!(get_hostname("localhost"), "localhost");
}

#[test]
fn test_get_hostname_with_port() {
    assert_eq!(get_hostname("localhost:5000"), "localhost");
}

#[test]
fn test_get_index() {
    assert_eq!(get_content_at_path("localhost", "/"), "localhost index\n");
}

#[test]
fn test_serve_correct_files() {
    assert_eq!(get_content_at_path("localhost", "/"), "localhost index\n");
    assert_eq!(get_content_at_path("localhost", "/index.html"), "localhost index\n");
    assert_eq!(get_content_at_path("localhost", "/sub/"), "localhost subdir\n");
    assert_eq!(get_content_at_path("localhost", "/sub"), "localhost subdir\n");
    assert_eq!(get_content_at_path("localhost", "/sub/index.html"), "localhost subdir\n");
    assert_eq!(get_content_at_path("site1.localhost", "/"), "Site 1\n");
}

#[test]
fn test_serve_with_port_in_host() {
    assert_eq!(get_content_at_path("localhost:5000", "/index.html"), "localhost index\n");
    assert_eq!(get_content_at_path("site1.localhost:80", "//"), "Site 1\n");
}

#[test]
fn test_unknown_hostname() {
    let response = serve(&example_disk(), &get_test_settings(), "unknown", "/").0;
    assert_eq!(status(&response), 404);
}

#[test]
fn test_unknown_path() {
    let response = serve(&example_disk(), &get_test_settings(), "localhost", "/unknown.html").0;
    assert_eq!(status(&response), 404);
}

#[test]
fn test_invalid_hostname() {
    let response = serve(&example_disk(), &get_test_settings(), ".localhost", "/").0;
    assert_eq!(status(&response), 404);
}

#[test]
fn test_not_found_is_uniform() {
    let disk = example_disk();
    let mut settings = get_test_settings();
    settings.deny_prefixes = vec![".git".to_string(), "private/".to_string()];
    let unknown = serve(&disk, &settings, "unknown", "/index.html");
    let invalid = serve(&disk, &settings, ".hidden", "/index.html");
    let denied_prefix = serve(&disk, &settings, "localhost", "/.git/config");
    let missing = serve(&disk, &settings, "localhost", "/missing.html");
    let escaping = serve(&disk, &settings, "localhost", "/../../../Cargo.toml");
    let config = serve(&disk, &settings, "localhost", "/pages.toml");
    assert_eq!(unknown, (Served::NotFound(Refusal::UnknownHost), 1));
    assert_eq!(invalid, (Served::NotFound(Refusal::InvalidHost), 0));
    assert_eq!(denied_prefix, (Served::NotFound(Refusal::DeniedPrefix), 3));
    assert_eq!(missing, (Served::NotFound(Refusal::File(ErrorKind::NotFound)), 4));
    assert_eq!(escaping, (Served::NotFound(Refusal::File(ErrorKind::InvalidInput)), 4));
    assert_eq!(config, (Served::NotFound(Refusal::File(ErrorKind::NotFound)), 4));
    for response in [&unknown.0, &invalid.0, &denied_prefix.0, &missing.0, &escaping.0, &config.0] {
        assert_eq!(status(response), 404);
    }
}

#[test]
fn test_deny_prefixes() {
    let prefixes = vec![".git".to_string(), "private/".to_string()];
    assert!(denied(".git/config", &prefixes));
    assert!(denied(".gitignore", &prefixes));
    assert!(denied("private/notes.txt", &prefixes));
    assert!(!denied("private", &prefixes));
    assert!(!denied("sub/.git/config", &prefixes));
    assert!(!denied(".Git/config", &prefixes));
    assert!(!denied("index.html", &prefixes));
    assert!(!denied("index.html", &Vec::new()));
    assert!(denied("index.html", &vec!["".to_string()]));

    let disk = example_disk().file("/srv/example/sites/localhost/.git/config", "secret\n");
    let mut settings = get_test_settings();
    assert_eq!(status(&serve(&disk, &settings, "localhost", "/.git/config").0), 200);
    settings.deny_prefixes = prefixes;
    assert_eq!(
        serve(&disk, &settings, "localhost", "/.git/config").0,
        Served::NotFound(Refusal::DeniedPrefix)
    );
    assert_eq!(
        serve(&disk, &settings, "localhost", "///.git/config").0,
        Served::NotFound(Refusal::DeniedPrefix)
    );
    assert_eq!(
        serve(&disk, &settings, "unknown", "/.git/config").0,
        Served::NotFound(Refusal::UnknownHost)
    );
}

#[test]
fn test_serve_counts_requests() {
    let disk = example_disk();
    let settings = get_test_settings();
    assert_eq!(serve(&disk, &settings, "site1.localhost", "/index.html").1, 3);
    assert_eq!(serve(&disk, &settings, "localhost", "/index.html").1, 4);
    assert_eq!(serve(&disk, &settings, "localhost", "/sub").1, 5);
}

#[test]
fn test_serve_bad_site_config_is_fatal() {
    let disk =
        FakeDisk::new().file("/srv/example/sites/broken.localhost/pages.toml", "dir_index = ");
    let response = serve(&disk, &get_test_settings(), "broken.localhost", "/").0;
    assert_eq!(response, Served::Fatal(ConfigError::Malformed));
}

#[test]
fn test_serve_never_leaves_the_sites_root() {
    let disk = example_disk();
    let settings = get_test_settings();
    let uris = [
        "/",
        "/index.html",
        "/sub",
        "/sub/",
        "/outside.html",
        "/inside.html",
        "/../../../Cargo.toml",
        "/..",
        "/../site1.localhost/index.html",
        "//srv/Cargo.toml",
        "/pages.toml",
        "/sub/..",
    ];
    for host in ["localhost", "site1.localhost", "no-index.localhost", "away.localhost", ".."] {
        for uri in uris {
            if let Served::File(file) = serve(&disk, &settings, host, uri).0 {
                assert!(file.is_within(&example_dir().child(host).unwrap()), "{} {}", host, uri);
                assert!(disk.is_file(file.segments()));
                assert_ne!(file.file_name(), Some("pages.toml".to_string()));
            }
        }
    }
    assert_eq!(
        serve(&disk, &settings, "localhost", "/../site1.localhost/index.html").0,
        Served::NotFound(Refusal::File(ErrorKind::InvalidInput))
    );
}

#[test]
fn test_sites_list() {
    let disk = example_disk();
    let sites = discover(&disk, &example_dir()).unwrap();
    assert_eq!(sites_list(&sites), "localhost\nsite1.localhost\nno-index.localhost\n");
    assert_eq!(sites_list(&sites[..1].to_vec()), "localhost\n");
    assert_eq!(sites_list(&Vec::new()), "\n");
}

#[test]
fn test_provider_for_one_site() {
    let disk = FakeDisk::new().file("/srv/example/sites/localhost/index.html", "localhost index\n");
    let sites = discover(&disk, &example_dir()).unwrap();
    assert_eq!(sites.len(), 1);
    let settings = Settings {
        sites_root: example_dir(),
        traefik_service: String::from("svc"),
        traefik_cert_resolver: Some(String::from("le")),
        auth_password: String::new(),
        deny_prefixes: Vec::new(),
    };
    let document = traefik_provider(&sites, &settings, 4);
    let routers = document["http"]["routers"].as_object().unwrap();
    assert_eq!(routers.keys().collect::<Vec<&String>>(), vec!["localhost"]);
    let router = &routers["localhost"];
    assert!(router["rule"].as_str().unwrap().contains("Host(`localhost`)"));
    assert_eq!(router["service"], "svc");
    assert_eq!(router["tls"].to_string(), "{\"certResolver\":\"le\"}");
    assert_eq!(router["middlewares"].to_string(), "[\"tp-default\"]");
    let middlewares = document["http"]["middlewares"].as_object().unwrap();
    assert_eq!(middlewares.len(), 2);
    let chains: Vec<&String> = middlewares
        .keys()
        .filter(|k| middlewares[*k].get("chain").is_some())
        .collect();
    assert_eq!(chains, vec!["tp-default"]);
    let chained = middlewares["tp-default"]["chain"]["middlewares"].as_array().unwrap();
    assert_eq!(chained.len(), 1);
    let retry = &middlewares[chained[0].as_str().unwrap()]["retry"];
    assert_eq!(retry["attempts"], 4);
    assert_eq!(
        document.to_string(),
        "{\"http\":{\"middlewares\":{\"tp-default\":{\"chain\":{\"middlewares\":[\"tp-retry\"]}},\
         \"tp-retry\":{\"retry\":{\"attempts\":4}}},\"routers\":{\"localhost\":{\"middlewares\":\
         [\"tp-default\"],\"rule\":\"Host(`localhost`)\",\"service\":\"svc\",\"tls\":\
         {\"certResolver\":\"le\"}}}}}"
    );
}

#[test]
fn test_provider_for_the_example_sites() {
    let disk = example_disk();
    let sites = discover(&disk, &example_dir()).unwrap();
    let mut settings = get_test_settings();
    settings.traefik_cert_resolver = None;
    let document = traefik_provider(&sites, &settings, RETRY_COUNT);
    let routers = document["http"]["routers"].as_object().unwrap();
    let mut keys = routers.keys().cloned().collect::<Vec<String>>();
    keys.sort();
    assert_eq!(keys, vec!["localhost", "no-index-localhost", "site1-localhost"]);
    for (name, router) in routers {
        assert_eq!(router["service"], "traefik-service@docker");
        assert_eq!(router["rule"], format!("Host(`{}`)", name.replace("-localhost", ".localhost")));
        assert!(router.get("tls").is_none());
        assert_eq!(router.as_object().unwrap().len(), 3);
    }
    assert_eq!(document["http"]["middlewares"]["tp-retry"]["retry"]["attempts"], 4);

    let empty = traefik_provider(&Vec::new(), &settings, 0);
    assert_eq!(empty["http"]["routers"].to_string(), "{}");
    assert_eq!(empty["http"]["middlewares"]["tp-retry"]["retry"]["attempts"], 0);
}
