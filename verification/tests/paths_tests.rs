use wftpg::openat::{open_plan, OpenStep};
use wftpg::paths::{check_path_length, FsPath, PathError};
use wftpg::resolver::{FsQuery, FsReply, PathResolver, ResolveStep};
use wftpg::utils::{
    escape_mlst_filename, is_safe_username, real_to_virtual_path, realpath_text, virtual_to_real_path,
};

/// A file system holding the given canonical paths, with no symbolic links.
struct FakeFs {
    existing: Vec<&'static str>,
}

impl FakeFs {
    fn normalize(text: &str) -> String {
        let mut parts: Vec<&str> = Vec::new();
        for c in text.split('/') {
            match c {
                "" | "." => {}
                ".." => {
                    parts.pop();
                }
                other => parts.push(other),
            }
        }
        format!("/{}", parts.join("/"))
    }

    fn canonical(&self, text: &str) -> Option<Vec<char>> {
        let n = Self::normalize(text);
        if self.existing.iter().any(|e| *e == n) {
            Some(n.chars().collect())
        } else {
            None
        }
    }

    fn present(&self, text: &str) -> bool {
        self.canonical(text).is_some()
    }
}

fn drive(fs: &FakeFs, start: (PathResolver, ResolveStep)) -> Result<String, PathError> {
    let (mut r, mut step) = start;
    loop {
        step = match step {
            ResolveStep::Done(res) => return res.map(|p: FsPath| p.to_text()),
            ResolveStep::Ask(FsQuery::Canonicalize(t)) => r.resume(FsReply::Canonical(fs.canonical(&t))),
            ResolveStep::Ask(FsQuery::Exists(t)) => r.resume(FsReply::Exists(fs.present(&t))),
        };
    }
}

fn fs() -> FakeFs {
    FakeFs { existing: vec!["/srv/home", "/srv/home/docs", "/srv/home/docs/a.txt", "/srv/etc", "/srv/etc/passwd"] }
}

#[test]
fn resolution_stays_within_home() {
    let f = fs();
    assert_eq!(drive(&f, PathResolver::safe_resolve_path("/srv/home", "docs/a.txt")), Ok("/srv/home/docs/a.txt".to_string()));
    assert_eq!(drive(&f, PathResolver::safe_resolve_path("/srv/home", "  ./docs ")), Ok("/srv/home/docs".to_string()));
    assert_eq!(drive(&f, PathResolver::safe_resolve_path("/srv/home", "/docs")), Ok("/srv/home/docs".to_string()));
    assert_eq!(drive(&f, PathResolver::safe_resolve_path("/srv/home", "")), Ok("/srv/home".to_string()));
    assert_eq!(drive(&f, PathResolver::safe_resolve_path("/srv/home", "../etc/passwd")), Err(PathError::OutsideHome));
    assert_eq!(drive(&f, PathResolver::safe_resolve_path("/srv/home", "new/../x.txt")), Ok("/srv/home/x.txt".to_string()));
    assert_eq!(drive(&f, PathResolver::safe_resolve_path("/srv/home", "../../x")), Err(PathError::AboveHome));
    assert_eq!(drive(&f, PathResolver::safe_resolve_path("/srv/nohome", "a")), Err(PathError::HomeInaccessible));
    let long = "a".repeat(4097);
    assert_eq!(drive(&f, PathResolver::safe_resolve_path("/srv/home", &long)), Err(PathError::TooLong));
}

#[test]
fn resolution_against_a_working_directory() {
    let f = fs();
    assert_eq!(drive(&f, PathResolver::safe_resolve_path_with_cwd("/srv/home/docs", "/srv/home", "a.txt")), Ok("/srv/home/docs/a.txt".to_string()));
    assert_eq!(drive(&f, PathResolver::safe_resolve_path_with_cwd("/srv/home/docs", "/srv/home", "b.txt")), Ok("/srv/home/docs/b.txt".to_string()));
    assert_eq!(drive(&f, PathResolver::safe_resolve_path_with_cwd("/srv/home/docs", "/srv/home", "")), Ok("/srv/home/docs".to_string()));
}

#[test]
fn path_length_limit() {
    assert!(check_path_length(&"x".repeat(4096)).is_ok());
    assert_eq!(check_path_length(&"x".repeat(4097)), Err(PathError::TooLong));
}

#[test]
fn virtual_and_real_paths() {
    assert_eq!(real_to_virtual_path("/srv/home", "/srv/home"), "/");
    assert_eq!(real_to_virtual_path("/srv/home/docs/a.txt", "/srv/home"), "/docs/a.txt");
    assert_eq!(real_to_virtual_path("/other/x", "/srv/home"), "/other/x");
    assert_eq!(real_to_virtual_path("C:\\x\\y", "/srv/home"), "C:/x/y");
    assert_eq!(real_to_virtual_path("/h/a//b", "/h"), "/a//b");
    assert_eq!(real_to_virtual_path("/h/a/b/", "/h"), "/a/b");
    assert_eq!(real_to_virtual_path("/h/./a", "/h"), "/a");
    assert_eq!(real_to_virtual_path("/h/a/./b", "/h/"), "/a/./b");
    assert_eq!(real_to_virtual_path("/h/", "/h"), "/");
    assert_eq!(real_to_virtual_path("/srv/a", ""), "//srv/a");
    assert_eq!(virtual_to_real_path("/", "/srv/home"), "/srv/home");
    assert_eq!(virtual_to_real_path("  ", "/srv/home"), "/srv/home");
    assert_eq!(virtual_to_real_path("//docs/a", "/srv/home/"), "/srv/home/docs/a");
    assert_eq!(virtual_to_real_path("docs", "/srv/home"), "/srv/home/docs");
}

#[test]
fn user_names() {
    assert!(is_safe_username("alice_01"));
    assert!(is_safe_username("_svc-x"));
    assert!(!is_safe_username("-bad"));
    assert!(!is_safe_username(""));
    assert!(!is_safe_username("a b"));
    assert!(!is_safe_username(&"a".repeat(65)));
    assert!(is_safe_username(&"a".repeat(64)));
}

#[test]
fn mlst_names_are_escaped() {
    assert_eq!(escape_mlst_filename("a b;c=d\\e"), "a\\ b\\;c\\=d\\\\e");
    assert_eq!(escape_mlst_filename("x\ny\rz\t"), "x\\012y\\015z\\011");
    assert_eq!(escape_mlst_filename("\u{1}\u{7f}"), "\\001\\177");
    assert_eq!(escape_mlst_filename("\u{85}é"), "\\205é");
}

#[test]
fn openat_plans_never_climb() {
    let steps = open_plan("/a/./b//c.txt/");
    let v: Vec<(String, bool)> = steps
        .into_iter()
        .map(|s| match s {
            OpenStep::Open { name, last } => (name, last),
            OpenStep::RejectParent => ("..".to_string(), true),
        })
        .collect();
    assert_eq!(v, vec![("a".to_string(), false), ("b".to_string(), false), ("c.txt".to_string(), true)]);
    let steps = open_plan("a/../b");
    assert!(matches!(steps.as_slice(), [OpenStep::Open { .. }, OpenStep::RejectParent]));
    let steps = open_plan("a/.");
    assert!(matches!(steps.as_slice(), [OpenStep::Open { last: false, .. }]));
}

#[test]
fn realpath_reports_paths_relative_to_home() {
    assert_eq!(realpath_text("/home/u", "/home/u"), "/");
    assert_eq!(realpath_text("/home/u//x/", "/home/u"), "/x");
    assert_eq!(realpath_text("/home/u/a//b", "/home/u"), "/a//b");
    assert_eq!(realpath_text("/home/u/docs/a.txt", "/home/u"), "/docs/a.txt");
    assert_eq!(realpath_text("/home/u/dir\\x", "/home/u"), "/dir\\x");
    assert_eq!(realpath_text("/srv/other", "/home/u"), "/srv/other");
    assert_eq!(realpath_text("/home/user2", "/home/u"), "/home/user2");
}

#[test]
fn client_paths_map_back_to_server_paths() {
    for p in ["/home/u/a.txt", "/home/u/docs/sub dir/b", "/home/u/.hidden"] {
        let shown = real_to_virtual_path(p, "/home/u");
        assert_eq!(virtual_to_real_path(&shown, "/home/u"), p);
    }
    assert_eq!(real_to_virtual_path("/home/u/docs/a.txt", "/home/u"), "/docs/a.txt");
}
