use filebuddy::security::get_forbidden_paths;
use filebuddy::security::is_system_critical;
use filebuddy::security::validate_path;
use filebuddy::security::ResolvedPath;
use std::path::Path;
use std::path::PathBuf;

fn resolve(path: &Path) -> Option<ResolvedPath> {
    let canonical = path.canonicalize().ok()?;
    Some(from_canonical(&canonical))
}

fn from_canonical(path: &Path) -> ResolvedPath {
    ResolvedPath {
        text: path.to_string_lossy().to_string(),
        components: path
            .components()
            .map(|c| c.as_os_str().to_string_lossy().to_string())
            .collect(),
    }
}

fn resolved_all(dirs: &[PathBuf]) -> Vec<Option<ResolvedPath>> {
    dirs.iter().map(|d| resolve(d)).collect()
}

#[test]
fn test_forbidden_paths() {
    let temp_dir = PathBuf::from("/tmp");
    let allowed = vec![temp_dir.clone()];

    // Should be allowed
    assert!(validate_path(&resolve(&temp_dir), &resolved_all(&allowed)));

    // System paths should be blocked (if they exist)
    if Path::new("/bin").exists() {
        assert!(!validate_path(&resolve(Path::new("/bin")), &resolved_all(&allowed)));
    }
}

#[test]
fn unresolvable_path_is_denied() {
    let allowed = vec![Some(from_canonical(Path::new("/home/user")))];
    assert!(!validate_path(&None, &allowed));
    assert!(!validate_path(&None, &vec![]));
}

#[test]
fn nested_path_under_allowed_dir_is_admitted() {
    let allowed = vec![Some(from_canonical(Path::new("/home/user/docs")))];
    let candidate = Some(from_canonical(Path::new("/home/user/docs/report.txt")));
    assert!(validate_path(&candidate, &allowed));
}

#[test]
fn allowed_dir_itself_is_admitted() {
    let allowed = vec![Some(from_canonical(Path::new("/home/user/docs")))];
    let candidate = Some(from_canonical(Path::new("/home/user/docs")));
    assert!(validate_path(&candidate, &allowed));
}

#[test]
fn sibling_with_common_prefix_is_denied() {
    let allowed = vec![Some(from_canonical(Path::new("/home/user/docs")))];
    let candidate = Some(from_canonical(Path::new("/home/user/docs2/a.txt")));
    assert!(!validate_path(&candidate, &allowed));
}

#[test]
fn forbidden_substring_overrides_allowlist() {
    let allowed = vec![Some(from_canonical(Path::new("/home/user")))];
    let candidate = Some(from_canonical(Path::new("/home/user/.ssh/id_rsa")));
    assert!(!validate_path(&candidate, &allowed));
    let backup = Some(from_canonical(Path::new("/home/user/my.config.backup")));
    assert!(!validate_path(&backup, &allowed));
}

#[test]
fn forbidden_match_ignores_case() {
    let allowed = vec![Some(from_canonical(Path::new("/home/user")))];
    let candidate = Some(from_canonical(Path::new("/home/user/.SSH/key")));
    assert!(!validate_path(&candidate, &allowed));
    let upper = Some(from_canonical(Path::new("/home/user/x/SYSTEM/y")));
    assert!(!validate_path(&upper, &allowed));
    let plain = Some(from_canonical(Path::new("/home/user/x/Sys/y")));
    assert!(validate_path(&plain, &allowed));
    let system = Some(from_canonical(Path::new("/home/user/x/system/y")));
    assert!(!validate_path(&system, &allowed));
}

#[test]
fn unresolvable_allowed_dir_is_skipped() {
    let allowed = vec![None, Some(from_canonical(Path::new("/data")))];
    let candidate = Some(from_canonical(Path::new("/data/file")));
    assert!(validate_path(&candidate, &allowed));
    assert!(!validate_path(&candidate, &vec![None]));
}

#[test]
fn no_allowed_dirs_denies_everything() {
    let candidate = Some(from_canonical(Path::new("/data/file")));
    assert!(!validate_path(&candidate, &vec![]));
}

#[test]
fn forbidden_list_holds_system_and_secret_locations() {
    let list = get_forbidden_paths();
    assert_eq!(list.len(), 13);
    assert_eq!(list[0], "/System");
    assert_eq!(list[12], ".config");
}

#[test]
fn critical_dirs_match_exactly() {
    assert!(is_system_critical("/"));
    assert!(is_system_critical("/System"));
    assert!(is_system_critical("C:\\Program Files"));
    assert!(!is_system_critical("/System/Library"));
    assert!(!is_system_critical("/system"));
    assert!(!is_system_critical("/home"));
    assert!(!is_system_critical(""));
}
