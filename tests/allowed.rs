use filebuddy::allowed::add_allowed_directory;
use filebuddy::allowed::remove_allowed_directory;
use filebuddy::allowed::DirPath;

fn dir(text: &str) -> DirPath {
    DirPath {
        text: text.to_string(),
        components: std::path::Path::new(text)
            .components()
            .map(|c| c.as_os_str().to_string_lossy().to_string())
            .collect(),
    }
}

fn texts(dirs: &[DirPath]) -> Vec<String> {
    dirs.iter().map(|d| d.text.clone()).collect()
}

#[test]
fn add_skips_duplicates() {
    let mut dirs = Vec::new();
    assert!(add_allowed_directory(&mut dirs, dir("/a/b")));
    assert!(add_allowed_directory(&mut dirs, dir("/c")));
    assert!(!add_allowed_directory(&mut dirs, dir("/a/b/")));
    assert_eq!(texts(&dirs), vec!["/a/b".to_string(), "/c".to_string()]);
}

#[test]
fn remove_keeps_order_of_others() {
    let mut dirs = vec![dir("/a"), dir("/b"), dir("/c"), dir("/b/")];
    remove_allowed_directory(&mut dirs, &dir("/b").components);
    assert_eq!(texts(&dirs), vec!["/a".to_string(), "/c".to_string()]);
    remove_allowed_directory(&mut dirs, &dir("/zzz").components);
    assert_eq!(dirs.len(), 2);
}
