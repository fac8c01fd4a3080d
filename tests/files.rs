use base64::Engine;
use nopea_git::error::GitError;
use nopea_git::files::{is_config_file, list_files, read_file, select_config_files, text_le, Disk};

fn names(list: &[&str]) -> Vec<String> {
    list.iter().map(|s| s.to_string()).collect()
}

fn check_filters_yaml() {
    let listing = names(&["deploy.yaml", "config.yml", "readme.md", ".hidden.yaml"]);
    let files = list_files("/repo", Disk::Found(listing)).unwrap();

    assert_eq!(files.len(), 2);
    assert!(files.contains(&"config.yml".to_string()));
    assert!(files.contains(&"deploy.yaml".to_string()));
    assert!(!files.contains(&"readme.md".to_string()));
    assert!(!files.contains(&".hidden.yaml".to_string()));
}

#[test]
fn test_list_files_filters_yaml() {
    check_filters_yaml();
}

#[test]
fn git_test_list_files_filters_yaml() {
    check_filters_yaml();
}

fn check_returns_base64() {
    let content = "apiVersion: v1\nkind: ConfigMap";
    let encoded = read_file("/repo/test.yaml", Disk::Found(content.as_bytes().to_vec())).unwrap();
    let decoded = base64::engine::general_purpose::STANDARD.decode(&encoded).unwrap();
    let decoded_str = String::from_utf8(decoded).unwrap();

    assert_eq!(decoded_str, content);
}

#[test]
fn test_read_file_returns_base64() {
    check_returns_base64();
}

#[test]
fn git_test_read_file_returns_base64() {
    check_returns_base64();
}

fn check_not_found() {
    let result = read_file("/repo/nonexistent.yaml", Disk::Absent);
    assert!(matches!(result, Err(GitError::FileNotFound(_))));
}

#[test]
fn test_read_file_not_found() {
    check_not_found();
}

#[test]
fn git_test_read_file_not_found() {
    check_not_found();
}

#[test]
fn listing_keeps_only_visible_yaml_in_order() {
    let listing = names(&["c.md", "b.yml", ".hidden.yaml", "a.yaml"]);
    let files = list_files("/repo", Disk::Found(listing)).unwrap();
    assert_eq!(files, names(&["a.yaml", "b.yml"]));
}

#[test]
fn listing_sorts_by_code_point() {
    let listing = names(&["zeta.yaml", "Beta.yml", "alpha.yaml", "alp.yaml", "ä.yaml", "_x.yml"]);
    let files = select_config_files(listing);
    assert_eq!(files, names(&["Beta.yml", "_x.yml", "alp.yaml", "alpha.yaml", "zeta.yaml", "ä.yaml"]));
}

#[test]
fn listing_of_nothing_is_empty() {
    assert_eq!(list_files("/repo", Disk::Found(Vec::new())).unwrap(), Vec::<String>::new());
}

#[test]
fn listing_keeps_equal_names() {
    let files = select_config_files(names(&["b.yaml", "a.yaml", "b.yaml"]));
    assert_eq!(files, names(&["a.yaml", "b.yaml", "b.yaml"]));
}

#[test]
fn listing_of_missing_directory_is_file_not_found() {
    match list_files("/repo/overlays", Disk::Absent) {
        Err(GitError::FileNotFound(p)) => assert_eq!(p, "/repo/overlays"),
        other => panic!("unexpected {:?}", other),
    }
}

#[test]
fn failed_reads_are_io_errors() {
    match list_files("/repo", Disk::Failed("permission denied".to_string())) {
        Err(GitError::Io(m)) => assert_eq!(m, "permission denied"),
        other => panic!("unexpected {:?}", other),
    }
    match read_file("/repo/a.yaml", Disk::Failed("is a directory".to_string())) {
        Err(GitError::Io(m)) => assert_eq!(m, "is a directory"),
        other => panic!("unexpected {:?}", other),
    }
}

#[test]
fn config_names() {
    assert!(is_config_file("a.yaml"));
    assert!(is_config_file("a.yml"));
    assert!(is_config_file(".yaml.yml") == false);
    assert!(!is_config_file("a.yaml.bak"));
    assert!(!is_config_file("a.YAML"));
    assert!(!is_config_file(""));
    assert!(!is_config_file("yml"));
    assert!(is_config_file(".yml") == false);
}

#[test]
fn text_order() {
    assert!(text_le("a", "b"));
    assert!(text_le("ab", "abc"));
    assert!(!text_le("abc", "ab"));
    assert!(text_le("same", "same"));
    assert!(text_le("", ""));
    assert!(text_le("Z", "a"));
    assert!(!text_le("é", "z"));
}

#[test]
fn read_file_encodes_exact_bytes() {
    let bytes: Vec<u8> = vec![0, 255, 1, 128, 10, 13, 0];
    let encoded = read_file("/repo/blob.bin", Disk::Found(bytes.clone())).unwrap();
    assert_eq!(encoded, "AP8BgAoNAA==");
    assert_eq!(base64::engine::general_purpose::STANDARD.decode(&encoded).unwrap(), bytes);
}

#[test]
fn read_file_of_empty_file_is_empty() {
    assert_eq!(read_file("/repo/empty.yaml", Disk::Found(Vec::new())).unwrap(), "");
}

#[test]
fn read_file_text_round_trip() {
    let encoded = read_file("/repo/x.yaml", Disk::Found(b"hi".to_vec())).unwrap();
    assert_eq!(encoded, "aGk=");
}
