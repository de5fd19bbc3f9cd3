use tsukimi::cache::server_cache_dir;
use tsukimi::model::List;

#[test]
fn default_list_is_empty() {
    let l = List::default();
    assert_eq!(l.total_record_count, 0);
    assert!(l.items.is_empty());
}

#[test]
fn server_cache_dir_is_under_a_home_directory() {
    if let Some(dir) = server_cache_dir("myserver") {
        let suffix = "/.local/share/tsukimi/myserver";
        assert!(dir.ends_with(suffix));
        assert!(dir.len() > suffix.len());
    }
}
