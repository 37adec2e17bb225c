use cli::fns::{init, list, publish, remove, search, update, version, PublishOptions};

#[test]
fn add_without_sources() {
    assert_eq!(cli::fns::add("core", None, None), "add core (no git) (no path)");
}

#[test]
fn add_with_git_only() {
    assert_eq!(
        cli::fns::add("core", Some("https://example.org/core.git"), None),
        "add core https://example.org/core.git (no path)"
    );
}

#[test]
fn add_with_path_only() {
    assert_eq!(cli::fns::add("core", None, Some("../core")), "add core (no git) ../core");
}

#[test]
fn add_with_both_sources() {
    assert_eq!(cli::fns::add("ui", Some("g"), Some("p")), "add ui g p");
}

#[test]
fn add_keeps_an_empty_block_name() {
    assert_eq!(cli::fns::add("", None, None), "add  (no git) (no path)");
}

#[test]
fn update_without_blocks_means_all() {
    assert_eq!(update(None), "update (all blocks)");
}

#[test]
fn update_joins_the_blocks() {
    assert_eq!(update(Some(vec!["a", "b"])), "update a b");
}

#[test]
fn update_with_one_block() {
    assert_eq!(update(Some(vec!["core"])), "update core");
}

#[test]
fn update_with_an_empty_list_shows_nothing() {
    assert_eq!(update(Some(vec![])), "update ");
}

#[test]
fn remove_joins_the_blocks() {
    assert_eq!(remove(vec!["a", "b", "c"]), "remove a b c");
}

#[test]
fn remove_with_no_blocks() {
    assert_eq!(remove(vec![]), "remove ");
}

#[test]
fn test_without_filters() {
    assert_eq!(cli::fns::test(vec![]), "test, filters: (no filters)");
}

#[test]
fn test_with_filters() {
    assert_eq!(cli::fns::test(vec!["unit", "slow"]), "test, filters: unit slow");
}

#[test]
fn test_with_one_empty_filter_is_not_the_placeholder() {
    assert_eq!(cli::fns::test(vec![""]), "test, filters: ");
}

#[test]
fn init_without_name() {
    assert_eq!(init(None), "init, name: (no name)");
}

#[test]
fn init_with_name() {
    assert_eq!(init(Some("demo")), "init, name: demo");
}

#[test]
fn version_shows_the_number() {
    assert_eq!(version("1.2.3"), "version 1.2.3");
}

#[test]
fn publish_dry_run() {
    assert_eq!(publish(PublishOptions { dry_run: true }), "publish, dry-run: true");
}

#[test]
fn publish_for_real() {
    assert_eq!(publish(PublishOptions { dry_run: false }), "publish, dry-run: false");
}

#[test]
fn list_is_one_word() {
    assert_eq!(list(), "list");
}

#[test]
fn search_shows_the_query() {
    assert_eq!(search("json parser"), "search json parser");
}

#[test]
fn search_keeps_text_outside_ascii() {
    assert_eq!(search("café ☕"), "search café ☕");
}
