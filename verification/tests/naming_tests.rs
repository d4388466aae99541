use image_renamer::listing::{filter_regular_files, DirEntry, EntryKind};
use image_renamer::pairing::{
    format_index, generate_source_destination_pairs, get_prefix, plan_transfers,
};
use image_renamer::paths::{base_name, extension, join_path};

#[test]
fn pairing_yields_one_pair_per_file_in_listing_order() {
    let files = vec![
        "/src/a.txt".to_string(),
        "/src/b".to_string(),
        "/src/c.png".to_string(),
    ];
    let pairs = generate_source_destination_pairs(files, "/dst".to_string(), "p");
    assert_eq!(pairs.len(), 3);
    assert_eq!(pairs[0].0, "/src/a.txt");
    assert_eq!(pairs[0].1, "/dst/p_0.txt");
    assert_eq!(pairs[1].0, "/src/b");
    assert_eq!(pairs[1].1, "/dst/p_1");
    assert_eq!(pairs[2].0, "/src/c.png");
    assert_eq!(pairs[2].1, "/dst/p_2.png");
}

#[test]
fn extension_case_is_preserved_verbatim() {
    let files = vec![
        "one".to_string(),
        "two".to_string(),
        "three".to_string(),
        "photo.JPG".to_string(),
    ];
    let pairs = generate_source_destination_pairs(files, "".to_string(), "trip");
    assert_eq!(pairs[3].1, "trip_3.JPG");
}

#[test]
fn extensionless_source_gets_no_trailing_dot() {
    let files = vec!["README".to_string()];
    let pairs = generate_source_destination_pairs(files, "".to_string(), "x");
    assert_eq!(pairs.len(), 1);
    assert_eq!(pairs[0].1, "x_0");
}

#[test]
fn trailing_dot_is_an_empty_extension() {
    let files = vec!["foo.".to_string()];
    let pairs = generate_source_destination_pairs(files, "".to_string(), "p");
    assert_eq!(pairs[0].1, "p_0.");
}

#[test]
fn hidden_file_has_no_extension() {
    let files = vec!["/src/.hidden".to_string()];
    let pairs = generate_source_destination_pairs(files, "/dst".to_string(), "p");
    assert_eq!(pairs[0].1, "/dst/p_0");
}

#[test]
fn only_the_last_extension_is_kept() {
    assert_eq!(extension("/src/archive.tar.gz"), Some("gz".to_string()));
    assert_eq!(extension("photo.JPG"), Some("JPG".to_string()));
    assert_eq!(extension("README"), None);
    assert_eq!(extension("/src/.hidden"), None);
}

#[test]
fn empty_file_list_yields_no_pairs() {
    let pairs = generate_source_destination_pairs(Vec::new(), "/dst".to_string(), "p");
    assert_eq!(pairs.len(), 0);
}

#[test]
fn base_name_takes_what_follows_the_last_slash() {
    assert_eq!(base_name("/a/b/c.txt"), "c.txt");
    assert_eq!(base_name("noslash"), "noslash");
    assert_eq!(base_name("/a/b/"), "");
}

#[test]
fn join_path_inserts_a_separator_only_where_needed() {
    assert_eq!(join_path("/d", "x"), "/d/x");
    assert_eq!(join_path("/d/", "x"), "/d/x");
    assert_eq!(join_path("", "x"), "x");
}

#[test]
fn index_is_rendered_in_decimal() {
    assert_eq!(format_index(0), "0");
    assert_eq!(format_index(7), "7");
    assert_eq!(format_index(10), "10");
    assert_eq!(format_index(99), "99");
    assert_eq!(format_index(100), "100");
    assert_eq!(format_index(123456789), "123456789");
}

#[test]
fn prefix_override_wins() {
    let r = get_prefix(&Some("given".to_string()), "/a/b/photos");
    assert_eq!(r, Ok("given".to_string()));
}

#[test]
fn prefix_defaults_to_the_source_base_name() {
    let r = get_prefix(&None, "/a/b/photos");
    assert_eq!(r, Ok("photos".to_string()));
}

#[test]
fn prefix_underivable_from_a_bare_root_is_an_error() {
    let r = get_prefix(&None, "/");
    assert!(r.is_err());
}

#[test]
fn prefix_underivable_from_relative_components_is_an_error() {
    assert!(get_prefix(&None, "..").is_err());
    assert!(get_prefix(&None, "/a/..").is_err());
    assert!(get_prefix(&None, ".").is_err());
}

#[test]
fn filtering_keeps_only_regular_files_in_order() {
    let entries = vec![
        DirEntry { path: "/s/a.txt".to_string(), kind: EntryKind::File },
        DirEntry { path: "/s/subdir".to_string(), kind: EntryKind::NonFile },
        DirEntry { path: "/s/b.png".to_string(), kind: EntryKind::File },
        DirEntry { path: "/s/odd".to_string(), kind: EntryKind::Unknown },
        DirEntry { path: "/s/c".to_string(), kind: EntryKind::File },
    ];
    let files = filter_regular_files(&entries);
    assert_eq!(
        files,
        vec!["/s/a.txt".to_string(), "/s/b.png".to_string(), "/s/c".to_string()]
    );
}

#[test]
fn planning_pairs_the_regular_files() {
    let entries = vec![
        DirEntry { path: "/s/a.txt".to_string(), kind: EntryKind::File },
        DirEntry { path: "/s/subdir".to_string(), kind: EntryKind::NonFile },
        DirEntry { path: "/s/b".to_string(), kind: EntryKind::File },
    ];
    let r = plan_transfers(Ok(entries), "/dst", "s");
    let pairs = r.expect("planning from a successful listing succeeds");
    assert_eq!(pairs.len(), 2);
    assert_eq!(pairs[0], ("/s/a.txt".to_string(), "/dst/s_0.txt".to_string()));
    assert_eq!(pairs[1], ("/s/b".to_string(), "/dst/s_1".to_string()));
}

#[test]
fn a_failed_listing_is_fatal_and_plans_nothing() {
    let r = plan_transfers(Err("No such file or directory".to_string()), "/dst", "s");
    assert_eq!(r, Err("No such file or directory".to_string()));
}
