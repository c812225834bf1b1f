use zerofs::text::join;

#[test]
fn a_name_inside_a_directory() {
    assert_eq!(join("/var/cache", "bucket"), "/var/cache/bucket");
    assert_eq!(join("", ""), "/");
}
