use e_cli::api_defs::Tags;

fn tags_of(names: &[&str]) -> Tags {
    Tags { artist: names.iter().map(|s| s.to_string()).collect() }
}

#[test]
fn parse_artists_empty_is_sentinel() {
    assert_eq!(tags_of(&[]).parse_artists(), "unknown-artist");
}

#[test]
fn parse_artists_single_is_the_name() {
    assert_eq!(tags_of(&["a"]).parse_artists(), "a");
}

#[test]
fn parse_artists_two_joined_without_trailing_separator() {
    assert_eq!(tags_of(&["a", "b"]).parse_artists(), "a, b");
}

#[test]
fn parse_artists_three_joined() {
    assert_eq!(tags_of(&["a", "b", "c"]).parse_artists(), "a, b, c");
}
