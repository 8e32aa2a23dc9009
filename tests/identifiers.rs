use beater::{ItemId, ItemKind, ParseError, UrlParts};

fn item(kind: ItemKind, id: &str) -> ItemId {
    ItemId { kind, id: id.to_string() }
}

#[test]
fn native_uri_parses_to_track() {
    assert_eq!(ItemId::parse("spotify:track:abc123"), Ok(item(ItemKind::Track, "abc123")));
}

#[test]
fn web_url_parses_to_same_track() {
    assert_eq!(
        ItemId::parse("https://open.spotify.com/track/abc123"),
        Ok(item(ItemKind::Track, "abc123"))
    );
    assert_eq!(
        ItemId::parse("https://open.spotify.com/track/abc123"),
        ItemId::parse("spotify:track:abc123")
    );
}

#[test]
fn garbage_is_rejected() {
    assert_eq!(ItemId::parse("not-a-uri"), Err(ParseError::InvalidArgument));
    assert_eq!(ItemId::parse(""), Err(ParseError::InvalidArgument));
}

#[test]
fn native_uri_needs_three_segments() {
    assert_eq!(ItemId::parse("spotify:track"), Err(ParseError::MalformedUri));
    assert_eq!(ItemId::parse("spotify:"), Err(ParseError::MalformedUri));
}

#[test]
fn native_uri_kinds() {
    assert_eq!(ItemId::parse("spotify:album:Xy9"), Ok(item(ItemKind::Album, "Xy9")));
    assert_eq!(ItemId::parse("spotify:artist:a1"), Ok(item(ItemKind::Artist, "a1")));
    assert_eq!(ItemId::parse("spotify:playlist:P"), Ok(item(ItemKind::Playlist, "P")));
    assert_eq!(ItemId::parse("spotify:episode:e"), Ok(item(ItemKind::Other, "e")));
    assert_eq!(ItemId::parse("spotify:Track:e"), Ok(item(ItemKind::Other, "e")));
}

#[test]
fn native_uri_id_stops_at_next_colon_and_keeps_case() {
    assert_eq!(
        ItemId::parse("spotify:track:2QTDuJIGKUjR7E2Q6KupIh:extra"),
        Ok(item(ItemKind::Track, "2QTDuJIGKUjR7E2Q6KupIh"))
    );
    assert_ne!(ItemId::parse("spotify:track:ABC"), ItemId::parse("spotify:track:abc"));
}

#[test]
fn web_url_needs_web_player_host_and_two_segments() {
    assert_eq!(
        ItemId::parse("https://example.com/track/abc123"),
        Err(ParseError::InvalidArgument)
    );
    assert_eq!(
        ItemId::parse("https://open.spotify.com/track"),
        Err(ParseError::InvalidArgument)
    );
    assert_eq!(
        ItemId::parse("https://open.spotify.com/album/xyz?si=1"),
        Ok(item(ItemKind::Album, "xyz"))
    );
}

#[test]
fn url_parts_are_read_without_parsing_again() {
    let parts = Some(UrlParts {
        scheme: "https".to_string(),
        host: Some("open.spotify.com".to_string()),
        segments: Some(vec!["playlist".to_string(), "p1".to_string(), "more".to_string()]),
    });
    assert_eq!(ItemId::from_url_parts(&parts), Ok(item(ItemKind::Playlist, "p1")));
    let no_path = Some(UrlParts {
        scheme: "https".to_string(),
        host: Some("open.spotify.com".to_string()),
        segments: None,
    });
    assert_eq!(ItemId::from_url_parts(&no_path), Err(ParseError::InvalidArgument));
    let other_host = Some(UrlParts {
        scheme: "http".to_string(),
        host: Some("spotify.com".to_string()),
        segments: Some(vec!["track".to_string(), "t".to_string()]),
    });
    assert_eq!(ItemId::from_url_parts(&other_host), Err(ParseError::InvalidArgument));
    assert_eq!(ItemId::from_url_parts(&None), Err(ParseError::InvalidArgument));
    let other_scheme = Some(UrlParts {
        scheme: "ftp".to_string(),
        host: Some("open.spotify.com".to_string()),
        segments: Some(vec!["track".to_string(), "t".to_string()]),
    });
    assert_eq!(ItemId::from_url_parts(&other_scheme), Err(ParseError::InvalidArgument));
}

#[test]
fn native_parser_alone() {
    assert_eq!(ItemId::parse_native_uri("spotify:artist:q"), Ok(item(ItemKind::Artist, "q")));
    assert_eq!(ItemId::parse_native_uri("spotify:x"), Err(ParseError::MalformedUri));
}

#[test]
fn web_url_needs_http_scheme() {
    assert_eq!(
        ItemId::parse("ftp://open.spotify.com/track/x"),
        Err(ParseError::InvalidArgument)
    );
    assert_eq!(
        ItemId::parse("http://open.spotify.com/track/x"),
        Ok(item(ItemKind::Track, "x"))
    );
    assert_eq!(
        ItemId::parse("HTTPS://open.spotify.com/track/x"),
        Ok(item(ItemKind::Track, "x"))
    );
}
