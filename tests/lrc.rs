use beater::{check_payload, InnerLyrics, LyricWord, Lyrics, LyricsError, LyricsKind, LyricsLine};

fn doc(lines: Vec<(u32, Vec<&str>)>) -> Lyrics {
    Lyrics {
        lyrics: InnerLyrics {
            provider: "MusixMatch".to_string(),
            kind: LyricsKind::Line,
            track_id: "t".to_string(),
            lines: lines
                .into_iter()
                .map(|(time, words)| LyricsLine {
                    time,
                    text: words.into_iter().map(|w| LyricWord { text: w.to_string() }).collect(),
                })
                .collect(),
        },
    }
}

#[test]
fn one_line_two_words() {
    let d = doc(vec![(65000, vec!["hello", "world"])]);
    assert_eq!(d.into_lrc_file(), "[01:05]hello\n[01:05]world");
}

#[test]
fn milliseconds_are_truncated() {
    assert_eq!(doc(vec![(65999, vec!["x"])]).into_lrc_file(), "[01:05]x");
    assert_eq!(doc(vec![(999, vec!["x"])]).into_lrc_file(), "[00:00]x");
    assert_eq!(doc(vec![(3_599_999, vec!["x"])]).into_lrc_file(), "[59:59]x");
}

#[test]
fn minutes_beyond_two_digits() {
    assert_eq!(doc(vec![(6_000_000, vec!["x"])]).into_lrc_file(), "[100:00]x");
    assert_eq!(doc(vec![(u32::MAX, vec!["x"])]).into_lrc_file(), "[71582:47]x");
}

#[test]
fn lines_in_document_order() {
    let d = doc(vec![(0, vec!["a"]), (12_000, vec![]), (61_000, vec!["b", "c"])]);
    assert_eq!(d.into_lrc_file(), "[00:00]a\n[01:01]b\n[01:01]c");
}

#[test]
fn empty_document_is_empty_text() {
    assert_eq!(doc(vec![]).into_lrc_file(), "");
    assert_eq!(doc(vec![(5, vec![])]).into_lrc_file(), "");
}

#[test]
fn unrecognized_kind_still_formats() {
    let mut d = doc(vec![(10_000, vec!["w"])]);
    d.lyrics.kind = LyricsKind::Unrecognized;
    assert_eq!(d.into_lrc_file(), "[00:10]w");
}

#[test]
fn absent_or_empty_payload_is_not_found() {
    assert_eq!(check_payload(None), Err(LyricsError::NotFound));
    assert_eq!(check_payload(Some(vec![])), Err(LyricsError::NotFound));
    assert_eq!(check_payload(Some(b"{}".to_vec())), Ok(b"{}".to_vec()));
}
