use beater::{
    decrypt, Action, AudioFormat, DecryptError, DecryptionKey, Event, FileId, FileVariant,
    FormatNotFound, InnerLyrics, ItemId, ItemKind, LyricWord, Lyrics, LyricsError, LyricsKind,
    LyricsLine, Stage, TrackError, TrackJob,
};

fn track() -> ItemId {
    ItemId { kind: ItemKind::Track, id: "2QTDuJIGKUjR7E2Q6KupIh".to_string() }
}

fn files() -> FileVariant {
    let mut v = FileVariant::new();
    v.insert(AudioFormat::OggVorbis160, FileId([16; 20]));
    v.insert(AudioFormat::OggVorbis320, FileId([32; 20]));
    v
}

fn key() -> DecryptionKey {
    DecryptionKey([7; 16])
}

fn lyrics() -> Lyrics {
    Lyrics {
        lyrics: InnerLyrics {
            provider: "p".to_string(),
            kind: LyricsKind::Line,
            track_id: "t".to_string(),
            lines: vec![LyricsLine {
                time: 65000,
                text: vec![LyricWord { text: "hello".to_string() }],
            }],
        },
    }
}

fn start(premium: bool, has_lyrics: bool) -> TrackJob {
    let (job, action) = TrackJob::new(track(), None, premium);
    assert_eq!(action, Action::FetchMetadata);
    let (job, action) = job.step(Event::Metadata { files: files(), has_lyrics });
    let file = if premium { FileId([32; 20]) } else { FileId([16; 20]) };
    assert_eq!(action, Action::Claim { file });
    job
}

#[test]
fn full_run_without_lyrics_never_fetches_them() {
    let job = start(false, false);
    let file = FileId([16; 20]);
    let (job, action) = job.step(Event::CacheMiss);
    assert_eq!(action, Action::Fetch { file });
    let blob = vec![3u8; 400];
    let (job, action) = job.step(Event::Fetched { blob: blob.clone() });
    assert_eq!(action, Action::RequestKey { file });
    let (job, action) = job.step(Event::KeyReceived { key: key() });
    let expected = decrypt(&key(), blob).unwrap();
    assert_eq!(action, Action::Store { file, audio: expected.clone() });
    let (job, action) = job.step(Event::Stored);
    assert_eq!(action, Action::Finish);
    assert_eq!(job.stage, Stage::Done { file, audio: expected, lyrics: None });
}

#[test]
fn cache_hit_with_lyrics_formats_them() {
    let job = start(true, true);
    let file = FileId([32; 20]);
    let (job, action) = job.step(Event::CacheHit { audio: vec![1, 2] });
    assert_eq!(action, Action::FetchLyrics);
    let (job, action) = job.step(Event::LyricsPayload { payload: Some(b"{}".to_vec()) });
    assert_eq!(action, Action::DecodeLyrics { payload: b"{}".to_vec() });
    let (job, action) = job.step(Event::LyricsDecoded { lyrics: Some(lyrics()) });
    assert_eq!(action, Action::Finish);
    assert_eq!(
        job.stage,
        Stage::Done { file, audio: vec![1, 2], lyrics: Some("[01:05]hello".to_string()) }
    );
}

#[test]
fn flagged_track_with_absent_lyrics_is_not_found() {
    let job = start(false, true);
    let (job, _) = job.step(Event::CacheHit { audio: vec![1] });
    let (done, action) = job.clone().step(Event::LyricsPayload { payload: None });
    assert_eq!(action, Action::Finish);
    assert_eq!(done.stage, Stage::Failed { error: TrackError::Lyrics(LyricsError::NotFound) });
    let (done, _) = job.step(Event::LyricsPayload { payload: Some(vec![]) });
    assert_eq!(done.stage, Stage::Failed { error: TrackError::Lyrics(LyricsError::NotFound) });
}

#[test]
fn undecodable_lyrics_are_a_parse_error() {
    let job = start(false, true);
    let (job, _) = job.step(Event::CacheHit { audio: vec![1] });
    let (job, _) = job.step(Event::LyricsPayload { payload: Some(b"<html>".to_vec()) });
    let (job, action) = job.step(Event::LyricsDecoded { lyrics: None });
    assert_eq!(action, Action::Finish);
    assert_eq!(job.stage, Stage::Failed { error: TrackError::Lyrics(LyricsError::Parse) });
}

#[test]
fn failures_while_holding_a_claim_release_it() {
    let file = FileId([16; 20]);
    let fetching = start(false, false).step(Event::CacheMiss).0;
    let (job, action) = fetching.clone().step(Event::CdnResolutionFailed);
    assert_eq!(action, Action::Release { file });
    assert_eq!(job.stage, Stage::Failed { error: TrackError::CdnResolution });
    let (job, action) = fetching.clone().step(Event::FetchFailed);
    assert_eq!(action, Action::Release { file });
    assert_eq!(job.stage, Stage::Failed { error: TrackError::Fetch });
    let keyed = fetching.step(Event::Fetched { blob: vec![0; 10] }).0;
    let (job, action) = keyed.clone().step(Event::KeyFailed);
    assert_eq!(action, Action::Release { file });
    assert_eq!(job.stage, Stage::Failed { error: TrackError::Key });
    let (job, action) = keyed.step(Event::KeyReceived { key: key() });
    assert_eq!(action, Action::Release { file });
    assert_eq!(job.stage, Stage::Failed { error: TrackError::Decrypt(DecryptError::TooShort) });
}

#[test]
fn missing_requested_format_fails_selection() {
    let (job, _) = TrackJob::new(track(), Some(AudioFormat::OggVorbis96), true);
    let (job, action) = job.step(Event::Metadata { files: files(), has_lyrics: true });
    assert_eq!(action, Action::Finish);
    assert_eq!(
        job.stage,
        Stage::Failed {
            error: TrackError::Format(FormatNotFound {
                requested: Some(AudioFormat::OggVorbis96),
                available: vec![AudioFormat::OggVorbis160, AudioFormat::OggVorbis320],
            })
        }
    );
}

#[test]
fn metadata_failure_and_unexpected_events() {
    let (job, _) = TrackJob::new(track(), None, false);
    let (failed, action) = job.clone().step(Event::MetadataFailed);
    assert_eq!(action, Action::Finish);
    assert_eq!(failed.stage, Stage::Failed { error: TrackError::Metadata });
    let (odd, action) = job.step(Event::Stored);
    assert_eq!(action, Action::Finish);
    assert_eq!(odd.stage, Stage::Failed { error: TrackError::Unexpected });
    let (still, action) = odd.clone().step(Event::CacheMiss);
    assert_eq!(action, Action::Finish);
    assert_eq!(still.stage, odd.stage);
}
