use vstd::prelude::*;
use crate::decrypt::{audio_keystream, decrypt, DecryptError, DecryptionKey, ENCRYPTED_HEADER_SIZE};
use crate::format::{select, spec_choice, AudioFormat, FileId, FileVariant, FormatNotFound};
use crate::id::ItemId;
use crate::lyrics::{check_payload, lrc_text, Lyrics, LyricsError};

verus! {

/// Why a track job failed.
#[derive(Clone, Debug, PartialEq, Eq)]
pub enum TrackError {
    /// The track's metadata could not be resolved.
    Metadata,
    /// No variant fits the request.
    Format(FormatNotFound),
    /// The CDN did not resolve the file to a usable URL.
    CdnResolution,
    /// Downloading the encrypted file failed.
    Fetch,
    /// The key service refused the key, most often for a quality the account may not use.
    Key,
    Decrypt(DecryptError),
    Lyrics(LyricsError),
    /// An event came that the job was not waiting for.
    Unexpected,
}

/// Where a track job stands, and what it holds so far.
#[derive(Clone, Debug, PartialEq, Eq)]
pub enum Stage {
    /// Waiting for the track's metadata.
    Resolving,
    /// Waiting for the answer to a cache claim on the selected file.
    Claiming { file: FileId },
    /// Holding the claim, waiting for the encrypted file.
    Fetching { file: FileId },
    /// Holding the claim and the encrypted file, waiting for the key.
    KeyRequesting { file: FileId, blob: Vec<u8> },
    /// Waiting for the decrypted audio to be stored in the cache.
    Storing { file: FileId, audio: Vec<u8> },
    /// Waiting for the lyrics service's answer.
    LyricsFetching { file: FileId, audio: Vec<u8> },
    /// Waiting for the lyrics payload to be decoded.
    LyricsDecoding { file: FileId, audio: Vec<u8> },
    /// Finished: the audio, and the LRC text where the track has lyrics.
    Done { file: FileId, audio: Vec<u8>, lyrics: Option<String> },
    /// Finished without a result.
    Failed { error: TrackError },
}

/// What the outside world reports to a job.
#[derive(Clone, Debug)]
pub enum Event {
    Metadata { files: FileVariant, has_lyrics: bool },
    MetadataFailed,
    CacheHit { audio: Vec<u8> },
    CacheMiss,
    Fetched { blob: Vec<u8> },
    CdnResolutionFailed,
    FetchFailed,
    KeyReceived { key: DecryptionKey },
    KeyFailed,
    Stored,
    LyricsPayload { payload: Option<Vec<u8>> },
    LyricsDecoded { lyrics: Option<Lyrics> },
}

/// What a job asks the outside world to do next.
#[derive(Clone, Debug, PartialEq, Eq)]
pub enum Action {
    /// Resolve the track's metadata.
    FetchMetadata,
    /// Claim the file in the shared cache.
    Claim { file: FileId },
    /// Resolve the file's CDN URL and download it.
    Fetch { file: FileId },
    /// Request the key for the track and the file.
    RequestKey { file: FileId },
    /// Fulfil the claim on the file with the decrypted audio.
    Store { file: FileId, audio: Vec<u8> },
    /// Fetch the track's lyrics.
    FetchLyrics,
    /// Decode a lyrics payload into a document.
    DecodeLyrics { payload: Vec<u8> },
    /// Abandon the claim on the file: the job failed while holding it.
    Release { file: FileId },
    /// Nothing more to do: the job is done or failed.
    Finish,
}

/// One run of the audio pipeline for one track, from metadata to decrypted audio and lyrics.
#[derive(Clone, Debug)]
pub struct TrackJob {
    pub track: ItemId,
    pub requested: Option<AudioFormat>,
    pub premium: bool,
    pub has_lyrics: bool,
    pub stage: Stage,
}

/// The file whose cache claim a job holds in `stage`, if any.
pub open spec fn held_claim(stage: Stage) -> Option<FileId> {
    match stage {
        Stage::Fetching { file } => Some(file),
        Stage::KeyRequesting { file, .. } => Some(file),
        _ => None,
    }
}

/// The stage and action that follow decrypted audio: lyrics next where the track has them.
pub open spec fn after_audio(has_lyrics: bool, file: FileId, audio: Vec<u8>) -> (Stage, Action) {
    if has_lyrics {
        (Stage::LyricsFetching { file, audio }, Action::FetchLyrics)
    } else {
        (Stage::Done { file, audio, lyrics: None }, Action::Finish)
    }
}

/// How a job that failed in `stage` ends: its claim, if it holds one, is released.
pub open spec fn fail_in(stage: Stage, error: TrackError) -> (Stage, Action) {
    (Stage::Failed { error }, match held_claim(stage) {
        Some(file) => Action::Release { file },
        None => Action::Finish,
    })
}

/// Whether `next` stores, for `file`, the audio that `key` decrypts from `blob`.
pub open spec fn stores_decrypted(next: (Stage, Action), file: FileId, key: DecryptionKey, blob: Vec<u8>) -> bool {
    match next.0 {
        Stage::Storing { file: f, audio } => f == file && audio@ == audio_keystream(
            key.0@,
            blob@,
        ).subrange(ENCRYPTED_HEADER_SIZE as int, blob@.len() as int) && match next.1 {
            Action::Store { file: g, audio: a } => g == file && a@ == audio@,
            _ => false,
        },
        _ => false,
    }
}

/// Whether `next`, reached from `job` on `event`, is the transition that the pipeline prescribes.
pub open spec fn transition(job: TrackJob, event: Event, next: (Stage, Action)) -> bool {
    match job.stage {
        Stage::Resolving => match event {
            Event::Metadata { files, has_lyrics } => match spec_choice(
                files,
                job.requested,
                job.premium,
            ) {
                Some(f) => next == (
                    Stage::Claiming { file: files.spec_get(f)->0 },
                    Action::Claim { file: files.spec_get(f)->0 },
                ),
                None => next.1 == Action::Finish && (next.0 matches Stage::Failed {
                    error: TrackError::Format(e),
                } && e.requested == job.requested && e.available@ == files.spec_formats()),
            },
            Event::MetadataFailed => next == fail_in(job.stage, TrackError::Metadata),
            _ => next == fail_in(job.stage, TrackError::Unexpected),
        },
        Stage::Claiming { file } => match event {
            Event::CacheHit { audio } => next == after_audio(job.has_lyrics, file, audio),
            Event::CacheMiss => next == (Stage::Fetching { file }, Action::Fetch { file }),
            _ => next == fail_in(job.stage, TrackError::Unexpected),
        },
        Stage::Fetching { file } => match event {
            Event::Fetched { blob } => next == (
                Stage::KeyRequesting { file, blob },
                Action::RequestKey { file },
            ),
            Event::CdnResolutionFailed => next == fail_in(job.stage, TrackError::CdnResolution),
            Event::FetchFailed => next == fail_in(job.stage, TrackError::Fetch),
            _ => next == fail_in(job.stage, TrackError::Unexpected),
        },
        Stage::KeyRequesting { file, blob } => match event {
            Event::KeyReceived { key } => if blob@.len() < ENCRYPTED_HEADER_SIZE {
                next == fail_in(job.stage, TrackError::Decrypt(DecryptError::TooShort))
            } else {
                stores_decrypted(next, file, key, blob)
            },
            Event::KeyFailed => next == fail_in(job.stage, TrackError::Key),
            _ => next == fail_in(job.stage, TrackError::Unexpected),
        },
        Stage::Storing { file, audio } => match event {
            Event::Stored => next == after_audio(job.has_lyrics, file, audio),
            _ => next == fail_in(job.stage, TrackError::Unexpected),
        },
        Stage::LyricsFetching { file, audio } => match event {
            Event::LyricsPayload { payload } => match payload {
                Some(b) => if b@.len() > 0 {
                    next == (Stage::LyricsDecoding { file, audio }, Action::DecodeLyrics {
                        payload: b,
                    })
                } else {
                    next == fail_in(job.stage, TrackError::Lyrics(LyricsError::NotFound))
                },
                None => next == fail_in(job.stage, TrackError::Lyrics(LyricsError::NotFound)),
            },
            _ => next == fail_in(job.stage, TrackError::Unexpected),
        },
        Stage::LyricsDecoding { file, audio } => match event {
            Event::LyricsDecoded { lyrics } => match lyrics {
                Some(l) => next.1 == Action::Finish && (next.0 matches Stage::Done {
                    file: f,
                    audio: a,
                    lyrics: Some(t),
                } && f == file && a == audio && t@ == lrc_text(l.lyrics.lines@)),
                None => next == fail_in(job.stage, TrackError::Lyrics(LyricsError::Parse)),
            },
            _ => next == fail_in(job.stage, TrackError::Unexpected),
        },
        Stage::Done { .. } => next == (job.stage, Action::Finish),
        Stage::Failed { .. } => next == (job.stage, Action::Finish),
    }
}

/// The job's lyrics flag after `event`: set from the metadata, unchanged otherwise.
pub open spec fn flag_after(job: TrackJob, event: Event) -> bool {
    match (job.stage, event) {
        (Stage::Resolving, Event::Metadata { has_lyrics, .. }) => has_lyrics,
        _ => job.has_lyrics,
    }
}

/// Whether `event` is metadata that flags the track as having lyrics.
pub open spec fn flags_lyrics(event: Event) -> bool {
    match event {
        Event::Metadata { has_lyrics, .. } => has_lyrics,
        _ => false,
    }
}

/// Whether `next` and `action` are what `step` may give for `job` on `event`.
pub open spec fn steps_to(job: TrackJob, event: Event, next: TrackJob, action: Action) -> bool {
    next.has_lyrics == flag_after(job, event) && transition(job, event, (next.stage, action))
}

/// Whether `jobs`, `events` and `actions` are a run of successive steps: job `i` on event `i`
/// gives job `i + 1` and action `i`.
pub open spec fn is_run(jobs: Seq<TrackJob>, events: Seq<Event>, actions: Seq<Action>) -> bool {
    &&& jobs.len() == events.len() + 1
    &&& actions.len() == events.len()
    &&& forall|i: int|
        0 <= i < events.len() ==> #[trigger] steps_to(jobs[i], events[i], jobs[i + 1], actions[i])
}

proof fn lemma_fetch_lyrics_needs_flag(job: TrackJob, event: Event, next: (Stage, Action))
    requires
        transition(job, event, next),
        next.1 == Action::FetchLyrics,
    ensures
        job.has_lyrics,
{
}

proof fn lemma_flag_stays_clear(
    jobs: Seq<TrackJob>,
    events: Seq<Event>,
    actions: Seq<Action>,
    k: int,
)
    requires
        is_run(jobs, events, actions),
        !jobs[0].has_lyrics,
        forall|i: int| 0 <= i < events.len() ==> !flags_lyrics(#[trigger] events[i]),
        0 <= k <= events.len(),
    ensures
        !jobs[k].has_lyrics,
    decreases k,
{
    if k > 0 {
        lemma_flag_stays_clear(jobs, events, actions, k - 1);
        let j = k - 1;
        assert(steps_to(jobs[j], events[j], jobs[j + 1], actions[j]));
        assert(!flags_lyrics(events[j]));
    }
}

/// A run for a track whose metadata never flags lyrics never asks for them.
pub proof fn lemma_no_lyrics_fetch_without_flag(
    jobs: Seq<TrackJob>,
    events: Seq<Event>,
    actions: Seq<Action>,
)
    requires
        is_run(jobs, events, actions),
        !jobs[0].has_lyrics,
        forall|i: int| 0 <= i < events.len() ==> !flags_lyrics(#[trigger] events[i]),
    ensures
        forall|i: int| 0 <= i < actions.len() ==> #[trigger] actions[i] != Action::FetchLyrics,
{
    assert forall|i: int| 0 <= i < actions.len() implies #[trigger] actions[i]
        != Action::FetchLyrics by {
        lemma_flag_stays_clear(jobs, events, actions, i);
        assert(steps_to(jobs[i], events[i], jobs[i + 1], actions[i]));
        if actions[i] == Action::FetchLyrics {
            lemma_fetch_lyrics_needs_flag(jobs[i], events[i], (jobs[i + 1].stage, actions[i]));
        }
    }
}

fn fail(stage: Stage, error: TrackError) -> (r: (Stage, Action))
    ensures
        r == fail_in(stage, error),
{
    let action = match stage {
        Stage::Fetching { file } => Action::Release { file },
        Stage::KeyRequesting { file, .. } => Action::Release { file },
        _ => Action::Finish,
    };
    (Stage::Failed { error }, action)
}

fn continue_with_audio(has_lyrics: bool, file: FileId, audio: Vec<u8>) -> (r: (Stage, Action))
    ensures
        r == after_audio(has_lyrics, file, audio),
{
    if has_lyrics {
        (Stage::LyricsFetching { file, audio }, Action::FetchLyrics)
    } else {
        (Stage::Done { file, audio, lyrics: None }, Action::Finish)
    }
}

impl TrackJob {
    /// A job for `track`, and its first action: resolving the track's metadata.
    pub fn new(track: ItemId, requested: Option<AudioFormat>, premium: bool) -> (r: (TrackJob, Action))
        ensures
            r.0.track == track,
            r.0.requested == requested,
            r.0.premium == premium,
            !r.0.has_lyrics,
            r.0.stage == Stage::Resolving,
            r.1 == Action::FetchMetadata,
    {
        (TrackJob { track, requested, premium, has_lyrics: false, stage: Stage::Resolving }, Action::FetchMetadata)
    }

    /// Advances the job on one event: the next stage and what to do next. Lyrics are fetched
    /// only for a track whose metadata says it has them, and a job that fails while holding a
    /// cache claim releases it.
    pub fn step(self, event: Event) -> (r: (TrackJob, Action))
        ensures
            r.0.track == self.track,
            r.0.requested == self.requested,
            r.0.premium == self.premium,
            r.0.has_lyrics == flag_after(self, event),
            r.1 == Action::FetchLyrics ==> r.0.has_lyrics,
            transition(self, event, (r.0.stage, r.1)),
    {
        let TrackJob { track, requested, premium, has_lyrics, stage } = self;
        let mut has_lyrics = has_lyrics;
        let (next, action) = match stage {
            Stage::Resolving => match event {
                Event::Metadata { files, has_lyrics: flag } => {
                    has_lyrics = flag;
                    match select(&files, requested, premium) {
                        Ok((_, file)) => (Stage::Claiming { file }, Action::Claim { file }),
                        Err(e) => (Stage::Failed { error: TrackError::Format(e) }, Action::Finish),
                    }
                },
                Event::MetadataFailed => fail(stage, TrackError::Metadata),
                _ => fail(stage, TrackError::Unexpected),
            },
            Stage::Claiming { file } => match event {
                Event::CacheHit { audio } => continue_with_audio(has_lyrics, file, audio),
                Event::CacheMiss => (Stage::Fetching { file }, Action::Fetch { file }),
                _ => fail(stage, TrackError::Unexpected),
            },
            Stage::Fetching { file } => match event {
                Event::Fetched { blob } => (Stage::KeyRequesting { file, blob }, Action::RequestKey { file }),
                Event::CdnResolutionFailed => fail(stage, TrackError::CdnResolution),
                Event::FetchFailed => fail(stage, TrackError::Fetch),
                _ => fail(stage, TrackError::Unexpected),
            },
            Stage::KeyRequesting { file, blob } => match event {
                Event::KeyReceived { key } => {
                    match decrypt(&key, blob) {
                        Ok(audio) => {
                            let copy = audio.clone();
                            assert(copy@ =~= audio@);
                            (Stage::Storing { file, audio }, Action::Store { file, audio: copy })
                        },
                        Err(e) => (Stage::Failed { error: TrackError::Decrypt(e) }, Action::Release { file }),
                    }
                },
                Event::KeyFailed => (Stage::Failed { error: TrackError::Key }, Action::Release { file }),
                _ => (Stage::Failed { error: TrackError::Unexpected }, Action::Release { file }),
            },
            Stage::Storing { file, audio } => match event {
                Event::Stored => continue_with_audio(has_lyrics, file, audio),
                _ => (Stage::Failed { error: TrackError::Unexpected }, Action::Finish),
            },
            Stage::LyricsFetching { file, audio } => match event {
                Event::LyricsPayload { payload } => match check_payload(payload) {
                    Ok(bytes) => (Stage::LyricsDecoding { file, audio }, Action::DecodeLyrics { payload: bytes }),
                    Err(e) => (Stage::Failed { error: TrackError::Lyrics(e) }, Action::Finish),
                },
                _ => (Stage::Failed { error: TrackError::Unexpected }, Action::Finish),
            },
            Stage::LyricsDecoding { file, audio } => match event {
                Event::LyricsDecoded { lyrics } => match lyrics {
                    Some(doc) => {
                        let text = doc.into_lrc_file();
                        (Stage::Done { file, audio, lyrics: Some(text) }, Action::Finish)
                    },
                    None => (Stage::Failed { error: TrackError::Lyrics(LyricsError::Parse) }, Action::Finish),
                },
                _ => (Stage::Failed { error: TrackError::Unexpected }, Action::Finish),
            },
            Stage::Done { file, audio, lyrics } => (Stage::Done { file, audio, lyrics }, Action::Finish),
            Stage::Failed { error } => (Stage::Failed { error }, Action::Finish),
        };
        (TrackJob { track, requested, premium, has_lyrics, stage: next }, action)
    }
}

} // verus!
