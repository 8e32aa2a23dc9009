//! Acquisition of encrypted audio from a streaming service: identifier parsing, format
//! selection, stream decryption, a decrypted-content cache, the per-track pipeline that
//! ties them together, and conversion of time-coded lyrics into LRC text.

pub mod beater;
pub mod cache;
pub mod credentials;
pub mod decrypt;
pub mod format;
pub mod id;
pub mod lyrics;
pub mod naming;
pub mod pipeline;

pub use beater::{tier_from_attribute, AccountTier, Beater};
pub use cache::{Claim, ContentCache};
pub use credentials::{plan_credentials, Credentials, CredentialsFailure, CredentialsFile, CredentialsPlan};
pub use decrypt::{decrypt, strip_header, DecryptError, DecryptionKey, ENCRYPTED_HEADER_SIZE};
pub use format::{select, AudioFormat, FileId, FileVariant, FormatNotFound};
pub use id::{ItemId, ItemKind, ParseError, UrlParts};
pub use lyrics::{check_payload, InnerLyrics, LyricWord, Lyrics, LyricsError, LyricsKind, LyricsLine};
pub use naming::output_stem;
pub use pipeline::{Action, Event, Stage, TrackError, TrackJob};
