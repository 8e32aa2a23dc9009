use vstd::prelude::*;

verus! {

/// A quality tier of an encoded track, ordered by nominal bitrate.
#[derive(Clone, Copy, Debug, PartialEq, Eq, Structural, Hash)]
pub enum AudioFormat {
    OggVorbis96,
    OggVorbis160,
    OggVorbis320,
}

impl AudioFormat {
    /// Nominal bitrate in kbps.
    pub open spec fn spec_kbps(self) -> nat {
        match self {
            AudioFormat::OggVorbis96 => 96,
            AudioFormat::OggVorbis160 => 160,
            AudioFormat::OggVorbis320 => 320,
        }
    }

    /// Nominal bitrate in kbps.
    pub fn kbps(&self) -> (r: u32)
        ensures
            r as nat == self.spec_kbps(),
    {
        match self {
            AudioFormat::OggVorbis96 => 96,
            AudioFormat::OggVorbis160 => 160,
            AudioFormat::OggVorbis320 => 320,
        }
    }

    /// The format whose nominal bitrate is `kbps`, if there is one.
    pub fn from_kbps(kbps: u32) -> (r: Option<AudioFormat>)
        ensures
            r matches Some(f) ==> f.spec_kbps() == kbps as nat,
            r is None <==> !(kbps == 96 || kbps == 160 || kbps == 320),
    {
        if kbps == 96 {
            Some(AudioFormat::OggVorbis96)
        } else if kbps == 160 {
            Some(AudioFormat::OggVorbis160)
        } else if kbps == 320 {
            Some(AudioFormat::OggVorbis320)
        } else {
            None
        }
    }
}

/// Content-addressed handle of one encoded variant of one track.
#[derive(Clone, Copy, Debug, Hash)]
pub struct FileId(pub [u8; 20]);

impl PartialEq for FileId {
    fn eq(&self, other: &FileId) -> (r: bool) {
        let mut i: usize = 0;
        while i < 20
            invariant
                0 <= i <= 20,
                forall|j: int| 0 <= j < i ==> self.0@[j] == other.0@[j],
            decreases 20 - i,
        {
            if self.0[i] != other.0[i] {
                return false;
            }
            i = i + 1;
        }
        assert(self.0 =~= other.0);
        true
    }
}

impl vstd::std_specs::cmp::PartialEqSpecImpl for FileId {
    open spec fn obeys_eq_spec() -> bool {
        true
    }

    open spec fn eq_spec(&self, other: &FileId) -> bool {
        *self == *other
    }
}

impl Eq for FileId {
}

/// The encoded variants of one track: at most one file per format, possibly none.
#[derive(Clone, Copy, Debug)]
pub struct FileVariant {
    pub ogg_96: Option<FileId>,
    pub ogg_160: Option<FileId>,
    pub ogg_320: Option<FileId>,
}

impl FileVariant {
    /// The file stored for `format`.
    pub open spec fn spec_get(self, format: AudioFormat) -> Option<FileId> {
        match format {
            AudioFormat::OggVorbis96 => self.ogg_96,
            AudioFormat::OggVorbis160 => self.ogg_160,
            AudioFormat::OggVorbis320 => self.ogg_320,
        }
    }

    pub open spec fn has(self, format: AudioFormat) -> bool {
        self.spec_get(format) is Some
    }

    /// The formats present, in ascending order of bitrate.
    pub open spec fn spec_formats(self) -> Seq<AudioFormat> {
        (if self.has(AudioFormat::OggVorbis96) {
            seq![AudioFormat::OggVorbis96]
        } else {
            Seq::empty()
        }) + (if self.has(AudioFormat::OggVorbis160) {
            seq![AudioFormat::OggVorbis160]
        } else {
            Seq::empty()
        }) + (if self.has(AudioFormat::OggVorbis320) {
            seq![AudioFormat::OggVorbis320]
        } else {
            Seq::empty()
        })
    }

    pub open spec fn is_empty_spec(self) -> bool {
        !self.has(AudioFormat::OggVorbis96) && !self.has(AudioFormat::OggVorbis160)
            && !self.has(AudioFormat::OggVorbis320)
    }

    /// The present format of highest bitrate.
    pub open spec fn highest(self) -> Option<AudioFormat> {
        if self.has(AudioFormat::OggVorbis320) {
            Some(AudioFormat::OggVorbis320)
        } else if self.has(AudioFormat::OggVorbis160) {
            Some(AudioFormat::OggVorbis160)
        } else if self.has(AudioFormat::OggVorbis96) {
            Some(AudioFormat::OggVorbis96)
        } else {
            None
        }
    }

    /// The present format of lowest bitrate.
    pub open spec fn lowest(self) -> Option<AudioFormat> {
        if self.has(AudioFormat::OggVorbis96) {
            Some(AudioFormat::OggVorbis96)
        } else if self.has(AudioFormat::OggVorbis160) {
            Some(AudioFormat::OggVorbis160)
        } else if self.has(AudioFormat::OggVorbis320) {
            Some(AudioFormat::OggVorbis320)
        } else {
            None
        }
    }

    /// A track with no encoded variant.
    pub fn new() -> (r: FileVariant)
        ensures
            r.is_empty_spec(),
    {
        FileVariant { ogg_96: None, ogg_160: None, ogg_320: None }
    }

    /// Records `file` as the variant for `format`, replacing any earlier one.
    pub fn insert(&mut self, format: AudioFormat, file: FileId)
        ensures
            final(self).spec_get(format) == Some(file),
            forall|g: AudioFormat| g != format ==> final(self).spec_get(g) == old(self).spec_get(g),
    {
        match format {
            AudioFormat::OggVorbis96 => self.ogg_96 = Some(file),
            AudioFormat::OggVorbis160 => self.ogg_160 = Some(file),
            AudioFormat::OggVorbis320 => self.ogg_320 = Some(file),
        }
    }

    /// The file recorded for `format`.
    pub fn get(&self, format: AudioFormat) -> (r: Option<FileId>)
        ensures
            r == self.spec_get(format),
    {
        match format {
            AudioFormat::OggVorbis96 => self.ogg_96,
            AudioFormat::OggVorbis160 => self.ogg_160,
            AudioFormat::OggVorbis320 => self.ogg_320,
        }
    }

    /// The formats present, in ascending order of bitrate.
    pub fn formats(&self) -> (r: Vec<AudioFormat>)
        ensures
            r@ == self.spec_formats(),
    {
        let mut r: Vec<AudioFormat> = Vec::new();
        if self.ogg_96.is_some() {
            r.push(AudioFormat::OggVorbis96);
        }
        if self.ogg_160.is_some() {
            r.push(AudioFormat::OggVorbis160);
        }
        if self.ogg_320.is_some() {
            r.push(AudioFormat::OggVorbis320);
        }
        assert(r@ =~= self.spec_formats());
        r
    }
}

/// Why no variant could be selected: the format asked for (if any) and the formats
/// that exist, in ascending order of bitrate.
#[derive(Clone, Debug, PartialEq, Eq)]
pub struct FormatNotFound {
    pub requested: Option<AudioFormat>,
    pub available: Vec<AudioFormat>,
}

/// The format that selection settles on, before it is looked up.
pub open spec fn spec_choice(
    available: FileVariant,
    requested: Option<AudioFormat>,
    is_premium: bool,
) -> Option<AudioFormat> {
    match requested {
        Some(f) => if available.has(f) {
            Some(f)
        } else {
            None
        },
        None => if is_premium {
            available.highest()
        } else if available.has(AudioFormat::OggVorbis160) {
            Some(AudioFormat::OggVorbis160)
        } else {
            available.lowest()
        },
    }
}

/// Chooses the variant to download. An explicit request is honoured or refused, never
/// substituted; without one, a premium account gets the highest bitrate present and any
/// other account the 160 kbps variant, or the lowest present when that is missing.
pub fn select(available: &FileVariant, requested: Option<AudioFormat>, is_premium: bool) -> (r:
    Result<(AudioFormat, FileId), FormatNotFound>)
    ensures
        match spec_choice(*available, requested, is_premium) {
            Some(f) => r == Ok::<(AudioFormat, FileId), FormatNotFound>(
                (f, available.spec_get(f)->0),
            ),
            None => r matches Err(e) && e.requested == requested && e.available@
                == available.spec_formats(),
        },
{
    let choice = match requested {
        Some(f) => if available.get(f).is_some() {
            Some(f)
        } else {
            None
        },
        None => if is_premium {
            if available.ogg_320.is_some() {
                Some(AudioFormat::OggVorbis320)
            } else if available.ogg_160.is_some() {
                Some(AudioFormat::OggVorbis160)
            } else if available.ogg_96.is_some() {
                Some(AudioFormat::OggVorbis96)
            } else {
                None
            }
        } else if available.ogg_160.is_some() {
            Some(AudioFormat::OggVorbis160)
        } else if available.ogg_96.is_some() {
            Some(AudioFormat::OggVorbis96)
        } else if available.ogg_320.is_some() {
            Some(AudioFormat::OggVorbis320)
        } else {
            None
        },
    };
    match choice {
        Some(f) => match available.get(f) {
            Some(file) => Ok((f, file)),
            None => Err(FormatNotFound { requested, available: available.formats() }),
        },
        None => Err(FormatNotFound { requested, available: available.formats() }),
    }
}

} // verus!
