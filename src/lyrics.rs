use vstd::prelude::*;

verus! {

/// A lyrics document as the lyrics service describes a track.
#[derive(Clone, Debug, PartialEq, Eq, PartialOrd, Ord)]
pub struct Lyrics {
    pub lyrics: InnerLyrics,
}

/// The body of a lyrics document.
#[derive(Clone, Debug, PartialEq, Eq, PartialOrd, Ord)]
pub struct InnerLyrics {
    pub provider: String,
    pub kind: LyricsKind,
    pub track_id: String,
    pub lines: Vec<LyricsLine>,
}

/// One time-coded line: its start in milliseconds and its words in order.
#[derive(Clone, Debug, PartialEq, Eq, PartialOrd, Ord)]
pub struct LyricsLine {
    pub text: Vec<LyricWord>,
    pub time: u32,
}

/// One word token of a line.
#[derive(Clone, Debug, PartialEq, Eq, PartialOrd, Ord)]
pub struct LyricWord {
    pub text: String,
}

/// How a document is synchronised. Kinds other than line-synced are kept, not rejected.
#[derive(Clone, Copy, Debug, PartialEq, Eq, Structural, PartialOrd, Ord, Hash)]
pub enum LyricsKind {
    Line,
    Unrecognized,
}

/// Why no lyrics document could be had for a track.
#[derive(Clone, Copy, Debug, PartialEq, Eq, Structural, Hash)]
pub enum LyricsError {
    /// The service has no lyrics for the track.
    NotFound,
    /// The service answered with something that is not a lyrics document.
    Parse,
}

/// The decimal digit `d` as a character.
pub open spec fn digit_char(d: nat) -> char {
    if d == 0 {
        '0'
    } else if d == 1 {
        '1'
    } else if d == 2 {
        '2'
    } else if d == 3 {
        '3'
    } else if d == 4 {
        '4'
    } else if d == 5 {
        '5'
    } else if d == 6 {
        '6'
    } else if d == 7 {
        '7'
    } else if d == 8 {
        '8'
    } else {
        '9'
    }
}

/// The decimal notation of `n`, without leading zeros.
pub open spec fn decimal(n: nat) -> Seq<char>
    decreases n,
{
    if n < 10 {
        seq![digit_char(n)]
    } else {
        decimal(n / 10).push(digit_char(n % 10))
    }
}

/// The decimal notation of `n`, zero-padded to at least two digits.
pub open spec fn two_digits(n: nat) -> Seq<char> {
    if n < 10 {
        seq!['0', digit_char(n)]
    } else {
        decimal(n)
    }
}

/// `[mm:ss]` for a time in milliseconds: whole seconds, truncated, split into minutes and seconds.
pub open spec fn timestamp(ms: u32) -> Seq<char> {
    let secs = ms as nat / 1000;
    seq!['['] + two_digits(secs / 60) + seq![':'] + two_digits(secs % 60) + seq![']']
}

/// The LRC entries of one line: every word under the line's timestamp.
pub open spec fn line_entries(line: LyricsLine) -> Seq<Seq<char>> {
    line.text@.map_values(|w: LyricWord| timestamp(line.time) + w.text@)
}

/// The LRC entries of a sequence of lines, in document order.
pub open spec fn entries(lines: Seq<LyricsLine>) -> Seq<Seq<char>>
    decreases lines.len(),
{
    if lines.len() == 0 {
        Seq::empty()
    } else {
        entries(lines.drop_last()) + line_entries(lines.last())
    }
}

/// The parts joined by single newlines, with none after the last.
pub open spec fn join_lines(parts: Seq<Seq<char>>) -> Seq<char>
    decreases parts.len(),
{
    if parts.len() == 0 {
        Seq::empty()
    } else if parts.len() == 1 {
        parts[0]
    } else {
        join_lines(parts.drop_last()) + seq!['\n'] + parts.last()
    }
}

/// The LRC text of a sequence of lines.
pub open spec fn lrc_text(lines: Seq<LyricsLine>) -> Seq<char> {
    join_lines(entries(lines))
}

proof fn lemma_join_push(parts: Seq<Seq<char>>, e: Seq<char>)
    ensures
        join_lines(parts.push(e)) == if parts.len() == 0 {
            e
        } else {
            join_lines(parts) + seq!['\n'] + e
        },
{
    assert(parts.push(e).drop_last() =~= parts);
}

fn digit_str(d: u32) -> (r: &'static str)
    requires
        d < 10,
    ensures
        r@ == seq![digit_char(d as nat)],
{
    proof {
        reveal_strlit("0");
        reveal_strlit("1");
        reveal_strlit("2");
        reveal_strlit("3");
        reveal_strlit("4");
        reveal_strlit("5");
        reveal_strlit("6");
        reveal_strlit("7");
        reveal_strlit("8");
        reveal_strlit("9");
    }
    if d == 0 {
        "0"
    } else if d == 1 {
        "1"
    } else if d == 2 {
        "2"
    } else if d == 3 {
        "3"
    } else if d == 4 {
        "4"
    } else if d == 5 {
        "5"
    } else if d == 6 {
        "6"
    } else if d == 7 {
        "7"
    } else if d == 8 {
        "8"
    } else {
        "9"
    }
}

fn append_decimal(out: &mut String, n: u32)
    ensures
        final(out)@ == old(out)@ + decimal(n as nat),
    decreases n,
{
    if n < 10 {
        out.append(digit_str(n));
    } else {
        append_decimal(out, n / 10);
        out.append(digit_str(n % 10));
    }
}

fn append_two_digits(out: &mut String, n: u32)
    ensures
        final(out)@ == old(out)@ + two_digits(n as nat),
{
    if n < 10 {
        out.append(digit_str(0));
        out.append(digit_str(n));
        assert(final(out)@ =~= old(out)@ + two_digits(n as nat));
    } else {
        append_decimal(out, n);
    }
}

fn append_timestamp(out: &mut String, ms: u32)
    ensures
        final(out)@ == old(out)@ + timestamp(ms),
{
    proof {
        reveal_strlit("[");
        reveal_strlit(":");
        reveal_strlit("]");
    }
    let secs = ms / 1000;
    out.append("[");
    append_two_digits(out, secs / 60);
    out.append(":");
    append_two_digits(out, secs % 60);
    out.append("]");
    assert(final(out)@ =~= old(out)@ + timestamp(ms));
}

impl Lyrics {
    /// The document as LRC text: one `[mm:ss]word` line per word, in document order, each
    /// word under its line's timestamp, joined by single newlines.
    pub fn into_lrc_file(self) -> (r: String)
        ensures
            r@ == lrc_text(self.lyrics.lines@),
    {
        let lines = &self.lyrics.lines;
        let mut out = String::new();
        let mut empty = true;
        let mut i: usize = 0;
        while i < lines.len()
            invariant
                0 <= i <= lines@.len(),
                out@ == join_lines(entries(lines@.subrange(0, i as int))),
                empty == (entries(lines@.subrange(0, i as int)).len() == 0),
            decreases lines@.len() - i,
        {
            let line = &lines[i];
            let ghost before = entries(lines@.subrange(0, i as int));
            let mut j: usize = 0;
            while j < line.text.len()
                invariant
                    0 <= i < lines@.len(),
                    *line == lines@[i as int],
                    0 <= j <= line.text@.len(),
                    out@ == join_lines(before + line_entries(*line).subrange(0, j as int)),
                    empty == ((before + line_entries(*line).subrange(0, j as int)).len() == 0),
                decreases line.text@.len() - j,
            {
                let ghost parts = before + line_entries(*line).subrange(0, j as int);
                let ghost e = timestamp(line.time) + line.text@[j as int].text@;
                let ghost start = out@;
                if !empty {
                    let nl = "\n";
                    proof {
                        reveal_strlit("\n");
                    }
                    out.append(nl);
                }
                let ghost sep = out@;
                append_timestamp(&mut out, line.time);
                out.append(line.text[j].text.as_str());
                empty = false;
                proof {
                    assert(line_entries(*line)[j as int] == e);
                    assert(out@ =~= sep + e);
                    lemma_join_push(parts, e);
                    if parts.len() == 0 {
                        assert(sep == start);
                        assert(start =~= Seq::<char>::empty());
                    } else {
                        assert(sep =~= start + seq!['\n']);
                    }
                    assert(before + line_entries(*line).subrange(0, j + 1) =~= parts.push(e));
                }
                j = j + 1;
            }
            proof {
                let next = lines@.subrange(0, i + 1);
                assert(next.drop_last() =~= lines@.subrange(0, i as int));
                assert(line_entries(*line).subrange(0, line.text@.len() as int) =~= line_entries(*line));
            }
            i = i + 1;
        }
        assert(lines@.subrange(0, lines@.len() as int) =~= lines@);
        out
    }
}

/// What the lyrics service answered for a track, as raw bytes: nothing at all, or an empty
/// body, means the track has no lyrics; anything else is handed on to be decoded.
pub fn check_payload(payload: Option<Vec<u8>>) -> (r: Result<Vec<u8>, LyricsError>)
    ensures
        match payload {
            Some(b) => if b@.len() == 0 {
                r == Err::<Vec<u8>, LyricsError>(LyricsError::NotFound)
            } else {
                r == Ok::<Vec<u8>, LyricsError>(b)
            },
            None => r == Err::<Vec<u8>, LyricsError>(LyricsError::NotFound),
        },
{
    match payload {
        Some(b) => if b.len() == 0 {
            Err(LyricsError::NotFound)
        } else {
            Ok(b)
        },
        None => Err(LyricsError::NotFound),
    }
}

} // verus!
