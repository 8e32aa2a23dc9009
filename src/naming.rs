use vstd::prelude::*;

verus! {

/// Whether `c` may stand in an output file name: an ASCII letter or digit, or a space.
pub open spec fn is_plain(c: char) -> bool {
    ('a' as u32 <= c as u32 <= 'z' as u32) || ('A' as u32 <= c as u32 <= 'Z' as u32) || (
    '0' as u32 <= c as u32 <= '9' as u32) || c == ' '
}

/// `s` with every character that may not stand in a file name removed.
pub open spec fn plain_text(s: Seq<char>) -> Seq<char>
    decreases s.len(),
{
    if s.len() == 0 {
        Seq::empty()
    } else {
        plain_text(s.drop_last()) + if is_plain(s.last()) {
            seq![s.last()]
        } else {
            Seq::empty()
        }
    }
}

/// The parts joined by `, `.
pub open spec fn comma_joined(parts: Seq<Seq<char>>) -> Seq<char>
    decreases parts.len(),
{
    if parts.len() == 0 {
        Seq::empty()
    } else if parts.len() == 1 {
        parts[0]
    } else {
        comma_joined(parts.drop_last()) + seq![',', ' '] + parts.last()
    }
}

/// The file name, without extension, under which a track is written:
/// `<artists> - <title>`, the artists joined by `, `, each name reduced to plain characters.
pub open spec fn output_stem_of(title: Seq<char>, artists: Seq<Seq<char>>) -> Seq<char> {
    comma_joined(artists.map_values(|a: Seq<char>| plain_text(a))) + seq![' ', '-', ' ']
        + plain_text(title)
}

fn is_plain_char(c: char) -> (r: bool)
    ensures
        r == is_plain(c),
{
    let n = c as u32;
    (('a' as u32) <= n && n <= ('z' as u32)) || (('A' as u32) <= n && n <= ('Z' as u32)) || ((
    '0' as u32) <= n && n <= ('9' as u32)) || c == ' '
}

fn append_plain(out: &mut String, s: &str)
    ensures
        final(out)@ == old(out)@ + plain_text(s@),
{
    let n = s.unicode_len();
    let mut i: usize = 0;
    assert(s@.subrange(0, 0) =~= Seq::<char>::empty());
    while i < n
        invariant
            n == s@.len(),
            0 <= i <= n,
            out@ == old(out)@ + plain_text(s@.subrange(0, i as int)),
        decreases n - i,
    {
        let c = s.get_char(i);
        let ghost before = out@;
        if is_plain_char(c) {
            out.append(s.substring_char(i, i + 1));
        }
        proof {
            let next = s@.subrange(0, i + 1);
            assert(next.drop_last() =~= s@.subrange(0, i as int));
            assert(next.last() == c);
            if is_plain(c) {
                assert(s@.subrange(i as int, i + 1) =~= seq![c]);
            }
            assert(out@ =~= old(out)@ + plain_text(next));
        }
        i = i + 1;
    }
    assert(s@.subrange(0, n as int) =~= s@);
}

/// The name, without extension, under which a track's files are written: the artists'
/// names joined by `, `, then ` - `, then the title, each name reduced to ASCII letters,
/// digits and spaces.
pub fn output_stem(title: &str, artists: &Vec<String>) -> (r: String)
    ensures
        r@ == output_stem_of(title@, artists@.map_values(|a: String| a@)),
{
    proof {
        reveal_strlit(" - ");
    }
    let ghost names = artists@.map_values(|a: String| a@);
    let ghost plain = names.map_values(|a: Seq<char>| plain_text(a));
    let mut out = String::new();
    let mut i: usize = 0;
    assert(plain.subrange(0, 0) =~= Seq::<Seq<char>>::empty());
    while i < artists.len()
        invariant
            0 <= i <= artists@.len(),
            names == artists@.map_values(|a: String| a@),
            plain == names.map_values(|a: Seq<char>| plain_text(a)),
            out@ == comma_joined(plain.subrange(0, i as int)),
        decreases artists@.len() - i,
    {
        let ghost before = out@;
        if i > 0 {
            let comma = ", ";
            proof {
                reveal_strlit(", ");
            }
            out.append(comma);
        }
        let ghost sep = out@;
        append_plain(&mut out, artists[i].as_str());
        proof {
            let next = plain.subrange(0, i + 1);
            assert(next.drop_last() =~= plain.subrange(0, i as int));
            assert(next.last() == plain_text(artists@[i as int]@));
            if i == 0 {
                assert(sep == before);
                assert(before =~= Seq::<char>::empty());
                assert(out@ =~= next[0]);
            } else {
                assert(sep =~= before + seq![',', ' ']);
                assert(out@ =~= comma_joined(next));
            }
        }
        i = i + 1;
    }
    assert(plain.subrange(0, artists@.len() as int) =~= plain);
    let ghost joined = out@;
    out.append(" - ");
    append_plain(&mut out, title);
    assert(out@ =~= joined + seq![' ', '-', ' '] + plain_text(title@));
    out
}

} // verus!
