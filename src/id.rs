use vstd::prelude::*;

verus! {

/// What an identifier names.
#[derive(Clone, Copy, Debug, PartialEq, Eq, Structural, Hash)]
pub enum ItemKind {
    Track,
    Album,
    Artist,
    Playlist,
    Other,
}

/// A typed identifier: the kind of item and its opaque, case-sensitive id.
#[derive(Clone, Debug, PartialEq, Eq, Hash)]
pub struct ItemId {
    pub kind: ItemKind,
    pub id: String,
}

impl View for ItemId {
    type V = (ItemKind, Seq<char>);

    open spec fn view(&self) -> (ItemKind, Seq<char>) {
        (self.kind, self.id@)
    }
}

/// Why a string is not an identifier.
#[derive(Clone, Copy, Debug, PartialEq, Eq, Structural, Hash)]
pub enum ParseError {
    /// A native URI with fewer than three `:`-separated segments.
    MalformedUri,
    /// Neither a native URI nor a web-player URL with a kind and an id.
    InvalidArgument,
}

/// What a parse yields, over views.
pub open spec fn parse_view(r: Result<ItemId, ParseError>) -> Result<(ItemKind, Seq<char>), ParseError> {
    match r {
        Ok(item) => Ok(item@),
        Err(e) => Err(e),
    }
}

/// The scheme prefix of the native URI form.
pub open spec fn native_prefix() -> Seq<char> {
    seq!['s', 'p', 'o', 't', 'i', 'f', 'y', ':']
}

/// The host of the web player.
pub open spec fn web_host() -> Seq<char> {
    seq!['o', 'p', 'e', 'n', '.', 's', 'p', 'o', 't', 'i', 'f', 'y', '.', 'c', 'o', 'm']
}

pub open spec fn has_native_prefix(s: Seq<char>) -> bool {
    s.len() >= 8 && s.subrange(0, 8) == native_prefix()
}

/// The kind that a kind segment names.
pub open spec fn kind_of(seg: Seq<char>) -> ItemKind {
    if seg == seq!['t', 'r', 'a', 'c', 'k'] {
        ItemKind::Track
    } else if seg == seq!['a', 'l', 'b', 'u', 'm'] {
        ItemKind::Album
    } else if seg == seq!['a', 'r', 't', 'i', 's', 't'] {
        ItemKind::Artist
    } else if seg == seq!['p', 'l', 'a', 'y', 'l', 'i', 's', 't'] {
        ItemKind::Playlist
    } else {
        ItemKind::Other
    }
}

/// The index of the first `:` at or after `i`, or the length of `s` where there is none.
pub open spec fn next_colon(s: Seq<char>, i: int) -> int
    decreases s.len() - i,
{
    if i < 0 || i >= s.len() {
        s.len() as int
    } else if s[i] == ':' {
        i
    } else {
        next_colon(s, i + 1)
    }
}

/// A native URI `spotify:<kind>:<id>[:...]`: the second segment is the kind, the third the id.
pub open spec fn parse_native(s: Seq<char>) -> Result<(ItemKind, Seq<char>), ParseError> {
    let kind_end = next_colon(s, 8);
    if kind_end >= s.len() {
        Err(ParseError::MalformedUri)
    } else {
        let id_end = next_colon(s, kind_end + 1);
        Ok((kind_of(s.subrange(8, kind_end)), s.subrange(kind_end + 1, id_end)))
    }
}

/// What the URL parser reports of a string: nothing where it is no URL; else the scheme,
/// the host, if any, and the path segments, where the URL has a hierarchical path.
pub type UrlPartsView = Option<(Seq<char>, Option<Seq<char>>, Option<Seq<Seq<char>>>)>;

/// Scheme, host and path segments of a string that parses as a URL.
pub struct UrlParts {
    pub scheme: String,
    pub host: Option<String>,
    pub segments: Option<Vec<String>>,
}

pub open spec fn url_parts_view(p: Option<UrlParts>) -> UrlPartsView {
    match p {
        None => None,
        Some(parts) => Some(
            (
                parts.scheme@,
                match parts.host {
                    Some(h) => Some(h@),
                    None => None,
                },
                match parts.segments {
                    Some(v) => Some(v@.map_values(|seg: String| seg@)),
                    None => None,
                },
            ),
        ),
    }
}

/// What `url::Url::parse` reports of `raw` as scheme, host and path segments.
pub uninterp spec fn url_parts(raw: Seq<char>) -> UrlPartsView;

/// The schemes of the web player's URLs.
pub open spec fn is_web_scheme(scheme: Seq<char>) -> bool {
    scheme == seq!['h', 't', 't', 'p'] || scheme == seq!['h', 't', 't', 'p', 's']
}

/// A web-player URL: an HTTP(S) URL whose host is the web player's and whose first two path
/// segments are the kind and the id.
pub open spec fn parse_web(p: UrlPartsView) -> Result<(ItemKind, Seq<char>), ParseError> {
    match p {
        Some((scheme, Some(host), Some(segs))) => if is_web_scheme(scheme) && host == web_host()
            && segs.len() >= 2 {
            Ok((kind_of(segs[0]), segs[1]))
        } else {
            Err(ParseError::InvalidArgument)
        },
        _ => Err(ParseError::InvalidArgument),
    }
}

/// Relies on `url::Url::parse`, and on `scheme`, `host_str` and `path_segments` of the URL it
/// returns: what the parser finds, which depends on `raw` alone.
#[verifier::external_body]
fn web_url_parts(raw: &str) -> (r: Option<UrlParts>)
    ensures
        url_parts_view(r) == url_parts(raw@),
{
    match url::Url::parse(raw) {
        Ok(url) => Some(UrlParts {
            scheme: String::from(url.scheme()),
            host: url.host_str().map(String::from),
            segments: url.path_segments().map(|s| s.map(String::from).collect()),
        }),
        Err(_) => None,
    }
}

proof fn lemma_next_colon_skip(s: Seq<char>, from: int, to: int)
    requires
        0 <= from <= to <= s.len(),
        forall|k: int| from <= k < to ==> s[k] != ':',
    ensures
        next_colon(s, from) == next_colon(s, to),
    decreases to - from,
{
    if from < to {
        lemma_next_colon_skip(s, from + 1, to);
    }
}

fn find_colon(s: &str, n: usize, from: usize) -> (r: usize)
    requires
        n == s@.len(),
        from <= n,
    ensures
        r as int == next_colon(s@, from as int),
        from <= r <= n,
{
    let mut i = from;
    while i < n && s.get_char(i) != ':'
        invariant
            n == s@.len(),
            from <= i <= n,
            forall|k: int| from <= k < i ==> s@[k] != ':',
        decreases n - i,
    {
        i = i + 1;
    }
    proof {
        lemma_next_colon_skip(s@, from as int, i as int);
    }
    i
}

fn kind_from(seg: &str) -> (r: ItemKind)
    ensures
        r == kind_of(seg@),
{
    proof {
        reveal_strlit("track");
        reveal_strlit("album");
        reveal_strlit("artist");
        reveal_strlit("playlist");
    }
    let s = String::from_str(seg);
    if s == String::from_str("track") {
        assert(seg@ =~= seq!['t', 'r', 'a', 'c', 'k']);
        ItemKind::Track
    } else if s == String::from_str("album") {
        assert(seg@ =~= seq!['a', 'l', 'b', 'u', 'm']);
        ItemKind::Album
    } else if s == String::from_str("artist") {
        assert(seg@ =~= seq!['a', 'r', 't', 'i', 's', 't']);
        ItemKind::Artist
    } else if s == String::from_str("playlist") {
        assert(seg@ =~= seq!['p', 'l', 'a', 'y', 'l', 'i', 's', 't']);
        ItemKind::Playlist
    } else {
        proof {
            assert(seg@ != seq!['t', 'r', 'a', 'c', 'k']) by {
                if seg@ == seq!['t', 'r', 'a', 'c', 'k'] {
                    assert("track"@ =~= seg@);
                }
            }
            assert(seg@ != seq!['a', 'l', 'b', 'u', 'm']) by {
                if seg@ == seq!['a', 'l', 'b', 'u', 'm'] {
                    assert("album"@ =~= seg@);
                }
            }
            assert(seg@ != seq!['a', 'r', 't', 'i', 's', 't']) by {
                if seg@ == seq!['a', 'r', 't', 'i', 's', 't'] {
                    assert("artist"@ =~= seg@);
                }
            }
            assert(seg@ != seq!['p', 'l', 'a', 'y', 'l', 'i', 's', 't']) by {
                if seg@ == seq!['p', 'l', 'a', 'y', 'l', 'i', 's', 't'] {
                    assert("playlist"@ =~= seg@);
                }
            }
        }
        ItemKind::Other
    }
}

impl ItemId {
    /// Parses a native URI (`spotify:<kind>:<id>`); the string must carry the native prefix.
    pub fn parse_native_uri(raw: &str) -> (r: Result<ItemId, ParseError>)
        requires
            has_native_prefix(raw@),
        ensures
            parse_view(r) == parse_native(raw@),
    {
        let n = raw.unicode_len();
        let kind_end = find_colon(raw, n, 8);
        if kind_end >= n {
            return Err(ParseError::MalformedUri);
        }
        let id_end = find_colon(raw, n, kind_end + 1);
        let kind = kind_from(raw.substring_char(8, kind_end));
        let id = String::from_str(raw.substring_char(kind_end + 1, id_end));
        Ok(ItemId { kind, id })
    }

    /// Reads a kind and an id from what the URL parser reported of a web-player URL.
    pub fn from_url_parts(parts: &Option<UrlParts>) -> (r: Result<ItemId, ParseError>)
        ensures
            parse_view(r) == parse_web(url_parts_view(*parts)),
    {
        proof {
            reveal_strlit("open.spotify.com");
            reveal_strlit("http");
            reveal_strlit("https");
        }
        match parts {
            Some(p) => match (&p.host, &p.segments) {
                (Some(host), Some(segs)) => {
                    let web = String::from_str("open.spotify.com");
                    let http = String::from_str("http");
                    let https = String::from_str("https");
                    assert(web@ =~= web_host());
                    assert(http@ =~= seq!['h', 't', 't', 'p']);
                    assert(https@ =~= seq!['h', 't', 't', 'p', 's']);
                    let web_scheme = p.scheme == http || p.scheme == https;
                    if web_scheme && *host == web && segs.len() >= 2 {
                        let kind = kind_from(segs[0].as_str());
                        let id = segs[1].clone();
                        Ok(ItemId { kind, id })
                    } else {
                        Err(ParseError::InvalidArgument)
                    }
                },
                _ => Err(ParseError::InvalidArgument),
            },
            None => Err(ParseError::InvalidArgument),
        }
    }

    /// Parses a native URI or a web-player URL into a typed identifier.
    pub fn parse(raw: &str) -> (r: Result<ItemId, ParseError>)
        ensures
            parse_view(r) == if has_native_prefix(raw@) {
                parse_native(raw@)
            } else {
                parse_web(url_parts(raw@))
            },
    {
        proof {
            reveal_strlit("spotify:");
        }
        let n = raw.unicode_len();
        if n >= 8 && String::from_str(raw.substring_char(0, 8)) == String::from_str("spotify:") {
            assert("spotify:"@ =~= native_prefix());
            ItemId::parse_native_uri(raw)
        } else {
            proof {
                if has_native_prefix(raw@) {
                    assert(raw@.subrange(0, 8) =~= "spotify:"@);
                }
            }
            let parts = web_url_parts(raw);
            ItemId::from_url_parts(&parts)
        }
    }
}

} // verus!
