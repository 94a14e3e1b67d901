//! Route slugs for screenshot names: the current URL is reduced to a short
//! file-name-safe token. The host loses a leading `www.` and its dots become
//! underscores; the path becomes `home` when it is the bare root, and is
//! otherwise rewritten character by character and kept only where
//! alphanumeric, `_` or `-`; a URL that does not parse falls back to a
//! filtered copy of itself, and an empty result falls back to `unknown`.

use vstd::prelude::*;

use crate::text::chars_eq;
use crate::text::chars_of;
use crate::text::string_from_chars;
use crate::text::take_at_most;

verus! {

/// Whether std classifies a character as alphanumeric (Unicode letters and
/// digits): a function of the character alone.
pub uninterp spec fn char_alphanumeric(c: char) -> bool;

pub open spec fn ascii_alphanumeric(c: char) -> bool {
    ('0' <= c && c <= '9') || ('a' <= c && c <= 'z') || ('A' <= c && c <= 'Z')
}

/// Relies on std's `char::is_alphanumeric`: a classification of the
/// character alone, which on ASCII holds exactly for letters and digits.
#[verifier::external_body]
fn is_alphanumeric_char(c: char) -> (r: bool)
    ensures
        r == char_alphanumeric(c),
        (c as u32) < 128 ==> (r <==> ascii_alphanumeric(c)),
{
    c.is_alphanumeric()
}

/// What `url::Url::parse` makes of a string, projected to the host (absent
/// for URLs that carry none) and the serialized path: a function of the
/// string alone.
pub uninterp spec fn parsed_url(s: Seq<char>) -> Option<(Option<Seq<char>>, Seq<char>)>;

pub open spec fn host_path_view(r: Option<(Option<String>, String)>) -> Option<
    (Option<Seq<char>>, Seq<char>),
> {
    match r {
        None => None,
        Some(hp) => Some(
            (
                match hp.0 {
                    None => None,
                    Some(h) => Some(h@),
                },
                hp.1@,
            ),
        ),
    }
}

/// Relies on `url::Url::parse`, `Url::host_str` and `Url::path`: the parse
/// of an absolute URL is a function of the input alone, and an input without
/// any ':' holds no scheme terminator, so with no base URL it cannot parse.
#[verifier::external_body]
fn parse_host_path(url: &str) -> (r: Option<(Option<String>, String)>)
    ensures
        host_path_view(r) == parsed_url(url@),
        (forall|i: int| 0 <= i < url@.len() ==> url@[i] != ':') ==> r is None,
{
    match url::Url::parse(url) {
        Ok(u) => Some((u.host_str().map(|h| h.to_string()), u.path().to_string())),
        Err(_) => None,
    }
}

/// The characters a slug keeps: alphanumeric plus '_' and '-'.
pub open spec fn keeps_route_char(c: char) -> bool {
    c == '_' || c == '-' || if (c as u32) < 128 {
        ascii_alphanumeric(c)
    } else {
        char_alphanumeric(c)
    }
}

fn keep_route_char(c: char) -> (r: bool)
    ensures
        r == keeps_route_char(c),
{
    if c == '_' || c == '-' {
        true
    } else {
        is_alphanumeric_char(c)
    }
}

/// The subsequence of kept characters, in order.
pub open spec fn kept_chars(s: Seq<char>) -> Seq<char>
    decreases s.len(),
{
    if s.len() == 0 {
        Seq::empty()
    } else {
        kept_chars(s.drop_last()) + if keeps_route_char(s.last()) {
            seq![s.last()]
        } else {
            Seq::<char>::empty()
        }
    }
}

/// Keeps filtered characters until `limit` of them have been collected.
fn filter_route_chars(v: &[char], limit: usize) -> (r: Vec<char>)
    ensures
        r@ == take_at_most(kept_chars(v@), limit as int),
{
    let mut r: Vec<char> = Vec::new();
    let mut i: usize = 0;
    while i < v.len()
        invariant
            i <= v@.len(),
            r@ == take_at_most(kept_chars(v@.subrange(0, i as int)), limit as int),
            r@.len() <= limit,
        decreases v@.len() - i,
    {
        let ghost pre = v@.subrange(0, i as int);
        let ghost pre2 = v@.subrange(0, i + 1 as int);
        let c = v[i];
        proof {
            assert(pre2.drop_last() =~= pre);
            assert(pre2.last() == c);
        }
        let keep = keep_route_char(c);
        if keep && r.len() < limit {
            proof {
                // Under the limit, everything kept so far was collected.
                assert(r@ == kept_chars(pre));
                assert(kept_chars(pre2) =~= kept_chars(pre).push(c));
            }
            r.push(c);
            proof {
                assert(r@ =~= take_at_most(kept_chars(pre2), limit as int));
            }
        } else {
            proof {
                if keep {
                    // The limit is full: later kept characters are dropped.
                    assert(kept_chars(pre2) =~= kept_chars(pre).push(c));
                    assert(kept_chars(pre).len() >= limit);
                    assert(take_at_most(kept_chars(pre2), limit as int) =~= take_at_most(
                        kept_chars(pre),
                        limit as int,
                    ));
                } else {
                    assert(kept_chars(pre2) =~= kept_chars(pre));
                }
            }
        }
        i = i + 1;
    }
    proof {
        assert(v@.subrange(0, v@.len() as int) =~= v@);
    }
    r
}

/// A leading `www.` removed from a host.
pub open spec fn strip_www(h: Seq<char>) -> Seq<char> {
    if h.len() >= 4 && h[0] == 'w' && h[1] == 'w' && h[2] == 'w' && h[3] == '.' {
        h.subrange(4, h.len() as int)
    } else {
        h
    }
}

/// The slugged host: leading `www.` stripped, dots turned to underscores.
pub open spec fn host_underscored(h: Seq<char>) -> Seq<char> {
    strip_www(h).map_values(
        |c: char|
            if c == '.' {
                '_'
            } else {
                c
            },
    )
}

fn clean_host(v: &[char]) -> (r: Vec<char>)
    ensures
        r@ == host_underscored(v@),
{
    let start: usize = if v.len() >= 4 && v[0] == 'w' && v[1] == 'w' && v[2] == 'w' && v[3]
        == '.' {
        4
    } else {
        0
    };
    let ghost stripped = strip_www(v@);
    proof {
        assert(stripped =~= v@.subrange(start as int, v@.len() as int));
    }
    let mut r: Vec<char> = Vec::new();
    let mut i: usize = start;
    while i < v.len()
        invariant
            start <= i <= v@.len(),
            stripped == v@.subrange(start as int, v@.len() as int),
            r@ == v@.subrange(start as int, i as int).map_values(
                |c: char|
                    if c == '.' {
                        '_'
                    } else {
                        c
                    },
            ),
        decreases v@.len() - i,
    {
        let c = v[i];
        let m = if c == '.' {
            '_'
        } else {
            c
        };
        r.push(m);
        proof {
            assert(r@ =~= v@.subrange(start as int, i + 1 as int).map_values(
                |c: char|
                    if c == '.' {
                        '_'
                    } else {
                        c
                    },
            ));
        }
        i = i + 1;
    }
    proof {
        assert(r@ =~= host_underscored(v@));
    }
    r
}

/// How one path character is rewritten before filtering.
pub open spec fn path_char_expansion(c: char) -> Seq<char> {
    if c == '/' {
        seq!['_']
    } else if c == '?' {
        seq!['_', 'q', '_']
    } else if c == '&' {
        seq!['_', 'a', 'n', 'd', '_']
    } else if c == '=' {
        seq!['_', 'e', 'q', '_']
    } else {
        seq![c]
    }
}

/// The whole path rewritten character by character.
pub open spec fn expanded_path(s: Seq<char>) -> Seq<char>
    decreases s.len(),
{
    if s.len() == 0 {
        Seq::empty()
    } else {
        expanded_path(s.drop_last()) + path_char_expansion(s.last())
    }
}

fn expand_path(v: &[char]) -> (r: Vec<char>)
    ensures
        r@ == expanded_path(v@),
{
    let mut r: Vec<char> = Vec::new();
    let mut i: usize = 0;
    while i < v.len()
        invariant
            i <= v@.len(),
            r@ == expanded_path(v@.subrange(0, i as int)),
        decreases v@.len() - i,
    {
        let ghost pre = v@.subrange(0, i as int);
        let ghost pre2 = v@.subrange(0, i + 1 as int);
        let c = v[i];
        proof {
            assert(pre2.drop_last() =~= pre);
            assert(pre2.last() == c);
        }
        if c == '/' {
            r.push('_');
        } else if c == '?' {
            r.push('_');
            r.push('q');
            r.push('_');
        } else if c == '&' {
            r.push('_');
            r.push('a');
            r.push('n');
            r.push('d');
            r.push('_');
        } else if c == '=' {
            r.push('_');
            r.push('e');
            r.push('q');
            r.push('_');
        } else {
            r.push(c);
        }
        proof {
            assert(r@ =~= expanded_path(pre2));
        }
        i = i + 1;
    }
    proof {
        assert(v@.subrange(0, v@.len() as int) =~= v@);
    }
    r
}

/// The slugged path: `home` for the bare root, otherwise the rewritten path
/// filtered and cut at 30 characters.
pub open spec fn cleaned_path(p: Seq<char>) -> Seq<char> {
    if p == seq!['/'] {
        "home"@
    } else {
        take_at_most(kept_chars(expanded_path(p)), 30)
    }
}

fn clean_path(v: &[char]) -> (r: Vec<char>)
    ensures
        r@ == cleaned_path(v@),
{
    if v.len() == 1 && v[0] == '/' {
        proof {
            assert(v@ =~= seq!['/']);
        }
        chars_of("home")
    } else {
        proof {
            if v@ == seq!['/'] {
                assert(v@.len() == 1 && v@[0] == '/');
            }
        }
        let e = expand_path(v);
        filter_route_chars(e.as_slice(), 30)
    }
}

pub open spec fn has_colon(s: Seq<char>) -> bool {
    exists|i: int| 0 <= i < s.len() && s[i] == ':'
}

/// The slug of a URL that did not parse: the input itself, filtered and cut
/// at 20 characters, or `unknown` when nothing of it is kept.
pub open spec fn fallback_slug_spec(s: Seq<char>) -> Seq<char> {
    let f = take_at_most(kept_chars(s), 20);
    if f.len() == 0 {
        "unknown"@
    } else {
        f
    }
}

/// The route slug of a URL: `blank` for nothing or `about:blank`; for a URL
/// that parses, the cleaned host and cleaned path joined by '_' (a URL with
/// no host contributing `unknown`); anything else falls back on a filtered
/// copy of itself.
pub open spec fn route_slug_spec(s: Seq<char>) -> Seq<char> {
    if s.len() == 0 || s == "about:blank"@ {
        "blank"@
    } else if has_colon(s) {
        match parsed_url(s) {
            Some(hp) => {
                let hostseq = match hp.0 {
                    Some(h) => h,
                    None => "unknown"@,
                };
                host_underscored(hostseq) + seq!['_'] + cleaned_path(hp.1)
            },
            None => fallback_slug_spec(s),
        }
    } else {
        fallback_slug_spec(s)
    }
}

fn fallback_slug(chars: &[char]) -> (r: String)
    ensures
        r@ == fallback_slug_spec(chars@),
{
    let f = filter_route_chars(chars, 20);
    if f.len() == 0 {
        String::from_str("unknown")
    } else {
        string_from_chars(f.as_slice())
    }
}

/// Slugs a URL for use in a screenshot file name.
pub fn route_slug(url: &str) -> (r: String)
    ensures
        r@ == route_slug_spec(url@),
{
    let chars = chars_of(url);
    if chars.len() == 0 {
        return String::from_str("blank");
    }
    let ab = chars_of("about:blank");
    if chars_eq(chars.as_slice(), ab.as_slice()) {
        return String::from_str("blank");
    }
    match parse_host_path(url) {
        Some(hp) => {
            proof {
                // A parse succeeded, so the URL holds a scheme terminator.
                assert(has_colon(url@)) by {
                    if !has_colon(url@) {
                        assert(forall|i: int| 0 <= i < url@.len() ==> url@[i] != ':');
                    }
                }
            }
            let (hopt, path) = hp;
            let hostv = match hopt {
                Some(h) => chars_of(h.as_str()),
                None => chars_of("unknown"),
            };
            let hostc = clean_host(hostv.as_slice());
            let pathv = chars_of(path.as_str());
            let pathc = clean_path(pathv.as_slice());
            let mut out = hostc;
            out.push('_');
            let mut k: usize = 0;
            while k < pathc.len()
                invariant
                    k <= pathc@.len(),
                    out@ == host_underscored(hostv@) + seq!['_'] + pathc@.subrange(0, k as int),
                decreases pathc@.len() - k,
            {
                out.push(pathc[k]);
                k = k + 1;
                proof {
                    assert(out@ =~= host_underscored(hostv@) + seq!['_'] + pathc@.subrange(
                        0,
                        k as int,
                    ));
                }
            }
            proof {
                assert(pathc@.subrange(0, pathc@.len() as int) =~= pathc@);
            }
            let r = string_from_chars(out.as_slice());
            proof {
                assert(r@ =~= route_slug_spec(url@));
            }
            r
        }
        None => fallback_slug(chars.as_slice()),
    }
}

/// Characters a clean route is made of: ASCII letters and digits, '_', '-'.
pub open spec fn clean_route_char(c: char) -> bool {
    ascii_alphanumeric(c) || c == '_' || c == '-'
}

proof fn lemma_kept_chars_clean(s: Seq<char>)
    requires
        forall|i: int| 0 <= i < s.len() ==> clean_route_char(#[trigger] s[i]),
    ensures
        kept_chars(s) == s,
    decreases s.len(),
{
    if s.len() == 0 {
        assert(kept_chars(s) =~= s);
    } else {
        lemma_kept_chars_clean(s.drop_last());
        assert(clean_route_char(s.last()));
        assert(keeps_route_char(s.last()));
        assert(kept_chars(s) =~= s);
    }
}

proof fn lemma_slug_of_short_clean(t: Seq<char>)
    requires
        0 < t.len() <= 20,
        forall|i: int| 0 <= i < t.len() ==> clean_route_char(#[trigger] t[i]),
    ensures
        route_slug_spec(t) == t,
{
    reveal_strlit("about:blank");
    assert(t != "about:blank"@) by {
        if t == "about:blank"@ {
            assert(t[5] == ':');
            assert(clean_route_char(t[5]));
        }
    }
    assert(!has_colon(t)) by {
        if has_colon(t) {
            let i = choose|i: int| 0 <= i < t.len() && t[i] == ':';
            assert(clean_route_char(t[i]));
        }
    }
    lemma_kept_chars_clean(t);
    assert(take_at_most(kept_chars(t), 20) == t);
}

/// Slugging is idempotent on already-clean input: once a route is made only
/// of ASCII letters, digits, '_' and '-', slugging it again changes nothing.
pub proof fn lemma_route_slug_idempotent(s: Seq<char>)
    requires
        forall|i: int| 0 <= i < s.len() ==> clean_route_char(#[trigger] s[i]),
    ensures
        route_slug_spec(route_slug_spec(s)) == route_slug_spec(s),
{
    reveal_strlit("about:blank");
    reveal_strlit("blank");
    if s.len() == 0 {
        assert(route_slug_spec(s) == "blank"@);
        assert(forall|i: int|
            0 <= i < "blank"@.len() ==> clean_route_char(#[trigger] "blank"@[i]));
        lemma_slug_of_short_clean("blank"@);
    } else {
        assert(s != "about:blank"@) by {
            if s == "about:blank"@ {
                assert(s[5] == ':');
                assert(clean_route_char(s[5]));
            }
        }
        assert(!has_colon(s)) by {
            if has_colon(s) {
                let i = choose|i: int| 0 <= i < s.len() && s[i] == ':';
                assert(clean_route_char(s[i]));
            }
        }
        lemma_kept_chars_clean(s);
        let f = take_at_most(s, 20);
        assert(route_slug_spec(s) == f);
        assert(0 < f.len() <= 20);
        assert(forall|i: int| 0 <= i < f.len() ==> clean_route_char(#[trigger] f[i]));
        lemma_slug_of_short_clean(f);
    }
}

/// The slug of `about:blank` is `blank`.
pub proof fn lemma_route_slug_about_blank()
    ensures
        route_slug_spec("about:blank"@) == "blank"@,
{
    reveal_strlit("about:blank");
}

} // verus!
