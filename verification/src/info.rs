//! Page summaries rendered for the caller: the two-line title/URL text and
//! the one-line concise page description with element counts.

use vstd::prelude::*;

use crate::numbers::dec_of;
use crate::numbers::u64_to_dec;
use crate::text::chars_of;
use crate::text::string_from_chars;
use crate::text::take_at_most;

verus! {

/// The page text shown when no selector is given.
pub fn page_text_summary(title: &str, url: &str) -> (r: String)
    ensures
        r@ == "Title: "@ + title@ + "\nURL: "@ + url@,
{
    let r = String::from_str("Title: ").concat(title).concat("\nURL: ").concat(url);
    proof {
        assert(r@ =~= "Title: "@ + title@ + "\nURL: "@ + url@);
    }
    r
}

/// A URL with its scheme prefix dropped.
pub open spec fn strip_scheme(u: Seq<char>) -> Seq<char> {
    if u.len() >= 8 && u.subrange(0, 8) == "https://"@ {
        u.subrange(8, u.len() as int)
    } else if u.len() >= 7 && u.subrange(0, 7) == "http://"@ {
        u.subrange(7, u.len() as int)
    } else {
        u
    }
}

/// The concise page summary: the title cut at 40 characters, the URL without
/// its scheme, and, when any are present, the counts of visible inputs,
/// buttons and links.
pub open spec fn concise_info_spec(
    title: Seq<char>,
    url: Seq<char>,
    inputs: u64,
    buttons: u64,
    links: u64,
) -> Seq<char> {
    let base = take_at_most(title, 40) + " | "@ + strip_scheme(url);
    if inputs > 0 || buttons > 0 || links > 0 {
        base + " | i:"@ + dec_of(inputs as nat) + " b:"@ + dec_of(buttons as nat) + " l:"@ + dec_of(
            links as nat,
        )
    } else {
        base
    }
}

fn take_chars(v: &[char], n: usize) -> (r: Vec<char>)
    ensures
        r@ == take_at_most(v@, n as int),
{
    let mut r: Vec<char> = Vec::new();
    let mut i: usize = 0;
    while i < v.len() && i < n
        invariant
            i <= v@.len(),
            i <= n,
            r@ == v@.subrange(0, i as int),
        decreases v@.len() - i,
    {
        r.push(v[i]);
        i = i + 1;
        proof {
            assert(r@ =~= v@.subrange(0, i as int));
        }
    }
    proof {
        assert(r@ =~= take_at_most(v@, n as int));
    }
    r
}

fn strip_scheme_chars(v: &[char]) -> (r: Vec<char>)
    ensures
        r@ == strip_scheme(v@),
{
    proof {
        reveal_strlit("https://");
        reveal_strlit("http://");
    }
    let https = v.len() >= 8 && v[0] == 'h' && v[1] == 't' && v[2] == 't' && v[3] == 'p' && v[4]
        == 's' && v[5] == ':' && v[6] == '/' && v[7] == '/';
    let http = v.len() >= 7 && v[0] == 'h' && v[1] == 't' && v[2] == 't' && v[3] == 'p' && v[4]
        == ':' && v[5] == '/' && v[6] == '/';
    let start: usize = if https {
        8
    } else if http {
        7
    } else {
        0
    };
    proof {
        if https {
            assert(v@.subrange(0, 8) =~= "https://"@);
        } else {
            if v@.len() >= 8 && v@.subrange(0, 8) == "https://"@ {
                assert(v@[0] == v@.subrange(0, 8)[0]);
                assert(v@[1] == v@.subrange(0, 8)[1]);
                assert(v@[2] == v@.subrange(0, 8)[2]);
                assert(v@[3] == v@.subrange(0, 8)[3]);
                assert(v@[4] == v@.subrange(0, 8)[4]);
                assert(v@[5] == v@.subrange(0, 8)[5]);
                assert(v@[6] == v@.subrange(0, 8)[6]);
                assert(v@[7] == v@.subrange(0, 8)[7]);
            }
            if http {
                assert(v@.subrange(0, 7) =~= "http://"@);
            } else {
                if v@.len() >= 7 && v@.subrange(0, 7) == "http://"@ {
                    assert(v@[0] == v@.subrange(0, 7)[0]);
                    assert(v@[1] == v@.subrange(0, 7)[1]);
                    assert(v@[2] == v@.subrange(0, 7)[2]);
                    assert(v@[3] == v@.subrange(0, 7)[3]);
                    assert(v@[4] == v@.subrange(0, 7)[4]);
                    assert(v@[5] == v@.subrange(0, 7)[5]);
                    assert(v@[6] == v@.subrange(0, 7)[6]);
                }
            }
        }
    }
    let mut r: Vec<char> = Vec::new();
    let mut i: usize = start;
    while i < v.len()
        invariant
            start <= i <= v@.len(),
            r@ == v@.subrange(start as int, i as int),
        decreases v@.len() - i,
    {
        r.push(v[i]);
        i = i + 1;
        proof {
            assert(r@ =~= v@.subrange(start as int, i as int));
        }
    }
    proof {
        assert(r@ =~= strip_scheme(v@));
    }
    r
}

/// Renders the concise page summary.
pub fn concise_page_info(title: &str, url: &str, inputs: u64, buttons: u64, links: u64) -> (r:
    String)
    ensures
        r@ == concise_info_spec(title@, url@, inputs, buttons, links),
{
    let tv = chars_of(title);
    let t40 = take_chars(tv.as_slice(), 40);
    let uv = chars_of(url);
    let stripped = strip_scheme_chars(uv.as_slice());
    let base = string_from_chars(t40.as_slice()).concat(" | ").concat(
        string_from_chars(stripped.as_slice()).as_str(),
    );
    if inputs > 0 || buttons > 0 || links > 0 {
        let r = base.concat(" | i:").concat(u64_to_dec(inputs).as_str()).concat(" b:").concat(
            u64_to_dec(buttons).as_str(),
        ).concat(" l:").concat(u64_to_dec(links).as_str());
        proof {
            assert(r@ =~= concise_info_spec(title@, url@, inputs, buttons, links));
        }
        r
    } else {
        proof {
            assert(base@ =~= concise_info_spec(title@, url@, inputs, buttons, links));
        }
        base
    }
}

} // verus!
