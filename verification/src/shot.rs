//! Screenshot output paths. An explicit name is honoured verbatim when it
//! already carries a directory, is placed under `browser-ss/` otherwise, and
//! when no name is given the path is built from the route slug of the current
//! URL and a year-to-second timestamp.

use vstd::prelude::*;

use crate::text::chars_of;

verus! {

pub open spec fn has_slash(s: Seq<char>) -> bool {
    exists|i: int| 0 <= i < s.len() && s[i] == '/'
}

pub open spec fn opt_str_view(o: Option<&str>) -> Option<Seq<char>> {
    match o {
        Some(s) => Some(s@),
        None => None,
    }
}

/// Where a screenshot is written, given the explicit name (if any), the
/// route slug of the current URL, and the capture timestamp.
pub open spec fn shot_path_spec(filename: Option<Seq<char>>, route: Seq<char>, stamp: Seq<char>) -> Seq<
    char,
> {
    match filename {
        Some(name) => if has_slash(name) {
            name
        } else {
            "browser-ss/"@ + name
        },
        None => "browser-ss/"@ + route + seq!['_'] + stamp + ".png"@,
    }
}

fn str_has_slash(s: &str) -> (r: bool)
    ensures
        r == has_slash(s@),
{
    let v = chars_of(s);
    let mut i: usize = 0;
    while i < v.len()
        invariant
            v@ == s@,
            i <= v@.len(),
            forall|j: int| 0 <= j < i ==> s@[j] != '/',
        decreases v@.len() - i,
    {
        if v[i] == '/' {
            return true;
        }
        i = i + 1;
    }
    false
}

/// Resolves the output path for one screenshot.
pub fn screenshot_path(filename: Option<&str>, route: &str, stamp: &str) -> (r: String)
    ensures
        r@ == shot_path_spec(opt_str_view(filename), route@, stamp@),
{
    match filename {
        Some(name) => {
            if str_has_slash(name) {
                String::from_str(name)
            } else {
                let r = String::from_str("browser-ss/").concat(name);
                r
            }
        }
        None => {
            let r = String::from_str("browser-ss/").concat(route).concat("_").concat(stamp)
                .concat(".png");
            proof {
                reveal_strlit("_");
                assert("_"@ =~= seq!['_']);
                assert(r@ =~= shot_path_spec(opt_str_view(filename), route@, stamp@));
            }
            r
        }
    }
}

/// An explicit screenshot name resolves the same way whatever the clock
/// says: colliding explicit names are honoured verbatim both times, so any
/// overwrite is the caller's stated choice, never a silent timestamp clash.
pub proof fn lemma_shot_path_explicit_name_stable(
    name: Seq<char>,
    route: Seq<char>,
    stamp1: Seq<char>,
    stamp2: Seq<char>,
)
    ensures
        shot_path_spec(Some(name), route, stamp1) == shot_path_spec(Some(name), route, stamp2),
{
}

/// Generated screenshot paths differ as soon as the timestamps differ, for
/// one and the same route: two captures in distinct seconds can never land
/// on the same generated file name.
pub proof fn lemma_shot_path_distinct_stamps(route: Seq<char>, stamp1: Seq<char>, stamp2: Seq<char>)
    requires
        stamp1.len() == stamp2.len(),
        stamp1 != stamp2,
    ensures
        shot_path_spec(None, route, stamp1) != shot_path_spec(None, route, stamp2),
{
    let p1 = shot_path_spec(None, route, stamp1);
    let p2 = shot_path_spec(None, route, stamp2);
    assert(exists|k: int| 0 <= k < stamp1.len() && stamp1[k] != stamp2[k]) by {
        if forall|k: int| 0 <= k < stamp1.len() ==> stamp1[k] == stamp2[k] {
            assert(stamp1 =~= stamp2);
        }
    }
    let k = choose|k: int| 0 <= k < stamp1.len() && stamp1[k] != stamp2[k];
    let off = "browser-ss/"@.len() + route.len() + 1;
    assert(p1[off + k] == stamp1[k]);
    assert(p2[off + k] == stamp2[k]);
}

} // verus!
