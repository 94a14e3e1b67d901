//! The command dispatcher: one input line is split on whitespace into a verb
//! and its arguments, the verb is looked up in a fixed alias table, arity is
//! checked, and the line becomes a directive — the one session operation (or
//! warning, or loop control) the line asks for. A malformed or unknown line
//! never stops the loop: it becomes a usage hint or an unknown-verb notice.

use vstd::prelude::*;

use crate::numbers::parse_i32;
use crate::numbers::parse_i32_spec;
use crate::numbers::parse_u64;
use crate::numbers::parse_u64_spec;
use crate::text::chars_of;
use crate::text::str_eq;
use crate::text::string_from_chars;

verus! {

/// The whitespace that separates tokens.
pub open spec fn is_space_char(c: char) -> bool {
    c == ' ' || c == '\t' || c == '\n' || c == '\r' || c == '\u{b}' || c == '\u{c}'
}

fn is_space(c: char) -> (r: bool)
    ensures
        r == is_space_char(c),
{
    c == ' ' || c == '\t' || c == '\n' || c == '\r' || c == '\u{b}' || c == '\u{c}'
}

/// The length of the leading run of non-space characters.
pub open spec fn next_word_len(s: Seq<char>) -> int
    decreases s.len(),
{
    if s.len() == 0 || is_space_char(s[0]) {
        0
    } else {
        1 + next_word_len(s.drop_first())
    }
}

proof fn lemma_next_word_len_bounds(s: Seq<char>)
    ensures
        0 <= next_word_len(s) <= s.len(),
        s.len() > 0 && !is_space_char(s[0]) ==> next_word_len(s) >= 1,
    decreases s.len(),
{
    if s.len() > 0 && !is_space_char(s[0]) {
        lemma_next_word_len_bounds(s.drop_first());
    }
}

/// The whitespace-separated tokens of a line, in order, each one non-empty.
pub open spec fn tokens_spec(s: Seq<char>) -> Seq<Seq<char>>
    decreases s.len(),
    via tokens_spec_dec
{
    if s.len() == 0 {
        Seq::empty()
    } else if is_space_char(s[0]) {
        tokens_spec(s.drop_first())
    } else {
        let w = next_word_len(s);
        seq![s.subrange(0, w)] + tokens_spec(s.subrange(w, s.len() as int))
    }
}

#[via_fn]
proof fn tokens_spec_dec(s: Seq<char>) {
    lemma_next_word_len_bounds(s);
}

/// The views of a vector of owned tokens.
pub open spec fn tokens_view(ts: Seq<String>) -> Seq<Seq<char>> {
    ts.map_values(|t: String| t@)
}

proof fn lemma_next_word_len(s: Seq<char>, k: int)
    requires
        0 <= k <= s.len(),
        forall|m: int| 0 <= m < k ==> !is_space_char(#[trigger] s[m]),
        k == s.len() || is_space_char(s[k]),
    ensures
        next_word_len(s) == k,
    decreases k,
{
    if k == 0 {
    } else {
        assert(!is_space_char(s[0]));
        let t = s.drop_first();
        assert forall|m: int| 0 <= m < k - 1 implies !is_space_char(#[trigger] t[m]) by {
            assert(t[m] == s[m + 1]);
        }
        if k - 1 < t.len() {
            assert(t[k - 1] == s[k]);
        }
        lemma_next_word_len(t, k - 1);
    }
}

/// Splits a line on whitespace.
pub fn tokenize(line: &str) -> (r: Vec<String>)
    ensures
        tokens_view(r@) == tokens_spec(line@),
{
    let v = chars_of(line);
    let n = v.len();
    let mut toks: Vec<String> = Vec::new();
    let mut i: usize = 0;
    proof {
        assert(tokens_view(toks@) =~= Seq::<Seq<char>>::empty());
        assert(v@.subrange(0, n as int) =~= v@);
        assert(tokens_view(toks@) + tokens_spec(v@.subrange(0, n as int)) =~= tokens_spec(line@));
    }
    while i < n
        invariant
            n == v@.len(),
            v@ == line@,
            i <= n,
            tokens_spec(line@) == tokens_view(toks@) + tokens_spec(
                v@.subrange(i as int, n as int),
            ),
        decreases n - i,
    {
        let ghost rest = v@.subrange(i as int, n as int);
        let c = v[i];
        if is_space(c) {
            proof {
                assert(rest[0] == c);
                assert(rest.drop_first() =~= v@.subrange(i + 1 as int, n as int));
            }
            i = i + 1;
        } else {
            let start = i;
            let mut word: Vec<char> = Vec::new();
            loop
                invariant
                    start <= i <= n,
                    n == v@.len(),
                    word@ == v@.subrange(start as int, i as int),
                    forall|m: int| start <= m < i ==> !is_space_char(#[trigger] v@[m]),
                ensures
                    start <= i <= n,
                    word@ == v@.subrange(start as int, i as int),
                    forall|m: int| start <= m < i ==> !is_space_char(#[trigger] v@[m]),
                    i == n || is_space_char(v@[i as int]),
                decreases n - i,
            {
                if i >= n {
                    break;
                }
                let d = v[i];
                if is_space(d) {
                    break;
                }
                word.push(d);
                i = i + 1;
                proof {
                    assert(word@ =~= v@.subrange(start as int, i as int));
                }
            }
            let ghost w = i - start;
            proof {
                assert(rest.len() == n - start);
                assert forall|m: int| 0 <= m < w implies !is_space_char(#[trigger] rest[m]) by {
                    assert(rest[m] == v@[start + m]);
                }
                if w < rest.len() {
                    assert(rest[w] == v@[i as int]);
                }
                lemma_next_word_len(rest, w);
                assert(rest.subrange(0, w) =~= word@);
                assert(rest.subrange(w, rest.len() as int) =~= v@.subrange(i as int, n as int));
                assert(tokens_spec(rest) == seq![word@] + tokens_spec(
                    v@.subrange(i as int, n as int),
                ));
            }
            let ghost toks_before = toks@;
            let s = string_from_chars(word.as_slice());
            toks.push(s);
            proof {
                assert(tokens_view(toks@) =~= tokens_view(toks_before) + seq![word@]);
                assert(tokens_view(toks_before) + (seq![word@] + tokens_spec(
                    v@.subrange(i as int, n as int),
                )) =~= (tokens_view(toks_before) + seq![word@]) + tokens_spec(
                    v@.subrange(i as int, n as int),
                ));
            }
        }
    }
    proof {
        assert(v@.subrange(n as int, n as int) =~= Seq::<char>::empty());
        assert(tokens_view(toks@) + tokens_spec(Seq::<char>::empty()) =~= tokens_view(toks@));
    }
    toks
}

/// The tokens joined back with single spaces: how free-text arguments (URLs,
/// typed text, queries, script code) are rebuilt from the argument tokens.
pub open spec fn join_spec(ts: Seq<Seq<char>>) -> Seq<char>
    decreases ts.len(),
{
    if ts.len() == 0 {
        Seq::empty()
    } else if ts.len() == 1 {
        ts[0]
    } else {
        join_spec(ts.drop_last()) + seq![' '] + ts.last()
    }
}

/// Joins the tokens from index `from` (inclusive) to `to` (exclusive) with
/// single spaces.
pub fn join_range(tokens: &Vec<String>, from: usize, to: usize) -> (r: String)
    requires
        from <= to <= tokens@.len(),
    ensures
        r@ == join_spec(tokens_view(tokens@).subrange(from as int, to as int)),
{
    let ghost tv = tokens_view(tokens@);
    let mut r = String::new();
    let mut k: usize = from;
    while k < to
        invariant
            from <= k <= to <= tokens@.len(),
            tv == tokens_view(tokens@),
            r@ == join_spec(tv.subrange(from as int, k as int)),
        decreases to - k,
    {
        let ghost before = tv.subrange(from as int, k as int);
        let ghost after = tv.subrange(from as int, k + 1 as int);
        proof {
            assert(after.drop_last() =~= before);
            assert(after.last() == tv[k as int]);
            assert(tv[k as int] == tokens@[k as int]@);
        }
        if k > from {
            r.push(' ');
        }
        r.append(tokens[k].as_str());
        proof {
            if k == from {
                assert(r@ =~= join_spec(after));
            } else {
                assert(r@ =~= join_spec(before) + seq![' '] + tv[k as int]);
            }
        }
        k = k + 1;
    }
    r
}

/// One parsed command line: the single session operation, loop control or
/// warning the dispatcher routes it to.
#[derive(Debug)]
pub enum Directive {
    Empty,
    Exit,
    Help,
    Clear,
    Usage { hint: String },
    Unknown { verb: String },
    Navigate { url: String },
    Click { selector: String },
    ClickAt { x: String, y: String },
    DoubleClickAt { x: String, y: String },
    RightClickAt { x: String, y: String },
    TypeText { selector: String, text: String },
    Scroll { direction: String, amount: Option<i32> },
    Search { query: String },
    Screenshot { filename: Option<String> },
    Text { selector: Option<String> },
    Js { code: String },
    Url,
    Title,
    Reload,
    Back,
    Forward,
    WaitFor { selector: String, timeout_secs: Option<u64> },
    WaitForText { text: String, timeout_secs: Option<u64> },
    WaitForNav { timeout_secs: Option<u64> },
    Highlight { selector: String },
    Status,
    Info,
    Elements,
    Fill { selector: String, value: String },
    Submit { selector: Option<String> },
    Ticker { selector: Option<String>, interval_secs: u64, max_iterations: Option<u64> },
    WaitEnhanced { selector: String, timeout_secs: u64 },
}

/// The mathematical shape of a directive: every owned string replaced by its
/// character sequence, every machine integer by its value.
pub enum DirectiveModel {
    Empty,
    Exit,
    Help,
    Clear,
    Usage { hint: Seq<char> },
    Unknown { verb: Seq<char> },
    Navigate { url: Seq<char> },
    Click { selector: Seq<char> },
    ClickAt { x: Seq<char>, y: Seq<char> },
    DoubleClickAt { x: Seq<char>, y: Seq<char> },
    RightClickAt { x: Seq<char>, y: Seq<char> },
    TypeText { selector: Seq<char>, text: Seq<char> },
    Scroll { direction: Seq<char>, amount: Option<int> },
    Search { query: Seq<char> },
    Screenshot { filename: Option<Seq<char>> },
    Text { selector: Option<Seq<char>> },
    Js { code: Seq<char> },
    Url,
    Title,
    Reload,
    Back,
    Forward,
    WaitFor { selector: Seq<char>, timeout_secs: Option<int> },
    WaitForText { text: Seq<char>, timeout_secs: Option<int> },
    WaitForNav { timeout_secs: Option<int> },
    Highlight { selector: Seq<char> },
    Status,
    Info,
    Elements,
    Fill { selector: Seq<char>, value: Seq<char> },
    Submit { selector: Option<Seq<char>> },
    Ticker { selector: Option<Seq<char>>, interval_secs: int, max_iterations: Option<int> },
    WaitEnhanced { selector: Seq<char>, timeout_secs: int },
}

pub open spec fn opt_string_view(o: Option<String>) -> Option<Seq<char>> {
    match o {
        Some(s) => Some(s@),
        None => None,
    }
}

pub open spec fn opt_u64_int(o: Option<u64>) -> Option<int> {
    match o {
        Some(x) => Some(x as int),
        None => None,
    }
}

pub open spec fn opt_i32_int(o: Option<i32>) -> Option<int> {
    match o {
        Some(x) => Some(x as int),
        None => None,
    }
}

impl View for Directive {
    type V = DirectiveModel;

    open spec fn view(&self) -> DirectiveModel {
        match self {
            Directive::Empty => DirectiveModel::Empty,
            Directive::Exit => DirectiveModel::Exit,
            Directive::Help => DirectiveModel::Help,
            Directive::Clear => DirectiveModel::Clear,
            Directive::Usage { hint } => DirectiveModel::Usage { hint: hint@ },
            Directive::Unknown { verb } => DirectiveModel::Unknown { verb: verb@ },
            Directive::Navigate { url } => DirectiveModel::Navigate { url: url@ },
            Directive::Click { selector } => DirectiveModel::Click { selector: selector@ },
            Directive::ClickAt { x, y } => DirectiveModel::ClickAt { x: x@, y: y@ },
            Directive::DoubleClickAt { x, y } => DirectiveModel::DoubleClickAt { x: x@, y: y@ },
            Directive::RightClickAt { x, y } => DirectiveModel::RightClickAt { x: x@, y: y@ },
            Directive::TypeText { selector, text } => DirectiveModel::TypeText {
                selector: selector@,
                text: text@,
            },
            Directive::Scroll { direction, amount } => DirectiveModel::Scroll {
                direction: direction@,
                amount: opt_i32_int(*amount),
            },
            Directive::Search { query } => DirectiveModel::Search { query: query@ },
            Directive::Screenshot { filename } => DirectiveModel::Screenshot {
                filename: opt_string_view(*filename),
            },
            Directive::Text { selector } => DirectiveModel::Text {
                selector: opt_string_view(*selector),
            },
            Directive::Js { code } => DirectiveModel::Js { code: code@ },
            Directive::Url => DirectiveModel::Url,
            Directive::Title => DirectiveModel::Title,
            Directive::Reload => DirectiveModel::Reload,
            Directive::Back => DirectiveModel::Back,
            Directive::Forward => DirectiveModel::Forward,
            Directive::WaitFor { selector, timeout_secs } => DirectiveModel::WaitFor {
                selector: selector@,
                timeout_secs: opt_u64_int(*timeout_secs),
            },
            Directive::WaitForText { text, timeout_secs } => DirectiveModel::WaitForText {
                text: text@,
                timeout_secs: opt_u64_int(*timeout_secs),
            },
            Directive::WaitForNav { timeout_secs } => DirectiveModel::WaitForNav {
                timeout_secs: opt_u64_int(*timeout_secs),
            },
            Directive::Highlight { selector } => DirectiveModel::Highlight {
                selector: selector@,
            },
            Directive::Status => DirectiveModel::Status,
            Directive::Info => DirectiveModel::Info,
            Directive::Elements => DirectiveModel::Elements,
            Directive::Fill { selector, value } => DirectiveModel::Fill {
                selector: selector@,
                value: value@,
            },
            Directive::Submit { selector } => DirectiveModel::Submit {
                selector: opt_string_view(*selector),
            },
            Directive::Ticker { selector, interval_secs, max_iterations } => DirectiveModel::Ticker {
                selector: opt_string_view(*selector),
                interval_secs: *interval_secs as int,
                max_iterations: opt_u64_int(*max_iterations),
            },
            Directive::WaitEnhanced { selector, timeout_secs } => DirectiveModel::WaitEnhanced {
                selector: selector@,
                timeout_secs: *timeout_secs as int,
            },
        }
    }
}

/// The dispatch table: which directive a token sequence routes to. The first
/// token is the verb; aliases share an arm; a verb that checks arity and
/// finds too few arguments yields its usage hint; the last arm carries an
/// unknown verb back for a warning.
pub open spec fn directive_model(ts: Seq<Seq<char>>) -> DirectiveModel {
    let n = ts.len() as int;
    if n == 0 {
        DirectiveModel::Empty
    } else {
        let verb = ts[0];
        if verb == "exit"@ || verb == "quit"@ {
            DirectiveModel::Exit
        } else if verb == "help"@ || verb == "h"@ {
            DirectiveModel::Help
        } else if verb == "navigate"@ || verb == "go"@ {
            if n < 2 {
                DirectiveModel::Usage { hint: "Usage: navigate <url>"@ }
            } else {
                DirectiveModel::Navigate { url: join_spec(ts.subrange(1, n)) }
            }
        } else if verb == "click"@ {
            if n < 2 {
                DirectiveModel::Usage { hint: "Usage: click <selector>"@ }
            } else {
                DirectiveModel::Click { selector: ts[1] }
            }
        } else if verb == "clickat"@ {
            if n < 3 {
                DirectiveModel::Usage { hint: "Usage: clickat <x> <y>"@ }
            } else {
                DirectiveModel::ClickAt { x: ts[1], y: ts[2] }
            }
        } else if verb == "doubleclickat"@ {
            if n < 3 {
                DirectiveModel::Usage { hint: "Usage: doubleclickat <x> <y>"@ }
            } else {
                DirectiveModel::DoubleClickAt { x: ts[1], y: ts[2] }
            }
        } else if verb == "rightclickat"@ {
            if n < 3 {
                DirectiveModel::Usage { hint: "Usage: rightclickat <x> <y>"@ }
            } else {
                DirectiveModel::RightClickAt { x: ts[1], y: ts[2] }
            }
        } else if verb == "type"@ {
            if n < 3 {
                DirectiveModel::Usage { hint: "Usage: type <selector> <text>"@ }
            } else {
                DirectiveModel::TypeText { selector: ts[1], text: join_spec(ts.subrange(2, n)) }
            }
        } else if verb == "scroll"@ {
            if n < 2 {
                DirectiveModel::Usage { hint: "Usage: scroll <up|down|top|bottom> [amount]"@ }
            } else {
                DirectiveModel::Scroll {
                    direction: ts[1],
                    amount: if n >= 3 {
                        parse_i32_spec(ts[2])
                    } else {
                        None
                    },
                }
            }
        } else if verb == "search"@ {
            if n < 2 {
                DirectiveModel::Usage { hint: "Usage: search <query>"@ }
            } else {
                DirectiveModel::Search { query: join_spec(ts.subrange(1, n)) }
            }
        } else if verb == "screenshot"@ || verb == "ss"@ {
            DirectiveModel::Screenshot {
                filename: if n >= 2 {
                    Some(ts[1])
                } else {
                    None
                },
            }
        } else if verb == "text"@ {
            DirectiveModel::Text {
                selector: if n >= 2 {
                    Some(ts[1])
                } else {
                    None
                },
            }
        } else if verb == "js"@ || verb == "eval"@ {
            if n < 2 {
                DirectiveModel::Usage { hint: "Usage: js <javascript_code>"@ }
            } else {
                DirectiveModel::Js { code: join_spec(ts.subrange(1, n)) }
            }
        } else if verb == "url"@ {
            DirectiveModel::Url
        } else if verb == "title"@ {
            DirectiveModel::Title
        } else if verb == "reload"@ || verb == "refresh"@ {
            DirectiveModel::Reload
        } else if verb == "back"@ {
            DirectiveModel::Back
        } else if verb == "forward"@ {
            DirectiveModel::Forward
        } else if verb == "waitfor"@ {
            if n < 2 {
                DirectiveModel::Usage { hint: "Usage: waitfor <selector> [timeout]"@ }
            } else {
                DirectiveModel::WaitFor {
                    selector: ts[1],
                    timeout_secs: if n >= 3 {
                        parse_u64_spec(ts[2])
                    } else {
                        None
                    },
                }
            }
        } else if verb == "waitfortext"@ {
            if n < 2 {
                DirectiveModel::Usage { hint: "Usage: waitfortext <text> [timeout]"@ }
            } else if n > 2 && parse_u64_spec(ts[n - 1]) is Some {
                DirectiveModel::WaitForText {
                    text: join_spec(ts.subrange(1, n - 1)),
                    timeout_secs: parse_u64_spec(ts[n - 1]),
                }
            } else {
                DirectiveModel::WaitForText {
                    text: join_spec(ts.subrange(1, n)),
                    timeout_secs: None,
                }
            }
        } else if verb == "waitfornav"@ {
            DirectiveModel::WaitForNav {
                timeout_secs: if n >= 2 {
                    parse_u64_spec(ts[1])
                } else {
                    None
                },
            }
        } else if verb == "highlight"@ {
            if n < 2 {
                DirectiveModel::Usage { hint: "Usage: highlight <selector>"@ }
            } else {
                DirectiveModel::Highlight { selector: ts[1] }
            }
        } else if verb == "clear"@ || verb == "cls"@ {
            DirectiveModel::Clear
        } else if verb == "status"@ {
            DirectiveModel::Status
        } else if verb == "info"@ {
            DirectiveModel::Info
        } else if verb == "elements"@ {
            DirectiveModel::Elements
        } else if verb == "fill"@ {
            if n < 3 {
                DirectiveModel::Usage { hint: "Usage: fill <selector> <value>"@ }
            } else {
                DirectiveModel::Fill { selector: ts[1], value: join_spec(ts.subrange(2, n)) }
            }
        } else if verb == "submit"@ {
            DirectiveModel::Submit {
                selector: if n >= 2 {
                    Some(ts[1])
                } else {
                    None
                },
            }
        } else if verb == "ticker"@ {
            let interval = match (if n >= 3 {
                parse_u64_spec(ts[2])
            } else {
                None
            }) {
                Some(v) => v,
                None => 2,
            };
            if interval == 0 {
                DirectiveModel::Usage { hint: "Interval must be greater than 0 seconds"@ }
            } else {
                DirectiveModel::Ticker {
                    selector: if n >= 2 {
                        Some(ts[1])
                    } else {
                        None
                    },
                    interval_secs: interval,
                    max_iterations: if n >= 4 {
                        parse_u64_spec(ts[3])
                    } else {
                        None
                    },
                }
            }
        } else if verb == "waitenhanced"@ {
            if n < 2 {
                DirectiveModel::Usage { hint: "Usage: waitenhanced <selector> [timeout_seconds]"@ }
            } else {
                DirectiveModel::WaitEnhanced {
                    selector: ts[1],
                    timeout_secs: match (if n >= 3 {
                        parse_u64_spec(ts[2])
                    } else {
                        None
                    }) {
                        Some(v) => v,
                        None => 10,
                    },
                }
            }
        } else {
            DirectiveModel::Unknown { verb: ts[0] }
        }
    }
}

fn parse_u64_token(token: &String) -> (r: Option<u64>)
    ensures
        match r {
            Some(x) => parse_u64_spec(token@) == Some(x as int),
            None => parse_u64_spec(token@) is None,
        },
{
    let v = chars_of(token.as_str());
    parse_u64(v.as_slice())
}

fn parse_i32_token(token: &String) -> (r: Option<i32>)
    ensures
        match r {
            Some(x) => parse_i32_spec(token@) == Some(x as int),
            None => parse_i32_spec(token@) is None,
        },
{
    let v = chars_of(token.as_str());
    parse_i32(v.as_slice())
}

fn usage(hint: &str) -> (r: Directive)
    ensures
        r@ == (DirectiveModel::Usage { hint: hint@ }),
{
    Directive::Usage { hint: String::from_str(hint) }
}

/// Routes one token sequence to its directive, exactly as the dispatch table
/// says.
pub fn parse_tokens(tokens: &Vec<String>) -> (r: Directive)
    ensures
        r@ == directive_model(tokens_view(tokens@)),
{
    let ghost tv = tokens_view(tokens@);
    let n = tokens.len();
    proof {
        assert(tv.len() == tokens@.len());
    }
    if n == 0 {
        return Directive::Empty;
    }
    let verb = tokens[0].as_str();
    proof {
        assert(tv[0] == tokens@[0]@);
    }
    if str_eq(verb, "exit") || str_eq(verb, "quit") {
        Directive::Exit
    } else if str_eq(verb, "help") || str_eq(verb, "h") {
        Directive::Help
    } else if str_eq(verb, "navigate") || str_eq(verb, "go") {
        if n < 2 {
            usage("Usage: navigate <url>")
        } else {
            Directive::Navigate { url: join_range(tokens, 1, n) }
        }
    } else if str_eq(verb, "click") {
        if n < 2 {
            usage("Usage: click <selector>")
        } else {
            Directive::Click { selector: tokens[1].clone() }
        }
    } else if str_eq(verb, "clickat") {
        if n < 3 {
            usage("Usage: clickat <x> <y>")
        } else {
            Directive::ClickAt { x: tokens[1].clone(), y: tokens[2].clone() }
        }
    } else if str_eq(verb, "doubleclickat") {
        if n < 3 {
            usage("Usage: doubleclickat <x> <y>")
        } else {
            Directive::DoubleClickAt { x: tokens[1].clone(), y: tokens[2].clone() }
        }
    } else if str_eq(verb, "rightclickat") {
        if n < 3 {
            usage("Usage: rightclickat <x> <y>")
        } else {
            Directive::RightClickAt { x: tokens[1].clone(), y: tokens[2].clone() }
        }
    } else if str_eq(verb, "type") {
        if n < 3 {
            usage("Usage: type <selector> <text>")
        } else {
            Directive::TypeText { selector: tokens[1].clone(), text: join_range(tokens, 2, n) }
        }
    } else if str_eq(verb, "scroll") {
        if n < 2 {
            usage("Usage: scroll <up|down|top|bottom> [amount]")
        } else {
            let amount = if n >= 3 {
                parse_i32_token(&tokens[2])
            } else {
                None
            };
            Directive::Scroll { direction: tokens[1].clone(), amount }
        }
    } else if str_eq(verb, "search") {
        if n < 2 {
            usage("Usage: search <query>")
        } else {
            Directive::Search { query: join_range(tokens, 1, n) }
        }
    } else if str_eq(verb, "screenshot") || str_eq(verb, "ss") {
        let filename = if n >= 2 {
            Some(tokens[1].clone())
        } else {
            None
        };
        Directive::Screenshot { filename }
    } else if str_eq(verb, "text") {
        let selector = if n >= 2 {
            Some(tokens[1].clone())
        } else {
            None
        };
        Directive::Text { selector }
    } else if str_eq(verb, "js") || str_eq(verb, "eval") {
        if n < 2 {
            usage("Usage: js <javascript_code>")
        } else {
            Directive::Js { code: join_range(tokens, 1, n) }
        }
    } else if str_eq(verb, "url") {
        Directive::Url
    } else if str_eq(verb, "title") {
        Directive::Title
    } else if str_eq(verb, "reload") || str_eq(verb, "refresh") {
        Directive::Reload
    } else if str_eq(verb, "back") {
        Directive::Back
    } else if str_eq(verb, "forward") {
        Directive::Forward
    } else if str_eq(verb, "waitfor") {
        if n < 2 {
            usage("Usage: waitfor <selector> [timeout]")
        } else {
            let timeout_secs = if n >= 3 {
                parse_u64_token(&tokens[2])
            } else {
                None
            };
            Directive::WaitFor { selector: tokens[1].clone(), timeout_secs }
        }
    } else if str_eq(verb, "waitfortext") {
        if n < 2 {
            usage("Usage: waitfortext <text> [timeout]")
        } else {
            let trailing = if n > 2 {
                parse_u64_token(&tokens[n - 1])
            } else {
                None
            };
            match trailing {
                Some(t) => Directive::WaitForText {
                    text: join_range(tokens, 1, n - 1),
                    timeout_secs: Some(t),
                },
                None => Directive::WaitForText {
                    text: join_range(tokens, 1, n),
                    timeout_secs: None,
                },
            }
        }
    } else if str_eq(verb, "waitfornav") {
        let timeout_secs = if n >= 2 {
            parse_u64_token(&tokens[1])
        } else {
            None
        };
        Directive::WaitForNav { timeout_secs }
    } else if str_eq(verb, "highlight") {
        if n < 2 {
            usage("Usage: highlight <selector>")
        } else {
            Directive::Highlight { selector: tokens[1].clone() }
        }
    } else if str_eq(verb, "clear") || str_eq(verb, "cls") {
        Directive::Clear
    } else if str_eq(verb, "status") {
        Directive::Status
    } else if str_eq(verb, "info") {
        Directive::Info
    } else if str_eq(verb, "elements") {
        Directive::Elements
    } else if str_eq(verb, "fill") {
        if n < 3 {
            usage("Usage: fill <selector> <value>")
        } else {
            Directive::Fill { selector: tokens[1].clone(), value: join_range(tokens, 2, n) }
        }
    } else if str_eq(verb, "submit") {
        let selector = if n >= 2 {
            Some(tokens[1].clone())
        } else {
            None
        };
        Directive::Submit { selector }
    } else if str_eq(verb, "ticker") {
        let interval_secs: u64 = if n >= 3 {
            match parse_u64_token(&tokens[2]) {
                Some(v) => v,
                None => 2,
            }
        } else {
            2
        };
        if interval_secs == 0 {
            usage("Interval must be greater than 0 seconds")
        } else {
            let selector = if n >= 2 {
                Some(tokens[1].clone())
            } else {
                None
            };
            let max_iterations = if n >= 4 {
                parse_u64_token(&tokens[3])
            } else {
                None
            };
            Directive::Ticker { selector, interval_secs, max_iterations }
        }
    } else if str_eq(verb, "waitenhanced") {
        if n < 2 {
            usage("Usage: waitenhanced <selector> [timeout_seconds]")
        } else {
            let timeout_secs: u64 = if n >= 3 {
                match parse_u64_token(&tokens[2]) {
                    Some(v) => v,
                    None => 10,
                }
            } else {
                10
            };
            Directive::WaitEnhanced { selector: tokens[1].clone(), timeout_secs }
        }
    } else {
        Directive::Unknown { verb: tokens[0].clone() }
    }
}

/// Tokenizes one input line and routes it.
pub fn parse_line(line: &str) -> (r: Directive)
    ensures
        r@ == directive_model(tokens_spec(line@)),
{
    let tokens = tokenize(line);
    parse_tokens(&tokens)
}

/// The verbs (and loop sentinels) the dispatch table knows.
pub open spec fn known_verb(v: Seq<char>) -> bool {
    ||| v == "exit"@
    ||| v == "quit"@
    ||| v == "help"@
    ||| v == "h"@
    ||| v == "navigate"@
    ||| v == "go"@
    ||| v == "click"@
    ||| v == "clickat"@
    ||| v == "doubleclickat"@
    ||| v == "rightclickat"@
    ||| v == "type"@
    ||| v == "scroll"@
    ||| v == "search"@
    ||| v == "screenshot"@
    ||| v == "ss"@
    ||| v == "text"@
    ||| v == "js"@
    ||| v == "eval"@
    ||| v == "url"@
    ||| v == "title"@
    ||| v == "reload"@
    ||| v == "refresh"@
    ||| v == "back"@
    ||| v == "forward"@
    ||| v == "waitfor"@
    ||| v == "waitfortext"@
    ||| v == "waitfornav"@
    ||| v == "highlight"@
    ||| v == "clear"@
    ||| v == "cls"@
    ||| v == "status"@
    ||| v == "info"@
    ||| v == "elements"@
    ||| v == "fill"@
    ||| v == "submit"@
    ||| v == "ticker"@
    ||| v == "waitenhanced"@
}

/// An unknown verb is inert: it routes to a directive that names it back for
/// a warning and commands no session operation, so the loop goes on with the
/// session exactly as it was.
pub proof fn lemma_unknown_verb_is_inert(ts: Seq<Seq<char>>)
    requires
        ts.len() > 0,
        !known_verb(ts[0]),
    ensures
        directive_model(ts) == (DirectiveModel::Unknown { verb: ts[0] }),
{
}

} // verus!
