//! Extraction of the authorization outcome from the raw redirect request.
//!
//! Only the request line is interpreted: its second whitespace-separated
//! token is the request target, the part of the target after the first `?`
//! is the query, the query splits on `&` into `key=value` pairs (the value
//! empty when `=` is absent, the last occurrence of a key winning), and the
//! values bound to `code`, `error` and `error_description` are
//! percent-decoded.  Parsing is total: malformed input yields an outcome
//! whose `error` field carries a diagnostic.

use vstd::prelude::*;

use crate::decode::decode_chars;
use crate::decode::decode_spec;
use crate::text::after_char;
use crate::text::before_char;
use crate::text::find_char;
use crate::text::is_ws;
use crate::text::lemma_after_char_len;
use crate::text::lemma_split_at_first;
use crate::text::slice_eq_str;
use crate::text::slice_range_to_vec;
use crate::text::str_to_chars;
use crate::text::chars_to_string;
use crate::OAuthCallbackResult;
use crate::OutcomeModel;

verus! {

/// `s` without its leading whitespace.
pub open spec fn drop_ws(s: Seq<char>) -> Seq<char>
    decreases s.len(),
{
    if s.len() > 0 && is_ws(s[0]) {
        drop_ws(s.skip(1))
    } else {
        s
    }
}

/// The leading run of non-whitespace characters of `s`.
pub open spec fn take_tok(s: Seq<char>) -> Seq<char>
    decreases s.len(),
{
    if s.len() > 0 && !is_ws(s[0]) {
        seq![s[0]] + take_tok(s.skip(1))
    } else {
        Seq::empty()
    }
}

/// `s` without its leading run of non-whitespace characters.
pub open spec fn drop_tok(s: Seq<char>) -> Seq<char>
    decreases s.len(),
{
    if s.len() > 0 && !is_ws(s[0]) {
        drop_tok(s.skip(1))
    } else {
        s
    }
}

/// The second whitespace-separated token of `line`, when `line` has at
/// least two tokens.
pub open spec fn second_token(line: Seq<char>) -> Option<Seq<char>> {
    let r1 = drop_ws(line);
    if r1.len() == 0 {
        None
    } else {
        let r2 = drop_ws(drop_tok(r1));
        if r2.len() == 0 {
            None
        } else {
            Some(take_tok(r2))
        }
    }
}

/// The first line of the request: everything before the first line feed,
/// with one trailing carriage return stripped.
pub open spec fn first_line_of(r: Seq<char>) -> Seq<char> {
    let l = before_char(r, '\n');
    if l.len() > 0 && l[l.len() - 1] == '\r' {
        l.take(l.len() - 1)
    } else {
        l
    }
}

/// The key of one `key=value` pair: everything before the first `=`.
pub open spec fn pair_key(p: Seq<char>) -> Seq<char> {
    before_char(p, '=')
}

/// The raw value of one `key=value` pair: everything after the first `=`,
/// or empty when there is none.
pub open spec fn pair_val(p: Seq<char>) -> Seq<char> {
    match after_char(p, '=') {
        Some(v) => v,
        None => Seq::empty(),
    }
}

/// The first of two optional values that is present, if any.
pub open spec fn opt_join(a: Option<Seq<char>>, b: Option<Seq<char>>) -> Option<Seq<char>> {
    if a is Some {
        a
    } else {
        b
    }
}

/// The raw value bound to `key` in the query `q`: pairs split on `&`,
/// the last occurrence of a duplicate key winning.
pub open spec fn lookup_raw(q: Seq<char>, key: Seq<char>) -> Option<Seq<char>>
    decreases q.len(),
    via lookup_raw_decreases
{
    let p = before_char(q, '&');
    let here = if pair_key(p) == key {
        Some(pair_val(p))
    } else {
        None
    };
    match after_char(q, '&') {
        None => here,
        Some(r) => opt_join(lookup_raw(r, key), here),
    }
}

#[via_fn]
proof fn lookup_raw_decreases(q: Seq<char>, key: Seq<char>) {
    lemma_after_char_len(q, '&');
}

/// The decoded value bound to `key` in the query `q`.
pub open spec fn lookup_decoded(q: Seq<char>, key: Seq<char>) -> Option<Seq<char>> {
    match lookup_raw(q, key) {
        Some(v) => Some(decode_spec(v)),
        None => None,
    }
}

/// What parsing a raw request yields, for every input.
pub open spec fn parse_spec(req: Seq<char>) -> OutcomeModel {
    let line = first_line_of(req);
    match second_token(line) {
        None => OutcomeModel {
            code: None,
            error: Some("Invalid HTTP request"@),
            error_description: None,
        },
        Some(target) => match after_char(target, '?') {
            None => OutcomeModel {
                code: None,
                error: Some("No query parameters in callback"@),
                error_description: None,
            },
            Some(q) => OutcomeModel {
                code: lookup_decoded(q, "code"@),
                error: lookup_decoded(q, "error"@),
                error_description: lookup_decoded(q, "error_description"@),
            },
        },
    }
}

/// Dropping leading whitespace, described by the index `i` of the first
/// non-whitespace character (`i == s.len()` when there is none).
proof fn lemma_drop_ws(s: Seq<char>, i: int)
    requires
        0 <= i <= s.len(),
        forall|j: int| 0 <= j < i ==> is_ws(s[j]),
        i < s.len() ==> !is_ws(s[i]),
    ensures
        drop_ws(s) == s.skip(i),
    decreases s.len(),
{
    if i == 0 {
        assert(s.skip(0) =~= s);
    } else {
        lemma_drop_ws(s.skip(1), i - 1);
        assert(s.skip(1).skip(i - 1) =~= s.skip(i));
    }
}

/// Taking and dropping the leading token, described by the index `k` of the
/// first whitespace character (`k == s.len()` when there is none).
proof fn lemma_tok(s: Seq<char>, k: int)
    requires
        0 <= k <= s.len(),
        forall|j: int| 0 <= j < k ==> !is_ws(s[j]),
        k < s.len() ==> is_ws(s[k]),
    ensures
        take_tok(s) == s.take(k),
        drop_tok(s) == s.skip(k),
    decreases s.len(),
{
    if k == 0 {
        assert(take_tok(s) =~= s.take(0));
        assert(s.skip(0) =~= s);
    } else {
        lemma_tok(s.skip(1), k - 1);
        assert(seq![s[0]] + s.skip(1).take(k - 1) =~= s.take(k));
        assert(s.skip(1).skip(k - 1) =~= s.skip(k));
    }
}

/// A request whose target carries a query binding `code` (and not binding
/// `error`) parses to exactly that code, percent-decoded, with the `error`
/// field empty.
pub proof fn lemma_code_yields_code(req: Seq<char>, target: Seq<char>, q: Seq<char>)
    requires
        second_token(first_line_of(req)) == Some(target),
        after_char(target, '?') == Some(q),
        lookup_raw(q, "code"@) is Some,
        lookup_raw(q, "error"@) is None,
    ensures
        parse_spec(req).code == Some(decode_spec(lookup_raw(q, "code"@)->0)),
        parse_spec(req).error is None,
{
}

/// A request whose target carries a query binding `error` (and not binding
/// `code`) parses to exactly that error, percent-decoded, with the `code`
/// field empty.
pub proof fn lemma_error_yields_error(req: Seq<char>, target: Seq<char>, q: Seq<char>)
    requires
        second_token(first_line_of(req)) == Some(target),
        after_char(target, '?') == Some(q),
        lookup_raw(q, "error"@) is Some,
        lookup_raw(q, "code"@) is None,
    ensures
        parse_spec(req).error == Some(decode_spec(lookup_raw(q, "error"@)->0)),
        parse_spec(req).code is None,
{
}

/// A request line whose target holds no `?` parses to the no-query
/// diagnostic, with no code.
pub proof fn lemma_no_query(req: Seq<char>, target: Seq<char>)
    requires
        second_token(first_line_of(req)) == Some(target),
        after_char(target, '?') is None,
    ensures
        parse_spec(req).error == Some("No query parameters in callback"@),
        parse_spec(req).code is None,
        parse_spec(req).error_description is None,
{
}

/// A request line with fewer than two whitespace-separated tokens parses to
/// the invalid-request diagnostic, with no code.
pub proof fn lemma_too_few_tokens(req: Seq<char>)
    requires
        second_token(first_line_of(req)) is None,
    ensures
        parse_spec(req).error == Some("Invalid HTTP request"@),
        parse_spec(req).code is None,
        parse_spec(req).error_description is None,
{
}

/// Whether the parser treats `ch` as whitespace.
fn is_ws_char(ch: char) -> (r: bool)
    ensures
        r == is_ws(ch),
{
    ch == ' ' || ch == '\t' || ch == '\r' || ch == '\n' || ch == '\x0c'
}

/// The first index in `[from, to)` holding a non-whitespace character, or `to`.
fn skip_ws(v: &[char], from: usize, to: usize) -> (i: usize)
    requires
        from <= to <= v@.len(),
    ensures
        from <= i <= to,
        forall|j: int| from <= j < i ==> is_ws(v@[j]),
        i < to ==> !is_ws(v@[i as int]),
{
    let mut i: usize = from;
    while i < to
        invariant
            from <= i <= to <= v@.len(),
            forall|j: int| from <= j < i ==> is_ws(v@[j]),
        decreases to - i,
    {
        if !is_ws_char(v[i]) {
            return i;
        }
        i = i + 1;
    }
    i
}

/// The first index in `[from, to)` holding a whitespace character, or `to`.
fn scan_tok(v: &[char], from: usize, to: usize) -> (i: usize)
    requires
        from <= to <= v@.len(),
    ensures
        from <= i <= to,
        forall|j: int| from <= j < i ==> !is_ws(v@[j]),
        i < to ==> is_ws(v@[i as int]),
{
    let mut i: usize = from;
    while i < to
        invariant
            from <= i <= to <= v@.len(),
            forall|j: int| from <= j < i ==> !is_ws(v@[j]),
        decreases to - i,
    {
        if is_ws_char(v[i]) {
            return i;
        }
        i = i + 1;
    }
    i
}

/// Spec view of an optional vector of characters.
pub open spec fn opt_view(o: Option<Vec<char>>) -> Option<Seq<char>> {
    match o {
        Some(v) => Some(v@),
        None => None,
    }
}

/// An outcome carrying only a diagnostic message.
fn error_outcome(msg: String) -> (r: OAuthCallbackResult)
    ensures
        r.model() == (OutcomeModel { code: None, error: Some(msg@), error_description: None }),
{
    OAuthCallbackResult { code: None, error: Some(msg), error_description: None }
}

/// Decodes an optional raw value into an optional string.
fn decode_opt(o: Option<Vec<char>>) -> (r: Option<String>)
    ensures
        match o {
            Some(v) => r is Some && r->0@ == decode_spec(v@),
            None => r is None,
        },
{
    match o {
        Some(v) => {
            let dv: Vec<char> = decode_chars(v.as_slice());
            let n: usize = dv.len();
            let s: String = chars_to_string(dv.as_slice(), 0, n);
            proof {
                assert(dv@.subrange(0, dv@.len() as int) =~= dv@);
            }
            Some(s)
        },
        None => None,
    }
}

/// Parses the raw redirect request into an authorization outcome,
/// following `parse_spec` exactly.
#[verifier::rlimit(100)]
pub fn parse_oauth_callback(request: &str) -> (r: OAuthCallbackResult)
    ensures
        r.model() == parse_spec(request@),
{
    let v: Vec<char> = str_to_chars(request);
    let len: usize = v.len();

    // The request line: up to the first line feed, minus a trailing '\r'.
    let nl: Option<usize> = find_char(v.as_slice(), 0, len, '\n');
    let mut line_end: usize = match nl {
        Some(i) => i,
        None => len,
    };
    proof {
        lemma_split_at_first(v@, '\n', line_end as int);
        assert(v@.take(len as int) =~= v@);
        assert(before_char(v@, '\n') == v@.take(line_end as int));
    }
    let ghost l0: Seq<char> = v@.take(line_end as int);
    if line_end > 0 && v[line_end - 1] == '\r' {
        proof {
            assert(l0[l0.len() - 1] == v@[line_end - 1]);
            assert(l0.take(l0.len() - 1) =~= v@.take(line_end - 1));
        }
        line_end = line_end - 1;
    } else {
        proof {
            assert(l0.len() > 0 ==> l0[l0.len() - 1] == v@[line_end - 1]);
        }
    }
    let ghost line: Seq<char> = v@.take(line_end as int);
    proof {
        assert(first_line_of(request@) == line);
    }

    // Tokens of the request line: the second one is the request target.
    let a: usize = skip_ws(v.as_slice(), 0, line_end);
    proof {
        assert(forall|j: int| 0 <= j < line_end ==> line[j] == v@[j]);
        lemma_drop_ws(line, a as int);
    }
    if a == line_end {
        proof {
            assert(drop_ws(line).len() == 0);
        }
        return error_outcome("Invalid HTTP request".to_owned());
    }
    let b: usize = scan_tok(v.as_slice(), a, line_end);
    proof {
        let r1 = line.skip(a as int);
        assert(forall|j: int| 0 <= j < line_end - a ==> r1[j] == v@[a + j]);
        lemma_tok(r1, b - a);
        assert(r1.skip(b - a) =~= line.skip(b as int));
    }
    let c: usize = skip_ws(v.as_slice(), b, line_end);
    proof {
        let r1b = line.skip(b as int);
        assert(forall|j: int| 0 <= j < line_end - b ==> r1b[j] == v@[b + j]);
        lemma_drop_ws(r1b, c - b);
        assert(r1b.skip(c - b) =~= line.skip(c as int));
    }
    if c == line_end {
        proof {
            assert(drop_ws(drop_tok(drop_ws(line))).len() == 0);
        }
        return error_outcome("Invalid HTTP request".to_owned());
    }
    let d: usize = scan_tok(v.as_slice(), c, line_end);
    let ghost target: Seq<char> = v@.subrange(c as int, d as int);
    proof {
        let r2 = line.skip(c as int);
        assert(forall|j: int| 0 <= j < line_end - c ==> r2[j] == v@[c + j]);
        lemma_tok(r2, d - c);
        assert(r2.take(d - c) =~= target);
        assert(second_token(line) == Some(target));
    }

    // The query: everything after the first '?' of the target.
    let qm: Option<usize> = find_char(v.as_slice(), c, d, '?');
    let qs: usize = match qm {
        Some(i) => i + 1,
        None => {
            proof {
                assert(forall|j: int| 0 <= j < target.len() ==> target[j] == v@[c + j]);
                lemma_split_at_first(target, '?', (d - c) as int);
            }
            return error_outcome("No query parameters in callback".to_owned());
        },
    };
    let ghost q: Seq<char> = v@.subrange(qs as int, d as int);
    proof {
        let i = (qs - 1 - c) as int;
        assert(forall|j: int| 0 <= j < target.len() ==> target[j] == v@[c + j]);
        lemma_split_at_first(target, '?', i);
        assert(target.skip(i + 1) =~= q);
        assert(after_char(target, '?') == Some(q));
    }

    // Scan the pairs of the query, last occurrence of each key winning.
    let mut rs: usize = qs;
    let mut cur_code: Option<Vec<char>> = None;
    let mut cur_error: Option<Vec<char>> = None;
    let mut cur_desc: Option<Vec<char>> = None;
    let mut done: bool = false;
    proof {
        assert(v@.subrange(rs as int, d as int) =~= q);
    }
    while !done
        invariant
            qs <= rs <= d <= v@.len(),
            q == v@.subrange(qs as int, d as int),
            !done ==> opt_join(lookup_raw(v@.subrange(rs as int, d as int), "code"@), opt_view(cur_code))
                == lookup_raw(q, "code"@),
            !done ==> opt_join(lookup_raw(v@.subrange(rs as int, d as int), "error"@), opt_view(cur_error))
                == lookup_raw(q, "error"@),
            !done ==> opt_join(
                lookup_raw(v@.subrange(rs as int, d as int), "error_description"@),
                opt_view(cur_desc),
            ) == lookup_raw(q, "error_description"@),
            done ==> opt_view(cur_code) == lookup_raw(q, "code"@),
            done ==> opt_view(cur_error) == lookup_raw(q, "error"@),
            done ==> opt_view(cur_desc) == lookup_raw(q, "error_description"@),
        decreases (if done { 0int } else { d - rs + 1 }),
    {
        let ghost rem = v@.subrange(rs as int, d as int);
        let amp: Option<usize> = find_char(v.as_slice(), rs, d, '&');
        let pe: usize = match amp {
            Some(i) => i,
            None => d,
        };
        let ghost pair = v@.subrange(rs as int, pe as int);
        proof {
            assert(forall|j: int| 0 <= j < rem.len() ==> rem[j] == v@[rs + j]);
            lemma_split_at_first(rem, '&', (pe - rs) as int);
            assert(rem.take((pe - rs) as int) =~= pair);
            assert(before_char(rem, '&') == pair);
        }
        let eqp: Option<usize> = find_char(v.as_slice(), rs, pe, '=');
        let ke: usize = match eqp {
            Some(i) => i,
            None => pe,
        };
        let vlo: usize = match eqp {
            Some(i) => i + 1,
            None => pe,
        };
        let ghost key_seq = v@.subrange(rs as int, ke as int);
        let ghost val_seq = v@.subrange(vlo as int, pe as int);
        proof {
            assert(forall|j: int| 0 <= j < pair.len() ==> pair[j] == v@[rs + j]);
            lemma_split_at_first(pair, '=', (ke - rs) as int);
            assert(pair.take((ke - rs) as int) =~= key_seq);
            assert(pair_key(pair) == key_seq);
            if ke < pe {
                assert(pair.skip((ke - rs) as int + 1) =~= val_seq);
            } else {
                assert(val_seq =~= Seq::<char>::empty());
            }
            assert(pair_val(pair) == val_seq);
            reveal_strlit("code");
            reveal_strlit("error");
            reveal_strlit("error_description");
        }
        if slice_eq_str(v.as_slice(), rs, ke, "code") {
            cur_code = Some(slice_range_to_vec(v.as_slice(), vlo, pe));
        } else if slice_eq_str(v.as_slice(), rs, ke, "error") {
            cur_error = Some(slice_range_to_vec(v.as_slice(), vlo, pe));
        } else if slice_eq_str(v.as_slice(), rs, ke, "error_description") {
            cur_desc = Some(slice_range_to_vec(v.as_slice(), vlo, pe));
        }
        match amp {
            Some(i) => {
                proof {
                    assert(rem.skip((pe - rs) as int + 1) =~= v@.subrange(pe + 1, d as int));
                }
                rs = i + 1;
            },
            None => {
                done = true;
            },
        }
    }

    let code: Option<String> = decode_opt(cur_code);
    let error: Option<String> = decode_opt(cur_error);
    let error_description: Option<String> = decode_opt(cur_desc);
    let r = OAuthCallbackResult { code, error, error_description };
    proof {
        assert(r.model() == parse_spec(request@));
    }
    r
}

} // verus!
