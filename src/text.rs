//! Character-level helpers: conversion between strings and character vectors,
//! literal placeholder substitution, and decimal rendering of integers.
use vstd::prelude::*;

verus! {

/// The placeholder that template content uses for the application name.
pub open spec fn app_name_token() -> Seq<char> {
    seq!['{', 'a', 'p', 'p', '_', 'n', 'a', 'm', 'e', '}']
}

/// `s` holds `q` at position `i`.
pub open spec fn occurs_at(s: Seq<char>, q: Seq<char>, i: int) -> bool {
    0 <= i && i + q.len() <= s.len() && s.subrange(i, i + q.len()) == q
}

/// `s` begins with `q`.
pub open spec fn starts_with(s: Seq<char>, q: Seq<char>) -> bool {
    occurs_at(s, q, 0)
}

/// No position of `s` holds `q`.
pub open spec fn free_of(s: Seq<char>, q: Seq<char>) -> bool {
    forall|i: int| !occurs_at(s, q, i)
}

/// Single left-to-right pass: every occurrence of `pat` met while scanning is
/// replaced by `rep`, and the inserted text is never scanned again. An empty
/// pattern matches nothing.
pub open spec fn replace_all(s: Seq<char>, pat: Seq<char>, rep: Seq<char>) -> Seq<char>
    decreases s.len(),
{
    if s.len() == 0 {
        Seq::empty()
    } else if pat.len() > 0 && starts_with(s, pat) {
        rep + replace_all(s.skip(pat.len() as int), pat, rep)
    } else {
        seq![s[0]] + replace_all(s.skip(1), pat, rep)
    }
}

/// Every occurrence of the application-name token in `s` replaced by `name`,
/// in a single pass.
pub open spec fn substitute(s: Seq<char>, name: Seq<char>) -> Seq<char> {
    replace_all(s, app_name_token(), name)
}

/// `c` is one of the characters that make up the placeholder token.
pub open spec fn is_token_char(c: char) -> bool {
    app_name_token().contains(c)
}

/// A name that shares no character with the token and is not empty.
pub open spec fn inert_name(name: Seq<char>) -> bool {
    name.len() > 0 && forall|i: int| 0 <= i < name.len() ==> !is_token_char(#[trigger] name[i])
}

/// Text that does not begin with the token keeps its first character.
proof fn lemma_substitute_unmatched_head(s: Seq<char>, name: Seq<char>)
    requires
        s.len() > 0,
        !starts_with(s, app_name_token()),
    ensures
        substitute(s, name) == seq![s[0]] + substitute(s.skip(1), name),
{
}

/// If the substituted text begins with a run of token characters, the source
/// began with that same run (an inert name can contribute none of them).
proof fn lemma_token_prefix_from_source(s: Seq<char>, name: Seq<char>, q: Seq<char>)
    requires
        inert_name(name),
        forall|k: int| 0 <= k < q.len() ==> is_token_char(#[trigger] q[k]),
        starts_with(substitute(s, name), q),
    ensures
        starts_with(s, q),
    decreases q.len(),
{
    if q.len() == 0 {
        assert(s.subrange(0, 0) =~= q);
    } else {
        let out = substitute(s, name);
        if s.len() == 0 {
            assert(out.len() == 0);
        } else if starts_with(s, app_name_token()) {
            assert(out[0] == name[0]);
            assert(out.subrange(0, q.len() as int)[0] == q[0]);
            assert(is_token_char(q[0]));
        } else {
            lemma_substitute_unmatched_head(s, name);
            let rest = substitute(s.skip(1), name);
            let q1 = q.skip(1);
            assert(out == seq![s[0]] + rest);
            assert forall|k: int| 0 <= k < q.len() implies out[k] == q[k] by {
                assert(out.subrange(0, q.len() as int)[k] == out[k]);
            }
            assert(s[0] == q[0]);
            assert(rest.subrange(0, q1.len() as int) =~= q1) by {
                assert forall|k: int| 0 <= k < q1.len() implies rest[k] == q1[k] by {
                    assert(out[k + 1] == rest[k]);
                }
            }
            assert forall|k: int| 0 <= k < q1.len() implies is_token_char(#[trigger] q1[k]) by {
                assert(q1[k] == q[k + 1]);
            }
            lemma_token_prefix_from_source(s.skip(1), name, q1);
            assert(s.subrange(0, q.len() as int) =~= q) by {
                assert forall|k: int| 0 <= k < q.len() implies s[k] == q[k] by {
                    if k > 0 {
                        assert(s.skip(1).subrange(0, q1.len() as int)[k - 1] == s[k]);
                    }
                }
            }
        }
    }
}

/// Substituting an inert name leaves no placeholder token in the result.
pub proof fn lemma_substitute_leaves_no_token(s: Seq<char>, name: Seq<char>)
    requires
        inert_name(name),
    ensures
        free_of(substitute(s, name), app_name_token()),
    decreases s.len(),
{
    let t = app_name_token();
    let out = substitute(s, name);
    if s.len() == 0 {
        assert forall|i: int| !occurs_at(out, t, i) by {}
    } else if starts_with(s, t) {
        let rest = substitute(s.skip(t.len() as int), name);
        lemma_substitute_leaves_no_token(s.skip(t.len() as int), name);
        assert(out == name + rest);
        assert forall|i: int| !occurs_at(out, t, i) by {
            if occurs_at(out, t, i) {
                if i < name.len() {
                    assert(out[i] == name[i]);
                    assert(out.subrange(i, i + t.len())[0] == t[0]);
                    assert(is_token_char(t[0]));
                } else {
                    let j = i - name.len();
                    assert(rest.subrange(j, j + t.len()) =~= out.subrange(i, i + t.len()));
                    assert(occurs_at(rest, t, j));
                }
            }
        }
    } else {
        lemma_substitute_unmatched_head(s, name);
        let rest = substitute(s.skip(1), name);
        lemma_substitute_leaves_no_token(s.skip(1), name);
        assert forall|i: int| !occurs_at(out, t, i) by {
            if occurs_at(out, t, i) {
                if i == 0 {
                    assert forall|k: int| 0 <= k < t.len() implies is_token_char(#[trigger] t[k]) by {
                        assert(t.contains(t[k]));
                    }
                    lemma_token_prefix_from_source(s, name, t);
                } else {
                    let j = i - 1;
                    assert(rest.subrange(j, j + t.len()) =~= out.subrange(i, i + t.len()));
                    assert(occurs_at(rest, t, j));
                }
            }
        }
    }
}

/// Substitution leaves text that holds no token unchanged.
pub proof fn lemma_substitute_token_free(s: Seq<char>, name: Seq<char>)
    requires
        free_of(s, app_name_token()),
    ensures
        substitute(s, name) == s,
    decreases s.len(),
{
    let t = app_name_token();
    if s.len() > 0 {
        assert(!occurs_at(s, t, 0));
        let rest = s.skip(1);
        assert forall|j: int| !occurs_at(rest, t, j) by {
            if occurs_at(rest, t, j) {
                assert(s.subrange(j + 1, j + 1 + t.len()) =~= rest.subrange(j, j + t.len()));
                assert(occurs_at(s, t, j + 1));
            }
        }
        lemma_substitute_token_free(rest, name);
        assert(seq![s[0]] + rest =~= s);
    }
}

/// Relies on String::push: appends one character.
#[verifier::external_body]
pub(crate) fn push_char(s: &mut String, c: char)
    ensures
        final(s)@ == old(s)@.push(c),
{
    s.push(c)
}

/// Appends every character of `v` to `s`.
pub fn push_chars(s: &mut String, v: &Vec<char>)
    ensures
        final(s)@ == old(s)@ + v@,
{
    for i in 0..v.len()
        invariant
            s@ == old(s)@ + v@.take(i as int),
    {
        push_char(s, v[i]);
        assert(v@.take(i + 1) =~= v@.take(i as int).push(v@[i as int]));
        assert(old(s)@ + v@.take(i + 1) =~= (old(s)@ + v@.take(i as int)).push(v@[i as int]));
    }
    assert(v@.take(v.len() as int) =~= v@);
}

/// Appends every character of `t` to `s`.
pub fn push_str(s: &mut String, t: &str)
    ensures
        final(s)@ == old(s)@ + t@,
{
    let v = chars_of(t);
    push_chars(s, &v);
}

/// The characters of `s`, in order.
pub fn chars_of(s: &str) -> (r: Vec<char>)
    ensures
        r@ == s@,
{
    broadcast use vstd::string::axiom_spec_iter;

    let mut r: Vec<char> = Vec::new();
    for c in it: s.chars()
        invariant
            r@ == it.seq().take(it.index() as int),
            it.seq() == s@,
    {
        r.push(c);
        assert(it.seq().take(it.index() + 1) =~= r@);
    }
    r
}

/// A string made of the characters of `v`.
pub fn string_of(v: &Vec<char>) -> (r: String)
    ensures
        r@ == v@,
{
    let mut r = String::new();
    push_chars(&mut r, v);
    assert(Seq::<char>::empty() + v@ =~= v@);
    r
}

/// A string with the characters of a literal or borrowed text.
pub fn owned(s: &str) -> (r: String)
    ensures
        r@ == s@,
{
    s.to_owned()
}

/// Replaces, in one left-to-right pass, each occurrence of `pat` in `v` by
/// `rep`. Text inserted for `rep` is not scanned again.
pub fn replace_chars(v: &Vec<char>, pat: &Vec<char>, rep: &Vec<char>) -> (r: String)
    ensures
        r@ == replace_all(v@, pat@, rep@),
{
    let mut out = String::new();
    let mut i: usize = 0;
    assert(v@.skip(0) =~= v@);
    assert(out@ + replace_all(v@, pat@, rep@) =~= replace_all(v@, pat@, rep@));
    while i < v.len()
        invariant
            i <= v.len(),
            out@ + replace_all(v@.skip(i as int), pat@, rep@) == replace_all(v@, pat@, rep@),
        decreases v.len() - i,
    {
        let ghost rest = v@.skip(i as int);
        if pat.len() > 0 && matches_at(v, pat, i) {
            assert(rest.subrange(0, pat@.len() as int) =~= v@.subrange(i as int, i + pat@.len()));
            assert(rest.skip(pat@.len() as int) =~= v@.skip(i + pat@.len()));
            let ghost before = out@;
            push_chars(&mut out, rep);
            assert(out@ + replace_all(v@.skip(i + pat@.len()), pat@, rep@) =~= before + (rep@
                + replace_all(rest.skip(pat@.len() as int), pat@, rep@)));
            i = i + pat.len();
        } else {
            assert(!(pat@.len() > 0 && starts_with(rest, pat@))) by {
                if pat@.len() > 0 && starts_with(rest, pat@) {
                    assert(rest.subrange(0, pat@.len() as int) =~= v@.subrange(i as int, i + pat@.len()));
                }
            }
            assert(rest.skip(1) =~= v@.skip(i + 1));
            let ghost before = out@;
            push_char(&mut out, v[i]);
            i = i + 1;
            assert(out@ + replace_all(v@.skip(i as int), pat@, rep@) =~= before + (seq![rest[0]]
                + replace_all(rest.skip(1), pat@, rep@)));
        }
    }
    assert(v@.skip(i as int) =~= Seq::<char>::empty());
    assert(out@ + Seq::<char>::empty() =~= out@);
    out
}

/// Replaces, in one left-to-right pass, each occurrence of `pattern` in
/// `content` by `value`. Text inserted for `value` is not scanned again.
pub fn replace_text(content: &str, pattern: &str, value: &str) -> (r: String)
    ensures
        r@ == replace_all(content@, pattern@, value@),
{
    let v = chars_of(content);
    let p = chars_of(pattern);
    let q = chars_of(value);
    replace_chars(&v, &p, &q)
}

/// Replaces, in one left-to-right pass, each occurrence of `{app_name}` in
/// `content` by `name`. Text inserted for `name` is not scanned again.
pub fn substitute_app_name(content: &str, name: &str) -> (r: String)
    ensures
        r@ == substitute(content@, name@),
{
    let t: Vec<char> = vec!['{', 'a', 'p', 'p', '_', 'n', 'a', 'm', 'e', '}'];
    assert(t@ =~= app_name_token());
    let v = chars_of(content);
    let q = chars_of(name);
    replace_chars(&v, &t, &q)
}

/// The character for a decimal digit.
pub open spec fn digit_char(d: nat) -> char {
    if d == 0 { '0' }
    else if d == 1 { '1' }
    else if d == 2 { '2' }
    else if d == 3 { '3' }
    else if d == 4 { '4' }
    else if d == 5 { '5' }
    else if d == 6 { '6' }
    else if d == 7 { '7' }
    else if d == 8 { '8' }
    else { '9' }
}

/// Decimal notation of `n`, without sign or leading zeros.
pub open spec fn decimal(n: nat) -> Seq<char>
    decreases n,
{
    if n < 10 {
        seq![digit_char(n)]
    } else {
        decimal(n / 10).push(digit_char(n % 10))
    }
}

/// The character for a decimal digit.
pub fn digit_of(d: u64) -> (c: char)
    requires
        d < 10,
    ensures
        c == digit_char(d as nat),
{
    if d == 0 { '0' }
    else if d == 1 { '1' }
    else if d == 2 { '2' }
    else if d == 3 { '3' }
    else if d == 4 { '4' }
    else if d == 5 { '5' }
    else if d == 6 { '6' }
    else if d == 7 { '7' }
    else if d == 8 { '8' }
    else { '9' }
}

/// Appends the decimal notation of `n` to `s`.
pub fn push_decimal(s: &mut String, n: u64)
    ensures
        final(s)@ == old(s)@ + decimal(n as nat),
    decreases n,
{
    if n >= 10 {
        push_decimal(s, n / 10);
    }
    push_char(s, digit_of(n % 10));
}

/// The characters that Unicode classes as white space.
pub open spec fn is_white(c: char) -> bool {
    ||| c == '\u{9}' || c == '\u{A}' || c == '\u{B}' || c == '\u{C}' || c == '\u{D}' || c == ' '
    ||| c == '\u{85}' || c == '\u{A0}' || c == '\u{1680}'
    ||| ('\u{2000}' <= c && c <= '\u{200A}')
    ||| c == '\u{2028}' || c == '\u{2029}' || c == '\u{202F}' || c == '\u{205F}' || c == '\u{3000}'
}

/// Whether `c` is white space.
pub fn white(c: char) -> (r: bool)
    ensures
        r == is_white(c),
{
    c == '\u{9}' || c == '\u{A}' || c == '\u{B}' || c == '\u{C}' || c == '\u{D}' || c == ' '
        || c == '\u{85}' || c == '\u{A0}' || c == '\u{1680}' || ('\u{2000}' <= c && c <= '\u{200A}')
        || c == '\u{2028}' || c == '\u{2029}' || c == '\u{202F}' || c == '\u{205F}' || c == '\u{3000}'
}

/// The number of white-space characters at the start of `s`.
pub open spec fn leading_white(s: Seq<char>) -> int
    decreases s.len(),
{
    if s.len() > 0 && is_white(s[0]) {
        1 + leading_white(s.skip(1))
    } else {
        0
    }
}

proof fn lemma_leading_white_bound(s: Seq<char>)
    ensures
        0 <= leading_white(s) <= s.len(),
    decreases s.len(),
{
    if s.len() > 0 && is_white(s[0]) {
        lemma_leading_white_bound(s.skip(1));
    }
}

/// `s` without the white space at its start.
pub open spec fn trimmed_start(s: Seq<char>) -> Seq<char> {
    s.skip(leading_white(s))
}

/// The characters of `v` after its leading white space.
pub fn trim_start_chars(v: &Vec<char>) -> (r: Vec<char>)
    ensures
        r@ == trimmed_start(v@),
{
    let mut i: usize = 0;
    proof {
        assert(v@.skip(0) =~= v@);
        lemma_leading_white_bound(v@);
    }
    while i < v.len() && white(v[i])
        invariant
            i <= v.len(),
            i + leading_white(v@.skip(i as int)) == leading_white(v@),
        decreases v.len() - i,
    {
        assert(v@.skip(i as int).skip(1) =~= v@.skip(i + 1));
        i = i + 1;
    }
    proof {
        assert(leading_white(v@.skip(i as int)) == 0);
    }
    let mut r: Vec<char> = Vec::new();
    let start = i;
    while i < v.len()
        invariant
            start <= i <= v.len(),
            start == leading_white(v@),
            r@ == v@.subrange(start as int, i as int),
        decreases v.len() - i,
    {
        r.push(v[i]);
        i = i + 1;
        assert(r@ =~= v@.subrange(start as int, i as int));
    }
    assert(r@ =~= v@.skip(start as int));
    r
}

/// `s` holds `q` somewhere.
pub open spec fn contains_seq(s: Seq<char>, q: Seq<char>) -> bool {
    exists|i: int| occurs_at(s, q, i)
}

/// Whether `v` holds `q` at position `i`.
fn matches_at(v: &Vec<char>, q: &Vec<char>, i: usize) -> (r: bool)
    ensures
        r == occurs_at(v@, q@, i as int),
{
    if q.len() > v.len() || i > v.len() - q.len() {
        return false;
    }
    let mut k: usize = 0;
    while k < q.len()
        invariant
            k <= q.len(),
            i + q.len() <= v.len(),
            forall|j: int| 0 <= j < k ==> v@[i + j] == q@[j],
        decreases q.len() - k,
    {
        if v[i + k] != q[k] {
            assert(v@.subrange(i as int, i + q.len())[k as int] != q@[k as int]);
            return false;
        }
        k = k + 1;
    }
    assert(v@.subrange(i as int, i + q.len()) =~= q@);
    true
}

/// Whether `q` occurs in `v`.
pub fn contains_chars(v: &Vec<char>, q: &Vec<char>) -> (r: bool)
    ensures
        r == contains_seq(v@, q@),
{
    let mut i: usize = 0;
    loop
        invariant
            i <= v.len(),
            forall|j: int| 0 <= j < i ==> !occurs_at(v@, q@, j),
        decreases v.len() - i,
    {
        if matches_at(v, q, i) {
            return true;
        }
        if i == v.len() {
            assert forall|j: int| !occurs_at(v@, q@, j) by {
                if 0 <= j && j + q@.len() <= v@.len() {
                    assert(j <= i);
                }
            }
            return false;
        }
        i = i + 1;
    }
}

/// Whether `v` begins with `q`.
pub fn starts_with_chars(v: &Vec<char>, q: &Vec<char>) -> (r: bool)
    ensures
        r == starts_with(v@, q@),
{
    matches_at(v, q, 0)
}

} // verus!
