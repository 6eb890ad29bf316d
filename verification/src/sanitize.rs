use vstd::prelude::*;
use vstd::string::StrSliceExecFns;

verus! {

/// A line-break character.
pub open spec fn is_break(c: char) -> bool {
    c == '\r' || c == '\n'
}

/// Length of the longest prefix of `s` whose characters all satisfy `p`.
pub open spec fn run_len(s: Seq<char>, p: spec_fn(char) -> bool) -> nat
    decreases s.len(),
{
    if s.len() == 0 {
        0
    } else if p(s[0]) {
        1 + run_len(s.skip(1), p)
    } else {
        0
    }
}

pub proof fn lemma_run_len_le(s: Seq<char>, p: spec_fn(char) -> bool)
    ensures
        run_len(s, p) <= s.len(),
    decreases s.len(),
{
    if s.len() != 0 && p(s[0]) {
        lemma_run_len_le(s.skip(1), p);
    }
}

/// `run_len` is the unique `n` such that the first `n` characters
/// satisfy `p` and the next one (if any) does not.
pub proof fn lemma_run_len_is(s: Seq<char>, p: spec_fn(char) -> bool, n: int)
    requires
        0 <= n <= s.len(),
        forall|k: int| 0 <= k < n ==> p(#[trigger] s[k]),
        n == s.len() || !p(s[n]),
    ensures
        run_len(s, p) == n,
    decreases n,
{
    if n == 0 {
        if s.len() > 0 {
            assert(!p(s[0]));
        }
    } else {
        assert(p(s[0]));
        assert forall|k: int| 0 <= k < n - 1 implies p(#[trigger] s.skip(1)[k]) by {
            assert(s.skip(1)[k] == s[k + 1]);
        }
        assert(n - 1 == s.skip(1).len() || !p(s.skip(1)[n - 1]));
        lemma_run_len_is(s.skip(1), p, n - 1);
    }
}

/// Length of the `<br>`-style tag at the front of `s` (`<br`, any
/// number of spaces, an optional `/`, then `>`), or zero if none.
pub open spec fn br_tag_len(s: Seq<char>) -> nat {
    if s.len() >= 3 && s[0] == '<' && s[1] == 'b' && s[2] == 'r' {
        let sp = run_len(s.skip(3), |c: char| c == ' ');
        let i: int = 3 + sp as int;
        if i < s.len() && s[i] == '>' {
            (i + 1) as nat
        } else if i + 1 < s.len() && s[i] == '/' && s[i + 1] == '>' {
            (i + 2) as nat
        } else {
            0
        }
    } else {
        0
    }
}

/// Length of the match at the front of `s` for a line-break tag
/// together with all line breaks immediately around it, or zero.
pub open spec fn br_match_len(s: Seq<char>) -> nat {
    let lead = run_len(s, |c: char| is_break(c));
    let tag = br_tag_len(s.skip(lead as int));
    if tag > 0 {
        lead + tag + run_len(s.skip(lead as int + tag as int), |c: char| is_break(c))
    } else {
        0
    }
}

/// Replace every line-break tag, with any line breaks around it, by a
/// single line break.
pub open spec fn apply_br_tags(s: Seq<char>) -> Seq<char>
    decreases s.len(),
{
    if s.len() == 0 {
        Seq::empty()
    } else {
        let m = br_match_len(s);
        if 0 < m <= s.len() {
            seq!['\n'] + apply_br_tags(s.skip(m as int))
        } else {
            seq![s[0]] + apply_br_tags(s.skip(1))
        }
    }
}

/// Length of the markup tag at the front of `s` (a `<`, a run of
/// characters that are neither `<` nor `>`, then a `>`), or zero.
pub open spec fn tag_len(s: Seq<char>) -> nat {
    if s.len() > 0 && s[0] == '<' {
        let body = run_len(s.skip(1), |c: char| c != '<' && c != '>');
        let j: int = 1 + body as int;
        if j < s.len() && s[j] == '>' {
            (j + 1) as nat
        } else {
            0
        }
    } else {
        0
    }
}

/// Remove every remaining markup tag.
pub open spec fn strip_tags(s: Seq<char>) -> Seq<char>
    decreases s.len(),
{
    if s.len() == 0 {
        Seq::empty()
    } else {
        let m = tag_len(s);
        if 0 < m <= s.len() {
            strip_tags(s.skip(m as int))
        } else {
            seq![s[0]] + strip_tags(s.skip(1))
        }
    }
}

/// Collapse every run of three or more line-break characters down to
/// exactly two line breaks; shorter runs pass through unchanged.
pub open spec fn collapse_breaks(s: Seq<char>) -> Seq<char>
    decreases s.len(),
{
    if s.len() == 0 {
        Seq::empty()
    } else {
        let r = run_len(s, |c: char| is_break(c));
        if 3 <= r <= s.len() {
            seq!['\n', '\n'] + collapse_breaks(s.skip(r as int))
        } else if 0 < r <= s.len() {
            s.take(r as int) + collapse_breaks(s.skip(r as int))
        } else {
            seq![s[0]] + collapse_breaks(s.skip(1))
        }
    }
}

/// What `escaper::decode_html` returns, with its error fallback: the
/// text with HTML character entities replaced, or the text unchanged
/// where it holds a malformed entity. A function of the characters
/// alone.
pub uninterp spec fn decode_entities_of(s: Seq<char>) -> Seq<char>;

/// The full sanitization pipeline on a raw episode description.
pub open spec fn sanitize_spec(s: Seq<char>) -> Seq<char> {
    collapse_breaks(decode_entities_of(strip_tags(apply_br_tags(s))))
}

/// Relies on `escaper::decode_html`: it replaces HTML character
/// entities (`&amp;`, `&#xe9;`, ...) and its result depends on the
/// input characters alone; on a malformed entity it reports an error,
/// and this call then falls back to the input unchanged. Its source
/// copies every character through untouched until it meets a `&`, so
/// an input without `&` comes back unchanged.
#[verifier::external_body]
fn decode_entities(s: &str) -> (r: String)
    ensures
        r@ == decode_entities_of(s@),
        (forall|i: int| 0 <= i < s@.len() ==> s@[i] != '&') ==> r@ == s@,
{
    match escaper::decode_html(s) {
        Ok(decoded) => decoded,
        Err(_) => s.to_string(),
    }
}

/// Relies on `String::from_iter` over `std::str::Chars`: collecting the
/// characters of a string yields a string of exactly those characters.
#[verifier::external_body]
fn string_from_chars(v: &Vec<char>) -> (r: String)
    ensures
        r@ == v@,
{
    v.iter().collect()
}

/// The characters of `s`, one vector element each.
fn chars_of_str(s: &str) -> (r: Vec<char>)
    ensures
        r@ == s@,
{
    let n = s.unicode_len();
    let mut r: Vec<char> = Vec::new();
    let mut i: usize = 0;
    while i < n
        invariant
            n == s@.len(),
            i <= n,
            r@ =~= s@.take(i as int),
        decreases n - i,
    {
        r.push(s.get_char(i));
        i += 1;
    }
    proof {
        assert(s@.take(n as int) =~= s@);
    }
    r
}

/// Number of consecutive line-break characters of `v` from `i` on.
fn break_run_at(v: &Vec<char>, i: usize) -> (r: usize)
    requires
        i <= v@.len(),
    ensures
        r == run_len(v@.skip(i as int), |c: char| is_break(c)),
        i + r <= v@.len(),
{
    let mut j: usize = i;
    while j < v.len() && (v[j] == '\r' || v[j] == '\n')
        invariant
            i <= j <= v@.len(),
            forall|k: int| i <= k < j ==> is_break(#[trigger] v@[k]),
        decreases v@.len() - j,
    {
        j += 1;
    }
    proof {
        let t = v@.skip(i as int);
        assert forall|k: int| 0 <= k < j - i implies is_break(#[trigger] t[k]) by {
            assert(t[k] == v@[k + i]);
        }
        if (j - i) < t.len() {
            assert(t[j - i] == v@[j as int]);
        }
        lemma_run_len_is(t, |c: char| is_break(c), j - i);
    }
    j - i
}

/// Number of consecutive spaces of `v` from `i` on.
fn space_run_at(v: &Vec<char>, i: usize) -> (r: usize)
    requires
        i <= v@.len(),
    ensures
        r == run_len(v@.skip(i as int), |c: char| c == ' '),
        i + r <= v@.len(),
{
    let mut j: usize = i;
    while j < v.len() && v[j] == ' '
        invariant
            i <= j <= v@.len(),
            forall|k: int| i <= k < j ==> #[trigger] v@[k] == ' ',
        decreases v@.len() - j,
    {
        j += 1;
    }
    proof {
        let t = v@.skip(i as int);
        assert forall|k: int| 0 <= k < j - i implies (|c: char| c == ' ')(#[trigger] t[k]) by {
            assert(t[k] == v@[k + i]);
        }
        if (j - i) < t.len() {
            assert(t[j - i] == v@[j as int]);
        }
        lemma_run_len_is(t, |c: char| c == ' ', j - i);
    }
    j - i
}

/// Number of consecutive characters of `v` from `i` on that are
/// neither `<` nor `>`.
fn non_angle_run_at(v: &Vec<char>, i: usize) -> (r: usize)
    requires
        i <= v@.len(),
    ensures
        r == run_len(v@.skip(i as int), |c: char| c != '<' && c != '>'),
        i + r <= v@.len(),
{
    let mut j: usize = i;
    while j < v.len() && v[j] != '<' && v[j] != '>'
        invariant
            i <= j <= v@.len(),
            forall|k: int| i <= k < j ==> #[trigger] v@[k] != '<' && v@[k] != '>',
        decreases v@.len() - j,
    {
        j += 1;
    }
    proof {
        let t = v@.skip(i as int);
        assert forall|k: int| 0 <= k < j - i implies (|c: char| c != '<' && c != '>')(
            #[trigger] t[k],
        ) by {
            assert(t[k] == v@[k + i]);
        }
        if (j - i) < t.len() {
            assert(t[j - i] == v@[j as int]);
        }
        lemma_run_len_is(t, |c: char| c != '<' && c != '>', j - i);
    }
    j - i
}

/// Length of the `<br>`-style tag of `v` starting at `i`, or zero.
fn br_tag_at(v: &Vec<char>, i: usize) -> (r: usize)
    requires
        i <= v@.len(),
    ensures
        r == br_tag_len(v@.skip(i as int)),
        i + r <= v@.len(),
{
    proof {
        assert(v@.skip(i as int).len() == v@.len() - i);
    }
    if v.len() - i >= 3 && v[i] == '<' && v[i + 1] == 'b' && v[i + 2] == 'r' {
        let sp = space_run_at(v, i + 3);
        proof {
            assert(v@.skip(i as int).skip(3) =~= v@.skip(i as int + 3));
            assert(v@.skip(i as int)[0] == v@[i as int]);
            assert(v@.skip(i as int)[1] == v@[i as int + 1]);
            assert(v@.skip(i as int)[2] == v@[i as int + 2]);
        }
        let t = i + 3 + sp;
        if t < v.len() && v[t] == '>' {
            proof {
                assert(v@.skip(i as int)[t - i] == v@[t as int]);
            }
            t + 1 - i
        } else if t < v.len() - 1 && v[t] == '/' && v[t + 1] == '>' {
            proof {
                assert(v@.skip(i as int)[t - i] == v@[t as int]);
                assert(v@.skip(i as int)[t - i + 1] == v@[t as int + 1]);
            }
            t + 2 - i
        } else {
            proof {
                if t < v.len() {
                    assert(v@.skip(i as int)[t - i] == v@[t as int]);
                }
            }
            0
        }
    } else {
        0
    }
}

/// Length of the full line-break-tag match of `v` at `i`, with the
/// line breaks around the tag, or zero.
fn br_match_at(v: &Vec<char>, i: usize) -> (r: usize)
    requires
        i <= v@.len(),
    ensures
        r == br_match_len(v@.skip(i as int)),
        i + r <= v@.len(),
{
    let n = v.len();
    let lead = break_run_at(v, i);
    let tag = br_tag_at(v, i + lead);
    proof {
        assert(v@.skip(i as int).skip(lead as int) =~= v@.skip(i as int + lead as int));
    }
    if tag > 0 {
        let trail = break_run_at(v, i + lead + tag);
        proof {
            assert(v@.skip(i as int).skip(lead as int + tag as int) =~= v@.skip(
                i as int + lead as int + tag as int,
            ));
        }
        lead + tag + trail
    } else {
        0
    }
}

/// Length of the markup tag of `v` at `i`, or zero.
fn tag_at(v: &Vec<char>, i: usize) -> (r: usize)
    requires
        i <= v@.len(),
    ensures
        r == tag_len(v@.skip(i as int)),
        i + r <= v@.len(),
{
    proof {
        assert(v@.skip(i as int).len() == v@.len() - i);
    }
    if i < v.len() && v[i] == '<' {
        proof {
            assert(v@.skip(i as int)[0] == v@[i as int]);
        }
        let body = non_angle_run_at(v, i + 1);
        proof {
            assert(v@.skip(i as int).skip(1) =~= v@.skip(i as int + 1));
        }
        let j = i + 1 + body;
        if j < v.len() && v[j] == '>' {
            proof {
                assert(v@.skip(i as int)[j - i] == v@[j as int]);
            }
            j + 1 - i
        } else {
            proof {
                if j < v.len() {
                    assert(v@.skip(i as int)[j - i] == v@[j as int]);
                }
            }
            0
        }
    } else {
        0
    }
}

/// First pass: line-break tags, with the breaks around them, become a
/// single line break.
fn apply_br_tags_exec(v: &Vec<char>) -> (r: Vec<char>)
    ensures
        r@ == apply_br_tags(v@),
{
    let mut out: Vec<char> = Vec::new();
    let mut i: usize = 0;
    proof {
        assert(v@.skip(0) =~= v@);
        assert(Seq::<char>::empty() + apply_br_tags(v@) =~= apply_br_tags(v@));
    }
    while i < v.len()
        invariant
            i <= v@.len(),
            apply_br_tags(v@) == out@ + apply_br_tags(v@.skip(i as int)),
        decreases v@.len() - i,
    {
        let ghost prev = out@;
        let ghost t = v@.skip(i as int);
        let m = br_match_at(v, i);
        if m > 0 {
            out.push('\n');
            proof {
                assert(t.skip(m as int) =~= v@.skip(i as int + m as int));
                assert(apply_br_tags(t) == seq!['\n'] + apply_br_tags(t.skip(m as int)));
                assert(prev + apply_br_tags(t) =~= out@ + apply_br_tags(
                    v@.skip(i as int + m as int),
                ));
            }
            i += m;
        } else {
            out.push(v[i]);
            proof {
                assert(t[0] == v@[i as int]);
                assert(t.skip(1) =~= v@.skip(i as int + 1));
                assert(apply_br_tags(t) == seq![t[0]] + apply_br_tags(t.skip(1)));
                assert(prev + apply_br_tags(t) =~= out@ + apply_br_tags(v@.skip(i as int + 1)));
            }
            i += 1;
        }
    }
    proof {
        assert(v@.skip(v@.len() as int) =~= Seq::<char>::empty());
        assert(apply_br_tags(Seq::<char>::empty()) =~= Seq::<char>::empty());
        assert(out@ + Seq::<char>::empty() =~= out@);
    }
    out
}

/// Second pass: every remaining markup tag is removed.
fn strip_tags_exec(v: &Vec<char>) -> (r: Vec<char>)
    ensures
        r@ == strip_tags(v@),
{
    let mut out: Vec<char> = Vec::new();
    let mut i: usize = 0;
    proof {
        assert(v@.skip(0) =~= v@);
        assert(Seq::<char>::empty() + strip_tags(v@) =~= strip_tags(v@));
    }
    while i < v.len()
        invariant
            i <= v@.len(),
            strip_tags(v@) == out@ + strip_tags(v@.skip(i as int)),
        decreases v@.len() - i,
    {
        let ghost prev = out@;
        let ghost t = v@.skip(i as int);
        let m = tag_at(v, i);
        if m > 0 {
            proof {
                assert(t.skip(m as int) =~= v@.skip(i as int + m as int));
                assert(strip_tags(t) == strip_tags(t.skip(m as int)));
            }
            i += m;
        } else {
            out.push(v[i]);
            proof {
                assert(t[0] == v@[i as int]);
                assert(t.skip(1) =~= v@.skip(i as int + 1));
                assert(strip_tags(t) == seq![t[0]] + strip_tags(t.skip(1)));
                assert(prev + strip_tags(t) =~= out@ + strip_tags(v@.skip(i as int + 1)));
            }
            i += 1;
        }
    }
    proof {
        assert(v@.skip(v@.len() as int) =~= Seq::<char>::empty());
        assert(strip_tags(Seq::<char>::empty()) =~= Seq::<char>::empty());
        assert(out@ + Seq::<char>::empty() =~= out@);
    }
    out
}

/// Last pass: runs of three or more line-break characters become
/// exactly two line breaks.
fn collapse_breaks_exec(v: &Vec<char>) -> (r: Vec<char>)
    ensures
        r@ == collapse_breaks(v@),
{
    let mut out: Vec<char> = Vec::new();
    let mut i: usize = 0;
    proof {
        assert(v@.skip(0) =~= v@);
        assert(Seq::<char>::empty() + collapse_breaks(v@) =~= collapse_breaks(v@));
    }
    while i < v.len()
        invariant
            i <= v@.len(),
            collapse_breaks(v@) == out@ + collapse_breaks(v@.skip(i as int)),
        decreases v@.len() - i,
    {
        let ghost prev = out@;
        let ghost t = v@.skip(i as int);
        let r = break_run_at(v, i);
        if r >= 3 {
            out.push('\n');
            out.push('\n');
            proof {
                assert(t.skip(r as int) =~= v@.skip(i as int + r as int));
                assert(collapse_breaks(t) == seq!['\n', '\n'] + collapse_breaks(
                    t.skip(r as int),
                ));
                assert(prev + collapse_breaks(t) =~= out@ + collapse_breaks(
                    v@.skip(i as int + r as int),
                ));
            }
            i += r;
        } else if r > 0 {
            let mut k: usize = 0;
            while k < r
                invariant
                    k <= r,
                    i + r <= v@.len(),
                    v@.len() <= usize::MAX,
                    out@ =~= prev + v@.skip(i as int).take(k as int),
                decreases r - k,
            {
                proof {
                    assert(v@.skip(i as int)[k as int] == v@[i as int + k]);
                    assert(v@.skip(i as int).take(k as int).push(v@[i as int + k]) =~= v@.skip(
                        i as int,
                    ).take(k as int + 1));
                }
                out.push(v[i + k]);
                k += 1;
            }
            proof {
                assert(t.skip(r as int) =~= v@.skip(i as int + r as int));
                assert(collapse_breaks(t) == t.take(r as int) + collapse_breaks(t.skip(r as int)));
                assert(prev + collapse_breaks(t) =~= out@ + collapse_breaks(
                    v@.skip(i as int + r as int),
                ));
            }
            i += r;
        } else {
            out.push(v[i]);
            proof {
                assert(t[0] == v@[i as int]);
                assert(t.skip(1) =~= v@.skip(i as int + 1));
                assert(collapse_breaks(t) == seq![t[0]] + collapse_breaks(t.skip(1)));
                assert(prev + collapse_breaks(t) =~= out@ + collapse_breaks(
                    v@.skip(i as int + 1),
                ));
            }
            i += 1;
        }
    }
    proof {
        assert(v@.skip(v@.len() as int) =~= Seq::<char>::empty());
        assert(collapse_breaks(Seq::<char>::empty()) =~= Seq::<char>::empty());
        assert(out@ + Seq::<char>::empty() =~= out@);
    }
    out
}

/// Every position inside the run satisfies the predicate.
pub proof fn lemma_run_indices(s: Seq<char>, p: spec_fn(char) -> bool)
    ensures
        forall|k: int| 0 <= k < run_len(s, p) && k < s.len() ==> p(#[trigger] s[k]),
    decreases s.len(),
{
    if s.len() > 0 && p(s[0]) {
        lemma_run_indices(s.skip(1), p);
        assert forall|k: int| 0 <= k < run_len(s, p) && k < s.len() implies p(#[trigger] s[k]) by {
            if k > 0 {
                assert(s.skip(1)[k - 1] == s[k]);
            }
        }
    }
}

/// The character just past the run (if any) fails the predicate.
pub proof fn lemma_run_boundary(s: Seq<char>, p: spec_fn(char) -> bool)
    requires
        run_len(s, p) < s.len(),
    ensures
        !p(s[run_len(s, p) as int]),
    decreases s.len(),
{
    if s.len() > 0 && p(s[0]) {
        lemma_run_len_le(s.skip(1), p);
        lemma_run_boundary(s.skip(1), p);
        assert(s.skip(1)[run_len(s.skip(1), p) as int] == s[run_len(s, p) as int]);
    }
}

/// Text without `<` passes the line-break-tag pass unchanged.
pub proof fn lemma_apply_br_tags_no_lt(s: Seq<char>)
    requires
        forall|i: int| 0 <= i < s.len() ==> s[i] != '<',
    ensures
        apply_br_tags(s) == s,
    decreases s.len(),
{
    if s.len() == 0 {
        assert(apply_br_tags(s) =~= s);
    } else {
        let lead = run_len(s, |c: char| is_break(c));
        lemma_run_len_le(s, |c: char| is_break(c));
        let t = s.skip(lead as int);
        if t.len() >= 3 {
            assert(t[0] == s[lead as int]);
            assert(t[0] != '<');
        }
        assert(br_tag_len(t) == 0);
        assert(br_match_len(s) == 0);
        assert forall|i: int| 0 <= i < s.skip(1).len() implies s.skip(1)[i] != '<' by {
            assert(s.skip(1)[i] == s[i + 1]);
        }
        lemma_apply_br_tags_no_lt(s.skip(1));
        assert(apply_br_tags(s) =~= s);
    }
}

/// Text without `<` passes the tag-stripping pass unchanged.
pub proof fn lemma_strip_tags_no_lt(s: Seq<char>)
    requires
        forall|i: int| 0 <= i < s.len() ==> s[i] != '<',
    ensures
        strip_tags(s) == s,
    decreases s.len(),
{
    if s.len() == 0 {
        assert(strip_tags(s) =~= s);
    } else {
        assert(tag_len(s) == 0);
        assert forall|i: int| 0 <= i < s.skip(1).len() implies s.skip(1)[i] != '<' by {
            assert(s.skip(1)[i] == s[i + 1]);
        }
        lemma_strip_tags_no_lt(s.skip(1));
        assert(strip_tags(s) =~= s);
    }
}

/// Three consecutive line-break characters occur somewhere in `s`.
pub open spec fn has_triple_break(s: Seq<char>) -> bool {
    exists|i: int|
        0 <= i && i + 2 < s.len() && is_break(#[trigger] s[i]) && is_break(s[i + 1]) && is_break(
            s[i + 2],
        )
}

/// Text without three consecutive line breaks passes the collapsing
/// pass unchanged.
pub proof fn lemma_collapse_no_triple(s: Seq<char>)
    requires
        !has_triple_break(s),
    ensures
        collapse_breaks(s) == s,
    decreases s.len(),
{
    if s.len() == 0 {
        assert(collapse_breaks(s) =~= s);
    } else {
        let r = run_len(s, |c: char| is_break(c));
        lemma_run_len_le(s, |c: char| is_break(c));
        lemma_run_indices(s, |c: char| is_break(c));
        if r >= 3 {
            assert(is_break(s[0]) && is_break(s[1]) && is_break(s[2]));
            assert(0 <= 0int && 0int + 2 < s.len() && is_break(s[0int]) && is_break(s[0int + 1])
                && is_break(s[0int + 2]));
            assert(false);
        }
        let step: int = if r > 0 {
            r as int
        } else {
            1
        };
        assert forall|i: int| !(0 <= i && i + 2 < s.skip(step).len() && is_break(
            #[trigger] s.skip(step)[i],
        ) && is_break(s.skip(step)[i + 1]) && is_break(s.skip(step)[i + 2])) by {
            if 0 <= i && i + 2 < s.skip(step).len() {
                assert(s.skip(step)[i] == s[i + step]);
                assert(s.skip(step)[i + 1] == s[i + step + 1]);
                assert(s.skip(step)[i + 2] == s[i + step + 2]);
            }
        }
        lemma_collapse_no_triple(s.skip(step));
        if r > 0 {
            assert(collapse_breaks(s) == s.take(r as int) + collapse_breaks(s.skip(r as int)));
            assert(s.take(r as int) + s.skip(r as int) =~= s);
        } else {
            assert(collapse_breaks(s) == seq![s[0]] + collapse_breaks(s.skip(1)));
            assert(seq![s[0]] + s.skip(1) =~= s);
        }
    }
}

/// Text that needs no sanitizing at all: no markup characters and no
/// run of three or more line breaks.
pub open spec fn clean_text(s: Seq<char>) -> bool {
    &&& forall|i: int| 0 <= i < s.len() ==> s[i] != '<'
    &&& forall|i: int| 0 <= i < s.len() ==> s[i] != '&'
    &&& !has_triple_break(s)
}

/// Sanitizes a raw episode description for display: line-break tags
/// (with the breaks around them) become one line break, remaining
/// markup tags are stripped, HTML character entities are decoded (with
/// the text left as it was where decoding fails), and runs of three or
/// more line breaks are collapsed to a single blank line. On text
/// without markup characters only the break-collapsing pass acts, and
/// text that is already clean passes through unchanged.
pub fn sanitize_description(s: &str) -> (r: String)
    ensures
        r@ == sanitize_spec(s@),
        (forall|i: int| 0 <= i < s@.len() ==> s@[i] != '<' && s@[i] != '&') ==> r@
            == collapse_breaks(s@),
        clean_text(s@) ==> r@ == s@,
{
    let chars = chars_of_str(s);
    let after_br = apply_br_tags_exec(&chars);
    let after_strip = strip_tags_exec(&after_br);
    let stripped = string_from_chars(&after_strip);
    let decoded = decode_entities(stripped.as_str());
    let decoded_chars = chars_of_str(decoded.as_str());
    let collapsed = collapse_breaks_exec(&decoded_chars);
    let r = string_from_chars(&collapsed);
    proof {
        if forall|i: int| 0 <= i < s@.len() ==> s@[i] != '<' && s@[i] != '&' {
            lemma_apply_br_tags_no_lt(s@);
            lemma_strip_tags_no_lt(s@);
        }
        if clean_text(s@) {
            lemma_collapse_no_triple(s@);
        }
    }
    r
}

/// The collapsing pass keeps the first character of text that does not
/// begin with a line break.
pub proof fn lemma_collapse_first(s: Seq<char>)
    requires
        s.len() > 0,
        !is_break(s[0]),
    ensures
        collapse_breaks(s).len() > 0,
        collapse_breaks(s)[0] == s[0],
{
    assert(run_len(s, |c: char| is_break(c)) == 0);
    assert(collapse_breaks(s) == seq![s[0]] + collapse_breaks(s.skip(1)));
    assert((seq![s[0]] + collapse_breaks(s.skip(1)))[0] == s[0]);
}

/// The collapsing pass leaves no run of three or more line breaks in
/// its output.
pub proof fn lemma_collapse_no_triple_out(s: Seq<char>)
    ensures
        !has_triple_break(collapse_breaks(s)),
    decreases s.len(),
{
    let p = |c: char| is_break(c);
    let out = collapse_breaks(s);
    if s.len() == 0 {
        assert(out.len() == 0);
        if has_triple_break(out) {
            let i = choose|i: int|
                0 <= i && i + 2 < out.len() && is_break(#[trigger] out[i]) && is_break(
                    out[i + 1],
                ) && is_break(out[i + 2]);
            assert(false);
        }
    } else {
        let r = run_len(s, p);
        lemma_run_len_le(s, p);
        lemma_run_indices(s, p);
        let step: int = if r > 0 {
            r as int
        } else {
            1
        };
        let rest = collapse_breaks(s.skip(step));
        lemma_collapse_no_triple_out(s.skip(step));
        // the text just past a leading break run starts with something
        // that is not a line break, and so then does `rest`
        if r > 0 && step < s.len() {
            lemma_run_boundary(s, p);
            assert(s.skip(step)[0] == s[step]);
            assert(!is_break(s.skip(step)[0]));
        }
        let prefix: Seq<char> = if r >= 3 {
            seq!['\n', '\n']
        } else if r > 0 {
            s.take(r as int)
        } else {
            seq![s[0]]
        };
        assert(out == prefix + rest);
        let pl = prefix.len() as int;
        assert(pl <= 2);
        if has_triple_break(out) {
            let i = choose|i: int|
                0 <= i && i + 2 < out.len() && is_break(#[trigger] out[i]) && is_break(
                    out[i + 1],
                ) && is_break(out[i + 2]);
            assert(out.len() == pl + rest.len());
            if i >= pl {
                assert(out[i] == rest[i - pl]);
                assert(out[i + 1] == rest[i + 1 - pl]);
                assert(out[i + 2] == rest[i + 2 - pl]);
                assert(0 <= i - pl && (i - pl) + 2 < rest.len() && is_break(rest[i - pl])
                    && is_break(rest[(i - pl) + 1]) && is_break(rest[(i - pl) + 2]));
                assert(has_triple_break(rest));
                assert(false);
            } else {
                // the window crosses the boundary, where the first
                // character of `rest` is no line break
                assert(rest.len() > 0);
                assert(step < s.len() || rest.len() == 0);
                if r > 0 {
                    assert(out[pl] == rest[0]);
                    lemma_collapse_first(s.skip(step));
                    assert(rest[0] == s.skip(step)[0]);
                    assert(!is_break(out[pl]));
                    assert(i < pl <= i + 2);
                    assert(out[pl] == out[i] || out[pl] == out[i + 1] || out[pl] == out[i + 2]);
                    assert(false);
                } else {
                    // a one-character prefix that is itself no break
                    assert(i == 0 && pl == 1);
                    assert(out[0] == s[0]);
                    assert(!is_break(out[0]));
                    assert(false);
                }
            }
        }
    }
}

/// Sanitization is idempotent after the first full pass: feeding the
/// pipeline its own output back returns that output unchanged,
/// provided the output has no `<` and no `&` left in it (decoding an
/// entity such as `&amp;lt;` reintroduces markup characters, and a
/// second pass then rewrites further).
pub fn sanitize_twice(s: &str) -> (r: (String, String))
    ensures
        r.0@ == sanitize_spec(s@),
        r.1@ == sanitize_spec(r.0@),
        (forall|i: int| 0 <= i < r.0@.len() ==> r.0@[i] != '<' && r.0@[i] != '&') ==> r.1@
            == r.0@,
{
    let first = sanitize_description(s);
    let second = sanitize_description(first.as_str());
    proof {
        lemma_collapse_no_triple_out(decode_entities_of(strip_tags(apply_br_tags(s@))));
    }
    (first, second)
}

} // verus!
