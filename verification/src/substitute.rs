//! Placeholder substitution: replacing every literal occurrence of a
//! `{ $name }` token with its value, first for each (name, value) pair in
//! list order, then for the three fixed global tokens.

use vstd::prelude::*;

use crate::strings::{chars_to_string, str_to_chars};

verus! {

/// Left-to-right, non-overlapping replacement of every occurrence of `p`
/// in `t` by `r`; the empty pattern replaces nothing.
pub open spec fn replace_all(t: Seq<char>, p: Seq<char>, r: Seq<char>) -> Seq<char>
    decreases t.len(),
{
    if p.len() == 0 {
        t
    } else if t.len() < p.len() {
        t
    } else if t.subrange(0, p.len() as int) == p {
        r + replace_all(t.skip(p.len() as int), p, r)
    } else {
        seq![t[0]] + replace_all(t.skip(1), p, r)
    }
}

/// `p` occurs in `t` starting at index `i`.
pub open spec fn occurs_at(t: Seq<char>, p: Seq<char>, i: int) -> bool {
    0 <= i && i + p.len() <= t.len() && t.subrange(i, i + p.len() as int) == p
}

/// `p` occurs somewhere in `t`.
pub open spec fn occurs(t: Seq<char>, p: Seq<char>) -> bool {
    exists|i: int| occurs_at(t, p, i)
}

/// The number of occurrences of `p` in `t`, counted left to right without
/// overlap, exactly as `replace_all` consumes them.
pub open spec fn count_occurrences(t: Seq<char>, p: Seq<char>) -> nat
    decreases t.len(),
{
    if p.len() == 0 {
        0
    } else if t.len() < p.len() {
        0
    } else if t.subrange(0, p.len() as int) == p {
        1 + count_occurrences(t.skip(p.len() as int), p)
    } else {
        count_occurrences(t.skip(1), p)
    }
}

/// `s` repeated `n` times.
pub open spec fn repeat_seq(s: Seq<char>, n: nat) -> Seq<char>
    decreases n,
{
    if n == 0 {
        Seq::empty()
    } else {
        s + repeat_seq(s, (n - 1) as nat)
    }
}

/// The literal placeholder token carrying a variable name.
pub open spec fn token_of(name: Seq<char>) -> Seq<char> {
    seq!['{', ' ', '$'] + name + seq![' ', '}']
}

/// Substitution of a pair list: each pair replaces all occurrences of its
/// token, in list order.
pub open spec fn apply_pairs(m: Seq<char>, vs: Seq<(Seq<char>, Seq<char>)>) -> Seq<char>
    decreases vs.len(),
{
    if vs.len() == 0 {
        m
    } else {
        apply_pairs(replace_all(m, token_of(vs[0].0), vs[0].1), vs.drop_first())
    }
}

/// Full substitution: the pair list in order, then the three global
/// tokens, always last.
pub open spec fn substitute_spec(
    m: Seq<char>,
    vs: Seq<(Seq<char>, Seq<char>)>,
    logo: Seq<char>,
    website: Seq<char>,
    app: Seq<char>,
) -> Seq<char> {
    let a = apply_pairs(m, vs);
    let b = replace_all(a, token_of("logo_url"@), logo);
    let c = replace_all(b, token_of("website_url"@), website);
    replace_all(c, token_of("app_url"@), app)
}

/// A pattern that does not occur in a text is not replaced: the text
/// passes through `replace_all` unchanged.
pub proof fn lemma_replace_all_absent(t: Seq<char>, p: Seq<char>, r: Seq<char>)
    requires
        p.len() > 0,
        !occurs(t, p),
    ensures
        replace_all(t, p, r) == t,
    decreases t.len(),
{
    if t.len() < p.len() {
    } else if t.subrange(0, p.len() as int) == p {
        assert(occurs_at(t, p, 0));
        assert(false);
    } else {
        assert(!occurs(t.skip(1), p)) by {
            if occurs(t.skip(1), p) {
                let i = choose|i: int| occurs_at(t.skip(1), p, i);
                assert(t.subrange(i + 1, i + 1 + p.len() as int) =~= t.skip(1).subrange(
                    i,
                    i + p.len() as int,
                ));
                assert(occurs_at(t, p, i + 1));
            }
        }
        lemma_replace_all_absent(t.skip(1), p, r);
        assert(seq![t[0]] + t.skip(1) =~= t);
    }
}

/// The left-to-right occurrence count is zero exactly when the pattern
/// occurs nowhere.
pub proof fn lemma_count_zero_iff_absent(t: Seq<char>, p: Seq<char>)
    requires
        p.len() > 0,
    ensures
        (count_occurrences(t, p) == 0) <==> !occurs(t, p),
    decreases t.len(),
{
    if t.len() < p.len() {
        assert(!occurs(t, p)) by {
            if occurs(t, p) {
                let i = choose|i: int| occurs_at(t, p, i);
                assert(false);
            }
        }
    } else if t.subrange(0, p.len() as int) == p {
        assert(count_occurrences(t, p) > 0);
        assert(occurs_at(t, p, 0));
    } else {
        lemma_count_zero_iff_absent(t.skip(1), p);
        assert(occurs(t, p) <==> occurs(t.skip(1), p)) by {
            if occurs(t, p) {
                let i = choose|i: int| occurs_at(t, p, i);
                assert(i != 0) by {
                    if i == 0 {
                        assert(t.subrange(0, p.len() as int) == p);
                    }
                }
                assert(t.skip(1).subrange(i - 1, i - 1 + p.len() as int) =~= t.subrange(
                    i,
                    i + p.len() as int,
                ));
                assert(occurs_at(t.skip(1), p, i - 1));
            }
            if occurs(t.skip(1), p) {
                let i = choose|i: int| occurs_at(t.skip(1), p, i);
                assert(t.subrange(i + 1, i + 1 + p.len() as int) =~= t.skip(1).subrange(
                    i,
                    i + p.len() as int,
                ));
                assert(occurs_at(t, p, i + 1));
            }
        }
    }
}

/// A text that is a token repeated `n` times is rewritten to the value
/// repeated `n` times: every occurrence is consumed.
pub proof fn lemma_replace_all_repeat(p: Seq<char>, r: Seq<char>, n: nat)
    requires
        p.len() > 0,
    ensures
        replace_all(repeat_seq(p, n), p, r) == repeat_seq(r, n),
    decreases n,
{
    if n == 0 {
        assert(repeat_seq(p, 0) == Seq::<char>::empty());
        assert(repeat_seq(r, 0) == Seq::<char>::empty());
    } else {
        let t = repeat_seq(p, n);
        assert(t == p + repeat_seq(p, (n - 1) as nat));
        assert(t.len() >= p.len());
        assert(t.subrange(0, p.len() as int) =~= p);
        assert(t.skip(p.len() as int) =~= repeat_seq(p, (n - 1) as nat));
        lemma_replace_all_repeat(p, r, (n - 1) as nat);
    }
}

/// A non-empty value repeated `n` times contains exactly `n`
/// non-overlapping occurrences of that value.
pub proof fn lemma_count_repeat(r: Seq<char>, n: nat)
    requires
        r.len() > 0,
    ensures
        count_occurrences(repeat_seq(r, n), r) == n,
    decreases n,
{
    if n == 0 {
        assert(repeat_seq(r, 0) == Seq::<char>::empty());
    } else {
        let t = repeat_seq(r, n);
        assert(t == r + repeat_seq(r, (n - 1) as nat));
        assert(t.len() >= r.len());
        assert(t.subrange(0, r.len() as int) =~= r);
        assert(t.skip(r.len() as int) =~= repeat_seq(r, (n - 1) as nat));
        lemma_count_repeat(r, (n - 1) as nat);
    }
}

/// A text that is one token repeated `n` times comes out of `replace_all`
/// with zero occurrences of the token and exactly `n` occurrences of its
/// value — provided the repeated value does not itself reassemble the
/// token, which is the one way an occurrence can survive.
pub proof fn lemma_replace_all_repeated_token(p: Seq<char>, r: Seq<char>, n: nat)
    requires
        p.len() > 0,
        r.len() > 0,
        !occurs(repeat_seq(r, n), p),
    ensures
        replace_all(repeat_seq(p, n), p, r) == repeat_seq(r, n),
        count_occurrences(replace_all(repeat_seq(p, n), p, r), p) == 0,
        count_occurrences(replace_all(repeat_seq(p, n), p, r), r) == n,
{
    lemma_replace_all_repeat(p, r, n);
    lemma_count_zero_iff_absent(repeat_seq(r, n), p);
    lemma_count_repeat(r, n);
}

/// A pair list none of whose tokens occurs in the text substitutes to the
/// text itself.
pub proof fn lemma_apply_pairs_absent(m: Seq<char>, vs: Seq<(Seq<char>, Seq<char>)>)
    requires
        forall|k: int| 0 <= k < vs.len() ==> !occurs(m, token_of(#[trigger] vs[k].0)),
    ensures
        apply_pairs(m, vs) == m,
    decreases vs.len(),
{
    if vs.len() > 0 {
        assert(token_of(vs[0].0).len() == vs[0].0.len() + 5);
        lemma_replace_all_absent(m, token_of(vs[0].0), vs[0].1);
        assert forall|k: int| 0 <= k < vs.drop_first().len() implies !occurs(
            m,
            token_of(#[trigger] vs.drop_first()[k].0),
        ) by {
            assert(vs.drop_first()[k] == vs[k + 1]);
        }
        lemma_apply_pairs_absent(m, vs.drop_first());
    }
}

/// Tokens with no matching pair pass through unchanged: a markup in which
/// neither a pair's token nor a global token occurs is left verbatim by
/// substitution.
pub proof fn lemma_substitute_unresolved(
    m: Seq<char>,
    vs: Seq<(Seq<char>, Seq<char>)>,
    logo: Seq<char>,
    website: Seq<char>,
    app: Seq<char>,
)
    requires
        forall|k: int| 0 <= k < vs.len() ==> !occurs(m, token_of(#[trigger] vs[k].0)),
        !occurs(m, token_of("logo_url"@)),
        !occurs(m, token_of("website_url"@)),
        !occurs(m, token_of("app_url"@)),
    ensures
        substitute_spec(m, vs, logo, website, app) == m,
{
    lemma_apply_pairs_absent(m, vs);
    assert(token_of("logo_url"@).len() > 0);
    lemma_replace_all_absent(m, token_of("logo_url"@), logo);
    assert(token_of("website_url"@).len() > 0);
    lemma_replace_all_absent(m, token_of("website_url"@), website);
    assert(token_of("app_url"@).len() > 0);
    lemma_replace_all_absent(m, token_of("app_url"@), app);
}

/// Substitution is idempotent on results that contain no further matching
/// tokens: substituting a second time with the same pairs and globals
/// changes nothing.
pub proof fn lemma_substitute_idempotent(
    m: Seq<char>,
    vs: Seq<(Seq<char>, Seq<char>)>,
    logo: Seq<char>,
    website: Seq<char>,
    app: Seq<char>,
)
    requires
        forall|k: int| 0 <= k < vs.len() ==> !occurs(
            substitute_spec(m, vs, logo, website, app),
            token_of(#[trigger] vs[k].0),
        ),
        !occurs(substitute_spec(m, vs, logo, website, app), token_of("logo_url"@)),
        !occurs(substitute_spec(m, vs, logo, website, app), token_of("website_url"@)),
        !occurs(substitute_spec(m, vs, logo, website, app), token_of("app_url"@)),
    ensures
        substitute_spec(substitute_spec(m, vs, logo, website, app), vs, logo, website, app)
            == substitute_spec(m, vs, logo, website, app),
{
    lemma_substitute_unresolved(substitute_spec(m, vs, logo, website, app), vs, logo, website, app);
}

/// The three process-wide values substituted into every template.
pub struct GlobalValues {
    pub logo_url: String,
    pub website_url: String,
    pub app_url: String,
}

/// Whether `p` occurs in `t` starting exactly at `i`.
fn match_at(t: &Vec<char>, p: &Vec<char>, i: usize) -> (b: bool)
    requires
        i <= t@.len(),
    ensures
        b == (i + p@.len() <= t@.len() && t@.subrange(i as int, i + p@.len() as int) == p@),
{
    if p.len() > t.len() - i {
        return false;
    }
    let mut j: usize = 0;
    while j < p.len()
        invariant
            j <= p@.len(),
            i + p@.len() <= t@.len(),
            t@.len() <= usize::MAX,
            forall|k: int| 0 <= k < j ==> t@[i + k] == p@[k],
        decreases p@.len() - j,
    {
        if t[i + j] != p[j] {
            proof {
                assert(t@.subrange(i as int, i + p@.len() as int)[j as int] == t@[i + j]);
            }
            return false;
        }
        j = j + 1;
    }
    proof {
        assert(t@.subrange(i as int, i + p@.len() as int) =~= p@);
    }
    true
}

/// Appends all characters of `r` to `out`.
fn push_all(out: &mut Vec<char>, r: &Vec<char>)
    ensures
        final(out)@ == old(out)@ + r@,
{
    let mut j: usize = 0;
    while j < r.len()
        invariant
            j <= r@.len(),
            out@ == old(out)@ + r@.take(j as int),
        decreases r@.len() - j,
    {
        out.push(r[j]);
        proof {
            assert(old(out)@ + r@.take(j + 1) =~= (old(out)@ + r@.take(j as int)).push(r@[j as int]));
        }
        j = j + 1;
    }
    proof {
        assert(r@.take(r@.len() as int) =~= r@);
    }
}

/// A non-match at the front lets `replace_all` keep one character.
proof fn lemma_replace_all_step_nomatch(t: Seq<char>, p: Seq<char>, r: Seq<char>)
    requires
        p.len() > 0,
        t.len() > 0,
        !(t.len() >= p.len() && t.subrange(0, p.len() as int) == p),
    ensures
        replace_all(t, p, r) == seq![t[0]] + replace_all(t.skip(1), p, r),
{
    if t.len() < p.len() {
        assert(t.skip(1).len() < p.len());
        assert(replace_all(t.skip(1), p, r) == t.skip(1));
        assert(t =~= seq![t[0]] + t.skip(1));
    }
}

/// Replaces every occurrence of `p` in `t` by `r`, scanning left to right.
pub fn replace_all_chars(t: &Vec<char>, p: &Vec<char>, r: &Vec<char>) -> (out: Vec<char>)
    requires
        p@.len() > 0,
    ensures
        out@ == replace_all(t@, p@, r@),
{
    let mut out: Vec<char> = Vec::new();
    let mut i: usize = 0;
    proof {
        assert(t@.skip(0) =~= t@);
        assert(Seq::<char>::empty() + replace_all(t@, p@, r@) =~= replace_all(t@, p@, r@));
    }
    while i < t.len()
        invariant
            i <= t@.len(),
            p@.len() > 0,
            out@ + replace_all(t@.skip(i as int), p@, r@) == replace_all(t@, p@, r@),
        decreases t@.len() - i,
    {
        let ghost rest = t@.skip(i as int);
        if match_at(t, p, i) {
            proof {
                assert(rest.len() >= p@.len());
                assert(rest.subrange(0, p@.len() as int) =~= t@.subrange(
                    i as int,
                    i + p@.len() as int,
                ));
                assert(replace_all(rest, p@, r@) == r@ + replace_all(
                    rest.skip(p@.len() as int),
                    p@,
                    r@,
                ));
                assert(rest.skip(p@.len() as int) =~= t@.skip(i + p@.len()));
            }
            push_all(&mut out, r);
            i = i + p.len();
        } else {
            proof {
                assert(rest.len() > 0);
                assert(!(rest.len() >= p@.len() && rest.subrange(0, p@.len() as int) == p@)) by {
                    if rest.len() >= p@.len() {
                        assert(rest.subrange(0, p@.len() as int) =~= t@.subrange(
                            i as int,
                            i + p@.len() as int,
                        ));
                    }
                }
                lemma_replace_all_step_nomatch(rest, p@, r@);
                assert(rest[0] == t@[i as int]);
                assert(rest.skip(1) =~= t@.skip(i + 1));
            }
            out.push(t[i]);
            i = i + 1;
        }
    }
    proof {
        assert(t@.skip(t@.len() as int) =~= Seq::<char>::empty());
        assert(out@ + Seq::<char>::empty() =~= out@);
    }
    out
}

/// The literal token characters for a variable name.
fn token_chars(name: &str) -> (out: Vec<char>)
    ensures
        out@ == token_of(name@),
        out@.len() > 0,
{
    let mut out: Vec<char> = Vec::new();
    out.push('{');
    out.push(' ');
    out.push('$');
    let cs = str_to_chars(name);
    push_all(&mut out, &cs);
    out.push(' ');
    out.push('}');
    proof {
        assert(out@ =~= token_of(name@));
    }
    out
}

/// Folding one more pair onto the end of the list applies its replacement
/// after all earlier ones.
proof fn lemma_apply_pairs_push(
    m: Seq<char>,
    vs: Seq<(Seq<char>, Seq<char>)>,
    p: (Seq<char>, Seq<char>),
)
    ensures
        apply_pairs(m, vs.push(p)) == replace_all(apply_pairs(m, vs), token_of(p.0), p.1),
    decreases vs.len(),
{
    let w = vs.push(p);
    assert(w.len() == vs.len() + 1);
    if vs.len() == 0 {
        assert(w[0] == p);
        assert(w.drop_first() =~= Seq::<(Seq<char>, Seq<char>)>::empty());
        let m1 = replace_all(m, token_of(p.0), p.1);
        assert(apply_pairs(m, w) == apply_pairs(m1, w.drop_first()));
        assert(apply_pairs(m1, Seq::<(Seq<char>, Seq<char>)>::empty()) == m1);
        assert(apply_pairs(m, vs) == m);
    } else {
        assert(w[0] == vs[0]);
        assert(w.drop_first() =~= vs.drop_first().push(p));
        let m1 = replace_all(m, token_of(vs[0].0), vs[0].1);
        assert(apply_pairs(m, w) == apply_pairs(m1, w.drop_first()));
        assert(apply_pairs(m, vs) == apply_pairs(m1, vs.drop_first()));
        lemma_apply_pairs_push(m1, vs.drop_first(), p);
    }
}

/// Applies a list of (name, value) pairs and then the three global values
/// to `markup`, replacing every occurrence of each token.
pub fn substitute(markup: &str, variables: &Vec<(String, String)>, globals: &GlobalValues) -> (out:
    String)
    ensures
        out@ == substitute_spec(
            markup@,
            crate::mail::pairs_view(variables@),
            globals.logo_url@,
            globals.website_url@,
            globals.app_url@,
        ),
{
    let ghost vs = crate::mail::pairs_view(variables@);
    let mut cur: Vec<char> = str_to_chars(markup);
    let mut i: usize = 0;
    while i < variables.len()
        invariant
            i <= variables@.len(),
            vs == crate::mail::pairs_view(variables@),
            vs.len() == variables@.len(),
            cur@ == apply_pairs(markup@, vs.take(i as int)),
        decreases variables@.len() - i,
    {
        let tok = token_chars(variables[i].0.as_str());
        let val = str_to_chars(variables[i].1.as_str());
        let next = replace_all_chars(&cur, &tok, &val);
        proof {
            assert(vs[i as int] == (variables@[i as int].0@, variables@[i as int].1@));
            assert(vs.take(i + 1) =~= vs.take(i as int).push(vs[i as int]));
            lemma_apply_pairs_push(markup@, vs.take(i as int), vs[i as int]);
        }
        cur = next;
        i = i + 1;
    }
    proof {
        assert(vs.take(vs.len() as int) =~= vs);
    }
    let logo_tok = token_chars("logo_url");
    let logo_val = str_to_chars(globals.logo_url.as_str());
    let cur = replace_all_chars(&cur, &logo_tok, &logo_val);
    let website_tok = token_chars("website_url");
    let website_val = str_to_chars(globals.website_url.as_str());
    let cur = replace_all_chars(&cur, &website_tok, &website_val);
    let app_tok = token_chars("app_url");
    let app_val = str_to_chars(globals.app_url.as_str());
    let cur = replace_all_chars(&cur, &app_tok, &app_val);
    chars_to_string(&cur)
}

} // verus!
