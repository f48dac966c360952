use vstd::prelude::*;
use vstd::string::StrSliceExecFns;
use vstd::string::StringExecFns;

verus! {

/// A whitespace character, as the class-name joiner treats it.
pub open spec fn is_space_char(c: char) -> bool {
    c == ' ' || c == '\t' || c == '\n' || c == '\r'
}

/// Length of the leading run of non-whitespace characters.
pub open spec fn run_len(s: Seq<char>) -> nat
    decreases s.len(),
{
    if s.len() == 0 || is_space_char(s[0]) {
        0
    } else {
        1 + run_len(s.drop_first())
    }
}

pub proof fn lemma_run_len_le(s: Seq<char>)
    ensures
        run_len(s) <= s.len(),
    decreases s.len(),
{
    if s.len() > 0 && !is_space_char(s[0]) {
        lemma_run_len_le(s.drop_first());
    }
}

/// The leading run is exactly `k` when the first `k` characters are
/// non-whitespace and the run ends there (by whitespace or the end).
pub proof fn lemma_run_len_exact(s: Seq<char>, k: int)
    requires
        0 <= k <= s.len(),
        forall|j: int| 0 <= j < k ==> !is_space_char(#[trigger] s[j]),
        k == s.len() || is_space_char(s[k]),
    ensures
        run_len(s) == k,
    decreases k,
{
    if k == 0 {
    } else {
        assert(!is_space_char(s[0]));
        assert forall|j: int| 0 <= j < k - 1 implies !is_space_char(#[trigger] s.drop_first()[j]) by {
            assert(s.drop_first()[j] == s[j + 1]);
        }
        if k < s.len() {
            assert(s.drop_first()[k - 1] == s[k]);
        }
        lemma_run_len_exact(s.drop_first(), k - 1);
    }
}

/// The whitespace-separated tokens of a character sequence, in order. Every
/// token is a maximal non-empty run of non-whitespace characters.
pub open spec fn tokens_of(s: Seq<char>) -> Seq<Seq<char>>
    decreases s.len(),
    via tokens_of_decreases
{
    if s.len() == 0 {
        seq![]
    } else if is_space_char(s[0]) {
        tokens_of(s.drop_first())
    } else {
        seq![s.take(run_len(s) as int)] + tokens_of(s.skip(run_len(s) as int))
    }
}

#[via_fn]
proof fn tokens_of_decreases(s: Seq<char>) {
    if s.len() > 0 && !is_space_char(s[0]) {
        lemma_run_len_le(s);
        assert(run_len(s) >= 1);
    }
}

/// The tokens of a list of class strings, concatenated in order.
pub open spec fn class_tokens(cs: Seq<Seq<char>>) -> Seq<Seq<char>>
    decreases cs.len(),
{
    if cs.len() == 0 {
        seq![]
    } else {
        tokens_of(cs[0]) + class_tokens(cs.drop_first())
    }
}

/// Drops every token equal to the one most recently kept (`prev` stands for
/// the token kept just before this list).
pub open spec fn dedup_after(prev: Seq<char>, ts: Seq<Seq<char>>) -> Seq<Seq<char>>
    decreases ts.len(),
{
    if ts.len() == 0 {
        seq![]
    } else if ts[0] == prev {
        dedup_after(prev, ts.drop_first())
    } else {
        seq![ts[0]] + dedup_after(ts[0], ts.drop_first())
    }
}

/// The token most recently kept after deduplicating `ts` (or `prev` when
/// none was).
pub open spec fn last_kept(prev: Seq<char>, ts: Seq<Seq<char>>) -> Seq<char>
    decreases ts.len(),
{
    if ts.len() == 0 {
        prev
    } else if ts[0] == prev {
        last_kept(prev, ts.drop_first())
    } else {
        last_kept(ts[0], ts.drop_first())
    }
}

/// The tokens joined with a single space between neighbours.
pub open spec fn join_spaced(ts: Seq<Seq<char>>) -> Seq<char>
    decreases ts.len(),
{
    if ts.len() == 0 {
        seq![]
    } else if ts.len() == 1 {
        ts[0]
    } else {
        ts[0] + seq![' '] + join_spaced(ts.drop_first())
    }
}

/// Appending a token to the input of the consecutive deduplication either
/// drops it (when it equals the token last kept) or keeps it at the end.
pub proof fn lemma_dedup_push(prev: Seq<char>, ts: Seq<Seq<char>>, x: Seq<char>)
    ensures
        x == last_kept(prev, ts) ==> dedup_after(prev, ts.push(x)) == dedup_after(prev, ts)
            && last_kept(prev, ts.push(x)) == last_kept(prev, ts),
        x != last_kept(prev, ts) ==> dedup_after(prev, ts.push(x)) == dedup_after(prev, ts).push(x)
            && last_kept(prev, ts.push(x)) == x,
    decreases ts.len(),
{
    reveal_with_fuel(dedup_after, 3);
    reveal_with_fuel(last_kept, 3);
    if ts.len() == 0 {
        assert(ts =~= Seq::<Seq<char>>::empty());
        assert(ts.push(x)[0] == x);
        assert(ts.push(x).drop_first() =~= Seq::<Seq<char>>::empty());
        if x != prev {
            assert(dedup_after(prev, ts.push(x)) =~= dedup_after(prev, ts).push(x));
        }
    } else {
        assert(ts.push(x)[0] == ts[0]);
        assert(ts.push(x).drop_first() =~= ts.drop_first().push(x));
        if ts[0] == prev {
            lemma_dedup_push(prev, ts.drop_first(), x);
        } else {
            lemma_dedup_push(ts[0], ts.drop_first(), x);
            if x != last_kept(ts[0], ts.drop_first()) {
                assert(dedup_after(prev, ts.push(x)) =~= dedup_after(prev, ts).push(x));
            }
        }
    }
}

/// Joining after keeping one more token appends a space and the token (or
/// just the token, when nothing was kept before).
pub proof fn lemma_join_push(ts: Seq<Seq<char>>, x: Seq<char>)
    ensures
        ts.len() == 0 ==> join_spaced(ts.push(x)) == x,
        ts.len() > 0 ==> join_spaced(ts.push(x)) == join_spaced(ts) + seq![' '] + x,
    decreases ts.len(),
{
    if ts.len() == 0 {
        assert(ts.push(x)[0] == x);
    } else {
        assert(ts.push(x)[0] == ts[0]);
        assert(ts.push(x).drop_first() =~= ts.drop_first().push(x));
        lemma_join_push(ts.drop_first(), x);
        if ts.len() == 1 {
            assert(join_spaced(ts.push(x)) == ts[0] + seq![' '] + join_spaced(
                ts.drop_first().push(x),
            ));
        }
    }
}

/// Every kept token comes from the input list.
pub proof fn lemma_dedup_nonempty(prev: Seq<char>, ts: Seq<Seq<char>>)
    requires
        forall|i: int| 0 <= i < ts.len() ==> (#[trigger] ts[i]).len() > 0,
    ensures
        forall|i: int|
            0 <= i < dedup_after(prev, ts).len() ==> (#[trigger] dedup_after(prev, ts)[i]).len()
                > 0,
        last_kept(prev, ts).len() == 0 ==> last_kept(prev, ts) == prev,
    decreases ts.len(),
{
    reveal_with_fuel(dedup_after, 2);
    reveal_with_fuel(last_kept, 2);
    if ts.len() > 0 {
        assert forall|i: int| 0 <= i < ts.drop_first().len() implies (#[trigger] ts.drop_first()[
            i
        ]).len() > 0 by {
            assert(ts.drop_first()[i] == ts[i + 1]);
        }
        if ts[0] == prev {
            lemma_dedup_nonempty(prev, ts.drop_first());
            assert forall|i: int| 0 <= i < dedup_after(prev, ts).len() implies (
            #[trigger] dedup_after(prev, ts)[i]).len() > 0 by {
                assert(dedup_after(prev, ts)[i] == dedup_after(prev, ts.drop_first())[i]);
            }
        } else {
            lemma_dedup_nonempty(ts[0], ts.drop_first());
            assert forall|i: int| 0 <= i < dedup_after(prev, ts).len() implies (
            #[trigger] dedup_after(prev, ts)[i]).len() > 0 by {
                if i == 0 {
                    assert(dedup_after(prev, ts)[0] == ts[0]);
                } else {
                    assert(dedup_after(prev, ts)[i] == dedup_after(ts[0], ts.drop_first())[i - 1]);
                }
            }
        }
    }
}

/// A non-ASCII-whitespace test on one character.
fn is_space(c: char) -> (r: bool)
    ensures
        r == is_space_char(c),
{
    c == ' ' || c == '\t' || c == '\n' || c == '\r'
}

/// Joins CSS class strings into one class attribute: the whitespace-separated
/// tokens of every string, in order, joined by single spaces, with a token
/// equal to the one kept just before it dropped.
pub fn cn(classes: &Vec<String>) -> (r: String)
    ensures
        r@ == join_spaced(
            dedup_after(Seq::<char>::empty(), class_tokens(classes.deep_view())),
        ),
{
    let ghost dv = classes.deep_view();
    let mut out = String::new();
    let mut last = String::new();
    let ghost mut toks: Seq<Seq<char>> = Seq::empty();
    proof {
        assert(dv.skip(0) =~= dv);
        assert(toks + class_tokens(dv.skip(0)) =~= class_tokens(dv));
        assert(" "@ =~= seq![' ']) by {
            reveal_strlit(" ");
        }
    }
    let nclasses = classes.len();
    let mut c: usize = 0;
    while c < nclasses
        invariant
            nclasses == classes@.len(),
            dv == classes.deep_view(),
            dv.len() == nclasses,
            0 <= c <= nclasses,
            class_tokens(dv) == toks + class_tokens(dv.skip(c as int)),
            forall|j: int| 0 <= j < toks.len() ==> (#[trigger] toks[j]).len() > 0,
            out@ == join_spaced(dedup_after(Seq::<char>::empty(), toks)),
            last@ == last_kept(Seq::<char>::empty(), toks),
            out@.len() == 0 <==> dedup_after(Seq::<char>::empty(), toks).len() == 0,
            last@.len() == 0 <==> dedup_after(Seq::<char>::empty(), toks).len() == 0,
            " "@ == seq![' '],
        decreases nclasses - c,
    {
        let s = classes[c].as_str();
        let ghost sv = s@;
        let n = s.unicode_len();
        proof {
            assert(dv[c as int] == classes@[c as int].deep_view());
            assert(sv == dv[c as int]);
            assert(dv.skip(c as int)[0] == dv[c as int]);
            assert(dv.skip(c as int).drop_first() =~= dv.skip(c + 1));
            assert(class_tokens(dv.skip(c as int)) == tokens_of(sv) + class_tokens(dv.skip(c + 1)));
            assert(sv.skip(0) =~= sv);
            assert((toks + tokens_of(sv.skip(0)) + class_tokens(dv.skip(c + 1))) =~= (toks
                + class_tokens(dv.skip(c as int))));
        }
        let mut i: usize = 0;
        while i < n
            invariant
                n == sv.len(),
                s@ == sv,
                dv.len() == nclasses,
                0 <= c < nclasses,
                0 <= i <= n,
                class_tokens(dv) == toks + tokens_of(sv.skip(i as int)) + class_tokens(
                    dv.skip(c + 1),
                ),
                forall|j: int| 0 <= j < toks.len() ==> (#[trigger] toks[j]).len() > 0,
                out@ == join_spaced(dedup_after(Seq::<char>::empty(), toks)),
                last@ == last_kept(Seq::<char>::empty(), toks),
                out@.len() == 0 <==> dedup_after(Seq::<char>::empty(), toks).len() == 0,
                last@.len() == 0 <==> dedup_after(Seq::<char>::empty(), toks).len() == 0,
                " "@ == seq![' '],
            decreases n - i,
        {
            if is_space(s.get_char(i)) {
                proof {
                    assert(sv.skip(i as int)[0] == sv[i as int]);
                    assert(sv.skip(i as int).drop_first() =~= sv.skip(i + 1));
                    assert(tokens_of(sv.skip(i as int)) == tokens_of(sv.skip(i + 1)));
                }
                i = i + 1;
            } else {
                let start = i;
                i = i + 1;
                while i < n && !is_space(s.get_char(i))
                    invariant
                        n == sv.len(),
                        s@ == sv,
                        0 <= start < i <= n,
                        forall|j: int| start <= j < i ==> !is_space_char(#[trigger] sv[j]),
                    decreases n - i,
                {
                    i = i + 1;
                }
                let token = s.substring_char(start, i);
                proof {
                    let rest = sv.skip(start as int);
                    assert forall|j: int| 0 <= j < i - start implies !is_space_char(
                        #[trigger] rest[j],
                    ) by {
                        assert(rest[j] == sv[j + start]);
                    }
                    if i < n {
                        assert(rest[i - start] == sv[i as int]);
                    }
                    lemma_run_len_exact(rest, i - start);
                    assert(rest.take(i - start) =~= sv.subrange(start as int, i as int));
                    assert(rest.skip(i - start) =~= sv.skip(i as int));
                    assert(tokens_of(rest) == seq![sv.subrange(start as int, i as int)]
                        + tokens_of(sv.skip(i as int)));
                    assert(token@.len() > 0);
                    lemma_dedup_push(Seq::<char>::empty(), toks, token@);
                    lemma_dedup_nonempty(Seq::<char>::empty(), toks);
                    lemma_join_push(dedup_after(Seq::<char>::empty(), toks), token@);
                }
                let token_string = token.to_owned();
                if token_string == last {
                    proof {
                        assert(token@ == last_kept(Seq::<char>::empty(), toks));
                    }
                } else {
                    if !out.as_str().is_empty() {
                        out.append(" ");
                    }
                    out.append(token);
                    last = token_string;
                }
                proof {
                    let pushed = toks.push(token@);
                    assert((pushed + tokens_of(sv.skip(i as int)) + class_tokens(dv.skip(c + 1)))
                        =~= (toks + tokens_of(sv.skip(start as int)) + class_tokens(
                        dv.skip(c + 1),
                    )));
                    toks = pushed;
                }
            }
        }
        proof {
            assert(sv.skip(n as int) =~= Seq::<char>::empty());
            assert((toks + tokens_of(sv.skip(n as int)) + class_tokens(dv.skip(c + 1))) =~= (toks
                + class_tokens(dv.skip(c + 1))));
        }
        c = c + 1;
    }
    proof {
        assert(dv.skip(nclasses as int) =~= Seq::<Seq<char>>::empty());
        assert((toks + class_tokens(dv.skip(nclasses as int))) =~= toks);
    }
    out
}

} // verus!
