//! Sets of texts kept as sorted sequences without repeats, ordered character by
//! character (the order of Rust strings, since UTF-8 keeps the order of code points).
use vstd::prelude::*;

verus! {

/// Whether `a` comes strictly before `b`: at the first character where they
/// differ `a` has the smaller one, or `a` is a proper prefix of `b`.
pub open spec fn text_lt(a: Seq<char>, b: Seq<char>) -> bool
    decreases a.len(),
{
    if a.len() == 0 {
        b.len() > 0
    } else if b.len() == 0 {
        false
    } else if a[0] != b[0] {
        (a[0] as int) < (b[0] as int)
    } else {
        text_lt(a.drop_first(), b.drop_first())
    }
}

/// Whether each text comes strictly before the next one.
pub open spec fn strictly_sorted(s: Seq<Seq<char>>) -> bool {
    forall|i: int| 0 <= i < s.len() - 1 ==> text_lt(#[trigger] s[i], s[i + 1])
}

/// The sequence `r` with `x` put in place: before the first text that comes
/// after it, unless the scan meets `x` itself first.
pub open spec fn insert_sorted(r: Seq<Seq<char>>, x: Seq<char>) -> Seq<Seq<char>>
    decreases r.len(),
{
    if r.len() == 0 {
        seq![x]
    } else if text_lt(x, r[0]) {
        seq![x] + r
    } else if r[0] == x {
        r
    } else {
        seq![r[0]] + insert_sorted(r.drop_first(), x)
    }
}

/// The texts of `s` in order and without repeats, built by putting each in place.
pub open spec fn sorted_unique(s: Seq<Seq<char>>) -> Seq<Seq<char>>
    decreases s.len(),
{
    if s.len() == 0 {
        Seq::empty()
    } else {
        insert_sorted(sorted_unique(s.drop_last()), s.last())
    }
}

/// No text comes before itself.
pub proof fn lemma_text_lt_irreflexive(a: Seq<char>)
    ensures
        !text_lt(a, a),
    decreases a.len(),
{
    if a.len() > 0 {
        lemma_text_lt_irreflexive(a.drop_first());
    }
}

/// Of two different texts, one comes before the other, and not both ways.
pub proof fn lemma_text_lt_total(a: Seq<char>, b: Seq<char>)
    ensures
        a != b ==> text_lt(a, b) || text_lt(b, a),
        !(text_lt(a, b) && text_lt(b, a)),
    decreases a.len(),
{
    if a.len() > 0 && b.len() > 0 && a[0] == b[0] {
        lemma_text_lt_total(a.drop_first(), b.drop_first());
        if a != b {
            assert(a =~= seq![a[0]] + a.drop_first());
            assert(b =~= seq![b[0]] + b.drop_first());
        }
    } else if a.len() == 0 && b.len() == 0 {
        assert(a =~= b);
    } else if a.len() > 0 && b.len() > 0 {
        assert((a[0] as int) != (b[0] as int));
    }
}

/// Putting a text in place keeps a sequence strictly sorted and adds exactly that text.
pub proof fn lemma_insert_sorted(r: Seq<Seq<char>>, x: Seq<char>)
    requires
        strictly_sorted(r),
    ensures
        strictly_sorted(insert_sorted(r, x)),
        insert_sorted(r, x).to_set() == r.to_set().insert(x),
        insert_sorted(r, x).len() > 0 && (r.len() > 0 ==> insert_sorted(r, x)[0] == x || insert_sorted(r, x)[0] == r[0]),
    decreases r.len(),
{
    if r.len() == 0 {
        assert(seq![x].to_set() =~= Set::<Seq<char>>::empty().insert(x)) by {
            assert(seq![x][0] == x);
        }
        assert(r.to_set() =~= Set::<Seq<char>>::empty());
    } else if text_lt(x, r[0]) {
        let t = seq![x] + r;
        assert forall|i: int| 0 <= i < t.len() - 1 implies text_lt(#[trigger] t[i], t[i + 1]) by {
            if i > 0 {
                assert(t[i] == r[i - 1] && t[i + 1] == r[i]);
            }
        }
        assert(t.to_set() =~= r.to_set().insert(x)) by {
            assert forall|y: Seq<char>| t.to_set().contains(y) <==> r.to_set().insert(x).contains(y) by {
                if t.to_set().contains(y) {
                    let k = choose|k: int| 0 <= k < t.len() && t[k] == y;
                    if k > 0 {
                        assert(r[k - 1] == y);
                    }
                }
                if r.to_set().contains(y) {
                    let k = choose|k: int| 0 <= k < r.len() && r[k] == y;
                    assert(t[k + 1] == y);
                }
                if y == x {
                    assert(t[0] == x);
                }
            }
        }
    } else if r[0] == x {
        assert(r.to_set().insert(x) =~= r.to_set()) by {
            assert(r.to_set().contains(r[0]));
        }
    } else {
        let rest = r.drop_first();
        assert(strictly_sorted(rest)) by {
            assert forall|i: int| 0 <= i < rest.len() - 1 implies text_lt(#[trigger] rest[i], rest[i + 1]) by {
                assert(rest[i] == r[i + 1] && rest[i + 1] == r[i + 2]);
            }
        }
        lemma_insert_sorted(rest, x);
        let inner = insert_sorted(rest, x);
        let t = seq![r[0]] + inner;
        lemma_text_lt_total(x, r[0]);
        assert(text_lt(r[0], x));
        assert forall|i: int| 0 <= i < t.len() - 1 implies text_lt(#[trigger] t[i], t[i + 1]) by {
            if i == 0 {
                assert(t[1] == inner[0]);
                if rest.len() > 0 {
                    assert(text_lt(r[0], r[1]));
                    assert(rest[0] == r[1]);
                }
            } else {
                assert(t[i] == inner[i - 1] && t[i + 1] == inner[i]);
            }
        }
        assert(t.to_set() =~= r.to_set().insert(x)) by {
            assert(r =~= seq![r[0]] + rest);
            assert forall|y: Seq<char>| t.to_set().contains(y) <==> r.to_set().insert(x).contains(y) by {
                if t.to_set().contains(y) {
                    let k = choose|k: int| 0 <= k < t.len() && t[k] == y;
                    if k > 0 {
                        assert(inner[k - 1] == y);
                        assert(inner.to_set().contains(y));
                        if y != x {
                            assert(rest.to_set().contains(y));
                            let m = choose|m: int| 0 <= m < rest.len() && rest[m] == y;
                            assert(r[m + 1] == y);
                        }
                    } else {
                        assert(r[0] == y);
                    }
                }
                if r.to_set().contains(y) {
                    let k = choose|k: int| 0 <= k < r.len() && r[k] == y;
                    if k == 0 {
                        assert(t[0] == y);
                    } else {
                        assert(rest[k - 1] == y);
                        assert(rest.to_set().contains(y));
                        assert(inner.to_set().contains(y));
                        let m = choose|m: int| 0 <= m < inner.len() && inner[m] == y;
                        assert(t[m + 1] == y);
                    }
                }
                if y == x {
                    assert(inner.to_set().contains(x));
                    let m = choose|m: int| 0 <= m < inner.len() && inner[m] == x;
                    assert(t[m + 1] == x);
                }
            }
        }
    }
}

/// The sorted texts of a sequence are strictly sorted and are exactly its texts.
pub proof fn law_sorted_unique(s: Seq<Seq<char>>)
    ensures
        strictly_sorted(sorted_unique(s)),
        sorted_unique(s).to_set() == s.to_set(),
    decreases s.len(),
{
    if s.len() == 0 {
        assert(s.to_set() =~= Set::<Seq<char>>::empty());
        assert(sorted_unique(s).to_set() =~= Set::<Seq<char>>::empty());
    } else {
        law_sorted_unique(s.drop_last());
        lemma_insert_sorted(sorted_unique(s.drop_last()), s.last());
        assert(s.to_set() =~= s.drop_last().to_set().insert(s.last())) by {
            assert(s =~= s.drop_last().push(s.last()));
            assert forall|y: Seq<char>| s.to_set().contains(y) <==> s.drop_last().to_set().insert(s.last()).contains(y) by {
                if s.to_set().contains(y) {
                    let k = choose|k: int| 0 <= k < s.len() && s[k] == y;
                    if k < s.len() - 1 {
                        assert(s.drop_last()[k] == y);
                    }
                }
                if s.drop_last().to_set().contains(y) {
                    let k = choose|k: int| 0 <= k < s.drop_last().len() && s.drop_last()[k] == y;
                    assert(s[k] == y);
                }
                if y == s.last() {
                    assert(s[s.len() - 1] == y);
                }
            }
        }
    }
}

/// Whether `a` comes strictly before `b`, character by character.
pub fn str_lt(a: &str, b: &str) -> (res: bool)
    ensures
        res == text_lt(a@, b@),
{
    let n = a.unicode_len();
    let m = b.unicode_len();
    let mut i: usize = 0;
    assert(a@.skip(0) =~= a@);
    assert(b@.skip(0) =~= b@);
    while i < n && i < m
        invariant
            n == a@.len(),
            m == b@.len(),
            i <= n,
            i <= m,
            text_lt(a@, b@) == text_lt(a@.skip(i as int), b@.skip(i as int)),
        decreases n - i,
    {
        let x = a.get_char(i);
        let y = b.get_char(i);
        if x != y {
            assert(a@.skip(i as int)[0] == x);
            assert(b@.skip(i as int)[0] == y);
            return (x as u32) < (y as u32);
        }
        assert(a@.skip(i as int).drop_first() =~= a@.skip(i + 1));
        assert(b@.skip(i as int).drop_first() =~= b@.skip(i + 1));
        i = i + 1;
    }
    i < m
}

fn insert_sorted_string(r: &mut Vec<String>, x: String)
    ensures
        final(r)@.len() >= old(r)@.len(),
        crate::text::string_views(final(r)@) == insert_sorted(crate::text::string_views(old(r)@), x@),
{
    let ghost views = crate::text::string_views(r@);
    let ghost old_r = r@;
    let mut i: usize = 0;
    assert(views.skip(0) =~= views);
    assert(views.take(0) + insert_sorted(views, x@) =~= insert_sorted(views, x@));
    while i < r.len()
        invariant
            i <= r@.len(),
            r@ == old_r,
            old_r == old(r)@,
            views == crate::text::string_views(r@),
            insert_sorted(views, x@) == views.take(i as int) + insert_sorted(views.skip(i as int), x@),
        decreases r@.len() - i,
    {
        let ghost rest = views.skip(i as int);
        assert(rest[0] == r@[i as int]@);
        if str_lt(x.as_str(), r[i].as_str()) {
            let ghost xv = x@;
            r.insert(i, x);
            assert(r@ == old_r.insert(i as int, r@[i as int]));
            assert(insert_sorted(rest, xv) == seq![xv] + rest);
            assert(crate::text::string_views(r@) =~= views.take(i as int) + (seq![xv] + rest));
            assert(r@.len() == old_r.len() + 1);
            return;
        }
        if crate::text::str_eq(r[i].as_str(), x.as_str()) {
            assert(views =~= views.take(i as int) + rest);
            return;
        }
        assert(rest.drop_first() =~= views.skip(i + 1));
        assert(views.take(i + 1) =~= views.take(i as int) + seq![rest[0]]);
        i = i + 1;
    }
    assert(views.skip(i as int) =~= Seq::<Seq<char>>::empty());
    r.push(x);
    assert(crate::text::string_views(r@) =~= views.take(i as int) + seq![x@]);
}

/// The texts in order and without repeats.
pub fn sorted_unique_strings(values: Vec<String>) -> (res: Vec<String>)
    ensures
        crate::text::string_views(res@) == sorted_unique(crate::text::string_views(values@)),
{
    let mut out: Vec<String> = Vec::new();
    let mut i: usize = 0;
    while i < values.len()
        invariant
            i <= values@.len(),
            crate::text::string_views(out@) == sorted_unique(crate::text::string_views(values@).take(i as int)),
        decreases values@.len() - i,
    {
        let ghost prefix = crate::text::string_views(values@).take(i as int);
        insert_sorted_string(&mut out, values[i].clone());
        assert(crate::text::string_views(values@).take(i + 1).drop_last() =~= prefix);
        i = i + 1;
    }
    assert(crate::text::string_views(values@).take(values@.len() as int) =~= crate::text::string_views(values@));
    out
}

} // verus!
