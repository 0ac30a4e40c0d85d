//! Orderings of the register's lists: texts in character-code order, and a
//! sort that keeps every element and orders them by a given total order.
use crate::calendar::Date;
use crate::models::{Household, Member, MemberType};
use vstd::multiset::Multiset;
use vstd::prelude::*;

verus! {

broadcast use vstd::seq_lib::group_to_multiset_ensures;

/// `a` comes before `b`, or equals it, comparing characters by their codes
/// from the start; a text comes before any longer text that starts with it.
pub open spec fn text_le(a: Seq<char>, b: Seq<char>) -> bool
    decreases a.len(),
{
    if a.len() == 0 {
        true
    } else if b.len() == 0 {
        false
    } else if a[0] != b[0] {
        a[0] < b[0]
    } else {
        text_le(a.drop_first(), b.drop_first())
    }
}

pub proof fn lemma_text_total(a: Seq<char>, b: Seq<char>)
    ensures
        text_le(a, b) || text_le(b, a),
    decreases a.len(),
{
    if a.len() > 0 && b.len() > 0 && a[0] == b[0] {
        lemma_text_total(a.drop_first(), b.drop_first());
    }
}

pub proof fn lemma_text_trans(a: Seq<char>, b: Seq<char>, c: Seq<char>)
    requires
        text_le(a, b),
        text_le(b, c),
    ensures
        text_le(a, c),
    decreases a.len(),
{
    if a.len() > 0 && b.len() > 0 && c.len() > 0 && a[0] == b[0] && b[0] == c[0] {
        lemma_text_trans(a.drop_first(), b.drop_first(), c.drop_first());
    }
}

pub proof fn lemma_text_antisym(a: Seq<char>, b: Seq<char>)
    requires
        text_le(a, b),
        text_le(b, a),
    ensures
        a == b,
    decreases a.len(),
{
    if a.len() > 0 && b.len() > 0 {
        lemma_text_antisym(a.drop_first(), b.drop_first());
        assert(a =~= seq![a[0]] + a.drop_first());
        assert(b =~= seq![b[0]] + b.drop_first());
    }
}

/// Whether `a` comes before `b`, or equals it, in character-code order.
pub fn text_before(a: &str, b: &str) -> (r: bool)
    ensures
        r == text_le(a@, b@),
{
    let n = a.unicode_len();
    let m = b.unicode_len();
    let mut i: usize = 0;
    assert(a@.subrange(0, n as int) =~= a@);
    assert(b@.subrange(0, m as int) =~= b@);
    while i < n && i < m
        invariant
            n == a@.len(),
            m == b@.len(),
            i <= n,
            i <= m,
            text_le(a@, b@) == text_le(a@.subrange(i as int, n as int), b@.subrange(i as int, m as int)),
        decreases n - i,
    {
        let x = a.get_char(i);
        let y = b.get_char(i);
        let ghost sa = a@.subrange(i as int, n as int);
        let ghost sb = b@.subrange(i as int, m as int);
        assert(sa[0] == x && sb[0] == y);
        if x != y {
            return x < y;
        }
        assert(sa.drop_first() =~= a@.subrange(i + 1, n as int));
        assert(sb.drop_first() =~= b@.subrange(i + 1, m as int));
        i = i + 1;
    }
    if i == n {
        assert(a@.subrange(i as int, n as int).len() == 0);
        true
    } else {
        assert(b@.subrange(i as int, m as int).len() == 0);
        false
    }
}

/// `le` orders every two values and is transitive.
pub open spec fn total_preorder<T>(le: spec_fn(T, T) -> bool) -> bool {
    &&& forall|a: T, b: T| #[trigger] le(a, b) || le(b, a)
    &&& forall|a: T, b: T, c: T| #[trigger] le(a, b) && #[trigger] le(b, c) ==> le(a, c)
}

/// `s` is in order by `le`.
pub open spec fn sorted_by<T>(s: Seq<T>, le: spec_fn(T, T) -> bool) -> bool {
    forall|i: int, j: int| 0 <= i < j < s.len() ==> le(#[trigger] s[i], #[trigger] s[j])
}

/// Sorts `v` by the order that `before` decides and `le` states: the result
/// holds the same elements as `v`, in order.
pub fn sort_by<T, F: Fn(&T, &T) -> bool>(v: Vec<T>, le: Ghost<spec_fn(T, T) -> bool>, before: &F) -> (r: Vec<T>)
    requires
        forall|a: &T, b: &T| before.requires((a, b)),
        forall|a: &T, b: &T, x: bool| before.ensures((a, b), x) ==> x == (le@)(*a, *b),
        total_preorder(le@),
    ensures
        sorted_by(r@, le@),
        r@.to_multiset() == v@.to_multiset(),
{
    let ghost orig = v@;
    let mut rest = v;
    let mut out: Vec<T> = Vec::new();
    while rest.len() > 0
        invariant
            forall|a: &T, b: &T| before.requires((a, b)),
            forall|a: &T, b: &T, x: bool| before.ensures((a, b), x) ==> x == (le@)(*a, *b),
            total_preorder(le@),
            sorted_by(out@, le@),
            out@.to_multiset().add(rest@.to_multiset()) == orig.to_multiset(),
        decreases rest@.len(),
    {
        let ghost rest_before = rest@;
        let x = match rest.pop() {
            Some(x) => x,
            None => {
                return out;
            },
        };
        assert(rest_before =~= rest@.push(x));
        let mut p: usize = 0;
        let mut searching = true;
        while searching && p < out.len()
            invariant
                forall|a: &T, b: &T| before.requires((a, b)),
                forall|a: &T, b: &T, x: bool| before.ensures((a, b), x) ==> x == (le@)(*a, *b),
                total_preorder(le@),
                p <= out@.len(),
                forall|k: int| 0 <= k < p ==> (le@)(#[trigger] out@[k], x),
                !searching ==> p < out@.len() && (le@)(x, out@[p as int]),
            decreases out@.len() - p + if searching { 1int } else { 0int },
        {
            if before(&x, &out[p]) {
                searching = false;
            } else {
                assert((le@)(x, out@[p as int]) || (le@)(out@[p as int], x));
                p = p + 1;
            }
        }
        let ghost old_out = out@;
        out.insert(p, x);
        proof {
            let s = out@;
            assert forall|i: int, j: int| 0 <= i < j < s.len() implies (le@)(#[trigger] s[i], #[trigger] s[j]) by {
                if j < p {
                    assert(s[i] == old_out[i] && s[j] == old_out[j]);
                } else if j == p {
                    assert(s[i] == old_out[i]);
                } else if i == p {
                    assert(s[j] == old_out[j - 1]);
                    if p < old_out.len() {
                        if j - 1 > p {
                            assert((le@)(old_out[p as int], old_out[j - 1]));
                        }
                    }
                } else if i < p {
                    assert(s[i] == old_out[i] && s[j] == old_out[j - 1]);
                } else {
                    assert(s[i] == old_out[i - 1] && s[j] == old_out[j - 1]);
                }
            }
            assert(s.remove(p as int) =~= old_out);
            assert(s[p as int] == x);
            assert(s.to_multiset() =~= old_out.to_multiset().insert(x));
            assert(out@.to_multiset().add(rest@.to_multiset()) =~= orig.to_multiset());
        }
    }
    assert(rest@.len() == 0);
    assert(rest@.to_multiset() =~= Multiset::empty());
    assert(out@.to_multiset() =~= orig.to_multiset());
    out
}

/// `a`'s name comes before `b`'s, or equals it: by last name, then by first
/// name, in character-code order.
pub open spec fn name_le(a: Member, b: Member) -> bool {
    if a.sukunimi@ == b.sukunimi@ {
        text_le(a.etunimi@, b.etunimi@)
    } else {
        text_le(a.sukunimi@, b.sukunimi@)
    }
}

pub proof fn lemma_name_total(a: Member, b: Member)
    ensures
        name_le(a, b) || name_le(b, a),
{
    lemma_text_total(a.etunimi@, b.etunimi@);
    lemma_text_total(a.sukunimi@, b.sukunimi@);
}

pub proof fn lemma_name_trans(a: Member, b: Member, c: Member)
    requires
        name_le(a, b),
        name_le(b, c),
    ensures
        name_le(a, c),
{
    let (x, y, z) = (a.sukunimi@, b.sukunimi@, c.sukunimi@);
    if x == y && y == z {
        lemma_text_trans(a.etunimi@, b.etunimi@, c.etunimi@);
    } else if x == y || y == z {
    } else {
        lemma_text_trans(x, y, z);
        if x == z {
            lemma_text_antisym(x, y);
        }
    }
}

/// Whether `a`'s name comes before `b`'s, or equals it.
pub fn name_before(a: &Member, b: &Member) -> (r: bool)
    ensures
        r == name_le(*a, *b),
{
    if crate::models::text_equals(a.sukunimi.as_str(), b.sukunimi.as_str()) {
        text_before(a.etunimi.as_str(), b.etunimi.as_str())
    } else {
        text_before(a.sukunimi.as_str(), b.sukunimi.as_str())
    }
}

/// `a` is on or after `b`.
pub open spec fn date_on_or_after(a: Date, b: Date) -> bool {
    a.year > b.year || (a.year == b.year && (a.month > b.month || (a.month == b.month && a.day >= b.day)))
}

/// `a`'s name comes before `b`'s, or equals it: a household without a name
/// comes first, the others by name in character-code order.
pub open spec fn household_le(a: Household, b: Household) -> bool {
    match (a.talouden_nimi, b.talouden_nimi) {
        (None, _) => true,
        (Some(_), None) => false,
        (Some(x), Some(y)) => text_le(x@, y@),
    }
}

pub proof fn lemma_household_total(a: Household, b: Household)
    ensures
        household_le(a, b) || household_le(b, a),
{
    if let (Some(x), Some(y)) = (a.talouden_nimi, b.talouden_nimi) {
        lemma_text_total(x@, y@);
    }
}

pub proof fn lemma_household_trans(a: Household, b: Household, c: Household)
    requires
        household_le(a, b),
        household_le(b, c),
    ensures
        household_le(a, c),
{
    if let (Some(x), Some(y), Some(z)) = (a.talouden_nimi, b.talouden_nimi, c.talouden_nimi) {
        lemma_text_trans(x@, y@, z@);
    }
}

/// Whether `a`'s name comes before `b`'s, or equals it.
pub fn household_before(a: &Household, b: &Household) -> (r: bool)
    ensures
        r == household_le(*a, *b),
{
    match (&a.talouden_nimi, &b.talouden_nimi) {
        (None, _) => true,
        (Some(_), None) => false,
        (Some(x), Some(y)) => text_before(x.as_str(), y.as_str()),
    }
}

/// The place of a member type when the stored names are in alphabetical
/// order: kannatus, kunnia, varsinainen.
pub open spec fn type_rank(t: MemberType) -> int {
    match t {
        MemberType::Kannatus => 0,
        MemberType::Kunnia => 1,
        MemberType::Varsinainen => 2,
    }
}

/// The place of a member type in the alphabetical order of the stored names.
pub fn member_type_rank(t: MemberType) -> (r: u8)
    ensures
        r == type_rank(t),
{
    match t {
        MemberType::Kannatus => 0,
        MemberType::Kunnia => 1,
        MemberType::Varsinainen => 2,
    }
}

} // verus!
