//! Stable ordering of records by a (rank, text) key, as the listings use:
//! rank first, then the text compared character by character (which orders
//! strings the way `String`'s `Ord` does, UTF-8 preserving code-point order).

use vstd::prelude::*;

verus! {

/// A sort key: a small rank compared first, then a text.
pub struct SortKey {
    pub rank: u8,
    pub text: Vec<char>,
}

impl View for SortKey {
    type V = (u8, Seq<char>);

    open spec fn view(&self) -> (u8, Seq<char>) {
        (self.rank, self.text@)
    }
}

/// Lexicographic order on character sequences: a proper prefix comes first.
pub open spec fn text_lt(a: Seq<char>, b: Seq<char>) -> bool
    decreases a.len(),
{
    if a.len() == 0 {
        b.len() > 0
    } else if b.len() == 0 {
        false
    } else if a[0] != b[0] {
        a[0] < b[0]
    } else {
        text_lt(a.drop_first(), b.drop_first())
    }
}

/// Key order: rank, then text.
pub open spec fn key_lt(a: (u8, Seq<char>), b: (u8, Seq<char>)) -> bool {
    a.0 < b.0 || (a.0 == b.0 && text_lt(a.1, b.1))
}

/// `a` does not come after `b`.
pub open spec fn key_le(a: (u8, Seq<char>), b: (u8, Seq<char>)) -> bool {
    !key_lt(b, a)
}

/// No text comes before itself.
pub proof fn lemma_text_lt_irreflexive(a: Seq<char>)
    ensures
        !text_lt(a, a),
    decreases a.len(),
{
    if a.len() > 0 {
        lemma_text_lt_irreflexive(a.drop_first());
    }
}

/// Of two different texts, exactly one comes first.
pub proof fn lemma_text_lt_trichotomy(a: Seq<char>, b: Seq<char>)
    ensures
        a == b || text_lt(a, b) || text_lt(b, a),
        !(text_lt(a, b) && text_lt(b, a)),
    decreases a.len(),
{
    if a.len() > 0 && b.len() > 0 {
        lemma_text_lt_trichotomy(a.drop_first(), b.drop_first());
        if a[0] == b[0] && a.drop_first() == b.drop_first() {
            assert(a =~= seq![a[0]] + a.drop_first());
            assert(b =~= seq![b[0]] + b.drop_first());
        }
    } else if a.len() == 0 && b.len() == 0 {
        assert(a =~= b);
    }
}

/// Text order is transitive.
pub proof fn lemma_text_lt_transitive(a: Seq<char>, b: Seq<char>, c: Seq<char>)
    requires
        text_lt(a, b),
        text_lt(b, c),
    ensures
        text_lt(a, c),
    decreases a.len(),
{
    if a.len() > 0 && b.len() > 0 && c.len() > 0 {
        if a[0] == b[0] && b[0] == c[0] {
            lemma_text_lt_transitive(a.drop_first(), b.drop_first(), c.drop_first());
        }
    }
}

/// Key order is a strict total order: irreflexive, total on different keys,
/// and transitive.
pub proof fn lemma_key_order(a: (u8, Seq<char>), b: (u8, Seq<char>), c: (u8, Seq<char>))
    ensures
        !key_lt(a, a),
        a == b || key_lt(a, b) || key_lt(b, a),
        !(key_lt(a, b) && key_lt(b, a)),
        key_lt(a, b) && key_lt(b, c) ==> key_lt(a, c),
        key_le(a, b) && key_le(b, c) ==> key_le(a, c),
{
    lemma_text_lt_irreflexive(a.1);
    lemma_text_lt_trichotomy(a.1, b.1);
    lemma_text_lt_trichotomy(b.1, c.1);
    lemma_text_lt_trichotomy(a.1, c.1);
    if text_lt(a.1, b.1) && text_lt(b.1, c.1) {
        lemma_text_lt_transitive(a.1, b.1, c.1);
    }
    if text_lt(c.1, b.1) && text_lt(b.1, a.1) {
        lemma_text_lt_transitive(c.1, b.1, a.1);
    }
    if a.0 == b.0 && a.1 == b.1 {
        assert(a == b);
    }
}

/// `perm` lists each index `0..n` exactly once.
pub open spec fn is_permutation(perm: Seq<int>, n: nat) -> bool {
    &&& perm.len() == n
    &&& forall|k: int| 0 <= k < n ==> 0 <= #[trigger] perm[k] < n
    &&& forall|a: int, b: int| 0 <= a < b < n ==> #[trigger] perm[a] != #[trigger] perm[b]
}

/// `result` is `items` stably sorted by `keys`: a rearrangement along some
/// permutation, with keys in order and items of equal keys in the order
/// they had in `items`.
pub open spec fn stably_sorted_by<T>(items: Seq<T>, keys: Seq<(u8, Seq<char>)>, result: Seq<T>) -> bool {
    exists|perm: Seq<int>| {
        &&& is_permutation(perm, items.len())
        &&& result.len() == items.len()
        &&& forall|k: int| 0 <= k < items.len() ==> #[trigger] result[k] == items[perm[k]]
        &&& forall|a: int, b: int| 0 <= a < b < items.len() ==>
            key_le(keys[#[trigger] perm[a]], keys[#[trigger] perm[b]])
        &&& forall|a: int, b: int| 0 <= a < b < items.len() && keys[perm[a]] == keys[perm[b]] ==>
            #[trigger] perm[a] < #[trigger] perm[b]
    }
}

/// Whether key `a` comes strictly before key `b`.
pub fn key_less(a: &SortKey, b: &SortKey) -> (r: bool)
    ensures
        r == key_lt(a@, b@),
{
    if a.rank != b.rank {
        return a.rank < b.rank;
    }
    let mut i: usize = 0;
    assert(a.text@.skip(0) == a.text@);
    assert(b.text@.skip(0) == b.text@);
    while i < a.text.len() && i < b.text.len()
        invariant
            i <= a.text@.len(),
            i <= b.text@.len(),
            a.rank == b.rank,
            forall|k: int| 0 <= k < i ==> a.text@[k] == b.text@[k],
            text_lt(a.text@, b.text@) == text_lt(a.text@.skip(i as int), b.text@.skip(i as int)),
        decreases a.text@.len() - i,
    {
        let x = a.text[i];
        let y = b.text[i];
        assert(a.text@.skip(i as int)[0] == x);
        assert(b.text@.skip(i as int)[0] == y);
        if x != y {
            return x < y;
        }
        assert(a.text@.skip(i as int).drop_first() == a.text@.skip(i + 1));
        assert(b.text@.skip(i as int).drop_first() == b.text@.skip(i + 1));
        i += 1;
    }
    i < b.text.len()
}

/// Sorts `items` stably by `keys` (one key per item) with insertion sort.
pub fn sort_by_keys<T>(items: Vec<T>, keys: Vec<SortKey>) -> (r: Vec<T>)
    requires
        items@.len() == keys@.len(),
    ensures
        stably_sorted_by(items@, keys@.map_values(|k: SortKey| k@), r@),
{
    let ghost orig = items@;
    let ghost okeys = keys@.map_values(|k: SortKey| k@);
    let n = items.len();
    let mut items = items;
    let mut keys = keys;
    let ghost mut perm: Seq<int> = Seq::new(n as nat, |k: int| k);
    let mut i: usize = 0;
    while i < n
        invariant
            n == orig.len(),
            okeys.len() == n,
            i <= n,
            items@.len() == n,
            keys@.len() == n,
            is_permutation(perm, n as nat),
            forall|k: int| 0 <= k < n ==> #[trigger] items@[k] == orig[perm[k]],
            forall|k: int| 0 <= k < n ==> #[trigger] keys@[k]@ == okeys[perm[k]],
            forall|k: int| i <= k < n ==> #[trigger] perm[k] == k,
            forall|k: int| 0 <= k < i ==> #[trigger] perm[k] < i,
            forall|a: int, b: int| 0 <= a < b < i ==> key_le(#[trigger] keys@[a]@, #[trigger] keys@[b]@),
            forall|a: int, b: int| 0 <= a < b < i && keys@[a]@ == keys@[b]@ ==>
                #[trigger] perm[a] < #[trigger] perm[b],
        decreases n - i,
    {
        let mut j = i;
        while j > 0 && key_less(&keys[i], &keys[j - 1])
            invariant
                0 <= j <= i < n,
                keys@.len() == n,
                forall|t: int| j <= t < i ==> key_lt(keys@[i as int]@, #[trigger] keys@[t]@),
            decreases j,
        {
            j -= 1;
        }
        let ghost old_keys = keys@;
        let ghost old_items = items@;
        let ghost old_perm = perm;
        let ghost x = keys@[i as int]@;
        proof {
            if j > 0 {
                assert(!key_lt(x, keys@[j - 1]@));
            }
        }
        let item = items.remove(i);
        items.insert(j, item);
        let key = keys.remove(i);
        keys.insert(j, key);
        proof {
            perm = old_perm.remove(i as int).insert(j as int, old_perm[i as int]);
            assert forall|k: int| 0 <= k < n implies #[trigger] items@[k] == orig[perm[k]] by {
                if k < j {
                } else if k == j {
                } else if k <= i {
                    assert(items@[k] == old_items[k - 1]);
                } else {
                }
            }
            assert forall|k: int| 0 <= k < n implies #[trigger] keys@[k]@ == okeys[perm[k]] by {
                if k < j {
                } else if k == j {
                } else if k <= i {
                    assert(keys@[k] == old_keys[k - 1]);
                } else {
                }
            }
            assert forall|k: int| 0 <= k < n implies 0 <= #[trigger] perm[k] < n by {
                if k < j {
                } else if k == j {
                } else if k <= i {
                    assert(perm[k] == old_perm[k - 1]);
                } else {
                }
            }
            assert forall|a: int, b: int| 0 <= a < b < n implies #[trigger] perm[a] != #[trigger] perm[b] by {
                let oa = if a < j { a } else if a == j { i as int } else if a <= i { a - 1 } else { a };
                let ob = if b < j { b } else if b == j { i as int } else if b <= i { b - 1 } else { b };
                assert(perm[a] == old_perm[oa]);
                assert(perm[b] == old_perm[ob]);
                assert(oa != ob);
            }
            assert forall|a: int, b: int| 0 <= a < b < i + 1 implies key_le(#[trigger] keys@[a]@, #[trigger] keys@[b]@) by {
                let oa = if a < j { a } else if a == j { i as int } else { a - 1 };
                let ob = if b < j { b } else if b == j { i as int } else { b - 1 };
                assert(keys@[a] == old_keys[oa]);
                assert(keys@[b] == old_keys[ob]);
                if a < j && b == j {
                    lemma_key_order(old_keys[a]@, old_keys[j - 1]@, x);
                    if a < j - 1 {
                        assert(key_le(old_keys[a]@, old_keys[j - 1]@));
                    }
                } else if a == j {
                    lemma_key_order(x, old_keys[ob]@, x);
                } else {
                }
            }
            assert forall|a: int, b: int| 0 <= a < b < i + 1 && keys@[a]@ == keys@[b]@ implies
                #[trigger] perm[a] < #[trigger] perm[b] by {
                let oa = if a < j { a } else if a == j { i as int } else { a - 1 };
                let ob = if b < j { b } else if b == j { i as int } else { b - 1 };
                assert(keys@[a] == old_keys[oa]);
                assert(keys@[b] == old_keys[ob]);
                assert(perm[a] == old_perm[oa]);
                assert(perm[b] == old_perm[ob]);
                if a == j {
                    lemma_key_order(x, old_keys[ob]@, x);
                }
            }
        }
        i += 1;
    }
    proof {
        assert(is_permutation(perm, orig.len()));
        assert forall|a: int, b: int| 0 <= a < b < orig.len() implies
            key_le(okeys[#[trigger] perm[a]], okeys[#[trigger] perm[b]]) by {
            assert(keys@[a]@ == okeys[perm[a]]);
            assert(keys@[b]@ == okeys[perm[b]]);
        }
        assert forall|a: int, b: int| 0 <= a < b < orig.len() && okeys[perm[a]] == okeys[perm[b]] implies
            #[trigger] perm[a] < #[trigger] perm[b] by {
            assert(keys@[a]@ == okeys[perm[a]]);
            assert(keys@[b]@ == okeys[perm[b]]);
        }
    }
    items
}

} // verus!
