//! A small verified association map from accounts to plain values.
//!
//! The components that key state by caller identity — token balances, voter
//! rolls, authorization lists, per-account storage — share this one structure:
//! an entry list with pairwise-distinct keys, looked up by first match.

use vstd::prelude::*;

use crate::account::AccountId;

verus! {

/// What an entry list holds for key `a`: the first matching entry wins.
pub open spec fn list_get<V>(s: Seq<(AccountId, V)>, a: AccountId) -> Option<V>
    decreases s.len(),
{
    if s.len() == 0 {
        None
    } else if s[0].0 == a {
        Some(s[0].1)
    } else {
        list_get(s.skip(1), a)
    }
}

/// Two entry lists hold the same value for every key but `a`.
pub open spec fn agrees_except<V>(
    s1: Seq<(AccountId, V)>,
    s2: Seq<(AccountId, V)>,
    a: AccountId,
) -> bool {
    forall|b: AccountId| b != a ==> #[trigger] list_get(s1, b) == #[trigger] list_get(s2, b)
}

/// A map from accounts to plain values, backed by an entry list whose keys
/// are pairwise distinct.
pub struct AccountMap<V> {
    pub entries: Vec<(AccountId, V)>,
}

impl<V: Copy> AccountMap<V> {
    /// The backing list never holds two entries for one key.
    pub open spec fn wf(&self) -> bool {
        forall|i: int, j: int|
            0 <= i < j < self.entries@.len() ==> (#[trigger] self.entries@[i]).0 != (
            #[trigger] self.entries@[j]).0
    }

    /// The value stored for `a`, if any.
    pub open spec fn spec_get(&self, a: AccountId) -> Option<V> {
        list_get(self.entries@, a)
    }

    /// An empty map.
    pub fn new() -> (m: Self)
        ensures
            m.wf(),
            forall|a: AccountId| #[trigger] list_get(m.entries@, a) is None,
    {
        AccountMap { entries: Vec::new() }
    }

    /// The value stored for `a`, if any.
    pub fn get(&self, a: AccountId) -> (r: Option<V>)
        ensures
            r == self.spec_get(a),
    {
        let mut j: usize = 0;
        while j < self.entries.len()
            invariant
                j <= self.entries@.len(),
                forall|k: int| 0 <= k < j ==> (#[trigger] self.entries@[k]).0 != a,
            decreases self.entries@.len() - j,
        {
            if self.entries[j].0 == a {
                proof {
                    lemma_get_skip_prefix(self.entries@, a, j as int);
                    assert(self.entries@.skip(j as int)[0] == self.entries@[j as int]);
                }
                return Some(self.entries[j].1);
            }
            j += 1;
        }
        proof {
            lemma_get_absent(self.entries@, a);
        }
        None
    }

    /// Whether any value is stored for `a`.
    pub fn contains_key(&self, a: AccountId) -> (r: bool)
        ensures
            r == (self.spec_get(a) is Some),
    {
        self.get(a).is_some()
    }

    /// Stores `v` for `a`, replacing any previous value and touching no other
    /// key.
    pub fn insert(&mut self, a: AccountId, v: V)
        requires
            old(self).wf(),
        ensures
            final(self).wf(),
            final(self).spec_get(a) == Some(v),
            agrees_except(final(self).entries@, old(self).entries@, a),
    {
        let ghost pre = self.entries@;
        let mut j: usize = 0;
        while j < self.entries.len()
            invariant
                j <= self.entries@.len(),
                self.entries@ == pre,
                pre == old(self).entries@,
                old(self).wf(),
                forall|k: int| 0 <= k < j ==> (#[trigger] self.entries@[k]).0 != a,
            decreases self.entries@.len() - j,
        {
            if self.entries[j].0 == a {
                self.entries.set(j, (a, v));
                proof {
                    assert(pre[j as int].0 == a);
                    assert(self.entries@ == pre.update(j as int, (a, v)));
                    assert forall|k: int| 0 <= k < j implies (#[trigger] self.entries@[k]).0
                        != a by {
                        assert(self.entries@[k] == pre[k]);
                    }
                    lemma_get_skip_prefix(self.entries@, a, j as int);
                    assert(self.entries@.skip(j as int)[0] == self.entries@[j as int]);
                    assert forall|b: AccountId| b != a implies #[trigger] list_get(
                        self.entries@,
                        b,
                    ) == #[trigger] list_get(pre, b) by {
                        lemma_get_update(pre, j as int, (a, v), b);
                    }
                    assert(agrees_except(self.entries@, pre, a));
                    assert forall|x: int, y: int|
                        0 <= x < y < self.entries@.len() implies (#[trigger] self.entries@[x]).0
                        != (#[trigger] self.entries@[y]).0 by {
                        assert(self.entries@[x].0 == pre[x].0);
                        assert(self.entries@[y].0 == pre[y].0);
                        assert(pre[x].0 != pre[y].0);
                    }
                }
                return ;
            }
            j += 1;
        }
        self.entries.push((a, v));
        proof {
            assert forall|k: int| 0 <= k < pre.len() implies (#[trigger] pre[k]).0 != a by {}
            lemma_get_absent(pre, a);
            lemma_get_push(pre, (a, v), a);
            assert forall|b: AccountId| b != a implies #[trigger] list_get(self.entries@, b)
                == #[trigger] list_get(pre, b) by {
                lemma_get_push(pre, (a, v), b);
            }
            assert(agrees_except(self.entries@, pre, a));
            assert forall|x: int, y: int|
                0 <= x < y < self.entries@.len() implies (#[trigger] self.entries@[x]).0 != (
            #[trigger] self.entries@[y]).0 by {
                assert(self.entries@[x] == pre[x]);
                if y < pre.len() {
                    assert(self.entries@[y] == pre[y]);
                } else {
                    assert(self.entries@[y] == (a, v));
                    assert(pre[x].0 != a);
                }
            }
        }
    }

    /// Drops the value stored for `a`, if any, touching no other key.
    pub fn remove(&mut self, a: AccountId)
        requires
            old(self).wf(),
        ensures
            final(self).wf(),
            final(self).spec_get(a) is None,
            agrees_except(final(self).entries@, old(self).entries@, a),
    {
        let ghost pre = self.entries@;
        let mut j: usize = 0;
        while j < self.entries.len()
            invariant
                j <= self.entries@.len(),
                self.entries@ == pre,
                pre == old(self).entries@,
                old(self).wf(),
                forall|k: int| 0 <= k < j ==> (#[trigger] self.entries@[k]).0 != a,
            decreases self.entries@.len() - j,
        {
            if self.entries[j].0 == a {
                self.entries.remove(j);
                proof {
                    pre.remove_ensures(j as int);
                    assert(self.entries@ == pre.remove(j as int));
                    assert forall|k: int|
                        0 <= k < self.entries@.len() implies (#[trigger] self.entries@[k]).0
                        != a by {
                        if k < j {
                            assert(self.entries@[k] == pre[k]);
                        } else {
                            assert(self.entries@[k] == pre[k + 1]);
                        }
                    }
                    lemma_get_absent(self.entries@, a);
                    assert forall|b: AccountId| b != a implies #[trigger] list_get(
                        self.entries@,
                        b,
                    ) == #[trigger] list_get(pre, b) by {
                        lemma_get_remove(pre, j as int, b);
                    }
                    assert(agrees_except(self.entries@, pre, a));
                    assert forall|x: int, y: int|
                        0 <= x < y < self.entries@.len() implies (#[trigger] self.entries@[x]).0
                        != (#[trigger] self.entries@[y]).0 by {
                        let sx: int = if x < j { x } else { x + 1 };
                        let sy: int = if y < j { y } else { y + 1 };
                        assert(self.entries@[x] == pre[sx]);
                        assert(self.entries@[y] == pre[sy]);
                    }
                }
                return ;
            }
            j += 1;
        }
        proof {
            lemma_get_absent(self.entries@, a);
            assert(agrees_except(self.entries@, pre, a));
        }
    }
}

/// A lookup skips any prefix that lacks the key.
proof fn lemma_get_skip_prefix<V>(s: Seq<(AccountId, V)>, a: AccountId, j: int)
    requires
        0 <= j <= s.len(),
        forall|k: int| 0 <= k < j ==> (#[trigger] s[k]).0 != a,
    ensures
        list_get(s, a) == list_get(s.skip(j), a),
    decreases j,
{
    if j > 0 {
        assert forall|k: int| 0 <= k < j - 1 implies (#[trigger] s.skip(1)[k]).0 != a by {
            assert(s.skip(1)[k] == s[k + 1]);
        }
        lemma_get_skip_prefix(s.skip(1), a, j - 1);
        assert(s.skip(1).skip(j - 1) =~= s.skip(j));
    } else {
        assert(s.skip(0) =~= s);
    }
}

/// A list without the key holds nothing for it.
proof fn lemma_get_absent<V>(s: Seq<(AccountId, V)>, a: AccountId)
    requires
        forall|k: int| 0 <= k < s.len() ==> (#[trigger] s[k]).0 != a,
    ensures
        list_get(s, a) is None,
    decreases s.len(),
{
    if s.len() > 0 {
        assert forall|k: int| 0 <= k < s.len() - 1 implies (#[trigger] s.skip(1)[k]).0 != a by {
            assert(s.skip(1)[k] == s[k + 1]);
        }
        lemma_get_absent(s.skip(1), a);
    }
}

/// Replacing an entry whose old and new keys both differ from `b` does not
/// change what the list holds for `b`.
proof fn lemma_get_update<V>(s: Seq<(AccountId, V)>, j: int, e: (AccountId, V), b: AccountId)
    requires
        0 <= j < s.len(),
        s[j].0 != b,
        e.0 != b,
    ensures
        list_get(s.update(j, e), b) == list_get(s, b),
    decreases s.len(),
{
    let t = s.update(j, e);
    if j == 0 {
        assert(t.skip(1) =~= s.skip(1));
    } else {
        assert(t[0] == s[0]);
        if s[0].0 != b {
            lemma_get_update(s.skip(1), j - 1, e, b);
            assert(s.skip(1).update(j - 1, e) =~= t.skip(1));
        }
    }
}

/// Appending an entry does not change what the list holds for other keys, and
/// fills an absent key with the new value.
proof fn lemma_get_push<V>(s: Seq<(AccountId, V)>, e: (AccountId, V), b: AccountId)
    ensures
        list_get(s.push(e), b) == (if list_get(s, b) is Some {
            list_get(s, b)
        } else if e.0 == b {
            Some(e.1)
        } else {
            None::<V>
        }),
    decreases s.len(),
{
    let t = s.push(e);
    if s.len() == 0 {
        assert(t[0] == e);
        assert(t.skip(1) =~= Seq::<(AccountId, V)>::empty());
        assert(list_get(s, b) is None);
        if e.0 == b {
            assert(list_get(t, b) == Some(e.1));
        } else {
            assert(list_get(t, b) == list_get(t.skip(1), b));
            assert(list_get(t, b) is None);
        }
    } else {
        assert(t[0] == s[0]);
        if s[0].0 == b {
            assert(list_get(t, b) == Some(t[0].1));
            assert(list_get(s, b) == Some(s[0].1));
        } else {
            lemma_get_push(s.skip(1), e, b);
            assert(s.skip(1).push(e) =~= t.skip(1));
            assert(list_get(t, b) == list_get(t.skip(1), b));
            assert(list_get(s, b) == list_get(s.skip(1), b));
        }
    }
}

/// Removing an entry for a different key does not change what the list holds
/// for `b`.
proof fn lemma_get_remove<V>(s: Seq<(AccountId, V)>, j: int, b: AccountId)
    requires
        0 <= j < s.len(),
        s[j].0 != b,
    ensures
        list_get(s.remove(j), b) == list_get(s, b),
    decreases s.len(),
{
    let t = s.remove(j);
    s.remove_ensures(j);
    if j == 0 {
        assert(t =~= s.skip(1));
    } else {
        assert(t[0] == s[0]);
        if s[0].0 != b {
            lemma_get_remove(s.skip(1), j - 1, b);
            assert(s.skip(1).remove(j - 1) =~= t.skip(1));
        }
    }
}

} // verus!
