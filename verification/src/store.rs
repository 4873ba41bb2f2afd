//! Backing tables for the ledger: association tables from account keys to
//! amounts, with a mathematical lookup function as their specification.

use vstd::prelude::*;

verus! {

/// Amount recorded for `key` in `entries`: the first entry whose key matches,
/// or `None` when no entry matches.
pub closed spec fn balance_lookup(entries: Seq<(u64, u128)>, key: u64) -> Option<u128>
    decreases entries.len(),
{
    if entries.len() == 0 {
        None
    } else if entries[0].0 == key {
        Some(entries[0].1)
    } else {
        balance_lookup(entries.drop_first(), key)
    }
}

/// Table from account identifier to amount.
///
/// `set` overwrites the first entry with the given key (or appends a fresh
/// one), so the first match is always the authoritative record for a key.
pub struct BalanceTable {
    entries: Vec<(u64, u128)>,
}

impl BalanceTable {
    /// Amount recorded for `key`, or `None` if `key` has never been written.
    pub closed spec fn spec_get(self, key: u64) -> Option<u128> {
        balance_lookup(self.entries@, key)
    }

    pub fn new() -> (r: Self)
        ensures
            forall|k: u64| r.spec_get(k) is None,
    {
        BalanceTable { entries: Vec::new() }
    }

    pub fn get(&self, key: u64) -> (r: Option<u128>)
        ensures
            r == self.spec_get(key),
    {
        let n = self.entries.len();
        let mut i: usize = 0;
        proof {
            assert(self.entries@.skip(0) =~= self.entries@);
        }
        while i < n
            invariant
                n == self.entries.len(),
                i <= n,
                balance_lookup(self.entries@, key) == balance_lookup(
                    self.entries@.skip(i as int),
                    key,
                ),
            decreases n - i,
        {
            proof {
                assert(self.entries@.skip(i as int)[0] == self.entries@[i as int]);
            }
            if self.entries[i].0 == key {
                return Some(self.entries[i].1);
            }
            proof {
                assert(self.entries@.skip(i as int).drop_first() =~= self.entries@.skip(
                    i as int + 1,
                ));
            }
            i += 1;
        }
        proof {
            assert(self.entries@.skip(n as int) =~= Seq::<(u64, u128)>::empty());
        }
        None
    }

    pub fn set(&mut self, key: u64, value: u128)
        ensures
            forall|k: u64|
                final(self).spec_get(k) == (if k == key {
                    Some(value)
                } else {
                    old(self).spec_get(k)
                }),
    {
        let n = self.entries.len();
        let mut i: usize = 0;
        while i < n
            invariant
                n == self.entries.len(),
                i <= n,
                *self == *old(self),
                forall|j: int| 0 <= j < i ==> self.entries@[j].0 != key,
            decreases n - i,
        {
            if self.entries[i].0 == key {
                proof {
                    lemma_balance_lookup_update(self.entries@, i as int, key, value);
                }
                let slot = &mut self.entries[i];
                *slot = (key, value);
                return;
            }
            i += 1;
        }
        proof {
            lemma_balance_lookup_push(self.entries@, key, value);
        }
        self.entries.push((key, value));
    }
}

/// Overwriting the first entry that holds `key` changes the lookup of `key`
/// to the new amount and of no other key.
proof fn lemma_balance_lookup_update(s: Seq<(u64, u128)>, i: int, key: u64, value: u128)
    requires
        0 <= i < s.len(),
        s[i].0 == key,
        forall|j: int| 0 <= j < i ==> s[j].0 != key,
    ensures
        forall|k: u64|
            balance_lookup(s.update(i, (key, value)), k) == (if k == key {
                Some(value)
            } else {
                balance_lookup(s, k)
            }),
    decreases i,
{
    let t = s.update(i, (key, value));
    if i == 0 {
        assert forall|k: u64|
            balance_lookup(t, k) == (if k == key {
                Some(value)
            } else {
                balance_lookup(s, k)
            }) by {
            if k != key {
                assert(t.drop_first() =~= s.drop_first());
            }
        }
    } else {
        lemma_balance_lookup_update(s.drop_first(), i - 1, key, value);
        assert(t.drop_first() =~= s.drop_first().update(i - 1, (key, value)));
        assert(t[0] == s[0]);
        assert forall|k: u64|
            balance_lookup(t, k) == (if k == key {
                Some(value)
            } else {
                balance_lookup(s, k)
            }) by {
            if t[0].0 == k {
                assert(balance_lookup(t, k) == Some(t[0].1));
                assert(balance_lookup(s, k) == Some(s[0].1));
                assert(k != key);
            } else {
                assert(balance_lookup(t, k) == balance_lookup(t.drop_first(), k));
                assert(balance_lookup(s, k) == balance_lookup(s.drop_first(), k));
            }
        }
    }
}

/// Appending an entry for a key that no entry holds changes the lookup of
/// that key to the new amount and of no other key.
proof fn lemma_balance_lookup_push(s: Seq<(u64, u128)>, key: u64, value: u128)
    requires
        forall|j: int| 0 <= j < s.len() ==> s[j].0 != key,
    ensures
        forall|k: u64|
            balance_lookup(s.push((key, value)), k) == (if k == key {
                Some(value)
            } else {
                balance_lookup(s, k)
            }),
    decreases s.len(),
{
    let t = s.push((key, value));
    if s.len() == 0 {
        assert(t.len() == 1);
        assert(t[0] == (key, value));
        assert forall|k: u64|
            balance_lookup(t, k) == (if k == key {
                Some(value)
            } else {
                balance_lookup(s, k)
            }) by {
            if k == key {
                assert(balance_lookup(t, k) == Some(value));
            } else {
                assert(t.drop_first() =~= Seq::<(u64, u128)>::empty());
                assert(balance_lookup(t, k) == balance_lookup(t.drop_first(), k));
            }
        }
    } else {
        assert(forall|j: int| 0 <= j < s.drop_first().len() ==> s.drop_first()[j].0 != key);
        lemma_balance_lookup_push(s.drop_first(), key, value);
        assert(t.drop_first() =~= s.drop_first().push((key, value)));
        assert(t[0] == s[0]);
        assert forall|k: u64|
            balance_lookup(t, k) == (if k == key {
                Some(value)
            } else {
                balance_lookup(s, k)
            }) by {
            if t[0].0 == k {
                assert(balance_lookup(t, k) == Some(t[0].1));
                assert(balance_lookup(s, k) == Some(s[0].1));
                assert(k != key);
            } else {
                assert(balance_lookup(t, k) == balance_lookup(t.drop_first(), k));
                assert(balance_lookup(s, k) == balance_lookup(s.drop_first(), k));
            }
        }
    }
}

/// Amount recorded for the pair `(owner, spender)` in `entries`: the first
/// entry whose pair matches, or `None` when no entry matches.
pub closed spec fn allowance_lookup(
    entries: Seq<(u64, u64, u128)>,
    owner: u64,
    spender: u64,
) -> Option<u128>
    decreases entries.len(),
{
    if entries.len() == 0 {
        None
    } else if entries[0].0 == owner && entries[0].1 == spender {
        Some(entries[0].2)
    } else {
        allowance_lookup(entries.drop_first(), owner, spender)
    }
}

/// Table from an `(owner, spender)` pair of account identifiers to an amount.
///
/// Keeping the pair flat in a single table (instead of a table of tables per
/// owner) removes any chance of two owners' records colliding.
pub struct AllowanceTable {
    entries: Vec<(u64, u64, u128)>,
}

impl AllowanceTable {
    /// Amount recorded for `(owner, spender)`, or `None` if the pair has
    /// never been written.
    pub closed spec fn spec_get(self, owner: u64, spender: u64) -> Option<u128> {
        allowance_lookup(self.entries@, owner, spender)
    }

    pub fn new() -> (r: Self)
        ensures
            forall|o: u64, s: u64| r.spec_get(o, s) is None,
    {
        AllowanceTable { entries: Vec::new() }
    }

    pub fn get(&self, owner: u64, spender: u64) -> (r: Option<u128>)
        ensures
            r == self.spec_get(owner, spender),
    {
        let n = self.entries.len();
        let mut i: usize = 0;
        proof {
            assert(self.entries@.skip(0) =~= self.entries@);
        }
        while i < n
            invariant
                n == self.entries.len(),
                i <= n,
                allowance_lookup(self.entries@, owner, spender) == allowance_lookup(
                    self.entries@.skip(i as int),
                    owner,
                    spender,
                ),
            decreases n - i,
        {
            proof {
                assert(self.entries@.skip(i as int)[0] == self.entries@[i as int]);
            }
            if self.entries[i].0 == owner && self.entries[i].1 == spender {
                return Some(self.entries[i].2);
            }
            proof {
                assert(self.entries@.skip(i as int).drop_first() =~= self.entries@.skip(
                    i as int + 1,
                ));
            }
            i += 1;
        }
        proof {
            assert(self.entries@.skip(n as int) =~= Seq::<(u64, u64, u128)>::empty());
        }
        None
    }

    pub fn set(&mut self, owner: u64, spender: u64, value: u128)
        ensures
            forall|o: u64, s: u64|
                final(self).spec_get(o, s) == (if o == owner && s == spender {
                    Some(value)
                } else {
                    old(self).spec_get(o, s)
                }),
    {
        let n = self.entries.len();
        let mut i: usize = 0;
        while i < n
            invariant
                n == self.entries.len(),
                i <= n,
                *self == *old(self),
                forall|j: int|
                    0 <= j < i ==> !(self.entries@[j].0 == owner && self.entries@[j].1 == spender),
            decreases n - i,
        {
            if self.entries[i].0 == owner && self.entries[i].1 == spender {
                proof {
                    lemma_allowance_lookup_update(self.entries@, i as int, owner, spender, value);
                }
                let slot = &mut self.entries[i];
                *slot = (owner, spender, value);
                return;
            }
            i += 1;
        }
        proof {
            lemma_allowance_lookup_push(self.entries@, owner, spender, value);
        }
        self.entries.push((owner, spender, value));
    }
}

/// Overwriting the first entry that holds the pair changes the lookup of that
/// pair to the new amount and of no other pair.
proof fn lemma_allowance_lookup_update(
    s: Seq<(u64, u64, u128)>,
    i: int,
    owner: u64,
    spender: u64,
    value: u128,
)
    requires
        0 <= i < s.len(),
        s[i].0 == owner && s[i].1 == spender,
        forall|j: int| 0 <= j < i ==> !(s[j].0 == owner && s[j].1 == spender),
    ensures
        forall|o: u64, sp: u64|
            allowance_lookup(s.update(i, (owner, spender, value)), o, sp) == (if o == owner
                && sp == spender {
                Some(value)
            } else {
                allowance_lookup(s, o, sp)
            }),
    decreases i,
{
    let t = s.update(i, (owner, spender, value));
    if i == 0 {
        assert forall|o: u64, sp: u64|
            allowance_lookup(t, o, sp) == (if o == owner && sp == spender {
                Some(value)
            } else {
                allowance_lookup(s, o, sp)
            }) by {
            if !(o == owner && sp == spender) {
                assert(t.drop_first() =~= s.drop_first());
            }
        }
    } else {
        lemma_allowance_lookup_update(s.drop_first(), i - 1, owner, spender, value);
        assert(t.drop_first() =~= s.drop_first().update(i - 1, (owner, spender, value)));
        assert(t[0] == s[0]);
        assert forall|o: u64, sp: u64|
            allowance_lookup(t, o, sp) == (if o == owner && sp == spender {
                Some(value)
            } else {
                allowance_lookup(s, o, sp)
            }) by {
            if t[0].0 == o && t[0].1 == sp {
                assert(allowance_lookup(t, o, sp) == Some(t[0].2));
                assert(allowance_lookup(s, o, sp) == Some(s[0].2));
                assert(!(o == owner && sp == spender));
            } else {
                assert(allowance_lookup(t, o, sp) == allowance_lookup(t.drop_first(), o, sp));
                assert(allowance_lookup(s, o, sp) == allowance_lookup(s.drop_first(), o, sp));
            }
        }
    }
}

/// Appending an entry for a pair that no entry holds changes the lookup of
/// that pair to the new amount and of no other pair.
proof fn lemma_allowance_lookup_push(s: Seq<(u64, u64, u128)>, owner: u64, spender: u64, value: u128)
    requires
        forall|j: int| 0 <= j < s.len() ==> !(s[j].0 == owner && s[j].1 == spender),
    ensures
        forall|o: u64, sp: u64|
            allowance_lookup(s.push((owner, spender, value)), o, sp) == (if o == owner && sp
                == spender {
                Some(value)
            } else {
                allowance_lookup(s, o, sp)
            }),
    decreases s.len(),
{
    let t = s.push((owner, spender, value));
    if s.len() == 0 {
        assert(t.len() == 1);
        assert(t[0] == (owner, spender, value));
        assert forall|o: u64, sp: u64|
            allowance_lookup(t, o, sp) == (if o == owner && sp == spender {
                Some(value)
            } else {
                allowance_lookup(s, o, sp)
            }) by {
            if o == owner && sp == spender {
                assert(allowance_lookup(t, o, sp) == Some(value));
            } else {
                assert(t.drop_first() =~= Seq::<(u64, u64, u128)>::empty());
                assert(allowance_lookup(t, o, sp) == allowance_lookup(t.drop_first(), o, sp));
            }
        }
    } else {
        assert(forall|j: int|
            0 <= j < s.drop_first().len() ==> !(s.drop_first()[j].0 == owner
                && s.drop_first()[j].1 == spender));
        lemma_allowance_lookup_push(s.drop_first(), owner, spender, value);
        assert(t.drop_first() =~= s.drop_first().push((owner, spender, value)));
        assert(t[0] == s[0]);
        assert forall|o: u64, sp: u64|
            allowance_lookup(t, o, sp) == (if o == owner && sp == spender {
                Some(value)
            } else {
                allowance_lookup(s, o, sp)
            }) by {
            if t[0].0 == o && t[0].1 == sp {
                assert(allowance_lookup(t, o, sp) == Some(t[0].2));
                assert(allowance_lookup(s, o, sp) == Some(s[0].2));
                assert(!(o == owner && sp == spender));
            } else {
                assert(allowance_lookup(t, o, sp) == allowance_lookup(t.drop_first(), o, sp));
                assert(allowance_lookup(s, o, sp) == allowance_lookup(s.drop_first(), o, sp));
            }
        }
    }
}

} // verus!
