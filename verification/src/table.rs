//! A table of values by address.
use vstd::prelude::*;

use crate::address::Address;

verus! {

/// What a run of writes leaves behind: the last value written for an address
/// is the one that counts.
pub open spec fn written<V: View>(rows: Seq<(Address, V)>) -> Map<Address, V::V>
    decreases rows.len(),
{
    if rows.len() == 0 {
        Map::empty()
    } else {
        written(rows.drop_last()).insert(rows.last().0, rows.last().1@)
    }
}

/// A finite map from addresses to values.
#[derive(Debug)]
pub struct Table<V> {
    rows: Vec<(Address, V)>,
}

impl<V: View> View for Table<V> {
    type V = Map<Address, V::V>;

    closed spec fn view(&self) -> Map<Address, V::V> {
        written(self.rows@)
    }
}

impl<V: View> Table<V> {
    /// A table without any row.
    pub fn new() -> (table: Self)
        ensures
            table@ == Map::<Address, V::V>::empty(),
    {
        Table { rows: Vec::new() }
    }

    /// The value held for `key`, if there is one.
    pub fn get(&self, key: &Address) -> (found: Option<&V>)
        ensures
            match found {
                Some(value) => self@.contains_key(*key) && value@ == self@[*key],
                None => !self@.contains_key(*key),
            },
    {
        let mut i: usize = self.rows.len();
        assert(self.rows@.take(i as int) =~= self.rows@);
        while i > 0
            invariant
                i <= self.rows.len(),
                self@.contains_key(*key) == written(self.rows@.take(i as int)).contains_key(*key),
                self@.contains_key(*key) ==> self@[*key] == written(
                    self.rows@.take(i as int),
                )[*key],
            decreases i,
        {
            i = i - 1;
            assert(self.rows@.take(i + 1).drop_last() =~= self.rows@.take(i as int));
            if self.rows[i].0.same(key) {
                return Some(&self.rows[i].1);
            }
        }
        None
    }

    /// Forgets what the table holds for `key`.
    pub fn remove(&mut self, key: &Address)
        ensures
            final(self)@ == old(self)@.remove(*key),
    {
        let ghost before = self.rows@;
        let mut kept: usize = 0;
        let ghost mut seen: int = 0;
        proof {
            assert(before.take(0).len() == 0);
            assert(self.rows@.take(0).len() == 0);
            assert(written(before.take(0)).remove(*key) =~= written(before.take(0)));
            assert(self.rows@.take(0) =~= before.take(0));
            assert(self.rows@.skip(0) =~= before.skip(0));
        }
        while kept < self.rows.len()
            invariant
                0 <= seen <= before.len(),
                kept <= self.rows.len(),
                self.rows.len() - kept == before.len() - seen,
                self.rows@.skip(kept as int) == before.skip(seen),
                written(self.rows@.take(kept as int)) == written(before.take(seen)).remove(*key),
            decreases self.rows.len() - kept,
        {
            let ghost rows = self.rows@;
            assert(rows[kept as int] == rows.skip(kept as int)[0]);
            assert(before[seen] == before.skip(seen)[0]);
            assert(before.take(seen + 1).drop_last() =~= before.take(seen));
            if self.rows[kept].0.same(key) {
                self.rows.remove(kept);
                assert(self.rows@.take(kept as int) =~= rows.take(kept as int));
                assert(self.rows@.skip(kept as int) =~= before.skip(seen).skip(1));
                assert(written(before.take(seen + 1)).remove(*key) =~= written(
                    before.take(seen),
                ).remove(*key));
            } else {
                kept = kept + 1;
                assert(rows.take(kept as int).drop_last() =~= rows.take(kept - 1));
                assert(rows.skip(kept as int) =~= before.skip(seen).skip(1));
                assert(written(before.take(seen + 1)).remove(*key) =~= written(
                    before.take(seen),
                ).remove(*key).insert(before[seen].0, before[seen].1@));
            }
            proof {
                seen = seen + 1;
            }
            assert(before.skip(seen) =~= before.skip(seen - 1).skip(1));
        }
        assert(self.rows@.take(kept as int) =~= self.rows@);
        assert(before.take(seen) =~= before);
    }

    /// Holds `value` for `key` from now on.
    pub fn insert(&mut self, key: Address, value: V)
        ensures
            final(self)@ == old(self)@.insert(key, value@),
    {
        let ghost before = self@;
        self.remove(&key);
        let ghost rows = self.rows@;
        self.rows.push((key, value));
        assert(self.rows@.drop_last() =~= rows);
        assert(before.remove(key).insert(key, value@) =~= before.insert(key, value@));
    }
}

} // verus!
