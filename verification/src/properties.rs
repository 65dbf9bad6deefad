//! A small store of named text values: what the service keeps from one run to the
//! next. The caller loads it from where such values are persisted, and writes back
//! what the service has set.

use vstd::prelude::*;

verus! {

/// The map that a list of names with their values stands for. Where a name occurs
/// twice, the later value counts.
pub open spec fn entries_map(entries: Seq<(String, String)>) -> Map<Seq<char>, Seq<char>>
    decreases entries.len(),
{
    if entries.len() == 0 {
        Map::empty()
    } else {
        entries_map(entries.drop_last()).insert(entries.last().0@, entries.last().1@)
    }
}

/// Named text values.
pub struct PropertyStore {
    entries: Vec<(String, String)>,
}

impl View for PropertyStore {
    type V = Map<Seq<char>, Seq<char>>;

    /// The value of each name that is set.
    closed spec fn view(&self) -> Map<Seq<char>, Seq<char>> {
        entries_map(self.entries@)
    }
}

impl PropertyStore {
    /// A store in which nothing is set.
    pub fn new() -> (store: PropertyStore)
        ensures
            store@ == Map::<Seq<char>, Seq<char>>::empty(),
    {
        PropertyStore { entries: Vec::new() }
    }

    /// The value of `name`, if it is set.
    pub fn get(&self, name: &str) -> (r: Option<String>)
        ensures
            match r {
                Some(value) => self@.get(name@) == Some(value@),
                None => self@.get(name@) is None,
            },
    {
        let wanted = String::from_str(name);
        let mut i: usize = self.entries.len();
        proof {
            assert(self.entries@.take(i as int) =~= self.entries@);
        }
        while i > 0
            invariant
                i <= self.entries@.len(),
                wanted@ == name@,
                self@ == entries_map(self.entries@),
                self@.get(name@) == entries_map(self.entries@.take(i as int)).get(name@),
            decreases i,
        {
            proof {
                assert(self.entries@.take(i as int).drop_last() =~= self.entries@.take(i - 1));
            }
            i -= 1;
            if self.entries[i].0 == wanted {
                return Some(self.entries[i].1.clone());
            }
        }
        None
    }

    /// Sets `name` to `value`, in place of the value it had.
    pub fn set(&mut self, name: &str, value: &str)
        ensures
            final(self)@ == old(self)@.insert(name@, value@),
    {
        let key = String::from_str(name);
        let mut kept: Vec<(String, String)> = Vec::new();
        let mut i: usize = 0;
        proof {
            assert(self.entries@.take(0) =~= Seq::<(String, String)>::empty());
            assert(entries_map(kept@) =~= entries_map(self.entries@.take(0)).remove(name@));
        }
        while i < self.entries.len()
            invariant
                i <= self.entries@.len(),
                key@ == name@,
                *self == *old(self),
                entries_map(kept@) == entries_map(self.entries@.take(i as int)).remove(name@),
            decreases self.entries@.len() - i,
        {
            let ghost before = entries_map(self.entries@.take(i as int));
            proof {
                assert(self.entries@.take(i + 1).drop_last() =~= self.entries@.take(i as int));
            }
            if self.entries[i].0 == key {
                proof {
                    assert(before.insert(name@, self.entries@[i as int].1@).remove(name@)
                        =~= before.remove(name@));
                }
            } else {
                let entry = (self.entries[i].0.clone(), self.entries[i].1.clone());
                proof {
                    assert(kept@.push(entry).drop_last() =~= kept@);
                    assert(before.remove(name@).insert(entry.0@, entry.1@) =~= before.insert(
                        entry.0@,
                        entry.1@,
                    ).remove(name@));
                }
                kept.push(entry);
            }
            i += 1;
        }
        let entry = (key, String::from_str(value));
        proof {
            assert(self.entries@.take(i as int) =~= self.entries@);
            assert(kept@.push(entry).drop_last() =~= kept@);
            assert(old(self)@.remove(name@).insert(name@, value@) =~= old(self)@.insert(
                name@,
                value@,
            ));
        }
        kept.push(entry);
        self.entries = kept;
    }
}

} // verus!
