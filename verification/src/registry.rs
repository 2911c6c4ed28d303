//! Process-wide table resolving action names to stable numeric ids.
//! Passed explicitly to whoever needs lookups instead of living in
//! ambient global state.

use vstd::prelude::*;
use vstd::string::StringExecFns;

use crate::input_types::ActionId;

verus! {

/// Name-to-id table. Names are unique; ids are handed out in
/// registration order.
#[derive(Clone)]
pub struct ActionRegistry {
    entries: Vec<(String, ActionId)>,
    next_id: ActionId,
}

/// The id registered for `name` in `entries`, searching front to back.
pub open spec fn spec_lookup(entries: Seq<(String, ActionId)>, name: Seq<char>) -> Option<ActionId>
    decreases entries.len(),
{
    if entries.len() == 0 {
        None
    } else if entries[0].0@ == name {
        Some(entries[0].1)
    } else {
        spec_lookup(entries.drop_first(), name)
    }
}

/// A name that no prefix entry carries is resolved by the rest.
proof fn lemma_lookup_skip(entries: Seq<(String, ActionId)>, name: Seq<char>, i: int)
    requires
        0 <= i <= entries.len(),
        forall|k: int| 0 <= k < i ==> entries[k].0@ != name,
    ensures
        spec_lookup(entries, name) == spec_lookup(entries.skip(i), name),
    decreases i,
{
    if i > 0 {
        lemma_lookup_skip(entries.drop_first(), name, i - 1);
        assert(entries.drop_first().skip(i - 1) =~= entries.skip(i));
    } else {
        assert(entries.skip(0) =~= entries);
    }
}

impl ActionRegistry {
    /// No names registered; the first registration gets id 0.
    pub fn new() -> (r: Self)
        ensures
            r@ =~= Seq::<(String, ActionId)>::empty(),
            r.spec_next_id() == 0,
    {
        ActionRegistry { entries: Vec::new(), next_id: 0 }
    }

    /// The registered entries, in registration order.
    pub closed spec fn view(&self) -> Seq<(String, ActionId)> {
        self.entries@
    }

    /// The id the next fresh registration will get.
    pub closed spec fn spec_next_id(&self) -> ActionId {
        self.next_id
    }

    /// The id registered for `name`, if any.
    pub open spec fn spec_get_id(&self, name: Seq<char>) -> Option<ActionId> {
        spec_lookup(self@, name)
    }

    /// Returns the id already registered for `name`, or registers `name`
    /// under the next free id and returns that.
    pub fn register(&mut self, name: &str) -> (id: ActionId)
        ensures
            match old(self).spec_get_id(name@) {
                Some(existing) => id == existing && *final (self) == *old(self),
                None => {
                    &&& id == old(self).spec_next_id()
                    &&& final (self)@.len() == old(self)@.len() + 1
                    &&& final (self)@.subrange(0, old(self)@.len() as int) == old(self)@
                    &&& final (self)@.last().0@ == name@
                    &&& final (self)@.last().1 == id
                    &&& final (self).spec_next_id() == id.wrapping_add(1)
                },
            },
            final (self).spec_get_id(name@) == Some(id),
    {
        let key = String::from_str(name);
        let n = self.entries.len();
        let mut i: usize = 0;
        while i < n
            invariant
                n == self.entries.len(),
                i <= n,
                key@ == name@,
                forall|k: int| 0 <= k < i ==> self.entries@[k].0@ != name@,
            decreases n - i,
        {
            if self.entries[i].0.eq(&key) {
                proof {
                    lemma_lookup_skip(self.entries@, name@, i as int);
                    assert(self.entries@.skip(i as int)[0] == self.entries@[i as int]);
                }
                return self.entries[i].1;
            }
            i += 1;
        }
        proof {
            lemma_lookup_skip(self.entries@, name@, n as int);
        }
        let id = self.next_id;
        self.entries.push((key, id));
        self.next_id = self.next_id.wrapping_add(1);
        proof {
            assert(self.entries@.subrange(0, n as int) =~= old(self).entries@);
            lemma_lookup_skip(self.entries@, name@, n as int);
            assert(self.entries@.skip(n as int) =~= seq![self.entries@[n as int]]);
        }
        id
    }

    /// Returns the id registered for `name`, or `None` when the name is
    /// unknown.
    pub fn get_id(&self, name: &str) -> (r: Option<ActionId>)
        ensures
            r == self.spec_get_id(name@),
    {
        let key = String::from_str(name);
        let n = self.entries.len();
        let mut i: usize = 0;
        while i < n
            invariant
                n == self.entries.len(),
                i <= n,
                key@ == name@,
                forall|k: int| 0 <= k < i ==> self.entries@[k].0@ != name@,
            decreases n - i,
        {
            if self.entries[i].0.eq(&key) {
                proof {
                    lemma_lookup_skip(self.entries@, name@, i as int);
                    assert(self.entries@.skip(i as int)[0] == self.entries@[i as int]);
                }
                return Some(self.entries[i].1);
            }
            i += 1;
        }
        proof {
            lemma_lookup_skip(self.entries@, name@, n as int);
        }
        None
    }
}

impl Default for ActionRegistry {
    /// Same as `new`: an empty table.
    fn default() -> (r: Self)
        ensures
            r@ =~= Seq::<(String, ActionId)>::empty(),
            r.spec_next_id() == 0,
    {
        ActionRegistry::new()
    }
}

} // verus!
