//! Values under names, each name once.

use vstd::prelude::*;

use crate::text::same;

verus! {

/// The map that a list of names and values makes; of two entries with the same
/// name the later one counts.
pub open spec fn by_name<T>(list: Seq<(String, T)>) -> Map<Seq<char>, T>
    decreases list.len(),
{
    if list.len() == 0 {
        Map::empty()
    } else {
        by_name(list.drop_last()).insert(list.last().0@, list.last().1)
    }
}

/// No name occurs twice.
pub open spec fn distinct<T>(list: Seq<(String, T)>) -> bool {
    forall|i: int, j: int|
        0 <= i < j < list.len() ==> (#[trigger] list[i]).0@ != (#[trigger] list[j]).0@
}

/// The names of the map are those of the list.
pub proof fn names_are_listed<T>(list: Seq<(String, T)>, name: Seq<char>)
    ensures
        by_name(list).dom().contains(name) <==> exists|i: int|
            0 <= i < list.len() && (#[trigger] list[i]).0@ == name,
    decreases list.len(),
{
    if list.len() > 0 {
        let front = list.drop_last();
        names_are_listed(front, name);
        assert(list.last() == list[list.len() - 1]);
        if exists|i: int| 0 <= i < front.len() && (#[trigger] front[i]).0@ == name {
            let i = choose|i: int| 0 <= i < front.len() && (#[trigger] front[i]).0@ == name;
            assert(list[i].0@ == name);
        }
        if exists|i: int| 0 <= i < list.len() && (#[trigger] list[i]).0@ == name {
            let i = choose|i: int| 0 <= i < list.len() && (#[trigger] list[i]).0@ == name;
            if i < front.len() {
                assert(front[i].0@ == name);
            }
        }
    }
}

/// With distinct names, every entry stands in the map under its name.
pub proof fn entry_stands<T>(list: Seq<(String, T)>, i: int)
    requires
        0 <= i < list.len(),
        distinct(list),
    ensures
        by_name(list).dom().contains(list[i].0@),
        by_name(list)[list[i].0@] == list[i].1,
    decreases list.len(),
{
    if i < list.len() - 1 {
        let front = list.drop_last();
        assert(distinct(front));
        entry_stands(front, i);
        assert(front[i] == list[i]);
        assert(list.last() == list[list.len() - 1]);
    }
}

/// With distinct names, putting another value in the place of an entry puts it
/// under the name of the entry.
proof fn entry_is_replaced<T>(list: Seq<(String, T)>, i: int, entry: (String, T))
    requires
        0 <= i < list.len(),
        distinct(list),
        entry.0@ == list[i].0@,
    ensures
        by_name(list.update(i, entry)) == by_name(list).insert(entry.0@, entry.1),
        distinct(list.update(i, entry)),
    decreases list.len(),
{
    let new = list.update(i, entry);
    let front = list.drop_last();
    assert(list.last() == list[list.len() - 1]);
    if i < list.len() - 1 {
        assert(distinct(front));
        assert(front[i] == list[i]);
        entry_is_replaced(front, i, entry);
        assert(new.drop_last() =~= front.update(i, entry));
    } else {
        assert(new.drop_last() =~= front);
    }
    assert(by_name(new) =~= by_name(list).insert(entry.0@, entry.1));
    assert forall|a: int, b: int| 0 <= a < b < new.len() implies (#[trigger] new[a]).0@ != (
    #[trigger] new[b]).0@ by {
        assert(new[a].0@ == list[a].0@ && new[b].0@ == list[b].0@);
    }
}

/// Values under names, each name once.
#[derive(Debug)]
pub struct Named<T> {
    list: Vec<(String, T)>,
}

impl<T> View for Named<T> {
    type V = Map<Seq<char>, T>;

    closed spec fn view(&self) -> Map<Seq<char>, T> {
        by_name(self.list@)
    }
}

impl<T> Named<T> {
    /// No name occurs twice.
    #[verifier::type_invariant]
    spec fn names_differ(self) -> bool {
        distinct(self.list@)
    }

    /// No value yet.
    pub fn new() -> (r: Self)
        ensures
            r@ == Map::<Seq<char>, T>::empty(),
    {
        Named { list: Vec::new() }
    }

    /// The values, with this one under the name in place of any other.
    pub fn put(self, name: String, value: T) -> (r: Self)
        ensures
            r@ == self@.insert(name@, value),
    {
        proof {
            use_type_invariant(&self);
        }
        let mut list = self.list;
        let ghost before = list@;
        let mut i: usize = 0;
        while i < list.len()
            invariant
                list@ == before,
                self@ == by_name(before),
                distinct(before),
                0 <= i <= list@.len(),
                forall|k: int| 0 <= k < i ==> (#[trigger] list@[k]).0@ != name@,
            decreases list@.len() - i,
        {
            if same(list[i].0.as_str(), name.as_str()) {
                proof {
                    entry_is_replaced(before, i as int, (name, value));
                }
                list.set(i, (name, value));
                return Named { list };
            }
            i = i + 1;
        }
        list.push((name, value));
        assert(list@.drop_last() == before);
        Named { list }
    }

    /// The value under the name.
    pub fn get(&self, name: &str) -> (r: Option<&T>)
        ensures
            r == (if self@.dom().contains(name@) {
                Some(&self@[name@])
            } else {
                None
            }),
    {
        proof {
            use_type_invariant(self);
        }
        let mut i: usize = 0;
        while i < self.list.len()
            invariant
                distinct(self.list@),
                0 <= i <= self.list@.len(),
                forall|k: int| 0 <= k < i ==> (#[trigger] self.list@[k]).0@ != name@,
            decreases self.list@.len() - i,
        {
            if same(self.list[i].0.as_str(), name) {
                proof {
                    entry_stands(self.list@, i as int);
                }
                return Some(&self.list[i].1);
            }
            i = i + 1;
        }
        proof {
            names_are_listed(self.list@, name@);
        }
        None
    }

    /// The names and their values.
    pub fn entries(&self) -> (r: &Vec<(String, T)>)
        ensures
            by_name(r@) == self@,
            distinct(r@),
    {
        proof {
            use_type_invariant(self);
        }
        &self.list
    }

    /// The names and their values.
    pub fn into_entries(self) -> (r: Vec<(String, T)>)
        ensures
            by_name(r@) == self@,
            distinct(r@),
    {
        proof {
            use_type_invariant(&self);
        }
        self.list
    }
}

impl<T: Clone> Clone for Named<T> {
    /// The same names, with copies of their values.
    fn clone(&self) -> (r: Self)
        ensures
            r@.dom() == self@.dom(),
            forall|name: Seq<char>| #[trigger]
                r@.dom().contains(name) ==> cloned(self@[name], r@[name]),
    {
        proof {
            use_type_invariant(self);
        }
        let ghost all = self.list@;
        let mut list: Vec<(String, T)> = Vec::new();
        let mut i: usize = 0;
        while i < self.list.len()
            invariant
                all == self.list@,
                0 <= i <= all.len(),
                list@.len() == i,
                forall|k: int|
                    0 <= k < i ==> (#[trigger] list@[k]).0@ == all[k].0@ && cloned(
                        all[k].1,
                        list@[k].1,
                    ),
            decreases all.len() - i,
        {
            list.push((self.list[i].0.clone(), self.list[i].1.clone()));
            i = i + 1;
        }
        proof {
            assert forall|a: int, b: int| 0 <= a < b < list@.len() implies (
            #[trigger] list@[a]).0@ != (#[trigger] list@[b]).0@ by {
                assert(all[a].0@ != all[b].0@);
            }
            assert forall|name: Seq<char>| by_name(list@).dom().contains(name) == by_name(
                all,
            ).dom().contains(name) by {
                names_are_listed(list@, name);
                names_are_listed(all, name);
                if exists|k: int| 0 <= k < all.len() && (#[trigger] all[k]).0@ == name {
                    let k = choose|k: int| 0 <= k < all.len() && (#[trigger] all[k]).0@ == name;
                    assert(list@[k].0@ == name);
                }
                if exists|k: int| 0 <= k < list@.len() && (#[trigger] list@[k]).0@ == name {
                    let k = choose|k: int|
                        0 <= k < list@.len() && (#[trigger] list@[k]).0@ == name;
                    assert(all[k].0@ == name);
                }
            }
            assert forall|name: Seq<char>| #[trigger]
                by_name(list@).dom().contains(name) implies cloned(
                by_name(all)[name],
                by_name(list@)[name],
            ) by {
                names_are_listed(list@, name);
                let k = choose|k: int| 0 <= k < list@.len() && (#[trigger] list@[k]).0@ == name;
                entry_stands(list@, k);
                entry_stands(all, k);
            }
            assert(by_name(list@).dom() =~= by_name(all).dom());
        }
        Named { list }
    }
}

} // verus!
