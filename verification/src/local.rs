//! The in-memory store: CRUD over the same entity shapes as the remote path,
//! held in insertion order and keyed by id, never encrypting anything.

use crate::error::Error;
use crate::models::{Group, GroupView};
use crate::types::{DetailItem, DetailItemView};
use vstd::prelude::*;

verus! {

/// The index of the first element satisfying `pred`, or -1 when there is
/// none.
pub open spec fn first_index<A>(s: Seq<A>, pred: spec_fn(A) -> bool) -> int
    decreases s.len(),
{
    if s.len() == 0 {
        -1
    } else if pred(s[0]) {
        0
    } else if first_index(s.drop_first(), pred) == -1 {
        -1
    } else {
        first_index(s.drop_first(), pred) + 1
    }
}

/// What `first_index` finds: a position that satisfies `pred` with no
/// earlier one, or -1 exactly when no position satisfies it.
pub proof fn lemma_first_index<A>(s: Seq<A>, pred: spec_fn(A) -> bool)
    ensures
        first_index(s, pred) == -1 ==> forall|j: int| 0 <= j < s.len() ==> !pred(s[j]),
        first_index(s, pred) != -1 ==> 0 <= first_index(s, pred) < s.len() && pred(
            s[first_index(s, pred)],
        ) && (forall|j: int| 0 <= j < first_index(s, pred) ==> !pred(s[j])),
    decreases s.len(),
{
    if s.len() > 0 && !pred(s[0]) {
        let rest = s.drop_first();
        lemma_first_index(rest, pred);
        let fr = first_index(rest, pred);
        if fr == -1 {
            assert forall|j: int| 0 <= j < s.len() implies !pred(s[j]) by {
                if j > 0 {
                    assert(rest[j - 1] == s[j]);
                    assert(!pred(rest[j - 1]));
                }
            }
        } else {
            assert(s[fr + 1] == rest[fr]);
            assert forall|j: int| 0 <= j < fr + 1 implies !pred(s[j]) by {
                if j > 0 {
                    assert(rest[j - 1] == s[j]);
                    assert(!pred(rest[j - 1]));
                }
            }
        }
    }
}

/// Matches the group carrying `id`.
pub open spec fn group_id_pred(id: Seq<char>) -> spec_fn(GroupView) -> bool {
    |g: GroupView| g.id == id
}

/// Matches the item carrying `id` inside the group carrying `group_id`.
pub open spec fn item_key_pred(group_id: Seq<char>, id: Seq<char>) -> spec_fn(
    DetailItemView,
) -> bool {
    |it: DetailItemView| it.group_id == group_id && it.id == id
}

/// Matches every item of the group carrying `group_id`.
pub open spec fn in_group_pred(group_id: Seq<char>) -> spec_fn(DetailItemView) -> bool {
    |it: DetailItemView| it.group_id == group_id
}

/// The index of the first group carrying `id`, or -1 when there is none.
pub open spec fn first_group_index(groups: Seq<GroupView>, id: Seq<char>) -> int {
    first_index(groups, group_id_pred(id))
}

/// The index of the first item carrying `id` in the group carrying
/// `group_id`, or -1 when there is none.
pub open spec fn first_item_index(
    items: Seq<DetailItemView>,
    group_id: Seq<char>,
    id: Seq<char>,
) -> int {
    first_index(items, item_key_pred(group_id, id))
}

/// The mathematical value of the local store: its groups and its items, in
/// insertion order.
#[verifier::ext_equal]
pub ghost struct LocalStoreView {
    pub groups: Seq<GroupView>,
    pub items: Seq<DetailItemView>,
}

/// The in-memory store. Its operations never fail except with `NotFound` on
/// an update or delete that names an unknown id, and no field is ever
/// encrypted or decrypted on this path.
pub struct LocalStore {
    groups: Vec<Group>,
    items: Vec<DetailItem>,
}

impl View for LocalStore {
    type V = LocalStoreView;

    closed spec fn view(&self) -> LocalStoreView {
        LocalStoreView {
            groups: self.groups@.map_values(|g: Group| g@),
            items: self.items@.map_values(|it: DetailItem| it@),
        }
    }
}

impl LocalStore {
    /// An empty store.
    pub fn new() -> (store: LocalStore)
        ensures
            store@.groups.len() == 0,
            store@.items.len() == 0,
    {
        LocalStore { groups: Vec::new(), items: Vec::new() }
    }

    /// All groups, in insertion order.
    pub fn list_groups(&self) -> (r: &Vec<Group>)
        ensures
            r@.map_values(|g: Group| g@) == self@.groups,
    {
        &self.groups
    }

    /// All items, in insertion order.
    pub fn list_all_items(&self) -> (r: &Vec<DetailItem>)
        ensures
            r@.map_values(|it: DetailItem| it@) == self@.items,
    {
        &self.items
    }

    /// Appends a new local group under `id`; never fails.
    pub fn create_group(&mut self, id: &str, name: &str)
        ensures
            final(self)@.groups == old(self)@.groups.push(
                (GroupView {
                    id: id@,
                    name: name@,
                    is_local: true,
                    api_host: None,
                    api_port: None,
                    api_secret_key: None,
                }),
            ),
            final(self)@.items == old(self)@.items,
    {
        let group = Group {
            id: id.to_owned(),
            name: name.to_owned(),
            is_local: true,
            api_host: None,
            api_port: None,
            api_secret_key: None,
        };
        let ghost gv = group@;
        self.groups.push(group);
        proof {
            assert(self@.groups =~= old(self)@.groups.push(gv));
        }
    }

    /// The first group carrying `id`, if any.
    pub fn get_group(&self, id: &str) -> (r: Option<&Group>)
        ensures
            match r {
                Some(g) => first_group_index(self@.groups, id@) >= 0 && g@
                    == self@.groups[first_group_index(self@.groups, id@)],
                None => first_group_index(self@.groups, id@) == -1,
            },
    {
        match self.find_group(id) {
            Some(i) => Some(&self.groups[i]),
            None => None,
        }
    }

    /// Renames the first group carrying `id`, or reports `NotFound`.
    pub fn update_group(&mut self, id: &str, name: &str) -> (r: Result<(), Error>)
        ensures
            first_group_index(old(self)@.groups, id@) == -1 ==> r == Err::<(), Error>(
                Error::NotFound,
            ) && final(self)@ == old(self)@,
            first_group_index(old(self)@.groups, id@) >= 0 ==> r == Ok::<(), Error>(())
                && final(self)@.groups == old(self)@.groups.update(
                first_group_index(old(self)@.groups, id@),
                (GroupView {
                    name: name@,
                    ..old(self)@.groups[first_group_index(old(self)@.groups, id@)]
                }),
            ) && final(self)@.items == old(self)@.items,
    {
        let idx = match self.find_group(id) {
            Some(i) => i,
            None => return Err(Error::NotFound),
        };
        let mut group = self.groups.remove(idx);
        group.name = name.to_owned();
        let ghost gv = group@;
        self.groups.insert(idx, group);
        proof {
            assert(self.groups@ =~= old(self).groups@.update(idx as int, group));
            assert(self@.groups =~= old(self)@.groups.update(idx as int, gv));
            assert(self@.items =~= old(self)@.items);
        }
        Ok(())
    }

    /// Removes the first group carrying `id`, or reports `NotFound`. Only
    /// the group list is touched: items are removed by their own deletes.
    pub fn delete_group(&mut self, id: &str) -> (r: Result<(), Error>)
        ensures
            first_group_index(old(self)@.groups, id@) == -1 ==> r == Err::<(), Error>(
                Error::NotFound,
            ) && final(self)@ == old(self)@,
            first_group_index(old(self)@.groups, id@) >= 0 ==> r == Ok::<(), Error>(())
                && final(self)@.groups == old(self)@.groups.remove(
                first_group_index(old(self)@.groups, id@),
            ) && final(self)@.items == old(self)@.items,
    {
        let idx = match self.find_group(id) {
            Some(i) => i,
            None => return Err(Error::NotFound),
        };
        self.groups.remove(idx);
        proof {
            assert(self@.groups =~= old(self)@.groups.remove(idx as int));
            assert(self@.items =~= old(self)@.items);
        }
        Ok(())
    }

    /// Appends a new item under `group_id`; never fails.
    pub fn create_item(&mut self, group_id: &str, id: &str, title: &str, describe: &str, text: &str)
        ensures
            final(self)@.items == old(self)@.items.push(
                (DetailItemView {
                    title: title@,
                    describe: describe@,
                    text: text@,
                    id: id@,
                    group_id: group_id@,
                }),
            ),
            final(self)@.groups == old(self)@.groups,
    {
        let item = DetailItem {
            title: title.to_owned(),
            describe: describe.to_owned(),
            text: text.to_owned(),
            id: id.to_owned(),
            group_id: group_id.to_owned(),
        };
        let ghost iv = item@;
        self.items.push(item);
        proof {
            assert(self@.items =~= old(self)@.items.push(iv));
        }
    }

    /// The items of the group carrying `group_id`, in insertion order.
    pub fn list_items<'a>(&'a self, group_id: &str) -> (r: Vec<&'a DetailItem>)
        ensures
            r@.map_values(|it: &DetailItem| it@) == self@.items.filter(in_group_pred(group_id@)),
    {
        let group_id_owned = group_id.to_owned();
        let mut result: Vec<&DetailItem> = Vec::new();
        let n = self.items.len();
        proof {
            reveal(Seq::filter);
            assert(self@.items.take(0) =~= Seq::<DetailItemView>::empty());
        }
        for j in 0..n
            invariant
                n == self.items@.len(),
                group_id_owned@ == group_id@,
                result@.map_values(|it: &DetailItem| it@) == self@.items.take(j as int).filter(
                    in_group_pred(group_id@),
                ),
        {
            let ghost prefix = self@.items.take(j as int);
            if self.items[j].group_id.eq(&group_id_owned) {
                result.push(&self.items[j]);
            }
            proof {
                reveal(Seq::filter);
                assert(self@.items.take(j + 1) =~= prefix.push(self@.items[j as int]));
                assert(self@.items.take(j + 1).drop_last() =~= prefix);
                if in_group_pred(group_id@)(self@.items[j as int]) {
                    assert(result@.map_values(|it: &DetailItem| it@) =~= prefix.filter(
                        in_group_pred(group_id@),
                    ).push(self@.items[j as int]));
                }
            }
        }
        proof {
            assert(self@.items.take(n as int) =~= self@.items);
        }
        result
    }

    /// The first item carrying `item_id` inside `group_id`, if any.
    pub fn get_item(&self, group_id: &str, item_id: &str) -> (r: Option<&DetailItem>)
        ensures
            match r {
                Some(it) => first_item_index(self@.items, group_id@, item_id@) >= 0 && it@
                    == self@.items[first_item_index(self@.items, group_id@, item_id@)],
                None => first_item_index(self@.items, group_id@, item_id@) == -1,
            },
    {
        match self.find_item(group_id, item_id) {
            Some(i) => Some(&self.items[i]),
            None => None,
        }
    }

    /// Rewrites the three text fields of the first item carrying `item_id`
    /// inside `group_id`, or reports `NotFound`; its ids never change.
    pub fn update_item(
        &mut self,
        group_id: &str,
        item_id: &str,
        title: &str,
        describe: &str,
        text: &str,
    ) -> (r: Result<(), Error>)
        ensures
            first_item_index(old(self)@.items, group_id@, item_id@) == -1 ==> r == Err::<
                (),
                Error,
            >(Error::NotFound) && final(self)@ == old(self)@,
            first_item_index(old(self)@.items, group_id@, item_id@) >= 0 ==> r == Ok::<(), Error>(
                (),
            ) && final(self)@.items == old(self)@.items.update(
                first_item_index(old(self)@.items, group_id@, item_id@),
                (DetailItemView {
                    title: title@,
                    describe: describe@,
                    text: text@,
                    ..old(self)@.items[first_item_index(old(self)@.items, group_id@, item_id@)]
                }),
            ) && final(self)@.groups == old(self)@.groups,
    {
        let idx = match self.find_item(group_id, item_id) {
            Some(i) => i,
            None => return Err(Error::NotFound),
        };
        let mut item = self.items.remove(idx);
        item.title = title.to_owned();
        item.describe = describe.to_owned();
        item.text = text.to_owned();
        let ghost iv = item@;
        self.items.insert(idx, item);
        proof {
            assert(self.items@ =~= old(self).items@.update(idx as int, item));
            assert(self@.items =~= old(self)@.items.update(idx as int, iv));
            assert(self@.groups =~= old(self)@.groups);
        }
        Ok(())
    }

    /// Removes the first item carrying `item_id` inside `group_id`, or
    /// reports `NotFound`.
    pub fn delete_item(&mut self, group_id: &str, item_id: &str) -> (r: Result<(), Error>)
        ensures
            first_item_index(old(self)@.items, group_id@, item_id@) == -1 ==> r == Err::<
                (),
                Error,
            >(Error::NotFound) && final(self)@ == old(self)@,
            first_item_index(old(self)@.items, group_id@, item_id@) >= 0 ==> r == Ok::<(), Error>(
                (),
            ) && final(self)@.items == old(self)@.items.remove(
                first_item_index(old(self)@.items, group_id@, item_id@),
            ) && final(self)@.groups == old(self)@.groups,
    {
        let idx = match self.find_item(group_id, item_id) {
            Some(i) => i,
            None => return Err(Error::NotFound),
        };
        self.items.remove(idx);
        proof {
            assert(self@.items =~= old(self)@.items.remove(idx as int));
            assert(self@.groups =~= old(self)@.groups);
        }
        Ok(())
    }

    fn find_group(&self, id: &str) -> (r: Option<usize>)
        ensures
            match r {
                Some(i) => 0 <= i < self@.groups.len() && first_group_index(self@.groups, id@)
                    == i,
                None => first_group_index(self@.groups, id@) == -1,
            },
    {
        let id_owned = id.to_owned();
        let n = self.groups.len();
        for j in 0..n
            invariant
                n == self.groups@.len(),
                id_owned@ == id@,
                forall|k: int| 0 <= k < j ==> !group_id_pred(id@)(self@.groups[k]),
        {
            if self.groups[j].id.eq(&id_owned) {
                proof {
                    assert(group_id_pred(id@)(self@.groups[j as int]));
                    lemma_first_index(self@.groups, group_id_pred(id@));
                }
                return Some(j);
            }
        }
        proof {
            lemma_first_index(self@.groups, group_id_pred(id@));
        }
        None
    }

    fn find_item(&self, group_id: &str, item_id: &str) -> (r: Option<usize>)
        ensures
            match r {
                Some(i) => 0 <= i < self@.items.len() && first_item_index(
                    self@.items,
                    group_id@,
                    item_id@,
                ) == i,
                None => first_item_index(self@.items, group_id@, item_id@) == -1,
            },
    {
        let group_id_owned = group_id.to_owned();
        let item_id_owned = item_id.to_owned();
        let n = self.items.len();
        for j in 0..n
            invariant
                n == self.items@.len(),
                group_id_owned@ == group_id@,
                item_id_owned@ == item_id@,
                forall|k: int|
                    0 <= k < j ==> !item_key_pred(group_id@, item_id@)(self@.items[k]),
        {
            if self.items[j].group_id.eq(&group_id_owned) && self.items[j].id.eq(&item_id_owned) {
                proof {
                    assert(item_key_pred(group_id@, item_id@)(self@.items[j as int]));
                    lemma_first_index(self@.items, item_key_pred(group_id@, item_id@));
                }
                return Some(j);
            }
        }
        proof {
            lemma_first_index(self@.items, item_key_pred(group_id@, item_id@));
        }
        None
    }
}

} // verus!
