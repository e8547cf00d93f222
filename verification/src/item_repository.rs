use crate::item::{creation_error, Item, ItemView};
use crate::repository::{
    batch_insertable, contains_id, distinct_ids, find_in, table_items, views_of, without_pair,
    ItemRepository, RepositoryError,
};
use vstd::prelude::*;
use vstd::string::StringExecFns;

verus! {

/// Rebuilds an item from the plain column values of a stored row, re-running
/// construction-time validation. A row that fails it surfaces a mapping
/// error carrying the validation message, never an internal error: callers
/// can tell unreachable storage from storage holding corrupt rows.
pub fn item_from_row(id: u128, table_id: i64, name: String, preparation_time: i64) -> (r: Result<
    Item,
    RepositoryError,
>)
    ensures
        match r {
            Ok(item) => creation_error(table_id, name@) is None && item@ == (ItemView {
                id,
                table_id,
                name: name@,
                preparation_time,
            }),
            Err(e) => match e {
                RepositoryError::MappingError(m) => {
                    &&& creation_error(table_id, name@) is Some
                    &&& m@ == creation_error(table_id, name@)->Some_0.spec_message()
                },
                RepositoryError::InternalRepositoryError(_) => false,
            },
        },
{
    match Item::try_new(id, table_id, name, preparation_time) {
        Ok(item) => Ok(item),
        Err(e) => Err(RepositoryError::MappingError(e.message())),
    }
}

/// The in-memory store: a vector of items in insertion order, with the same
/// contract as durable storage. Reads never fail; a batch insert fails
/// exactly when an identifier repeats, and then inserts nothing.
pub struct InMemoryItemRepository {
    items: Vec<Item>,
}

impl InMemoryItemRepository {
    /// An empty store.
    pub fn new() -> (r: Self)
        ensures
            r.stored() == Seq::<ItemView>::empty(),
    {
        InMemoryItemRepository { items: Vec::new() }
    }

    /// Whether some stored item already carries `id`.
    fn holds_id(&self, id: u128) -> (r: bool)
        ensures
            r == contains_id(self.stored(), id),
    {
        let mut i: usize = 0;
        while i < self.items.len()
            invariant
                0 <= i <= self.items@.len(),
                forall|k: int| 0 <= k < i ==> views_of(self.items@)[k].id != id,
            decreases self.items@.len() - i,
        {
            if self.items[i].id() == id {
                proof {
                    assert(views_of(self.items@)[i as int].id == id);
                }
                return true;
            }
            i += 1;
        }
        false
    }
}

impl ItemRepository for InMemoryItemRepository {
    closed spec fn stored(&self) -> Seq<ItemView> {
        views_of(self.items@)
    }

    fn find_item(&self, table_id: i64, item_id: u128) -> (r: Result<
        Option<Item>,
        RepositoryError,
    >)
        ensures
            r is Ok,
    {
        let ghost all = self.stored();
        proof {
            assert(all.skip(0) =~= all);
        }
        let mut i: usize = 0;
        while i < self.items.len()
            invariant
                0 <= i <= self.items@.len(),
                all == self.stored(),
                find_in(all, table_id, item_id) == find_in(
                    all.skip(i as int),
                    table_id,
                    item_id,
                ),
            decreases self.items@.len() - i,
        {
            let item = &self.items[i];
            if item.table_id() == table_id && item.id() == item_id {
                proof {
                    assert(all.skip(i as int)[0] == item@);
                }
                return Ok(Some(item.clone()));
            }
            proof {
                assert(all.skip(i as int).drop_first() =~= all.skip(i as int + 1));
            }
            i += 1;
        }
        proof {
            assert(all.skip(self.items@.len() as int).len() == 0);
        }
        Ok(None)
    }

    fn find_items_by_table(&self, table_id: i64) -> (r: Result<Vec<Item>, RepositoryError>)
        ensures
            r is Ok,
    {
        let ghost all = self.stored();
        let mut found: Vec<Item> = Vec::new();
        let mut i: usize = 0;
        while i < self.items.len()
            invariant
                0 <= i <= self.items@.len(),
                all == self.stored(),
                views_of(found@) == table_items(all.subrange(0, i as int), table_id),
            decreases self.items@.len() - i,
        {
            let ghost prefix = all.subrange(0, i as int);
            let item = &self.items[i];
            if item.table_id() == table_id {
                found.push(item.clone());
            }
            proof {
                reveal(Seq::filter);
                assert(all.subrange(0, i as int + 1).drop_last() =~= prefix);
                assert(views_of(found@) =~= table_items(
                    all.subrange(0, i as int + 1),
                    table_id,
                ));
            }
            i += 1;
        }
        proof {
            assert(all.subrange(0, self.items@.len() as int) =~= all);
        }
        Ok(found)
    }

    fn save_items(&mut self, items: &Vec<Item>) -> (r: Result<(), RepositoryError>)
        ensures
            r is Ok <==> batch_insertable(old(self).stored(), views_of(items@)),
            r matches Err(e) ==> e is InternalRepositoryError,
            old(self).wf() ==> final(self).wf(),
    {
        let ghost batch = views_of(items@);
        let mut i: usize = 0;
        while i < items.len()
            invariant
                0 <= i <= items@.len(),
                batch == views_of(items@),
                forall|k: int| 0 <= k < i ==> !contains_id(self.stored(), batch[k].id),
                forall|k: int, l: int| 0 <= k < l < i ==> batch[k].id != batch[l].id,
            decreases items@.len() - i,
        {
            if self.holds_id(items[i].id()) {
                proof {
                    assert(contains_id(self.stored(), batch[i as int].id));
                }
                return Err(
                    RepositoryError::InternalRepositoryError(
                        String::from_str("Duplicate item id."),
                    ),
                );
            }
            let mut j: usize = 0;
            while j < i
                invariant
                    0 <= j <= i < items@.len(),
                    batch == views_of(items@),
                    forall|l: int| 0 <= l < j ==> batch[l].id != batch[i as int].id,
                decreases i - j,
            {
                if items[j].id() == items[i].id() {
                    proof {
                        assert(batch[j as int].id == batch[i as int].id);
                    }
                    return Err(
                        RepositoryError::InternalRepositoryError(
                            String::from_str("Duplicate item id."),
                        ),
                    );
                }
                j += 1;
            }
            i += 1;
        }
        let ghost before = self.stored();
        let mut k: usize = 0;
        while k < items.len()
            invariant
                0 <= k <= items@.len(),
                batch == views_of(items@),
                self.stored() == before + batch.subrange(0, k as int),
            decreases items@.len() - k,
        {
            let ghost so_far = self.stored();
            self.items.push(items[k].clone());
            proof {
                assert(self.stored() =~= so_far.push(batch[k as int]));
                assert(self.stored() =~= before + batch.subrange(0, k as int + 1));
            }
            k += 1;
        }
        proof {
            assert(batch.subrange(0, items@.len() as int) =~= batch);
            if distinct_ids(before) {
                lemma_insertable_keeps_distinct(before, batch);
            }
        }
        Ok(())
    }

    fn delete_item(&mut self, table_id: i64, item_id: u128) -> (r: Result<(), RepositoryError>)
        ensures
            r is Ok,
            old(self).wf() ==> final(self).wf(),
    {
        let ghost all = self.stored();
        let mut kept: Vec<Item> = Vec::new();
        let mut i: usize = 0;
        while i < self.items.len()
            invariant
                0 <= i <= self.items@.len(),
                all == self.stored(),
                views_of(kept@) == without_pair(all.subrange(0, i as int), table_id, item_id),
            decreases self.items@.len() - i,
        {
            let ghost prefix = all.subrange(0, i as int);
            let item = &self.items[i];
            if !(item.table_id() == table_id && item.id() == item_id) {
                kept.push(item.clone());
            }
            proof {
                reveal(Seq::filter);
                assert(all.subrange(0, i as int + 1).drop_last() =~= prefix);
                assert(views_of(kept@) =~= without_pair(
                    all.subrange(0, i as int + 1),
                    table_id,
                    item_id,
                ));
            }
            i += 1;
        }
        proof {
            assert(all.subrange(0, self.items@.len() as int) =~= all);
        }
        self.items = kept;
        proof {
            if distinct_ids(all) {
                lemma_without_pair_keeps_distinct(all, table_id, item_id);
            }
        }
        Ok(())
    }
}

impl InMemoryItemRepository {
    /// The store's primary-key invariant: identifiers pairwise distinct.
    /// The empty store has it, and every operation preserves it.
    pub open spec fn wf(&self) -> bool {
        distinct_ids(self.stored())
    }
}

/// Appending an insertable batch preserves pairwise-distinct identifiers.
proof fn lemma_insertable_keeps_distinct(stored: Seq<ItemView>, batch: Seq<ItemView>)
    requires
        batch_insertable(stored, batch),
        distinct_ids(stored),
    ensures
        distinct_ids(stored + batch),
{
    let all = stored + batch;
    assert forall|i: int, j: int| 0 <= i < j < all.len() implies all[i].id != all[j].id by {
        if j >= stored.len() {
            if i >= stored.len() {
                assert(batch[i - stored.len()].id != batch[j - stored.len()].id);
            } else {
                assert(!contains_id(stored, batch[j - stored.len()].id));
            }
        }
    }
}

/// Removing rows preserves pairwise-distinct identifiers.
proof fn lemma_without_pair_keeps_distinct(s: Seq<ItemView>, table_id: i64, item_id: u128)
    requires
        distinct_ids(s),
    ensures
        distinct_ids(without_pair(s, table_id, item_id)),
{
    let kept = without_pair(s, table_id, item_id);
    assert forall|i: int, j: int| 0 <= i < j < kept.len() implies kept[i].id != kept[j].id by {
        lemma_filter_members_distinct(s, table_id, item_id, i, j);
    }
}

/// Helper for the lemma above: two positions of the filtered sequence come
/// from two distinct positions of the original.
proof fn lemma_filter_members_distinct(
    s: Seq<ItemView>,
    table_id: i64,
    item_id: u128,
    i: int,
    j: int,
)
    requires
        distinct_ids(s),
        0 <= i < j < without_pair(s, table_id, item_id).len(),
    ensures
        without_pair(s, table_id, item_id)[i].id != without_pair(s, table_id, item_id)[j].id,
    decreases s.len(),
{
    reveal(Seq::filter);
    let kept = without_pair(s, table_id, item_id);
    if s.len() > 0 {
        let head = without_pair(s.drop_last(), table_id, item_id);
        assert(distinct_ids(s.drop_last()));
        if j < head.len() {
            lemma_filter_members_distinct(s.drop_last(), table_id, item_id, i, j);
        } else {
            assert(kept[j] == s.last());
            lemma_filter_member_of(s.drop_last(), table_id, item_id, i);
        }
    }
}

/// Helper: every member of the filtered sequence is a member of the
/// original.
proof fn lemma_filter_member_of(s: Seq<ItemView>, table_id: i64, item_id: u128, i: int)
    requires
        0 <= i < without_pair(s, table_id, item_id).len(),
    ensures
        exists|k: int|
            0 <= k < s.len() && s[k] == without_pair(s, table_id, item_id)[i],
    decreases s.len(),
{
    reveal(Seq::filter);
    let kept = without_pair(s, table_id, item_id);
    if s.len() > 0 {
        let head = without_pair(s.drop_last(), table_id, item_id);
        if i < head.len() {
            lemma_filter_member_of(s.drop_last(), table_id, item_id, i);
            let k = choose|k: int|
                0 <= k < s.drop_last().len() && s.drop_last()[k] == head[i];
            assert(s[k] == kept[i]);
        } else {
            assert(kept[i] == s.last());
            assert(s[s.len() - 1] == kept[i]);
        }
    }
}

} // verus!
