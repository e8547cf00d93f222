use crate::item::{Item, ItemView};
use vstd::prelude::*;

verus! {

/// Failures that durable storage can report.
#[derive(Clone, Debug, PartialEq, Eq)]
pub enum RepositoryError {
    /// Transport or storage failure: connection loss, a constraint
    /// violation, a transaction that could not begin or commit.
    InternalRepositoryError(String),
    /// A stored row failed the same validation that guards construction.
    MappingError(String),
}

/// The views of a sequence of items, in the same order.
pub open spec fn views_of(items: Seq<Item>) -> Seq<ItemView> {
    items.map_values(|it: Item| it@)
}

/// The items of one table, in storage order.
pub open spec fn table_items(s: Seq<ItemView>, table_id: i64) -> Seq<ItemView> {
    s.filter(|it: ItemView| it.table_id == table_id)
}

/// The first item carrying both keys, if any.
pub open spec fn find_in(s: Seq<ItemView>, table_id: i64, item_id: u128) -> Option<ItemView>
    decreases s.len(),
{
    if s.len() == 0 {
        None
    } else if s[0].table_id == table_id && s[0].id == item_id {
        Some(s[0])
    } else {
        find_in(s.drop_first(), table_id, item_id)
    }
}

/// Whether some stored item already carries `id`.
pub open spec fn contains_id(s: Seq<ItemView>, id: u128) -> bool {
    exists|i: int| 0 <= i < s.len() && s[i].id == id
}

/// Whether a batch can be inserted whole: identifiers pairwise distinct
/// within the batch and none of them already stored.
pub open spec fn batch_insertable(stored: Seq<ItemView>, batch: Seq<ItemView>) -> bool {
    (forall|i: int, j: int| 0 <= i < j < batch.len() ==> batch[i].id != batch[j].id)
        && (forall|i: int| 0 <= i < batch.len() ==> !contains_id(stored, batch[i].id))
}

/// The store with every row carrying both keys removed.
pub open spec fn without_pair(s: Seq<ItemView>, table_id: i64, item_id: u128) -> Seq<ItemView> {
    s.filter(|it: ItemView| !(it.table_id == table_id && it.id == item_id))
}

/// Pairwise-distinct identifiers: the store's primary-key invariant.
pub open spec fn distinct_ids(s: Seq<ItemView>) -> bool {
    forall|i: int, j: int| 0 <= i < j < s.len() ==> s[i].id != s[j].id
}

/// Durable storage for items: point lookup, table-scoped listing, batched
/// transactional insert, idempotent delete. Any operation may fail with a
/// `RepositoryError`; the contract pins down the result and the state of the
/// store whenever an operation reports success, and guarantees that a failed
/// write leaves the store untouched.
pub trait ItemRepository: Sized {
    /// Everything stored, in insertion order.
    spec fn stored(&self) -> Seq<ItemView>;

    /// Point lookup, scoped by both keys: an item id alone is not enough.
    fn find_item(&self, table_id: i64, item_id: u128) -> (r: Result<
        Option<Item>,
        RepositoryError,
    >)
        ensures
            match r {
                Ok(found) => match found {
                    Some(item) => find_in(self.stored(), table_id, item_id) == Some(item@),
                    None => find_in(self.stored(), table_id, item_id) is None,
                },
                Err(_) => true,
            },
    ;

    /// All items of one table, in storage order; an empty table yields an
    /// empty sequence, never an error on that account.
    fn find_items_by_table(&self, table_id: i64) -> (r: Result<Vec<Item>, RepositoryError>)
        ensures
            match r {
                Ok(items) => views_of(items@) == table_items(self.stored(), table_id),
                Err(_) => true,
            },
    ;

    /// All-or-nothing batch insert: on success every item of the non-empty
    /// batch is appended in order; on failure none is.
    fn save_items(&mut self, items: &Vec<Item>) -> (r: Result<(), RepositoryError>)
        requires
            items@.len() > 0,
        ensures
            match r {
                Ok(()) => final(self).stored() == old(self).stored() + views_of(items@),
                Err(_) => final(self).stored() == old(self).stored(),
            },
    ;

    /// Removes the row carrying both keys; deleting an absent row is not an
    /// error.
    fn delete_item(&mut self, table_id: i64, item_id: u128) -> (r: Result<(), RepositoryError>)
        ensures
            match r {
                Ok(()) => final(self).stored() == without_pair(
                    old(self).stored(),
                    table_id,
                    item_id,
                ),
                Err(_) => final(self).stored() == old(self).stored(),
            },
    ;
}

/// Listing a table distributes over an all-or-nothing insert: after a batch
/// is appended, the items of `table_id` are the ones stored before followed
/// by the batch's items of that table, in order.
pub proof fn lemma_table_items_after_save(
    stored: Seq<ItemView>,
    batch: Seq<ItemView>,
    table_id: i64,
)
    ensures
        table_items(stored + batch, table_id) == table_items(stored, table_id) + table_items(
            batch,
            table_id,
        ),
{
    broadcast use Seq::filter_distributes_over_add;

}

/// A batch whose items all belong to `table_id` is listed back whole and in
/// order.
pub proof fn lemma_table_items_all_match(batch: Seq<ItemView>, table_id: i64)
    requires
        forall|i: int| 0 <= i < batch.len() ==> batch[i].table_id == table_id,
    ensures
        table_items(batch, table_id) == batch,
    decreases batch.len(),
{
    reveal(Seq::filter);
    if batch.len() > 0 {
        lemma_table_items_all_match(batch.drop_last(), table_id);
        assert(table_items(batch, table_id) =~= batch);
    } else {
        assert(table_items(batch, table_id) =~= batch);
    }
}

/// The save-then-list round trip: after a batch whose items all belong to
/// one table is appended, listing that table returns exactly the prior
/// items followed by the whole batch, in insertion order.
pub proof fn lemma_save_then_list(stored: Seq<ItemView>, batch: Seq<ItemView>, table_id: i64)
    requires
        forall|i: int| 0 <= i < batch.len() ==> batch[i].table_id == table_id,
    ensures
        table_items(stored + batch, table_id) == table_items(stored, table_id) + batch,
{
    lemma_table_items_after_save(stored, batch, table_id);
    lemma_table_items_all_match(batch, table_id);
}

/// An identifier that is not stored at all is not found under any table:
/// after a rejected batch, a lookup for one of its fresh identifiers misses.
pub proof fn lemma_absent_id_not_found(s: Seq<ItemView>, table_id: i64, item_id: u128)
    requires
        !contains_id(s, item_id),
    ensures
        find_in(s, table_id, item_id) is None,
    decreases s.len(),
{
    if s.len() > 0 {
        assert(s[0].id != item_id);
        assert(forall|i: int|
            0 <= i < s.drop_first().len() ==> s.drop_first()[i] == s[i + 1]);
        lemma_absent_id_not_found(s.drop_first(), table_id, item_id);
    }
}

/// Deleting a pair that is not present leaves the store unchanged: delete is
/// idempotent.
pub proof fn lemma_delete_absent_unchanged(s: Seq<ItemView>, table_id: i64, item_id: u128)
    requires
        find_in(s, table_id, item_id) is None,
    ensures
        without_pair(s, table_id, item_id) == s,
    decreases s.len(),
{
    reveal(Seq::filter);
    if s.len() > 0 {
        lemma_find_in_skips_mismatch(s, table_id, item_id);
        lemma_delete_absent_unchanged(s.drop_last(), table_id, item_id);
        assert(without_pair(s, table_id, item_id) =~= s);
    } else {
        assert(without_pair(s, table_id, item_id) =~= s);
    }
}

/// Helper: when the head does not carry both keys, a lookup on the tail
/// agrees with a lookup on the whole sequence; stated from the back so the
/// `filter`-based spec and the front-based `find_in` can meet.
proof fn lemma_find_in_skips_mismatch(s: Seq<ItemView>, table_id: i64, item_id: u128)
    requires
        find_in(s, table_id, item_id) is None,
        s.len() > 0,
    ensures
        find_in(s.drop_last(), table_id, item_id) is None,
        !(s.last().table_id == table_id && s.last().id == item_id),
    decreases s.len(),
{
    if s.len() > 1 {
        assert(s.drop_first().drop_last() =~= s.drop_last().drop_first());
        lemma_find_in_skips_mismatch(s.drop_first(), table_id, item_id);
    }
}

} // verus!
