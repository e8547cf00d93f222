use crate::item::{creation_error, Item, ItemValidationError, ItemView};
use crate::item_factory::ItemFactory;
use crate::repository::{
    find_in, table_items, views_of, without_pair, ItemRepository, RepositoryError,
};
use vstd::prelude::*;
use vstd::string::StringExecFns;

verus! {

/// Application-level outcomes: bad input, a missed point lookup, or an
/// internal failure whose detail callers never see.
#[derive(Clone, Debug, PartialEq, Eq)]
pub enum ApplicationError {
    InternalError,
    ValidationError(String),
    ResourceNotFound,
}

impl ApplicationError {
    /// Storage failures collapse to an internal error: callers never see raw
    /// storage detail.
    pub fn of_repository_error(_error: RepositoryError) -> (r: ApplicationError)
        ensures
            r == ApplicationError::InternalError,
    {
        ApplicationError::InternalError
    }

    /// A rejected construction becomes a validation error carrying the
    /// rule's message.
    pub fn of_validation_error(error: ItemValidationError) -> (r: ApplicationError)
        ensures
            r matches ApplicationError::ValidationError(m) && m@ == error.spec_message(),
    {
        ApplicationError::ValidationError(error.message())
    }
}

/// One requested entry of a create batch: just a name.
#[derive(Debug, PartialEq, Eq)]
pub struct CreateItemModel {
    pub name: String,
}

/// An ordered batch of requested entries; rejected whole when empty.
#[derive(Debug, PartialEq, Eq)]
pub struct CreateItemsCommand {
    pub items: Vec<CreateItemModel>,
}

/// What a caller sees of one item.
#[derive(Debug, PartialEq, Eq)]
pub struct ItemModel {
    pub id: u128,
    pub table_id: i64,
    pub name: String,
    pub preparation_time: i64,
}

impl View for ItemModel {
    type V = ItemView;

    open spec fn view(&self) -> ItemView {
        ItemView {
            id: self.id,
            table_id: self.table_id,
            name: self.name@,
            preparation_time: self.preparation_time,
        }
    }
}

impl ItemModel {
    /// What a caller sees of the given item.
    pub fn of_item(item: &Item) -> (r: ItemModel)
        ensures
            r@ == item@,
    {
        ItemModel {
            id: item.id(),
            table_id: item.table_id(),
            name: item.name().clone(),
            preparation_time: item.preparation_time(),
        }
    }
}

/// The views of a sequence of models, in the same order.
pub open spec fn model_views(models: Seq<ItemModel>) -> Seq<ItemView> {
    models.map_values(|m: ItemModel| m@)
}

/// The message of the validation error that rejects an empty create batch.
pub open spec fn empty_command_message() -> Seq<char> {
    "Items list is empty."@
}

/// The first validation failure a create batch runs into, if any: entries
/// are minted in order and the first failure wins.
pub open spec fn first_create_error(table_id: i64, entries: Seq<CreateItemModel>) -> Option<
    ItemValidationError,
>
    decreases entries.len(),
{
    if entries.len() == 0 {
        None
    } else if creation_error(table_id, entries[0].name@) is Some {
        creation_error(table_id, entries[0].name@)
    } else {
        first_create_error(table_id, entries.drop_first())
    }
}

/// A batch with no failing entry has no first failure.
proof fn lemma_no_entry_error(table_id: i64, entries: Seq<CreateItemModel>)
    requires
        forall|k: int| 0 <= k < entries.len() ==> creation_error(table_id, entries[k].name@) is None,
    ensures
        first_create_error(table_id, entries) is None,
    decreases entries.len(),
{
    if entries.len() > 0 {
        assert(forall|k: int|
            0 <= k < entries.drop_first().len() ==> entries.drop_first()[k] == entries[k + 1]);
        lemma_no_entry_error(table_id, entries.drop_first());
    }
}

/// When every entry before `i` passes and entry `i` fails, the batch's first
/// failure is entry `i`'s.
proof fn lemma_first_error_at(table_id: i64, entries: Seq<CreateItemModel>, i: int)
    requires
        0 <= i < entries.len(),
        forall|k: int| 0 <= k < i ==> creation_error(table_id, entries[k].name@) is None,
        creation_error(table_id, entries[i].name@) is Some,
    ensures
        first_create_error(table_id, entries) == creation_error(table_id, entries[i].name@),
    decreases i,
{
    if i > 0 {
        assert(forall|k: int|
            0 <= k < entries.drop_first().len() ==> entries.drop_first()[k] == entries[k + 1]);
        lemma_first_error_at(table_id, entries.drop_first(), i - 1);
    }
}

/// Orchestrates factory and repository for the four use cases and maps
/// lower-level failures to application-level outcomes.
pub struct ItemServiceImpl<R: ItemRepository, F: ItemFactory> {
    repository: R,
    factory: F,
}

impl<R: ItemRepository, F: ItemFactory> ItemServiceImpl<R, F> {
    /// What the service's store holds, in insertion order.
    pub closed spec fn stored(&self) -> Seq<ItemView> {
        self.repository.stored()
    }

    pub fn new(repository: R, factory: F) -> (r: Self)
        ensures
            r.stored() == repository.stored(),
    {
        ItemServiceImpl { repository, factory }
    }

    /// Converts a batch of items into caller-facing models, in order.
    fn models_of_items(items: &Vec<Item>) -> (r: Vec<ItemModel>)
        ensures
            model_views(r@) == views_of(items@),
    {
        let mut models: Vec<ItemModel> = Vec::new();
        let mut i: usize = 0;
        while i < items.len()
            invariant
                0 <= i <= items@.len(),
                models@.len() == i,
                forall|k: int| 0 <= k < i ==> models@[k]@ == items@[k]@,
            decreases items@.len() - i,
        {
            models.push(ItemModel::of_item(&items[i]));
            i += 1;
        }
        proof {
            assert(model_views(models@) =~= views_of(items@));
        }
        models
    }

    /// Creates one item per entry of the command, in order, and persists the
    /// whole batch in one transaction. An empty command is rejected before
    /// the factory runs; the first entry that fails validation rejects the
    /// whole call with its message and nothing is persisted; a storage
    /// failure surfaces as an internal error and nothing is persisted. On
    /// success the returned models mirror the command's entries and exactly
    /// they are appended to the store.
    pub fn create_items(&mut self, table_id: i64, command: CreateItemsCommand) -> (r: Result<
        Vec<ItemModel>,
        ApplicationError,
    >)
        ensures
            match r {
                Ok(models) => {
                    &&& command.items@.len() > 0
                    &&& first_create_error(table_id, command.items@) is None
                    &&& models@.len() == command.items@.len()
                    &&& forall|i: int|
                        0 <= i < models@.len() ==> {
                            &&& (#[trigger] models@[i])@.table_id == table_id
                            &&& models@[i]@.name == command.items@[i].name@
                            &&& models@[i]@.valid()
                        }
                    &&& final(self).stored() == old(self).stored() + model_views(models@)
                },
                Err(e) => {
                    &&& final(self).stored() == old(self).stored()
                    &&& match e {
                        ApplicationError::ValidationError(m) => {
                            if command.items@.len() == 0 {
                                m@ == empty_command_message()
                            } else {
                                &&& first_create_error(table_id, command.items@) is Some
                                &&& m@ == first_create_error(
                                    table_id,
                                    command.items@,
                                )->Some_0.spec_message()
                            }
                        },
                        ApplicationError::InternalError => command.items@.len() > 0
                            && first_create_error(table_id, command.items@) is None,
                        ApplicationError::ResourceNotFound => false,
                    }
                },
            },
    {
        if command.items.len() == 0 {
            return Err(ApplicationError::ValidationError(String::from_str("Items list is empty.")));
        }
        let mut items: Vec<Item> = Vec::new();
        let mut i: usize = 0;
        while i < command.items.len()
            invariant
                0 <= i <= command.items@.len(),
                items@.len() == i,
                forall|k: int| 0 <= k < i ==> creation_error(table_id, command.items@[k].name@) is None,
                forall|k: int|
                    0 <= k < i ==> {
                        &&& (#[trigger] items@[k])@.table_id == table_id
                        &&& items@[k]@.name == command.items@[k].name@
                        &&& items@[k]@.valid()
                    },
            decreases command.items@.len() - i,
        {
            let entry_name = command.items[i].name.clone();
            match self.factory.try_create(table_id, entry_name) {
                Ok(item) => {
                    items.push(item);
                },
                Err(error) => {
                    proof {
                        lemma_first_error_at(table_id, command.items@, i as int);
                    }
                    return Err(ApplicationError::of_validation_error(error));
                },
            }
            i += 1;
        }
        proof {
            lemma_no_entry_error(table_id, command.items@);
        }
        match self.repository.save_items(&items) {
            Ok(()) => {
                let models = Self::models_of_items(&items);
                proof {
                    assert(model_views(models@).len() == models@.len());
                    assert forall|i: int| 0 <= i < models@.len() implies (#[trigger] models@[i])@
                        == items@[i]@ by {
                        assert(model_views(models@)[i] == models@[i]@);
                        assert(views_of(items@)[i] == items@[i]@);
                    }
                }
                Ok(models)
            },
            Err(error) => Err(ApplicationError::of_repository_error(error)),
        }
    }

    /// Point lookup: a repository miss is a distinct "resource not found"
    /// outcome, a storage failure an internal error.
    pub fn get_item(&self, table_id: i64, item_id: u128) -> (r: Result<
        ItemModel,
        ApplicationError,
    >)
        ensures
            match r {
                Ok(m) => find_in(self.stored(), table_id, item_id) == Some(m@),
                Err(e) => match e {
                    ApplicationError::ResourceNotFound => find_in(
                        self.stored(),
                        table_id,
                        item_id,
                    ) is None,
                    ApplicationError::InternalError => true,
                    ApplicationError::ValidationError(_) => false,
                },
            },
    {
        match self.repository.find_item(table_id, item_id) {
            Ok(Some(item)) => Ok(ItemModel::of_item(&item)),
            Ok(None) => Err(ApplicationError::ResourceNotFound),
            Err(error) => Err(ApplicationError::of_repository_error(error)),
        }
    }

    /// All items of one table, in storage order. A table with no items
    /// yields an empty sequence, indistinguishable from an unknown table.
    pub fn get_items(&self, table_id: i64) -> (r: Result<Vec<ItemModel>, ApplicationError>)
        ensures
            match r {
                Ok(models) => model_views(models@) == table_items(self.stored(), table_id),
                Err(e) => e is InternalError,
            },
    {
        match self.repository.find_items_by_table(table_id) {
            Ok(items) => Ok(Self::models_of_items(&items)),
            Err(error) => Err(ApplicationError::of_repository_error(error)),
        }
    }

    /// Removes one item; deleting an absent pair succeeds. Only a storage
    /// failure is an error, and then nothing changed.
    pub fn delete_item(&mut self, table_id: i64, item_id: u128) -> (r: Result<
        (),
        ApplicationError,
    >)
        ensures
            match r {
                Ok(()) => final(self).stored() == without_pair(
                    old(self).stored(),
                    table_id,
                    item_id,
                ),
                Err(e) => e is InternalError && final(self).stored() == old(self).stored(),
            },
    {
        match self.repository.delete_item(table_id, item_id) {
            Ok(()) => Ok(()),
            Err(error) => Err(ApplicationError::of_repository_error(error)),
        }
    }
}

} // verus!
