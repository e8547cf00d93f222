use crate::item_service::ItemModel;
use vstd::prelude::*;

verus! {

/// Response payload of the create call: the created items, in order.
#[derive(Debug)]
pub struct CreateItemsResponse {
    pub items: Vec<ItemModel>,
}

impl CreateItemsResponse {
    pub fn of_models(items: Vec<ItemModel>) -> (r: Self)
        ensures
            r.items@ == items@,
    {
        CreateItemsResponse { items }
    }
}

/// Response payload of the list call: one table's items, in storage order.
#[derive(Debug)]
pub struct ListItemsResponse {
    pub items: Vec<ItemModel>,
}

impl ListItemsResponse {
    pub fn of_models(items: Vec<ItemModel>) -> (r: Self)
        ensures
            r.items@ == items@,
    {
        ListItemsResponse { items }
    }
}

/// A short projection of an item: identifier text and name.
#[derive(Debug, PartialEq, Eq)]
pub struct ItemSummary {
    pub id: String,
    pub name: String,
}

} // verus!
