use vstd::prelude::*;
use vstd::string::StringExecFns;

verus! {

/// Mathematical model of an item: one stored row, as the contracts see it.
#[verifier::ext_equal]
pub ghost struct ItemView {
    pub id: u128,
    pub table_id: i64,
    pub name: Seq<char>,
    pub preparation_time: i64,
}

impl ItemView {
    /// The validation rule: a non-empty name and a non-negative table id.
    pub open spec fn valid(self) -> bool {
        self.table_id >= 0 && self.name.len() > 0
    }
}

/// Why construction of an `Item` was rejected.
#[derive(Clone, Copy, Debug, PartialEq, Eq, Structural)]
pub enum ItemValidationError {
    EmptyName,
    NegativeTableId,
}

impl ItemValidationError {
    pub open spec fn spec_message(self) -> Seq<char> {
        match self {
            ItemValidationError::EmptyName => "Name cannot be empty."@,
            ItemValidationError::NegativeTableId => "Table id cannot be negative."@,
        }
    }

    /// Human-readable description of the error.
    pub fn message(&self) -> (r: String)
        ensures
            r@ == self.spec_message(),
    {
        match self {
            ItemValidationError::EmptyName => String::from_str("Name cannot be empty."),
            ItemValidationError::NegativeTableId => String::from_str("Table id cannot be negative."),
        }
    }
}

/// The outcome of validating the pair `(table_id, name)`: `None` when the
/// pair is accepted, otherwise the first failing rule (an empty name is
/// reported before a negative table id).
pub open spec fn creation_error(table_id: i64, name: Seq<char>) -> Option<ItemValidationError> {
    if name.len() == 0 {
        Some(ItemValidationError::EmptyName)
    } else if table_id < 0 {
        Some(ItemValidationError::NegativeTableId)
    } else {
        None
    }
}

/// Validation accepts exactly the valid pairs, and the first failing rule
/// wins: an empty name is reported before a negative table id.
pub proof fn lemma_creation_error_exact(table_id: i64, name: Seq<char>)
    ensures
        creation_error(table_id, name) is None <==> (table_id >= 0 && name.len() > 0),
        name.len() == 0 ==> creation_error(table_id, name) == Some(ItemValidationError::EmptyName),
        name.len() > 0 && table_id < 0 ==> creation_error(table_id, name) == Some(
            ItemValidationError::NegativeTableId,
        ),
{
}

/// A validated menu item. Construction through `try_new` is the single
/// validation gate: a value of this type always satisfies `ItemView::valid`.
#[derive(Debug, PartialEq, Eq)]
pub struct Item {
    id: u128,
    table_id: i64,
    name: String,
    preparation_time: i64,
}

impl View for Item {
    type V = ItemView;

    closed spec fn view(&self) -> ItemView {
        ItemView {
            id: self.id,
            table_id: self.table_id,
            name: self.name@,
            preparation_time: self.preparation_time,
        }
    }
}

impl Clone for Item {
    /// A clone equals the original, field for field.
    fn clone(&self) -> (res: Self)
        ensures
            res@ == self@,
    {
        proof {
            use_type_invariant(self);
        }
        Item {
            id: self.id,
            table_id: self.table_id,
            name: self.name.clone(),
            preparation_time: self.preparation_time,
        }
    }
}

impl Item {
    #[verifier::type_invariant]
    spec fn well_formed(self) -> bool {
        self@.valid()
    }

    /// Validates and builds an item. Succeeds exactly when the name is
    /// non-empty and the table id non-negative; the first failing rule wins.
    pub fn try_new(id: u128, table_id: i64, name: String, preparation_time: i64) -> (r: Result<
        Item,
        ItemValidationError,
    >)
        ensures
            match r {
                Ok(item) => creation_error(table_id, name@) is None && item@ == (ItemView {
                    id,
                    table_id,
                    name: name@,
                    preparation_time,
                }),
                Err(e) => creation_error(table_id, name@) == Some(e),
            },
    {
        if name.as_str().is_empty() {
            return Err(ItemValidationError::EmptyName);
        }
        if table_id < 0 {
            return Err(ItemValidationError::NegativeTableId);
        }
        Ok(Item { id, table_id, name, preparation_time })
    }

    /// The 128-bit time-ordered identifier assigned at creation.
    pub fn id(&self) -> (r: u128)
        ensures
            r == self@.id,
    {
        self.id
    }

    /// The table this item belongs to.
    pub fn table_id(&self) -> (r: i64)
        ensures
            r == self@.table_id,
    {
        self.table_id
    }

    /// The item's name.
    pub fn name(&self) -> (r: &String)
        ensures
            r@ == self@.name,
    {
        &self.name
    }

    /// Expected readiness, in microseconds since the Unix epoch.
    pub fn preparation_time(&self) -> (r: i64)
        ensures
            r == self@.preparation_time,
    {
        self.preparation_time
    }
}

} // verus!
