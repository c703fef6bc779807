//! Batches of guarded writes and what they do to the store's contents.
//!
//! The store's contents are modelled as a map from a cell, that is a record
//! kind, a record id and a field, to the value held there. A record exists
//! when at least one of its cells is present.

use crate::entity::{EntityType, Field, Value, ValueView};
use vstd::prelude::*;

verus! {

/// One cell of the store: record kind, record id and field.
pub type CellKey = (EntityType, Seq<char>, Field);

/// The contents of a store.
pub type StoreModel = Map<CellKey, ValueView>;

/// The key of one record.
#[derive(Clone, Debug, PartialEq, Eq)]
pub struct EntityKey {
    pub entity_type: EntityType,
    pub id: String,
}

impl View for EntityKey {
    type V = (EntityType, Seq<char>);

    open spec fn view(&self) -> (EntityType, Seq<char>) {
        (self.entity_type, self.id@)
    }
}

/// Selects the records of one kind whose field holds a given value.
#[derive(Clone, Debug, PartialEq, Eq)]
pub struct EntityQuery {
    pub entity_type: EntityType,
    pub field: Field,
    pub value: Value,
}

impl View for EntityQuery {
    type V = (EntityType, Field, ValueView);

    open spec fn view(&self) -> (EntityType, Field, ValueView) {
        (self.entity_type, self.field, self.value@)
    }
}

/// One step of a batch: a guard on the store as it stands before the batch,
/// or a field-level upsert.
#[derive(Clone, Debug, PartialEq, Eq)]
pub enum MetadataOperation {
    /// Write `value` into `field` of the record `key`, creating it if needed.
    Write { key: EntityKey, field: Field, value: Value },
    /// The batch is refused unless the query's result set is empty exactly
    /// when `expected_empty` holds.
    AbortUnless { description: String, query: EntityQuery, expected_empty: bool },
}

/// The mathematical content of a [`MetadataOperation`].
pub enum OperationView {
    Write { key: (EntityType, Seq<char>), field: Field, value: ValueView },
    AbortUnless {
        description: Seq<char>,
        query: (EntityType, Field, ValueView),
        expected_empty: bool,
    },
}

impl View for MetadataOperation {
    type V = OperationView;

    open spec fn view(&self) -> OperationView {
        match self {
            MetadataOperation::Write { key, field, value } => OperationView::Write {
                key: key@,
                field: *field,
                value: value@,
            },
            MetadataOperation::AbortUnless { description, query, expected_empty } =>
                OperationView::AbortUnless {
                description: description@,
                query: query@,
                expected_empty: *expected_empty,
            },
        }
    }
}

/// The content of a list of operations.
pub open spec fn ops_view(ops: Seq<MetadataOperation>) -> Seq<OperationView> {
    ops.map_values(|o: MetadataOperation| o@)
}

/// Some record of kind `q.0` holds value `q.2` in field `q.1`.
pub open spec fn query_matches(m: StoreModel, q: (EntityType, Field, ValueView)) -> bool {
    exists|k: CellKey| #[trigger] m.contains_key(k) && k.0 == q.0 && k.2 == q.1 && m[k] == q.2
}

/// A record of kind `t` with id `id` exists.
pub open spec fn entity_exists(m: StoreModel, t: EntityType, id: Seq<char>) -> bool {
    exists|k: CellKey| #[trigger] m.contains_key(k) && k.0 == t && k.1 == id
}

/// The operation is a guard that does not hold on `m`.
pub open spec fn violates(m: StoreModel, op: OperationView) -> bool {
    match op {
        OperationView::AbortUnless { query, expected_empty, .. } => query_matches(m, query)
            == expected_empty,
        OperationView::Write { .. } => false,
    }
}

/// The description of the first guard of `ops` that does not hold on `m`.
pub open spec fn first_violation(m: StoreModel, ops: Seq<OperationView>) -> Option<Seq<char>>
    decreases ops.len(),
{
    if ops.len() == 0 {
        None
    } else {
        match first_violation(m, ops.drop_last()) {
            Some(d) => Some(d),
            None => match ops.last() {
                OperationView::AbortUnless { description, .. } => if violates(m, ops.last()) {
                    Some(description)
                } else {
                    None
                },
                OperationView::Write { .. } => None,
            },
        }
    }
}

/// The effect of one operation; a guard changes nothing.
pub open spec fn apply_op(m: StoreModel, op: OperationView) -> StoreModel {
    match op {
        OperationView::Write { key, field, value } => m.insert((key.0, key.1, field), value),
        OperationView::AbortUnless { .. } => m,
    }
}

/// The effect of the writes of `ops`, in order.
pub open spec fn apply_writes(m: StoreModel, ops: Seq<OperationView>) -> StoreModel
    decreases ops.len(),
{
    if ops.len() == 0 {
        m
    } else {
        apply_op(apply_writes(m, ops.drop_last()), ops.last())
    }
}

/// Applying two lists in turn is applying their concatenation.
pub proof fn lemma_apply_concat(m: StoreModel, a: Seq<OperationView>, b: Seq<OperationView>)
    ensures
        apply_writes(m, a + b) == apply_writes(apply_writes(m, a), b),
    decreases b.len(),
{
    if b.len() == 0 {
        assert(a + b =~= a);
    } else {
        assert((a + b).drop_last() =~= a + b.drop_last());
        assert((a + b).last() == b.last());
        lemma_apply_concat(m, a, b.drop_last());
    }
}

/// The first violated guard of a concatenation lies in its first part if any
/// guard there is violated, else in its second part.
pub proof fn lemma_first_violation_concat(
    m: StoreModel,
    a: Seq<OperationView>,
    b: Seq<OperationView>,
)
    ensures
        first_violation(m, a + b) == (match first_violation(m, a) {
            Some(d) => Some(d),
            None => first_violation(m, b),
        }),
    decreases b.len(),
{
    if b.len() == 0 {
        assert(a + b =~= a);
    } else {
        assert((a + b).drop_last() =~= a + b.drop_last());
        assert((a + b).last() == b.last());
        lemma_first_violation_concat(m, a, b.drop_last());
    }
}

} // verus!
