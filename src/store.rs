//! An in-memory entity store that commits batches atomically.

use crate::batch::{
    apply_writes, entity_exists, first_violation, ops_view, query_matches, violates, CellKey,
    EntityKey, EntityQuery, MetadataOperation, OperationView, StoreModel,
};
use crate::entity::{EntityType, Field, Value};
use vstd::prelude::*;

verus! {

/// Why the store refused a request.
#[derive(Clone, Debug, PartialEq, Eq)]
pub enum StoreError {
    /// A guard of the batch did not hold; carries the guard's description.
    PreconditionViolated(String),
    /// The write at this position of the batch failed; nothing was applied.
    WriteFailed(usize),
    /// A collaborator (for instance the chain store) could not be read.
    Unavailable(String),
}

/// The mathematical content of a [`StoreError`].
pub enum StoreErrorView {
    PreconditionViolated(Seq<char>),
    WriteFailed(usize),
    Unavailable(Seq<char>),
}

impl View for StoreError {
    type V = StoreErrorView;

    open spec fn view(&self) -> StoreErrorView {
        match self {
            StoreError::PreconditionViolated(d) => StoreErrorView::PreconditionViolated(d@),
            StoreError::WriteFailed(k) => StoreErrorView::WriteFailed(*k),
            StoreError::Unavailable(d) => StoreErrorView::Unavailable(d@),
        }
    }
}

/// Why a batch is refused on contents `m`, with the write fault `fault`
/// armed, if it is: the first violated guard, else the armed fault when it
/// falls on a write of the batch.
pub open spec fn commit_error(
    m: StoreModel,
    fault: Option<usize>,
    ops: Seq<OperationView>,
) -> Option<StoreErrorView> {
    match first_violation(m, ops) {
        Some(d) => Some(StoreErrorView::PreconditionViolated(d)),
        None => if fault is Some && fault->0 < ops.len() && ops[fault->0 as int] is Write {
            Some(StoreErrorView::WriteFailed(fault->0))
        } else {
            None
        },
    }
}

struct Cell {
    entity_type: EntityType,
    id: String,
    field: Field,
    value: Value,
}

spec fn cell_key(c: Cell) -> CellKey {
    (c.entity_type, c.id@, c.field)
}

/// Entity store held in memory. A write fault can be armed to make the
/// write at a given position of every later batch fail.
pub struct MemoryStore {
    cells: Vec<Cell>,
    write_fault: Option<usize>,
    model: Ghost<StoreModel>,
}

impl View for MemoryStore {
    type V = StoreModel;

    closed spec fn view(&self) -> StoreModel {
        self.model@
    }
}

impl MemoryStore {
    /// The position of a batch at which writes are made to fail, if any.
    pub closed spec fn fault(&self) -> Option<usize> {
        self.write_fault
    }

    /// The cells and the model agree, and no cell is held twice.
    pub closed spec fn wf(&self) -> bool {
        &&& forall|i: int|
            #![trigger self.cells@[i]]
            0 <= i < self.cells@.len() ==> self.model@.contains_key(cell_key(self.cells@[i]))
                && self.model@[cell_key(self.cells@[i])] == self.cells@[i].value@
        &&& forall|k: CellKey|
            #[trigger] self.model@.contains_key(k) ==> exists|i: int|
                0 <= i < self.cells@.len() && cell_key(#[trigger] self.cells@[i]) == k
        &&& forall|i: int, j: int|
            0 <= i < j < self.cells@.len() ==> cell_key(#[trigger] self.cells@[i]) != cell_key(
                #[trigger] self.cells@[j],
            )
    }

    /// An empty store with no fault armed.
    pub fn new() -> (r: MemoryStore)
        ensures
            r.wf(),
            r@ == StoreModel::empty(),
            r.fault() is None,
    {
        MemoryStore { cells: Vec::new(), write_fault: None, model: Ghost(Map::empty()) }
    }

    /// Arms (or, with `None`, disarms) a failure of the write at position
    /// `at` of every later batch.
    pub fn set_write_fault(&mut self, at: Option<usize>)
        requires
            old(self).wf(),
        ensures
            final(self).wf(),
            final(self)@ == old(self)@,
            final(self).fault() == at,
    {
        self.write_fault = at;
    }

    fn find(&self, t: EntityType, id: &String, field: Field) -> (r: Option<usize>)
        requires
            self.wf(),
        ensures
            match r {
                Some(i) => i < self.cells@.len() && cell_key(self.cells@[i as int]) == (
                    t,
                    id@,
                    field,
                ),
                None => !self@.contains_key((t, id@, field)),
            },
    {
        let mut i: usize = 0;
        while i < self.cells.len()
            invariant
                0 <= i <= self.cells@.len(),
                forall|j: int|
                    0 <= j < i ==> cell_key(#[trigger] self.cells@[j]) != (t, id@, field),
            decreases self.cells@.len() - i,
        {
            let c = &self.cells[i];
            if c.entity_type == t && c.field == field && c.id == *id {
                return Some(i);
            }
            i += 1;
        }
        None
    }

    /// The value held in `field` of the record `key`, if the cell is present.
    pub fn get(&self, key: &EntityKey, field: Field) -> (r: Option<Value>)
        requires
            self.wf(),
        ensures
            match r {
                Some(v) => self@.contains_key((key@.0, key@.1, field)) && self@[(
                    key@.0,
                    key@.1,
                    field,
                )] == v@,
                None => !self@.contains_key((key@.0, key@.1, field)),
            },
    {
        match self.find(key.entity_type, &key.id, field) {
            Some(i) => Some(self.cells[i].value.duplicate()),
            None => None,
        }
    }

    /// Whether the record `key` exists.
    pub fn entity_exists(&self, key: &EntityKey) -> (r: bool)
        requires
            self.wf(),
        ensures
            r == entity_exists(self@, key@.0, key@.1),
    {
        let mut i: usize = 0;
        while i < self.cells.len()
            invariant
                self.wf(),
                0 <= i <= self.cells@.len(),
                forall|j: int|
                    0 <= j < i ==> !(#[trigger] self.cells@[j].entity_type == key.entity_type
                        && self.cells@[j].id@ == key.id@),
            decreases self.cells@.len() - i,
        {
            let c = &self.cells[i];
            if c.entity_type == key.entity_type && c.id == key.id {
                assert(self.model@.contains_key(cell_key(self.cells@[i as int])));
                return true;
            }
            i += 1;
        }
        false
    }

    /// Whether some record matches the query.
    pub fn query_exists(&self, q: &EntityQuery) -> (r: bool)
        requires
            self.wf(),
        ensures
            r == query_matches(self@, q@),
    {
        let mut i: usize = 0;
        while i < self.cells.len()
            invariant
                self.wf(),
                0 <= i <= self.cells@.len(),
                forall|j: int|
                    0 <= j < i ==> !(#[trigger] self.cells@[j].entity_type == q.entity_type
                        && self.cells@[j].field == q.field && self.cells@[j].value@ == q.value@),
            decreases self.cells@.len() - i,
        {
            let c = &self.cells[i];
            if c.entity_type == q.entity_type && c.field == q.field && c.value.same_as(&q.value) {
                assert(self.model@.contains_key(cell_key(self.cells@[i as int])));
                return true;
            }
            i += 1;
        }
        false
    }

    fn upsert(&mut self, t: EntityType, id: &String, field: Field, value: &Value)
        requires
            old(self).wf(),
        ensures
            final(self).wf(),
            final(self)@ == old(self)@.insert((t, id@, field), value@),
            final(self).fault() == old(self).fault(),
    {
        let ghost k: CellKey = (t, id@, field);
        let ghost old_model = self.model@;
        let c = Cell { entity_type: t, id: id.clone(), field, value: value.duplicate() };
        match self.find(t, id, field) {
            Some(i) => {
                self.cells.set(i, c);
                self.model = Ghost(self.model@.insert(k, value@));
                assert forall|k2: CellKey| #[trigger] self.model@.contains_key(k2) implies exists|
                    j: int,
                |
                    0 <= j < self.cells@.len() && cell_key(#[trigger] self.cells@[j]) == k2 by {
                    if k2 == k {
                        assert(cell_key(self.cells@[i as int]) == k2);
                    } else {
                        assert(old_model.contains_key(k2));
                        let j = choose|j: int|
                            0 <= j < old(self).cells@.len() && cell_key(
                                #[trigger] old(self).cells@[j],
                            ) == k2;
                        assert(self.cells@[j] == old(self).cells@[j]);
                    }
                }
            },
            None => {
                self.cells.push(c);
                self.model = Ghost(self.model@.insert(k, value@));
                let ghost n = self.cells@.len() - 1;
                assert forall|k2: CellKey| #[trigger] self.model@.contains_key(k2) implies exists|
                    j: int,
                |
                    0 <= j < self.cells@.len() && cell_key(#[trigger] self.cells@[j]) == k2 by {
                    if k2 == k {
                        assert(cell_key(self.cells@[n]) == k2);
                    } else {
                        assert(old_model.contains_key(k2));
                        let j = choose|j: int|
                            0 <= j < n && cell_key(#[trigger] old(self).cells@[j]) == k2;
                        assert(self.cells@[j] == old(self).cells@[j]);
                    }
                }
            },
        }
    }

    /// Applies a batch as one unit. Every guard is checked against the
    /// contents as they stand before the batch; if one fails, the first that
    /// fails is reported and nothing changes. If the armed write fault falls
    /// on a write of the batch, that write fails and nothing changes either.
    /// Otherwise all writes are applied in order.
    pub fn commit(&mut self, ops: &Vec<MetadataOperation>) -> (r: Result<(), StoreError>)
        requires
            old(self).wf(),
        ensures
            final(self).wf(),
            final(self).fault() == old(self).fault(),
            match r {
                Ok(()) => commit_error(old(self)@, old(self).fault(), ops_view(ops@)) is None
                    && final(self)@ == apply_writes(old(self)@, ops_view(ops@)),
                Err(e) => commit_error(old(self)@, old(self).fault(), ops_view(ops@)) == Some(
                    e@,
                ) && final(self)@ == old(self)@,
            },
    {
        let ghost ov = ops_view(ops@);
        let mut i: usize = 0;
        while i < ops.len()
            invariant
                self.wf(),
                0 <= i <= ops@.len(),
                ov == ops_view(ops@),
                first_violation(self@, ov.take(i as int)) is None,
            decreases ops@.len() - i,
        {
            assert(ov.take(i + 1).drop_last() =~= ov.take(i as int));
            match &ops[i] {
                MetadataOperation::AbortUnless { description, query, expected_empty } => {
                    if self.query_exists(query) == *expected_empty {
                        proof {
                            lemma_first_violation_prefix(self@, ov, i as int);
                        }
                        return Err(StoreError::PreconditionViolated(description.clone()));
                    }
                },
                MetadataOperation::Write { .. } => {},
            }
            i += 1;
        }
        assert(ov.take(ops@.len() as int) =~= ov);
        if let Some(k) = self.write_fault {
            if k < ops.len() && matches!(ops[k], MetadataOperation::Write { .. }) {
                return Err(StoreError::WriteFailed(k));
            }
        }
        let ghost m0 = self@;
        let mut i: usize = 0;
        while i < ops.len()
            invariant
                self.wf(),
                self.fault() == old(self).fault(),
                0 <= i <= ops@.len(),
                ov == ops_view(ops@),
                self@ == apply_writes(m0, ov.take(i as int)),
            decreases ops@.len() - i,
        {
            assert(ov.take(i + 1).drop_last() =~= ov.take(i as int));
            match &ops[i] {
                MetadataOperation::Write { key, field, value } => {
                    self.upsert(key.entity_type, &key.id, *field, value);
                },
                MetadataOperation::AbortUnless { .. } => {},
            }
            i += 1;
        }
        assert(ov.take(ops@.len() as int) =~= ov);
        Ok(())
    }
}

/// When no guard before position `i` is violated and the guard at `i` is,
/// the first violation is the one at `i`.
proof fn lemma_first_violation_prefix(m: StoreModel, ops: Seq<OperationView>, i: int)
    requires
        0 <= i < ops.len(),
        first_violation(m, ops.take(i)) is None,
        violates(m, ops[i]),
    ensures
        first_violation(m, ops) == Some(ops[i]->AbortUnless_description),
    decreases ops.len(),
{
    if i < ops.len() - 1 {
        assert(ops.drop_last().take(i) =~= ops.take(i));
        assert(ops.drop_last()[i] == ops[i]);
        lemma_first_violation_prefix(m, ops.drop_last(), i);
    } else {
        assert(ops.drop_last() =~= ops.take(i));
    }
}

} // verus!
