//! Record kinds, field names and values held by the entity store.

use vstd::prelude::*;

verus! {

/// The four record kinds that make up one registered subgraph.
#[derive(Clone, Copy, Debug, PartialEq, Eq, Structural)]
pub enum EntityType {
    Subgraph,
    SubgraphVersion,
    SubgraphDeployment,
    SubgraphDeploymentAssignment,
}

/// The attributes that the records carry.
#[derive(Clone, Copy, Debug, PartialEq, Eq, Structural)]
pub enum Field {
    Id,
    Name,
    CurrentVersion,
    PendingVersion,
    CreatedAt,
    Subgraph,
    Deployment,
    Manifest,
    Schema,
    Synced,
    Failed,
    EthereumHeadBlockHash,
    EthereumHeadBlockNumber,
    NodeId,
}

/// A value stored in one field of a record.
#[derive(Clone, Debug, PartialEq, Eq)]
pub enum Value {
    Null,
    Str(String),
    Int(u64),
    Bool(bool),
}

/// The mathematical content of a [`Value`].
pub enum ValueView {
    Null,
    Str(Seq<char>),
    Int(u64),
    Bool(bool),
}

impl View for Value {
    type V = ValueView;

    open spec fn view(&self) -> ValueView {
        match self {
            Value::Null => ValueView::Null,
            Value::Str(s) => ValueView::Str(s@),
            Value::Int(n) => ValueView::Int(*n),
            Value::Bool(b) => ValueView::Bool(*b),
        }
    }
}

impl Value {
    /// A copy of this value with the same content.
    pub fn duplicate(&self) -> (r: Value)
        ensures
            r@ == self@,
    {
        match self {
            Value::Null => Value::Null,
            Value::Str(s) => Value::Str(s.clone()),
            Value::Int(n) => Value::Int(*n),
            Value::Bool(b) => Value::Bool(*b),
        }
    }

    /// Whether two values have the same content.
    pub fn same_as(&self, other: &Value) -> (r: bool)
        ensures
            r == (self@ == other@),
    {
        match self {
            Value::Null => match other {
                Value::Null => true,
                _ => false,
            },
            Value::Str(a) => match other {
                Value::Str(b) => *a == *b,
                _ => false,
            },
            Value::Int(a) => match other {
                Value::Int(b) => *a == *b,
                _ => false,
            },
            Value::Bool(a) => match other {
                Value::Bool(b) => *a == *b,
                _ => false,
            },
        }
    }
}

} // verus!
