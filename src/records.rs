//! The record kinds of a registered subgraph and the writes that store them.

use crate::batch::{ops_view, EntityKey, MetadataOperation, OperationView};
use crate::entity::{EntityType, Field, Value, ValueView};
use vstd::prelude::*;

verus! {

/// A write of `v` into field `f` of record `(t, id)`.
pub open spec fn write_view(t: EntityType, id: Seq<char>, f: Field, v: ValueView) -> OperationView {
    OperationView::Write { key: (t, id), field: f, value: v }
}

/// A reference to another record, or nothing.
pub open spec fn ref_view(r: Option<Seq<char>>) -> ValueView {
    match r {
        Some(s) => ValueView::Str(s),
        None => ValueView::Null,
    }
}

/// The content of an optional string.
pub open spec fn opt_view(o: Option<String>) -> Option<Seq<char>> {
    match o {
        Some(s) => Some(s@),
        None => None,
    }
}

/// A block of the chain: its hash and its number.
#[derive(Clone, Debug, PartialEq, Eq)]
pub struct BlockPtr {
    pub hash: String,
    pub number: u64,
}

/// The content of an optional block pointer.
pub open spec fn block_view(b: Option<BlockPtr>) -> Option<(Seq<char>, u64)> {
    match b {
        Some(p) => Some((p.hash@, p.number)),
        None => None,
    }
}

/// The writes that store a subgraph record under `id`.
pub open spec fn subgraph_ops(
    id: Seq<char>,
    name: Seq<char>,
    current: Option<Seq<char>>,
    pending: Option<Seq<char>>,
    created_at: u64,
) -> Seq<OperationView> {
    let t = EntityType::Subgraph;
    seq![
        write_view(t, id, Field::Id, ValueView::Str(id)),
        write_view(t, id, Field::Name, ValueView::Str(name)),
        write_view(t, id, Field::CurrentVersion, ref_view(current)),
        write_view(t, id, Field::PendingVersion, ref_view(pending)),
        write_view(t, id, Field::CreatedAt, ValueView::Int(created_at)),
    ]
}

/// The write that points subgraph `id` at its current version.
pub open spec fn current_version_ops(id: Seq<char>, version: Option<Seq<char>>) -> Seq<
    OperationView,
> {
    seq![write_view(EntityType::Subgraph, id, Field::CurrentVersion, ref_view(version))]
}

/// The write that points subgraph `id` at its pending version.
pub open spec fn pending_version_ops(id: Seq<char>, version: Option<Seq<char>>) -> Seq<
    OperationView,
> {
    seq![write_view(EntityType::Subgraph, id, Field::PendingVersion, ref_view(version))]
}

/// The writes that store a subgraph version record under `id`.
pub open spec fn version_ops(
    id: Seq<char>,
    subgraph: Seq<char>,
    deployment: Seq<char>,
    created_at: u64,
) -> Seq<OperationView> {
    let t = EntityType::SubgraphVersion;
    seq![
        write_view(t, id, Field::Id, ValueView::Str(id)),
        write_view(t, id, Field::Subgraph, ValueView::Str(subgraph)),
        write_view(t, id, Field::Deployment, ValueView::Str(deployment)),
        write_view(t, id, Field::CreatedAt, ValueView::Int(created_at)),
    ]
}

/// The writes that store a deployment record under `id`.
pub open spec fn deployment_ops(
    id: Seq<char>,
    manifest: Seq<char>,
    schema: Seq<char>,
    synced: bool,
    failed: bool,
    head: Option<(Seq<char>, u64)>,
) -> Seq<OperationView> {
    let t = EntityType::SubgraphDeployment;
    seq![
        write_view(t, id, Field::Id, ValueView::Str(id)),
        write_view(t, id, Field::Manifest, ValueView::Str(manifest)),
        write_view(t, id, Field::Schema, ValueView::Str(schema)),
        write_view(t, id, Field::Synced, ValueView::Bool(synced)),
        write_view(t, id, Field::Failed, ValueView::Bool(failed)),
        write_view(
            t,
            id,
            Field::EthereumHeadBlockHash,
            match head {
                Some(b) => ValueView::Str(b.0),
                None => ValueView::Null,
            },
        ),
        write_view(
            t,
            id,
            Field::EthereumHeadBlockNumber,
            match head {
                Some(b) => ValueView::Int(b.1),
                None => ValueView::Null,
            },
        ),
    ]
}

/// The writes that store the assignment of deployment `id` to a node.
pub open spec fn assignment_ops(id: Seq<char>, node_id: Seq<char>) -> Seq<OperationView> {
    let t = EntityType::SubgraphDeploymentAssignment;
    seq![
        write_view(t, id, Field::Id, ValueView::Str(id)),
        write_view(t, id, Field::NodeId, ValueView::Str(node_id)),
    ]
}

fn write_op(t: EntityType, id: &String, field: Field, value: Value) -> (r: MetadataOperation)
    ensures
        r@ == write_view(t, id@, field, value@),
{
    MetadataOperation::Write { key: EntityKey { entity_type: t, id: id.clone() }, field, value }
}

fn ref_value(r: &Option<String>) -> (v: Value)
    ensures
        v@ == ref_view(opt_view(*r)),
{
    match r {
        Some(s) => Value::Str(s.clone()),
        None => Value::Null,
    }
}

/// Appends `op` to `ops`.
fn push_op(ops: &mut Vec<MetadataOperation>, op: MetadataOperation)
    ensures
        ops_view(final(ops)@) == ops_view(old(ops)@).push(op@),
{
    ops.push(op);
    assert(ops_view(ops@) =~= ops_view(old(ops)@).push(op@));
}

/// A subgraph: a named registration that points at its versions.
#[derive(Clone, Debug)]
pub struct SubgraphEntity {
    pub name: String,
    pub current_version: Option<String>,
    pub pending_version: Option<String>,
    pub created_at: u64,
}

impl SubgraphEntity {
    pub fn new(
        name: String,
        current_version: Option<String>,
        pending_version: Option<String>,
        created_at: u64,
    ) -> (r: SubgraphEntity)
        ensures
            r.name == name,
            r.current_version == current_version,
            r.pending_version == pending_version,
            r.created_at == created_at,
    {
        SubgraphEntity { name, current_version, pending_version, created_at }
    }

    /// The writes that store this record under `id`.
    pub fn write_operations(&self, id: &String) -> (r: Vec<MetadataOperation>)
        ensures
            ops_view(r@) == subgraph_ops(
                id@,
                self.name@,
                opt_view(self.current_version),
                opt_view(self.pending_version),
                self.created_at,
            ),
    {
        let t = EntityType::Subgraph;
        let mut ops: Vec<MetadataOperation> = Vec::new();
        push_op(&mut ops, write_op(t, id, Field::Id, Value::Str(id.clone())));
        push_op(&mut ops, write_op(t, id, Field::Name, Value::Str(self.name.clone())));
        push_op(&mut ops, write_op(t, id, Field::CurrentVersion, ref_value(&self.current_version)));
        push_op(&mut ops, write_op(t, id, Field::PendingVersion, ref_value(&self.pending_version)));
        push_op(&mut ops, write_op(t, id, Field::CreatedAt, Value::Int(self.created_at)));
        assert(ops_view(ops@) =~= subgraph_ops(
            id@,
            self.name@,
            opt_view(self.current_version),
            opt_view(self.pending_version),
            self.created_at,
        ));
        ops
    }

    /// The write that makes `version` the current version of subgraph `id`.
    pub fn update_current_version_operations(id: &String, version: Option<String>) -> (r: Vec<
        MetadataOperation,
    >)
        ensures
            ops_view(r@) == current_version_ops(id@, opt_view(version)),
    {
        let mut ops: Vec<MetadataOperation> = Vec::new();
        push_op(
            &mut ops,
            write_op(EntityType::Subgraph, id, Field::CurrentVersion, ref_value(&version)),
        );
        assert(ops_view(ops@) =~= current_version_ops(id@, opt_view(version)));
        ops
    }

    /// The write that makes `version` the pending version of subgraph `id`.
    pub fn update_pending_version_operations(id: &String, version: Option<String>) -> (r: Vec<
        MetadataOperation,
    >)
        ensures
            ops_view(r@) == pending_version_ops(id@, opt_view(version)),
    {
        let mut ops: Vec<MetadataOperation> = Vec::new();
        push_op(
            &mut ops,
            write_op(EntityType::Subgraph, id, Field::PendingVersion, ref_value(&version)),
        );
        assert(ops_view(ops@) =~= pending_version_ops(id@, opt_view(version)));
        ops
    }
}

/// A version of a subgraph, bound to one deployment.
#[derive(Clone, Debug)]
pub struct SubgraphVersionEntity {
    pub subgraph: String,
    pub deployment: String,
    pub created_at: u64,
}

impl SubgraphVersionEntity {
    pub fn new(subgraph: String, deployment: String, created_at: u64) -> (r:
        SubgraphVersionEntity)
        ensures
            r.subgraph == subgraph,
            r.deployment == deployment,
            r.created_at == created_at,
    {
        SubgraphVersionEntity { subgraph, deployment, created_at }
    }

    /// The writes that store this record under `id`.
    pub fn write_operations(&self, id: &String) -> (r: Vec<MetadataOperation>)
        ensures
            ops_view(r@) == version_ops(id@, self.subgraph@, self.deployment@, self.created_at),
    {
        let t = EntityType::SubgraphVersion;
        let mut ops: Vec<MetadataOperation> = Vec::new();
        push_op(&mut ops, write_op(t, id, Field::Id, Value::Str(id.clone())));
        push_op(&mut ops, write_op(t, id, Field::Subgraph, Value::Str(self.subgraph.clone())));
        push_op(&mut ops, write_op(t, id, Field::Deployment, Value::Str(self.deployment.clone())));
        push_op(&mut ops, write_op(t, id, Field::CreatedAt, Value::Int(self.created_at)));
        assert(ops_view(ops@) =~= version_ops(
            id@,
            self.subgraph@,
            self.deployment@,
            self.created_at,
        ));
        ops
    }
}

/// A deployment: the schema of a subgraph and the state of its indexing.
#[derive(Clone, Debug)]
pub struct SubgraphDeploymentEntity {
    pub manifest: String,
    pub schema: String,
    pub synced: bool,
    pub failed: bool,
    pub ethereum_head_block: Option<BlockPtr>,
}

impl SubgraphDeploymentEntity {
    pub fn new(
        manifest: String,
        schema: String,
        synced: bool,
        failed: bool,
        ethereum_head_block: Option<BlockPtr>,
    ) -> (r: SubgraphDeploymentEntity)
        ensures
            r.manifest == manifest,
            r.schema == schema,
            r.synced == synced,
            r.failed == failed,
            r.ethereum_head_block == ethereum_head_block,
    {
        SubgraphDeploymentEntity { manifest, schema, synced, failed, ethereum_head_block }
    }

    /// The writes that create this record under `id`.
    pub fn create_operations(&self, id: &String) -> (r: Vec<MetadataOperation>)
        ensures
            ops_view(r@) == deployment_ops(
                id@,
                self.manifest@,
                self.schema@,
                self.synced,
                self.failed,
                block_view(self.ethereum_head_block),
            ),
    {
        let t = EntityType::SubgraphDeployment;
        let mut ops: Vec<MetadataOperation> = Vec::new();
        push_op(&mut ops, write_op(t, id, Field::Id, Value::Str(id.clone())));
        push_op(&mut ops, write_op(t, id, Field::Manifest, Value::Str(self.manifest.clone())));
        push_op(&mut ops, write_op(t, id, Field::Schema, Value::Str(self.schema.clone())));
        push_op(&mut ops, write_op(t, id, Field::Synced, Value::Bool(self.synced)));
        push_op(&mut ops, write_op(t, id, Field::Failed, Value::Bool(self.failed)));
        let (hash, number) = match &self.ethereum_head_block {
            Some(b) => (Value::Str(b.hash.clone()), Value::Int(b.number)),
            None => (Value::Null, Value::Null),
        };
        push_op(&mut ops, write_op(t, id, Field::EthereumHeadBlockHash, hash));
        push_op(&mut ops, write_op(t, id, Field::EthereumHeadBlockNumber, number));
        assert(ops_view(ops@) =~= deployment_ops(
            id@,
            self.manifest@,
            self.schema@,
            self.synced,
            self.failed,
            block_view(self.ethereum_head_block),
        ));
        ops
    }
}

/// The assignment of a deployment to the node that indexes it.
#[derive(Clone, Debug)]
pub struct SubgraphDeploymentAssignmentEntity {
    pub node_id: String,
}

impl SubgraphDeploymentAssignmentEntity {
    pub fn new(node_id: String) -> (r: SubgraphDeploymentAssignmentEntity)
        ensures
            r.node_id == node_id,
    {
        SubgraphDeploymentAssignmentEntity { node_id }
    }

    /// The writes that store this record for deployment `id`.
    pub fn write_operations(&self, id: &String) -> (r: Vec<MetadataOperation>)
        ensures
            ops_view(r@) == assignment_ops(id@, self.node_id@),
    {
        let t = EntityType::SubgraphDeploymentAssignment;
        let mut ops: Vec<MetadataOperation> = Vec::new();
        push_op(&mut ops, write_op(t, id, Field::Id, Value::Str(id.clone())));
        push_op(&mut ops, write_op(t, id, Field::NodeId, Value::Str(self.node_id.clone())));
        assert(ops_view(ops@) =~= assignment_ops(id@, self.node_id@));
        ops
    }
}

} // verus!
