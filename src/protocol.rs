//! Registration of a subgraph: one guarded batch that creates the subgraph,
//! its version, its deployment and the deployment's assignment together.

use crate::batch::{
    apply_writes, entity_exists, ops_view, EntityKey, EntityQuery, MetadataOperation,
    OperationView,
};
use crate::entity::{EntityType, Field, Value, ValueView};
use crate::records::{
    assignment_ops, block_view, current_version_ops, deployment_ops, pending_version_ops,
    subgraph_ops, version_ops, BlockPtr, SubgraphDeploymentAssignmentEntity,
    SubgraphDeploymentEntity, SubgraphEntity, SubgraphVersionEntity,
};
use crate::store::{commit_error, MemoryStore, StoreError};
use vstd::prelude::*;

verus! {

/// The guard that no record of kind `t` holds `v` in field `f`.
pub open spec fn absent_view(
    description: Seq<char>,
    t: EntityType,
    f: Field,
    v: ValueView,
) -> OperationView {
    OperationView::AbortUnless { description, query: (t, f, v), expected_empty: true }
}

pub open spec fn subgraph_exists_message() -> Seq<char> {
    "Subgraph entity should not exist"@
}

pub open spec fn version_exists_message() -> Seq<char> {
    "Subgraph version should not exist"@
}

pub open spec fn deployment_exists_message() -> Seq<char> {
    "Subgraph deployment entity must not exist"@
}

/// The guard that no subgraph is named `name`.
pub open spec fn subgraph_guard(name: Seq<char>) -> OperationView {
    absent_view(subgraph_exists_message(), EntityType::Subgraph, Field::Name, ValueView::Str(name))
}

/// The guard that no version has id `id`.
pub open spec fn version_guard(id: Seq<char>) -> OperationView {
    absent_view(
        version_exists_message(),
        EntityType::SubgraphVersion,
        Field::Id,
        ValueView::Str(id),
    )
}

/// The guard that no deployment has id `id`.
pub open spec fn deployment_guard(id: Seq<char>) -> OperationView {
    absent_view(
        deployment_exists_message(),
        EntityType::SubgraphDeployment,
        Field::Id,
        ValueView::Str(id),
    )
}

/// The batch that registers subgraph `name` with deployment `id`: the
/// subgraph record is stored under `entity_id`, the version and the
/// deployment under `id`, and the new version is made current at once.
pub open spec fn creation_ops(
    name: Seq<char>,
    id: Seq<char>,
    entity_id: Seq<char>,
    created_at: u64,
    schema: Seq<char>,
    node_id: Seq<char>,
    head: Option<(Seq<char>, u64)>,
) -> Seq<OperationView> {
    seq![subgraph_guard(name)] + subgraph_ops(entity_id, name, None, None, created_at)
        + seq![version_guard(id)] + version_ops(id, entity_id, id, created_at)
        + pending_version_ops(entity_id, None) + current_version_ops(entity_id, Some(id))
        + seq![deployment_guard(id)] + deployment_ops(id, name, schema, false, false, head)
        + assignment_ops(id, node_id)
}

/// The node that a new deployment is assigned to unless the caller names one.
pub fn default_node_id() -> (r: String)
    ensures
        r@ == "__builtin"@,
{
    "__builtin".to_string()
}

fn extend_ops(ops: &mut Vec<MetadataOperation>, more: Vec<MetadataOperation>)
    ensures
        ops_view(final(ops)@) == ops_view(old(ops)@) + ops_view(more@),
{
    let ghost added = more@;
    let mut more = more;
    ops.append(&mut more);
    assert(ops_view(ops@) =~= ops_view(old(ops)@) + ops_view(added));
}

fn absent_op(description: &str, t: EntityType, f: Field, v: &String) -> (r: MetadataOperation)
    ensures
        r@ == absent_view(description@, t, f, ValueView::Str(v@)),
{
    MetadataOperation::AbortUnless {
        description: description.to_string(),
        query: EntityQuery { entity_type: t, field: f, value: Value::Str(v.clone()) },
        expected_empty: true,
    }
}

/// Whether deployment `subgraph_id` is already registered in `store`.
pub fn check_subgraph_exists(store: &MemoryStore, subgraph_id: &String) -> (r: bool)
    requires
        store.wf(),
    ensures
        r == entity_exists(store@, EntityType::SubgraphDeployment, subgraph_id@),
{
    let key = EntityKey { entity_type: EntityType::SubgraphDeployment, id: subgraph_id.clone() };
    store.entity_exists(&key)
}

/// Builds the batch that registers subgraph `subgraph_name` with deployment
/// `subgraph_id`.
pub fn creation_operations(
    subgraph_name: &String,
    subgraph_id: &String,
    subgraph_entity_id: &String,
    created_at: u64,
    schema: &String,
    node_id: &String,
    chain_head: Option<BlockPtr>,
) -> (r: Vec<MetadataOperation>)
    ensures
        ops_view(r@) == creation_ops(
            subgraph_name@,
            subgraph_id@,
            subgraph_entity_id@,
            created_at,
            schema@,
            node_id@,
            block_view(chain_head),
        ),
{
    let mut ops: Vec<MetadataOperation> = Vec::new();
    let subgraph_guard = absent_op(
        "Subgraph entity should not exist",
        EntityType::Subgraph,
        Field::Name,
        subgraph_name,
    );
    extend_ops(&mut ops, vec![subgraph_guard]);
    let subgraph = SubgraphEntity::new(subgraph_name.clone(), None, None, created_at);
    extend_ops(&mut ops, subgraph.write_operations(subgraph_entity_id));

    // The version shares the deployment's id, so one id finds both.
    let version_guard = absent_op(
        "Subgraph version should not exist",
        EntityType::SubgraphVersion,
        Field::Id,
        subgraph_id,
    );
    extend_ops(&mut ops, vec![version_guard]);
    let version = SubgraphVersionEntity::new(
        subgraph_entity_id.clone(),
        subgraph_id.clone(),
        created_at,
    );
    extend_ops(&mut ops, version.write_operations(subgraph_id));

    // The new version becomes the current one within the same batch.
    extend_ops(
        &mut ops,
        SubgraphEntity::update_pending_version_operations(subgraph_entity_id, None),
    );
    extend_ops(
        &mut ops,
        SubgraphEntity::update_current_version_operations(
            subgraph_entity_id,
            Some(subgraph_id.clone()),
        ),
    );

    let deployment_guard = absent_op(
        "Subgraph deployment entity must not exist",
        EntityType::SubgraphDeployment,
        Field::Id,
        subgraph_id,
    );
    extend_ops(&mut ops, vec![deployment_guard]);
    let deployment = SubgraphDeploymentEntity::new(
        subgraph_name.clone(),
        schema.clone(),
        false,
        false,
        chain_head,
    );
    extend_ops(&mut ops, deployment.create_operations(subgraph_id));
    let assignment = SubgraphDeploymentAssignmentEntity::new(node_id.clone());
    extend_ops(&mut ops, assignment.write_operations(subgraph_id));
    ops
}

/// Registers subgraph `subgraph_name` with deployment `subgraph_id` in one
/// atomic batch. `subgraph_entity_id` is a fresh key for the subgraph record,
/// `created_at` the time in seconds since the epoch, `node_id` the node the
/// deployment is assigned to, and `chain_head` the outcome of reading the
/// chain's head block. If that read failed, its error is returned and
/// nothing is submitted; otherwise the store commits the whole batch or
/// none of it.
pub fn create_subgraph(
    store: &mut MemoryStore,
    subgraph_name: &String,
    subgraph_id: &String,
    subgraph_entity_id: &String,
    created_at: u64,
    schema: &String,
    node_id: &String,
    chain_head: Result<Option<BlockPtr>, StoreError>,
) -> (r: Result<(), StoreError>)
    requires
        old(store).wf(),
    ensures
        final(store).wf(),
        final(store).fault() == old(store).fault(),
        match chain_head {
            Err(e) => r == Err::<(), StoreError>(e) && final(store)@ == old(store)@,
            Ok(head) => {
                let ops = creation_ops(
                    subgraph_name@,
                    subgraph_id@,
                    subgraph_entity_id@,
                    created_at,
                    schema@,
                    node_id@,
                    block_view(head),
                );
                match r {
                    Ok(()) => commit_error(old(store)@, old(store).fault(), ops) is None
                        && final(store)@ == apply_writes(old(store)@, ops),
                    Err(e) => commit_error(old(store)@, old(store).fault(), ops) == Some(e@)
                        && final(store)@ == old(store)@,
                }
            },
        },
{
    let head = match chain_head {
        Ok(head) => head,
        Err(e) => return Err(e),
    };
    let ops = creation_operations(
        subgraph_name,
        subgraph_id,
        subgraph_entity_id,
        created_at,
        schema,
        node_id,
        head,
    );
    store.commit(&ops)
}

} // verus!
