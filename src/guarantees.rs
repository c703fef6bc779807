//! What a creation batch does to a store, and the laws that follow.

use crate::batch::{
    apply_writes, entity_exists, first_violation, lemma_apply_concat,
    lemma_first_violation_concat, query_matches, violates, OperationView, StoreModel,
};
use crate::entity::{EntityType, Field, ValueView};
use crate::protocol::{
    creation_ops, deployment_exists_message, deployment_guard, subgraph_exists_message,
    subgraph_guard, version_exists_message, version_guard,
};
use crate::store::{commit_error, StoreErrorView};
use crate::records::{
    assignment_ops, current_version_ops, deployment_ops, pending_version_ops, ref_view,
    subgraph_ops, version_ops,
};
use vstd::prelude::*;

verus! {

proof fn lemma_guard(m: StoreModel, g: OperationView)
    requires
        g is AbortUnless,
    ensures
        apply_writes(m, seq![g]) == m,
        first_violation(m, seq![g]) == if violates(m, g) {
            Some(g->AbortUnless_description)
        } else {
            None
        },
{
    reveal_with_fuel(apply_writes, 2);
    reveal_with_fuel(first_violation, 2);
}

proof fn lemma_subgraph_piece(
    m: StoreModel,
    id: Seq<char>,
    name: Seq<char>,
    current: Option<Seq<char>>,
    pending: Option<Seq<char>>,
    created_at: u64,
)
    ensures
        first_violation(m, subgraph_ops(id, name, current, pending, created_at)) is None,
        apply_writes(m, subgraph_ops(id, name, current, pending, created_at)) == m.insert(
            (EntityType::Subgraph, id, Field::Id),
            ValueView::Str(id),
        ).insert((EntityType::Subgraph, id, Field::Name), ValueView::Str(name)).insert(
            (EntityType::Subgraph, id, Field::CurrentVersion),
            ref_view(current),
        ).insert((EntityType::Subgraph, id, Field::PendingVersion), ref_view(pending)).insert(
            (EntityType::Subgraph, id, Field::CreatedAt),
            ValueView::Int(created_at),
        ),
{
    reveal_with_fuel(apply_writes, 6);
    reveal_with_fuel(first_violation, 6);
}

proof fn lemma_version_piece(
    m: StoreModel,
    id: Seq<char>,
    subgraph: Seq<char>,
    deployment: Seq<char>,
    created_at: u64,
)
    ensures
        first_violation(m, version_ops(id, subgraph, deployment, created_at)) is None,
        apply_writes(m, version_ops(id, subgraph, deployment, created_at)) == m.insert(
            (EntityType::SubgraphVersion, id, Field::Id),
            ValueView::Str(id),
        ).insert(
            (EntityType::SubgraphVersion, id, Field::Subgraph),
            ValueView::Str(subgraph),
        ).insert(
            (EntityType::SubgraphVersion, id, Field::Deployment),
            ValueView::Str(deployment),
        ).insert((EntityType::SubgraphVersion, id, Field::CreatedAt), ValueView::Int(created_at)),
{
    reveal_with_fuel(apply_writes, 5);
    reveal_with_fuel(first_violation, 5);
}

proof fn lemma_pointer_pieces(m: StoreModel, id: Seq<char>, version: Option<Seq<char>>)
    ensures
        first_violation(m, pending_version_ops(id, version)) is None,
        first_violation(m, current_version_ops(id, version)) is None,
        apply_writes(m, pending_version_ops(id, version)) == m.insert(
            (EntityType::Subgraph, id, Field::PendingVersion),
            ref_view(version),
        ),
        apply_writes(m, current_version_ops(id, version)) == m.insert(
            (EntityType::Subgraph, id, Field::CurrentVersion),
            ref_view(version),
        ),
{
    reveal_with_fuel(apply_writes, 2);
    reveal_with_fuel(first_violation, 2);
}

proof fn lemma_deployment_piece(
    m: StoreModel,
    id: Seq<char>,
    manifest: Seq<char>,
    schema: Seq<char>,
    synced: bool,
    failed: bool,
    head: Option<(Seq<char>, u64)>,
)
    ensures
        first_violation(m, deployment_ops(id, manifest, schema, synced, failed, head)) is None,
        ({
            let m1 = apply_writes(m, deployment_ops(id, manifest, schema, synced, failed, head));
            let t = EntityType::SubgraphDeployment;
            &&& m1.contains_key((t, id, Field::Id)) && m1[(t, id, Field::Id)] == ValueView::Str(id)
            &&& m1.contains_key((t, id, Field::Synced)) && m1[(t, id, Field::Synced)]
                == ValueView::Bool(synced)
            &&& m1.contains_key((t, id, Field::Failed)) && m1[(t, id, Field::Failed)]
                == ValueView::Bool(failed)
            &&& forall|k: (EntityType, Seq<char>, Field)|
                k.0 != t ==> m1.contains_key(k) == m.contains_key(k) && m1[k] == m[k]
        }),
{
    reveal_with_fuel(apply_writes, 8);
    reveal_with_fuel(first_violation, 8);
}

proof fn lemma_assignment_piece(m: StoreModel, id: Seq<char>, node_id: Seq<char>)
    ensures
        first_violation(m, assignment_ops(id, node_id)) is None,
        apply_writes(m, assignment_ops(id, node_id)) == m.insert(
            (EntityType::SubgraphDeploymentAssignment, id, Field::Id),
            ValueView::Str(id),
        ).insert(
            (EntityType::SubgraphDeploymentAssignment, id, Field::NodeId),
            ValueView::Str(node_id),
        ),
{
    reveal_with_fuel(apply_writes, 3);
    reveal_with_fuel(first_violation, 3);
}

/// The first violated guard of a creation batch: the subgraph's name is
/// taken, else the version id is taken, else the deployment id is taken.
proof fn lemma_creation_guards(
    m: StoreModel,
    name: Seq<char>,
    id: Seq<char>,
    entity_id: Seq<char>,
    created_at: u64,
    schema: Seq<char>,
    node_id: Seq<char>,
    head: Option<(Seq<char>, u64)>,
)
    ensures
        first_violation(m, creation_ops(name, id, entity_id, created_at, schema, node_id, head))
            == if query_matches(m, (EntityType::Subgraph, Field::Name, ValueView::Str(name))) {
            Some(subgraph_exists_message())
        } else if query_matches(m, (EntityType::SubgraphVersion, Field::Id, ValueView::Str(id))) {
            Some(version_exists_message())
        } else if query_matches(
            m,
            (EntityType::SubgraphDeployment, Field::Id, ValueView::Str(id)),
        ) {
            Some(deployment_exists_message())
        } else {
            None
        },
{
    let g1 = subgraph_guard(name);
    let g2 = version_guard(id);
    let g3 = deployment_guard(id);
    let p2 = subgraph_ops(entity_id, name, None, None, created_at);
    let p4 = version_ops(id, entity_id, id, created_at);
    let p5 = pending_version_ops(entity_id, None);
    let p6 = current_version_ops(entity_id, Some(id));
    let p8 = deployment_ops(id, name, schema, false, false, head);
    let p9 = assignment_ops(id, node_id);
    let s1 = seq![g1];
    let s2 = s1 + p2;
    let s3 = s2 + seq![g2];
    let s4 = s3 + p4;
    let s5 = s4 + p5;
    let s6 = s5 + p6;
    let s7 = s6 + seq![g3];
    let s8 = s7 + p8;
    lemma_guard(m, g1);
    lemma_guard(m, g2);
    lemma_guard(m, g3);
    lemma_subgraph_piece(m, entity_id, name, None, None, created_at);
    lemma_version_piece(m, id, entity_id, id, created_at);
    lemma_pointer_pieces(m, entity_id, None);
    lemma_pointer_pieces(m, entity_id, Some(id));
    lemma_deployment_piece(m, id, name, schema, false, false, head);
    lemma_assignment_piece(m, id, node_id);
    lemma_first_violation_concat(m, s1, p2);
    lemma_first_violation_concat(m, s2, seq![g2]);
    lemma_first_violation_concat(m, s3, p4);
    lemma_first_violation_concat(m, s4, p5);
    lemma_first_violation_concat(m, s5, p6);
    lemma_first_violation_concat(m, s6, seq![g3]);
    lemma_first_violation_concat(m, s7, p8);
    lemma_first_violation_concat(m, s8, p9);
}

/// What the writes of a creation batch leave in the store.
proof fn lemma_creation_writes(
    m: StoreModel,
    name: Seq<char>,
    id: Seq<char>,
    entity_id: Seq<char>,
    created_at: u64,
    schema: Seq<char>,
    node_id: Seq<char>,
    head: Option<(Seq<char>, u64)>,
)
    ensures
        ({
            let m1 = apply_writes(
                m,
                creation_ops(name, id, entity_id, created_at, schema, node_id, head),
            );
            let s = EntityType::Subgraph;
            let v = EntityType::SubgraphVersion;
            let d = EntityType::SubgraphDeployment;
            let a = EntityType::SubgraphDeploymentAssignment;
            &&& m1.contains_key((s, entity_id, Field::Name))
            &&& m1[(s, entity_id, Field::Name)] == ValueView::Str(name)
            &&& m1.contains_key((s, entity_id, Field::CurrentVersion))
            &&& m1[(s, entity_id, Field::CurrentVersion)] == ValueView::Str(id)
            &&& m1.contains_key((s, entity_id, Field::PendingVersion))
            &&& m1[(s, entity_id, Field::PendingVersion)] == ValueView::Null
            &&& m1.contains_key((v, id, Field::Id))
            &&& m1[(v, id, Field::Id)] == ValueView::Str(id)
            &&& m1.contains_key((v, id, Field::Subgraph))
            &&& m1[(v, id, Field::Subgraph)] == ValueView::Str(entity_id)
            &&& m1.contains_key((v, id, Field::Deployment))
            &&& m1[(v, id, Field::Deployment)] == ValueView::Str(id)
            &&& m1.contains_key((d, id, Field::Id))
            &&& m1[(d, id, Field::Id)] == ValueView::Str(id)
            &&& m1.contains_key((d, id, Field::Synced))
            &&& m1[(d, id, Field::Synced)] == ValueView::Bool(false)
            &&& m1.contains_key((d, id, Field::Failed))
            &&& m1[(d, id, Field::Failed)] == ValueView::Bool(false)
            &&& m1.contains_key((a, id, Field::Id))
            &&& m1[(a, id, Field::Id)] == ValueView::Str(id)
            &&& m1.contains_key((a, id, Field::NodeId))
            &&& m1[(a, id, Field::NodeId)] == ValueView::Str(node_id)
        }),
{
    let g1 = subgraph_guard(name);
    let g2 = version_guard(id);
    let g3 = deployment_guard(id);
    let p2 = subgraph_ops(entity_id, name, None, None, created_at);
    let p4 = version_ops(id, entity_id, id, created_at);
    let p5 = pending_version_ops(entity_id, None);
    let p6 = current_version_ops(entity_id, Some(id));
    let p8 = deployment_ops(id, name, schema, false, false, head);
    let p9 = assignment_ops(id, node_id);
    let s1 = seq![g1];
    let s2 = s1 + p2;
    let s3 = s2 + seq![g2];
    let s4 = s3 + p4;
    let s5 = s4 + p5;
    let s6 = s5 + p6;
    let s7 = s6 + seq![g3];
    let s8 = s7 + p8;
    lemma_apply_concat(m, s1, p2);
    lemma_apply_concat(m, s2, seq![g2]);
    lemma_apply_concat(m, s3, p4);
    lemma_apply_concat(m, s4, p5);
    lemma_apply_concat(m, s5, p6);
    lemma_apply_concat(m, s6, seq![g3]);
    lemma_apply_concat(m, s7, p8);
    lemma_apply_concat(m, s8, p9);
    let m1 = apply_writes(m, s1);
    lemma_guard(m, g1);
    let m2 = apply_writes(m1, p2);
    lemma_subgraph_piece(m1, entity_id, name, None, None, created_at);
    let m3 = apply_writes(m2, seq![g2]);
    lemma_guard(m2, g2);
    let m4 = apply_writes(m3, p4);
    lemma_version_piece(m3, id, entity_id, id, created_at);
    let m5 = apply_writes(m4, p5);
    lemma_pointer_pieces(m4, entity_id, None);
    let m6 = apply_writes(m5, p6);
    lemma_pointer_pieces(m5, entity_id, Some(id));
    let m7 = apply_writes(m6, seq![g3]);
    lemma_guard(m6, g3);
    let m8 = apply_writes(m7, p8);
    lemma_deployment_piece(m7, id, name, schema, false, false, head);
    let m9 = apply_writes(m8, p9);
    lemma_assignment_piece(m8, id, node_id);
    assert(m8[(EntityType::Subgraph, entity_id, Field::CurrentVersion)] == ValueView::Str(id));
    assert(m8[(EntityType::SubgraphVersion, id, Field::Deployment)] == ValueView::Str(id));
}

/// A failure of any single write of a creation batch makes the store refuse
/// the whole batch. By the contract of `create_subgraph` the store then
/// stays as it was: no record of the batch is created or changed.
pub proof fn creation_refused_on_write_fault(
    m: StoreModel,
    at: usize,
    name: Seq<char>,
    id: Seq<char>,
    entity_id: Seq<char>,
    created_at: u64,
    schema: Seq<char>,
    node_id: Seq<char>,
    head: Option<(Seq<char>, u64)>,
)
    requires
        at < creation_ops(name, id, entity_id, created_at, schema, node_id, head).len(),
        creation_ops(name, id, entity_id, created_at, schema, node_id, head)[at as int] is Write,
    ensures
        commit_error(
            m,
            Some(at),
            creation_ops(name, id, entity_id, created_at, schema, node_id, head),
        ) is Some,
{
}

/// Once subgraph `name` with deployment `id` has been created, a second
/// creation with the same name and id is refused by the guard that the
/// subgraph must not exist yet.
pub proof fn duplicate_creation_rejected(
    m: StoreModel,
    fault: Option<usize>,
    name: Seq<char>,
    id: Seq<char>,
    entity_id1: Seq<char>,
    created_at1: u64,
    schema1: Seq<char>,
    node_id1: Seq<char>,
    head1: Option<(Seq<char>, u64)>,
    entity_id2: Seq<char>,
    created_at2: u64,
    schema2: Seq<char>,
    node_id2: Seq<char>,
    head2: Option<(Seq<char>, u64)>,
)
    requires
        commit_error(
            m,
            fault,
            creation_ops(name, id, entity_id1, created_at1, schema1, node_id1, head1),
        ) is None,
    ensures
        commit_error(
            apply_writes(
                m,
                creation_ops(name, id, entity_id1, created_at1, schema1, node_id1, head1),
            ),
            fault,
            creation_ops(name, id, entity_id2, created_at2, schema2, node_id2, head2),
        ) == Some(StoreErrorView::PreconditionViolated(subgraph_exists_message())),
{
    let m1 = apply_writes(
        m,
        creation_ops(name, id, entity_id1, created_at1, schema1, node_id1, head1),
    );
    lemma_creation_writes(m, name, id, entity_id1, created_at1, schema1, node_id1, head1);
    lemma_creation_guards(m1, name, id, entity_id2, created_at2, schema2, node_id2, head2);
    assert(m1.contains_key((EntityType::Subgraph, entity_id1, Field::Name)));
}

/// After a creation, the subgraph's current version is the version record
/// `id`, which exists and points at the deployment record `id`, which exists
/// and is neither synced nor failed; and deployment `id` has its assignment
/// record, which names `node_id`. Records are keyed, so there is one of each.
pub proof fn creation_links_records(
    m: StoreModel,
    name: Seq<char>,
    id: Seq<char>,
    entity_id: Seq<char>,
    created_at: u64,
    schema: Seq<char>,
    node_id: Seq<char>,
    head: Option<(Seq<char>, u64)>,
)
    ensures
        ({
            let m1 = apply_writes(
                m,
                creation_ops(name, id, entity_id, created_at, schema, node_id, head),
            );
            &&& m1[(EntityType::Subgraph, entity_id, Field::Name)] == ValueView::Str(name)
            &&& m1[(EntityType::Subgraph, entity_id, Field::CurrentVersion)] == ValueView::Str(id)
            &&& m1[(EntityType::Subgraph, entity_id, Field::PendingVersion)] == ValueView::Null
            &&& entity_exists(m1, EntityType::SubgraphVersion, id)
            &&& m1[(EntityType::SubgraphVersion, id, Field::Subgraph)] == ValueView::Str(
                entity_id,
            )
            &&& m1[(EntityType::SubgraphVersion, id, Field::Deployment)] == ValueView::Str(id)
            &&& entity_exists(m1, EntityType::SubgraphDeployment, id)
            &&& m1[(EntityType::SubgraphDeployment, id, Field::Synced)] == ValueView::Bool(false)
            &&& m1[(EntityType::SubgraphDeployment, id, Field::Failed)] == ValueView::Bool(false)
            &&& entity_exists(m1, EntityType::SubgraphDeploymentAssignment, id)
            &&& m1[(EntityType::SubgraphDeploymentAssignment, id, Field::NodeId)]
                == ValueView::Str(node_id)
        }),
{
    lemma_creation_writes(m, name, id, entity_id, created_at, schema, node_id, head);
    let m1 = apply_writes(m, creation_ops(name, id, entity_id, created_at, schema, node_id, head));
    assert(m1.contains_key((EntityType::SubgraphVersion, id, Field::Id)));
    assert(m1.contains_key((EntityType::SubgraphDeployment, id, Field::Id)));
    assert(m1.contains_key((EntityType::SubgraphDeploymentAssignment, id, Field::Id)));
}

/// A deployment that does not exist is reported absent by
/// `check_subgraph_exists`; once a creation with its id has been applied,
/// it exists and is reported present.
pub proof fn deployment_exists_after_creation(
    m: StoreModel,
    name: Seq<char>,
    id: Seq<char>,
    entity_id: Seq<char>,
    created_at: u64,
    schema: Seq<char>,
    node_id: Seq<char>,
    head: Option<(Seq<char>, u64)>,
)
    ensures
        entity_exists(
            apply_writes(m, creation_ops(name, id, entity_id, created_at, schema, node_id, head)),
            EntityType::SubgraphDeployment,
            id,
        ),
{
    lemma_creation_writes(m, name, id, entity_id, created_at, schema, node_id, head);
    let m1 = apply_writes(m, creation_ops(name, id, entity_id, created_at, schema, node_id, head));
    assert(m1.contains_key((EntityType::SubgraphDeployment, id, Field::Id)));
}

/// Two creations with the same deployment id, committed one after the other
/// in either order, on a store where neither name nor the id is taken and
/// no write fault is armed: the first succeeds and the second is refused by
/// a guard.
pub proof fn concurrent_creations_one_wins(
    m: StoreModel,
    id: Seq<char>,
    name1: Seq<char>,
    entity_id1: Seq<char>,
    created_at1: u64,
    schema1: Seq<char>,
    node_id1: Seq<char>,
    head1: Option<(Seq<char>, u64)>,
    name2: Seq<char>,
    entity_id2: Seq<char>,
    created_at2: u64,
    schema2: Seq<char>,
    node_id2: Seq<char>,
    head2: Option<(Seq<char>, u64)>,
)
    requires
        !query_matches(m, (EntityType::Subgraph, Field::Name, ValueView::Str(name1))),
        !query_matches(m, (EntityType::Subgraph, Field::Name, ValueView::Str(name2))),
        !query_matches(m, (EntityType::SubgraphVersion, Field::Id, ValueView::Str(id))),
        !query_matches(m, (EntityType::SubgraphDeployment, Field::Id, ValueView::Str(id))),
    ensures
        ({
            let a = creation_ops(name1, id, entity_id1, created_at1, schema1, node_id1, head1);
            let b = creation_ops(name2, id, entity_id2, created_at2, schema2, node_id2, head2);
            &&& commit_error(m, None, a) is None
            &&& commit_error(apply_writes(m, a), None, b) is Some
            &&& commit_error(apply_writes(m, a), None, b)->0 is PreconditionViolated
            &&& commit_error(m, None, b) is None
            &&& commit_error(apply_writes(m, b), None, a) is Some
            &&& commit_error(apply_writes(m, b), None, a)->0 is PreconditionViolated
        }),
{
    let a = creation_ops(name1, id, entity_id1, created_at1, schema1, node_id1, head1);
    let b = creation_ops(name2, id, entity_id2, created_at2, schema2, node_id2, head2);
    lemma_creation_guards(m, name1, id, entity_id1, created_at1, schema1, node_id1, head1);
    lemma_creation_guards(m, name2, id, entity_id2, created_at2, schema2, node_id2, head2);
    let ma = apply_writes(m, a);
    let mb = apply_writes(m, b);
    lemma_creation_writes(m, name1, id, entity_id1, created_at1, schema1, node_id1, head1);
    lemma_creation_writes(m, name2, id, entity_id2, created_at2, schema2, node_id2, head2);
    lemma_creation_guards(ma, name2, id, entity_id2, created_at2, schema2, node_id2, head2);
    lemma_creation_guards(mb, name1, id, entity_id1, created_at1, schema1, node_id1, head1);
    assert(ma.contains_key((EntityType::SubgraphVersion, id, Field::Id)));
    assert(mb.contains_key((EntityType::SubgraphVersion, id, Field::Id)));
}

} // verus!
