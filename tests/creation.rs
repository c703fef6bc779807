use network_subgraph::batch::{EntityKey, EntityQuery, MetadataOperation};
use network_subgraph::entity::{EntityType, Field, Value};
use network_subgraph::protocol::{
    check_subgraph_exists, create_subgraph, creation_operations, default_node_id,
};
use network_subgraph::records::BlockPtr;
use network_subgraph::store::{MemoryStore, StoreError};

fn s(x: &str) -> String {
    x.to_string()
}

fn key(t: EntityType, id: &str) -> EntityKey {
    EntityKey { entity_type: t, id: s(id) }
}

fn head() -> Result<Option<BlockPtr>, StoreError> {
    Ok(Some(BlockPtr { hash: s("0xabc"), number: 42 }))
}

fn create(
    store: &mut MemoryStore,
    name: &str,
    id: &str,
    entity_id: &str,
) -> Result<(), StoreError> {
    create_subgraph(
        store,
        &s(name),
        &s(id),
        &s(entity_id),
        1_600_000_000,
        &s("type Block @entity { id: ID! }"),
        &default_node_id(),
        head(),
    )
}

fn none_of_the_four_exist(store: &MemoryStore, entity_id: &str, id: &str) -> bool {
    !store.entity_exists(&key(EntityType::Subgraph, entity_id))
        && !store.entity_exists(&key(EntityType::SubgraphVersion, id))
        && !store.entity_exists(&key(EntityType::SubgraphDeployment, id))
        && !store.entity_exists(&key(EntityType::SubgraphDeploymentAssignment, id))
}

#[test]
fn chain_mainnet_scenario() {
    let mut store = MemoryStore::new();
    assert_eq!(create(&mut store, "chain/mainnet", "dep-123", "sg-1"), Ok(()));
    let sg = key(EntityType::Subgraph, "sg-1");
    assert_eq!(store.get(&sg, Field::Name), Some(Value::Str(s("chain/mainnet"))));
    let version = key(EntityType::SubgraphVersion, "dep-123");
    assert!(store.entity_exists(&version));
    let deployment = key(EntityType::SubgraphDeployment, "dep-123");
    assert!(store.entity_exists(&deployment));
    assert_eq!(store.get(&deployment, Field::Synced), Some(Value::Bool(false)));
    assert_eq!(store.get(&deployment, Field::Failed), Some(Value::Bool(false)));
    let assignment = key(EntityType::SubgraphDeploymentAssignment, "dep-123");
    assert!(store.entity_exists(&assignment));

    let second = create(&mut store, "chain/mainnet", "dep-123", "sg-2");
    match second {
        Err(StoreError::PreconditionViolated(d)) => assert!(d.contains("should not exist")),
        other => panic!("expected a violated guard, got {:?}", other),
    }
}

#[test]
fn second_creation_is_rejected_as_duplicate() {
    let mut store = MemoryStore::new();
    assert_eq!(create(&mut store, "ethereum/mainnet", "QmDep", "a1"), Ok(()));
    assert_eq!(
        create(&mut store, "ethereum/mainnet", "QmDep", "a2"),
        Err(StoreError::PreconditionViolated(s("Subgraph entity should not exist")))
    );
    assert!(!store.entity_exists(&key(EntityType::Subgraph, "a2")));
}

#[test]
fn created_records_reference_each_other() {
    let mut store = MemoryStore::new();
    assert_eq!(create(&mut store, "ethereum/mainnet", "QmDep", "sg"), Ok(()));
    let sg = key(EntityType::Subgraph, "sg");
    let current = match store.get(&sg, Field::CurrentVersion) {
        Some(Value::Str(v)) => v,
        other => panic!("no current version: {:?}", other),
    };
    assert_eq!(current, s("QmDep"));
    assert_eq!(store.get(&sg, Field::PendingVersion), Some(Value::Null));
    let version = key(EntityType::SubgraphVersion, &current);
    assert_eq!(store.get(&version, Field::Subgraph), Some(Value::Str(s("sg"))));
    let deployment_id = match store.get(&version, Field::Deployment) {
        Some(Value::Str(d)) => d,
        other => panic!("no deployment: {:?}", other),
    };
    assert!(store.entity_exists(&key(EntityType::SubgraphDeployment, &deployment_id)));
    let assignment = key(EntityType::SubgraphDeploymentAssignment, &deployment_id);
    assert_eq!(store.get(&assignment, Field::NodeId), Some(Value::Str(s("__builtin"))));
    let q = EntityQuery {
        entity_type: EntityType::SubgraphDeploymentAssignment,
        field: Field::Id,
        value: Value::Str(deployment_id.clone()),
    };
    assert!(store.query_exists(&q));
}

#[test]
fn existence_check_before_and_after_creation() {
    let mut store = MemoryStore::new();
    assert!(!check_subgraph_exists(&store, &s("QmDep")));
    assert!(!check_subgraph_exists(&store, &s("QmOther")));
    assert_eq!(create(&mut store, "ethereum/mainnet", "QmDep", "sg"), Ok(()));
    assert!(check_subgraph_exists(&store, &s("QmDep")));
    assert!(!check_subgraph_exists(&store, &s("QmOther")));
    assert!(check_subgraph_exists(&store, &s("QmDep")));
}

#[test]
fn race_on_one_id_has_one_winner() {
    let mut store = MemoryStore::new();
    let first = create(&mut store, "ethereum/mainnet", "QmDep", "sg-a");
    let second = create(&mut store, "ethereum/ropsten", "QmDep", "sg-b");
    assert_eq!(first, Ok(()));
    assert_eq!(
        second,
        Err(StoreError::PreconditionViolated(s("Subgraph version should not exist")))
    );
    assert!(!store.entity_exists(&key(EntityType::Subgraph, "sg-b")));
}

#[test]
fn write_fault_at_any_step_leaves_nothing() {
    let ops = creation_operations(
        &s("ethereum/mainnet"),
        &s("QmDep"),
        &s("sg"),
        7,
        &s("schema"),
        &default_node_id(),
        None,
    );
    let mut writes = 0;
    for (k, op) in ops.iter().enumerate() {
        if let MetadataOperation::Write { .. } = op {
            writes += 1;
            let mut store = MemoryStore::new();
            store.set_write_fault(Some(k));
            assert_eq!(
                create(&mut store, "ethereum/mainnet", "QmDep", "sg"),
                Err(StoreError::WriteFailed(k))
            );
            assert!(none_of_the_four_exist(&store, "sg", "QmDep"));
            assert!(!check_subgraph_exists(&store, &s("QmDep")));
        }
    }
    assert_eq!(writes, 20);
}

#[test]
fn write_fault_past_the_batch_does_not_fire() {
    let mut store = MemoryStore::new();
    store.set_write_fault(Some(1000));
    assert_eq!(create(&mut store, "ethereum/mainnet", "QmDep", "sg"), Ok(()));
    assert!(check_subgraph_exists(&store, &s("QmDep")));
}

#[test]
fn write_fault_on_a_guard_does_not_fire() {
    let mut store = MemoryStore::new();
    store.set_write_fault(Some(0));
    assert_eq!(create(&mut store, "ethereum/mainnet", "QmDep", "sg"), Ok(()));
}

#[test]
fn chain_head_failure_submits_nothing() {
    let mut store = MemoryStore::new();
    let r = create_subgraph(
        &mut store,
        &s("ethereum/mainnet"),
        &s("QmDep"),
        &s("sg"),
        1,
        &s("schema"),
        &default_node_id(),
        Err(StoreError::Unavailable(s("chain head unavailable"))),
    );
    assert_eq!(r, Err(StoreError::Unavailable(s("chain head unavailable"))));
    assert!(none_of_the_four_exist(&store, "sg", "QmDep"));
}

#[test]
fn chain_head_is_recorded_on_the_deployment() {
    let mut store = MemoryStore::new();
    assert_eq!(create(&mut store, "ethereum/mainnet", "QmDep", "sg"), Ok(()));
    let d = key(EntityType::SubgraphDeployment, "QmDep");
    assert_eq!(store.get(&d, Field::EthereumHeadBlockHash), Some(Value::Str(s("0xabc"))));
    assert_eq!(store.get(&d, Field::EthereumHeadBlockNumber), Some(Value::Int(42)));
    assert_eq!(store.get(&d, Field::Manifest), Some(Value::Str(s("ethereum/mainnet"))));

    let mut other = MemoryStore::new();
    let r = create_subgraph(
        &mut other,
        &s("ethereum/mainnet"),
        &s("QmDep"),
        &s("sg"),
        1,
        &s("schema"),
        &s("node-7"),
        Ok(None),
    );
    assert_eq!(r, Ok(()));
    assert_eq!(other.get(&d, Field::EthereumHeadBlockHash), Some(Value::Null));
    assert_eq!(other.get(&d, Field::EthereumHeadBlockNumber), Some(Value::Null));
    let a = key(EntityType::SubgraphDeploymentAssignment, "QmDep");
    assert_eq!(other.get(&a, Field::NodeId), Some(Value::Str(s("node-7"))));
}

#[test]
fn existing_deployment_is_reported_by_its_guard() {
    let mut store = MemoryStore::new();
    let ops = vec![MetadataOperation::Write {
        key: key(EntityType::SubgraphDeployment, "QmDep"),
        field: Field::Id,
        value: Value::Str(s("QmDep")),
    }];
    assert_eq!(store.commit(&ops), Ok(()));
    assert_eq!(
        create(&mut store, "ethereum/mainnet", "QmDep", "sg"),
        Err(StoreError::PreconditionViolated(s(
            "Subgraph deployment entity must not exist"
        )))
    );
    assert!(!store.entity_exists(&key(EntityType::Subgraph, "sg")));
}

#[test]
fn batch_guard_expecting_records() {
    let mut store = MemoryStore::new();
    let guard = MetadataOperation::AbortUnless {
        description: s("a subgraph must exist"),
        query: EntityQuery {
            entity_type: EntityType::Subgraph,
            field: Field::Name,
            value: Value::Str(s("x")),
        },
        expected_empty: false,
    };
    let write = MetadataOperation::Write {
        key: key(EntityType::Subgraph, "k"),
        field: Field::Name,
        value: Value::Str(s("x")),
    };
    assert_eq!(
        store.commit(&vec![guard.clone(), write.clone()]),
        Err(StoreError::PreconditionViolated(s("a subgraph must exist")))
    );
    assert_eq!(store.get(&key(EntityType::Subgraph, "k"), Field::Name), None);
    assert_eq!(store.commit(&vec![write.clone()]), Ok(()));
    assert_eq!(store.commit(&vec![guard, write]), Ok(()));
}

#[test]
fn later_write_to_a_field_wins() {
    let mut store = MemoryStore::new();
    let k = key(EntityType::Subgraph, "k");
    let ops = vec![
        MetadataOperation::Write { key: k.clone(), field: Field::CreatedAt, value: Value::Int(1) },
        MetadataOperation::Write { key: k.clone(), field: Field::CreatedAt, value: Value::Int(2) },
    ];
    assert_eq!(store.commit(&ops), Ok(()));
    assert_eq!(store.get(&k, Field::CreatedAt), Some(Value::Int(2)));
    assert_eq!(store.get(&k, Field::Name), None);
}

#[test]
fn creation_batch_layout() {
    let ops = creation_operations(
        &s("n"),
        &s("d"),
        &s("e"),
        5,
        &s("schema"),
        &s("node"),
        Some(BlockPtr { hash: s("h"), number: 9 }),
    );
    assert_eq!(ops.len(), 23);
    let guards: Vec<String> = ops
        .iter()
        .filter_map(|o| match o {
            MetadataOperation::AbortUnless { description, .. } => Some(description.clone()),
            _ => None,
        })
        .collect();
    assert_eq!(
        guards,
        vec![
            s("Subgraph entity should not exist"),
            s("Subgraph version should not exist"),
            s("Subgraph deployment entity must not exist"),
        ]
    );
}

#[test]
fn values_copy_and_compare() {
    let v = Value::Str(s("abc"));
    assert_eq!(v.duplicate(), v);
    assert!(v.same_as(&Value::Str(s("abc"))));
    assert!(!v.same_as(&Value::Str(s("abd"))));
    assert!(!Value::Int(1).same_as(&Value::Bool(true)));
    assert!(Value::Null.same_as(&Value::Null));
    assert_eq!(default_node_id(), s("__builtin"));
}
