use cdl::edge_registry::{
    AddRelationParams, AddSchemaRelation, Edge, EdgeAction, EdgeRegistryImpl, ObjectRelations,
    RelationIdQuery, RelationQuery, ValidationError, INSERT_EDGE, SELECT_ALL_RELATIONS,
};
use cdl::ids::uuid_to_string;
use cdl::edge_registry::StoreProgress;
use cdl::rpc_status::{DbFailure, StatusCode};

const A: u128 = 0x11111111111111111111111111111111;
const B: u128 = 0x22222222222222222222222222222222;
const C: u128 = 0x33333333333333333333333333333333;

fn t(v: u128) -> String {
    uuid_to_string(v)
}

fn failure() -> DbFailure {
    DbFailure { message: "connection reset".to_string() }
}

#[test]
fn add_relation_checks_fields_in_order() {
    let req = AddSchemaRelation { relation_id: Some("x".into()), parent_schema_id: "y".into(), child_schema_id: "z".into() };
    let err = EdgeRegistryImpl::add_relation_params(&req).err().unwrap();
    assert_eq!(err.code, StatusCode::InvalidArgument);
    assert_eq!(err.message, "relation_id");

    let req = AddSchemaRelation { relation_id: None, parent_schema_id: "y".into(), child_schema_id: "z".into() };
    assert_eq!(EdgeRegistryImpl::add_relation_params(&req).err().unwrap().message, "parent_schema_id");

    let req = AddSchemaRelation { relation_id: None, parent_schema_id: t(A), child_schema_id: "z".into() };
    assert_eq!(EdgeRegistryImpl::add_relation_params(&req).err().unwrap().message, "child_schema_id");

    let req = AddSchemaRelation { relation_id: Some(t(C)), parent_schema_id: t(A), child_schema_id: t(B) };
    let p = EdgeRegistryImpl::add_relation_params(&req).ok().unwrap();
    assert_eq!((p.relation_id, p.parent_schema_id, p.child_schema_id), (Some(C), A, B));
}

#[test]
fn add_relation_response_cases() {
    let given = AddRelationParams { relation_id: Some(C), parent_schema_id: A, child_schema_id: B };
    let generated = AddRelationParams { relation_id: None, parent_schema_id: A, child_schema_id: B };
    assert_eq!(EdgeRegistryImpl::add_relation_response(&given, Ok(None)).ok().unwrap().relation_id, t(C));
    assert_eq!(EdgeRegistryImpl::add_relation_response(&generated, Ok(Some(B))).ok().unwrap().relation_id, t(B));
    let e = EdgeRegistryImpl::add_relation_response(&generated, Ok(None)).err().unwrap();
    assert_eq!(e.code, StatusCode::Internal);
    assert_eq!(e.message, "Query failed on communication with database");
    let e = EdgeRegistryImpl::add_relation_response(&given, Err(failure())).err().unwrap();
    assert_eq!(e.code, StatusCode::Internal);
}

#[test]
fn get_relation_query_with_and_without_ids() {
    assert_eq!(EdgeRegistryImpl::get_relation_query(&vec![]), SELECT_ALL_RELATIONS);
    assert_eq!(
        EdgeRegistryImpl::get_relation_query(&vec![A, B]),
        format!("SELECT id, parent_schema_id, child_schema_id FROM relations WHERE id IN ('{}','{}')", t(A), t(B))
    );
}

#[test]
fn relation_query_ids_refuses_bad_id() {
    let ok = RelationQuery { relation_id: vec![t(A), t(B)] };
    assert_eq!(EdgeRegistryImpl::relation_query_ids(&ok).ok().unwrap(), vec![A, B]);
    let bad = RelationQuery { relation_id: vec![t(A), "nope".into()] };
    let e = EdgeRegistryImpl::relation_query_ids(&bad).err().unwrap();
    assert_eq!((e.code, e.message.as_str()), (StatusCode::InvalidArgument, "relation_id"));
}

#[test]
fn relation_lists_format_rows() {
    let list = EdgeRegistryImpl::relation_list(&vec![(A, B, C)]);
    assert_eq!(list.items.len(), 1);
    assert_eq!((list.items[0].relation_id.clone(), list.items[0].parent_schema_id.clone(), list.items[0].child_schema_id.clone()), (t(A), t(B), t(C)));
    let sent = "{".to_string() + &t(B) + "}";
    let list = EdgeRegistryImpl::schema_relation_list(&sent, &vec![(A, C)]);
    assert_eq!(list.items[0].parent_schema_id, sent);
    assert_eq!(list.items[0].child_schema_id, t(C));
}

#[test]
fn schema_relation_response_cases() {
    let r = EdgeRegistryImpl::schema_relation_response(Ok(Some((A, B)))).ok().unwrap();
    assert_eq!((r.parent_schema_id, r.child_schema_id), (t(A), t(B)));
    let e = EdgeRegistryImpl::schema_relation_response(Ok(None)).err().unwrap();
    assert_eq!((e.code, e.message.as_str()), (StatusCode::NotFound, "Specified relation doesn't exist"));
    let e = EdgeRegistryImpl::schema_relation_response(Err(failure())).err().unwrap();
    assert_eq!(e.code, StatusCode::Internal);
}

#[test]
fn validate_relation_cases() {
    assert!(EdgeRegistryImpl::validate_relation_impl(A, Ok(true)).is_ok());
    let missing = EdgeRegistryImpl::validate_relation_impl(A, Ok(false));
    assert!(matches!(missing, Err(ValidationError::RelationDoesNotExist { relation }) if relation == A));
    let e = EdgeRegistryImpl::validate_relation_response(missing).err().unwrap();
    assert_eq!(e.code, StatusCode::InvalidArgument);
    assert_eq!(e.message, "Relation 11111111-1111-1111-1111-111111111111 does not exist");
    let unexpected = EdgeRegistryImpl::validate_relation_impl(A, Err(failure()));
    assert_eq!(unexpected.as_ref().err().unwrap().message(), "connection reset");
    let e = EdgeRegistryImpl::validate_relation_response(unexpected).err().unwrap();
    assert_eq!(e.code, StatusCode::Internal);
    assert!(EdgeRegistryImpl::validate_relation_response(Ok(())).is_ok());
}

#[test]
fn add_edges_messages_and_plan() {
    let request = ObjectRelations {
        relations: vec![
            Edge { relation_id: t(A), parent_object_id: t(B), child_object_ids: vec![t(C), t(A)] },
            Edge { relation_id: t(B), parent_object_id: t(C), child_object_ids: vec![] },
        ],
    };
    let msgs = EdgeRegistryImpl::add_edges_messages(&request).ok().unwrap();
    assert_eq!(msgs.len(), 2);
    assert_eq!((msgs[0].relation_id, msgs[0].parent_object_id, msgs[0].child_object_ids.clone()), (A, B, vec![C, A]));
    let plan = EdgeRegistryImpl::add_edges_plan(&msgs);
    assert_eq!(
        plan,
        vec![
            EdgeAction::Notify { message: 0 },
            EdgeAction::Insert { relation_id: A, parent_object_id: B, child_object_id: C },
            EdgeAction::Insert { relation_id: A, parent_object_id: B, child_object_id: A },
            EdgeAction::Notify { message: 1 },
        ]
    );
    assert!(INSERT_EDGE.starts_with("INSERT INTO edges"));
}

#[test]
fn add_edges_refuses_any_bad_child() {
    let request = ObjectRelations {
        relations: vec![Edge { relation_id: t(A), parent_object_id: t(B), child_object_ids: vec![t(C), "oops".into()] }],
    };
    let e = EdgeRegistryImpl::add_edges_messages(&request).err().unwrap();
    assert_eq!(e.code, StatusCode::InvalidArgument);
    assert_eq!(e.message, "Failed to deserialize query. Check if all uuids are in correct format.");
}

#[test]
fn get_edge_echoes_request_ids() {
    let req = RelationIdQuery { relation_id: t(A).to_uppercase(), parent_object_id: t(B) };
    let e = EdgeRegistryImpl::edge_response(&req, &vec![C]);
    assert_eq!(e.relation_id, t(A).to_uppercase());
    assert_eq!(e.parent_object_id, t(B));
    assert_eq!(e.child_object_ids, vec![t(C)]);
}

#[test]
fn get_edges_groups_runs_of_relations() {
    let rows = vec![(A, B), (A, C), (B, A), (C, A), (C, B)];
    let groups = EdgeRegistryImpl::group_rows(&rows);
    assert_eq!(groups, vec![(A, vec![B, C]), (B, vec![A]), (C, vec![A, B])]);
    let edges = EdgeRegistryImpl::object_edges(B, &rows);
    assert_eq!(edges.len(), 3);
    assert_eq!(edges[2].relation_id, t(C));
    assert_eq!(edges[2].parent_object_id, t(B));
    assert_eq!(edges[2].child_object_ids, vec![t(A), t(B)]);
    assert!(EdgeRegistryImpl::object_edges(B, &vec![]).is_empty());
    // a relation that comes back after another forms a run of its own
    assert_eq!(EdgeRegistryImpl::group_rows(&vec![(A, B), (B, B), (A, C)]).len(), 3);
}

#[test]
fn search_path_names_schema() {
    let r = EdgeRegistryImpl::with_schema("cdl".to_string());
    assert_eq!(r.search_path_statement(), "SET search_path TO 'cdl'");
}

#[test]
fn storing_edges_stops_at_first_failure() {
    let plan = vec![
        EdgeAction::Notify { message: 0 },
        EdgeAction::Insert { relation_id: A, parent_object_id: B, child_object_id: C },
    ];
    assert!(matches!(EdgeRegistryImpl::store_edges_start(&plan, Ok(())), StoreProgress::Next { position: 0 }));
    assert!(matches!(EdgeRegistryImpl::store_edges_start(&vec![], Ok(())), StoreProgress::Done));
    let failed = EdgeRegistryImpl::store_edges_start(&plan, Err(failure()));
    let e = EdgeRegistryImpl::add_edges_response(failed).err().unwrap();
    assert_eq!((e.code, e.message.as_str()), (StatusCode::Internal, "Query failed on communication with database"));
    assert!(matches!(EdgeRegistryImpl::store_edges_step(&plan, 0, Ok(())), StoreProgress::Next { position: 1 }));
    let done = EdgeRegistryImpl::store_edges_step(&plan, 1, Ok(()));
    assert!(matches!(done, StoreProgress::Done));
    assert!(EdgeRegistryImpl::add_edges_response(done).is_ok());
    assert!(matches!(EdgeRegistryImpl::store_edges_step(&plan, 0, Err(failure())), StoreProgress::Failed { .. }));
}

#[test]
fn read_calls_answer_database_failures() {
    let e = EdgeRegistryImpl::relation_list_response(Err(failure())).err().unwrap();
    assert_eq!((e.code, e.message.as_str()), (StatusCode::Internal, "Query failed on communication with database"));
    let list = EdgeRegistryImpl::relation_list_response(Ok(vec![(A, B, C)])).ok().unwrap();
    assert_eq!(list.items[0].relation_id, t(A));
    let sent = t(B);
    assert_eq!(EdgeRegistryImpl::schema_relation_list_response(&sent, Err(failure())).err().unwrap().code, StatusCode::Internal);
    let list = EdgeRegistryImpl::schema_relation_list_response(&sent, Ok(vec![(A, C)])).ok().unwrap();
    assert_eq!(list.items[0].child_schema_id, t(C));
    let req = RelationIdQuery { relation_id: t(A), parent_object_id: t(B) };
    assert_eq!(EdgeRegistryImpl::get_edge_response(&req, Err(failure())).err().unwrap().code, StatusCode::Internal);
    assert_eq!(EdgeRegistryImpl::get_edge_response(&req, Ok(vec![C])).ok().unwrap().child_object_ids, vec![t(C)]);
    assert_eq!(EdgeRegistryImpl::get_edges_response(B, Err(failure())).err().unwrap().code, StatusCode::Internal);
    let o = EdgeRegistryImpl::get_edges_response(B, Ok(vec![(A, C), (B, C)])).ok().unwrap();
    assert_eq!(o.relations.len(), 2);
}

#[test]
fn relations_are_keyed_by_id() {
    assert!(cdl::edge_registry::INSERT_RELATION_WITH_ID.starts_with("INSERT INTO relations (id, "));
    assert!(cdl::edge_registry::INSERT_RELATION.ends_with("RETURNING id"));
    assert!(cdl::edge_registry::SELECT_SCHEMAS_BY_RELATION.ends_with("WHERE id = $1"));
}
