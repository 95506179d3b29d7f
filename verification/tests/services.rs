use cdl::api::{ApiError, QueryRoot, SchemaRelation};
use cdl::command_service::validate_schema;
use cdl::grpc_routes::Dispatch;
use cdl::command_service::{DruidOutputPlugin, PostgresOutputPlugin, PsqlDecision, Resolution, TimeseriesEntry};
use cdl::edge_registry::{Edge, EdgeRegistryImpl, RelationDetails};
use cdl::grpc_routes::{EdgeRegistryMethod, GeneralMaterializerMethod, UNIMPLEMENTED_GRPC_STATUS};
use cdl::ids::uuid_to_string;
use cdl::object_builder::{AmqpSettings, ConsumeOptions, CommunicationMethod, ConsumerConfig, ConsumerKafkaSettings, ServicesSettings, Settings};
use cdl::rpc_client::{connect_error, ClientError, ConnectFailureCause};
use cdl::schema_registry::export_path;
use cdl::status_endpoints::{
    get_health_status, get_readiness_status, get_startup_status, handle_requests, mark_as_not_ready,
    mark_as_ready, mark_as_started, mark_as_unhealthy, send_status, ServiceStatus,
};

const A: u128 = 0xa1a2a3a4b1b2c1c2d1d2d3d4d5d6d7d8;
const B: u128 = 0x00000000000000000000000000000001;

fn t(v: u128) -> String {
    uuid_to_string(v)
}

#[test]
fn status_flags_start_and_change() {
    let mut s = ServiceStatus::new();
    assert!(get_health_status(&s));
    assert!(!get_startup_status(&s));
    assert!(get_readiness_status(&s));
    mark_as_started(&mut s);
    assert!(get_startup_status(&s));
    mark_as_unhealthy(&mut s);
    assert!(!get_health_status(&s));
    mark_as_not_ready(&mut s);
    assert!(!get_readiness_status(&s));
    mark_as_ready(&mut s);
    assert!(get_readiness_status(&s));
    assert!(get_startup_status(&s));
}

#[test]
fn status_endpoints_answer() {
    let mut s = ServiceStatus::new();
    assert_eq!(send_status(true), 200);
    assert_eq!(send_status(false), 500);
    assert_eq!(handle_requests(true, "/status/health", &s), 200);
    assert_eq!(handle_requests(true, "/status/startup", &s), 500);
    assert_eq!(handle_requests(true, "/status/readiness", &s), 200);
    assert_eq!(handle_requests(false, "/status/health", &s), 404);
    assert_eq!(handle_requests(true, "/status/other", &s), 404);
    assert_eq!(handle_requests(true, "/status/health/", &s), 404);
    mark_as_started(&mut s);
    assert_eq!(handle_requests(true, "/status/startup", &s), 200);
}

#[test]
fn grpc_paths_route_back() {
    let all = [
        EdgeRegistryMethod::AddRelation,
        EdgeRegistryMethod::GetRelation,
        EdgeRegistryMethod::GetSchemaByRelation,
        EdgeRegistryMethod::GetSchemaRelations,
        EdgeRegistryMethod::ValidateRelation,
        EdgeRegistryMethod::AddEdges,
        EdgeRegistryMethod::GetEdge,
        EdgeRegistryMethod::GetEdges,
        EdgeRegistryMethod::Heartbeat,
        EdgeRegistryMethod::ResolveTree,
    ];
    for m in all {
        assert_eq!(EdgeRegistryMethod::from_path(m.path()), Some(m));
    }
    assert_eq!(EdgeRegistryMethod::AddEdges.path(), "/edge_registry.EdgeRegistry/AddEdges");
    assert_eq!(EdgeRegistryMethod::from_path("/edge_registry.EdgeRegistry/DeleteEdges"), None);
    for m in [GeneralMaterializerMethod::ValidateOptions, GeneralMaterializerMethod::UpsertView] {
        assert_eq!(GeneralMaterializerMethod::from_path(m.path()), Some(m));
    }
    assert_eq!(GeneralMaterializerMethod::from_path("/x"), None);
    assert_eq!(UNIMPLEMENTED_GRPC_STATUS, 12);
}

#[test]
fn api_urls() {
    assert_eq!(QueryRoot::object_url("http://router", A), "http://router/single/a1a2a3a4-b1b2-c1c2-d1d2-d3d4d5d6d7d8");
    assert_eq!(QueryRoot::objects_url("http://r", &vec![A, B]), format!("http://r/multiple/{},{}", t(A), t(B)));
    assert_eq!(QueryRoot::objects_url("http://r", &vec![]), "http://r/multiple/");
    assert_eq!(QueryRoot::schema_objects_url("http://r"), "http://r/schema");
    assert_eq!(QueryRoot::schema_id_header(B), "00000000-0000-0000-0000-000000000001");
}

#[test]
fn api_reads_relations() {
    assert!(matches!(QueryRoot::relation(&vec![]), Ok(None)));
    let d = |r: String, p: String, c: String| RelationDetails { relation_id: r, parent_schema_id: p, child_schema_id: c };
    let items = vec![d(t(A), t(B), t(A)), d(t(B), t(A), t(B))];
    assert!(matches!(QueryRoot::relation(&items), Ok(Some(v)) if v == A));
    let all = QueryRoot::all_relations(&items).ok().unwrap();
    assert_eq!(all, vec![
        SchemaRelation { relation_id: A, parent_schema_id: B, child_schema_id: A },
        SchemaRelation { relation_id: B, parent_schema_id: A, child_schema_id: B },
    ]);
    let children = QueryRoot::schema_relations(B, &items).ok().unwrap();
    assert_eq!(children[1], SchemaRelation { relation_id: B, parent_schema_id: B, child_schema_id: B });
    let bad = vec![d(t(A), t(B), t(A)), d(t(B), "p?".into(), "c?".into())];
    match QueryRoot::all_relations(&bad) {
        Err(ApiError::InvalidUuid { text }) => assert_eq!(text, "p?"),
        _ => panic!("expected a failure"),
    }
    // the parent's text is not read when the parent is given
    match QueryRoot::schema_relations(A, &bad) {
        Err(ApiError::InvalidUuid { text }) => assert_eq!(text, "c?"),
        _ => panic!("expected a failure"),
    }
}

#[test]
fn api_reads_registry_edges() {
    let rows = vec![(A, B), (A, A), (B, A)];
    let edges = EdgeRegistryImpl::object_edges(B, &rows);
    let read = QueryRoot::edges(&edges).ok().unwrap();
    assert_eq!(read.len(), 2);
    assert_eq!((read[0].relation_id, read[0].parent_object_id, read[0].child_object_ids.clone()), (A, B, vec![B, A]));
    assert_eq!((read[1].relation_id, read[1].parent_object_id, read[1].child_object_ids.clone()), (B, B, vec![A]));
    let bad = vec![Edge { relation_id: t(A), parent_object_id: t(B), child_object_ids: vec![t(A), "zz".into(), "yy".into()] }];
    match QueryRoot::edges(&bad) {
        Err(ApiError::InvalidUuid { text }) => assert_eq!(text, "zz"),
        _ => panic!("expected a failure"),
    }
    assert_eq!(QueryRoot::edge(&vec![t(A), t(B)]).ok().unwrap(), vec![A, B]);
    assert!(QueryRoot::parse_object_ids(&vec!["x".into()]).is_err());
}

#[test]
fn message_router_counters() {
    assert_eq!(Resolution::Success.post_process_counter(), "cdl.command-service.post-process.success");
    assert_eq!(Resolution::CommandServiceFailure.post_process_counter(), "cdl.command-service.post-process.command-failure");
    assert_eq!(
        Resolution::StorageLayerFailure { description: String::new() }.post_process_counter(),
        "cdl.command-service.post-process.storage-failure"
    );
    assert_eq!(
        Resolution::UserFailure { description: String::new(), context: String::new() }.post_process_counter(),
        "cdl.command-service.post-process.user-failure"
    );
}

#[test]
fn druid_payloads_and_records() {
    let p = DruidOutputPlugin::payload("{\"a\":1}", 1625097600, A, B);
    assert_eq!(
        p,
        format!("{{\"fields\":{{\"a\":1}},\"ts\":1625097600,\"object_id\":\"{}\",\"schema_id\":\"{}\"}}", t(A), t(B))
    );
    let entries = vec![TimeseriesEntry { fields: "1".into(), ts: 5 }, TimeseriesEntry { fields: "null".into(), ts: 6 }];
    let ps = DruidOutputPlugin::deserialize_payloads(Ok(entries), "[...]", A, B).ok().unwrap();
    assert_eq!(ps.len(), 2);
    assert!(ps[1].starts_with("{\"fields\":null,\"ts\":6,"));
    let plugin = DruidOutputPlugin::new("ts-topic".into());
    let rs = plugin.records(A, -3, &ps);
    assert_eq!((rs[0].topic.as_str(), rs[0].key.clone(), rs[0].timestamp), ("ts-topic", t(A), -3));
    assert_eq!(rs[1].payload, ps[1]);
    assert!(matches!(DruidOutputPlugin::handle_message_resolution(Ok(ps)), Resolution::Success));
    let failed = DruidOutputPlugin::deserialize_payloads(Err("expected value".into()), "oops", A, B);
    match DruidOutputPlugin::handle_message_resolution(failed) {
        Resolution::UserFailure { description, context } => {
            assert_eq!(description, "expected value");
            assert_eq!(context, "oops");
        }
        _ => panic!("expected a user failure"),
    }
    assert_eq!(plugin.name(), "Druid timeseries");
}

#[test]
fn postgres_output_steps() {
    let plugin = PostgresOutputPlugin::new("cdl".into()).ok().unwrap();
    assert_eq!(plugin.name(), "PostgreSQL");
    assert!(matches!(plugin.begin(false, "{}"), PsqlDecision::Finish { resolution: Resolution::CommandServiceFailure }));
    assert!(matches!(plugin.begin(true, "{not json"), PsqlDecision::Finish { resolution: Resolution::CommandServiceFailure }));
    assert!(matches!(plugin.begin(true, "{} {}"), PsqlDecision::Finish { resolution: Resolution::CommandServiceFailure }));
    match plugin.begin(true, "{\"x\": [1, 2]}") {
        PsqlDecision::Store { statement } => assert_eq!(
            statement,
            "INSERT INTO cdl.data (object_id, version, schema_id, payload) VALUES ($1, $2, $3, $4)"
        ),
        _ => panic!("expected a store"),
    }
    assert!(matches!(PostgresOutputPlugin::finish(Ok(())), Resolution::Success));
    assert!(matches!(PostgresOutputPlugin::finish(Err("dup".into())), Resolution::StorageLayerFailure { description } if description == "dup"));
}

fn settings(method: CommunicationMethod, kafka: bool, amqp: bool) -> Settings {
    Settings {
        communication_method: method,
        input_port: 50110,
        chunk_capacity: 128,
        kafka: kafka.then(|| ConsumerKafkaSettings { brokers: "k:9092".into(), group_id: "g".into(), ingest_topic: "t".into() }),
        amqp: amqp.then(|| AmqpSettings {
            exchange_url: "amqp://x".into(),
            tag: "tag".into(),
            ingest_queue: "q".into(),
            consume_options: Some(ConsumeOptions { no_local: false, no_ack: true, exclusive: false, nowait: false }),
        }),
        services: ServicesSettings { schema_registry_url: "s".into(), edge_registry_url: "e".into() },
    }
}

#[test]
fn object_builder_consumer_choice() {
    match settings(CommunicationMethod::Kafka, true, true).consumer() {
        Ok(ConsumerConfig::Kafka { brokers, group_id, topic }) => assert_eq!((brokers.as_str(), group_id.as_str(), topic.as_str()), ("k:9092", "g", "t")),
        _ => panic!("expected kafka"),
    }
    match settings(CommunicationMethod::Amqp, true, true).consumer() {
        Ok(ConsumerConfig::Amqp { connection_string, consumer_tag, queue_name, options }) => {
            assert_eq!((connection_string.as_str(), consumer_tag.as_str(), queue_name.as_str()), ("amqp://x", "tag", "q"));
            assert_eq!(options, Some(ConsumeOptions { no_local: false, no_ack: true, exclusive: false, nowait: false }));
        }
        _ => panic!("expected amqp"),
    }
    let e = settings(CommunicationMethod::Kafka, false, true).consumer().err().unwrap();
    assert_eq!(e.message(), "Unsupported consumer specification");
    assert!(settings(CommunicationMethod::Other, true, true).consumer().is_err());
    let p = settings(CommunicationMethod::Other, false, true).publisher();
    assert_eq!((p.kafka_brokers, p.amqp_exchange_url), (None, Some("amqp://x".to_string())));
    assert_eq!(CommunicationMethod::from_name("kafka"), CommunicationMethod::Kafka);
    assert_eq!(CommunicationMethod::from_name("amqp"), CommunicationMethod::Amqp);
    assert_eq!(CommunicationMethod::from_name("Kafka"), CommunicationMethod::Other);
    assert_eq!(CommunicationMethod::Amqp.name(), "Amqp");
}

#[test]
fn export_paths() {
    assert_eq!(export_path("/var/export", 1625097600), "/var/export/export_1625097600.json");
    assert_eq!(export_path("/var/export/", 7), "/var/export/export_7.json");
    assert_eq!(export_path("", 0), "export_0.json");
}

#[test]
fn client_errors() {
    assert!(matches!(connect_error("query service", ConnectFailureCause::TimeoutExpired, "t".into()), ClientError::TimeoutError { service } if service == "query service"));
    assert!(matches!(connect_error("s", ConnectFailureCause::IoTimedOut, "t".into()), ClientError::TimeoutError { .. }));
    assert!(matches!(connect_error("s", ConnectFailureCause::Other, "refused".into()), ClientError::ConnectionError { source } if source == "refused"));
}

#[test]
fn postgres_schema_names() {
    assert!(validate_schema("cdl_data_2"));
    assert!(validate_schema(""));
    assert!(!validate_schema("cdl.data"));
    assert!(!validate_schema("x; DROP TABLE data"));
    assert!(!validate_schema("dané"));
    match PostgresOutputPlugin::new("bad-name".into()) {
        Err(e) => assert_eq!(e.schema, "bad-name"),
        Ok(_) => panic!("expected a refusal"),
    }
}

#[test]
fn unknown_grpc_paths_are_unimplemented() {
    match EdgeRegistryMethod::dispatch("/edge_registry.EdgeRegistry/DeleteRelation") {
        Dispatch::Answer(a) => {
            assert_eq!((a.http_status, a.grpc_status.as_str(), a.content_type.as_str()), (200, "12", "application/grpc"));
            assert!(a.body.is_empty());
        }
        Dispatch::Call(_) => panic!("expected an answer"),
    }
    assert!(matches!(EdgeRegistryMethod::dispatch("/edge_registry.EdgeRegistry/GetEdges"), Dispatch::Call(EdgeRegistryMethod::GetEdges)));
    assert!(matches!(GeneralMaterializerMethod::dispatch("/materializer_general.GeneralMaterializer/Materialize"), Dispatch::Answer(_)));
    assert!(matches!(
        GeneralMaterializerMethod::dispatch("/materializer_general.GeneralMaterializer/UpsertView"),
        Dispatch::Call(GeneralMaterializerMethod::UpsertView)
    ));
}

#[test]
fn on_demand_views() {
    let row = |fields: Vec<(&str, &str)>, ids: Vec<String>| {
        (fields.into_iter().map(|(n, v)| (n.to_string(), v.to_string())).collect::<Vec<_>>(), ids)
    };
    let rows = vec![row(vec![("a", "1"), ("b", "{\"x\":[true]}")], vec![t(A)]), row(vec![], vec![t(B), t(A)])];
    let v = QueryRoot::on_demand_view(B, &rows).ok().unwrap();
    assert_eq!(v.id, B);
    assert_eq!(v.rows.len(), 2);
    assert_eq!(v.rows[0].fields, rows[0].0);
    assert_eq!(v.rows[0].object_ids, vec![A]);
    assert_eq!(v.rows[1].object_ids, vec![B, A]);
    let bad_json = vec![row(vec![("a", "1"), ("b", "{x}"), ("c", "nope")], vec!["zz".into()])];
    match QueryRoot::on_demand_view(A, &bad_json) {
        Err(ApiError::InvalidJson { field }) => assert_eq!(field, "b"),
        _ => panic!("expected a JSON failure"),
    }
    let bad_id = vec![rows[0].clone(), row(vec![("a", "null")], vec![t(A), "zz".into()])];
    match QueryRoot::on_demand_view(A, &bad_id) {
        Err(ApiError::InvalidUuid { text }) => assert_eq!(text, "zz"),
        _ => panic!("expected a UUID failure"),
    }
    assert!(QueryRoot::on_demand_view(A, &vec![]).ok().unwrap().rows.is_empty());
}

#[test]
fn router_answers() {
    let o = QueryRoot::object(A, b" {\"a\": [1, 2]} ").ok().unwrap();
    assert_eq!(o.object_id, A);
    assert_eq!(o.data, b" {\"a\": [1, 2]} ".to_vec());
    assert!(matches!(QueryRoot::object(A, b"{\"a\":"), Err(ApiError::InvalidJson { field }) if field == "data"));
    assert!(QueryRoot::object(A, b"1 2").is_err());
    let body = format!("{{\"{}\": {{\"x\": 1}}, \"{}\": null}}", t(A), t(B));
    let mut objs = QueryRoot::objects(body.as_bytes()).ok().unwrap();
    objs.sort_by_key(|o| o.object_id);
    assert_eq!(objs.len(), 2);
    assert_eq!((objs[0].object_id, objs[0].data.clone()), (B, b"null".to_vec()));
    assert_eq!((objs[1].object_id, objs[1].data.clone()), (A, b"{\"x\":1}".to_vec()));
    assert!(matches!(QueryRoot::objects(b"[1]"), Err(ApiError::InvalidJson { .. })));
    assert!(matches!(QueryRoot::schema_objects(b"{\"nope\": 1}"), Err(ApiError::InvalidUuid { text }) if text == "nope"));
    assert!(QueryRoot::schema_objects(b"{}").ok().unwrap().is_empty());
}
