//! The edge registry: relations between schemas and edges between objects.
//!
//! Each gRPC call is handled in two steps around the database: the request is
//! checked and turned into identifiers, the database is asked, and what it
//! answered is turned into the response. Both steps stand here; the database
//! exchange is the caller's.
use vstd::prelude::*;
use crate::ids::{
    all_uuids, parse_uuid, parse_uuid_list, uuid_text, uuid_texts, uuid_to_string,
    uuid_value_of_text, uuids_of, uuids_to_strings,
};
use crate::rpc_status::{
    db_communication_error, invalid_argument, is_db_failure_status, is_invalid_argument, not_found,
    DbFailure, RpcStatus, StatusCode,
};
use crate::text::{
    join_strings, lemma_join_keeps_every_text, lemma_join_places_every_text, seq_join,
    string_views, text_offset,
};

verus! {

/// Request to add a relation between two schemas.
pub struct AddSchemaRelation {
    pub relation_id: Option<String>,
    pub parent_schema_id: String,
    pub child_schema_id: String,
}

/// The schemas of a relation.
pub struct SchemaRelation {
    pub parent_schema_id: String,
    pub child_schema_id: String,
}

/// A relation's id.
pub struct RelationId {
    pub relation_id: String,
}

/// Request for relations by id (all relations when no id is given).
pub struct RelationQuery {
    pub relation_id: Vec<String>,
}

/// Request to check that a relation exists.
pub struct ValidateRelationQuery {
    pub relation_id: String,
}

/// A schema's id.
pub struct SchemaId {
    pub schema_id: String,
}

/// A relation with the schemas it joins.
pub struct RelationDetails {
    pub relation_id: String,
    pub parent_schema_id: String,
    pub child_schema_id: String,
}

/// A list of relations.
pub struct RelationList {
    pub items: Vec<RelationDetails>,
}

/// A list of edges.
pub struct ObjectRelations {
    pub relations: Vec<Edge>,
}

/// The children of a parent object in a relation.
pub struct Edge {
    pub relation_id: String,
    pub parent_object_id: String,
    pub child_object_ids: Vec<String>,
}

/// Request for the children of an object in a relation.
pub struct RelationIdQuery {
    pub relation_id: String,
    pub parent_object_id: String,
}

/// An object's id.
pub struct ObjectIdQuery {
    pub object_id: String,
}

/// The empty message.
pub struct Empty {}

/// Edges to add: the children of one parent object in one relation.
#[derive(Debug)]
pub struct AddEdgesMessage {
    pub relation_id: u128,
    pub parent_object_id: u128,
    pub child_object_ids: Vec<u128>,
}

/// Why a relation is not valid.
#[derive(Debug)]
pub enum ValidationError {
    RelationDoesNotExist { relation: u128 },
    Unexpected { message: String },
}

/// The checked arguments of `add_relation`.
pub struct AddRelationParams {
    pub relation_id: Option<u128>,
    pub parent_schema_id: u128,
    pub child_schema_id: u128,
}

/// One step of storing edges: publish the notification for a message, or
/// insert one edge.
#[derive(PartialEq, Eq, Structural, Clone, Copy, Debug)]
pub enum EdgeAction {
    Notify { message: usize },
    Insert { relation_id: u128, parent_object_id: u128, child_object_id: u128 },
}

/// Where storing edges stands: the next step of the plan to take, done, or
/// stopped by a failure with the status to answer. Steps already taken are
/// kept; nothing is undone.
#[derive(Debug)]
pub enum StoreProgress {
    Next { position: usize },
    Done,
    Failed { status: RpcStatus },
}

/// The edge registry's own settings: the database schema its tables live in.
pub struct EdgeRegistryImpl {
    pub schema: String,
}

/// The most connections the registry's pool holds.
pub const POOL_MAX_SIZE: u32 = 20;

/// How long the registry waits for a pooled connection, in seconds.
pub const POOL_CONNECTION_TIMEOUT_SECS: u64 = 30;

pub const INSERT_RELATION_WITH_ID: &'static str =
    "INSERT INTO relations (id, parent_schema_id, child_schema_id) VALUES ($1::uuid, $2::uuid, $3::uuid)";

pub const INSERT_RELATION: &'static str =
    "INSERT INTO relations (parent_schema_id, child_schema_id) VALUES ($1::uuid, $2::uuid) RETURNING id";

pub const SELECT_SCHEMAS_BY_RELATION: &'static str =
    "SELECT parent_schema_id, child_schema_id FROM relations WHERE id = $1";

pub const SELECT_RELATION_EXISTS: &'static str = "SELECT child_schema_id FROM relations WHERE id = $1";

pub const SELECT_SCHEMA_RELATIONS: &'static str =
    "SELECT id, child_schema_id FROM relations WHERE parent_schema_id = ($1::uuid)";

pub const SELECT_ALL_RELATIONS: &'static str = "SELECT id, parent_schema_id, child_schema_id FROM relations";

pub const INSERT_EDGE: &'static str =
    "INSERT INTO edges (relation_id, parent_object_id, child_object_id) VALUES ($1, $2, $3)";

pub const SELECT_EDGE: &'static str =
    "SELECT child_object_id FROM edges WHERE relation_id = $1 AND parent_object_id = $2";

pub const SELECT_OBJECT_EDGES: &'static str =
    "SELECT relation_id, child_object_id FROM edges WHERE parent_object_id = $1 ORDER BY relation_id";

/// The text of `t` in single quotes.
pub open spec fn quoted(t: Seq<char>) -> Seq<char> {
    seq!['\''] + t + seq!['\'']
}

/// The statement that lists the relations with the given ids, or all of them.
pub open spec fn relation_select_sql(ids: Seq<u128>) -> Seq<char> {
    if ids.len() == 0 {
        SELECT_ALL_RELATIONS@
    } else {
        SELECT_ALL_RELATIONS@ + " WHERE id IN ("@ + seq_join(
            Seq::new(ids.len(), |i: int| quoted(uuid_text(ids[i]))),
            ","@,
        ) + ")"@
    }
}

/// The children of `m`, as edge insertions.
pub open spec fn edge_inserts(m: AddEdgesMessage) -> Seq<EdgeAction> {
    Seq::new(
        m.child_object_ids@.len(),
        |j: int|
            EdgeAction::Insert {
                relation_id: m.relation_id,
                parent_object_id: m.parent_object_id,
                child_object_id: m.child_object_ids@[j],
            },
    )
}

/// The steps that store `msgs`: for each message in order, its notification,
/// then one insertion per child in order.
pub open spec fn edge_plan(msgs: Seq<AddEdgesMessage>) -> Seq<EdgeAction>
    decreases msgs.len(),
{
    if msgs.len() == 0 {
        Seq::empty()
    } else {
        edge_plan(msgs.drop_last()) + seq![EdgeAction::Notify { message: (msgs.len() - 1) as usize }]
            + edge_inserts(msgs.last())
    }
}

/// Rows `(relation, child)` grouped into runs of equal relation, in order.
pub open spec fn group_runs(rows: Seq<(u128, u128)>) -> Seq<(u128, Seq<u128>)>
    decreases rows.len(),
{
    if rows.len() == 0 {
        Seq::empty()
    } else {
        let groups = group_runs(rows.drop_last());
        let (r, c) = rows.last();
        if groups.len() > 0 && groups.last().0 == r {
            groups.update(groups.len() - 1, (r, groups.last().1.push(c)))
        } else {
            groups.push((r, seq![c]))
        }
    }
}

/// The rows that a list of groups stands for.
pub open spec fn flatten_groups(groups: Seq<(u128, Seq<u128>)>) -> Seq<(u128, u128)>
    decreases groups.len(),
{
    if groups.len() == 0 {
        Seq::empty()
    } else {
        flatten_groups(groups.drop_last()) + Seq::new(
            groups.last().1.len(),
            |j: int| (groups.last().0, groups.last().1[j]),
        )
    }
}

/// Whether `edge` is the response for the children `children` of
/// `parent` in `relation`, given as texts.
pub open spec fn edge_of_group(edge: Edge, parent: u128, relation: u128, children: Seq<u128>) -> bool {
    &&& edge.relation_id@ == uuid_text(relation)
    &&& edge.parent_object_id@ == uuid_text(parent)
    &&& string_views(edge.child_object_ids@) == uuid_texts(children)
}

/// Whether `list` is the relations `(id, parent schema, child schema)` of
/// `rows`, as texts.
pub open spec fn relation_list_of(list: RelationList, rows: Seq<(u128, u128, u128)>) -> bool {
    &&& list.items@.len() == rows.len()
    &&& forall|i: int|
        0 <= i < rows.len() ==> {
            &&& (#[trigger] list.items@[i]).relation_id@ == uuid_text(rows[i].0)
            &&& list.items@[i].parent_schema_id@ == uuid_text(rows[i].1)
            &&& list.items@[i].child_schema_id@ == uuid_text(rows[i].2)
        }
}

/// Whether `list` is the relations `(id, child schema)` of `rows` of the
/// parent schema whose id was sent as `schema_id`.
pub open spec fn schema_relation_list_of(
    list: RelationList,
    schema_id: Seq<char>,
    rows: Seq<(u128, u128)>,
) -> bool {
    &&& list.items@.len() == rows.len()
    &&& forall|i: int|
        0 <= i < rows.len() ==> {
            &&& (#[trigger] list.items@[i]).relation_id@ == uuid_text(rows[i].0)
            &&& list.items@[i].parent_schema_id@ == schema_id
            &&& list.items@[i].child_schema_id@ == uuid_text(rows[i].1)
        }
}

/// Whether `edges` are the runs of `rows` of the parent object `object_id`,
/// one edge per run.
pub open spec fn object_edges_of(edges: Seq<Edge>, object_id: u128, rows: Seq<(u128, u128)>) -> bool {
    &&& edges.len() == group_runs(rows).len()
    &&& forall|i: int|
        0 <= i < edges.len() ==> edge_of_group(
            #[trigger] edges[i],
            object_id,
            group_runs(rows)[i].0,
            group_runs(rows)[i].1,
        )
}

/// Whether an `Edge` of a request holds only UUIDs.
pub open spec fn edge_parses(e: Edge) -> bool {
    &&& uuid_value_of_text(e.relation_id@) is Some
    &&& uuid_value_of_text(e.parent_object_id@) is Some
    &&& all_uuids(string_views(e.child_object_ids@))
}

/// Whether `m` holds the identifiers of `e`.
pub open spec fn message_of_edge(m: AddEdgesMessage, e: Edge) -> bool {
    &&& Some(m.relation_id) == uuid_value_of_text(e.relation_id@)
    &&& Some(m.parent_object_id) == uuid_value_of_text(e.parent_object_id@)
    &&& m.child_object_ids@ == uuids_of(string_views(e.child_object_ids@))
}

/// The message of a status that refuses an `add_edges` request.
pub open spec fn add_edges_refusal() -> Seq<char> {
    "Failed to deserialize query. Check if all uuids are in correct format."@
}

/// Parses the UUID of the field `field`; a text that is no UUID is refused
/// with `InvalidArgument` and the field's name.
pub fn parse_field(text: &str, field: &str) -> (r: Result<u128, RpcStatus>)
    ensures
        match r {
            Ok(v) => uuid_value_of_text(text@) == Some(v),
            Err(s) => uuid_value_of_text(text@) is None && is_invalid_argument(s, field@),
        },
{
    match parse_uuid(text) {
        Some(v) => Ok(v),
        None => Err(invalid_argument(field)),
    }
}

impl EdgeRegistryImpl {
    /// The registry that keeps its tables in the database schema `schema`.
    pub fn with_schema(schema: String) -> (r: Self)
        ensures
            r.schema == schema,
    {
        EdgeRegistryImpl { schema }
    }

    /// The statement that every connection runs first, so that the tables are
    /// found in the registry's schema.
    pub fn search_path_statement(&self) -> (s: String)
        ensures
            s@ == "SET search_path TO '"@ + self.schema@ + "'"@,
    {
        let mut s = "SET search_path TO '".to_owned();
        s.append(self.schema.as_str());
        s.append("'");
        s
    }

    /// First step of `add_relation`: the relation id (if given) and the two
    /// schema ids, checked in this order; the first that is no UUID is refused.
    pub fn add_relation_params(request: &AddSchemaRelation) -> (r: Result<
        AddRelationParams,
        RpcStatus,
    >)
        ensures
            ({
                let rel_ok = match request.relation_id {
                    Some(t) => uuid_value_of_text(t@) is Some,
                    None => true,
                };
                let parent = uuid_value_of_text(request.parent_schema_id@);
                let child = uuid_value_of_text(request.child_schema_id@);
                match r {
                    Ok(p) => {
                        &&& rel_ok
                        &&& match request.relation_id {
                            Some(t) => p.relation_id == uuid_value_of_text(t@),
                            None => p.relation_id is None,
                        }
                        &&& parent == Some(p.parent_schema_id)
                        &&& child == Some(p.child_schema_id)
                    },
                    Err(s) => if !rel_ok {
                        is_invalid_argument(s, "relation_id"@)
                    } else if parent is None {
                        is_invalid_argument(s, "parent_schema_id"@)
                    } else {
                        child is None && is_invalid_argument(s, "child_schema_id"@)
                    },
                }
            }),
    {
        let relation_id = match &request.relation_id {
            Some(t) => match parse_field(t.as_str(), "relation_id") {
                Ok(v) => Some(v),
                Err(s) => return Err(s),
            },
            None => None,
        };
        let parent_schema_id = parse_field(request.parent_schema_id.as_str(), "parent_schema_id")?;
        let child_schema_id = parse_field(request.child_schema_id.as_str(), "child_schema_id")?;
        Ok(AddRelationParams { relation_id, parent_schema_id, child_schema_id })
    }

    /// Second step of `add_relation`. With a given id, the relation is stored
    /// under it; without one, the id is the one the insertion returned, if it
    /// returned a row.
    pub fn add_relation_response(
        params: &AddRelationParams,
        db: Result<Option<u128>, DbFailure>,
    ) -> (r: Result<RelationId, RpcStatus>)
        ensures
            match db {
                Err(_) => r matches Err(s) && is_db_failure_status(s),
                Ok(returned) => match params.relation_id {
                    Some(id) => r matches Ok(x) && x.relation_id@ == uuid_text(id),
                    None => match returned {
                        Some(id) => r matches Ok(x) && x.relation_id@ == uuid_text(id),
                        None => r matches Err(s) && is_db_failure_status(s),
                    },
                },
            },
    {
        match db {
            Err(_) => Err(db_communication_error()),
            Ok(returned) => {
                let id = match params.relation_id {
                    Some(id) => id,
                    None => match returned {
                        Some(id) => id,
                        None => return Err(db_communication_error()),
                    },
                };
                Ok(RelationId { relation_id: uuid_to_string(id) })
            },
        }
    }

    /// First step of `get_relation`: every requested id must be a UUID.
    pub fn relation_query_ids(request: &RelationQuery) -> (r: Result<Vec<u128>, RpcStatus>)
        ensures
            match r {
                Ok(ids) => all_uuids(string_views(request.relation_id@)) && ids@ == uuids_of(
                    string_views(request.relation_id@),
                ),
                Err(s) => !all_uuids(string_views(request.relation_id@)) && is_invalid_argument(
                    s,
                    "relation_id"@,
                ),
            },
    {
        match parse_uuid_list(&request.relation_id) {
            Ok(ids) => Ok(ids),
            Err(k) => {
                assert(string_views(request.relation_id@)[k as int] == request.relation_id@[k as int]@);
                Err(invalid_argument("relation_id"))
            },
        }
    }

    /// The statement of `get_relation`: all relations, or those whose id is
    /// one of `ids`.
    pub fn get_relation_query(ids: &Vec<u128>) -> (q: String)
        ensures
            q@ == relation_select_sql(ids@),
    {
        let mut q = SELECT_ALL_RELATIONS.to_owned();
        if ids.len() == 0 {
            return q;
        }
        let mut quoted_ids: Vec<String> = Vec::new();
        let n = ids.len();
        for i in 0..n
            invariant
                n == ids.len(),
                quoted_ids@.len() == i,
                forall|j: int| 0 <= j < i ==> (#[trigger] quoted_ids@[j])@ == quoted(uuid_text(ids@[j])),
        {
            let mut t = "'".to_owned();
            t.append(uuid_to_string(ids[i]).as_str());
            t.append("'");
            proof {
                reveal_strlit("'");
            }
            quoted_ids.push(t);
        }
        let joined = join_strings(&quoted_ids, ",");
        assert(string_views(quoted_ids@) =~= Seq::new(ids@.len(), |i: int| quoted(uuid_text(ids@[i]))));
        q.append(" WHERE id IN (");
        q.append(joined.as_str());
        q.append(")");
        q
    }

    /// Second step of `get_relation` and of listing all relations: the rows
    /// `(id, parent schema, child schema)` as texts.
    pub fn relation_list(rows: &Vec<(u128, u128, u128)>) -> (list: RelationList)
        ensures
            list.items@.len() == rows@.len(),
            forall|i: int|
                0 <= i < rows@.len() ==> {
                    &&& (#[trigger] list.items@[i]).relation_id@ == uuid_text(rows@[i].0)
                    &&& list.items@[i].parent_schema_id@ == uuid_text(rows@[i].1)
                    &&& list.items@[i].child_schema_id@ == uuid_text(rows@[i].2)
                },
    {
        let mut items: Vec<RelationDetails> = Vec::new();
        let n = rows.len();
        for i in 0..n
            invariant
                n == rows.len(),
                items@.len() == i,
                forall|j: int|
                    0 <= j < i ==> {
                        &&& (#[trigger] items@[j]).relation_id@ == uuid_text(rows@[j].0)
                        &&& items@[j].parent_schema_id@ == uuid_text(rows@[j].1)
                        &&& items@[j].child_schema_id@ == uuid_text(rows@[j].2)
                    },
        {
            let (relation, parent, child) = rows[i];
            items.push(
                RelationDetails {
                    relation_id: uuid_to_string(relation),
                    parent_schema_id: uuid_to_string(parent),
                    child_schema_id: uuid_to_string(child),
                },
            );
        }
        RelationList { items }
    }

    /// Second step of `get_schema_by_relation`: the relation's two schemas, or
    /// `NotFound` when no relation has the id.
    pub fn schema_relation_response(db: Result<Option<(u128, u128)>, DbFailure>) -> (r: Result<
        SchemaRelation,
        RpcStatus,
    >)
        ensures
            match db {
                Err(_) => r matches Err(s) && is_db_failure_status(s),
                Ok(None) => r matches Err(s) && s.code == StatusCode::NotFound && s.message@
                    == "Specified relation doesn't exist"@,
                Ok(Some((parent, child))) => r matches Ok(x) && x.parent_schema_id@ == uuid_text(
                    parent,
                ) && x.child_schema_id@ == uuid_text(child),
            },
    {
        match db {
            Err(_) => Err(db_communication_error()),
            Ok(None) => Err(not_found("Specified relation doesn't exist")),
            Ok(Some((parent, child))) => Ok(
                SchemaRelation {
                    parent_schema_id: uuid_to_string(parent),
                    child_schema_id: uuid_to_string(child),
                },
            ),
        }
    }

    /// Whether the relation `relation_id` exists, from whether the database
    /// found a row for it.
    pub fn validate_relation_impl(relation_id: u128, db: Result<bool, DbFailure>) -> (r: Result<
        (),
        ValidationError,
    >)
        ensures
            match db {
                Ok(true) => r is Ok,
                Ok(false) => r matches Err(ValidationError::RelationDoesNotExist { relation })
                    && relation == relation_id,
                Err(f) => r matches Err(ValidationError::Unexpected { message }) && message == f.message,
            },
    {
        match db {
            Ok(true) => Ok(()),
            Ok(false) => Err(ValidationError::RelationDoesNotExist { relation: relation_id }),
            Err(f) => Err(ValidationError::Unexpected { message: f.message }),
        }
    }

    /// Second step of `validate_relation`: a missing relation is an invalid
    /// argument whose message names it; a database failure is internal.
    pub fn validate_relation_response(v: Result<(), ValidationError>) -> (r: Result<
        Empty,
        RpcStatus,
    >)
        ensures
            match v {
                Ok(()) => r is Ok,
                Err(ValidationError::RelationDoesNotExist { relation }) => r matches Err(s)
                    && is_invalid_argument(s, relation_missing_message(relation)),
                Err(ValidationError::Unexpected { .. }) => r matches Err(s) && is_db_failure_status(s),
            },
    {
        match v {
            Ok(()) => Ok(Empty {}),
            Err(ValidationError::RelationDoesNotExist { relation }) => {
                let e = ValidationError::RelationDoesNotExist { relation };
                let m = e.message();
                Err(invalid_argument(m.as_str()))
            },
            Err(ValidationError::Unexpected { .. }) => Err(db_communication_error()),
        }
    }

    /// Second step of `get_schema_relations`: the rows `(relation, child
    /// schema)` of the parent schema, whose id is given back as it was sent.
    pub fn schema_relation_list(schema_id: &String, rows: &Vec<(u128, u128)>) -> (list:
        RelationList)
        ensures
            list.items@.len() == rows@.len(),
            forall|i: int|
                0 <= i < rows@.len() ==> {
                    &&& (#[trigger] list.items@[i]).relation_id@ == uuid_text(rows@[i].0)
                    &&& list.items@[i].parent_schema_id@ == schema_id@
                    &&& list.items@[i].child_schema_id@ == uuid_text(rows@[i].1)
                },
    {
        let mut items: Vec<RelationDetails> = Vec::new();
        let n = rows.len();
        for i in 0..n
            invariant
                n == rows.len(),
                items@.len() == i,
                forall|j: int|
                    0 <= j < i ==> {
                        &&& (#[trigger] items@[j]).relation_id@ == uuid_text(rows@[j].0)
                        &&& items@[j].parent_schema_id@ == schema_id@
                        &&& items@[j].child_schema_id@ == uuid_text(rows@[j].1)
                    },
        {
            let (relation, child) = rows[i];
            items.push(
                RelationDetails {
                    relation_id: uuid_to_string(relation),
                    parent_schema_id: schema_id.clone(),
                    child_schema_id: uuid_to_string(child),
                },
            );
        }
        RelationList { items }
    }

    /// Turns one `Edge` of an `add_edges` request into identifiers.
    pub fn edge_message(e: &Edge) -> (r: Option<AddEdgesMessage>)
        ensures
            match r {
                Some(m) => edge_parses(*e) && message_of_edge(m, *e),
                None => !edge_parses(*e),
            },
    {
        let relation_id = match parse_uuid(e.relation_id.as_str()) {
            Some(v) => v,
            None => return None,
        };
        let parent_object_id = match parse_uuid(e.parent_object_id.as_str()) {
            Some(v) => v,
            None => return None,
        };
        match parse_uuid_list(&e.child_object_ids) {
            Ok(child_object_ids) => Some(
                AddEdgesMessage { relation_id, parent_object_id, child_object_ids },
            ),
            Err(k) => {
                assert(string_views(e.child_object_ids@)[k as int] == e.child_object_ids@[k as int]@);
                None
            },
        }
    }

    /// First step of `add_edges`: every id of every edge must be a UUID; one
    /// that is not refuses the whole request.
    pub fn add_edges_messages(request: &ObjectRelations) -> (r: Result<
        Vec<AddEdgesMessage>,
        RpcStatus,
    >)
        ensures
            match r {
                Ok(ms) => {
                    &&& ms@.len() == request.relations@.len()
                    &&& forall|i: int|
                        0 <= i < ms@.len() ==> edge_parses(#[trigger] request.relations@[i])
                            && message_of_edge(ms@[i], request.relations@[i])
                },
                Err(s) => {
                    &&& exists|i: int|
                        0 <= i < request.relations@.len() && !edge_parses(
                            #[trigger] request.relations@[i],
                        )
                    &&& is_invalid_argument(s, add_edges_refusal())
                },
            },
    {
        let mut ms: Vec<AddEdgesMessage> = Vec::new();
        let n = request.relations.len();
        for i in 0..n
            invariant
                n == request.relations@.len(),
                ms@.len() == i,
                forall|j: int|
                    0 <= j < i ==> edge_parses(#[trigger] request.relations@[j]) && message_of_edge(
                        ms@[j],
                        request.relations@[j],
                    ),
        {
            match Self::edge_message(&request.relations[i]) {
                Some(m) => ms.push(m),
                None => {
                    return Err(
                        invalid_argument(
                            "Failed to deserialize query. Check if all uuids are in correct format.",
                        ),
                    );
                },
            }
        }
        Ok(ms)
    }

    /// The steps that store `msgs`, in the order they are taken; storing stops
    /// at the first step that fails.
    pub fn add_edges_plan(msgs: &Vec<AddEdgesMessage>) -> (plan: Vec<EdgeAction>)
        ensures
            plan@ == edge_plan(msgs@),
    {
        let mut plan: Vec<EdgeAction> = Vec::new();
        let n = msgs.len();
        for i in 0..n
            invariant
                n == msgs@.len(),
                plan@ == edge_plan(msgs@.take(i as int)),
        {
            assert(msgs@.take(i + 1).drop_last() =~= msgs@.take(i as int));
            plan.push(EdgeAction::Notify { message: i });
            let m = &msgs[i];
            let ghost before = plan@;
            let k = m.child_object_ids.len();
            for j in 0..k
                invariant
                    k == m.child_object_ids@.len(),
                    m == msgs@[i as int],
                    plan@ == before + edge_inserts(*m).take(j as int),
            {
                plan.push(
                    EdgeAction::Insert {
                        relation_id: m.relation_id,
                        parent_object_id: m.parent_object_id,
                        child_object_id: m.child_object_ids[j],
                    },
                );
                assert(edge_inserts(*m).take(j + 1) =~= edge_inserts(*m).take(j as int).push(
                    edge_inserts(*m)[j as int],
                ));
            }
            assert(edge_inserts(*m).take(k as int) =~= edge_inserts(*m));
            assert(msgs@.take(i + 1).last() == msgs@[i as int]);
        }
        assert(msgs@.take(n as int) =~= msgs@);
        plan
    }

    /// Start of storing edges: without a connection storing fails with the
    /// database status; with one it begins at the plan's first step, or is
    /// done when the plan is empty.
    pub fn store_edges_start(plan: &Vec<EdgeAction>, connected: Result<(), DbFailure>) -> (p:
        StoreProgress)
        ensures
            match connected {
                Err(_) => p matches StoreProgress::Failed { status } && is_db_failure_status(status),
                Ok(()) => if plan@.len() == 0 {
                    p is Done
                } else {
                    p == (StoreProgress::Next { position: 0 })
                },
            },
    {
        match connected {
            Err(_) => StoreProgress::Failed { status: db_communication_error() },
            Ok(()) => if plan.len() == 0 {
                StoreProgress::Done
            } else {
                StoreProgress::Next { position: 0 }
            },
        }
    }

    /// One step of storing edges: after step `position` of the plan (a
    /// notification or an insertion) reported `outcome`, storing stops with
    /// the database status on a failure, goes on with the next step, or is
    /// done after the last one.
    pub fn store_edges_step(plan: &Vec<EdgeAction>, position: usize, outcome: Result<(), DbFailure>) -> (p: StoreProgress)
        ensures
            match outcome {
                Err(_) => p matches StoreProgress::Failed { status } && is_db_failure_status(status),
                Ok(()) => if position + 1 < plan@.len() {
                    p == (StoreProgress::Next { position: (position + 1) as usize })
                } else {
                    p is Done
                },
            },
    {
        match outcome {
            Err(_) => StoreProgress::Failed { status: db_communication_error() },
            Ok(()) => if position < plan.len() && position + 1 < plan.len() {
                StoreProgress::Next { position: position + 1 }
            } else {
                StoreProgress::Done
            },
        }
    }

    /// The answer to `add_edges` once storing has ended: nothing when done,
    /// the failure's status otherwise.
    pub fn add_edges_response(p: StoreProgress) -> (r: Result<Empty, RpcStatus>)
        ensures
            match p {
                StoreProgress::Failed { status } => r == Err::<Empty, RpcStatus>(status),
                _ => r is Ok,
            },
    {
        match p {
            StoreProgress::Failed { status } => Err(status),
            _ => Ok(Empty {}),
        }
    }

    /// Second step of `get_relation` and of listing all relations: the rows
    /// the database found, or the internal status when the query failed.
    pub fn relation_list_response(db: Result<Vec<(u128, u128, u128)>, DbFailure>) -> (r: Result<
        RelationList,
        RpcStatus,
    >)
        ensures
            match db {
                Err(_) => r matches Err(s) && is_db_failure_status(s),
                Ok(rows) => r matches Ok(list) && relation_list_of(list, rows@),
            },
    {
        match db {
            Err(_) => Err(db_communication_error()),
            Ok(rows) => Ok(Self::relation_list(&rows)),
        }
    }

    /// Second step of `get_schema_relations`: the rows the database found,
    /// or the internal status when the query failed.
    pub fn schema_relation_list_response(
        schema_id: &String,
        db: Result<Vec<(u128, u128)>, DbFailure>,
    ) -> (r: Result<RelationList, RpcStatus>)
        ensures
            match db {
                Err(_) => r matches Err(s) && is_db_failure_status(s),
                Ok(rows) => r matches Ok(list) && schema_relation_list_of(list, schema_id@, rows@),
            },
    {
        match db {
            Err(_) => Err(db_communication_error()),
            Ok(rows) => Ok(Self::schema_relation_list(schema_id, &rows)),
        }
    }

    /// Second step of `get_edge`: the children the database found, or the
    /// internal status when the query failed.
    pub fn get_edge_response(request: &RelationIdQuery, db: Result<Vec<u128>, DbFailure>) -> (r:
        Result<Edge, RpcStatus>)
        ensures
            match db {
                Err(_) => r matches Err(s) && is_db_failure_status(s),
                Ok(children) => r matches Ok(e) && e.relation_id@ == request.relation_id@
                    && e.parent_object_id@ == request.parent_object_id@ && string_views(
                    e.child_object_ids@,
                ) == uuid_texts(children@),
            },
    {
        match db {
            Err(_) => Err(db_communication_error()),
            Ok(children) => Ok(Self::edge_response(request, &children)),
        }
    }

    /// Second step of `get_edges`: the edges of the rows the database found,
    /// or the internal status when the query failed.
    pub fn get_edges_response(object_id: u128, db: Result<Vec<(u128, u128)>, DbFailure>) -> (r:
        Result<ObjectRelations, RpcStatus>)
        ensures
            match db {
                Err(_) => r matches Err(s) && is_db_failure_status(s),
                Ok(rows) => r matches Ok(o) && object_edges_of(o.relations@, object_id, rows@),
            },
    {
        match db {
            Err(_) => Err(db_communication_error()),
            Ok(rows) => Ok(ObjectRelations { relations: Self::object_edges(object_id, &rows) }),
        }
    }

    /// Second step of `get_edge`: the children found, with the relation and
    /// parent ids given back as they were sent.
    pub fn edge_response(request: &RelationIdQuery, children: &Vec<u128>) -> (e: Edge)
        ensures
            e.relation_id@ == request.relation_id@,
            e.parent_object_id@ == request.parent_object_id@,
            string_views(e.child_object_ids@) == uuid_texts(children@),
    {
        Edge {
            relation_id: request.relation_id.clone(),
            parent_object_id: request.parent_object_id.clone(),
            child_object_ids: uuids_to_strings(children),
        }
    }

    /// Groups rows `(relation, child)` into runs of equal relation.
    pub fn group_rows(rows: &Vec<(u128, u128)>) -> (groups: Vec<(u128, Vec<u128>)>)
        ensures
            groups_view(groups@) == group_runs(rows@),
    {
        let mut groups: Vec<(u128, Vec<u128>)> = Vec::new();
        let n = rows.len();
        for i in 0..n
            invariant
                n == rows@.len(),
                groups_view(groups@) == group_runs(rows@.take(i as int)),
        {
            let (r, c) = rows[i];
            assert(rows@.take(i + 1).drop_last() =~= rows@.take(i as int));
            assert(rows@.take(i + 1).last() == rows@[i as int]);
            let len = groups.len();
            let ghost old_groups = groups@;
            if len > 0 && groups[len - 1].0 == r {
                let (key, mut children) = groups.pop().unwrap();
                assert(old_groups.drop_last() =~= groups@);
                children.push(c);
                groups.push((key, children));
                assert(groups_view(groups@) =~= group_runs(rows@.take(i + 1)));
            } else {
                let mut children: Vec<u128> = Vec::new();
                children.push(c);
                groups.push((r, children));
                assert(groups_view(groups@) =~= group_runs(rows@.take(i + 1)));
            }
        }
        assert(rows@.take(n as int) =~= rows@);
        groups
    }

    /// Second step of `get_edges`: the rows `(relation, child)` of the
    /// parent object, ordered by relation, as one edge per run of equal
    /// relation.
    pub fn object_edges(object_id: u128, rows: &Vec<(u128, u128)>) -> (edges: Vec<Edge>)
        ensures
            edges@.len() == group_runs(rows@).len(),
            forall|i: int|
                0 <= i < edges@.len() ==> edge_of_group(
                    #[trigger] edges@[i],
                    object_id,
                    group_runs(rows@)[i].0,
                    group_runs(rows@)[i].1,
                ),
    {
        let groups = Self::group_rows(rows);
        let mut edges: Vec<Edge> = Vec::new();
        let n = groups.len();
        for i in 0..n
            invariant
                n == groups@.len(),
                groups_view(groups@) == group_runs(rows@),
                edges@.len() == i,
                forall|j: int|
                    0 <= j < i ==> edge_of_group(
                        #[trigger] edges@[j],
                        object_id,
                        group_runs(rows@)[j].0,
                        group_runs(rows@)[j].1,
                    ),
        {
            let (relation, children) = &groups[i];
            assert(groups_view(groups@)[i as int] == (*relation, children@));
            edges.push(
                Edge {
                    relation_id: uuid_to_string(*relation),
                    parent_object_id: uuid_to_string(object_id),
                    child_object_ids: uuids_to_strings(children),
                },
            );
        }
        edges
    }
}

/// The message of a refusal for a relation that does not exist.
pub open spec fn relation_missing_message(relation: u128) -> Seq<char> {
    "Relation "@ + uuid_text(relation) + " does not exist"@
}

/// The groups of an executable grouping, as sequences.
pub open spec fn groups_view(groups: Seq<(u128, Vec<u128>)>) -> Seq<(u128, Seq<u128>)> {
    groups.map_values(|g: (u128, Vec<u128>)| (g.0, g.1@))
}

impl ValidationError {
    /// The error's text.
    pub fn message(&self) -> (m: String)
        ensures
            match self {
                ValidationError::RelationDoesNotExist { relation } => m@ == relation_missing_message(
                    *relation,
                ),
                ValidationError::Unexpected { message } => m@ == message@,
            },
    {
        match self {
            ValidationError::RelationDoesNotExist { relation } => {
                let mut m = "Relation ".to_owned();
                m.append(uuid_to_string(*relation).as_str());
                m.append(" does not exist");
                m
            },
            ValidationError::Unexpected { message } => message.clone(),
        }
    }
}

/// Grouping loses, adds and reorders no row: the groups stand for exactly the
/// rows they were made from.
pub proof fn lemma_group_runs_keeps_rows(rows: Seq<(u128, u128)>)
    ensures
        flatten_groups(group_runs(rows)) == rows,
    decreases rows.len(),
{
    if rows.len() > 0 {
        let prefix = rows.drop_last();
        lemma_group_runs_keeps_rows(prefix);
        let g = group_runs(prefix);
        let (r, c) = rows.last();
        if g.len() > 0 && g.last().0 == r {
            let cs = g.last().1;
            let g2 = g.update(g.len() - 1, (r, cs.push(c)));
            assert(g2.drop_last() =~= g.drop_last());
            assert(Seq::new(cs.push(c).len(), |j: int| (r, cs.push(c)[j])) =~= Seq::new(
                cs.len(),
                |j: int| (r, cs[j]),
            ).push((r, c)));
            assert(flatten_groups(g2) =~= flatten_groups(g).push((r, c)));
        } else {
            let g2 = g.push((r, seq![c]));
            assert(g2.drop_last() =~= g);
            assert(flatten_groups(g2) =~= flatten_groups(g).push((r, c)));
        }
        assert(prefix.push(rows.last()) =~= rows);
    }
}

/// Every group holds at least one row, and neighbouring groups have
/// different relations.
pub proof fn lemma_group_runs_shape(rows: Seq<(u128, u128)>)
    ensures
        forall|i: int| 0 <= i < group_runs(rows).len() ==> (#[trigger] group_runs(rows)[i]).1.len() > 0,
        forall|i: int|
            0 < i < group_runs(rows).len() ==> group_runs(rows)[i - 1].0 != (#[trigger] group_runs(
                rows,
            )[i]).0,
        rows.len() > 0 ==> group_runs(rows).len() > 0 && group_runs(rows).last().0 == rows.last().0,
    decreases rows.len(),
{
    if rows.len() > 0 {
        let prefix = rows.drop_last();
        lemma_group_runs_shape(prefix);
        let g = group_runs(prefix);
        let g2 = group_runs(rows);
        let (r, c) = rows.last();
        assert forall|i: int| 0 <= i < g2.len() implies (#[trigger] g2[i]).1.len() > 0 by {
            if i < g.len() {
                assert(g[i].1.len() > 0);
            }
        }
        assert forall|i: int| 0 < i < g2.len() implies g2[i - 1].0 != (#[trigger] g2[i]).0 by {
            if i < g.len() {
                assert(g[i - 1].0 != g[i].0);
            }
        }
    }
}

/// With rows ordered by relation, as the query of `get_edges` asks, the runs'
/// relations strictly increase: each relation has exactly one run.
pub proof fn lemma_group_runs_sorted(rows: Seq<(u128, u128)>)
    requires
        forall|i: int, j: int| 0 <= i <= j < rows.len() ==> rows[i].0 <= rows[j].0,
    ensures
        forall|i: int, j: int|
            0 <= i < j < group_runs(rows).len() ==> group_runs(rows)[i].0 < group_runs(rows)[j].0,
        forall|i: int|
            0 <= i < group_runs(rows).len() && rows.len() > 0 ==> group_runs(rows)[i].0 <= rows.last().0,
    decreases rows.len(),
{
    if rows.len() > 0 {
        let prefix = rows.drop_last();
        assert forall|i: int, j: int| 0 <= i <= j < prefix.len() implies prefix[i].0 <= prefix[j].0 by {
            assert(prefix[i] == rows[i] && prefix[j] == rows[j]);
        }
        lemma_group_runs_sorted(prefix);
        lemma_group_runs_shape(prefix);
        let g = group_runs(prefix);
        let g2 = group_runs(rows);
        if prefix.len() > 0 {
            assert(prefix.last() == rows[rows.len() - 2]);
            assert(prefix.last().0 <= rows.last().0);
        }
        assert forall|i: int| 0 <= i < g2.len() implies g2[i].0 <= rows.last().0 by {
            if i < g.len() {
                assert(g[i].0 <= prefix.last().0);
            }
        }
        assert forall|i: int, j: int| 0 <= i < j < g2.len() implies g2[i].0 < g2[j].0 by {
            if j < g.len() {
                assert(g[i].0 < g[j].0);
            } else if j == g.len() {
                assert(g[i].0 <= g.last().0);
                assert(g.last().0 == prefix.last().0);
            }
        }
    }
}

/// The relation id that `add_relation` answers with is the id it stored (the
/// given one, or the one the insertion returned), and the lookup by that text
/// reads exactly that id: both insertions and the lookups key relations by
/// the column `id`.
pub proof fn lemma_added_relation_id_reads_back(stored: u128, answer: RelationId)
    requires
        answer.relation_id@ == uuid_text(stored),
    ensures
        uuid_value_of_text(answer.relation_id@) == Some(stored),
{
    crate::ids::lemma_uuid_text_roundtrip(stored);
}

/// Reading back an added relation: once `add_relation` has checked a request
/// into `params` and answered with the id it stored, a lookup of that id,
/// answered by the database with the row the insertion stored, gives back
/// the request's parent and child schemas, in their hyphenated form.
pub proof fn lemma_added_relation_reads_back(
    request: AddSchemaRelation,
    params: AddRelationParams,
    answer: SchemaRelation,
)
    requires
        uuid_value_of_text(request.parent_schema_id@) == Some(params.parent_schema_id),
        uuid_value_of_text(request.child_schema_id@) == Some(params.child_schema_id),
        answer.parent_schema_id@ == uuid_text(params.parent_schema_id),
        answer.child_schema_id@ == uuid_text(params.child_schema_id),
    ensures
        answer.parent_schema_id@ == uuid_text(uuid_value_of_text(request.parent_schema_id@)->0),
        answer.child_schema_id@ == uuid_text(uuid_value_of_text(request.child_schema_id@)->0),
        uuid_value_of_text(answer.parent_schema_id@) == uuid_value_of_text(request.parent_schema_id@),
        uuid_value_of_text(answer.child_schema_id@) == uuid_value_of_text(request.child_schema_id@),
{
    crate::ids::lemma_uuid_text_roundtrip(params.parent_schema_id);
    crate::ids::lemma_uuid_text_roundtrip(params.child_schema_id);
}

/// The quoted texts of `ids`, in order.
pub open spec fn quoted_id_texts(ids: Seq<u128>) -> Seq<Seq<char>> {
    Seq::new(ids.len(), |i: int| quoted(uuid_text(ids[i])))
}

/// The statement of `get_relation` filters by exactly the requested ids: with
/// none it lists every relation; with some it is the listing of all
/// relations, then ` WHERE id IN (`, then the quoted id texts each at its
/// place with a comma between each two neighbours, then `)`; so one id gives
/// the listing restricted to that id alone, and every requested id stands in
/// the filter.
pub proof fn lemma_relation_query_filters_by_ids(ids: Seq<u128>)
    ensures
        ids.len() == 0 ==> relation_select_sql(ids) == SELECT_ALL_RELATIONS@,
        ids.len() == 1 ==> relation_select_sql(ids) == SELECT_ALL_RELATIONS@ + " WHERE id IN ("@
            + quoted(uuid_text(ids[0])) + ")"@,
        ids.len() > 0 ==> relation_select_sql(ids).take(
            (SELECT_ALL_RELATIONS@ + " WHERE id IN ("@).len() as int,
        ) == SELECT_ALL_RELATIONS@ + " WHERE id IN ("@,
        ids.len() > 0 ==> relation_select_sql(ids).last() == ')',
        ids.len() > 0 ==> relation_select_sql(ids).len() > SELECT_ALL_RELATIONS@.len() + " WHERE id IN ("@.len(),
        forall|i: int, j: int|
            0 <= i < ids.len() && 0 <= j < quoted(uuid_text(ids[i])).len() ==> relation_select_sql(
                ids,
            )[(SELECT_ALL_RELATIONS@ + " WHERE id IN ("@).len() + text_offset(
                quoted_id_texts(ids),
                ","@,
                i,
            ) + j] == #[trigger] quoted(uuid_text(ids[i]))[j],
{
    reveal_strlit(")");
    let head = SELECT_ALL_RELATIONS@ + " WHERE id IN ("@;
    let list = quoted_id_texts(ids);
    assert(list =~= Seq::new(ids.len(), |i: int| quoted(uuid_text(ids[i]))));
    if ids.len() > 0 {
        let body = seq_join(list, ","@);
        let sql = relation_select_sql(ids);
        assert(sql == head + body + ")"@);
        assert(sql.take(head.len() as int) =~= head);
        lemma_join_places_every_text(list, ","@);
        assert forall|i: int, j: int|
            0 <= i < ids.len() && 0 <= j < quoted(uuid_text(ids[i])).len() implies sql[head.len()
            + text_offset(list, ","@, i) + j] == #[trigger] quoted(uuid_text(ids[i]))[j] by {
            assert(list[i] == quoted(uuid_text(ids[i])));
            assert(body[text_offset(list, ","@, i) + j] == list[i][j]);
            crate::text::lemma_text_offset_in_join(list, ","@, i);
        }
        if ids.len() == 1 {
            lemma_join_keeps_every_text(list, ","@);
        }
    }
}

/// How many children the first `i` messages of `msgs` name together.
pub open spec fn children_before(msgs: Seq<AddEdgesMessage>, i: int) -> nat
    decreases i,
{
    if i <= 0 {
        0
    } else {
        children_before(msgs, i - 1) + msgs[i - 1].child_object_ids@.len()
    }
}

/// The count of children before a message grows with the message's index,
/// and depends on the messages before it alone.
proof fn lemma_children_before_grows(msgs: Seq<AddEdgesMessage>, k: int)
    requires
        0 <= k <= msgs.len(),
    ensures
        forall|i: int| 0 <= i <= k ==> #[trigger] children_before(msgs, i) <= children_before(msgs, k),
        msgs.len() > 0 ==> forall|i: int|
            0 <= i <= k && i < msgs.len() ==> #[trigger] children_before(msgs.drop_last(), i)
                == children_before(msgs, i),
    decreases k,
{
    if k > 0 {
        lemma_children_before_grows(msgs, k - 1);
        assert forall|i: int| 0 <= i <= k && i < msgs.len() && msgs.len() > 0 implies #[trigger] children_before(
            msgs.drop_last(),
            i,
        ) == children_before(msgs, i) by {
            if i == k {
                assert(children_before(msgs.drop_last(), k - 1) == children_before(msgs, k - 1));
                assert(msgs.drop_last()[k - 1] == msgs[k - 1]);
            }
        }
    }
}

/// Storing edges takes every edge of the request, each once, in order: for
/// each message in turn its notification, then one insertion per child of it
/// in order, with the message's relation and parent and that child. So the
/// plan is as long as the messages plus all their children, the `i`-th
/// message's notification stands after the `i` messages and their children
/// before it, and its `j`-th insertion right after that.
pub proof fn lemma_plan_stores_every_edge(msgs: Seq<AddEdgesMessage>)
    ensures
        edge_plan(msgs).len() == msgs.len() + children_before(msgs, msgs.len() as int),
        forall|i: int|
            0 <= i < msgs.len() ==> edge_plan(msgs)[i + #[trigger] children_before(msgs, i)]
                == (EdgeAction::Notify { message: i as usize }),
        forall|i: int, j: int|
            #![trigger children_before(msgs, i), msgs[i].child_object_ids@[j]]
            0 <= i < msgs.len() && 0 <= j < msgs[i].child_object_ids@.len() ==> edge_plan(msgs)[i
                + children_before(msgs, i) + 1 + j] == (EdgeAction::Insert {
                relation_id: msgs[i].relation_id,
                parent_object_id: msgs[i].parent_object_id,
                child_object_id: msgs[i].child_object_ids@[j],
            }),
    decreases msgs.len(),
{
    if msgs.len() > 0 {
        let n: int = msgs.len() as int;
        let d = msgs.drop_last();
        lemma_plan_stores_every_edge(d);
        lemma_children_before_grows(msgs, n);
        lemma_children_before_grows(msgs, n - 1);
        let left = edge_plan(d);
        let plan = edge_plan(msgs);
        assert(plan == left + seq![EdgeAction::Notify { message: (n - 1) as usize }] + edge_inserts(
            msgs.last(),
        ));
        assert(children_before(d, n - 1) == children_before(msgs, n - 1));
        assert(left.len() == (n - 1) + children_before(msgs, n - 1));
        assert forall|i: int| 0 <= i < msgs.len() implies plan[i + #[trigger] children_before(msgs, i)]
            == EdgeAction::Notify { message: i as usize } by {
            if i < n - 1 {
                assert(children_before(d, i) == children_before(msgs, i));
                assert(children_before(msgs, i + 1) <= children_before(msgs, n - 1));
                assert(left[i + children_before(d, i)] == EdgeAction::Notify { message: i as usize });
            }
        }
        assert forall|i: int, j: int|
            #![trigger children_before(msgs, i), msgs[i].child_object_ids@[j]]
            0 <= i < msgs.len() && 0 <= j < msgs[i].child_object_ids@.len() implies plan[i
            + children_before(msgs, i) + 1 + j] == EdgeAction::Insert {
            relation_id: msgs[i].relation_id,
            parent_object_id: msgs[i].parent_object_id,
            child_object_id: msgs[i].child_object_ids@[j],
        } by {
            if i < n - 1 {
                assert(children_before(d, i) == children_before(msgs, i));
                assert(children_before(msgs, i + 1) <= children_before(msgs, n - 1));
                assert(d[i] == msgs[i]);
                assert(d[i].child_object_ids@[j] == msgs[i].child_object_ids@[j]);
            } else {
                assert(msgs.last() == msgs[i]);
            }
        }
    }
}

} // verus!
