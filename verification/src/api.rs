//! The GraphQL API's queries: the addresses it asks the query router at, and
//! how it reads the edge registry's answers.
//!
//! The registry sends identifiers as texts; the API turns every one of them
//! back into a UUID, and an answer that holds a text that is no UUID fails
//! the query with that text.
use vstd::prelude::*;
use crate::edge_registry::{edge_of_group, group_runs, Edge, RelationDetails};
use crate::ids::{
    all_uuids, lemma_uuid_text_roundtrip, lemma_uuid_texts_roundtrip, parse_uuid_list, uuid_text, uuid_texts, uuid_to_string, uuid_value_of_text,
    uuids_of, uuids_to_strings,
};
use crate::json::{
    json_bytes_valid, json_object_members, json_text_valid, serde_json_accepts,
    serde_json_accepts_bytes, serde_json_object_members,
};
use crate::text::{
    join_strings, lemma_join_keeps_every_text, lemma_join_places_every_text, seq_join,
    string_views, text_offset, total_len,
};

verus! {

/// The root of the API's queries.
pub struct QueryRoot;

/// Why a query failed: an identifier in an answer is no UUID, or a field of
/// a materialized row is no JSON value.
#[derive(Debug)]
pub enum ApiError {
    InvalidUuid { text: String },
    InvalidJson { field: String },
}

/// An object and its data, as the JSON bytes the query router sent.
#[derive(Debug)]
pub struct CdlObject {
    pub object_id: u128,
    pub data: Vec<u8>,
}

/// The keys of the members of a JSON object.
pub open spec fn member_keys(members: Seq<(Seq<char>, Seq<u8>)>) -> Seq<Seq<char>> {
    members.map_values(|m: (Seq<char>, Seq<u8>)| m.0)
}

/// A relation between two schemas.
#[derive(PartialEq, Eq, Structural, Clone, Copy, Debug)]
pub struct SchemaRelation {
    pub relation_id: u128,
    pub parent_schema_id: u128,
    pub child_schema_id: u128,
}

/// The children of a parent object in one relation.
#[derive(Debug)]
pub struct EdgeRelations {
    pub relation_id: u128,
    pub parent_object_id: u128,
    pub child_object_ids: Vec<u128>,
}

/// A row of a view calculated on demand: the objects it was made from and
/// its fields, each a name and a JSON text.
#[derive(Debug)]
pub struct RowDefinition {
    pub object_ids: Vec<u128>,
    pub fields: Vec<(String, String)>,
}

/// A view calculated on demand: its id and its rows.
#[derive(Debug)]
pub struct MaterializedView {
    pub id: u128,
    pub rows: Vec<RowDefinition>,
}

/// Whether every field text is a JSON value.
pub open spec fn fields_valid(fields: Seq<(String, String)>) -> bool {
    forall|i: int| 0 <= i < fields.len() ==> json_text_valid((#[trigger] fields[i]).1@)
}

/// Whether `k` is the first field whose text is no JSON value.
pub open spec fn first_invalid_field(fields: Seq<(String, String)>, k: int) -> bool {
    &&& 0 <= k < fields.len()
    &&& !json_text_valid(fields[k].1@)
    &&& forall|j: int| 0 <= j < k ==> json_text_valid((#[trigger] fields[j]).1@)
}

/// Whether a materialized row reads: every field is JSON and every object id
/// a UUID.
pub open spec fn row_reads(fields: Seq<(String, String)>, object_ids: Seq<String>) -> bool {
    fields_valid(fields) && all_uuids(string_views(object_ids))
}

/// Whether `e` is the error of a row that does not read: the first field that
/// is no JSON value, or else the first object id that is no UUID.
pub open spec fn row_error(fields: Seq<(String, String)>, object_ids: Seq<String>, e: ApiError) -> bool {
    match e {
        ApiError::InvalidJson { field } => exists|k: int|
            first_invalid_field(fields, k) && field@ == fields[k].0@,
        ApiError::InvalidUuid { text } => fields_valid(fields) && exists|k: int|
            first_non_uuid(string_views(object_ids), k) && text@ == string_views(object_ids)[k],
    }
}

/// Whether `row` is what the materialized row `(fields, object_ids)` reads as.
pub open spec fn row_read_as(row: RowDefinition, fields: Seq<(String, String)>, object_ids: Seq<String>) -> bool {
    &&& row.fields@ == fields
    &&& row.object_ids@ == uuids_of(string_views(object_ids))
}

/// Whether `k` is the first index of `texts` whose text is no UUID.
pub open spec fn first_non_uuid(texts: Seq<Seq<char>>, k: int) -> bool {
    &&& 0 <= k < texts.len()
    &&& uuid_value_of_text(texts[k]) is None
    &&& forall|j: int| 0 <= j < k ==> (#[trigger] uuid_value_of_text(texts[j])) is Some
}

/// Whether `text` is the first text that is no UUID in `entries`, read
/// entry after entry.
pub open spec fn first_failure(entries: Seq<Seq<Seq<char>>>, text: Seq<char>) -> bool {
    exists|i: int, k: int|
        {
            &&& 0 <= i < entries.len()
            &&& forall|j: int| 0 <= j < i ==> all_uuids(#[trigger] entries[j])
            &&& first_non_uuid(entries[i], k)
            &&& text == entries[i][k]
        }
}

/// The identifier texts of a relation, in the order the API reads them.
pub open spec fn relation_texts(d: RelationDetails) -> Seq<Seq<char>> {
    seq![d.relation_id@, d.parent_schema_id@, d.child_schema_id@]
}

/// The identifier texts of a relation of a given parent schema.
pub open spec fn child_relation_texts(d: RelationDetails) -> Seq<Seq<char>> {
    seq![d.relation_id@, d.child_schema_id@]
}

/// The identifier texts of an edge: relation, parent, then children.
pub open spec fn edge_texts(e: Edge) -> Seq<Seq<char>> {
    seq![e.relation_id@, e.parent_object_id@] + string_views(e.child_object_ids@)
}

/// The UUID of a text that is one.
pub open spec fn id_of(t: Seq<char>) -> u128 {
    uuid_value_of_text(t)->0
}

/// The relations that the API reads from `items`, when every id is a UUID.
pub open spec fn api_relations(items: Seq<RelationDetails>) -> Option<Seq<SchemaRelation>> {
    if forall|i: int| 0 <= i < items.len() ==> all_uuids(#[trigger] relation_texts(items[i])) {
        Some(
            Seq::new(
                items.len(),
                |i: int|
                    SchemaRelation {
                        relation_id: id_of(items[i].relation_id@),
                        parent_schema_id: id_of(items[i].parent_schema_id@),
                        child_schema_id: id_of(items[i].child_schema_id@),
                    },
            ),
        )
    } else {
        None
    }
}

/// The relations of the parent schema `parent` that the API reads from
/// `items`, when every id is a UUID.
pub open spec fn api_child_relations(parent: u128, items: Seq<RelationDetails>) -> Option<
    Seq<SchemaRelation>,
> {
    if forall|i: int| 0 <= i < items.len() ==> all_uuids(#[trigger] child_relation_texts(items[i])) {
        Some(
            Seq::new(
                items.len(),
                |i: int|
                    SchemaRelation {
                        relation_id: id_of(items[i].relation_id@),
                        parent_schema_id: parent,
                        child_schema_id: id_of(items[i].child_schema_id@),
                    },
            ),
        )
    } else {
        None
    }
}

/// The edges `(relation, parent, children)` that the API reads from
/// `entries`, when every id is a UUID.
pub open spec fn api_edges(entries: Seq<Edge>) -> Option<Seq<(u128, u128, Seq<u128>)>> {
    if forall|i: int| 0 <= i < entries.len() ==> all_uuids(#[trigger] edge_texts(entries[i])) {
        Some(
            Seq::new(
                entries.len(),
                |i: int|
                    (
                        id_of(entries[i].relation_id@),
                        id_of(entries[i].parent_object_id@),
                        uuids_of(string_views(entries[i].child_object_ids@)),
                    ),
            ),
        )
    } else {
        None
    }
}

/// The edges of an executable result, as sequences.
pub open spec fn edge_relations_view(v: Seq<EdgeRelations>) -> Seq<(u128, u128, Seq<u128>)> {
    v.map_values(|e: EdgeRelations| (e.relation_id, e.parent_object_id, e.child_object_ids@))
}

/// Parses the identifier texts of one entry of an answer.
fn parse_entry(texts: &Vec<String>) -> (r: Result<Vec<u128>, ApiError>)
    ensures
        match r {
            Ok(ids) => all_uuids(string_views(texts@)) && ids@ == uuids_of(string_views(texts@)),
            Err(ApiError::InvalidJson { .. }) => false,
            Err(ApiError::InvalidUuid { text }) => exists|k: int|
                first_non_uuid(string_views(texts@), k) && text@ == string_views(texts@)[k],
        },
{
    match parse_uuid_list(texts) {
        Ok(ids) => Ok(ids),
        Err(k) => {
            let ghost views = string_views(texts@);
            assert(views[k as int] == texts@[k as int]@);
            assert forall|j: int| 0 <= j < k implies (#[trigger] uuid_value_of_text(views[j])) is Some by {
                assert(views[j] == texts@[j]@);
            }
            assert(first_non_uuid(views, k as int));
            Err(ApiError::InvalidUuid { text: texts[k].clone() })
        },
    }
}

fn texts_of_relation(d: &RelationDetails) -> (v: Vec<String>)
    ensures
        string_views(v@) == relation_texts(*d),
{
    let mut v: Vec<String> = Vec::new();
    v.push(d.relation_id.clone());
    v.push(d.parent_schema_id.clone());
    v.push(d.child_schema_id.clone());
    assert(string_views(v@) =~= relation_texts(*d));
    v
}

fn texts_of_child_relation(d: &RelationDetails) -> (v: Vec<String>)
    ensures
        string_views(v@) == child_relation_texts(*d),
{
    let mut v: Vec<String> = Vec::new();
    v.push(d.relation_id.clone());
    v.push(d.child_schema_id.clone());
    assert(string_views(v@) =~= child_relation_texts(*d));
    v
}

fn texts_of_edge(e: &Edge) -> (v: Vec<String>)
    ensures
        string_views(v@) == edge_texts(*e),
{
    let mut v: Vec<String> = Vec::new();
    v.push(e.relation_id.clone());
    v.push(e.parent_object_id.clone());
    let n = e.child_object_ids.len();
    for i in 0..n
        invariant
            n == e.child_object_ids@.len(),
            v@.len() == i + 2,
            v@[0]@ == e.relation_id@,
            v@[1]@ == e.parent_object_id@,
            forall|j: int| 0 <= j < i ==> (#[trigger] v@[j + 2])@ == e.child_object_ids@[j]@,
    {
        v.push(e.child_object_ids[i].clone());
    }
    assert forall|k: int| 2 <= k < v@.len() implies (#[trigger] v@[k])@ == e.child_object_ids@[k - 2]@ by {
        assert(v@[(k - 2) + 2] == v@[k]);
    }
    assert(string_views(v@) =~= edge_texts(*e));
    v
}

impl QueryRoot {
    /// The query router's address for one object.
    pub fn object_url(router: &str, object_id: u128) -> (url: String)
        ensures
            url@ == router@ + "/single/"@ + uuid_text(object_id),
    {
        let mut url = router.to_owned();
        url.append("/single/");
        url.append(uuid_to_string(object_id).as_str());
        url
    }

    /// The query router's address for several objects: their ids joined by
    /// commas.
    pub fn objects_url(router: &str, object_ids: &Vec<u128>) -> (url: String)
        ensures
            url@ == router@ + "/multiple/"@ + seq_join(uuid_texts(object_ids@), ","@),
    {
        let mut url = router.to_owned();
        url.append("/multiple/");
        let texts = uuids_to_strings(object_ids);
        url.append(join_strings(&texts, ",").as_str());
        url
    }

    /// The query router's address for all objects of a schema.
    pub fn schema_objects_url(router: &str) -> (url: String)
        ensures
            url@ == router@ + "/schema"@,
    {
        let mut url = router.to_owned();
        url.append("/schema");
        url
    }

    /// The value of the `SCHEMA_ID` header that names the schema asked for.
    pub fn schema_id_header(schema_id: u128) -> (value: String)
        ensures
            value@ == uuid_text(schema_id),
    {
        uuid_to_string(schema_id)
    }

    /// Reads the query router's answer for one object: the answer must be
    /// JSON, and it is the object's data.
    pub fn object(object_id: u128, body: &[u8]) -> (r: Result<CdlObject, ApiError>)
        ensures
            r is Ok <==> json_bytes_valid(body@),
            r matches Ok(o) ==> o.object_id == object_id && o.data@ == body@,
            r matches Err(e) ==> (e matches ApiError::InvalidJson { field } && field@ == "data"@),
    {
        if !serde_json_accepts_bytes(body) {
            return Err(ApiError::InvalidJson { field: "data".to_owned() });
        }
        let mut data: Vec<u8> = Vec::new();
        let n = body.len();
        for i in 0..n
            invariant
                n == body@.len(),
                data@ == body@.take(i as int),
        {
            data.push(body[i]);
            assert(body@.take(i + 1) =~= body@.take(i as int).push(body@[i as int]));
        }
        assert(body@.take(n as int) =~= body@);
        Ok(CdlObject { object_id, data })
    }

    /// Reads the query router's answer for several objects: a JSON object
    /// whose keys are the objects' ids and whose values are their data. An
    /// answer that is no JSON object fails; so does a key that is no UUID
    /// (the first, in the object's order).
    pub fn objects(body: &[u8]) -> (r: Result<Vec<CdlObject>, ApiError>)
        ensures
            r matches Ok(v) ==> (json_object_members(body@) matches Some(ms) && all_uuids(
                member_keys(ms),
            ) && v@.len() == ms.len() && forall|i: int|
                0 <= i < v@.len() ==> (#[trigger] v@[i]).object_id == id_of(ms[i].0) && v@[i].data@
                    == ms[i].1),
            r matches Err(ApiError::InvalidJson { field }) ==> (json_object_members(body@) is None
                && field@ == "data"@),
            r matches Err(ApiError::InvalidUuid { text }) ==> (json_object_members(body@) matches Some(
                ms,
            ) && exists|k: int| first_non_uuid(member_keys(ms), k) && text@ == ms[k].0),
    {
        let members = match serde_json_object_members(body) {
            Some(m) => m,
            None => return Err(ApiError::InvalidJson { field: "data".to_owned() }),
        };
        let ghost ms = members@.map_values(|m: (String, Vec<u8>)| (m.0@, m.1@));
        let mut out: Vec<CdlObject> = Vec::new();
        let n = members.len();
        for i in 0..n
            invariant
                n == members@.len(),
                ms == members@.map_values(|m: (String, Vec<u8>)| (m.0@, m.1@)),
                json_object_members(body@) == Some(ms),
                out@.len() == i,
                forall|j: int| 0 <= j < i ==> (#[trigger] uuid_value_of_text(member_keys(ms)[j])) is Some,
                forall|j: int|
                    0 <= j < i ==> (#[trigger] out@[j]).object_id == id_of(ms[j].0) && out@[j].data@
                        == ms[j].1,
        {
            let (key, data) = &members[i];
            assert(ms[i as int] == (key@, data@));
            assert(member_keys(ms)[i as int] == key@);
            match crate::ids::parse_uuid(key.as_str()) {
                Some(id) => {
                    let mut copy: Vec<u8> = Vec::new();
                    let k = data.len();
                    for j in 0..k
                        invariant
                            k == data@.len(),
                            copy@ == data@.take(j as int),
                    {
                        copy.push(data[j]);
                        assert(data@.take(j + 1) =~= data@.take(j as int).push(data@[j as int]));
                    }
                    assert(data@.take(k as int) =~= data@);
                    out.push(CdlObject { object_id: id, data: copy });
                },
                None => {
                    assert(first_non_uuid(member_keys(ms), i as int));
                    let t = key.clone();
                    assert(t@ == ms[i as int].0);
                    let e = ApiError::InvalidUuid { text: t };
                    assert(json_object_members(body@)->0 == ms);
                    return Err(e);
                },
            }
        }
        Ok(out)
    }

    /// Reads the query router's answer for all objects of a schema, as
    /// `objects` does.
    pub fn schema_objects(body: &[u8]) -> (r: Result<Vec<CdlObject>, ApiError>)
        ensures
            r matches Ok(v) ==> (json_object_members(body@) matches Some(ms) && all_uuids(
                member_keys(ms),
            ) && v@.len() == ms.len() && forall|i: int|
                0 <= i < v@.len() ==> (#[trigger] v@[i]).object_id == id_of(ms[i].0) && v@[i].data@
                    == ms[i].1),
            r matches Err(ApiError::InvalidJson { field }) ==> (json_object_members(body@) is None
                && field@ == "data"@),
            r matches Err(ApiError::InvalidUuid { text }) ==> (json_object_members(body@) matches Some(
                ms,
            ) && exists|k: int| first_non_uuid(member_keys(ms), k) && text@ == ms[k].0),
    {
        Self::objects(body)
    }

    /// Reads the child schema of a relation from the registry's answer: the
    /// first relation listed, or none.
    pub fn relation(items: &Vec<RelationDetails>) -> (r: Result<Option<u128>, ApiError>)
        ensures
            items@.len() == 0 ==> r == Ok::<Option<u128>, ApiError>(None),
            items@.len() > 0 ==> match r {
                Ok(v) => v == uuid_value_of_text(items@[0].child_schema_id@) && v is Some,
                Err(ApiError::InvalidJson { .. }) => false,
                Err(ApiError::InvalidUuid { text }) => uuid_value_of_text(items@[0].child_schema_id@)
                    is None && text@ == items@[0].child_schema_id@,
            },
    {
        if items.len() == 0 {
            return Ok(None);
        }
        let text = &items[0].child_schema_id;
        match crate::ids::parse_uuid(text.as_str()) {
            Some(v) => Ok(Some(v)),
            None => Err(ApiError::InvalidUuid { text: text.clone() }),
        }
    }

    /// Reads the relations of the parent schema `parent_schema_id` from the
    /// registry's answer.
    pub fn schema_relations(parent_schema_id: u128, items: &Vec<RelationDetails>) -> (r: Result<
        Vec<SchemaRelation>,
        ApiError,
    >)
        ensures
            match r {
                Ok(v) => api_child_relations(parent_schema_id, items@) == Some(v@),
                Err(ApiError::InvalidJson { .. }) => false,
                Err(ApiError::InvalidUuid { text }) => api_child_relations(
                    parent_schema_id,
                    items@,
                ) is None && first_failure(
                    items@.map_values(|d: RelationDetails| child_relation_texts(d)),
                    text@,
                ),
            },
    {
        let ghost entries = items@.map_values(|d: RelationDetails| child_relation_texts(d));
        let mut out: Vec<SchemaRelation> = Vec::new();
        let n = items.len();
        for i in 0..n
            invariant
                n == items@.len(),
                entries == items@.map_values(|d: RelationDetails| child_relation_texts(d)),
                out@.len() == i,
                forall|j: int| 0 <= j < i ==> all_uuids(#[trigger] child_relation_texts(items@[j])),
                forall|j: int|
                    0 <= j < i ==> (#[trigger] out@[j]) == (SchemaRelation {
                        relation_id: id_of(items@[j].relation_id@),
                        parent_schema_id: parent_schema_id,
                        child_schema_id: id_of(items@[j].child_schema_id@),
                    }),
        {
            let texts = texts_of_child_relation(&items[i]);
            match parse_entry(&texts) {
                Ok(ids) => {
                    assert(uuid_value_of_text(string_views(texts@)[0]) == Some(ids@[0]));
                    assert(uuid_value_of_text(string_views(texts@)[1]) == Some(ids@[1]));
                    out.push(
                        SchemaRelation {
                            relation_id: ids[0],
                            parent_schema_id: parent_schema_id,
                            child_schema_id: ids[1],
                        },
                    );
                },
                Err(e) => {
                    proof {
                        assert(entries[i as int] == child_relation_texts(items@[i as int]));
                        assert forall|j: int| 0 <= j < i implies all_uuids(#[trigger] entries[j]) by {
                            assert(entries[j] == child_relation_texts(items@[j]));
                        }
                        assert(!all_uuids(child_relation_texts(items@[i as int])));
                    }
                    return Err(e);
                },
            }
        }
        assert(out@ =~= api_child_relations(parent_schema_id, items@)->0);
        Ok(out)
    }

    /// Reads all relations from the registry's answer.
    pub fn all_relations(items: &Vec<RelationDetails>) -> (r: Result<Vec<SchemaRelation>, ApiError>)
        ensures
            match r {
                Ok(v) => api_relations(items@) == Some(v@),
                Err(ApiError::InvalidJson { .. }) => false,
                Err(ApiError::InvalidUuid { text }) => api_relations(items@) is None
                    && first_failure(items@.map_values(|d: RelationDetails| relation_texts(d)), text@),
            },
    {
        let ghost entries = items@.map_values(|d: RelationDetails| relation_texts(d));
        let mut out: Vec<SchemaRelation> = Vec::new();
        let n = items.len();
        for i in 0..n
            invariant
                n == items@.len(),
                entries == items@.map_values(|d: RelationDetails| relation_texts(d)),
                out@.len() == i,
                forall|j: int| 0 <= j < i ==> all_uuids(#[trigger] relation_texts(items@[j])),
                forall|j: int|
                    0 <= j < i ==> (#[trigger] out@[j]) == (SchemaRelation {
                        relation_id: id_of(items@[j].relation_id@),
                        parent_schema_id: id_of(items@[j].parent_schema_id@),
                        child_schema_id: id_of(items@[j].child_schema_id@),
                    }),
        {
            let texts = texts_of_relation(&items[i]);
            match parse_entry(&texts) {
                Ok(ids) => {
                    assert(uuid_value_of_text(string_views(texts@)[0]) == Some(ids@[0]));
                    assert(uuid_value_of_text(string_views(texts@)[1]) == Some(ids@[1]));
                    assert(uuid_value_of_text(string_views(texts@)[2]) == Some(ids@[2]));
                    out.push(
                        SchemaRelation {
                            relation_id: ids[0],
                            parent_schema_id: ids[1],
                            child_schema_id: ids[2],
                        },
                    );
                },
                Err(e) => {
                    proof {
                        assert(entries[i as int] == relation_texts(items@[i as int]));
                        assert forall|j: int| 0 <= j < i implies all_uuids(#[trigger] entries[j]) by {
                            assert(entries[j] == relation_texts(items@[j]));
                        }
                        assert(!all_uuids(relation_texts(items@[i as int])));
                    }
                    return Err(e);
                },
            }
        }
        assert(out@ =~= api_relations(items@)->0);
        Ok(out)
    }

    /// Reads object ids from an answer: every text must be a UUID.
    pub fn parse_object_ids(texts: &Vec<String>) -> (r: Result<Vec<u128>, ApiError>)
        ensures
            match r {
                Ok(ids) => all_uuids(string_views(texts@)) && ids@ == uuids_of(string_views(texts@)),
                Err(ApiError::InvalidJson { .. }) => false,
                Err(ApiError::InvalidUuid { text }) => exists|k: int|
                    first_non_uuid(string_views(texts@), k) && text@ == string_views(texts@)[k],
            },
    {
        parse_entry(texts)
    }

    /// Reads the children of an edge from the registry's answer.
    pub fn edge(child_object_ids: &Vec<String>) -> (r: Result<Vec<u128>, ApiError>)
        ensures
            match r {
                Ok(ids) => all_uuids(string_views(child_object_ids@)) && ids@ == uuids_of(
                    string_views(child_object_ids@),
                ),
                Err(ApiError::InvalidJson { .. }) => false,
                Err(ApiError::InvalidUuid { text }) => exists|k: int|
                    first_non_uuid(string_views(child_object_ids@), k) && text@ == string_views(
                        child_object_ids@,
                    )[k],
            },
    {
        parse_entry(child_object_ids)
    }

    /// Reads one row of a view calculated on demand: every field text must
    /// be a JSON value (checked in order), then every object id a UUID.
    pub fn on_demand_row(fields: &Vec<(String, String)>, object_ids: &Vec<String>) -> (r: Result<
        RowDefinition,
        ApiError,
    >)
        ensures
            match r {
                Ok(row) => row_reads(fields@, object_ids@) && row_read_as(row, fields@, object_ids@),
                Err(e) => !row_reads(fields@, object_ids@) && row_error(fields@, object_ids@, e),
            },
    {
        let mut kept: Vec<(String, String)> = Vec::new();
        let n = fields.len();
        for i in 0..n
            invariant
                n == fields@.len(),
                kept@.len() == i,
                forall|j: int| 0 <= j < i ==> json_text_valid((#[trigger] fields@[j]).1@),
                forall|j: int| 0 <= j < i ==> (#[trigger] kept@[j]) == fields@[j],
        {
            let (name, text) = &fields[i];
            if !serde_json_accepts(text.as_str()) {
                assert(first_invalid_field(fields@, i as int));
                return Err(ApiError::InvalidJson { field: name.clone() });
            }
            kept.push((name.clone(), text.clone()));
        }
        assert(kept@ =~= fields@);
        match parse_entry(object_ids) {
            Ok(ids) => Ok(RowDefinition { object_ids: ids, fields: kept }),
            Err(e) => Err(e),
        }
    }

    /// Reads a view calculated on demand: every row must read, and the view
    /// keeps the request's id and the rows in the order they came.
    pub fn on_demand_view(view_id: u128, rows: &Vec<(Vec<(String, String)>, Vec<String>)>) -> (r:
        Result<MaterializedView, ApiError>)
        ensures
            match r {
                Ok(v) => {
                    &&& v.id == view_id
                    &&& v.rows@.len() == rows@.len()
                    &&& forall|i: int|
                        0 <= i < rows@.len() ==> row_reads((#[trigger] rows@[i]).0@, rows@[i].1@)
                            && row_read_as(v.rows@[i], rows@[i].0@, rows@[i].1@)
                },
                Err(e) => exists|i: int|
                    {
                        &&& 0 <= i < rows@.len()
                        &&& forall|j: int| 0 <= j < i ==> row_reads((#[trigger] rows@[j]).0@, rows@[j].1@)
                        &&& !row_reads(rows@[i].0@, rows@[i].1@)
                        &&& row_error(rows@[i].0@, rows@[i].1@, e)
                    },
            },
    {
        let mut out: Vec<RowDefinition> = Vec::new();
        let n = rows.len();
        for i in 0..n
            invariant
                n == rows@.len(),
                out@.len() == i,
                forall|j: int|
                    0 <= j < i ==> row_reads((#[trigger] rows@[j]).0@, rows@[j].1@) && row_read_as(
                        out@[j],
                        rows@[j].0@,
                        rows@[j].1@,
                    ),
        {
            let (fields, object_ids) = &rows[i];
            match Self::on_demand_row(fields, object_ids) {
                Ok(row) => out.push(row),
                Err(e) => {
                    assert(row_error(rows@[i as int].0@, rows@[i as int].1@, e));
                    return Err(e);
                },
            }
        }
        Ok(MaterializedView { id: view_id, rows: out })
    }

    /// Reads all edges of a parent object from the registry's answer.
    pub fn edges(relations: &Vec<Edge>) -> (r: Result<Vec<EdgeRelations>, ApiError>)
        ensures
            match r {
                Ok(v) => api_edges(relations@) == Some(edge_relations_view(v@)),
                Err(ApiError::InvalidJson { .. }) => false,
                Err(ApiError::InvalidUuid { text }) => api_edges(relations@) is None && first_failure(
                    relations@.map_values(|e: Edge| edge_texts(e)),
                    text@,
                ),
            },
    {
        let ghost entries = relations@.map_values(|e: Edge| edge_texts(e));
        let mut out: Vec<EdgeRelations> = Vec::new();
        let n = relations.len();
        for i in 0..n
            invariant
                n == relations@.len(),
                entries == relations@.map_values(|e: Edge| edge_texts(e)),
                out@.len() == i,
                forall|j: int| 0 <= j < i ==> all_uuids(#[trigger] edge_texts(relations@[j])),
                forall|j: int|
                    0 <= j < i ==> {
                        &&& (#[trigger] out@[j]).relation_id == id_of(relations@[j].relation_id@)
                        &&& out@[j].parent_object_id == id_of(relations@[j].parent_object_id@)
                        &&& out@[j].child_object_ids@ == uuids_of(
                            string_views(relations@[j].child_object_ids@),
                        )
                    },
        {
            let e = &relations[i];
            let texts = texts_of_edge(e);
            match parse_entry(&texts) {
                Ok(ids) => {
                    let ghost views = string_views(texts@);
                    let ghost children = string_views(e.child_object_ids@);
                    assert(uuid_value_of_text(views[0]) == Some(ids@[0]));
                    assert(uuid_value_of_text(views[1]) == Some(ids@[1]));
                    assert(views[0] == e.relation_id@);
                    assert(views[1] == e.parent_object_id@);
                    let mut child_ids: Vec<u128> = Vec::new();
                    let k = ids.len();
                    for j in 2..k
                        invariant
                            k == ids@.len(),
                            2 <= k,
                            views == string_views(texts@),
                            views == edge_texts(*e),
                            children == string_views(e.child_object_ids@),
                            ids@ == uuids_of(views),
                            all_uuids(views),
                            child_ids@.len() == j - 2,
                            forall|m: int| 0 <= m < j - 2 ==> (#[trigger] child_ids@[m]) == ids@[m + 2],
                    {
                        child_ids.push(ids[j]);
                    }
                    assert forall|m: int| 0 <= m < children.len() implies uuid_value_of_text(
                        #[trigger] children[m],
                    ) is Some by {
                        assert(views[m + 2] == children[m]);
                    }
                    assert(child_ids@ =~= uuids_of(children)) by {
                        assert forall|m: int| 0 <= m < children.len() implies child_ids@[m]
                            == uuids_of(children)[m] by {
                            assert(views[m + 2] == children[m]);
                        }
                    }
                    out.push(
                        EdgeRelations {
                            relation_id: ids[0],
                            parent_object_id: ids[1],
                            child_object_ids: child_ids,
                        },
                    );
                },
                Err(err) => {
                    proof {
                        assert(entries[i as int] == edge_texts(relations@[i as int]));
                        assert forall|j: int| 0 <= j < i implies all_uuids(#[trigger] entries[j]) by {
                            assert(entries[j] == edge_texts(relations@[j]));
                        }
                        assert(!all_uuids(edge_texts(relations@[i as int])));
                    }
                    return Err(err);
                },
            }
        }
        assert(edge_relations_view(out@) =~= api_edges(relations@)->0);
        Ok(out)
    }
}

/// What the registry answers for relations, the API reads back unchanged:
/// a list that `EdgeRegistryImpl::relation_list` made from rows
/// `(relation, parent, child)` reads as exactly those relations.
pub proof fn lemma_api_reads_relation_list(rows: Seq<(u128, u128, u128)>, items: Seq<RelationDetails>)
    requires
        items.len() == rows.len(),
        forall|i: int|
            0 <= i < rows.len() ==> {
                &&& (#[trigger] items[i]).relation_id@ == uuid_text(rows[i].0)
                &&& items[i].parent_schema_id@ == uuid_text(rows[i].1)
                &&& items[i].child_schema_id@ == uuid_text(rows[i].2)
            },
    ensures
        api_relations(items) == Some(
            Seq::new(
                rows.len(),
                |i: int|
                    SchemaRelation {
                        relation_id: rows[i].0,
                        parent_schema_id: rows[i].1,
                        child_schema_id: rows[i].2,
                    },
            ),
        ),
{
    assert forall|i: int| 0 <= i < items.len() implies all_uuids(#[trigger] relation_texts(items[i])) && id_of(
        items[i].relation_id@,
    ) == rows[i].0 && id_of(items[i].parent_schema_id@) == rows[i].1 && id_of(
        items[i].child_schema_id@,
    ) == rows[i].2 by {
        lemma_uuid_text_roundtrip(rows[i].0);
        lemma_uuid_text_roundtrip(rows[i].1);
        lemma_uuid_text_roundtrip(rows[i].2);
        let t = relation_texts(items[i]);
        assert forall|k: int| 0 <= k < t.len() implies (#[trigger] uuid_value_of_text(t[k])) is Some by {
        }
    }
    assert(forall|i: int| 0 <= i < items.len() ==> all_uuids(#[trigger] relation_texts(items[i])));
    assert(api_relations(items) is Some);
    assert forall|i: int| 0 <= i < items.len() implies id_of((#[trigger] items[i]).relation_id@) == rows[i].0
        && id_of(items[i].parent_schema_id@) == rows[i].1 && id_of(items[i].child_schema_id@)
        == rows[i].2 by {
        lemma_uuid_text_roundtrip(rows[i].0);
        lemma_uuid_text_roundtrip(rows[i].1);
        lemma_uuid_text_roundtrip(rows[i].2);
    }
    assert(api_relations(items)->0 =~= Seq::new(
        rows.len(),
        |i: int|
            SchemaRelation {
                relation_id: rows[i].0,
                parent_schema_id: rows[i].1,
                child_schema_id: rows[i].2,
            },
    ));
}

/// A list that `EdgeRegistryImpl::schema_relation_list` made from rows
/// `(relation, child)` of a parent schema reads, in `QueryRoot::schema_relations`,
/// as exactly those relations of that parent.
pub proof fn lemma_api_reads_schema_relation_list(
    parent: u128,
    rows: Seq<(u128, u128)>,
    items: Seq<RelationDetails>,
)
    requires
        items.len() == rows.len(),
        forall|i: int|
            0 <= i < rows.len() ==> {
                &&& (#[trigger] items[i]).relation_id@ == uuid_text(rows[i].0)
                &&& items[i].child_schema_id@ == uuid_text(rows[i].1)
            },
    ensures
        api_child_relations(parent, items) == Some(
            Seq::new(
                rows.len(),
                |i: int|
                    SchemaRelation {
                        relation_id: rows[i].0,
                        parent_schema_id: parent,
                        child_schema_id: rows[i].1,
                    },
            ),
        ),
{
    assert forall|i: int| 0 <= i < items.len() implies all_uuids(
        #[trigger] child_relation_texts(items[i]),
    ) && id_of(items[i].relation_id@) == rows[i].0 && id_of(items[i].child_schema_id@) == rows[i].1 by {
        lemma_uuid_text_roundtrip(rows[i].0);
        lemma_uuid_text_roundtrip(rows[i].1);
        let t = child_relation_texts(items[i]);
        assert forall|k: int| 0 <= k < t.len() implies (#[trigger] uuid_value_of_text(t[k])) is Some by {
        }
    }
    assert(forall|i: int| 0 <= i < items.len() ==> all_uuids(#[trigger] child_relation_texts(items[i])));
    assert(api_child_relations(parent, items) is Some);
    assert forall|i: int| 0 <= i < items.len() implies id_of((#[trigger] items[i]).relation_id@) == rows[i].0
        && id_of(items[i].child_schema_id@) == rows[i].1 by {
        lemma_uuid_text_roundtrip(rows[i].0);
        lemma_uuid_text_roundtrip(rows[i].1);
    }
    assert(api_child_relations(parent, items)->0 =~= Seq::new(
        rows.len(),
        |i: int|
            SchemaRelation {
                relation_id: rows[i].0,
                parent_schema_id: parent,
                child_schema_id: rows[i].1,
            },
    ));
}

/// The edges that `EdgeRegistryImpl::object_edges` made from the rows
/// `(relation, child)` of a parent object read, in `QueryRoot::edges`, as the
/// runs of those rows, each with that parent.
pub proof fn lemma_api_reads_object_edges(object_id: u128, rows: Seq<(u128, u128)>, edges: Seq<Edge>)
    requires
        edges.len() == group_runs(rows).len(),
        forall|i: int|
            0 <= i < edges.len() ==> edge_of_group(
                #[trigger] edges[i],
                object_id,
                group_runs(rows)[i].0,
                group_runs(rows)[i].1,
            ),
    ensures
        api_edges(edges) == Some(
            group_runs(rows).map_values(|g: (u128, Seq<u128>)| (g.0, object_id, g.1)),
        ),
{
    let groups = group_runs(rows);
    assert forall|i: int| 0 <= i < edges.len() implies all_uuids(#[trigger] edge_texts(edges[i]))
        && id_of(edges[i].relation_id@) == groups[i].0 && id_of(edges[i].parent_object_id@)
        == object_id && uuids_of(string_views(edges[i].child_object_ids@)) == groups[i].1 by {
        assert(edge_of_group(edges[i], object_id, groups[i].0, groups[i].1));
        lemma_uuid_text_roundtrip(groups[i].0);
        lemma_uuid_text_roundtrip(object_id);
        lemma_uuid_texts_roundtrip(groups[i].1);
        let t = edge_texts(edges[i]);
        let cs = string_views(edges[i].child_object_ids@);
        assert forall|k: int| 0 <= k < t.len() implies (#[trigger] uuid_value_of_text(t[k])) is Some by {
            if k >= 2 {
                assert(t[k] == cs[k - 2]);
                assert(uuid_value_of_text(uuid_texts(groups[i].1)[k - 2]) is Some);
            }
        }
    }
    assert(forall|i: int| 0 <= i < edges.len() ==> all_uuids(#[trigger] edge_texts(edges[i])));
    assert(api_edges(edges) is Some);
    assert forall|i: int| 0 <= i < edges.len() implies id_of((#[trigger] edges[i]).relation_id@) == groups[i].0
        && id_of(edges[i].parent_object_id@) == object_id && uuids_of(
        string_views(edges[i].child_object_ids@),
    ) == groups[i].1 by {
        assert(edge_of_group(edges[i], object_id, groups[i].0, groups[i].1));
        lemma_uuid_text_roundtrip(groups[i].0);
        lemma_uuid_text_roundtrip(object_id);
        lemma_uuid_texts_roundtrip(groups[i].1);
    }
    assert(api_edges(edges)->0 =~= groups.map_values(|g: (u128, Seq<u128>)| (g.0, object_id, g.1)));
}

/// The UUID texts of the first `i` ids are 36 characters each.
proof fn lemma_uuid_texts_total_len(ids: Seq<u128>, i: int)
    requires
        0 <= i <= ids.len(),
    ensures
        total_len(uuid_texts(ids).take(i)) == 36 * i,
    decreases i,
{
    if i > 0 {
        lemma_uuid_texts_total_len(ids, i - 1);
        assert(uuid_texts(ids).take(i).drop_last() =~= uuid_texts(ids).take(i - 1));
    }
}

/// The id list of `QueryRoot::objects_url` names every requested id, in
/// order, each as its 36-character text, with one comma between each two:
/// the `i`-th id stands at `37 * i`, and the list is `37 * n - 1` long for
/// `n` ids (empty for none).
pub proof fn lemma_objects_url_names_every_id(ids: Seq<u128>)
    ensures
        ids.len() == 0 ==> seq_join(uuid_texts(ids), ","@) == Seq::<char>::empty(),
        ids.len() > 0 ==> seq_join(uuid_texts(ids), ","@).len() == 37 * ids.len() - 1,
        forall|i: int, j: int|
            0 <= i < ids.len() && 0 <= j < 36 ==> seq_join(uuid_texts(ids), ","@)[37 * i + j]
                == #[trigger] uuid_text(ids[i])[j],
        forall|i: int|
            0 <= i < ids.len() - 1 ==> #[trigger] seq_join(uuid_texts(ids), ","@)[37 * i + 36]
                == ',',
{
    reveal_strlit(",");
    let list = uuid_texts(ids);
    lemma_join_keeps_every_text(list, ","@);
    lemma_join_places_every_text(list, ","@);
    lemma_uuid_texts_total_len(ids, ids.len() as int);
    assert(list.take(ids.len() as int) =~= list);
    assert forall|i: int| 0 <= i <= ids.len() implies text_offset(list, ","@, i) == 37 * i by {
        lemma_uuid_texts_total_len(ids, i);
    }
    assert forall|i: int, j: int| 0 <= i < ids.len() && 0 <= j < 36 implies seq_join(list, ","@)[37
        * i + j] == #[trigger] uuid_text(ids[i])[j] by {
        assert(list[i] == uuid_text(ids[i]));
        assert(text_offset(list, ","@, i) == 37 * i);
    }
    assert forall|i: int| 0 <= i < ids.len() - 1 implies #[trigger] seq_join(list, ","@)[37 * i + 36]
        == ',' by {
        assert(list[i] == uuid_text(ids[i]));
        assert(text_offset(list, ","@, i) == 37 * i);
        assert(seq_join(list, ","@)[text_offset(list, ","@, i) + list[i].len() + 0] == ","@[0]);
    }
}

} // verus!
