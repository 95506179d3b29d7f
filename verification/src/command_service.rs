//! The command service's decisions: how an insert message is stored by the
//! Druid and PostgreSQL outputs, and how its outcome is counted.
use vstd::prelude::*;
use crate::ids::{uuid_text, uuid_to_string};
use crate::json::{json_text_valid, serde_json_accepts};
use crate::text::{decimal_text, u64_to_text};

verus! {

/// How the handling of an insert message ended.
#[derive(Debug)]
pub enum Resolution {
    StorageLayerFailure { description: String },
    CommandServiceFailure,
    UserFailure { description: String, context: String },
    Success,
}

/// The counter that the message router increments for a resolution.
pub open spec fn post_process_counter_name(r: Resolution) -> Seq<char> {
    match r {
        Resolution::StorageLayerFailure { .. } => "cdl.command-service.post-process.storage-failure"@,
        Resolution::CommandServiceFailure => "cdl.command-service.post-process.command-failure"@,
        Resolution::UserFailure { .. } => "cdl.command-service.post-process.user-failure"@,
        Resolution::Success => "cdl.command-service.post-process.success"@,
    }
}

impl Resolution {
    /// The counter that `MessageRouter::handle_message` increments once the
    /// output has handled a message.
    pub fn post_process_counter(&self) -> (name: &'static str)
        ensures
            name@ == post_process_counter_name(*self),
    {
        match self {
            Resolution::StorageLayerFailure { .. } => "cdl.command-service.post-process.storage-failure",
            Resolution::CommandServiceFailure => "cdl.command-service.post-process.command-failure",
            Resolution::UserFailure { .. } => "cdl.command-service.post-process.user-failure",
            Resolution::Success => "cdl.command-service.post-process.success",
        }
    }
}

/// One entry of a timeseries message: its fields, as compact JSON text, and
/// its timestamp.
pub struct TimeseriesEntry {
    pub fields: String,
    pub ts: u64,
}

/// A record that the Druid output sends to Kafka.
pub struct DruidRecord {
    pub topic: String,
    pub key: String,
    pub payload: String,
    pub timestamp: i64,
}

/// How long the Druid output's producer tries to deliver a record, in
/// milliseconds, as the producer's setting reads it.
pub const DRUID_MESSAGE_TIMEOUT_MS: &'static str = "5000";

/// The most connections the PostgreSQL output's pool holds.
pub const PSQL_POOL_MAX_SIZE: u32 = 20;

/// How long the PostgreSQL output waits for a pooled connection, in seconds.
pub const PSQL_CONNECTION_TIMEOUT_SECS: u64 = 120;

/// The counter of records the Druid output has sent.
pub const DRUID_STORE_COUNTER: &'static str = "cdl.command-service.store.druid";

/// The counter of messages the PostgreSQL output has stored.
pub const PSQL_STORE_COUNTER: &'static str = "cdl.command-service.store.psql";

/// The Druid output: the topic its records go to.
pub struct DruidOutputPlugin {
    pub topic: String,
}

/// The JSON text of the record payload for one timeseries entry: fields,
/// timestamp, object id and schema id, in this order, without whitespace.
pub open spec fn druid_payload_text(fields: Seq<char>, ts: u64, object_id: u128, schema_id: u128) -> Seq<
    char,
> {
    "{\"fields\":"@ + fields + ",\"ts\":"@ + decimal_text(ts as nat) + ",\"object_id\":\""@
        + uuid_text(object_id) + "\",\"schema_id\":\""@ + uuid_text(schema_id) + "\"}"@
}

impl DruidOutputPlugin {
    /// The output that sends to `topic`.
    pub fn new(topic: String) -> (p: Self)
        ensures
            p.topic == topic,
    {
        DruidOutputPlugin { topic }
    }

    /// The output's name.
    pub fn name(&self) -> (n: &'static str)
        ensures
            n@ == "Druid timeseries"@,
    {
        "Druid timeseries"
    }

    /// The record payload for one timeseries entry.
    pub fn payload(fields: &str, ts: u64, object_id: u128, schema_id: u128) -> (p: String)
        ensures
            p@ == druid_payload_text(fields@, ts, object_id, schema_id),
    {
        let mut p = "{\"fields\":".to_owned();
        p.append(fields);
        p.append(",\"ts\":");
        p.append(u64_to_text(ts).as_str());
        p.append(",\"object_id\":\"");
        p.append(uuid_to_string(object_id).as_str());
        p.append("\",\"schema_id\":\"");
        p.append(uuid_to_string(schema_id).as_str());
        p.append("\"}");
        p
    }

    /// The payloads of a message, from its data read as a list of timeseries
    /// entries; data that does not read so is the user's failure, described
    /// by the reader's error and given with the data as context.
    pub fn deserialize_payloads(
        parsed: Result<Vec<TimeseriesEntry>, String>,
        data: &str,
        object_id: u128,
        schema_id: u128,
    ) -> (r: Result<Vec<String>, Resolution>)
        ensures
            match parsed {
                Ok(entries) => r matches Ok(ps) && ps@.len() == entries@.len() && forall|i: int|
                    0 <= i < ps@.len() ==> (#[trigger] ps@[i])@ == druid_payload_text(
                        entries@[i].fields@,
                        entries@[i].ts,
                        object_id,
                        schema_id,
                    ),
                Err(e) => r matches Err(Resolution::UserFailure { description, context })
                    && description == e && context@ == data@,
            },
    {
        match parsed {
            Err(e) => Err(Resolution::UserFailure { description: e, context: data.to_owned() }),
            Ok(entries) => {
                let mut ps: Vec<String> = Vec::new();
                let n = entries.len();
                for i in 0..n
                    invariant
                        n == entries@.len(),
                        ps@.len() == i,
                        forall|j: int|
                            0 <= j < i ==> (#[trigger] ps@[j])@ == druid_payload_text(
                                entries@[j].fields@,
                                entries@[j].ts,
                                object_id,
                                schema_id,
                            ),
                {
                    ps.push(
                        Self::payload(entries[i].fields.as_str(), entries[i].ts, object_id, schema_id),
                    );
                }
                Ok(ps)
            },
        }
    }

    /// The records of a message's payloads: each goes to the output's topic,
    /// keyed by the object id, with the message's timestamp.
    pub fn records(&self, object_id: u128, timestamp: i64, payloads: &Vec<String>) -> (rs: Vec<
        DruidRecord,
    >)
        ensures
            rs@.len() == payloads@.len(),
            forall|i: int|
                0 <= i < rs@.len() ==> {
                    &&& (#[trigger] rs@[i]).topic@ == self.topic@
                    &&& rs@[i].key@ == uuid_text(object_id)
                    &&& rs@[i].payload@ == payloads@[i]@
                    &&& rs@[i].timestamp == timestamp
                },
    {
        let mut rs: Vec<DruidRecord> = Vec::new();
        let n = payloads.len();
        for i in 0..n
            invariant
                n == payloads@.len(),
                rs@.len() == i,
                forall|j: int|
                    0 <= j < i ==> {
                        &&& (#[trigger] rs@[j]).topic@ == self.topic@
                        &&& rs@[j].key@ == uuid_text(object_id)
                        &&& rs@[j].payload@ == payloads@[j]@
                        &&& rs@[j].timestamp == timestamp
                    },
        {
            rs.push(
                DruidRecord {
                    topic: self.topic.clone(),
                    key: uuid_to_string(object_id),
                    payload: payloads[i].clone(),
                    timestamp,
                },
            );
        }
        rs
    }

    /// How `handle_message` ends: a message whose data did not read fails
    /// as reading failed; otherwise its records are all sent and the message
    /// succeeds, whatever each send reported.
    pub fn handle_message_resolution(payloads: Result<Vec<String>, Resolution>) -> (r: Resolution)
        ensures
            match payloads {
                Ok(_) => r is Success,
                Err(e) => r == e,
            },
    {
        match payloads {
            Ok(_) => Resolution::Success,
            Err(e) => e,
        }
    }
}

/// The PostgreSQL output: the database schema its `data` table lives in.
pub struct PostgresOutputPlugin {
    pub schema: String,
}

/// A schema name that may not stand in the output's statements.
#[derive(Debug)]
pub struct InvalidSchemaName {
    pub schema: String,
}

/// Whether a character may stand in a schema name: an ASCII letter or digit,
/// or an underscore.
pub open spec fn schema_name_char(c: char) -> bool {
    let n = c as int;
    (48 <= n <= 57) || (65 <= n <= 90) || (97 <= n <= 122) || n == 95
}

/// Whether `schema` may name the output's schema: each of its characters is
/// an ASCII letter or digit or an underscore, so it can stand unquoted in the
/// statements.
pub open spec fn valid_schema_name(schema: Seq<char>) -> bool {
    forall|i: int| 0 <= i < schema.len() ==> schema_name_char(#[trigger] schema[i])
}

/// Checks a schema name.
pub fn validate_schema(schema: &str) -> (valid: bool)
    ensures
        valid == valid_schema_name(schema@),
{
    let n = schema.unicode_len();
    for i in 0..n
        invariant
            n == schema@.len(),
            forall|j: int| 0 <= j < i ==> schema_name_char(#[trigger] schema@[j]),
    {
        let c = schema.get_char(i);
        let ok = ('0' <= c && c <= '9') || ('A' <= c && c <= 'Z') || ('a' <= c && c <= 'z') || c == '_';
        if !ok {
            return false;
        }
    }
    true
}

/// What the PostgreSQL output does with a message once it has tried to get a
/// connection: stop with a resolution, or run the insertion.
pub enum PsqlDecision {
    Finish { resolution: Resolution },
    Store { statement: String },
}

impl PostgresOutputPlugin {
    /// The output that writes to `schema`; a name that is not valid is
    /// refused.
    pub fn new(schema: String) -> (r: Result<Self, InvalidSchemaName>)
        ensures
            valid_schema_name(schema@) ==> (r matches Ok(p) && p.schema == schema),
            !valid_schema_name(schema@) ==> (r matches Err(e) && e.schema == schema),
    {
        if !validate_schema(schema.as_str()) {
            return Err(InvalidSchemaName { schema });
        }
        Ok(PostgresOutputPlugin { schema })
    }

    /// The output's name.
    pub fn name(&self) -> (n: &'static str)
        ensures
            n@ == "PostgreSQL"@,
    {
        "PostgreSQL"
    }

    /// The statement that stores a message.
    pub fn insert_statement(&self) -> (s: String)
        ensures
            s@ == "INSERT INTO "@ + self.schema@
                + ".data (object_id, version, schema_id, payload) VALUES ($1, $2, $3, $4)"@,
    {
        let mut s = "INSERT INTO ".to_owned();
        s.append(self.schema.as_str());
        s.append(".data (object_id, version, schema_id, payload) VALUES ($1, $2, $3, $4)");
        s
    }

    /// First step of `handle_message`: without a connection, or with data
    /// that is no JSON value, the command service fails; otherwise the
    /// message is stored.
    pub fn begin(&self, connected: bool, data: &str) -> (d: PsqlDecision)
        ensures
            !connected ==> (d matches PsqlDecision::Finish { resolution }
                && resolution is CommandServiceFailure),
            connected && !json_text_valid(data@) ==> (d matches PsqlDecision::Finish { resolution }
                && resolution is CommandServiceFailure),
            connected && json_text_valid(data@) ==> (d matches PsqlDecision::Store { statement }
                && statement@ == "INSERT INTO "@ + self.schema@
                + ".data (object_id, version, schema_id, payload) VALUES ($1, $2, $3, $4)"@),
    {
        if !connected {
            return PsqlDecision::Finish { resolution: Resolution::CommandServiceFailure };
        }
        if !serde_json_accepts(data) {
            return PsqlDecision::Finish { resolution: Resolution::CommandServiceFailure };
        }
        PsqlDecision::Store { statement: self.insert_statement() }
    }

    /// Last step of `handle_message`: a stored message succeeds; a failed
    /// insertion is the storage layer's failure, described by its error.
    pub fn finish(store: Result<(), String>) -> (r: Resolution)
        ensures
            match store {
                Ok(()) => r is Success,
                Err(e) => r == (Resolution::StorageLayerFailure { description: e }),
            },
    {
        match store {
            Ok(()) => Resolution::Success,
            Err(e) => Resolution::StorageLayerFailure { description: e },
        }
    }
}

/// A valid schema name stands in a statement as one bare identifier: it
/// holds no blank, quote, semicolon, dot, hyphen, parenthesis or comment
/// mark that could end the name or start another part of the statement.
pub proof fn lemma_valid_schema_name_is_one_identifier(schema: Seq<char>)
    requires
        valid_schema_name(schema),
    ensures
        forall|i: int|
            0 <= i < schema.len() ==> {
                let c = #[trigger] schema[i];
                &&& c != ' ' && c != '\t' && c != '\n'
                &&& c != '\'' && c != '"' && c != '`'
                &&& c != ';' && c != '.' && c != '-' && c != '(' && c != ')' && c != '/'
            },
{
    assert forall|i: int| 0 <= i < schema.len() implies {
        let c = #[trigger] schema[i];
        &&& c != ' ' && c != '\t' && c != '\n'
        &&& c != '\'' && c != '"' && c != '`'
        &&& c != ';' && c != '.' && c != '-' && c != '(' && c != ')' && c != '/'
    } by {
        assert(schema_name_char(schema[i]));
    }
}

/// Each way a message can end is counted under a counter of its own: the
/// four counters differ from one another.
pub proof fn lemma_post_process_counters_differ(a: Resolution, b: Resolution)
    requires
        (a is StorageLayerFailure) != (b is StorageLayerFailure) || (a is CommandServiceFailure) != (b is CommandServiceFailure)
            || (a is UserFailure) != (b is UserFailure) || (a is Success) != (b is Success),
    ensures
        post_process_counter_name(a) != post_process_counter_name(b),
{
    reveal_strlit("cdl.command-service.post-process.storage-failure");
    reveal_strlit("cdl.command-service.post-process.command-failure");
    reveal_strlit("cdl.command-service.post-process.user-failure");
    reveal_strlit("cdl.command-service.post-process.success");
    let sf = "cdl.command-service.post-process.storage-failure"@;
    let cf = "cdl.command-service.post-process.command-failure"@;
    let uf = "cdl.command-service.post-process.user-failure"@;
    let ok = "cdl.command-service.post-process.success"@;
    assert(sf[33] != cf[33]);
    assert(sf.len() != uf.len());
    assert(sf.len() != ok.len());
    assert(cf.len() != uf.len());
    assert(cf.len() != ok.len());
    assert(uf.len() != ok.len());
}

} // verus!
