use vstd::prelude::*;
use vstd::string::*;

use crate::mochow::api::enums::ReadConsistency;
use crate::mochow::client::{HttpMethod, HttpRequest, request_url, url_of};
use crate::mochow::config::ClientConfiguration;
use crate::mochow::json::{
    FloatBits, JsonValue, entries, entry, float_array, float_matrix, has_distances, i32_at,
    is_entry, is_float_array, is_float_matrix, is_str_array, is_str_entry, opt_len,
    push_distances, read_i32, read_str, str_array, str_at, str_entry, field,
    lemma_lookup_first, lemma_lookup_absent,
};

verus! {

/// Inserts rows; a row whose primary key exists already is an error. The
/// service takes at most 1000 rows a batch and rejects larger ones itself.
#[derive(Debug, Clone)]
pub struct InsertRowArgs<T> {
    pub database: String,
    pub table: String,
    pub rows: Vec<T>,
}

/// Inserts rows or overwrites those whose primary key exists. At most 1000
/// rows a batch, checked by the service.
#[derive(Debug, Clone)]
pub struct UpsertRowArgs<T> {
    pub database: String,
    pub table: String,
    pub rows: Vec<T>,
}

/// The JSON body of a batch of rows: `database`, `table`, then `rows`, the
/// batch itself, unchanged.
pub open spec fn is_rows_body(j: JsonValue, database: String, table: String, rows: Vec<JsonValue>) -> bool {
    let es = entries(j);
    &&& j is Object
    &&& es.len() == 3
    &&& is_str_entry(es[0], "database"@, database@)
    &&& is_str_entry(es[1], "table"@, table@)
    &&& is_entry(es[2], "rows"@, JsonValue::Array(rows))
}

fn rows_body(database: String, table: String, rows: Vec<JsonValue>) -> (r: JsonValue)
    ensures
        is_rows_body(r, database, table, rows),
{
    let mut es: Vec<(String, JsonValue)> = Vec::new();
    es.push(str_entry("database", database));
    es.push(str_entry("table", table));
    es.push(entry("rows", JsonValue::Array(rows)));
    JsonValue::Object(es)
}

impl InsertRowArgs<JsonValue> {
    /// Post `row?insert`, answered by [`InsertRowsResponse`]. The rows go out
    /// as given, however many there are.
    pub fn into_request(self, config: &ClientConfiguration) -> (r: HttpRequest)
        ensures
            r.method == HttpMethod::Post,
            r.url@ == url_of(config.endpoint@, config.version@, "row"@, "insert"@),
            r.body matches Some(b) && is_rows_body(b, self.database, self.table, self.rows),
    {
        let url = request_url(config, "row", "insert");
        let body = rows_body(self.database, self.table, self.rows);
        HttpRequest { method: HttpMethod::Post, url, body: Some(body) }
    }
}

impl UpsertRowArgs<JsonValue> {
    /// Post `row?upsert`, answered by [`UpsertRowsResponse`]. The rows go out
    /// as given, however many there are.
    pub fn into_request(self, config: &ClientConfiguration) -> (r: HttpRequest)
        ensures
            r.method == HttpMethod::Post,
            r.url@ == url_of(config.endpoint@, config.version@, "row"@, "upsert"@),
            r.body matches Some(b) && is_rows_body(b, self.database, self.table, self.rows),
    {
        let url = request_url(config, "row", "upsert");
        let body = rows_body(self.database, self.table, self.rows);
        HttpRequest { method: HttpMethod::Post, url, body: Some(body) }
    }
}

/// The answer to an insertion: how many rows were written.
#[derive(Debug, Clone)]
pub struct InsertRowsResponse {
    pub code: i32,
    pub msg: String,
    pub affected_count: i32,
}

/// The answer to an upsert: how many rows were written.
#[derive(Debug, Clone)]
pub struct UpsertRowsResponse {
    pub code: i32,
    pub msg: String,
    pub affected_count: i32,
}

/// Whether an answer to a write decodes: `code`, `msg` and `affectedCount` are required.
pub open spec fn write_response_decodes(j: JsonValue) -> bool {
    i32_at(j, "code"@) is Some && str_at(j, "msg"@) is Some && i32_at(j, "affectedCount"@) is Some
}

fn read_write_response(j: &JsonValue) -> (r: Option<(i32, String, i32)>)
    ensures
        r is Some <==> write_response_decodes(*j),
        r matches Some(t) ==> i32_at(*j, "code"@) == Some(t.0) && str_at(*j, "msg"@) == Some(t.1@)
            && i32_at(*j, "affectedCount"@) == Some(t.2),
{
    let code = match read_i32(j, "code") {
        Some(c) => c,
        None => {
            return None;
        },
    };
    let msg = match read_str(j, "msg") {
        Some(m) => m,
        None => {
            return None;
        },
    };
    let affected = match read_i32(j, "affectedCount") {
        Some(n) => n,
        None => {
            return None;
        },
    };
    Some((code, msg, affected))
}

impl InsertRowsResponse {
    pub fn from_json(j: &JsonValue) -> (r: Option<InsertRowsResponse>)
        ensures
            r is Some <==> write_response_decodes(*j),
            r matches Some(x) ==> i32_at(*j, "code"@) == Some(x.code) && str_at(*j, "msg"@) == Some(
                x.msg@,
            ) && i32_at(*j, "affectedCount"@) == Some(x.affected_count),
    {
        match read_write_response(j) {
            Some((code, msg, affected_count)) => Some(InsertRowsResponse { code, msg, affected_count }),
            None => None,
        }
    }
}

impl UpsertRowsResponse {
    pub fn from_json(j: &JsonValue) -> (r: Option<UpsertRowsResponse>)
        ensures
            r is Some <==> write_response_decodes(*j),
            r matches Some(x) ==> i32_at(*j, "code"@) == Some(x.code) && str_at(*j, "msg"@) == Some(
                x.msg@,
            ) && i32_at(*j, "affectedCount"@) == Some(x.affected_count),
    {
        match read_write_response(j) {
            Some((code, msg, affected_count)) => Some(UpsertRowsResponse { code, msg, affected_count }),
            None => None,
        }
    }
}

/// Updates scalar fields of the row with a given primary key.
#[derive(Debug)]
pub struct UpdateRowArgs {
    pub database: String,
    pub table: String,
    pub primary_key: JsonValue,
    /// Needed only when the partition key is not the primary key.
    pub partition_ey: Option<JsonValue>,
    /// The fields to change and their new values.
    pub update: JsonValue,
}

impl UpdateRowArgs {
    /// The JSON body: `database`, `table`, `primaryKey`, `partitionKey` when set, `update`.
    pub open spec fn encoded_by(&self, j: JsonValue) -> bool {
        let es = entries(j);
        let p_update = 3 + opt_len(self.partition_ey);
        &&& j is Object
        &&& es.len() == p_update + 1
        &&& is_str_entry(es[0], "database"@, self.database@)
        &&& is_str_entry(es[1], "table"@, self.table@)
        &&& is_entry(es[2], "primaryKey"@, self.primary_key)
        &&& (self.partition_ey matches Some(k) ==> is_entry(es[3], "partitionKey"@, k))
        &&& is_entry(es[p_update], "update"@, self.update)
    }

    /// Post `row?update`, answered by [`crate::mochow::api::common::CommonResponse`].
    pub fn into_request(self, config: &ClientConfiguration) -> (r: HttpRequest)
        ensures
            r.method == HttpMethod::Post,
            r.url@ == url_of(config.endpoint@, config.version@, "row"@, "update"@),
            r.body matches Some(b) && self.encoded_by(b),
    {
        let ghost old_self = self;
        let url = request_url(config, "row", "update");
        let mut es: Vec<(String, JsonValue)> = Vec::new();
        es.push(str_entry("database", self.database));
        es.push(str_entry("table", self.table));
        es.push(entry("primaryKey", self.primary_key));
        match self.partition_ey {
            Some(k) => es.push(entry("partitionKey", k)),
            None => {},
        }
        es.push(entry("update", self.update));
        let body = JsonValue::Object(es);
        assert(old_self.encoded_by(body));
        HttpRequest { method: HttpMethod::Post, url, body: Some(body) }
    }
}

/// Deletes rows by primary key, or those a filter selects.
#[derive(Debug)]
pub struct DeleteRowArgs {
    pub database: String,
    pub table: String,
    pub primary_key: Option<JsonValue>,
    pub partition_ey: Option<JsonValue>,
    /// A condition in the syntax of an SQL `WHERE` clause.
    pub filter: Option<String>,
}

impl DeleteRowArgs {
    /// The JSON body: `database`, `table`, then `primaryKey`, `partitionKey`
    /// and `filter` when set.
    pub open spec fn encoded_by(&self, j: JsonValue) -> bool {
        let es = entries(j);
        let p_part = 2 + opt_len(self.primary_key);
        let p_filter = p_part + opt_len(self.partition_ey);
        &&& j is Object
        &&& es.len() == p_filter + opt_len(self.filter)
        &&& is_str_entry(es[0], "database"@, self.database@)
        &&& is_str_entry(es[1], "table"@, self.table@)
        &&& (self.primary_key matches Some(k) ==> is_entry(es[2], "primaryKey"@, k))
        &&& (self.partition_ey matches Some(k) ==> is_entry(es[p_part], "partitionKey"@, k))
        &&& (self.filter matches Some(f) ==> is_str_entry(es[p_filter], "filter"@, f@))
    }

    /// Post `row?delete`, answered by [`crate::mochow::api::common::CommonResponse`].
    pub fn into_request(self, config: &ClientConfiguration) -> (r: HttpRequest)
        ensures
            r.method == HttpMethod::Post,
            r.url@ == url_of(config.endpoint@, config.version@, "row"@, "delete"@),
            r.body matches Some(b) && self.encoded_by(b),
    {
        let ghost old_self = self;
        let url = request_url(config, "row", "delete");
        let mut es: Vec<(String, JsonValue)> = Vec::new();
        es.push(str_entry("database", self.database));
        es.push(str_entry("table", self.table));
        match self.primary_key {
            Some(k) => es.push(entry("primaryKey", k)),
            None => {},
        }
        match self.partition_ey {
            Some(k) => es.push(entry("partitionKey", k)),
            None => {},
        }
        match self.filter {
            Some(f) => es.push(str_entry("filter", f)),
            None => {},
        }
        let body = JsonValue::Object(es);
        assert(old_self.encoded_by(body));
        HttpRequest { method: HttpMethod::Post, url, body: Some(body) }
    }
}

/// Reads the row with a given primary key.
#[derive(Debug)]
pub struct QueryRowArgs {
    pub database: String,
    pub table: String,
    pub primary_key: JsonValue,
    pub partition_key: Option<JsonValue>,
    /// The fields to return; all scalar fields when not set.
    pub projections: Option<Vec<String>>,
    /// Whether vector fields are returned too.
    pub retrieve_vector: Option<bool>,
    pub read_consistency: Option<ReadConsistency>,
}

impl QueryRowArgs {
    /// The JSON body: `database`, `table`, `primaryKey`, then
    /// `partitionKey`, `projections`, `retrieveVector` and `readConsistency` when set.
    pub open spec fn encoded_by(&self, j: JsonValue) -> bool {
        let es = entries(j);
        let p_proj = 3 + opt_len(self.partition_key);
        let p_vec = p_proj + opt_len(self.projections);
        let p_cons = p_vec + opt_len(self.retrieve_vector);
        &&& j is Object
        &&& es.len() == p_cons + opt_len(self.read_consistency)
        &&& is_str_entry(es[0], "database"@, self.database@)
        &&& is_str_entry(es[1], "table"@, self.table@)
        &&& is_entry(es[2], "primaryKey"@, self.primary_key)
        &&& (self.partition_key matches Some(k) ==> is_entry(es[3], "partitionKey"@, k))
        &&& (self.projections matches Some(p) ==> es[p_proj].0@ == "projections"@ && is_str_array(
            es[p_proj].1,
            p@,
        ))
        &&& (self.retrieve_vector matches Some(b) ==> is_entry(
            es[p_vec],
            "retrieveVector"@,
            JsonValue::Bool(b),
        ))
        &&& (self.read_consistency matches Some(c) ==> is_str_entry(
            es[p_cons],
            "readConsistency"@,
            c.wire_name_spec(),
        ))
    }

    /// Post `row?query`, answered by [`QueryRowsResponse`].
    pub fn into_request(self, config: &ClientConfiguration) -> (r: HttpRequest)
        ensures
            r.method == HttpMethod::Post,
            r.url@ == url_of(config.endpoint@, config.version@, "row"@, "query"@),
            r.body matches Some(b) && self.encoded_by(b),
    {
        let ghost old_self = self;
        let url = request_url(config, "row", "query");
        let mut es: Vec<(String, JsonValue)> = Vec::new();
        es.push(str_entry("database", self.database));
        es.push(str_entry("table", self.table));
        es.push(entry("primaryKey", self.primary_key));
        match self.partition_key {
            Some(k) => es.push(entry("partitionKey", k)),
            None => {},
        }
        match self.projections {
            Some(p) => es.push(entry("projections", str_array(p))),
            None => {},
        }
        match self.retrieve_vector {
            Some(b) => es.push(entry("retrieveVector", JsonValue::Bool(b))),
            None => {},
        }
        match self.read_consistency {
            Some(c) => es.push(str_entry("readConsistency", c.wire_name())),
            None => {},
        }
        let body = JsonValue::Object(es);
        assert(old_self.encoded_by(body));
        HttpRequest { method: HttpMethod::Post, url, body: Some(body) }
    }
}

/// The answer to [`QueryRowArgs`]: the row, in the caller's type.
#[derive(Debug, Clone)]
pub struct QueryRowsResponse<T> {
    pub code: i32,
    pub msg: String,
    pub row: T,
}

/// Search parameters of a FLAT index.
#[derive(Debug, Clone, Copy, PartialEq, Eq, Structural)]
pub struct FLATSearchParams {
    pub limit: u32,
    /// Farthest distance of a range search.
    pub distance_far: Option<FloatBits>,
    /// Nearest distance of a range search.
    pub distance_near: Option<FloatBits>,
}

/// Search parameters of an HNSW index.
#[derive(Debug, Clone, Copy, PartialEq, Eq, Structural)]
pub struct HNSWSearchParams {
    /// Size of the dynamic candidate list.
    pub ef: u32,
    pub limit: u32,
    pub distance_far: Option<FloatBits>,
    pub distance_near: Option<FloatBits>,
    pub pruning: bool,
}

/// Search parameters of an HNSWPQ index.
#[derive(Debug, Clone, Copy, PartialEq, Eq, Structural)]
pub struct HNSWPQSearchParams {
    pub ef: u32,
    pub limit: u32,
    pub distance_far: Option<FloatBits>,
    pub distance_near: Option<FloatBits>,
}

/// Search parameters of a PUCK index.
#[derive(Debug, Clone, Copy, PartialEq, Eq, Structural)]
pub struct PUCKSearchParams {
    /// Size of the candidate set of coarse cluster centers.
    pub search_coarse_count: u32,
    pub limit: u32,
    pub distance_far: Option<FloatBits>,
    pub distance_near: Option<FloatBits>,
}

/// The number of rows a search returns when nothing else is asked.
pub const DEFAULT_LIMIT: u32 = 50;

impl FLATSearchParams {
    /// A search for the default number of rows, with no range.
    pub fn new() -> (r: FLATSearchParams)
        ensures
            r.limit == DEFAULT_LIMIT && r.distance_far is None && r.distance_near is None,
    {
        FLATSearchParams { limit: DEFAULT_LIMIT, distance_far: None, distance_near: None }
    }
}

impl HNSWSearchParams {
    /// A search with candidate list `ef` for the default number of rows, with
    /// no range and no pruning.
    pub fn new(ef: u32) -> (r: HNSWSearchParams)
        ensures
            r.ef == ef && r.limit == DEFAULT_LIMIT && r.distance_far is None
                && r.distance_near is None && !r.pruning,
    {
        HNSWSearchParams {
            ef,
            limit: DEFAULT_LIMIT,
            distance_far: None,
            distance_near: None,
            pruning: false,
        }
    }
}

impl HNSWPQSearchParams {
    /// A search with candidate list `ef` for the default number of rows, with no range.
    pub fn new(ef: u32) -> (r: HNSWPQSearchParams)
        ensures
            r.ef == ef && r.limit == DEFAULT_LIMIT && r.distance_far is None
                && r.distance_near is None,
    {
        HNSWPQSearchParams { ef, limit: DEFAULT_LIMIT, distance_far: None, distance_near: None }
    }
}

impl PUCKSearchParams {
    /// A search of `search_coarse_count` coarse centers for the default
    /// number of rows, with no range.
    pub fn new(search_coarse_count: u32) -> (r: PUCKSearchParams)
        ensures
            r.search_coarse_count == search_coarse_count && r.limit == DEFAULT_LIMIT
                && r.distance_far is None && r.distance_near is None,
    {
        PUCKSearchParams {
            search_coarse_count,
            limit: DEFAULT_LIMIT,
            distance_far: None,
            distance_near: None,
        }
    }
}

/// The search parameters for the kind of index searched; sent without a tag.
#[derive(Debug, Clone, Copy, PartialEq, Eq, Structural)]
pub enum VectorSearchParams {
    FLAT(FLATSearchParams),
    HNSW(HNSWSearchParams),
    HNSWPQ(HNSWPQSearchParams),
    PUCK(PUCKSearchParams),
}

impl VectorSearchParams {
    /// The JSON object: the members of the variant, in order, optional
    /// distances only when set, and no tag.
    pub open spec fn encoded_by(&self, j: JsonValue) -> bool {
        let es = entries(j);
        &&& j is Object
        &&& match self {
            VectorSearchParams::FLAT(p) => {
                &&& es.len() == 1 + opt_len(p.distance_far) + opt_len(p.distance_near)
                &&& is_entry(es[0], "limit"@, JsonValue::Int(p.limit as i128))
                &&& has_distances(es, 1, p.distance_far, p.distance_near)
            },
            VectorSearchParams::HNSW(p) => {
                let p_pruning = 2 + opt_len(p.distance_far) + opt_len(p.distance_near);
                &&& es.len() == p_pruning + 1
                &&& is_entry(es[0], "ef"@, JsonValue::Int(p.ef as i128))
                &&& is_entry(es[1], "limit"@, JsonValue::Int(p.limit as i128))
                &&& has_distances(es, 2, p.distance_far, p.distance_near)
                &&& is_entry(es[p_pruning], "pruning"@, JsonValue::Bool(p.pruning))
            },
            VectorSearchParams::HNSWPQ(p) => {
                &&& es.len() == 2 + opt_len(p.distance_far) + opt_len(p.distance_near)
                &&& is_entry(es[0], "ef"@, JsonValue::Int(p.ef as i128))
                &&& is_entry(es[1], "limit"@, JsonValue::Int(p.limit as i128))
                &&& has_distances(es, 2, p.distance_far, p.distance_near)
            },
            VectorSearchParams::PUCK(p) => {
                &&& es.len() == 2 + opt_len(p.distance_far) + opt_len(p.distance_near)
                &&& is_entry(es[0], "searchCoarseCount"@, JsonValue::Int(p.search_coarse_count as i128))
                &&& is_entry(es[1], "limit"@, JsonValue::Int(p.limit as i128))
                &&& has_distances(es, 2, p.distance_far, p.distance_near)
            },
        }
    }

    pub fn to_json(&self) -> (r: JsonValue)
        ensures
            self.encoded_by(r),
    {
        let mut es: Vec<(String, JsonValue)> = Vec::new();
        match self {
            VectorSearchParams::FLAT(p) => {
                es.push(entry("limit", JsonValue::Int(p.limit as i128)));
                push_distances(&mut es, p.distance_far, p.distance_near);
            },
            VectorSearchParams::HNSW(p) => {
                es.push(entry("ef", JsonValue::Int(p.ef as i128)));
                es.push(entry("limit", JsonValue::Int(p.limit as i128)));
                push_distances(&mut es, p.distance_far, p.distance_near);
                es.push(entry("pruning", JsonValue::Bool(p.pruning)));
            },
            VectorSearchParams::HNSWPQ(p) => {
                es.push(entry("ef", JsonValue::Int(p.ef as i128)));
                es.push(entry("limit", JsonValue::Int(p.limit as i128)));
                push_distances(&mut es, p.distance_far, p.distance_near);
            },
            VectorSearchParams::PUCK(p) => {
                es.push(entry("searchCoarseCount", JsonValue::Int(p.search_coarse_count as i128)));
                es.push(entry("limit", JsonValue::Int(p.limit as i128)));
                push_distances(&mut es, p.distance_far, p.distance_near);
            },
        }
        JsonValue::Object(es)
    }
}

/// An approximate nearest-neighbour search for one vector.
#[derive(Debug, Clone)]
pub struct AnnsSearchParams {
    pub vector_field: String,
    /// The target vector.
    pub vector_floats: Vec<FloatBits>,
    pub params: VectorSearchParams,
    /// A condition on scalar fields, in the syntax of an SQL `WHERE` clause.
    pub filter: Option<String>,
}

/// An approximate nearest-neighbour search for several vectors at once.
#[derive(Debug, Clone)]
pub struct BatchAnnsSearchParams {
    pub vector_field: String,
    /// The target vectors.
    pub vector_floats: Vec<Vec<FloatBits>>,
    pub params: VectorSearchParams,
    pub filter: Option<String>,
}

impl AnnsSearchParams {
    /// The JSON object: `vectorField`, `vectorFloats`, `params`, then `filter` when set.
    pub open spec fn encoded_by(&self, j: JsonValue) -> bool {
        let es = entries(j);
        &&& j is Object
        &&& es.len() == 3 + opt_len(self.filter)
        &&& is_str_entry(es[0], "vectorField"@, self.vector_field@)
        &&& es[1].0@ == "vectorFloats"@ && is_float_array(es[1].1, self.vector_floats@)
        &&& es[2].0@ == "params"@ && self.params.encoded_by(es[2].1)
        &&& (self.filter matches Some(f) ==> is_str_entry(es[3], "filter"@, f@))
    }

    pub fn to_json(self) -> (r: JsonValue)
        ensures
            self.encoded_by(r),
    {
        let ghost old_self = self;
        let mut es: Vec<(String, JsonValue)> = Vec::new();
        es.push(str_entry("vectorField", self.vector_field));
        es.push(entry("vectorFloats", float_array(&self.vector_floats)));
        es.push(entry("params", self.params.to_json()));
        match self.filter {
            Some(f) => es.push(str_entry("filter", f)),
            None => {},
        }
        let r = JsonValue::Object(es);
        assert(old_self.encoded_by(r));
        r
    }
}

impl BatchAnnsSearchParams {
    /// The JSON object: `vectorField`, `vectorFloats`, `params`, then `filter` when set.
    pub open spec fn encoded_by(&self, j: JsonValue) -> bool {
        let es = entries(j);
        &&& j is Object
        &&& es.len() == 3 + opt_len(self.filter)
        &&& is_str_entry(es[0], "vectorField"@, self.vector_field@)
        &&& es[1].0@ == "vectorFloats"@ && is_float_matrix(es[1].1, self.vector_floats@)
        &&& es[2].0@ == "params"@ && self.params.encoded_by(es[2].1)
        &&& (self.filter matches Some(f) ==> is_str_entry(es[3], "filter"@, f@))
    }

    pub fn to_json(self) -> (r: JsonValue)
        ensures
            self.encoded_by(r),
    {
        let ghost old_self = self;
        let mut es: Vec<(String, JsonValue)> = Vec::new();
        es.push(str_entry("vectorField", self.vector_field));
        es.push(entry("vectorFloats", float_matrix(&self.vector_floats)));
        es.push(entry("params", self.params.to_json()));
        match self.filter {
            Some(f) => es.push(str_entry("filter", f)),
            None => {},
        }
        let r = JsonValue::Object(es);
        assert(old_self.encoded_by(r));
        r
    }
}

/// The members a search adds after its `anns`: `partitionKey`,
/// `projections`, `retrieveVector` and `readConsistency`, each when set, from `p`.
pub open spec fn has_search_options(
    es: Seq<(String, JsonValue)>,
    p: int,
    partition_key: Option<JsonValue>,
    projections: Option<Vec<String>>,
    retrieve_vector: Option<bool>,
    read_consistency: Option<String>,
) -> bool {
    let p_proj = p + opt_len(partition_key);
    let p_vec = p_proj + opt_len(projections);
    let p_cons = p_vec + opt_len(retrieve_vector);
    &&& es.len() == p_cons + opt_len(read_consistency)
    &&& (partition_key matches Some(k) ==> is_entry(es[p], "partitionKey"@, k))
    &&& (projections matches Some(v) ==> es[p_proj].0@ == "projections"@ && is_str_array(
        es[p_proj].1,
        v@,
    ))
    &&& (retrieve_vector matches Some(b) ==> is_entry(es[p_vec], "retrieveVector"@, JsonValue::Bool(b)))
    &&& (read_consistency matches Some(c) ==> is_str_entry(es[p_cons], "readConsistency"@, c@))
}

fn push_search_options(
    es: &mut Vec<(String, JsonValue)>,
    partition_key: Option<JsonValue>,
    projections: Option<Vec<String>>,
    retrieve_vector: Option<bool>,
    read_consistency: Option<String>,
)
    ensures
        forall|i: int| 0 <= i < old(es)@.len() ==> final(es)@[i] == old(es)@[i],
        has_search_options(
            final(es)@,
            old(es)@.len() as int,
            partition_key,
            projections,
            retrieve_vector,
            read_consistency,
        ),
{
    match partition_key {
        Some(k) => es.push(entry("partitionKey", k)),
        None => {},
    }
    match projections {
        Some(p) => es.push(entry("projections", str_array(p))),
        None => {},
    }
    match retrieve_vector {
        Some(b) => es.push(entry("retrieveVector", JsonValue::Bool(b))),
        None => {},
    }
    match read_consistency {
        Some(c) => es.push(str_entry("readConsistency", c)),
        None => {},
    }
}

/// Searches the rows nearest to a vector, optionally filtered on scalar fields.
#[derive(Debug)]
pub struct SearchRowsArgs {
    pub database: String,
    pub table: String,
    pub anns: AnnsSearchParams,
    pub partition_ey: Option<JsonValue>,
    pub projections: Option<Vec<String>>,
    pub retrieve_vector: Option<bool>,
    pub read_consistency: Option<String>,
}

impl SearchRowsArgs {
    /// The JSON body: `database`, `table`, `anns`, then the options when set.
    pub open spec fn encoded_by(&self, j: JsonValue) -> bool {
        let es = entries(j);
        &&& j is Object
        &&& is_str_entry(es[0], "database"@, self.database@)
        &&& is_str_entry(es[1], "table"@, self.table@)
        &&& es[2].0@ == "anns"@ && self.anns.encoded_by(es[2].1)
        &&& has_search_options(
            es,
            3,
            self.partition_ey,
            self.projections,
            self.retrieve_vector,
            self.read_consistency,
        )
    }

    /// Post `row?search`, answered by [`SearchRowsResponse`].
    pub fn into_request(self, config: &ClientConfiguration) -> (r: HttpRequest)
        ensures
            r.method == HttpMethod::Post,
            r.url@ == url_of(config.endpoint@, config.version@, "row"@, "search"@),
            r.body matches Some(b) && self.encoded_by(b),
    {
        let ghost old_self = self;
        let url = request_url(config, "row", "search");
        let mut es: Vec<(String, JsonValue)> = Vec::new();
        es.push(str_entry("database", self.database));
        es.push(str_entry("table", self.table));
        es.push(entry("anns", self.anns.to_json()));
        push_search_options(
            &mut es,
            self.partition_ey,
            self.projections,
            self.retrieve_vector,
            self.read_consistency,
        );
        let body = JsonValue::Object(es);
        assert(old_self.encoded_by(body));
        HttpRequest { method: HttpMethod::Post, url, body: Some(body) }
    }
}

/// Searches the rows nearest to each of several vectors.
#[derive(Debug)]
pub struct BatchSearchRowsArgs {
    pub database: String,
    pub table: String,
    pub anns: BatchAnnsSearchParams,
    pub partition_ey: Option<JsonValue>,
    pub projections: Option<Vec<String>>,
    pub retrieve_vector: Option<bool>,
    pub read_consistency: Option<String>,
}

impl BatchSearchRowsArgs {
    /// The JSON body: `database`, `table`, `anns`, then the options when set.
    pub open spec fn encoded_by(&self, j: JsonValue) -> bool {
        let es = entries(j);
        &&& j is Object
        &&& is_str_entry(es[0], "database"@, self.database@)
        &&& is_str_entry(es[1], "table"@, self.table@)
        &&& es[2].0@ == "anns"@ && self.anns.encoded_by(es[2].1)
        &&& has_search_options(
            es,
            3,
            self.partition_ey,
            self.projections,
            self.retrieve_vector,
            self.read_consistency,
        )
    }

    /// Post `row?batchSearch`, answered by [`BatchSearchRowsResponse`].
    pub fn into_request(self, config: &ClientConfiguration) -> (r: HttpRequest)
        ensures
            r.method == HttpMethod::Post,
            r.url@ == url_of(config.endpoint@, config.version@, "row"@, "batchSearch"@),
            r.body matches Some(b) && self.encoded_by(b),
    {
        let ghost old_self = self;
        let url = request_url(config, "row", "batchSearch");
        let mut es: Vec<(String, JsonValue)> = Vec::new();
        es.push(str_entry("database", self.database));
        es.push(str_entry("table", self.table));
        es.push(entry("anns", self.anns.to_json()));
        push_search_options(
            &mut es,
            self.partition_ey,
            self.projections,
            self.retrieve_vector,
            self.read_consistency,
        );
        let body = JsonValue::Object(es);
        assert(old_self.encoded_by(body));
        HttpRequest { method: HttpMethod::Post, url, body: Some(body) }
    }
}

/// A row found by a search, with its distance to the target vector and its
/// score (higher is more similar).
#[derive(Debug, Clone)]
pub struct RowResult<T> {
    pub row: T,
    pub distance: FloatBits,
    pub score: FloatBits,
}

/// The answer to [`SearchRowsArgs`].
#[derive(Debug, Clone)]
pub struct SearchRowsResponse<T> {
    pub code: i32,
    pub msg: String,
    pub rows: Vec<RowResult<T>>,
}

/// The rows found for one vector of a batch search.
#[derive(Debug, Clone)]
pub struct BatchRowResult<T> {
    pub search_vector_floats: Vec<FloatBits>,
    pub rows: Vec<RowResult<T>>,
}

/// The answer to [`BatchSearchRowsArgs`]: one result for each vector.
#[derive(Debug, Clone)]
pub struct BatchSearchRowsResponse<T> {
    pub code: i32,
    pub msg: String,
    pub results: Vec<BatchRowResult<T>>,
}

/// Reads the rows that a filter on scalar fields selects, a page at a time.
#[derive(Debug)]
pub struct SelectRowsArgs {
    pub database: String,
    pub table: String,
    pub filter: Option<String>,
    /// Where the page starts; the first matching row when not set.
    pub marker: Option<JsonValue>,
    pub limit: Option<u32>,
    pub projections: Option<Vec<String>>,
    pub read_consistency: Option<String>,
}

/// A page of selected rows; when `is_truncated`, `next_marker` is where the next page starts.
#[derive(Debug)]
pub struct SelectRowsResponse<T> {
    pub code: i32,
    pub msg: String,
    pub rows: Vec<T>,
    pub is_truncated: bool,
    pub next_marker: JsonValue,
}

impl SelectRowsArgs {
    /// The JSON body: `database`, `table`, then `filter`, `marker`, `limit`,
    /// `projections` and `readConsistency` when set.
    pub open spec fn encoded_by(&self, j: JsonValue) -> bool {
        let es = entries(j);
        let p_marker = 2 + opt_len(self.filter);
        let p_limit = p_marker + opt_len(self.marker);
        let p_proj = p_limit + opt_len(self.limit);
        let p_cons = p_proj + opt_len(self.projections);
        &&& j is Object
        &&& es.len() == p_cons + opt_len(self.read_consistency)
        &&& is_str_entry(es[0], "database"@, self.database@)
        &&& is_str_entry(es[1], "table"@, self.table@)
        &&& (self.filter matches Some(f) ==> is_str_entry(es[2], "filter"@, f@))
        &&& (self.marker matches Some(m) ==> is_entry(es[p_marker], "marker"@, m))
        &&& (self.limit matches Some(n) ==> is_entry(es[p_limit], "limit"@, JsonValue::Int(n as i128)))
        &&& (self.projections matches Some(v) ==> es[p_proj].0@ == "projections"@ && is_str_array(
            es[p_proj].1,
            v@,
        ))
        &&& (self.read_consistency matches Some(c) ==> is_str_entry(
            es[p_cons],
            "readConsistency"@,
            c@,
        ))
    }

    /// Post `row?select`, answered by [`SelectRowsResponse`].
    pub fn into_request(self, config: &ClientConfiguration) -> (r: HttpRequest)
        ensures
            r.method == HttpMethod::Post,
            r.url@ == url_of(config.endpoint@, config.version@, "row"@, "select"@),
            r.body matches Some(b) && self.encoded_by(b),
    {
        let ghost old_self = self;
        let url = request_url(config, "row", "select");
        let mut es: Vec<(String, JsonValue)> = Vec::new();
        es.push(str_entry("database", self.database));
        es.push(str_entry("table", self.table));
        match self.filter {
            Some(f) => es.push(str_entry("filter", f)),
            None => {},
        }
        match self.marker {
            Some(m) => es.push(entry("marker", m)),
            None => {},
        }
        match self.limit {
            Some(n) => es.push(entry("limit", JsonValue::Int(n as i128))),
            None => {},
        }
        match self.projections {
            Some(p) => es.push(entry("projections", str_array(p))),
            None => {},
        }
        match self.read_consistency {
            Some(c) => es.push(str_entry("readConsistency", c)),
            None => {},
        }
        let body = JsonValue::Object(es);
        assert(old_self.encoded_by(body));
        HttpRequest { method: HttpMethod::Post, url, body: Some(body) }
    }

    /// Moves to the page after `page`: when `page` was truncated, its next
    /// marker becomes this request's marker and `true` comes back; otherwise
    /// nothing changes and `false` comes back, as there is no next page.
    pub fn advance<T>(&mut self, page: SelectRowsResponse<T>) -> (more: bool)
        ensures
            more == page.is_truncated,
            more ==> final(self).marker == Some(page.next_marker),
            more ==> final(self).database == old(self).database && final(self).table == old(
                self,
            ).table && final(self).filter == old(self).filter && final(self).limit == old(self).limit
                && final(self).projections == old(self).projections
                && final(self).read_consistency == old(self).read_consistency,
            !more ==> *final(self) == *old(self),
    {
        if page.is_truncated {
            self.marker = Some(page.next_marker);
            true
        } else {
            false
        }
    }
}

/// After a truncated page, the next request sends the page's `nextMarker`
/// as its `marker`: a request advanced past `page` encodes to a body
/// whose `marker` member is `page.next_marker`.
pub proof fn lemma_next_page_marker<T>(
    page: SelectRowsResponse<T>,
    next: SelectRowsArgs,
    j: JsonValue,
)
    requires
        page.is_truncated,
        next.marker == Some(page.next_marker),
        next.encoded_by(j),
    ensures
        field(j, "marker"@) == Some(page.next_marker),
{
    lemma_select_rows_members(next, j);
}

/// Each optional member of a select body is there exactly when it is set,
/// with the value set: the marker verbatim, the others in their JSON form.
pub proof fn lemma_select_rows_members(args: SelectRowsArgs, j: JsonValue)
    requires
        args.encoded_by(j),
    ensures
        field(j, "marker"@) == args.marker,
        field(j, "filter"@) is Some <==> args.filter is Some,
        args.filter matches Some(f) ==> str_at(j, "filter"@) == Some(f@),
        field(j, "limit"@) == (match args.limit {
            Some(n) => Some(JsonValue::Int(n as i128)),
            None => None,
        }),
        field(j, "projections"@) is Some <==> args.projections is Some,
        args.projections matches Some(p) ==> is_str_array(field(j, "projections"@)->0, p@),
        field(j, "readConsistency"@) is Some <==> args.read_consistency is Some,
        args.read_consistency matches Some(c) ==> str_at(j, "readConsistency"@) == Some(c@),
{
    reveal_strlit("database");
    reveal_strlit("table");
    reveal_strlit("filter");
    reveal_strlit("marker");
    reveal_strlit("limit");
    reveal_strlit("projections");
    reveal_strlit("readConsistency");
    assert("database"@.len() == 8);
    assert("table"@.len() == 5);
    assert("filter"@.len() == 6);
    assert("marker"@.len() == 6);
    assert("limit"@.len() == 5);
    assert("projections"@.len() == 11);
    assert("readConsistency"@.len() == 15);
    assert("filter"@[0] == 'f' && "marker"@[0] == 'm');
    assert("limit"@[0] == 'l' && "table"@[0] == 't');
    let es = entries(j);
    let p_marker = 2 + opt_len(args.filter);
    let p_limit = p_marker + opt_len(args.marker);
    let p_proj = p_limit + opt_len(args.limit);
    let p_cons = p_proj + opt_len(args.projections);
    if args.filter is Some {
        assert forall|i: int| 0 <= i < 2 implies es[i].0@ != "filter"@ by {
            if i == 0 {
            } else if i == 1 {
            } else if args.filter is Some && i == 2 {
            } else if args.marker is Some && i == p_marker {
            } else if args.limit is Some && i == p_limit {
            } else if args.projections is Some && i == p_proj {
            } else {
            }
        }
        lemma_lookup_first(es, "filter"@, 2);
    } else {
        assert forall|i: int| 0 <= i < es.len() implies es[i].0@ != "filter"@ by {
            if i == 0 {
            } else if i == 1 {
            } else if args.filter is Some && i == 2 {
            } else if args.marker is Some && i == p_marker {
            } else if args.limit is Some && i == p_limit {
            } else if args.projections is Some && i == p_proj {
            } else {
            }
        }
        lemma_lookup_absent(es, "filter"@);
    }
    if args.marker is Some {
        assert forall|i: int| 0 <= i < p_marker implies es[i].0@ != "marker"@ by {
            if i == 0 {
            } else if i == 1 {
            } else if args.filter is Some && i == 2 {
            } else if args.marker is Some && i == p_marker {
            } else if args.limit is Some && i == p_limit {
            } else if args.projections is Some && i == p_proj {
            } else {
            }
        }
        lemma_lookup_first(es, "marker"@, p_marker);
    } else {
        assert forall|i: int| 0 <= i < es.len() implies es[i].0@ != "marker"@ by {
            if i == 0 {
            } else if i == 1 {
            } else if args.filter is Some && i == 2 {
            } else if args.marker is Some && i == p_marker {
            } else if args.limit is Some && i == p_limit {
            } else if args.projections is Some && i == p_proj {
            } else {
            }
        }
        lemma_lookup_absent(es, "marker"@);
    }
    if args.limit is Some {
        assert forall|i: int| 0 <= i < p_limit implies es[i].0@ != "limit"@ by {
            if i == 0 {
            } else if i == 1 {
            } else if args.filter is Some && i == 2 {
            } else if args.marker is Some && i == p_marker {
            } else if args.limit is Some && i == p_limit {
            } else if args.projections is Some && i == p_proj {
            } else {
            }
        }
        lemma_lookup_first(es, "limit"@, p_limit);
    } else {
        assert forall|i: int| 0 <= i < es.len() implies es[i].0@ != "limit"@ by {
            if i == 0 {
            } else if i == 1 {
            } else if args.filter is Some && i == 2 {
            } else if args.marker is Some && i == p_marker {
            } else if args.limit is Some && i == p_limit {
            } else if args.projections is Some && i == p_proj {
            } else {
            }
        }
        lemma_lookup_absent(es, "limit"@);
    }
    if args.projections is Some {
        assert forall|i: int| 0 <= i < p_proj implies es[i].0@ != "projections"@ by {
            if i == 0 {
            } else if i == 1 {
            } else if args.filter is Some && i == 2 {
            } else if args.marker is Some && i == p_marker {
            } else if args.limit is Some && i == p_limit {
            } else if args.projections is Some && i == p_proj {
            } else {
            }
        }
        lemma_lookup_first(es, "projections"@, p_proj);
    } else {
        assert forall|i: int| 0 <= i < es.len() implies es[i].0@ != "projections"@ by {
            if i == 0 {
            } else if i == 1 {
            } else if args.filter is Some && i == 2 {
            } else if args.marker is Some && i == p_marker {
            } else if args.limit is Some && i == p_limit {
            } else if args.projections is Some && i == p_proj {
            } else {
            }
        }
        lemma_lookup_absent(es, "projections"@);
    }
    if args.read_consistency is Some {
        assert forall|i: int| 0 <= i < p_cons implies es[i].0@ != "readConsistency"@ by {
            if i == 0 {
            } else if i == 1 {
            } else if args.filter is Some && i == 2 {
            } else if args.marker is Some && i == p_marker {
            } else if args.limit is Some && i == p_limit {
            } else if args.projections is Some && i == p_proj {
            } else {
            }
        }
        lemma_lookup_first(es, "readConsistency"@, p_cons);
    } else {
        assert forall|i: int| 0 <= i < es.len() implies es[i].0@ != "readConsistency"@ by {
            if i == 0 {
            } else if i == 1 {
            } else if args.filter is Some && i == 2 {
            } else if args.marker is Some && i == p_marker {
            } else if args.limit is Some && i == p_limit {
            } else if args.projections is Some && i == p_proj {
            } else {
            }
        }
        lemma_lookup_absent(es, "readConsistency"@);
    }
}

} // verus!
