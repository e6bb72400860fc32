use vstd::prelude::*;
use vstd::string::*;

use crate::mochow::client::{HttpMethod, HttpRequest, request_url, url_of};
use crate::mochow::config::ClientConfiguration;
use crate::mochow::api::enums::{
    AutoBuildPolicyType, IndexState, IndexType, MetricType,
    lemma_auto_build_policy_type_wire_round_trip, lemma_index_type_wire_round_trip,
    lemma_metric_type_wire_round_trip,
};
use crate::mochow::json::{
    FloatBits, JsonValue, absent_or_null, bool_or_false, entries, entry, field, float_at,
    float_or_zero, get_present, is_object, is_entry, is_str_entry, is_str_object, lemma_lookup_absent,
    lemma_lookup_first, opt_len, opt_name_at, opt_u64_at, read_bool_or_false, read_float,
    read_float_or_zero, read_opt_text, read_opt_u64, read_text_or_empty, read_u32,
    read_u64_or_zero, str_entry, text_or_empty, u32_at, u64_or_zero, i32_at, str_at, read_i32,
    read_str, get_field,
};
use crate::mochow::api::table::indexes_to_json;

verus! {

/// Describes an index.
#[derive(Debug, Clone)]
pub struct DescriptIndexArgs {
    pub database: String,
    pub table: String,
    pub index_name: String,
}

impl DescriptIndexArgs {
    pub fn new(database: &str, table: &str, index_name: &str) -> (r: DescriptIndexArgs)
        ensures
            r.database@ == database@,
            r.table@ == table@,
            r.index_name@ == index_name@,
    {
        DescriptIndexArgs { database: String::from_str(database), table: String::from_str(table), index_name: String::from_str(index_name) }
    }

    /// The JSON body: `database`, `table`, `indexName`, in that order.
    pub open spec fn encoded_by(&self, j: JsonValue) -> bool {
        is_str_object(j, seq!["database"@, "table"@, "indexName"@], seq![self.database@, self.table@, self.index_name@])
    }

    /// Post `index?desc`, answered by [`DescriptIndexResponse`].
    pub fn into_request(self, config: &ClientConfiguration) -> (r: HttpRequest)
        ensures
            r.method == HttpMethod::Post,
            r.url@ == url_of(config.endpoint@, config.version@, "index"@, "desc"@),
            r.body matches Some(b) && self.encoded_by(b),
    {
        let url = request_url(config, "index", "desc");
        let ghost old_self = self;
        let mut es: Vec<(String, JsonValue)> = Vec::new();
        es.push(str_entry("database", self.database));
        es.push(str_entry("table", self.table));
        es.push(str_entry("indexName", self.index_name));
        let body = JsonValue::Object(es);
        proof {
            assert(old_self.encoded_by(body));
        }
        HttpRequest { method: HttpMethod::Post, url, body: Some(body) }
    }
}

/// Rebuilds a vector index.
#[derive(Debug, Clone)]
pub struct RebuildIndexArgs {
    pub database: String,
    pub table: String,
    pub index_name: String,
}

impl RebuildIndexArgs {
    pub fn new(database: &str, table: &str, index_name: &str) -> (r: RebuildIndexArgs)
        ensures
            r.database@ == database@,
            r.table@ == table@,
            r.index_name@ == index_name@,
    {
        RebuildIndexArgs { database: String::from_str(database), table: String::from_str(table), index_name: String::from_str(index_name) }
    }

    /// The JSON body: `database`, `table`, `indexName`, in that order.
    pub open spec fn encoded_by(&self, j: JsonValue) -> bool {
        is_str_object(j, seq!["database"@, "table"@, "indexName"@], seq![self.database@, self.table@, self.index_name@])
    }

    /// Post `index?rebuild`, answered by [`CommonResponse`].
    pub fn into_request(self, config: &ClientConfiguration) -> (r: HttpRequest)
        ensures
            r.method == HttpMethod::Post,
            r.url@ == url_of(config.endpoint@, config.version@, "index"@, "rebuild"@),
            r.body matches Some(b) && self.encoded_by(b),
    {
        let url = request_url(config, "index", "rebuild");
        let ghost old_self = self;
        let mut es: Vec<(String, JsonValue)> = Vec::new();
        es.push(str_entry("database", self.database));
        es.push(str_entry("table", self.table));
        es.push(str_entry("indexName", self.index_name));
        let body = JsonValue::Object(es);
        proof {
            assert(old_self.encoded_by(body));
        }
        HttpRequest { method: HttpMethod::Post, url, body: Some(body) }
    }
}

/// Deletes an index.
#[derive(Debug, Clone)]
pub struct DeleteIndexArgs {
    pub database: String,
    pub table: String,
    pub index_name: String,
}

impl DeleteIndexArgs {
    pub fn new(database: &str, table: &str, index_name: &str) -> (r: DeleteIndexArgs)
        ensures
            r.database@ == database@,
            r.table@ == table@,
            r.index_name@ == index_name@,
    {
        DeleteIndexArgs { database: String::from_str(database), table: String::from_str(table), index_name: String::from_str(index_name) }
    }

    /// The JSON body: `database`, `table`, `indexName`, in that order.
    pub open spec fn encoded_by(&self, j: JsonValue) -> bool {
        is_str_object(j, seq!["database"@, "table"@, "indexName"@], seq![self.database@, self.table@, self.index_name@])
    }

    /// Delete `index`, answered by [`CommonResponse`].
    pub fn into_request(self, config: &ClientConfiguration) -> (r: HttpRequest)
        ensures
            r.method == HttpMethod::Delete,
            r.url@ == url_of(config.endpoint@, config.version@, "index"@, Seq::<char>::empty()),
            r.body matches Some(b) && self.encoded_by(b),
    {
        let url = request_url(config, "index", "");
        proof {
            reveal_strlit("");
        }
        let ghost old_self = self;
        let mut es: Vec<(String, JsonValue)> = Vec::new();
        es.push(str_entry("database", self.database));
        es.push(str_entry("table", self.table));
        es.push(str_entry("indexName", self.index_name));
        let body = JsonValue::Object(es);
        proof {
            assert(old_self.encoded_by(body));
        }
        HttpRequest { method: HttpMethod::Delete, url, body: Some(body) }
    }
}

/// Parameters of an HNSW index.
#[derive(Debug, Clone, Copy, PartialEq, Eq, Structural)]
pub struct HNSWIndexParam {
    /// Neighbours of each node of the graph, in [4, 128].
    pub m: u32,
    /// Candidates kept while building, in [8, 1024].
    pub ef_construction: u32,
}

/// Parameters of an HNSW index with product quantization.
#[derive(Debug, Clone, Copy, PartialEq, Eq, Structural)]
pub struct HNSWPQIndexParam {
    pub m: u32,
    pub ef_construction: u32,
    /// Number of quantization subspaces, in [1, dim].
    pub nsq: u32,
    /// Sampling rate of k-means, in [0.0, 1.0].
    pub sample_rate: FloatBits,
}

/// Parameters of a PUCK index.
#[derive(Debug, Clone, Copy, PartialEq, Eq, Structural)]
pub struct PUCKIndexParam {
    /// Coarse cluster centers, in [1, 5000].
    pub coarse_cluster_count: u32,
    /// Fine cluster centers under each coarse one, in [1, 5000].
    pub fine_cluster_count: u32,
}

/// The parameters of a vector index. On the wire no member names the
/// variant: it is told by which members are present.
#[derive(Debug, Clone, Copy, PartialEq, Eq, Structural)]
pub enum VectorIndexParams {
    HNSWPQ(HNSWPQIndexParam),
    HNSW(HNSWIndexParam),
    PUCK(PUCKIndexParam),
}

/// The variant that a JSON object's members make: HNSWPQ when `M`,
/// `efConstruction`, `NSQ` and `sampleRate` are all there, else HNSW when
/// `M` and `efConstruction` are, else PUCK when `coarseClusterCount` and
/// `fineClusterCount` are.
pub open spec fn index_params_of(j: JsonValue) -> Option<VectorIndexParams> {
    if u32_at(j, "M"@) is Some && u32_at(j, "efConstruction"@) is Some && u32_at(j, "NSQ"@) is Some
        && float_at(j, "sampleRate"@) is Some {
        Some(
            VectorIndexParams::HNSWPQ(
                HNSWPQIndexParam {
                    m: u32_at(j, "M"@)->0,
                    ef_construction: u32_at(j, "efConstruction"@)->0,
                    nsq: u32_at(j, "NSQ"@)->0,
                    sample_rate: float_at(j, "sampleRate"@)->0,
                },
            ),
        )
    } else if u32_at(j, "M"@) is Some && u32_at(j, "efConstruction"@) is Some {
        Some(
            VectorIndexParams::HNSW(
                HNSWIndexParam {
                    m: u32_at(j, "M"@)->0,
                    ef_construction: u32_at(j, "efConstruction"@)->0,
                },
            ),
        )
    } else if u32_at(j, "coarseClusterCount"@) is Some && u32_at(j, "fineClusterCount"@) is Some {
        Some(
            VectorIndexParams::PUCK(
                PUCKIndexParam {
                    coarse_cluster_count: u32_at(j, "coarseClusterCount"@)->0,
                    fine_cluster_count: u32_at(j, "fineClusterCount"@)->0,
                },
            ),
        )
    } else {
        None
    }
}

impl VectorIndexParams {
    /// The JSON object: the members of the variant, in order, with no tag.
    pub open spec fn encoded_by(&self, j: JsonValue) -> bool {
        let es = entries(j);
        &&& j is Object
        &&& match self {
            VectorIndexParams::HNSWPQ(p) => {
                &&& es.len() == 4
                &&& is_entry(es[0], "M"@, JsonValue::Int(p.m as i128))
                &&& is_entry(es[1], "efConstruction"@, JsonValue::Int(p.ef_construction as i128))
                &&& is_entry(es[2], "NSQ"@, JsonValue::Int(p.nsq as i128))
                &&& is_entry(es[3], "sampleRate"@, JsonValue::Float(p.sample_rate))
            },
            VectorIndexParams::HNSW(p) => {
                &&& es.len() == 2
                &&& is_entry(es[0], "M"@, JsonValue::Int(p.m as i128))
                &&& is_entry(es[1], "efConstruction"@, JsonValue::Int(p.ef_construction as i128))
            },
            VectorIndexParams::PUCK(p) => {
                &&& es.len() == 2
                &&& is_entry(es[0], "coarseClusterCount"@, JsonValue::Int(p.coarse_cluster_count as i128))
                &&& is_entry(es[1], "fineClusterCount"@, JsonValue::Int(p.fine_cluster_count as i128))
            },
        }
    }

    pub fn to_json(&self) -> (r: JsonValue)
        ensures
            self.encoded_by(r),
    {
        let mut es: Vec<(String, JsonValue)> = Vec::new();
        match self {
            VectorIndexParams::HNSWPQ(p) => {
                es.push(entry("M", JsonValue::Int(p.m as i128)));
                es.push(entry("efConstruction", JsonValue::Int(p.ef_construction as i128)));
                es.push(entry("NSQ", JsonValue::Int(p.nsq as i128)));
                es.push(entry("sampleRate", JsonValue::Float(p.sample_rate)));
            },
            VectorIndexParams::HNSW(p) => {
                es.push(entry("M", JsonValue::Int(p.m as i128)));
                es.push(entry("efConstruction", JsonValue::Int(p.ef_construction as i128)));
            },
            VectorIndexParams::PUCK(p) => {
                es.push(entry("coarseClusterCount", JsonValue::Int(p.coarse_cluster_count as i128)));
                es.push(entry("fineClusterCount", JsonValue::Int(p.fine_cluster_count as i128)));
            },
        }
        JsonValue::Object(es)
    }

    /// Tells the variant from the members present (see [`index_params_of`]).
    pub fn from_json(j: &JsonValue) -> (r: Option<VectorIndexParams>)
        ensures
            r == index_params_of(*j),
    {
        let m = read_u32(j, "M");
        let ef = read_u32(j, "efConstruction");
        let nsq = read_u32(j, "NSQ");
        let rate = read_float(j, "sampleRate");
        if m.is_some() && ef.is_some() && nsq.is_some() && rate.is_some() {
            return Some(
                VectorIndexParams::HNSWPQ(
                    HNSWPQIndexParam {
                        m: m.unwrap(),
                        ef_construction: ef.unwrap(),
                        nsq: nsq.unwrap(),
                        sample_rate: rate.unwrap(),
                    },
                ),
            );
        }
        if m.is_some() && ef.is_some() {
            return Some(
                VectorIndexParams::HNSW(HNSWIndexParam { m: m.unwrap(), ef_construction: ef.unwrap() }),
            );
        }
        let coarse = read_u32(j, "coarseClusterCount");
        let fine = read_u32(j, "fineClusterCount");
        if coarse.is_some() && fine.is_some() {
            return Some(
                VectorIndexParams::PUCK(
                    PUCKIndexParam {
                        coarse_cluster_count: coarse.unwrap(),
                        fine_cluster_count: fine.unwrap(),
                    },
                ),
            );
        }
        None
    }
}

/// When an index is rebuilt by itself.
#[derive(Debug, Clone)]
pub struct AutoBuildPolicy {
    /// Once at a time, periodically, or after enough new rows.
    pub policy_type: Option<AutoBuildPolicyType>,
    /// The time of a `TIMING` build, or the start of a `PERIODICAL` one; empty for none.
    pub timing: String,
    /// The period of a `PERIODICAL` build.
    pub period_in_second: u64,
    /// Rows added or removed in a tablet before a build.
    pub row_count_increment: u64,
    /// Share of rows added or removed in a tablet before a build.
    pub row_count_increment_ratio: FloatBits,
}

/// The optional policy type under `key`.
pub open spec fn policy_type_at(j: JsonValue, key: Seq<char>) -> Option<Option<AutoBuildPolicyType>> {
    opt_name_at(j, key, |s: Seq<char>| AutoBuildPolicyType::from_wire_spec(s))
}

impl AutoBuildPolicy {
    /// The JSON object: `policyType` when set, `timing` when not empty, then
    /// `periodInSecond`, `rowCountIncrement` and `rowCountIncrementRatio`.
    pub open spec fn encoded_by(&self, j: JsonValue) -> bool {
        let es = entries(j);
        let p_timing = opt_len(self.policy_type);
        let p_period = p_timing + if self.timing@.len() > 0 { 1int } else { 0int };
        &&& j is Object
        &&& es.len() == p_period + 3
        &&& (self.policy_type matches Some(t) ==> is_str_entry(es[0], "policyType"@, t.wire_name_spec()))
        &&& (self.timing@.len() > 0 ==> is_str_entry(es[p_timing], "timing"@, self.timing@))
        &&& is_entry(es[p_period], "periodInSecond"@, JsonValue::Int(self.period_in_second as i128))
        &&& is_entry(es[p_period + 1], "rowCountIncrement"@, JsonValue::Int(self.row_count_increment as i128))
        &&& is_entry(es[p_period + 2], "rowCountIncrementRatio"@, JsonValue::Float(self.row_count_increment_ratio))
    }

    /// Whether an object decodes: every member is optional, and those present have the right type.
    pub open spec fn decodes(j: JsonValue) -> bool {
        &&& j is Object
        &&& policy_type_at(j, "policyType"@) is Some
        &&& text_or_empty(j, "timing"@) is Some
        &&& u64_or_zero(j, "periodInSecond"@) is Some
        &&& u64_or_zero(j, "rowCountIncrement"@) is Some
        &&& float_or_zero(j, "rowCountIncrementRatio"@) is Some
    }

    /// The policy an object decodes to.
    pub open spec fn decoded_from(&self, j: JsonValue) -> bool {
        &&& policy_type_at(j, "policyType"@) == Some(self.policy_type)
        &&& text_or_empty(j, "timing"@) == Some(self.timing@)
        &&& u64_or_zero(j, "periodInSecond"@) == Some(self.period_in_second)
        &&& u64_or_zero(j, "rowCountIncrement"@) == Some(self.row_count_increment)
        &&& float_or_zero(j, "rowCountIncrementRatio"@) == Some(self.row_count_increment_ratio)
    }

    pub fn to_json(self) -> (r: JsonValue)
        ensures
            self.encoded_by(r),
    {
        let mut es: Vec<(String, JsonValue)> = Vec::new();
        match self.policy_type {
            Some(t) => es.push(str_entry("policyType", t.wire_name())),
            None => {},
        }
        if !self.timing.as_str().is_empty() {
            es.push(str_entry("timing", self.timing));
        }
        es.push(entry("periodInSecond", JsonValue::Int(self.period_in_second as i128)));
        es.push(entry("rowCountIncrement", JsonValue::Int(self.row_count_increment as i128)));
        es.push(entry("rowCountIncrementRatio", JsonValue::Float(self.row_count_increment_ratio)));
        JsonValue::Object(es)
    }

    pub fn from_json(j: &JsonValue) -> (r: Option<AutoBuildPolicy>)
        ensures
            r is Some <==> Self::decodes(*j),
            r matches Some(p) ==> p.decoded_from(*j),
    {
        if !is_object(j) {
            return None;
        }
        let policy_type = match read_opt_text(j, "policyType") {
            Some(None) => None,
            Some(Some(s)) => match AutoBuildPolicyType::from_wire(s.as_str()) {
                Some(t) => Some(t),
                None => {
                    return None;
                },
            },
            None => {
                return None;
            },
        };
        let timing = match read_text_or_empty(j, "timing") {
            Some(t) => t,
            None => {
                return None;
            },
        };
        let period_in_second = match read_u64_or_zero(j, "periodInSecond") {
            Some(n) => n,
            None => {
                return None;
            },
        };
        let row_count_increment = match read_u64_or_zero(j, "rowCountIncrement") {
            Some(n) => n,
            None => {
                return None;
            },
        };
        let row_count_increment_ratio = match read_float_or_zero(j, "rowCountIncrementRatio") {
            Some(f) => f,
            None => {
                return None;
            },
        };
        Some(
            AutoBuildPolicy {
                policy_type,
                timing,
                period_in_second,
                row_count_increment,
                row_count_increment_ratio,
            },
        )
    }
}

/// An index of a table: a vector index (HNSW, HNSWPQ, PUCK, FLAT) or a
/// secondary one. `state` is reported by the service and never sent.
#[derive(Debug, Clone)]
pub struct IndexSchema {
    pub index_name: String,
    pub index_type: Option<IndexType>,
    pub metric_type: Option<MetricType>,
    pub params: Option<VectorIndexParams>,
    /// The field the index is built on.
    pub field: String,
    pub auto_build: bool,
    pub state: Option<IndexState>,
    pub auto_build_policy: Option<AutoBuildPolicy>,
    /// Grows each time a rebuild completes; reported by the service.
    pub index_major_version: Option<u64>,
}

impl IndexSchema {
    /// An index on `field` named `index_name`, with nothing else set.
    pub fn new(index_name: &str, field: &str) -> (r: IndexSchema)
        ensures
            r.index_name@ == index_name@,
            r.field@ == field@,
            r.index_type is None && r.metric_type is None && r.params is None,
            !r.auto_build && r.state is None && r.auto_build_policy is None,
            r.index_major_version is None,
    {
        IndexSchema {
            index_name: String::from_str(index_name),
            index_type: None,
            metric_type: None,
            params: None,
            field: String::from_str(field),
            auto_build: false,
            state: None,
            auto_build_policy: None,
            index_major_version: None,
        }
    }

    /// The JSON object: `indexName`, then `indexType`, `metricType` and
    /// `params` when set, `field`, `autoBuild`, then `autoBuildPolicy` and
    /// `indexMajorVersion` when set. `state` is never sent.
    pub open spec fn encoded_by(&self, j: JsonValue) -> bool {
        let es = entries(j);
        let p_metric = 1 + opt_len(self.index_type);
        let p_params = p_metric + opt_len(self.metric_type);
        let p_field = p_params + opt_len(self.params);
        let p_policy = p_field + 2;
        let p_version = p_policy + opt_len(self.auto_build_policy);
        &&& j is Object
        &&& es.len() == p_version + opt_len(self.index_major_version)
        &&& is_str_entry(es[0], "indexName"@, self.index_name@)
        &&& (self.index_type matches Some(t) ==> is_str_entry(es[1], "indexType"@, t.wire_name_spec()))
        &&& (self.metric_type matches Some(t) ==> is_str_entry(es[p_metric], "metricType"@, t.wire_name_spec()))
        &&& (self.params matches Some(p) ==> es[p_params].0@ == "params"@ && p.encoded_by(es[p_params].1))
        &&& is_str_entry(es[p_field], "field"@, self.field@)
        &&& is_entry(es[p_field + 1], "autoBuild"@, JsonValue::Bool(self.auto_build))
        &&& (self.auto_build_policy matches Some(p) ==> es[p_policy].0@ == "autoBuildPolicy"@
            && p.encoded_by(es[p_policy].1))
        &&& (self.index_major_version matches Some(v) ==> is_entry(
            es[p_version],
            "indexMajorVersion"@,
            JsonValue::Int(v as i128),
        ))
    }

    /// Whether an object decodes: `field` is required, every other member optional.
    pub open spec fn decodes(j: JsonValue) -> bool {
        &&& j is Object
        &&& text_or_empty(j, "indexName"@) is Some
        &&& opt_name_at(j, "indexType"@, |s: Seq<char>| IndexType::from_wire_spec(s)) is Some
        &&& opt_name_at(j, "metricType"@, |s: Seq<char>| MetricType::from_wire_spec(s)) is Some
        &&& (absent_or_null(j, "params"@) || index_params_of(field(j, "params"@)->0) is Some)
        &&& field(j, "field"@) matches Some(JsonValue::Str(_))
        &&& bool_or_false(j, "autoBuild"@) is Some
        &&& opt_name_at(j, "state"@, |s: Seq<char>| IndexState::from_wire_spec(s)) is Some
        &&& (absent_or_null(j, "autoBuildPolicy"@) || AutoBuildPolicy::decodes(
            field(j, "autoBuildPolicy"@)->0,
        ))
        &&& opt_u64_at(j, "indexMajorVersion"@) is Some
    }

    /// The index an object decodes to.
    pub open spec fn decoded_from(&self, j: JsonValue) -> bool {
        &&& text_or_empty(j, "indexName"@) == Some(self.index_name@)
        &&& opt_name_at(j, "indexType"@, |s: Seq<char>| IndexType::from_wire_spec(s)) == Some(
            self.index_type,
        )
        &&& opt_name_at(j, "metricType"@, |s: Seq<char>| MetricType::from_wire_spec(s)) == Some(
            self.metric_type,
        )
        &&& (if absent_or_null(j, "params"@) {
            self.params is None
        } else {
            self.params == index_params_of(field(j, "params"@)->0)
        })
        &&& field(j, "field"@) matches Some(JsonValue::Str(f)) && f@ == self.field@
        &&& bool_or_false(j, "autoBuild"@) == Some(self.auto_build)
        &&& opt_name_at(j, "state"@, |s: Seq<char>| IndexState::from_wire_spec(s)) == Some(
            self.state,
        )
        &&& (if absent_or_null(j, "autoBuildPolicy"@) {
            self.auto_build_policy is None
        } else {
            self.auto_build_policy matches Some(p) && p.decoded_from(
                field(j, "autoBuildPolicy"@)->0,
            )
        })
        &&& opt_u64_at(j, "indexMajorVersion"@) == Some(self.index_major_version)
    }

    pub fn to_json(self) -> (r: JsonValue)
        ensures
            self.encoded_by(r),
    {
        let ghost old_self = self;
        let mut es: Vec<(String, JsonValue)> = Vec::new();
        es.push(str_entry("indexName", self.index_name));
        match self.index_type {
            Some(t) => es.push(str_entry("indexType", t.wire_name())),
            None => {},
        }
        match self.metric_type {
            Some(t) => es.push(str_entry("metricType", t.wire_name())),
            None => {},
        }
        match self.params {
            Some(p) => es.push(entry("params", p.to_json())),
            None => {},
        }
        es.push(str_entry("field", self.field));
        es.push(entry("autoBuild", JsonValue::Bool(self.auto_build)));
        match self.auto_build_policy {
            Some(p) => es.push(entry("autoBuildPolicy", p.to_json())),
            None => {},
        }
        match self.index_major_version {
            Some(v) => es.push(entry("indexMajorVersion", JsonValue::Int(v as i128))),
            None => {},
        }
        let r = JsonValue::Object(es);
        assert(old_self.encoded_by(r));
        r
    }

    pub fn from_json(j: &JsonValue) -> (r: Option<IndexSchema>)
        ensures
            r is Some <==> Self::decodes(*j),
            r matches Some(x) ==> x.decoded_from(*j),
    {
        if !is_object(j) {
            return None;
        }
        let index_name = match read_text_or_empty(j, "indexName") {
            Some(t) => t,
            None => {
                return None;
            },
        };
        let index_type = match read_opt_text(j, "indexType") {
            Some(None) => None,
            Some(Some(s)) => match IndexType::from_wire(s.as_str()) {
                Some(t) => Some(t),
                None => {
                    return None;
                },
            },
            None => {
                return None;
            },
        };
        let metric_type = match read_opt_text(j, "metricType") {
            Some(None) => None,
            Some(Some(s)) => match MetricType::from_wire(s.as_str()) {
                Some(t) => Some(t),
                None => {
                    return None;
                },
            },
            None => {
                return None;
            },
        };
        let params = match get_present(j, "params") {
            None => None,
            Some(v) => match VectorIndexParams::from_json(v) {
                Some(p) => Some(p),
                None => {
                    return None;
                },
            },
        };
        let field = match get_present(j, "field") {
            Some(JsonValue::Str(f)) => f.clone(),
            _ => {
                return None;
            },
        };
        let auto_build = match read_bool_or_false(j, "autoBuild") {
            Some(b) => b,
            None => {
                return None;
            },
        };
        let state = match read_opt_text(j, "state") {
            Some(None) => None,
            Some(Some(s)) => match IndexState::from_wire(s.as_str()) {
                Some(t) => Some(t),
                None => {
                    return None;
                },
            },
            None => {
                return None;
            },
        };
        let auto_build_policy = match get_present(j, "autoBuildPolicy") {
            None => None,
            Some(v) => match AutoBuildPolicy::from_json(v) {
                Some(p) => Some(p),
                None => {
                    return None;
                },
            },
        };
        let index_major_version = match read_opt_u64(j, "indexMajorVersion") {
            Some(v) => v,
            None => {
                return None;
            },
        };
        Some(
            IndexSchema {
                index_name,
                index_type,
                metric_type,
                params,
                field,
                auto_build,
                state,
                auto_build_policy,
                index_major_version,
            },
        )
    }
}

impl AutoBuildPolicy {
    /// Two policies hold the same values.
    pub open spec fn same_as(&self, other: &AutoBuildPolicy) -> bool {
        &&& self.policy_type == other.policy_type
        &&& self.timing@ == other.timing@
        &&& self.period_in_second == other.period_in_second
        &&& self.row_count_increment == other.row_count_increment
        &&& self.row_count_increment_ratio == other.row_count_increment_ratio
    }
}

/// A policy decodes from its JSON object, and to a policy with the same values.
pub proof fn lemma_auto_build_policy_round_trip(x: AutoBuildPolicy, j: JsonValue, y: AutoBuildPolicy)
    requires
        x.encoded_by(j),
    ensures
        AutoBuildPolicy::decodes(j),
        y.decoded_from(j) ==> y.same_as(&x),
{
    reveal_strlit("policyType");
    reveal_strlit("timing");
    reveal_strlit("periodInSecond");
    reveal_strlit("rowCountIncrement");
    reveal_strlit("rowCountIncrementRatio");
    assert("policyType"@.len() == 10);
    assert("timing"@.len() == 6);
    assert("periodInSecond"@.len() == 14);
    assert("rowCountIncrement"@.len() == 17);
    assert("rowCountIncrementRatio"@.len() == 22);
    let es = entries(j);
    let p_timing = opt_len(x.policy_type);
    let p_period = p_timing + if x.timing@.len() > 0 { 1int } else { 0int };
    if x.policy_type is Some {
        lemma_auto_build_policy_type_wire_round_trip(x.policy_type->0);
        lemma_lookup_first(es, "policyType"@, 0);
    } else {
        assert forall|i: int| 0 <= i < es.len() implies es[i].0@ != "policyType"@ by {
            if i == p_timing && x.timing@.len() > 0 {
            } else if i == p_period {
            } else if i == p_period + 1 {
            } else {
            }
        }
        lemma_lookup_absent(es, "policyType"@);
    }
    if x.timing@.len() > 0 {
        lemma_lookup_first(es, "timing"@, p_timing);
    } else {
        assert forall|i: int| 0 <= i < es.len() implies es[i].0@ != "timing"@ by {
            if i == 0 && x.policy_type is Some {
            } else if i == p_period {
            } else if i == p_period + 1 {
            } else {
            }
        }
        lemma_lookup_absent(es, "timing"@);
        assert(x.timing@ =~= Seq::<char>::empty());
    }
    lemma_lookup_first(es, "periodInSecond"@, p_period);
    lemma_lookup_first(es, "rowCountIncrement"@, p_period + 1);
    lemma_lookup_first(es, "rowCountIncrementRatio"@, p_period + 2);
}

/// The parameters of a vector index come back from their JSON object: the
/// members present tell the variant without a tag.
pub proof fn lemma_index_params_round_trip(p: VectorIndexParams, j: JsonValue)
    requires
        p.encoded_by(j),
    ensures
        index_params_of(j) == Some(p),
{
    reveal_strlit("M");
    reveal_strlit("efConstruction");
    reveal_strlit("NSQ");
    reveal_strlit("sampleRate");
    reveal_strlit("coarseClusterCount");
    reveal_strlit("fineClusterCount");
    let es = entries(j);
    assert("M"@.len() == 1 && "NSQ"@.len() == 3 && "efConstruction"@.len() == 14);
    assert("sampleRate"@.len() == 10);
    assert("coarseClusterCount"@.len() == 18 && "fineClusterCount"@.len() == 16);
    match p {
        VectorIndexParams::HNSWPQ(q) => {
            lemma_lookup_first(es, "M"@, 0);
            lemma_lookup_first(es, "efConstruction"@, 1);
            lemma_lookup_first(es, "NSQ"@, 2);
            lemma_lookup_first(es, "sampleRate"@, 3);
        },
        VectorIndexParams::HNSW(q) => {
            lemma_lookup_first(es, "M"@, 0);
            lemma_lookup_first(es, "efConstruction"@, 1);
            lemma_lookup_absent(es, "NSQ"@);
        },
        VectorIndexParams::PUCK(q) => {
            lemma_lookup_absent(es, "M"@);
            lemma_lookup_first(es, "coarseClusterCount"@, 0);
            lemma_lookup_first(es, "fineClusterCount"@, 1);
        },
    }
}

impl IndexSchema {
    /// Two indexes agree on everything that is sent: all but `state`.
    pub open spec fn same_as_sent(&self, other: &IndexSchema) -> bool {
        &&& self.index_name@ == other.index_name@
        &&& self.index_type == other.index_type
        &&& self.metric_type == other.metric_type
        &&& self.params == other.params
        &&& self.field@ == other.field@
        &&& self.auto_build == other.auto_build
        &&& match (self.auto_build_policy, other.auto_build_policy) {
            (Some(p), Some(q)) => p.same_as(&q),
            (None, None) => true,
            _ => false,
        }
        &&& self.index_major_version == other.index_major_version
    }
}

/// An index decodes from its JSON object, to an index that agrees with it on
/// all that was sent and has no `state`.
pub proof fn lemma_index_schema_round_trip(x: IndexSchema, j: JsonValue, y: IndexSchema)
    requires
        x.encoded_by(j),
    ensures
        IndexSchema::decodes(j),
        y.decoded_from(j) ==> y.same_as_sent(&x) && y.state is None,
        field(j, "state"@) is None,
        field(j, "indexType"@) is Some <==> x.index_type is Some,
        field(j, "metricType"@) is Some <==> x.metric_type is Some,
        field(j, "params"@) is Some <==> x.params is Some,
        field(j, "autoBuildPolicy"@) is Some <==> x.auto_build_policy is Some,
        field(j, "indexMajorVersion"@) is Some <==> x.index_major_version is Some,
        forall|i: int| 0 <= i < entries(j).len() ==> (#[trigger] entries(j)[i]).1 != JsonValue::Null,
{
    reveal_strlit("indexName");
    reveal_strlit("indexType");
    reveal_strlit("metricType");
    reveal_strlit("params");
    reveal_strlit("field");
    reveal_strlit("autoBuild");
    reveal_strlit("state");
    reveal_strlit("autoBuildPolicy");
    reveal_strlit("indexMajorVersion");
    assert("indexName"@.len() == 9);
    assert("indexType"@.len() == 9);
    assert("metricType"@.len() == 10);
    assert("params"@.len() == 6);
    assert("field"@.len() == 5);
    assert("autoBuild"@.len() == 9);
    assert("state"@.len() == 5);
    assert("autoBuildPolicy"@.len() == 15);
    assert("indexMajorVersion"@.len() == 17);
    assert("indexName"@[5] == 'N' && "indexType"@[5] == 'T');
    assert("field"@[0] == 'f' && "state"@[0] == 's');
    assert("autoBuild"@[0] == 'a' && "indexName"@[0] == 'i');
    assert("autoBuild"@[0] == 'a' && "indexType"@[0] == 'i');
    let es = entries(j);
    let p_metric = 1 + opt_len(x.index_type);
    let p_params = p_metric + opt_len(x.metric_type);
    let p_field = p_params + opt_len(x.params);
    let p_policy = p_field + 2;
    let p_version = p_policy + opt_len(x.auto_build_policy);
    lemma_lookup_first(es, "indexName"@, 0);
    if x.index_type is Some {
            assert forall|i: int| 0 <= i < 1 implies es[i].0@ != "indexType"@ by {
                if i == 0 {
                } else if x.index_type is Some && i == 1 {
                } else if x.metric_type is Some && i == p_metric {
                } else if x.params is Some && i == p_params {
                } else if i == p_field {
                } else if i == p_field + 1 {
                } else if x.auto_build_policy is Some && i == p_policy {
                } else {
                }
            }
        lemma_lookup_first(es, "indexType"@, 1);
    } else {
            assert forall|i: int| 0 <= i < es.len() implies es[i].0@ != "indexType"@ by {
                if i == 0 {
                } else if x.index_type is Some && i == 1 {
                } else if x.metric_type is Some && i == p_metric {
                } else if x.params is Some && i == p_params {
                } else if i == p_field {
                } else if i == p_field + 1 {
                } else if x.auto_build_policy is Some && i == p_policy {
                } else {
                }
            }
        lemma_lookup_absent(es, "indexType"@);
    }
    if x.metric_type is Some {
            assert forall|i: int| 0 <= i < p_metric implies es[i].0@ != "metricType"@ by {
                if i == 0 {
                } else if x.index_type is Some && i == 1 {
                } else if x.metric_type is Some && i == p_metric {
                } else if x.params is Some && i == p_params {
                } else if i == p_field {
                } else if i == p_field + 1 {
                } else if x.auto_build_policy is Some && i == p_policy {
                } else {
                }
            }
        lemma_lookup_first(es, "metricType"@, p_metric);
    } else {
            assert forall|i: int| 0 <= i < es.len() implies es[i].0@ != "metricType"@ by {
                if i == 0 {
                } else if x.index_type is Some && i == 1 {
                } else if x.metric_type is Some && i == p_metric {
                } else if x.params is Some && i == p_params {
                } else if i == p_field {
                } else if i == p_field + 1 {
                } else if x.auto_build_policy is Some && i == p_policy {
                } else {
                }
            }
        lemma_lookup_absent(es, "metricType"@);
    }
    if x.params is Some {
            assert forall|i: int| 0 <= i < p_params implies es[i].0@ != "params"@ by {
                if i == 0 {
                } else if x.index_type is Some && i == 1 {
                } else if x.metric_type is Some && i == p_metric {
                } else if x.params is Some && i == p_params {
                } else if i == p_field {
                } else if i == p_field + 1 {
                } else if x.auto_build_policy is Some && i == p_policy {
                } else {
                }
            }
        lemma_lookup_first(es, "params"@, p_params);
    } else {
            assert forall|i: int| 0 <= i < es.len() implies es[i].0@ != "params"@ by {
                if i == 0 {
                } else if x.index_type is Some && i == 1 {
                } else if x.metric_type is Some && i == p_metric {
                } else if x.params is Some && i == p_params {
                } else if i == p_field {
                } else if i == p_field + 1 {
                } else if x.auto_build_policy is Some && i == p_policy {
                } else {
                }
            }
        lemma_lookup_absent(es, "params"@);
    }
    if x.auto_build_policy is Some {
            assert forall|i: int| 0 <= i < p_policy implies es[i].0@ != "autoBuildPolicy"@ by {
                if i == 0 {
                } else if x.index_type is Some && i == 1 {
                } else if x.metric_type is Some && i == p_metric {
                } else if x.params is Some && i == p_params {
                } else if i == p_field {
                } else if i == p_field + 1 {
                } else if x.auto_build_policy is Some && i == p_policy {
                } else {
                }
            }
        lemma_lookup_first(es, "autoBuildPolicy"@, p_policy);
    } else {
            assert forall|i: int| 0 <= i < es.len() implies es[i].0@ != "autoBuildPolicy"@ by {
                if i == 0 {
                } else if x.index_type is Some && i == 1 {
                } else if x.metric_type is Some && i == p_metric {
                } else if x.params is Some && i == p_params {
                } else if i == p_field {
                } else if i == p_field + 1 {
                } else if x.auto_build_policy is Some && i == p_policy {
                } else {
                }
            }
        lemma_lookup_absent(es, "autoBuildPolicy"@);
    }
    if x.index_major_version is Some {
            assert forall|i: int| 0 <= i < p_version implies es[i].0@ != "indexMajorVersion"@ by {
                if i == 0 {
                } else if x.index_type is Some && i == 1 {
                } else if x.metric_type is Some && i == p_metric {
                } else if x.params is Some && i == p_params {
                } else if i == p_field {
                } else if i == p_field + 1 {
                } else if x.auto_build_policy is Some && i == p_policy {
                } else {
                }
            }
        lemma_lookup_first(es, "indexMajorVersion"@, p_version);
    } else {
            assert forall|i: int| 0 <= i < es.len() implies es[i].0@ != "indexMajorVersion"@ by {
                if i == 0 {
                } else if x.index_type is Some && i == 1 {
                } else if x.metric_type is Some && i == p_metric {
                } else if x.params is Some && i == p_params {
                } else if i == p_field {
                } else if i == p_field + 1 {
                } else if x.auto_build_policy is Some && i == p_policy {
                } else {
                }
            }
        lemma_lookup_absent(es, "indexMajorVersion"@);
    }
    assert forall|i: int| 0 <= i < p_field implies es[i].0@ != "field"@ by {
        if i == 0 {
        } else if x.index_type is Some && i == 1 {
        } else if x.metric_type is Some && i == p_metric {
        } else if x.params is Some && i == p_params {
        } else if i == p_field {
        } else if i == p_field + 1 {
        } else if x.auto_build_policy is Some && i == p_policy {
        } else {
        }
    }
    lemma_lookup_first(es, "field"@, p_field);
    assert forall|i: int| 0 <= i < p_field + 1 implies es[i].0@ != "autoBuild"@ by {
        if i == 0 {
        } else if x.index_type is Some && i == 1 {
        } else if x.metric_type is Some && i == p_metric {
        } else if x.params is Some && i == p_params {
        } else if i == p_field {
        } else if i == p_field + 1 {
        } else if x.auto_build_policy is Some && i == p_policy {
        } else {
        }
    }
    lemma_lookup_first(es, "autoBuild"@, p_field + 1);
    assert forall|i: int| 0 <= i < es.len() implies es[i].0@ != "state"@ by {
        if i == 0 {
        } else if x.index_type is Some && i == 1 {
        } else if x.metric_type is Some && i == p_metric {
        } else if x.params is Some && i == p_params {
        } else if i == p_field {
        } else if i == p_field + 1 {
        } else if x.auto_build_policy is Some && i == p_policy {
        } else {
        }
    }
    lemma_lookup_absent(es, "state"@);
    assert forall|i: int| 0 <= i < es.len() implies (#[trigger] es[i]).1 != JsonValue::Null by {
        if i == 0 {
        } else if x.index_type is Some && i == 1 {
        } else if x.metric_type is Some && i == p_metric {
        } else if x.params is Some && i == p_params {
        } else if i == p_field {
        } else if i == p_field + 1 {
        } else if x.auto_build_policy is Some && i == p_policy {
        } else {
        }
    }
    if x.index_type is Some {
        lemma_index_type_wire_round_trip(x.index_type->0);
    }
    if x.metric_type is Some {
        lemma_metric_type_wire_round_trip(x.metric_type->0);
    }
    if x.params is Some {
        lemma_index_params_round_trip(x.params->0, es[p_params].1);
    }
    if x.auto_build_policy is Some {
        let q = if y.auto_build_policy is Some { y.auto_build_policy->0 } else { x.auto_build_policy->0 };
        lemma_auto_build_policy_round_trip(x.auto_build_policy->0, es[p_policy].1, q);
    }
}

/// Creates indexes on a table.
#[derive(Debug, Clone)]
pub struct CreateIndexArgs {
    pub database: String,
    pub table: String,
    pub indexes: Vec<IndexSchema>,
}

impl CreateIndexArgs {
    /// The JSON body: `database`, `table`, then `indexes` as an array in order.
    pub open spec fn encoded_by(&self, j: JsonValue) -> bool {
        let es = entries(j);
        &&& j is Object
        &&& es.len() == 3
        &&& is_str_entry(es[0], "database"@, self.database@)
        &&& is_str_entry(es[1], "table"@, self.table@)
        &&& es[2].0@ == "indexes"@
        &&& es[2].1 matches JsonValue::Array(a) && a@.len() == self.indexes@.len() && forall|i: int|
            0 <= i < a@.len() ==> self.indexes@[i].encoded_by(#[trigger] a@[i])
    }

    /// Post `index?create`, answered by [`crate::mochow::api::common::CommonResponse`].
    pub fn into_request(self, config: &ClientConfiguration) -> (r: HttpRequest)
        ensures
            r.method == HttpMethod::Post,
            r.url@ == url_of(config.endpoint@, config.version@, "index"@, "create"@),
            r.body matches Some(b) && self.encoded_by(b),
    {
        let ghost old_self = self;
        let url = request_url(config, "index", "create");
        let mut es: Vec<(String, JsonValue)> = Vec::new();
        es.push(str_entry("database", self.database));
        es.push(str_entry("table", self.table));
        es.push(entry("indexes", JsonValue::Array(indexes_to_json(self.indexes))));
        let body = JsonValue::Object(es);
        assert(old_self.encoded_by(body));
        HttpRequest { method: HttpMethod::Post, url, body: Some(body) }
    }
}

/// Changes the auto-build settings of a vector index.
#[derive(Debug, Clone)]
pub struct ModifyIndexArgs {
    pub database: String,
    pub table: String,
    pub index: IndexSchema,
}

impl ModifyIndexArgs {
    /// The JSON body: `database`, `table`, `index`.
    pub open spec fn encoded_by(&self, j: JsonValue) -> bool {
        let es = entries(j);
        &&& j is Object
        &&& es.len() == 3
        &&& is_str_entry(es[0], "database"@, self.database@)
        &&& is_str_entry(es[1], "table"@, self.table@)
        &&& es[2].0@ == "index"@ && self.index.encoded_by(es[2].1)
    }

    /// Post `index?modify`, answered by [`crate::mochow::api::common::CommonResponse`].
    pub fn into_request(self, config: &ClientConfiguration) -> (r: HttpRequest)
        ensures
            r.method == HttpMethod::Post,
            r.url@ == url_of(config.endpoint@, config.version@, "index"@, "modify"@),
            r.body matches Some(b) && self.encoded_by(b),
    {
        let ghost old_self = self;
        let url = request_url(config, "index", "modify");
        let mut es: Vec<(String, JsonValue)> = Vec::new();
        es.push(str_entry("database", self.database));
        es.push(str_entry("table", self.table));
        es.push(entry("index", self.index.to_json()));
        let body = JsonValue::Object(es);
        assert(old_self.encoded_by(body));
        HttpRequest { method: HttpMethod::Post, url, body: Some(body) }
    }
}

/// The answer to [`DescriptIndexArgs`].
#[derive(Debug, Clone)]
pub struct DescriptIndexResponse {
    pub code: i32,
    pub msg: String,
    pub index: IndexSchema,
}

impl DescriptIndexResponse {
    /// Whether an answer decodes: `code`, `msg` and `index` are required.
    pub open spec fn decodes(j: JsonValue) -> bool {
        &&& i32_at(j, "code"@) is Some
        &&& str_at(j, "msg"@) is Some
        &&& field(j, "index"@) matches Some(x) && IndexSchema::decodes(x)
    }

    pub fn from_json(j: &JsonValue) -> (r: Option<DescriptIndexResponse>)
        ensures
            r is Some <==> Self::decodes(*j),
            r matches Some(d) ==> {
                &&& i32_at(*j, "code"@) == Some(d.code)
                &&& str_at(*j, "msg"@) == Some(d.msg@)
                &&& d.index.decoded_from(field(*j, "index"@)->0)
            },
    {
        let code = match read_i32(j, "code") {
            Some(c) => c,
            None => {
                return None;
            },
        };
        let msg = match read_str(j, "msg") {
            Some(m) => m,
            None => {
                return None;
            },
        };
        let index = match get_field(j, "index") {
            Some(x) => match IndexSchema::from_json(x) {
                Some(i) => i,
                None => {
                    return None;
                },
            },
            None => {
                return None;
            },
        };
        Some(DescriptIndexResponse { code, msg, index })
    }
}

} // verus!
