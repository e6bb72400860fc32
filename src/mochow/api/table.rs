use vstd::prelude::*;
use vstd::string::*;

use crate::mochow::client::{HttpMethod, HttpRequest, request_url, url_of};
use crate::mochow::config::ClientConfiguration;
use crate::mochow::api::enums::{FieldType, PartitionType, TableState, lemma_field_type_wire_round_trip};
use crate::mochow::client::contains_name;
use crate::mochow::api::index::{IndexSchema, lemma_index_schema_round_trip};
use crate::mochow::json::{
    JsonValue, bool_or_false, lemma_lookup_absent, lemma_lookup_first, entries, entry, field, is_entry, is_object, is_str_entry,
    is_str_object, opt_len, opt_u32_at, read_bool_or_false, read_opt_u32, read_text_or_empty,
    read_u32, str_at, str_entry, text_or_empty, u32_at, get_field, i32_at, read_i32, read_str,
    strs_at, read_strs, u64_at, read_u64, bool_at, read_bool,
};

verus! {

/// Drops a table.
#[derive(Debug, Clone)]
pub struct DropTableArgs {
    pub database: String,
    pub table: String,
}

impl DropTableArgs {
    pub fn new(database: &str, table: &str) -> (r: DropTableArgs)
        ensures
            r.database@ == database@,
            r.table@ == table@,
    {
        DropTableArgs { database: String::from_str(database), table: String::from_str(table) }
    }

    /// The JSON body: `database`, `table`, in that order.
    pub open spec fn encoded_by(&self, j: JsonValue) -> bool {
        is_str_object(j, seq!["database"@, "table"@], seq![self.database@, self.table@])
    }

    /// Delete `table`, answered by [`CommonResponse`].
    pub fn into_request(self, config: &ClientConfiguration) -> (r: HttpRequest)
        ensures
            r.method == HttpMethod::Delete,
            r.url@ == url_of(config.endpoint@, config.version@, "table"@, Seq::<char>::empty()),
            r.body matches Some(b) && self.encoded_by(b),
    {
        let url = request_url(config, "table", "");
        proof {
            reveal_strlit("");
        }
        let ghost old_self = self;
        let mut es: Vec<(String, JsonValue)> = Vec::new();
        es.push(str_entry("database", self.database));
        es.push(str_entry("table", self.table));
        let body = JsonValue::Object(es);
        proof {
            assert(old_self.encoded_by(body));
        }
        HttpRequest { method: HttpMethod::Delete, url, body: Some(body) }
    }
}

/// Lists the tables of a database.
#[derive(Debug, Clone)]
pub struct ListTableArgs {
    pub database: String,
}

impl ListTableArgs {
    pub fn new(database: &str) -> (r: ListTableArgs)
        ensures
            r.database@ == database@,
    {
        ListTableArgs { database: String::from_str(database) }
    }

    /// The JSON body: `database`, in that order.
    pub open spec fn encoded_by(&self, j: JsonValue) -> bool {
        is_str_object(j, seq!["database"@], seq![self.database@])
    }

    /// Post `table?list`, answered by [`ListTableResponse`].
    pub fn into_request(self, config: &ClientConfiguration) -> (r: HttpRequest)
        ensures
            r.method == HttpMethod::Post,
            r.url@ == url_of(config.endpoint@, config.version@, "table"@, "list"@),
            r.body matches Some(b) && self.encoded_by(b),
    {
        let url = request_url(config, "table", "list");
        let ghost old_self = self;
        let mut es: Vec<(String, JsonValue)> = Vec::new();
        es.push(str_entry("database", self.database));
        let body = JsonValue::Object(es);
        proof {
            assert(old_self.encoded_by(body));
        }
        HttpRequest { method: HttpMethod::Post, url, body: Some(body) }
    }
}

/// Describes a table.
#[derive(Debug, Clone)]
pub struct DescriptTableArgs {
    pub database: String,
    pub table: String,
}

impl DescriptTableArgs {
    pub fn new(database: &str, table: &str) -> (r: DescriptTableArgs)
        ensures
            r.database@ == database@,
            r.table@ == table@,
    {
        DescriptTableArgs { database: String::from_str(database), table: String::from_str(table) }
    }

    /// The JSON body: `database`, `table`, in that order.
    pub open spec fn encoded_by(&self, j: JsonValue) -> bool {
        is_str_object(j, seq!["database"@, "table"@], seq![self.database@, self.table@])
    }

    /// Post `table?desc`, answered by [`DescriptTableResponse`].
    pub fn into_request(self, config: &ClientConfiguration) -> (r: HttpRequest)
        ensures
            r.method == HttpMethod::Post,
            r.url@ == url_of(config.endpoint@, config.version@, "table"@, "desc"@),
            r.body matches Some(b) && self.encoded_by(b),
    {
        let url = request_url(config, "table", "desc");
        let ghost old_self = self;
        let mut es: Vec<(String, JsonValue)> = Vec::new();
        es.push(str_entry("database", self.database));
        es.push(str_entry("table", self.table));
        let body = JsonValue::Object(es);
        proof {
            assert(old_self.encoded_by(body));
        }
        HttpRequest { method: HttpMethod::Post, url, body: Some(body) }
    }
}

/// Asks for the statistics of a table.
#[derive(Debug, Clone)]
pub struct StatsTableArgs {
    pub database: String,
    pub table: String,
}

impl StatsTableArgs {
    pub fn new(database: &str, table: &str) -> (r: StatsTableArgs)
        ensures
            r.database@ == database@,
            r.table@ == table@,
    {
        StatsTableArgs { database: String::from_str(database), table: String::from_str(table) }
    }

    /// The JSON body: `database`, `table`, in that order.
    pub open spec fn encoded_by(&self, j: JsonValue) -> bool {
        is_str_object(j, seq!["database"@, "table"@], seq![self.database@, self.table@])
    }

    /// Post `table?stats`, answered by [`StatsTableResponse`].
    pub fn into_request(self, config: &ClientConfiguration) -> (r: HttpRequest)
        ensures
            r.method == HttpMethod::Post,
            r.url@ == url_of(config.endpoint@, config.version@, "table"@, "stats"@),
            r.body matches Some(b) && self.encoded_by(b),
    {
        let url = request_url(config, "table", "stats");
        let ghost old_self = self;
        let mut es: Vec<(String, JsonValue)> = Vec::new();
        es.push(str_entry("database", self.database));
        es.push(str_entry("table", self.table));
        let body = JsonValue::Object(es);
        proof {
            assert(old_self.encoded_by(body));
        }
        HttpRequest { method: HttpMethod::Post, url, body: Some(body) }
    }
}

/// Gives a table an alias.
#[derive(Debug, Clone)]
pub struct AliasTableArgs {
    pub database: String,
    pub table: String,
    pub alias: String,
}

impl AliasTableArgs {
    pub fn new(database: &str, table: &str, alias: &str) -> (r: AliasTableArgs)
        ensures
            r.database@ == database@,
            r.table@ == table@,
            r.alias@ == alias@,
    {
        AliasTableArgs { database: String::from_str(database), table: String::from_str(table), alias: String::from_str(alias) }
    }

    /// The JSON body: `database`, `table`, `alias`, in that order.
    pub open spec fn encoded_by(&self, j: JsonValue) -> bool {
        is_str_object(j, seq!["database"@, "table"@, "alias"@], seq![self.database@, self.table@, self.alias@])
    }

    /// Post `table?alias`, answered by [`CommonResponse`].
    pub fn into_request(self, config: &ClientConfiguration) -> (r: HttpRequest)
        ensures
            r.method == HttpMethod::Post,
            r.url@ == url_of(config.endpoint@, config.version@, "table"@, "alias"@),
            r.body matches Some(b) && self.encoded_by(b),
    {
        let url = request_url(config, "table", "alias");
        let ghost old_self = self;
        let mut es: Vec<(String, JsonValue)> = Vec::new();
        es.push(str_entry("database", self.database));
        es.push(str_entry("table", self.table));
        es.push(str_entry("alias", self.alias));
        let body = JsonValue::Object(es);
        proof {
            assert(old_self.encoded_by(body));
        }
        HttpRequest { method: HttpMethod::Post, url, body: Some(body) }
    }
}

/// Takes an alias from a table.
#[derive(Debug, Clone)]
pub struct UnaliasTableArgs {
    pub database: String,
    pub table: String,
    pub alias: String,
}

impl UnaliasTableArgs {
    pub fn new(database: &str, table: &str, alias: &str) -> (r: UnaliasTableArgs)
        ensures
            r.database@ == database@,
            r.table@ == table@,
            r.alias@ == alias@,
    {
        UnaliasTableArgs { database: String::from_str(database), table: String::from_str(table), alias: String::from_str(alias) }
    }

    /// The JSON body: `database`, `table`, `alias`, in that order.
    pub open spec fn encoded_by(&self, j: JsonValue) -> bool {
        is_str_object(j, seq!["database"@, "table"@, "alias"@], seq![self.database@, self.table@, self.alias@])
    }

    /// Post `table?unalias`, answered by [`CommonResponse`].
    pub fn into_request(self, config: &ClientConfiguration) -> (r: HttpRequest)
        ensures
            r.method == HttpMethod::Post,
            r.url@ == url_of(config.endpoint@, config.version@, "table"@, "unalias"@),
            r.body matches Some(b) && self.encoded_by(b),
    {
        let url = request_url(config, "table", "unalias");
        let ghost old_self = self;
        let mut es: Vec<(String, JsonValue)> = Vec::new();
        es.push(str_entry("database", self.database));
        es.push(str_entry("table", self.table));
        es.push(str_entry("alias", self.alias));
        let body = JsonValue::Object(es);
        proof {
            assert(old_self.encoded_by(body));
        }
        HttpRequest { method: HttpMethod::Post, url, body: Some(body) }
    }
}

/// How the rows of a table are spread: by hash over `partition_num` partitions.
#[derive(Debug, Clone, Copy, PartialEq, Eq, Structural)]
pub struct Partition {
    pub partition_type: PartitionType,
    /// Number of partitions, in [1, 1000].
    pub partition_num: u32,
}

impl Partition {
    /// The JSON object: `partitionType`, then `partitionNum`.
    pub open spec fn encoded_by(&self, j: JsonValue) -> bool {
        let es = entries(j);
        &&& j is Object
        &&& es.len() == 2
        &&& is_str_entry(es[0], "partitionType"@, self.partition_type.wire_name_spec())
        &&& is_entry(es[1], "partitionNum"@, JsonValue::Int(self.partition_num as i128))
    }

    /// The partition an object decodes to; both members are required.
    pub open spec fn decoded(j: JsonValue) -> Option<Partition> {
        match (str_at(j, "partitionType"@), u32_at(j, "partitionNum"@)) {
            (Some(t), Some(n)) => match PartitionType::from_wire_spec(t) {
                Some(pt) => Some(Partition { partition_type: pt, partition_num: n }),
                None => None,
            },
            _ => None,
        }
    }

    pub fn to_json(&self) -> (r: JsonValue)
        ensures
            self.encoded_by(r),
    {
        let mut es: Vec<(String, JsonValue)> = Vec::new();
        es.push(str_entry("partitionType", self.partition_type.wire_name()));
        es.push(entry("partitionNum", JsonValue::Int(self.partition_num as i128)));
        JsonValue::Object(es)
    }

    pub fn from_json(j: &JsonValue) -> (r: Option<Partition>)
        ensures
            r == Self::decoded(*j),
    {
        let t = match get_field(j, "partitionType") {
            Some(JsonValue::Str(t)) => t,
            _ => {
                return None;
            },
        };
        let n = match read_u32(j, "partitionNum") {
            Some(n) => n,
            None => {
                return None;
            },
        };
        match PartitionType::from_wire(t.as_str()) {
            Some(pt) => Some(Partition { partition_type: pt, partition_num: n }),
            None => None,
        }
    }
}

/// A field of a table.
#[derive(Debug, Clone)]
pub struct FieldSchema {
    /// Starts with a letter; letters, digits and underscores only.
    pub field_name: String,
    pub field_type: FieldType,
    pub primary_key: bool,
    pub partition_key: bool,
    /// Only for a primary key of type UINT64.
    pub auto_increment: bool,
    pub not_null: bool,
    /// The dimension of a FLOAT_VECTOR field.
    pub dimension: Option<u32>,
}

impl FieldSchema {
    /// A field with every flag off and no dimension.
    pub fn new(field_name: &str, field_type: FieldType) -> (r: FieldSchema)
        ensures
            r.field_name@ == field_name@,
            r.field_type == field_type,
            !r.primary_key && !r.partition_key && !r.auto_increment && !r.not_null,
            r.dimension is None,
    {
        FieldSchema {
            field_name: String::from_str(field_name),
            field_type,
            primary_key: false,
            partition_key: false,
            auto_increment: false,
            not_null: false,
            dimension: None,
        }
    }

    /// The JSON object: `fieldName`, `fieldType`, `primaryKey`,
    /// `partitionKey`, `autoIncrement`, `notNull`, then `dimension` when set.
    pub open spec fn encoded_by(&self, j: JsonValue) -> bool {
        let es = entries(j);
        &&& j is Object
        &&& es.len() == 6 + opt_len(self.dimension)
        &&& is_str_entry(es[0], "fieldName"@, self.field_name@)
        &&& is_str_entry(es[1], "fieldType"@, self.field_type.wire_name_spec())
        &&& is_entry(es[2], "primaryKey"@, JsonValue::Bool(self.primary_key))
        &&& is_entry(es[3], "partitionKey"@, JsonValue::Bool(self.partition_key))
        &&& is_entry(es[4], "autoIncrement"@, JsonValue::Bool(self.auto_increment))
        &&& is_entry(es[5], "notNull"@, JsonValue::Bool(self.not_null))
        &&& (self.dimension matches Some(d) ==> is_entry(es[6], "dimension"@, JsonValue::Int(d as i128)))
    }

    /// Whether an object decodes: `fieldType` is required, the rest optional.
    pub open spec fn decodes(j: JsonValue) -> bool {
        &&& j is Object
        &&& text_or_empty(j, "fieldName"@) is Some
        &&& str_at(j, "fieldType"@) matches Some(t) && FieldType::from_wire_spec(t) is Some
        &&& bool_or_false(j, "primaryKey"@) is Some
        &&& bool_or_false(j, "partitionKey"@) is Some
        &&& bool_or_false(j, "autoIncrement"@) is Some
        &&& bool_or_false(j, "notNull"@) is Some
        &&& opt_u32_at(j, "dimension"@) is Some
    }

    /// The field an object decodes to.
    pub open spec fn decoded_from(&self, j: JsonValue) -> bool {
        &&& text_or_empty(j, "fieldName"@) == Some(self.field_name@)
        &&& str_at(j, "fieldType"@) matches Some(t) && FieldType::from_wire_spec(t) == Some(
            self.field_type,
        )
        &&& bool_or_false(j, "primaryKey"@) == Some(self.primary_key)
        &&& bool_or_false(j, "partitionKey"@) == Some(self.partition_key)
        &&& bool_or_false(j, "autoIncrement"@) == Some(self.auto_increment)
        &&& bool_or_false(j, "notNull"@) == Some(self.not_null)
        &&& opt_u32_at(j, "dimension"@) == Some(self.dimension)
    }

    pub fn to_json(self) -> (r: JsonValue)
        ensures
            self.encoded_by(r),
    {
        let ghost old_self = self;
        let mut es: Vec<(String, JsonValue)> = Vec::new();
        es.push(str_entry("fieldName", self.field_name));
        es.push(str_entry("fieldType", self.field_type.wire_name()));
        es.push(entry("primaryKey", JsonValue::Bool(self.primary_key)));
        es.push(entry("partitionKey", JsonValue::Bool(self.partition_key)));
        es.push(entry("autoIncrement", JsonValue::Bool(self.auto_increment)));
        es.push(entry("notNull", JsonValue::Bool(self.not_null)));
        match self.dimension {
            Some(d) => es.push(entry("dimension", JsonValue::Int(d as i128))),
            None => {},
        }
        let r = JsonValue::Object(es);
        assert(old_self.encoded_by(r));
        r
    }

    pub fn from_json(j: &JsonValue) -> (r: Option<FieldSchema>)
        ensures
            r is Some <==> Self::decodes(*j),
            r matches Some(x) ==> x.decoded_from(*j),
    {
        if !is_object(j) {
            return None;
        }
        let field_name = match read_text_or_empty(j, "fieldName") {
            Some(t) => t,
            None => {
                return None;
            },
        };
        let field_type = match get_field(j, "fieldType") {
            Some(JsonValue::Str(t)) => match FieldType::from_wire(t.as_str()) {
                Some(ft) => ft,
                None => {
                    return None;
                },
            },
            _ => {
                return None;
            },
        };
        let primary_key = match read_bool_or_false(j, "primaryKey") {
            Some(b) => b,
            None => {
                return None;
            },
        };
        let partition_key = match read_bool_or_false(j, "partitionKey") {
            Some(b) => b,
            None => {
                return None;
            },
        };
        let auto_increment = match read_bool_or_false(j, "autoIncrement") {
            Some(b) => b,
            None => {
                return None;
            },
        };
        let not_null = match read_bool_or_false(j, "notNull") {
            Some(b) => b,
            None => {
                return None;
            },
        };
        let dimension = match read_opt_u32(j, "dimension") {
            Some(d) => d,
            None => {
                return None;
            },
        };
        Some(
            FieldSchema {
                field_name,
                field_type,
                primary_key,
                partition_key,
                auto_increment,
                not_null,
                dimension,
            },
        )
    }
}

impl FieldSchema {
    /// Two fields hold the same values.
    pub open spec fn same_as(&self, other: &FieldSchema) -> bool {
        &&& self.field_name@ == other.field_name@
        &&& self.field_type == other.field_type
        &&& self.primary_key == other.primary_key
        &&& self.partition_key == other.partition_key
        &&& self.auto_increment == other.auto_increment
        &&& self.not_null == other.not_null
        &&& self.dimension == other.dimension
    }
}

/// A field decodes from its JSON object, and to a field with the same values.
pub proof fn lemma_field_schema_round_trip(x: FieldSchema, j: JsonValue, y: FieldSchema)
    requires
        x.encoded_by(j),
    ensures
        FieldSchema::decodes(j),
        y.decoded_from(j) ==> y.same_as(&x),
        field(j, "dimension"@) is Some <==> x.dimension is Some,
        forall|i: int| 0 <= i < entries(j).len() ==> (#[trigger] entries(j)[i]).1 != JsonValue::Null,
{
    reveal_strlit("fieldName");
    reveal_strlit("fieldType");
    reveal_strlit("primaryKey");
    reveal_strlit("partitionKey");
    reveal_strlit("autoIncrement");
    reveal_strlit("notNull");
    reveal_strlit("dimension");
    assert("fieldName"@.len() == 9);
    assert("fieldType"@.len() == 9);
    assert("primaryKey"@.len() == 10);
    assert("partitionKey"@.len() == 12);
    assert("autoIncrement"@.len() == 13);
    assert("notNull"@.len() == 7);
    assert("dimension"@.len() == 9);
    assert("fieldName"@[5] == 'N' && "fieldType"@[5] == 'T');
    assert("dimension"@[0] == 'd' && "fieldName"@[0] == 'f');
    assert("dimension"@[0] == 'd' && "fieldType"@[0] == 'f');
    let es = entries(j);
    lemma_field_type_wire_round_trip(x.field_type);
    lemma_lookup_first(es, "fieldName"@, 0);
    lemma_lookup_first(es, "fieldType"@, 1);
    lemma_lookup_first(es, "primaryKey"@, 2);
    lemma_lookup_first(es, "partitionKey"@, 3);
    lemma_lookup_first(es, "autoIncrement"@, 4);
    lemma_lookup_first(es, "notNull"@, 5);
    if x.dimension is Some {
        lemma_lookup_first(es, "dimension"@, 6);
    } else {
        assert forall|i: int| 0 <= i < es.len() implies es[i].0@ != "dimension"@ by {
            if i == 0 {
            } else if i == 1 {
            } else if i == 2 {
            } else if i == 3 {
            } else if i == 4 {
            } else {
            }
        }
        lemma_lookup_absent(es, "dimension"@);
    }
    if y.decoded_from(j) {
        assert(FieldType::from_wire_spec(x.field_type.wire_name_spec()) == Some(x.field_type));
    }
    assert forall|i: int| 0 <= i < es.len() implies (#[trigger] es[i]).1 != JsonValue::Null by {
        if i == 0 {
        } else if i == 1 {
        } else if i == 2 {
        } else if i == 3 {
        } else if i == 4 {
        } else if i == 5 {
        } else {
        }
    }
}

/// The fields and indexes of a table.
#[derive(Debug, Clone)]
pub struct TableSchema {
    pub fields: Vec<FieldSchema>,
    pub indexes: Vec<IndexSchema>,
}

/// The JSON array of a list of fields, in order.
pub fn fields_to_json(items: Vec<FieldSchema>) -> (r: Vec<JsonValue>)
    ensures
        r@.len() == items@.len(),
        forall|i: int| 0 <= i < items@.len() ==> items@[i].encoded_by(#[trigger] r@[i]),
{
    let ghost orig = items@;
    let mut items = items;
    let mut out: Vec<JsonValue> = Vec::new();
    while items.len() > 0
        invariant
            out@.len() + items@.len() == orig.len(),
            items@ == orig.subrange(out@.len() as int, orig.len() as int),
            forall|i: int| 0 <= i < out@.len() ==> orig[i].encoded_by(#[trigger] out@[i]),
        decreases items@.len(),
    {
        let item = items.remove(0);
        assert(item == orig[out@.len() as int]);
        out.push(item.to_json());
    }
    out
}

/// The JSON array of a list of indexes, in order.
pub fn indexes_to_json(items: Vec<IndexSchema>) -> (r: Vec<JsonValue>)
    ensures
        r@.len() == items@.len(),
        forall|i: int| 0 <= i < items@.len() ==> items@[i].encoded_by(#[trigger] r@[i]),
{
    let ghost orig = items@;
    let mut items = items;
    let mut out: Vec<JsonValue> = Vec::new();
    while items.len() > 0
        invariant
            out@.len() + items@.len() == orig.len(),
            items@ == orig.subrange(out@.len() as int, orig.len() as int),
            forall|i: int| 0 <= i < out@.len() ==> orig[i].encoded_by(#[trigger] out@[i]),
        decreases items@.len(),
    {
        let item = items.remove(0);
        assert(item == orig[out@.len() as int]);
        out.push(item.to_json());
    }
    out
}

/// Whether every item of an array decodes as a field.
pub open spec fn all_fields_decode(a: Seq<JsonValue>) -> bool {
    forall|i: int| 0 <= i < a.len() ==> FieldSchema::decodes(#[trigger] a[i])
}

/// Whether every item of an array decodes as an index.
pub open spec fn all_indexes_decode(a: Seq<JsonValue>) -> bool {
    forall|i: int| 0 <= i < a.len() ==> IndexSchema::decodes(#[trigger] a[i])
}

impl TableSchema {
    /// The JSON object: `fields`, then `indexes`, each an array in order.
    pub open spec fn encoded_by(&self, j: JsonValue) -> bool {
        let es = entries(j);
        &&& j is Object
        &&& es.len() == 2
        &&& es[0].0@ == "fields"@
        &&& es[0].1 matches JsonValue::Array(a) && a@.len() == self.fields@.len() && forall|i: int|
            0 <= i < a@.len() ==> self.fields@[i].encoded_by(#[trigger] a@[i])
        &&& es[1].0@ == "indexes"@
        &&& es[1].1 matches JsonValue::Array(a) && a@.len() == self.indexes@.len() && forall|i: int|
            0 <= i < a@.len() ==> self.indexes@[i].encoded_by(#[trigger] a@[i])
    }

    /// Whether an object decodes: both arrays may be absent, and each item decodes.
    pub open spec fn decodes(j: JsonValue) -> bool {
        &&& j is Object
        &&& match field(j, "fields"@) {
            None => true,
            Some(JsonValue::Array(a)) => all_fields_decode(a@),
            _ => false,
        }
        &&& match field(j, "indexes"@) {
            None => true,
            Some(JsonValue::Array(a)) => all_indexes_decode(a@),
            _ => false,
        }
    }

    /// The schema an object decodes to; an absent array is empty.
    pub open spec fn decoded_from(&self, j: JsonValue) -> bool {
        &&& match field(j, "fields"@) {
            None => self.fields@.len() == 0,
            Some(JsonValue::Array(a)) => a@.len() == self.fields@.len() && forall|i: int|
                0 <= i < a@.len() ==> self.fields@[i].decoded_from(#[trigger] a@[i]),
            _ => false,
        }
        &&& match field(j, "indexes"@) {
            None => self.indexes@.len() == 0,
            Some(JsonValue::Array(a)) => a@.len() == self.indexes@.len() && forall|i: int|
                0 <= i < a@.len() ==> self.indexes@[i].decoded_from(#[trigger] a@[i]),
            _ => false,
        }
    }

    /// Two schemas agree on everything that is sent: the fields, and the
    /// indexes but for their `state`.
    pub open spec fn same_as_sent(&self, other: &TableSchema) -> bool {
        &&& self.fields@.len() == other.fields@.len()
        &&& forall|i: int|
            0 <= i < self.fields@.len() ==> #[trigger] self.fields@[i].same_as(&other.fields@[i])
        &&& self.indexes@.len() == other.indexes@.len()
        &&& forall|i: int|
            0 <= i < self.indexes@.len() ==> #[trigger] self.indexes@[i].same_as_sent(
                &other.indexes@[i],
            )
    }

    pub fn to_json(self) -> (r: JsonValue)
        ensures
            self.encoded_by(r),
    {
        let ghost old_self = self;
        let mut es: Vec<(String, JsonValue)> = Vec::new();
        es.push(entry("fields", JsonValue::Array(fields_to_json(self.fields))));
        es.push(entry("indexes", JsonValue::Array(indexes_to_json(self.indexes))));
        let r = JsonValue::Object(es);
        assert(old_self.encoded_by(r));
        r
    }

    pub fn from_json(j: &JsonValue) -> (r: Option<TableSchema>)
        ensures
            r is Some <==> Self::decodes(*j),
            r matches Some(x) ==> x.decoded_from(*j),
    {
        if !is_object(j) {
            return None;
        }
        let mut fields: Vec<FieldSchema> = Vec::new();
        match get_field(j, "fields") {
            None => {},
            Some(JsonValue::Array(a)) => {
                let mut i: usize = 0;
                while i < a.len()
                    invariant
                        i <= a@.len(),
                        field(*j, "fields"@) == Some(JsonValue::Array(*a)),
                        fields@.len() == i,
                        forall|k: int| 0 <= k < i ==> FieldSchema::decodes(#[trigger] a@[k]),
                        forall|k: int| 0 <= k < i ==> fields@[k].decoded_from(#[trigger] a@[k]),
                    decreases a@.len() - i,
                {
                    match FieldSchema::from_json(&a[i]) {
                        Some(f) => fields.push(f),
                        None => {
                            assert(!FieldSchema::decodes(a@[i as int]));
                            assert(!all_fields_decode(a@));
                            return None;
                        },
                    }
                    i = i + 1;
                }
            },
            _ => {
                return None;
            },
        }
        let mut indexes: Vec<IndexSchema> = Vec::new();
        match get_field(j, "indexes") {
            None => {},
            Some(JsonValue::Array(a)) => {
                let mut i: usize = 0;
                while i < a.len()
                    invariant
                        i <= a@.len(),
                        field(*j, "indexes"@) == Some(JsonValue::Array(*a)),
                        indexes@.len() == i,
                        forall|k: int| 0 <= k < i ==> IndexSchema::decodes(#[trigger] a@[k]),
                        forall|k: int| 0 <= k < i ==> indexes@[k].decoded_from(#[trigger] a@[k]),
                    decreases a@.len() - i,
                {
                    match IndexSchema::from_json(&a[i]) {
                        Some(x) => indexes.push(x),
                        None => {
                            assert(!IndexSchema::decodes(a@[i as int]));
                            assert(!all_indexes_decode(a@));
                            return None;
                        },
                    }
                    i = i + 1;
                }
            },
            _ => {
                return None;
            },
        }
        Some(TableSchema { fields, indexes })
    }
}

/// A schema decodes from its JSON object, to a schema that agrees with it on
/// all that was sent: the same fields, and the same indexes but for their
/// `state`, which no index has after decoding.
pub proof fn lemma_table_schema_round_trip(x: TableSchema, j: JsonValue, y: TableSchema)
    requires
        x.encoded_by(j),
    ensures
        TableSchema::decodes(j),
        y.decoded_from(j) ==> y.same_as_sent(&x),
        y.decoded_from(j) ==> forall|i: int| 0 <= i < y.indexes@.len() ==> (#[trigger] y.indexes@[i]).state is None,
{
    reveal_strlit("fields");
    reveal_strlit("indexes");
    assert("fields"@.len() == 6 && "indexes"@.len() == 7);
    let es = entries(j);
    lemma_lookup_first(es, "fields"@, 0);
    lemma_lookup_first(es, "indexes"@, 1);
    let fa = es[0].1->Array_0;
    let ia = es[1].1->Array_0;
    assert forall|i: int| 0 <= i < fa@.len() implies FieldSchema::decodes(#[trigger] fa@[i]) by {
        lemma_field_schema_round_trip(x.fields@[i], fa@[i], x.fields@[i]);
    }
    assert forall|i: int| 0 <= i < ia@.len() implies IndexSchema::decodes(#[trigger] ia@[i]) by {
        lemma_index_schema_round_trip(x.indexes@[i], ia@[i], x.indexes@[i]);
    }
    if y.decoded_from(j) {
        assert forall|i: int| 0 <= i < y.fields@.len() implies #[trigger] y.fields@[i].same_as(
            &x.fields@[i],
        ) by {
            lemma_field_schema_round_trip(x.fields@[i], fa@[i], y.fields@[i]);
        }
        assert forall|i: int| 0 <= i < y.indexes@.len() implies #[trigger] y.indexes@[i].same_as_sent(
            &x.indexes@[i],
        ) by {
            lemma_index_schema_round_trip(x.indexes@[i], ia@[i], y.indexes@[i]);
        }
        assert forall|i: int| 0 <= i < y.indexes@.len() implies (#[trigger] y.indexes@[i]).state is None by {
            lemma_index_schema_round_trip(x.indexes@[i], ia@[i], y.indexes@[i]);
        }
    }
}

/// Creates a table.
#[derive(Debug, Clone)]
pub struct CreateTableArgs {
    pub database: String,
    pub table: String,
    pub description: Option<String>,
    /// Replicas of each tablet, the primary included, in [1, 10].
    pub replication: u32,
    pub partition: Partition,
    pub enable_dynamic_field: Option<bool>,
    pub schema: TableSchema,
}

impl CreateTableArgs {
    /// A table with no description and no dynamic field.
    pub fn new(database: &str, table: &str, replication: u32, partition: Partition, schema: TableSchema) -> (r:
        CreateTableArgs)
        ensures
            r.database@ == database@,
            r.table@ == table@,
            r.description is None,
            r.replication == replication,
            r.partition == partition,
            r.enable_dynamic_field == Some(false),
            r.schema == schema,
    {
        CreateTableArgs {
            database: String::from_str(database),
            table: String::from_str(table),
            description: None,
            replication,
            partition,
            enable_dynamic_field: Some(false),
            schema,
        }
    }

    /// The JSON body: `database`, `table`, `description` when set,
    /// `replication`, `partition`, `enableDynamicField` when set, `schema`.
    pub open spec fn encoded_by(&self, j: JsonValue) -> bool {
        let es = entries(j);
        let p_rep = 2 + opt_len(self.description);
        let p_schema = p_rep + 2 + opt_len(self.enable_dynamic_field);
        &&& j is Object
        &&& es.len() == p_schema + 1
        &&& is_str_entry(es[0], "database"@, self.database@)
        &&& is_str_entry(es[1], "table"@, self.table@)
        &&& (self.description matches Some(d) ==> is_str_entry(es[2], "description"@, d@))
        &&& is_entry(es[p_rep], "replication"@, JsonValue::Int(self.replication as i128))
        &&& es[p_rep + 1].0@ == "partition"@ && self.partition.encoded_by(es[p_rep + 1].1)
        &&& (self.enable_dynamic_field matches Some(b) ==> is_entry(
            es[p_rep + 2],
            "enableDynamicField"@,
            JsonValue::Bool(b),
        ))
        &&& es[p_schema].0@ == "schema"@ && self.schema.encoded_by(es[p_schema].1)
    }

    /// Post `table?create`, answered by [`crate::mochow::api::common::CommonResponse`].
    pub fn into_request(self, config: &ClientConfiguration) -> (r: HttpRequest)
        ensures
            r.method == HttpMethod::Post,
            r.url@ == url_of(config.endpoint@, config.version@, "table"@, "create"@),
            r.body matches Some(b) && self.encoded_by(b),
    {
        let ghost old_self = self;
        let url = request_url(config, "table", "create");
        let mut es: Vec<(String, JsonValue)> = Vec::new();
        es.push(str_entry("database", self.database));
        es.push(str_entry("table", self.table));
        match self.description {
            Some(d) => es.push(str_entry("description", d)),
            None => {},
        }
        es.push(entry("replication", JsonValue::Int(self.replication as i128)));
        es.push(entry("partition", self.partition.to_json()));
        match self.enable_dynamic_field {
            Some(b) => es.push(entry("enableDynamicField", JsonValue::Bool(b))),
            None => {},
        }
        es.push(entry("schema", self.schema.to_json()));
        let body = JsonValue::Object(es);
        assert(old_self.encoded_by(body));
        HttpRequest { method: HttpMethod::Post, url, body: Some(body) }
    }
}

/// Adds scalar fields to a table.
#[derive(Debug, Clone)]
pub struct AddFieldArgs {
    pub database: String,
    pub table: String,
    /// The fields to add; its indexes are not used.
    pub schema: TableSchema,
}

impl AddFieldArgs {
    /// The JSON body: `database`, `table`, `schema`.
    pub open spec fn encoded_by(&self, j: JsonValue) -> bool {
        let es = entries(j);
        &&& j is Object
        &&& es.len() == 3
        &&& is_str_entry(es[0], "database"@, self.database@)
        &&& is_str_entry(es[1], "table"@, self.table@)
        &&& es[2].0@ == "schema"@ && self.schema.encoded_by(es[2].1)
    }

    /// Post `table?addField`, answered by [`crate::mochow::api::common::CommonResponse`].
    pub fn into_request(self, config: &ClientConfiguration) -> (r: HttpRequest)
        ensures
            r.method == HttpMethod::Post,
            r.url@ == url_of(config.endpoint@, config.version@, "table"@, "addField"@),
            r.body matches Some(b) && self.encoded_by(b),
    {
        let ghost old_self = self;
        let url = request_url(config, "table", "addField");
        let mut es: Vec<(String, JsonValue)> = Vec::new();
        es.push(str_entry("database", self.database));
        es.push(str_entry("table", self.table));
        es.push(entry("schema", self.schema.to_json()));
        let body = JsonValue::Object(es);
        assert(old_self.encoded_by(body));
        HttpRequest { method: HttpMethod::Post, url, body: Some(body) }
    }
}

/// The answer to [`ListTableArgs`].
#[derive(Debug, Clone)]
pub struct ListTableResponse {
    pub code: i32,
    pub msg: String,
    pub tables: Vec<String>,
}

impl ListTableResponse {
    /// Whether an answer decodes: `code` and `msg` are required, `tables` may be absent.
    pub open spec fn decodes(j: JsonValue) -> bool {
        &&& i32_at(j, "code"@) is Some
        &&& str_at(j, "msg"@) is Some
        &&& (field(j, "tables"@) is None || strs_at(j, "tables"@) is Some)
    }

    pub fn from_json(j: &JsonValue) -> (r: Option<ListTableResponse>)
        ensures
            r is Some <==> Self::decodes(*j),
            r matches Some(l) ==> {
                &&& i32_at(*j, "code"@) == Some(l.code)
                &&& str_at(*j, "msg"@) == Some(l.msg@)
                &&& field(*j, "tables"@) is None ==> l.tables@.len() == 0
                &&& field(*j, "tables"@) is Some ==> strs_at(*j, "tables"@) == Some(
                    Seq::new(l.tables@.len(), |i: int| l.tables@[i]@),
                )
            },
    {
        let code = match read_i32(j, "code") {
            Some(c) => c,
            None => {
                return None;
            },
        };
        let msg = match read_str(j, "msg") {
            Some(m) => m,
            None => {
                return None;
            },
        };
        let tables = if get_field(j, "tables").is_none() {
            Vec::new()
        } else {
            match read_strs(j, "tables") {
                Some(t) => t,
                None => {
                    return None;
                },
            }
        };
        Some(ListTableResponse { code, msg, tables })
    }

    /// Whether the list holds `table`.
    pub fn contains(&self, table: &str) -> (r: bool)
        ensures
            r == exists|i: int| 0 <= i < self.tables@.len() && self.tables@[i]@ == table@,
    {
        contains_name(&self.tables, table)
    }
}

/// The answer to [`StatsTableArgs`].
#[derive(Debug, Clone)]
pub struct StatsTableResponse {
    pub code: i32,
    pub msg: String,
    pub row_count: u64,
    pub memory_size_in_byte: u64,
    pub disk_size_in_byte: u64,
}

impl StatsTableResponse {
    /// The statistics an answer decodes to; every member is required.
    pub open spec fn decoded_from(&self, j: JsonValue) -> bool {
        &&& i32_at(j, "code"@) == Some(self.code)
        &&& str_at(j, "msg"@) == Some(self.msg@)
        &&& u64_at(j, "rowCount"@) == Some(self.row_count)
        &&& u64_at(j, "memorySizeInByte"@) == Some(self.memory_size_in_byte)
        &&& u64_at(j, "diskSizeInByte"@) == Some(self.disk_size_in_byte)
    }

    pub fn from_json(j: &JsonValue) -> (r: Option<StatsTableResponse>)
        ensures
            r is Some <==> (i32_at(*j, "code"@) is Some && str_at(*j, "msg"@) is Some && u64_at(
                *j,
                "rowCount"@,
            ) is Some && u64_at(*j, "memorySizeInByte"@) is Some && u64_at(
                *j,
                "diskSizeInByte"@,
            ) is Some),
            r matches Some(s) ==> s.decoded_from(*j),
    {
        let code = match read_i32(j, "code") {
            Some(c) => c,
            None => {
                return None;
            },
        };
        let msg = match read_str(j, "msg") {
            Some(m) => m,
            None => {
                return None;
            },
        };
        let row_count = match read_u64(j, "rowCount") {
            Some(n) => n,
            None => {
                return None;
            },
        };
        let memory_size_in_byte = match read_u64(j, "memorySizeInByte") {
            Some(n) => n,
            None => {
                return None;
            },
        };
        let disk_size_in_byte = match read_u64(j, "diskSizeInByte") {
            Some(n) => n,
            None => {
                return None;
            },
        };
        Some(StatsTableResponse { code, msg, row_count, memory_size_in_byte, disk_size_in_byte })
    }
}

/// A table as the service describes it.
#[derive(Debug, Clone)]
pub struct DescriptTable {
    pub database: String,
    pub table: String,
    pub create_time: String,
    pub description: String,
    pub replication: u32,
    pub partition: Partition,
    pub enable_dynamic_field: bool,
    pub state: TableState,
    pub aliases: Vec<String>,
    pub schema: TableSchema,
}

impl DescriptTable {
    /// Whether an object decodes: `aliases` and `schema` may be absent, the rest is required.
    pub open spec fn decodes(j: JsonValue) -> bool {
        &&& str_at(j, "database"@) is Some
        &&& str_at(j, "table"@) is Some
        &&& str_at(j, "createTime"@) is Some
        &&& str_at(j, "description"@) is Some
        &&& u32_at(j, "replication"@) is Some
        &&& field(j, "partition"@) matches Some(p) && Partition::decoded(p) is Some
        &&& bool_at(j, "enableDynamicField"@) is Some
        &&& str_at(j, "state"@) matches Some(s) && TableState::from_wire_spec(s) is Some
        &&& (field(j, "aliases"@) is None || strs_at(j, "aliases"@) is Some)
        &&& (field(j, "schema"@) is None || TableSchema::decodes(field(j, "schema"@)->0))
    }

    /// The table an object decodes to.
    pub open spec fn decoded_from(&self, j: JsonValue) -> bool {
        &&& str_at(j, "database"@) == Some(self.database@)
        &&& str_at(j, "table"@) == Some(self.table@)
        &&& str_at(j, "createTime"@) == Some(self.create_time@)
        &&& str_at(j, "description"@) == Some(self.description@)
        &&& u32_at(j, "replication"@) == Some(self.replication)
        &&& Partition::decoded(field(j, "partition"@)->0) == Some(self.partition)
        &&& bool_at(j, "enableDynamicField"@) == Some(self.enable_dynamic_field)
        &&& TableState::from_wire_spec(str_at(j, "state"@)->0) == Some(self.state)
        &&& (field(j, "aliases"@) is None ==> self.aliases@.len() == 0)
        &&& (field(j, "aliases"@) is Some ==> strs_at(j, "aliases"@) == Some(
            Seq::new(self.aliases@.len(), |i: int| self.aliases@[i]@),
        ))
        &&& (field(j, "schema"@) is None ==> self.schema.fields@.len() == 0
            && self.schema.indexes@.len() == 0)
        &&& (field(j, "schema"@) is Some ==> self.schema.decoded_from(field(j, "schema"@)->0))
    }

    pub fn from_json(j: &JsonValue) -> (r: Option<DescriptTable>)
        ensures
            r is Some <==> Self::decodes(*j),
            r matches Some(t) ==> t.decoded_from(*j),
    {
        let database = match read_str(j, "database") {
            Some(s) => s,
            None => {
                return None;
            },
        };
        let table = match read_str(j, "table") {
            Some(s) => s,
            None => {
                return None;
            },
        };
        let create_time = match read_str(j, "createTime") {
            Some(s) => s,
            None => {
                return None;
            },
        };
        let description = match read_str(j, "description") {
            Some(s) => s,
            None => {
                return None;
            },
        };
        let replication = match read_u32(j, "replication") {
            Some(n) => n,
            None => {
                return None;
            },
        };
        let partition = match get_field(j, "partition") {
            Some(p) => match Partition::from_json(p) {
                Some(p) => p,
                None => {
                    return None;
                },
            },
            None => {
                return None;
            },
        };
        let enable_dynamic_field = match read_bool(j, "enableDynamicField") {
            Some(b) => b,
            None => {
                return None;
            },
        };
        let state = match get_field(j, "state") {
            Some(JsonValue::Str(s)) => match TableState::from_wire(s.as_str()) {
                Some(t) => t,
                None => {
                    return None;
                },
            },
            _ => {
                return None;
            },
        };
        let aliases = if get_field(j, "aliases").is_none() {
            Vec::new()
        } else {
            match read_strs(j, "aliases") {
                Some(a) => a,
                None => {
                    return None;
                },
            }
        };
        let schema = match get_field(j, "schema") {
            None => TableSchema { fields: Vec::new(), indexes: Vec::new() },
            Some(x) => match TableSchema::from_json(x) {
                Some(s) => s,
                None => {
                    return None;
                },
            },
        };
        Some(
            DescriptTable {
                database,
                table,
                create_time,
                description,
                replication,
                partition,
                enable_dynamic_field,
                state,
                aliases,
                schema,
            },
        )
    }
}

/// The answer to [`DescriptTableArgs`].
#[derive(Debug, Clone)]
pub struct DescriptTableResponse {
    pub code: i32,
    pub msg: String,
    pub table: DescriptTable,
}

impl DescriptTableResponse {
    /// Whether an answer decodes: `code`, `msg` and `table` are required.
    pub open spec fn decodes(j: JsonValue) -> bool {
        &&& i32_at(j, "code"@) is Some
        &&& str_at(j, "msg"@) is Some
        &&& field(j, "table"@) matches Some(t) && DescriptTable::decodes(t)
    }

    pub fn from_json(j: &JsonValue) -> (r: Option<DescriptTableResponse>)
        ensures
            r is Some <==> Self::decodes(*j),
            r matches Some(d) ==> {
                &&& i32_at(*j, "code"@) == Some(d.code)
                &&& str_at(*j, "msg"@) == Some(d.msg@)
                &&& d.table.decoded_from(field(*j, "table"@)->0)
            },
    {
        let code = match read_i32(j, "code") {
            Some(c) => c,
            None => {
                return None;
            },
        };
        let msg = match read_str(j, "msg") {
            Some(m) => m,
            None => {
                return None;
            },
        };
        let table = match get_field(j, "table") {
            Some(x) => match DescriptTable::from_json(x) {
                Some(t) => t,
                None => {
                    return None;
                },
            },
            None => {
                return None;
            },
        };
        Some(DescriptTableResponse { code, msg, table })
    }
}

/// In the JSON of a schema, each field has `dimension` exactly when it is
/// set, and each index has no `state` and has `indexType`, `metricType`,
/// `params`, `autoBuildPolicy` and `indexMajorVersion` exactly when they are
/// set; no member of a field or an index is null.
pub proof fn lemma_table_schema_members(x: TableSchema, j: JsonValue)
    requires
        x.encoded_by(j),
    ensures
        entries(j)[0].1 matches JsonValue::Array(fa) && forall|k: int| 0 <= k < fa@.len() ==> {
            let f = #[trigger] fa@[k];
            &&& (field(f, "dimension"@) is Some <==> x.fields@[k].dimension is Some)
            &&& forall|i: int| 0 <= i < entries(f).len() ==> (#[trigger] entries(f)[i]).1 != JsonValue::Null
        },
        entries(j)[1].1 matches JsonValue::Array(ia) && forall|k: int| 0 <= k < ia@.len() ==> {
            let e = #[trigger] ia@[k];
            let s = x.indexes@[k];
            &&& field(e, "state"@) is None
            &&& (field(e, "indexType"@) is Some <==> s.index_type is Some)
            &&& (field(e, "metricType"@) is Some <==> s.metric_type is Some)
            &&& (field(e, "params"@) is Some <==> s.params is Some)
            &&& (field(e, "autoBuildPolicy"@) is Some <==> s.auto_build_policy is Some)
            &&& (field(e, "indexMajorVersion"@) is Some <==> s.index_major_version is Some)
            &&& forall|i: int| 0 <= i < entries(e).len() ==> (#[trigger] entries(e)[i]).1 != JsonValue::Null
        },
{
    let es = entries(j);
    let fa = es[0].1->Array_0;
    let ia = es[1].1->Array_0;
    assert forall|k: int| 0 <= k < fa@.len() implies {
        let f = #[trigger] fa@[k];
        &&& (field(f, "dimension"@) is Some <==> x.fields@[k].dimension is Some)
        &&& forall|i: int| 0 <= i < entries(f).len() ==> (#[trigger] entries(f)[i]).1 != JsonValue::Null
    } by {
        lemma_field_schema_round_trip(x.fields@[k], fa@[k], x.fields@[k]);
    }
    assert forall|k: int| 0 <= k < ia@.len() implies {
        let e = #[trigger] ia@[k];
        let s = x.indexes@[k];
        &&& field(e, "state"@) is None
        &&& (field(e, "indexType"@) is Some <==> s.index_type is Some)
        &&& (field(e, "metricType"@) is Some <==> s.metric_type is Some)
        &&& (field(e, "params"@) is Some <==> s.params is Some)
        &&& (field(e, "autoBuildPolicy"@) is Some <==> s.auto_build_policy is Some)
        &&& (field(e, "indexMajorVersion"@) is Some <==> s.index_major_version is Some)
        &&& forall|i: int| 0 <= i < entries(e).len() ==> (#[trigger] entries(e)[i]).1 != JsonValue::Null
    } by {
        lemma_index_schema_round_trip(x.indexes@[k], ia@[k], x.indexes@[k]);
    }
}

} // verus!
