use vstd::prelude::*;
use vstd::string::*;

use crate::mochow::json::same_text;

verus! {
/// How an index is rebuilt automatically.
#[allow(non_camel_case_types)]
#[derive(Debug, Clone, Copy, PartialEq, Eq, Structural)]
pub enum AutoBuildPolicyType {
    TIMING,
    PERIODICAL,
    ROW_COUNT_INCREMENT,
}

impl AutoBuildPolicyType {
    /// The name of the value on the wire.
    pub open spec fn wire_name_spec(&self) -> Seq<char> {
        match self {
            AutoBuildPolicyType::TIMING => "TIMING"@,
            AutoBuildPolicyType::PERIODICAL => "PERIODICAL"@,
            AutoBuildPolicyType::ROW_COUNT_INCREMENT => "ROW_COUNT_INCREMENT"@,
        }
    }

    /// The value a wire name stands for, if any.
    pub open spec fn from_wire_spec(s: Seq<char>) -> Option<AutoBuildPolicyType> {
        if s == "TIMING"@ {
            Some(AutoBuildPolicyType::TIMING)
        } else if s == "timing"@ {
            Some(AutoBuildPolicyType::TIMING)
        } else if s == "PERIODICAL"@ {
            Some(AutoBuildPolicyType::PERIODICAL)
        } else if s == "periodical"@ {
            Some(AutoBuildPolicyType::PERIODICAL)
        } else if s == "ROW_COUNT_INCREMENT"@ {
            Some(AutoBuildPolicyType::ROW_COUNT_INCREMENT)
        } else if s == "row_count_increment"@ {
            Some(AutoBuildPolicyType::ROW_COUNT_INCREMENT)
        } else {
            None
        }
    }

    pub fn wire_name(&self) -> (r: String)
        ensures
            r@ == self.wire_name_spec(),
    {
        match self {
            AutoBuildPolicyType::TIMING => String::from_str("TIMING"),
            AutoBuildPolicyType::PERIODICAL => String::from_str("PERIODICAL"),
            AutoBuildPolicyType::ROW_COUNT_INCREMENT => String::from_str("ROW_COUNT_INCREMENT"),
        }
    }

    pub fn from_wire(s: &str) -> (r: Option<AutoBuildPolicyType>)
        ensures
            r == AutoBuildPolicyType::from_wire_spec(s@),
    {
        if same_text(s, "TIMING") {
            Some(AutoBuildPolicyType::TIMING)
        } else if same_text(s, "timing") {
            Some(AutoBuildPolicyType::TIMING)
        } else if same_text(s, "PERIODICAL") {
            Some(AutoBuildPolicyType::PERIODICAL)
        } else if same_text(s, "periodical") {
            Some(AutoBuildPolicyType::PERIODICAL)
        } else if same_text(s, "ROW_COUNT_INCREMENT") {
            Some(AutoBuildPolicyType::ROW_COUNT_INCREMENT)
        } else if same_text(s, "row_count_increment") {
            Some(AutoBuildPolicyType::ROW_COUNT_INCREMENT)
        } else {
            None
        }
    }
}

/// The type of a field of a table.
#[allow(non_camel_case_types)]
#[derive(Debug, Clone, Copy, PartialEq, Eq, Structural)]
pub enum FieldType {
    BOOL,
    INT8,
    UINT8,
    Int16,
    Uint16,
    INT32,
    UINT32,
    INT64,
    UINT64,
    FLOAT,
    DOUBLE,
    DATE,
    DATETIME,
    TIMESTAMP,
    STRING,
    BINARY,
    UUID,
    TEXT,
    TEXT_GBK,
    TEXT_GB18030,
    FLOAT_VECTOR,
}

impl FieldType {
    /// The name of the value on the wire.
    pub open spec fn wire_name_spec(&self) -> Seq<char> {
        match self {
            FieldType::BOOL => "BOOL"@,
            FieldType::INT8 => "INT8"@,
            FieldType::UINT8 => "UINT8"@,
            FieldType::Int16 => "INT16"@,
            FieldType::Uint16 => "UINT16"@,
            FieldType::INT32 => "INT32"@,
            FieldType::UINT32 => "UINT32"@,
            FieldType::INT64 => "INT64"@,
            FieldType::UINT64 => "UINT64"@,
            FieldType::FLOAT => "FLOAT"@,
            FieldType::DOUBLE => "DOUBLE"@,
            FieldType::DATE => "DATE"@,
            FieldType::DATETIME => "DATETIME"@,
            FieldType::TIMESTAMP => "TIMESTAMP"@,
            FieldType::STRING => "STRING"@,
            FieldType::BINARY => "BINARY"@,
            FieldType::UUID => "UUID"@,
            FieldType::TEXT => "TEXT"@,
            FieldType::TEXT_GBK => "TEXT_GBK"@,
            FieldType::TEXT_GB18030 => "TEXT_GB18030"@,
            FieldType::FLOAT_VECTOR => "FLOAT_VECTOR"@,
        }
    }

    /// The value a wire name stands for, if any.
    pub open spec fn from_wire_spec(s: Seq<char>) -> Option<FieldType> {
        if s == "BOOL"@ {
            Some(FieldType::BOOL)
        } else if s == "INT8"@ {
            Some(FieldType::INT8)
        } else if s == "UINT8"@ {
            Some(FieldType::UINT8)
        } else if s == "INT16"@ {
            Some(FieldType::Int16)
        } else if s == "UINT16"@ {
            Some(FieldType::Uint16)
        } else if s == "INT32"@ {
            Some(FieldType::INT32)
        } else if s == "UINT32"@ {
            Some(FieldType::UINT32)
        } else if s == "INT64"@ {
            Some(FieldType::INT64)
        } else if s == "UINT64"@ {
            Some(FieldType::UINT64)
        } else if s == "FLOAT"@ {
            Some(FieldType::FLOAT)
        } else if s == "DOUBLE"@ {
            Some(FieldType::DOUBLE)
        } else if s == "DATE"@ {
            Some(FieldType::DATE)
        } else if s == "DATETIME"@ {
            Some(FieldType::DATETIME)
        } else if s == "TIMESTAMP"@ {
            Some(FieldType::TIMESTAMP)
        } else if s == "STRING"@ {
            Some(FieldType::STRING)
        } else if s == "BINARY"@ {
            Some(FieldType::BINARY)
        } else if s == "UUID"@ {
            Some(FieldType::UUID)
        } else if s == "TEXT"@ {
            Some(FieldType::TEXT)
        } else if s == "TEXT_GBK"@ {
            Some(FieldType::TEXT_GBK)
        } else if s == "TEXT_GB18030"@ {
            Some(FieldType::TEXT_GB18030)
        } else if s == "FLOAT_VECTOR"@ {
            Some(FieldType::FLOAT_VECTOR)
        } else {
            None
        }
    }

    pub fn wire_name(&self) -> (r: String)
        ensures
            r@ == self.wire_name_spec(),
    {
        match self {
            FieldType::BOOL => String::from_str("BOOL"),
            FieldType::INT8 => String::from_str("INT8"),
            FieldType::UINT8 => String::from_str("UINT8"),
            FieldType::Int16 => String::from_str("INT16"),
            FieldType::Uint16 => String::from_str("UINT16"),
            FieldType::INT32 => String::from_str("INT32"),
            FieldType::UINT32 => String::from_str("UINT32"),
            FieldType::INT64 => String::from_str("INT64"),
            FieldType::UINT64 => String::from_str("UINT64"),
            FieldType::FLOAT => String::from_str("FLOAT"),
            FieldType::DOUBLE => String::from_str("DOUBLE"),
            FieldType::DATE => String::from_str("DATE"),
            FieldType::DATETIME => String::from_str("DATETIME"),
            FieldType::TIMESTAMP => String::from_str("TIMESTAMP"),
            FieldType::STRING => String::from_str("STRING"),
            FieldType::BINARY => String::from_str("BINARY"),
            FieldType::UUID => String::from_str("UUID"),
            FieldType::TEXT => String::from_str("TEXT"),
            FieldType::TEXT_GBK => String::from_str("TEXT_GBK"),
            FieldType::TEXT_GB18030 => String::from_str("TEXT_GB18030"),
            FieldType::FLOAT_VECTOR => String::from_str("FLOAT_VECTOR"),
        }
    }

    pub fn from_wire(s: &str) -> (r: Option<FieldType>)
        ensures
            r == FieldType::from_wire_spec(s@),
    {
        if same_text(s, "BOOL") {
            Some(FieldType::BOOL)
        } else if same_text(s, "INT8") {
            Some(FieldType::INT8)
        } else if same_text(s, "UINT8") {
            Some(FieldType::UINT8)
        } else if same_text(s, "INT16") {
            Some(FieldType::Int16)
        } else if same_text(s, "UINT16") {
            Some(FieldType::Uint16)
        } else if same_text(s, "INT32") {
            Some(FieldType::INT32)
        } else if same_text(s, "UINT32") {
            Some(FieldType::UINT32)
        } else if same_text(s, "INT64") {
            Some(FieldType::INT64)
        } else if same_text(s, "UINT64") {
            Some(FieldType::UINT64)
        } else if same_text(s, "FLOAT") {
            Some(FieldType::FLOAT)
        } else if same_text(s, "DOUBLE") {
            Some(FieldType::DOUBLE)
        } else if same_text(s, "DATE") {
            Some(FieldType::DATE)
        } else if same_text(s, "DATETIME") {
            Some(FieldType::DATETIME)
        } else if same_text(s, "TIMESTAMP") {
            Some(FieldType::TIMESTAMP)
        } else if same_text(s, "STRING") {
            Some(FieldType::STRING)
        } else if same_text(s, "BINARY") {
            Some(FieldType::BINARY)
        } else if same_text(s, "UUID") {
            Some(FieldType::UUID)
        } else if same_text(s, "TEXT") {
            Some(FieldType::TEXT)
        } else if same_text(s, "TEXT_GBK") {
            Some(FieldType::TEXT_GBK)
        } else if same_text(s, "TEXT_GB18030") {
            Some(FieldType::TEXT_GB18030)
        } else if same_text(s, "FLOAT_VECTOR") {
            Some(FieldType::FLOAT_VECTOR)
        } else {
            None
        }
    }
}

/// The state of an index, as the service reports it.
#[allow(non_camel_case_types)]
#[derive(Debug, Clone, Copy, PartialEq, Eq, Structural)]
pub enum IndexState {
    INVALID,
    BUILDING,
    NORMAL,
}

impl IndexState {
    /// The name of the value on the wire.
    pub open spec fn wire_name_spec(&self) -> Seq<char> {
        match self {
            IndexState::INVALID => "INVALID"@,
            IndexState::BUILDING => "BUILDING"@,
            IndexState::NORMAL => "NORMAL"@,
        }
    }

    /// The value a wire name stands for, if any.
    pub open spec fn from_wire_spec(s: Seq<char>) -> Option<IndexState> {
        if s == "INVALID"@ {
            Some(IndexState::INVALID)
        } else if s == "BUILDING"@ {
            Some(IndexState::BUILDING)
        } else if s == "NORMAL"@ {
            Some(IndexState::NORMAL)
        } else {
            None
        }
    }

    pub fn wire_name(&self) -> (r: String)
        ensures
            r@ == self.wire_name_spec(),
    {
        match self {
            IndexState::INVALID => String::from_str("INVALID"),
            IndexState::BUILDING => String::from_str("BUILDING"),
            IndexState::NORMAL => String::from_str("NORMAL"),
        }
    }

    pub fn from_wire(s: &str) -> (r: Option<IndexState>)
        ensures
            r == IndexState::from_wire_spec(s@),
    {
        if same_text(s, "INVALID") {
            Some(IndexState::INVALID)
        } else if same_text(s, "BUILDING") {
            Some(IndexState::BUILDING)
        } else if same_text(s, "NORMAL") {
            Some(IndexState::NORMAL)
        } else {
            None
        }
    }
}

/// The state of a table, as the service reports it.
#[allow(non_camel_case_types)]
#[derive(Debug, Clone, Copy, PartialEq, Eq, Structural)]
pub enum TableState {
    INVALID,
    CREATING,
    NORMAL,
    DELETING,
}

impl TableState {
    /// The name of the value on the wire.
    pub open spec fn wire_name_spec(&self) -> Seq<char> {
        match self {
            TableState::INVALID => "INVALID"@,
            TableState::CREATING => "CREATING"@,
            TableState::NORMAL => "NORMAL"@,
            TableState::DELETING => "DELETING"@,
        }
    }

    /// The value a wire name stands for, if any.
    pub open spec fn from_wire_spec(s: Seq<char>) -> Option<TableState> {
        if s == "INVALID"@ {
            Some(TableState::INVALID)
        } else if s == "CREATING"@ {
            Some(TableState::CREATING)
        } else if s == "NORMAL"@ {
            Some(TableState::NORMAL)
        } else if s == "DELETING"@ {
            Some(TableState::DELETING)
        } else {
            None
        }
    }

    pub fn wire_name(&self) -> (r: String)
        ensures
            r@ == self.wire_name_spec(),
    {
        match self {
            TableState::INVALID => String::from_str("INVALID"),
            TableState::CREATING => String::from_str("CREATING"),
            TableState::NORMAL => String::from_str("NORMAL"),
            TableState::DELETING => String::from_str("DELETING"),
        }
    }

    pub fn from_wire(s: &str) -> (r: Option<TableState>)
        ensures
            r == TableState::from_wire_spec(s@),
    {
        if same_text(s, "INVALID") {
            Some(TableState::INVALID)
        } else if same_text(s, "CREATING") {
            Some(TableState::CREATING)
        } else if same_text(s, "NORMAL") {
            Some(TableState::NORMAL)
        } else if same_text(s, "DELETING") {
            Some(TableState::DELETING)
        } else {
            None
        }
    }
}

/// The kind of an index: a vector index or a secondary (scalar) one.
#[allow(non_camel_case_types)]
#[derive(Debug, Clone, Copy, PartialEq, Eq, Structural)]
pub enum IndexType {
    FLAT,
    HNSW,
    HNSWPQ,
    PUCK,
    SECONDARY_INDEX,
}

impl IndexType {
    /// The name of the value on the wire.
    pub open spec fn wire_name_spec(&self) -> Seq<char> {
        match self {
            IndexType::FLAT => "FLAT"@,
            IndexType::HNSW => "HNSW"@,
            IndexType::HNSWPQ => "HNSWPQ"@,
            IndexType::PUCK => "PUCK"@,
            IndexType::SECONDARY_INDEX => "SECONDARY"@,
        }
    }

    /// The value a wire name stands for, if any.
    pub open spec fn from_wire_spec(s: Seq<char>) -> Option<IndexType> {
        if s == "FLAT"@ {
            Some(IndexType::FLAT)
        } else if s == "HNSW"@ {
            Some(IndexType::HNSW)
        } else if s == "HNSWPQ"@ {
            Some(IndexType::HNSWPQ)
        } else if s == "PUCK"@ {
            Some(IndexType::PUCK)
        } else if s == "SECONDARY"@ {
            Some(IndexType::SECONDARY_INDEX)
        } else {
            None
        }
    }

    pub fn wire_name(&self) -> (r: String)
        ensures
            r@ == self.wire_name_spec(),
    {
        match self {
            IndexType::FLAT => String::from_str("FLAT"),
            IndexType::HNSW => String::from_str("HNSW"),
            IndexType::HNSWPQ => String::from_str("HNSWPQ"),
            IndexType::PUCK => String::from_str("PUCK"),
            IndexType::SECONDARY_INDEX => String::from_str("SECONDARY"),
        }
    }

    pub fn from_wire(s: &str) -> (r: Option<IndexType>)
        ensures
            r == IndexType::from_wire_spec(s@),
    {
        if same_text(s, "FLAT") {
            Some(IndexType::FLAT)
        } else if same_text(s, "HNSW") {
            Some(IndexType::HNSW)
        } else if same_text(s, "HNSWPQ") {
            Some(IndexType::HNSWPQ)
        } else if same_text(s, "PUCK") {
            Some(IndexType::PUCK)
        } else if same_text(s, "SECONDARY") {
            Some(IndexType::SECONDARY_INDEX)
        } else {
            None
        }
    }
}

/// The distance of a vector index: Euclidean, inner product or cosine.
#[allow(non_camel_case_types)]
#[derive(Debug, Clone, Copy, PartialEq, Eq, Structural)]
pub enum MetricType {
    L2,
    IP,
    COSINE,
}

impl MetricType {
    /// The name of the value on the wire.
    pub open spec fn wire_name_spec(&self) -> Seq<char> {
        match self {
            MetricType::L2 => "L2"@,
            MetricType::IP => "IP"@,
            MetricType::COSINE => "COSINE"@,
        }
    }

    /// The value a wire name stands for, if any.
    pub open spec fn from_wire_spec(s: Seq<char>) -> Option<MetricType> {
        if s == "L2"@ {
            Some(MetricType::L2)
        } else if s == "IP"@ {
            Some(MetricType::IP)
        } else if s == "COSINE"@ {
            Some(MetricType::COSINE)
        } else {
            None
        }
    }

    pub fn wire_name(&self) -> (r: String)
        ensures
            r@ == self.wire_name_spec(),
    {
        match self {
            MetricType::L2 => String::from_str("L2"),
            MetricType::IP => String::from_str("IP"),
            MetricType::COSINE => String::from_str("COSINE"),
        }
    }

    pub fn from_wire(s: &str) -> (r: Option<MetricType>)
        ensures
            r == MetricType::from_wire_spec(s@),
    {
        if same_text(s, "L2") {
            Some(MetricType::L2)
        } else if same_text(s, "IP") {
            Some(MetricType::IP)
        } else if same_text(s, "COSINE") {
            Some(MetricType::COSINE)
        } else {
            None
        }
    }
}

/// How rows are spread over partitions; only hashing exists.
#[allow(non_camel_case_types)]
#[derive(Debug, Clone, Copy, PartialEq, Eq, Structural)]
pub enum PartitionType {
    HASH,
}

impl Default for PartitionType {
    fn default() -> (r: PartitionType)
        ensures
            r == PartitionType::HASH,
    {
        PartitionType::HASH
    }
}

impl PartitionType {
    /// The name of the value on the wire.
    pub open spec fn wire_name_spec(&self) -> Seq<char> {
        match self {
            PartitionType::HASH => "HASH"@,
        }
    }

    /// The value a wire name stands for, if any.
    pub open spec fn from_wire_spec(s: Seq<char>) -> Option<PartitionType> {
        if s == "HASH"@ {
            Some(PartitionType::HASH)
        } else {
            None
        }
    }

    pub fn wire_name(&self) -> (r: String)
        ensures
            r@ == self.wire_name_spec(),
    {
        match self {
            PartitionType::HASH => String::from_str("HASH"),
        }
    }

    pub fn from_wire(s: &str) -> (r: Option<PartitionType>)
        ensures
            r == PartitionType::from_wire_spec(s@),
    {
        if same_text(s, "HASH") {
            Some(PartitionType::HASH)
        } else {
            None
        }
    }
}

/// The consistency of a read: eventual (the default) or strong.
#[allow(non_camel_case_types)]
#[derive(Debug, Clone, Copy, PartialEq, Eq, Structural)]
pub enum ReadConsistency {
    EVENTUAL,
    STRONG,
}

impl Default for ReadConsistency {
    fn default() -> (r: ReadConsistency)
        ensures
            r == ReadConsistency::EVENTUAL,
    {
        ReadConsistency::EVENTUAL
    }
}

impl ReadConsistency {
    /// The name of the value on the wire.
    pub open spec fn wire_name_spec(&self) -> Seq<char> {
        match self {
            ReadConsistency::EVENTUAL => "EVENTUAL"@,
            ReadConsistency::STRONG => "STRONG"@,
        }
    }

    /// The value a wire name stands for, if any.
    pub open spec fn from_wire_spec(s: Seq<char>) -> Option<ReadConsistency> {
        if s == "EVENTUAL"@ {
            Some(ReadConsistency::EVENTUAL)
        } else if s == "STRONG"@ {
            Some(ReadConsistency::STRONG)
        } else {
            None
        }
    }

    pub fn wire_name(&self) -> (r: String)
        ensures
            r@ == self.wire_name_spec(),
    {
        match self {
            ReadConsistency::EVENTUAL => String::from_str("EVENTUAL"),
            ReadConsistency::STRONG => String::from_str("STRONG"),
        }
    }

    pub fn from_wire(s: &str) -> (r: Option<ReadConsistency>)
        ensures
            r == ReadConsistency::from_wire_spec(s@),
    {
        if same_text(s, "EVENTUAL") {
            Some(ReadConsistency::EVENTUAL)
        } else if same_text(s, "STRONG") {
            Some(ReadConsistency::STRONG)
        } else {
            None
        }
    }
}

/// The symbolic name of an error code of the service; codes outside the
/// table are `UNKNOWN`.
#[allow(non_camel_case_types)]
#[derive(Debug, Clone, Copy, PartialEq, Eq, Structural)]
pub enum ServerErrorCode {
    UNKNOWN,
    INTERNAL_ERROR,
    INVALID_PARAMETER,
    INVALID_HTTP_URL,
    INVALID_HTTP_HEADER,
    INVALID_HTTP_BODY,
    MISS_SSL_CERTIFICATES,
    USER_NOT_EXIST,
    USER_ALREADY_EXIST,
    ROLE_NOT_EXIST,
    ROLE_ALREADY_EXIST,
    AUTHENTICATION_FAILED,
    PERMISSION_DENIED,
    DB_NOT_EXIST,
    DB_ALREADY_EXIST,
    DB_TOO_MANY_TABLES,
    DB_NOT_EMPTY,
    INVALID_TABLE_SCHEMA,
    INVALID_PARTITION_PARAMETERS,
    TABLE_TOO_MANY_FIELDS,
    TABLE_TOO_MANY_FAMILIES,
    TABLE_TOO_MANY_PRIMARY_KEYS,
    TABLE_TOO_MANY_PARTITION_KEYS,
    TABLE_TOO_MANY_VECTOR_FIELDS,
    TABLE_TOO_MANY_INDEXES,
    DYNAMIC_SCHEMA_ERROR,
    TABLE_NOT_EXIST,
    TABLE_ALREADY_EXIST,
    INVALID_TABLE_STATE,
    TABLE_NOT_READY,
    ALIAS_NOT_EXIST,
    ALIAS_ALREADY_EXIST,
    FIELD_NOT_EXIST,
    FIELD_ALREADY_EXIST,
    VECTOR_FIELD_NOT_EXIST,
    INVALID_INDEX_SCHEMA,
    INDEX_NOT_EXIST,
    INDEX_ALREADY_EXIST,
    INDEX_DUPLICATED,
    INVALID_INDEX_STATE,
    PRIMARY_KEY_DUPLICATED,
    ROW_KEY_NOT_FOUND,
}

/// The symbolic code for a numeric error code of the service.
pub open spec fn server_code_of(code: i32) -> ServerErrorCode {
    match code {
        1 => ServerErrorCode::INTERNAL_ERROR,
        2 => ServerErrorCode::INVALID_PARAMETER,
        10 => ServerErrorCode::INVALID_HTTP_URL,
        11 => ServerErrorCode::INVALID_HTTP_HEADER,
        12 => ServerErrorCode::INVALID_HTTP_BODY,
        13 => ServerErrorCode::MISS_SSL_CERTIFICATES,
        20 => ServerErrorCode::USER_NOT_EXIST,
        21 => ServerErrorCode::USER_ALREADY_EXIST,
        22 => ServerErrorCode::ROLE_NOT_EXIST,
        23 => ServerErrorCode::ROLE_ALREADY_EXIST,
        24 => ServerErrorCode::AUTHENTICATION_FAILED,
        25 => ServerErrorCode::PERMISSION_DENIED,
        50 => ServerErrorCode::DB_NOT_EXIST,
        51 => ServerErrorCode::DB_ALREADY_EXIST,
        52 => ServerErrorCode::DB_TOO_MANY_TABLES,
        53 => ServerErrorCode::DB_NOT_EMPTY,
        60 => ServerErrorCode::INVALID_TABLE_SCHEMA,
        61 => ServerErrorCode::INVALID_PARTITION_PARAMETERS,
        62 => ServerErrorCode::TABLE_TOO_MANY_FIELDS,
        63 => ServerErrorCode::TABLE_TOO_MANY_FAMILIES,
        64 => ServerErrorCode::TABLE_TOO_MANY_PRIMARY_KEYS,
        65 => ServerErrorCode::TABLE_TOO_MANY_PARTITION_KEYS,
        66 => ServerErrorCode::TABLE_TOO_MANY_VECTOR_FIELDS,
        67 => ServerErrorCode::TABLE_TOO_MANY_INDEXES,
        68 => ServerErrorCode::DYNAMIC_SCHEMA_ERROR,
        69 => ServerErrorCode::TABLE_NOT_EXIST,
        70 => ServerErrorCode::TABLE_ALREADY_EXIST,
        71 => ServerErrorCode::INVALID_TABLE_STATE,
        72 => ServerErrorCode::TABLE_NOT_READY,
        73 => ServerErrorCode::ALIAS_NOT_EXIST,
        74 => ServerErrorCode::ALIAS_ALREADY_EXIST,
        80 => ServerErrorCode::FIELD_NOT_EXIST,
        81 => ServerErrorCode::FIELD_ALREADY_EXIST,
        82 => ServerErrorCode::VECTOR_FIELD_NOT_EXIST,
        90 => ServerErrorCode::INVALID_INDEX_SCHEMA,
        91 => ServerErrorCode::INDEX_NOT_EXIST,
        92 => ServerErrorCode::INDEX_ALREADY_EXIST,
        93 => ServerErrorCode::INDEX_DUPLICATED,
        94 => ServerErrorCode::INVALID_INDEX_STATE,
        100 => ServerErrorCode::PRIMARY_KEY_DUPLICATED,
        101 => ServerErrorCode::ROW_KEY_NOT_FOUND,
        _ => ServerErrorCode::UNKNOWN,
    }
}

impl ServerErrorCode {
    /// The symbolic name.
    pub open spec fn name_spec(&self) -> Seq<char> {
        match self {
            ServerErrorCode::UNKNOWN => "UNKNOWN"@,
            ServerErrorCode::INTERNAL_ERROR => "INTERNAL_ERROR"@,
            ServerErrorCode::INVALID_PARAMETER => "INVALID_PARAMETER"@,
            ServerErrorCode::INVALID_HTTP_URL => "INVALID_HTTP_URL"@,
            ServerErrorCode::INVALID_HTTP_HEADER => "INVALID_HTTP_HEADER"@,
            ServerErrorCode::INVALID_HTTP_BODY => "INVALID_HTTP_BODY"@,
            ServerErrorCode::MISS_SSL_CERTIFICATES => "MISS_SSL_CERTIFICATES"@,
            ServerErrorCode::USER_NOT_EXIST => "USER_NOT_EXIST"@,
            ServerErrorCode::USER_ALREADY_EXIST => "USER_ALREADY_EXIST"@,
            ServerErrorCode::ROLE_NOT_EXIST => "ROLE_NOT_EXIST"@,
            ServerErrorCode::ROLE_ALREADY_EXIST => "ROLE_ALREADY_EXIST"@,
            ServerErrorCode::AUTHENTICATION_FAILED => "AUTHENTICATION_FAILED"@,
            ServerErrorCode::PERMISSION_DENIED => "PERMISSION_DENIED"@,
            ServerErrorCode::DB_NOT_EXIST => "DB_NOT_EXIST"@,
            ServerErrorCode::DB_ALREADY_EXIST => "DB_ALREADY_EXIST"@,
            ServerErrorCode::DB_TOO_MANY_TABLES => "DB_TOO_MANY_TABLES"@,
            ServerErrorCode::DB_NOT_EMPTY => "DB_NOT_EMPTY"@,
            ServerErrorCode::INVALID_TABLE_SCHEMA => "INVALID_TABLE_SCHEMA"@,
            ServerErrorCode::INVALID_PARTITION_PARAMETERS => "INVALID_PARTITION_PARAMETERS"@,
            ServerErrorCode::TABLE_TOO_MANY_FIELDS => "TABLE_TOO_MANY_FIELDS"@,
            ServerErrorCode::TABLE_TOO_MANY_FAMILIES => "TABLE_TOO_MANY_FAMILIES"@,
            ServerErrorCode::TABLE_TOO_MANY_PRIMARY_KEYS => "TABLE_TOO_MANY_PRIMARY_KEYS"@,
            ServerErrorCode::TABLE_TOO_MANY_PARTITION_KEYS => "TABLE_TOO_MANY_PARTITION_KEYS"@,
            ServerErrorCode::TABLE_TOO_MANY_VECTOR_FIELDS => "TABLE_TOO_MANY_VECTOR_FIELDS"@,
            ServerErrorCode::TABLE_TOO_MANY_INDEXES => "TABLE_TOO_MANY_INDEXES"@,
            ServerErrorCode::DYNAMIC_SCHEMA_ERROR => "DYNAMIC_SCHEMA_ERROR"@,
            ServerErrorCode::TABLE_NOT_EXIST => "TABLE_NOT_EXIST"@,
            ServerErrorCode::TABLE_ALREADY_EXIST => "TABLE_ALREADY_EXIST"@,
            ServerErrorCode::INVALID_TABLE_STATE => "INVALID_TABLE_STATE"@,
            ServerErrorCode::TABLE_NOT_READY => "TABLE_NOT_READY"@,
            ServerErrorCode::ALIAS_NOT_EXIST => "ALIAS_NOT_EXIST"@,
            ServerErrorCode::ALIAS_ALREADY_EXIST => "ALIAS_ALREADY_EXIST"@,
            ServerErrorCode::FIELD_NOT_EXIST => "FIELD_NOT_EXIST"@,
            ServerErrorCode::FIELD_ALREADY_EXIST => "FIELD_ALREADY_EXIST"@,
            ServerErrorCode::VECTOR_FIELD_NOT_EXIST => "VECTOR_FIELD_NOT_EXIST"@,
            ServerErrorCode::INVALID_INDEX_SCHEMA => "INVALID_INDEX_SCHEMA"@,
            ServerErrorCode::INDEX_NOT_EXIST => "INDEX_NOT_EXIST"@,
            ServerErrorCode::INDEX_ALREADY_EXIST => "INDEX_ALREADY_EXIST"@,
            ServerErrorCode::INDEX_DUPLICATED => "INDEX_DUPLICATED"@,
            ServerErrorCode::INVALID_INDEX_STATE => "INVALID_INDEX_STATE"@,
            ServerErrorCode::PRIMARY_KEY_DUPLICATED => "PRIMARY_KEY_DUPLICATED"@,
            ServerErrorCode::ROW_KEY_NOT_FOUND => "ROW_KEY_NOT_FOUND"@,
        }
    }

    /// The symbolic name.
    pub fn name(&self) -> (r: String)
        ensures
            r@ == self.name_spec(),
    {
        match self {
            ServerErrorCode::UNKNOWN => String::from_str("UNKNOWN"),
            ServerErrorCode::INTERNAL_ERROR => String::from_str("INTERNAL_ERROR"),
            ServerErrorCode::INVALID_PARAMETER => String::from_str("INVALID_PARAMETER"),
            ServerErrorCode::INVALID_HTTP_URL => String::from_str("INVALID_HTTP_URL"),
            ServerErrorCode::INVALID_HTTP_HEADER => String::from_str("INVALID_HTTP_HEADER"),
            ServerErrorCode::INVALID_HTTP_BODY => String::from_str("INVALID_HTTP_BODY"),
            ServerErrorCode::MISS_SSL_CERTIFICATES => String::from_str("MISS_SSL_CERTIFICATES"),
            ServerErrorCode::USER_NOT_EXIST => String::from_str("USER_NOT_EXIST"),
            ServerErrorCode::USER_ALREADY_EXIST => String::from_str("USER_ALREADY_EXIST"),
            ServerErrorCode::ROLE_NOT_EXIST => String::from_str("ROLE_NOT_EXIST"),
            ServerErrorCode::ROLE_ALREADY_EXIST => String::from_str("ROLE_ALREADY_EXIST"),
            ServerErrorCode::AUTHENTICATION_FAILED => String::from_str("AUTHENTICATION_FAILED"),
            ServerErrorCode::PERMISSION_DENIED => String::from_str("PERMISSION_DENIED"),
            ServerErrorCode::DB_NOT_EXIST => String::from_str("DB_NOT_EXIST"),
            ServerErrorCode::DB_ALREADY_EXIST => String::from_str("DB_ALREADY_EXIST"),
            ServerErrorCode::DB_TOO_MANY_TABLES => String::from_str("DB_TOO_MANY_TABLES"),
            ServerErrorCode::DB_NOT_EMPTY => String::from_str("DB_NOT_EMPTY"),
            ServerErrorCode::INVALID_TABLE_SCHEMA => String::from_str("INVALID_TABLE_SCHEMA"),
            ServerErrorCode::INVALID_PARTITION_PARAMETERS => String::from_str("INVALID_PARTITION_PARAMETERS"),
            ServerErrorCode::TABLE_TOO_MANY_FIELDS => String::from_str("TABLE_TOO_MANY_FIELDS"),
            ServerErrorCode::TABLE_TOO_MANY_FAMILIES => String::from_str("TABLE_TOO_MANY_FAMILIES"),
            ServerErrorCode::TABLE_TOO_MANY_PRIMARY_KEYS => String::from_str("TABLE_TOO_MANY_PRIMARY_KEYS"),
            ServerErrorCode::TABLE_TOO_MANY_PARTITION_KEYS => String::from_str("TABLE_TOO_MANY_PARTITION_KEYS"),
            ServerErrorCode::TABLE_TOO_MANY_VECTOR_FIELDS => String::from_str("TABLE_TOO_MANY_VECTOR_FIELDS"),
            ServerErrorCode::TABLE_TOO_MANY_INDEXES => String::from_str("TABLE_TOO_MANY_INDEXES"),
            ServerErrorCode::DYNAMIC_SCHEMA_ERROR => String::from_str("DYNAMIC_SCHEMA_ERROR"),
            ServerErrorCode::TABLE_NOT_EXIST => String::from_str("TABLE_NOT_EXIST"),
            ServerErrorCode::TABLE_ALREADY_EXIST => String::from_str("TABLE_ALREADY_EXIST"),
            ServerErrorCode::INVALID_TABLE_STATE => String::from_str("INVALID_TABLE_STATE"),
            ServerErrorCode::TABLE_NOT_READY => String::from_str("TABLE_NOT_READY"),
            ServerErrorCode::ALIAS_NOT_EXIST => String::from_str("ALIAS_NOT_EXIST"),
            ServerErrorCode::ALIAS_ALREADY_EXIST => String::from_str("ALIAS_ALREADY_EXIST"),
            ServerErrorCode::FIELD_NOT_EXIST => String::from_str("FIELD_NOT_EXIST"),
            ServerErrorCode::FIELD_ALREADY_EXIST => String::from_str("FIELD_ALREADY_EXIST"),
            ServerErrorCode::VECTOR_FIELD_NOT_EXIST => String::from_str("VECTOR_FIELD_NOT_EXIST"),
            ServerErrorCode::INVALID_INDEX_SCHEMA => String::from_str("INVALID_INDEX_SCHEMA"),
            ServerErrorCode::INDEX_NOT_EXIST => String::from_str("INDEX_NOT_EXIST"),
            ServerErrorCode::INDEX_ALREADY_EXIST => String::from_str("INDEX_ALREADY_EXIST"),
            ServerErrorCode::INDEX_DUPLICATED => String::from_str("INDEX_DUPLICATED"),
            ServerErrorCode::INVALID_INDEX_STATE => String::from_str("INVALID_INDEX_STATE"),
            ServerErrorCode::PRIMARY_KEY_DUPLICATED => String::from_str("PRIMARY_KEY_DUPLICATED"),
            ServerErrorCode::ROW_KEY_NOT_FOUND => String::from_str("ROW_KEY_NOT_FOUND"),
        }
    }

    /// The numeric code of a symbolic one; `UNKNOWN` has none.
    pub open spec fn code_spec(&self) -> Option<i32> {
        match self {
            ServerErrorCode::UNKNOWN => None,
            ServerErrorCode::INTERNAL_ERROR => Some(1),
            ServerErrorCode::INVALID_PARAMETER => Some(2),
            ServerErrorCode::INVALID_HTTP_URL => Some(10),
            ServerErrorCode::INVALID_HTTP_HEADER => Some(11),
            ServerErrorCode::INVALID_HTTP_BODY => Some(12),
            ServerErrorCode::MISS_SSL_CERTIFICATES => Some(13),
            ServerErrorCode::USER_NOT_EXIST => Some(20),
            ServerErrorCode::USER_ALREADY_EXIST => Some(21),
            ServerErrorCode::ROLE_NOT_EXIST => Some(22),
            ServerErrorCode::ROLE_ALREADY_EXIST => Some(23),
            ServerErrorCode::AUTHENTICATION_FAILED => Some(24),
            ServerErrorCode::PERMISSION_DENIED => Some(25),
            ServerErrorCode::DB_NOT_EXIST => Some(50),
            ServerErrorCode::DB_ALREADY_EXIST => Some(51),
            ServerErrorCode::DB_TOO_MANY_TABLES => Some(52),
            ServerErrorCode::DB_NOT_EMPTY => Some(53),
            ServerErrorCode::INVALID_TABLE_SCHEMA => Some(60),
            ServerErrorCode::INVALID_PARTITION_PARAMETERS => Some(61),
            ServerErrorCode::TABLE_TOO_MANY_FIELDS => Some(62),
            ServerErrorCode::TABLE_TOO_MANY_FAMILIES => Some(63),
            ServerErrorCode::TABLE_TOO_MANY_PRIMARY_KEYS => Some(64),
            ServerErrorCode::TABLE_TOO_MANY_PARTITION_KEYS => Some(65),
            ServerErrorCode::TABLE_TOO_MANY_VECTOR_FIELDS => Some(66),
            ServerErrorCode::TABLE_TOO_MANY_INDEXES => Some(67),
            ServerErrorCode::DYNAMIC_SCHEMA_ERROR => Some(68),
            ServerErrorCode::TABLE_NOT_EXIST => Some(69),
            ServerErrorCode::TABLE_ALREADY_EXIST => Some(70),
            ServerErrorCode::INVALID_TABLE_STATE => Some(71),
            ServerErrorCode::TABLE_NOT_READY => Some(72),
            ServerErrorCode::ALIAS_NOT_EXIST => Some(73),
            ServerErrorCode::ALIAS_ALREADY_EXIST => Some(74),
            ServerErrorCode::FIELD_NOT_EXIST => Some(80),
            ServerErrorCode::FIELD_ALREADY_EXIST => Some(81),
            ServerErrorCode::VECTOR_FIELD_NOT_EXIST => Some(82),
            ServerErrorCode::INVALID_INDEX_SCHEMA => Some(90),
            ServerErrorCode::INDEX_NOT_EXIST => Some(91),
            ServerErrorCode::INDEX_ALREADY_EXIST => Some(92),
            ServerErrorCode::INDEX_DUPLICATED => Some(93),
            ServerErrorCode::INVALID_INDEX_STATE => Some(94),
            ServerErrorCode::PRIMARY_KEY_DUPLICATED => Some(100),
            ServerErrorCode::ROW_KEY_NOT_FOUND => Some(101),
        }
    }

    /// The numeric code of a symbolic one; `UNKNOWN` has none.
    pub fn code(&self) -> (r: Option<i32>)
        ensures
            r == self.code_spec(),
    {
        match self {
            ServerErrorCode::UNKNOWN => None,
            ServerErrorCode::INTERNAL_ERROR => Some(1),
            ServerErrorCode::INVALID_PARAMETER => Some(2),
            ServerErrorCode::INVALID_HTTP_URL => Some(10),
            ServerErrorCode::INVALID_HTTP_HEADER => Some(11),
            ServerErrorCode::INVALID_HTTP_BODY => Some(12),
            ServerErrorCode::MISS_SSL_CERTIFICATES => Some(13),
            ServerErrorCode::USER_NOT_EXIST => Some(20),
            ServerErrorCode::USER_ALREADY_EXIST => Some(21),
            ServerErrorCode::ROLE_NOT_EXIST => Some(22),
            ServerErrorCode::ROLE_ALREADY_EXIST => Some(23),
            ServerErrorCode::AUTHENTICATION_FAILED => Some(24),
            ServerErrorCode::PERMISSION_DENIED => Some(25),
            ServerErrorCode::DB_NOT_EXIST => Some(50),
            ServerErrorCode::DB_ALREADY_EXIST => Some(51),
            ServerErrorCode::DB_TOO_MANY_TABLES => Some(52),
            ServerErrorCode::DB_NOT_EMPTY => Some(53),
            ServerErrorCode::INVALID_TABLE_SCHEMA => Some(60),
            ServerErrorCode::INVALID_PARTITION_PARAMETERS => Some(61),
            ServerErrorCode::TABLE_TOO_MANY_FIELDS => Some(62),
            ServerErrorCode::TABLE_TOO_MANY_FAMILIES => Some(63),
            ServerErrorCode::TABLE_TOO_MANY_PRIMARY_KEYS => Some(64),
            ServerErrorCode::TABLE_TOO_MANY_PARTITION_KEYS => Some(65),
            ServerErrorCode::TABLE_TOO_MANY_VECTOR_FIELDS => Some(66),
            ServerErrorCode::TABLE_TOO_MANY_INDEXES => Some(67),
            ServerErrorCode::DYNAMIC_SCHEMA_ERROR => Some(68),
            ServerErrorCode::TABLE_NOT_EXIST => Some(69),
            ServerErrorCode::TABLE_ALREADY_EXIST => Some(70),
            ServerErrorCode::INVALID_TABLE_STATE => Some(71),
            ServerErrorCode::TABLE_NOT_READY => Some(72),
            ServerErrorCode::ALIAS_NOT_EXIST => Some(73),
            ServerErrorCode::ALIAS_ALREADY_EXIST => Some(74),
            ServerErrorCode::FIELD_NOT_EXIST => Some(80),
            ServerErrorCode::FIELD_ALREADY_EXIST => Some(81),
            ServerErrorCode::VECTOR_FIELD_NOT_EXIST => Some(82),
            ServerErrorCode::INVALID_INDEX_SCHEMA => Some(90),
            ServerErrorCode::INDEX_NOT_EXIST => Some(91),
            ServerErrorCode::INDEX_ALREADY_EXIST => Some(92),
            ServerErrorCode::INDEX_DUPLICATED => Some(93),
            ServerErrorCode::INVALID_INDEX_STATE => Some(94),
            ServerErrorCode::PRIMARY_KEY_DUPLICATED => Some(100),
            ServerErrorCode::ROW_KEY_NOT_FOUND => Some(101),
        }
    }
}

impl From<i32> for ServerErrorCode {
    fn from(code: i32) -> (r: ServerErrorCode)
        ensures
            r == server_code_of(code),
    {
        match code {
            1 => ServerErrorCode::INTERNAL_ERROR,
            2 => ServerErrorCode::INVALID_PARAMETER,
            10 => ServerErrorCode::INVALID_HTTP_URL,
            11 => ServerErrorCode::INVALID_HTTP_HEADER,
            12 => ServerErrorCode::INVALID_HTTP_BODY,
            13 => ServerErrorCode::MISS_SSL_CERTIFICATES,
            20 => ServerErrorCode::USER_NOT_EXIST,
            21 => ServerErrorCode::USER_ALREADY_EXIST,
            22 => ServerErrorCode::ROLE_NOT_EXIST,
            23 => ServerErrorCode::ROLE_ALREADY_EXIST,
            24 => ServerErrorCode::AUTHENTICATION_FAILED,
            25 => ServerErrorCode::PERMISSION_DENIED,
            50 => ServerErrorCode::DB_NOT_EXIST,
            51 => ServerErrorCode::DB_ALREADY_EXIST,
            52 => ServerErrorCode::DB_TOO_MANY_TABLES,
            53 => ServerErrorCode::DB_NOT_EMPTY,
            60 => ServerErrorCode::INVALID_TABLE_SCHEMA,
            61 => ServerErrorCode::INVALID_PARTITION_PARAMETERS,
            62 => ServerErrorCode::TABLE_TOO_MANY_FIELDS,
            63 => ServerErrorCode::TABLE_TOO_MANY_FAMILIES,
            64 => ServerErrorCode::TABLE_TOO_MANY_PRIMARY_KEYS,
            65 => ServerErrorCode::TABLE_TOO_MANY_PARTITION_KEYS,
            66 => ServerErrorCode::TABLE_TOO_MANY_VECTOR_FIELDS,
            67 => ServerErrorCode::TABLE_TOO_MANY_INDEXES,
            68 => ServerErrorCode::DYNAMIC_SCHEMA_ERROR,
            69 => ServerErrorCode::TABLE_NOT_EXIST,
            70 => ServerErrorCode::TABLE_ALREADY_EXIST,
            71 => ServerErrorCode::INVALID_TABLE_STATE,
            72 => ServerErrorCode::TABLE_NOT_READY,
            73 => ServerErrorCode::ALIAS_NOT_EXIST,
            74 => ServerErrorCode::ALIAS_ALREADY_EXIST,
            80 => ServerErrorCode::FIELD_NOT_EXIST,
            81 => ServerErrorCode::FIELD_ALREADY_EXIST,
            82 => ServerErrorCode::VECTOR_FIELD_NOT_EXIST,
            90 => ServerErrorCode::INVALID_INDEX_SCHEMA,
            91 => ServerErrorCode::INDEX_NOT_EXIST,
            92 => ServerErrorCode::INDEX_ALREADY_EXIST,
            93 => ServerErrorCode::INDEX_DUPLICATED,
            94 => ServerErrorCode::INVALID_INDEX_STATE,
            100 => ServerErrorCode::PRIMARY_KEY_DUPLICATED,
            101 => ServerErrorCode::ROW_KEY_NOT_FOUND,
            _ => ServerErrorCode::UNKNOWN,
        }
    }
}

impl vstd::std_specs::convert::FromSpecImpl<i32> for ServerErrorCode {
    open spec fn obeys_from_spec() -> bool {
        true
    }

    open spec fn from_spec(code: i32) -> ServerErrorCode {
        server_code_of(code)
    }
}

/// The table maps a code to a name and back: a code that the table knows
/// is the code of its name, and a name other than `UNKNOWN` comes from its code.
pub proof fn lemma_server_code_table(code: i32, name: ServerErrorCode)
    ensures
        server_code_of(code) != ServerErrorCode::UNKNOWN ==> server_code_of(code).code_spec() == Some(code),
        name.code_spec() matches Some(c) ==> server_code_of(c) == name,
        name.code_spec() is None <==> name == ServerErrorCode::UNKNOWN,
{
}

/// A value's wire name reads back as that value.
pub proof fn lemma_auto_build_policy_type_wire_round_trip(t: AutoBuildPolicyType)
    ensures
        AutoBuildPolicyType::from_wire_spec(t.wire_name_spec()) == Some(t),
{
    reveal_strlit("PERIODICAL");
    reveal_strlit("ROW_COUNT_INCREMENT");
    reveal_strlit("TIMING");
    reveal_strlit("periodical");
    reveal_strlit("row_count_increment");
    reveal_strlit("timing");
    match t {
        AutoBuildPolicyType::TIMING => {
            assert("TIMING"@.len() == 6);
        },
        AutoBuildPolicyType::PERIODICAL => {
            assert("TIMING"@.len() == 6);
            assert("timing"@.len() == 6);
            assert("PERIODICAL"@.len() == 10);
        },
        AutoBuildPolicyType::ROW_COUNT_INCREMENT => {
            assert("TIMING"@.len() == 6);
            assert("timing"@.len() == 6);
            assert("PERIODICAL"@.len() == 10);
            assert("periodical"@.len() == 10);
            assert("ROW_COUNT_INCREMENT"@.len() == 19);
        },
    }
}

/// A value's wire name reads back as that value.
pub proof fn lemma_field_type_wire_round_trip(t: FieldType)
    ensures
        FieldType::from_wire_spec(t.wire_name_spec()) == Some(t),
{
    reveal_strlit("BINARY");
    reveal_strlit("BOOL");
    reveal_strlit("DATE");
    reveal_strlit("DATETIME");
    reveal_strlit("DOUBLE");
    reveal_strlit("FLOAT");
    reveal_strlit("FLOAT_VECTOR");
    reveal_strlit("INT16");
    reveal_strlit("INT32");
    reveal_strlit("INT64");
    reveal_strlit("INT8");
    reveal_strlit("STRING");
    reveal_strlit("TEXT");
    reveal_strlit("TEXT_GB18030");
    reveal_strlit("TEXT_GBK");
    reveal_strlit("TIMESTAMP");
    reveal_strlit("UINT16");
    reveal_strlit("UINT32");
    reveal_strlit("UINT64");
    reveal_strlit("UINT8");
    reveal_strlit("UUID");
    match t {
        FieldType::BOOL => {
            assert("BOOL"@.len() == 4);
        },
        FieldType::INT8 => {
            assert("BOOL"@[0] == 'B');
            assert("INT8"@.len() == 4);
            assert("INT8"@[0] == 'I');
        },
        FieldType::UINT8 => {
            assert("BOOL"@.len() == 4);
            assert("INT8"@.len() == 4);
            assert("UINT8"@.len() == 5);
        },
        FieldType::Int16 => {
            assert("BOOL"@.len() == 4);
            assert("INT8"@.len() == 4);
            assert("UINT8"@[0] == 'U');
            assert("INT16"@.len() == 5);
            assert("INT16"@[0] == 'I');
        },
        FieldType::Uint16 => {
            assert("BOOL"@.len() == 4);
            assert("INT8"@.len() == 4);
            assert("UINT8"@.len() == 5);
            assert("INT16"@.len() == 5);
            assert("UINT16"@.len() == 6);
        },
        FieldType::INT32 => {
            assert("BOOL"@.len() == 4);
            assert("INT8"@.len() == 4);
            assert("UINT8"@[0] == 'U');
            assert("INT16"@[3] == '1');
            assert("UINT16"@.len() == 6);
            assert("INT32"@.len() == 5);
            assert("INT32"@[0] == 'I');
            assert("INT32"@[3] == '3');
        },
        FieldType::UINT32 => {
            assert("BOOL"@.len() == 4);
            assert("INT8"@.len() == 4);
            assert("UINT8"@.len() == 5);
            assert("INT16"@.len() == 5);
            assert("UINT16"@[4] == '1');
            assert("INT32"@.len() == 5);
            assert("UINT32"@.len() == 6);
            assert("UINT32"@[4] == '3');
        },
        FieldType::INT64 => {
            assert("BOOL"@.len() == 4);
            assert("INT8"@.len() == 4);
            assert("UINT8"@[0] == 'U');
            assert("INT16"@[3] == '1');
            assert("UINT16"@.len() == 6);
            assert("INT32"@[3] == '3');
            assert("UINT32"@.len() == 6);
            assert("INT64"@.len() == 5);
            assert("INT64"@[0] == 'I');
            assert("INT64"@[3] == '6');
            assert("INT64"@[3] == '6');
        },
        FieldType::UINT64 => {
            assert("BOOL"@.len() == 4);
            assert("INT8"@.len() == 4);
            assert("UINT8"@.len() == 5);
            assert("INT16"@.len() == 5);
            assert("UINT16"@[4] == '1');
            assert("INT32"@.len() == 5);
            assert("UINT32"@[4] == '3');
            assert("INT64"@.len() == 5);
            assert("UINT64"@.len() == 6);
            assert("UINT64"@[4] == '6');
            assert("UINT64"@[4] == '6');
        },
        FieldType::FLOAT => {
            assert("BOOL"@.len() == 4);
            assert("INT8"@.len() == 4);
            assert("UINT8"@[0] == 'U');
            assert("INT16"@[0] == 'I');
            assert("UINT16"@.len() == 6);
            assert("INT32"@[0] == 'I');
            assert("UINT32"@.len() == 6);
            assert("INT64"@[0] == 'I');
            assert("UINT64"@.len() == 6);
            assert("FLOAT"@.len() == 5);
            assert("FLOAT"@[0] == 'F');
            assert("FLOAT"@[0] == 'F');
            assert("FLOAT"@[0] == 'F');
            assert("FLOAT"@[0] == 'F');
        },
        FieldType::DOUBLE => {
            assert("BOOL"@.len() == 4);
            assert("INT8"@.len() == 4);
            assert("UINT8"@.len() == 5);
            assert("INT16"@.len() == 5);
            assert("UINT16"@[0] == 'U');
            assert("INT32"@.len() == 5);
            assert("UINT32"@[0] == 'U');
            assert("INT64"@.len() == 5);
            assert("UINT64"@[0] == 'U');
            assert("FLOAT"@.len() == 5);
            assert("DOUBLE"@.len() == 6);
            assert("DOUBLE"@[0] == 'D');
            assert("DOUBLE"@[0] == 'D');
            assert("DOUBLE"@[0] == 'D');
        },
        FieldType::DATE => {
            assert("BOOL"@[0] == 'B');
            assert("INT8"@[0] == 'I');
            assert("UINT8"@.len() == 5);
            assert("INT16"@.len() == 5);
            assert("UINT16"@.len() == 6);
            assert("INT32"@.len() == 5);
            assert("UINT32"@.len() == 6);
            assert("INT64"@.len() == 5);
            assert("UINT64"@.len() == 6);
            assert("FLOAT"@.len() == 5);
            assert("DOUBLE"@.len() == 6);
            assert("DATE"@.len() == 4);
            assert("DATE"@[0] == 'D');
            assert("DATE"@[0] == 'D');
        },
        FieldType::DATETIME => {
            assert("BOOL"@.len() == 4);
            assert("INT8"@.len() == 4);
            assert("UINT8"@.len() == 5);
            assert("INT16"@.len() == 5);
            assert("UINT16"@.len() == 6);
            assert("INT32"@.len() == 5);
            assert("UINT32"@.len() == 6);
            assert("INT64"@.len() == 5);
            assert("UINT64"@.len() == 6);
            assert("FLOAT"@.len() == 5);
            assert("DOUBLE"@.len() == 6);
            assert("DATE"@.len() == 4);
            assert("DATETIME"@.len() == 8);
        },
        FieldType::TIMESTAMP => {
            assert("BOOL"@.len() == 4);
            assert("INT8"@.len() == 4);
            assert("UINT8"@.len() == 5);
            assert("INT16"@.len() == 5);
            assert("UINT16"@.len() == 6);
            assert("INT32"@.len() == 5);
            assert("UINT32"@.len() == 6);
            assert("INT64"@.len() == 5);
            assert("UINT64"@.len() == 6);
            assert("FLOAT"@.len() == 5);
            assert("DOUBLE"@.len() == 6);
            assert("DATE"@.len() == 4);
            assert("DATETIME"@.len() == 8);
            assert("TIMESTAMP"@.len() == 9);
        },
        FieldType::STRING => {
            assert("BOOL"@.len() == 4);
            assert("INT8"@.len() == 4);
            assert("UINT8"@.len() == 5);
            assert("INT16"@.len() == 5);
            assert("UINT16"@[0] == 'U');
            assert("INT32"@.len() == 5);
            assert("UINT32"@[0] == 'U');
            assert("INT64"@.len() == 5);
            assert("UINT64"@[0] == 'U');
            assert("FLOAT"@.len() == 5);
            assert("DOUBLE"@[0] == 'D');
            assert("DATE"@.len() == 4);
            assert("DATETIME"@.len() == 8);
            assert("TIMESTAMP"@.len() == 9);
            assert("STRING"@.len() == 6);
            assert("STRING"@[0] == 'S');
            assert("STRING"@[0] == 'S');
            assert("STRING"@[0] == 'S');
            assert("STRING"@[0] == 'S');
        },
        FieldType::BINARY => {
            assert("BOOL"@.len() == 4);
            assert("INT8"@.len() == 4);
            assert("UINT8"@.len() == 5);
            assert("INT16"@.len() == 5);
            assert("UINT16"@[0] == 'U');
            assert("INT32"@.len() == 5);
            assert("UINT32"@[0] == 'U');
            assert("INT64"@.len() == 5);
            assert("UINT64"@[0] == 'U');
            assert("FLOAT"@.len() == 5);
            assert("DOUBLE"@[0] == 'D');
            assert("DATE"@.len() == 4);
            assert("DATETIME"@.len() == 8);
            assert("TIMESTAMP"@.len() == 9);
            assert("STRING"@[0] == 'S');
            assert("BINARY"@.len() == 6);
            assert("BINARY"@[0] == 'B');
            assert("BINARY"@[0] == 'B');
            assert("BINARY"@[0] == 'B');
            assert("BINARY"@[0] == 'B');
            assert("BINARY"@[0] == 'B');
        },
        FieldType::UUID => {
            assert("BOOL"@[0] == 'B');
            assert("INT8"@[0] == 'I');
            assert("UINT8"@.len() == 5);
            assert("INT16"@.len() == 5);
            assert("UINT16"@.len() == 6);
            assert("INT32"@.len() == 5);
            assert("UINT32"@.len() == 6);
            assert("INT64"@.len() == 5);
            assert("UINT64"@.len() == 6);
            assert("FLOAT"@.len() == 5);
            assert("DOUBLE"@.len() == 6);
            assert("DATE"@[0] == 'D');
            assert("DATETIME"@.len() == 8);
            assert("TIMESTAMP"@.len() == 9);
            assert("STRING"@.len() == 6);
            assert("BINARY"@.len() == 6);
            assert("UUID"@.len() == 4);
            assert("UUID"@[0] == 'U');
            assert("UUID"@[0] == 'U');
            assert("UUID"@[0] == 'U');
        },
        FieldType::TEXT => {
            assert("BOOL"@[0] == 'B');
            assert("INT8"@[0] == 'I');
            assert("UINT8"@.len() == 5);
            assert("INT16"@.len() == 5);
            assert("UINT16"@.len() == 6);
            assert("INT32"@.len() == 5);
            assert("UINT32"@.len() == 6);
            assert("INT64"@.len() == 5);
            assert("UINT64"@.len() == 6);
            assert("FLOAT"@.len() == 5);
            assert("DOUBLE"@.len() == 6);
            assert("DATE"@[0] == 'D');
            assert("DATETIME"@.len() == 8);
            assert("TIMESTAMP"@.len() == 9);
            assert("STRING"@.len() == 6);
            assert("BINARY"@.len() == 6);
            assert("UUID"@[0] == 'U');
            assert("TEXT"@.len() == 4);
            assert("TEXT"@[0] == 'T');
            assert("TEXT"@[0] == 'T');
            assert("TEXT"@[0] == 'T');
            assert("TEXT"@[0] == 'T');
        },
        FieldType::TEXT_GBK => {
            assert("BOOL"@.len() == 4);
            assert("INT8"@.len() == 4);
            assert("UINT8"@.len() == 5);
            assert("INT16"@.len() == 5);
            assert("UINT16"@.len() == 6);
            assert("INT32"@.len() == 5);
            assert("UINT32"@.len() == 6);
            assert("INT64"@.len() == 5);
            assert("UINT64"@.len() == 6);
            assert("FLOAT"@.len() == 5);
            assert("DOUBLE"@.len() == 6);
            assert("DATE"@.len() == 4);
            assert("DATETIME"@[0] == 'D');
            assert("TIMESTAMP"@.len() == 9);
            assert("STRING"@.len() == 6);
            assert("BINARY"@.len() == 6);
            assert("UUID"@.len() == 4);
            assert("TEXT"@.len() == 4);
            assert("TEXT_GBK"@.len() == 8);
            assert("TEXT_GBK"@[0] == 'T');
        },
        FieldType::TEXT_GB18030 => {
            assert("BOOL"@.len() == 4);
            assert("INT8"@.len() == 4);
            assert("UINT8"@.len() == 5);
            assert("INT16"@.len() == 5);
            assert("UINT16"@.len() == 6);
            assert("INT32"@.len() == 5);
            assert("UINT32"@.len() == 6);
            assert("INT64"@.len() == 5);
            assert("UINT64"@.len() == 6);
            assert("FLOAT"@.len() == 5);
            assert("DOUBLE"@.len() == 6);
            assert("DATE"@.len() == 4);
            assert("DATETIME"@.len() == 8);
            assert("TIMESTAMP"@.len() == 9);
            assert("STRING"@.len() == 6);
            assert("BINARY"@.len() == 6);
            assert("UUID"@.len() == 4);
            assert("TEXT"@.len() == 4);
            assert("TEXT_GBK"@.len() == 8);
            assert("TEXT_GB18030"@.len() == 12);
        },
        FieldType::FLOAT_VECTOR => {
            assert("BOOL"@.len() == 4);
            assert("INT8"@.len() == 4);
            assert("UINT8"@.len() == 5);
            assert("INT16"@.len() == 5);
            assert("UINT16"@.len() == 6);
            assert("INT32"@.len() == 5);
            assert("UINT32"@.len() == 6);
            assert("INT64"@.len() == 5);
            assert("UINT64"@.len() == 6);
            assert("FLOAT"@.len() == 5);
            assert("DOUBLE"@.len() == 6);
            assert("DATE"@.len() == 4);
            assert("DATETIME"@.len() == 8);
            assert("TIMESTAMP"@.len() == 9);
            assert("STRING"@.len() == 6);
            assert("BINARY"@.len() == 6);
            assert("UUID"@.len() == 4);
            assert("TEXT"@.len() == 4);
            assert("TEXT_GBK"@.len() == 8);
            assert("TEXT_GB18030"@[0] == 'T');
            assert("FLOAT_VECTOR"@.len() == 12);
            assert("FLOAT_VECTOR"@[0] == 'F');
        },
    }
}

/// A value's wire name reads back as that value.
pub proof fn lemma_index_state_wire_round_trip(t: IndexState)
    ensures
        IndexState::from_wire_spec(t.wire_name_spec()) == Some(t),
{
    reveal_strlit("BUILDING");
    reveal_strlit("INVALID");
    reveal_strlit("NORMAL");
    match t {
        IndexState::INVALID => {
            assert("INVALID"@.len() == 7);
        },
        IndexState::BUILDING => {
            assert("INVALID"@.len() == 7);
            assert("BUILDING"@.len() == 8);
        },
        IndexState::NORMAL => {
            assert("INVALID"@.len() == 7);
            assert("BUILDING"@.len() == 8);
            assert("NORMAL"@.len() == 6);
        },
    }
}

/// A value's wire name reads back as that value.
pub proof fn lemma_table_state_wire_round_trip(t: TableState)
    ensures
        TableState::from_wire_spec(t.wire_name_spec()) == Some(t),
{
    reveal_strlit("CREATING");
    reveal_strlit("DELETING");
    reveal_strlit("INVALID");
    reveal_strlit("NORMAL");
    match t {
        TableState::INVALID => {
            assert("INVALID"@.len() == 7);
        },
        TableState::CREATING => {
            assert("INVALID"@.len() == 7);
            assert("CREATING"@.len() == 8);
        },
        TableState::NORMAL => {
            assert("INVALID"@.len() == 7);
            assert("CREATING"@.len() == 8);
            assert("NORMAL"@.len() == 6);
        },
        TableState::DELETING => {
            assert("INVALID"@.len() == 7);
            assert("CREATING"@[0] == 'C');
            assert("NORMAL"@.len() == 6);
            assert("DELETING"@.len() == 8);
            assert("DELETING"@[0] == 'D');
        },
    }
}

/// A value's wire name reads back as that value.
pub proof fn lemma_index_type_wire_round_trip(t: IndexType)
    ensures
        IndexType::from_wire_spec(t.wire_name_spec()) == Some(t),
{
    reveal_strlit("FLAT");
    reveal_strlit("HNSW");
    reveal_strlit("HNSWPQ");
    reveal_strlit("PUCK");
    reveal_strlit("SECONDARY");
    match t {
        IndexType::FLAT => {
            assert("FLAT"@.len() == 4);
        },
        IndexType::HNSW => {
            assert("FLAT"@[0] == 'F');
            assert("HNSW"@.len() == 4);
            assert("HNSW"@[0] == 'H');
        },
        IndexType::HNSWPQ => {
            assert("FLAT"@.len() == 4);
            assert("HNSW"@.len() == 4);
            assert("HNSWPQ"@.len() == 6);
        },
        IndexType::PUCK => {
            assert("FLAT"@[0] == 'F');
            assert("HNSW"@[0] == 'H');
            assert("HNSWPQ"@.len() == 6);
            assert("PUCK"@.len() == 4);
            assert("PUCK"@[0] == 'P');
            assert("PUCK"@[0] == 'P');
        },
        IndexType::SECONDARY_INDEX => {
            assert("FLAT"@.len() == 4);
            assert("HNSW"@.len() == 4);
            assert("HNSWPQ"@.len() == 6);
            assert("PUCK"@.len() == 4);
            assert("SECONDARY"@.len() == 9);
        },
    }
}

/// A value's wire name reads back as that value.
pub proof fn lemma_metric_type_wire_round_trip(t: MetricType)
    ensures
        MetricType::from_wire_spec(t.wire_name_spec()) == Some(t),
{
    reveal_strlit("COSINE");
    reveal_strlit("IP");
    reveal_strlit("L2");
    match t {
        MetricType::L2 => {
            assert("L2"@.len() == 2);
        },
        MetricType::IP => {
            assert("L2"@[0] == 'L');
            assert("IP"@.len() == 2);
            assert("IP"@[0] == 'I');
        },
        MetricType::COSINE => {
            assert("L2"@.len() == 2);
            assert("IP"@.len() == 2);
            assert("COSINE"@.len() == 6);
        },
    }
}

/// A value's wire name reads back as that value.
pub proof fn lemma_partition_type_wire_round_trip(t: PartitionType)
    ensures
        PartitionType::from_wire_spec(t.wire_name_spec()) == Some(t),
{
    reveal_strlit("HASH");
    match t {
        PartitionType::HASH => {
            assert("HASH"@.len() == 4);
        },
    }
}

/// A value's wire name reads back as that value.
pub proof fn lemma_read_consistency_wire_round_trip(t: ReadConsistency)
    ensures
        ReadConsistency::from_wire_spec(t.wire_name_spec()) == Some(t),
{
    reveal_strlit("EVENTUAL");
    reveal_strlit("STRONG");
    match t {
        ReadConsistency::EVENTUAL => {
            assert("EVENTUAL"@.len() == 8);
        },
        ReadConsistency::STRONG => {
            assert("EVENTUAL"@.len() == 8);
            assert("STRONG"@.len() == 6);
        },
    }
}

} // verus!
