use mochow_rust_sdk::mochow::api::database::{CreateDatabaseArgs, ListDatabaseResponse};
use mochow_rust_sdk::mochow::api::enums::{
    AutoBuildPolicyType, FieldType, IndexState, IndexType, MetricType, PartitionType, TableState,
};
use mochow_rust_sdk::mochow::api::index::{
    AutoBuildPolicy, HNSWIndexParam, HNSWPQIndexParam, IndexSchema, PUCKIndexParam,
    VectorIndexParams,
};
use mochow_rust_sdk::mochow::api::table::{
    CreateTableArgs, DescriptTable, FieldSchema, Partition, TableSchema,
};
use mochow_rust_sdk::mochow::client::{prepare_client, HttpMethod};
use mochow_rust_sdk::mochow::config::{ClientConfiguration, ClientConfigurationBuilder};
use mochow_rust_sdk::mochow::json::{FloatBits, JsonValue};

fn config() -> ClientConfiguration {
    let conf = ClientConfigurationBuilder::default()
        .account("acc")
        .api_key("key")
        .endpoint("127.0.0.1:5287")
        .build()
        .unwrap();
    prepare_client(&conf).unwrap().configuration
}

fn s(x: &str) -> JsonValue {
    JsonValue::Str(x.to_string())
}

fn obj(es: Vec<(&str, JsonValue)>) -> JsonValue {
    JsonValue::Object(es.into_iter().map(|(k, v)| (k.to_string(), v)).collect())
}

fn float(x: f64) -> FloatBits {
    FloatBits { bits: x.to_bits() }
}

/// JSON text; with `sorted`, the members of each object in order of name.
fn render(j: &JsonValue, sorted: bool) -> String {
    match j {
        JsonValue::Null => "null".to_string(),
        JsonValue::Bool(b) => b.to_string(),
        JsonValue::Int(n) => n.to_string(),
        JsonValue::Float(f) => format!("{:?}", f64::from_bits(f.bits)),
        JsonValue::Str(t) => format!("{:?}", t),
        JsonValue::Array(a) => {
            let items: Vec<String> = a.iter().map(|x| render(x, sorted)).collect();
            format!("[{}]", items.join(","))
        }
        JsonValue::Object(es) => {
            let mut items: Vec<String> =
                es.iter().map(|(k, v)| format!("{:?}:{}", k, render(v, sorted))).collect();
            if sorted {
                items.sort();
            }
            format!("{{{}}}", items.join(","))
        }
    }
}

#[test]
fn create_database_param_serialize() {
    let param = CreateDatabaseArgs::new("test_db");
    let req = param.into_request(&config());
    assert_eq!(req.method, HttpMethod::Post);
    assert_eq!(req.url, "http://127.0.0.1:5287/v1/database?create");
    assert_eq!(render(&req.body.unwrap(), true), r#"{"database":"test_db"}"#);
}

#[test]
fn list_database_response_deserialize() {
    let data = obj(vec![
        ("code", JsonValue::Int(0)),
        ("msg", s("Success")),
        ("databases", JsonValue::Array(vec![s("test_db1"), s("test_db2")])),
    ]);
    let v = ListDatabaseResponse::from_json(&data).unwrap();
    println!("{:?}", v);
    assert_eq!(v.code, 0);
    assert_eq!(v.databases, vec!["test_db1".to_string(), "test_db2".to_string()]);
    assert!(v.contains("test_db2"));
    assert!(!v.contains("test_db3"));
}

#[test]
fn list_database_response_without_list_is_empty() {
    let data = obj(vec![("code", JsonValue::Int(0)), ("msg", s("Success"))]);
    let v = ListDatabaseResponse::from_json(&data).unwrap();
    assert!(v.databases.is_empty());
    let bad = obj(vec![
        ("code", JsonValue::Int(0)),
        ("msg", s("Success")),
        ("databases", JsonValue::Array(vec![JsonValue::Int(3)])),
    ]);
    assert!(ListDatabaseResponse::from_json(&bad).is_none());
}

#[test]
fn test_serialize() {
    let p = AutoBuildPolicyType::TIMING;
    let t = render(&JsonValue::Str(p.wire_name()), false);
    assert_eq!(t, "\"TIMING\"");
}

#[test]
fn enum_wire_names_read_back() {
    assert_eq!(AutoBuildPolicyType::from_wire("timing"), Some(AutoBuildPolicyType::TIMING));
    assert_eq!(AutoBuildPolicyType::from_wire("PERIODICAL"), Some(AutoBuildPolicyType::PERIODICAL));
    assert_eq!(IndexType::SECONDARY_INDEX.wire_name(), "SECONDARY");
    assert_eq!(IndexType::from_wire("SECONDARY"), Some(IndexType::SECONDARY_INDEX));
    assert_eq!(FieldType::Int16.wire_name(), "INT16");
    assert_eq!(FieldType::from_wire("TEXT_GB18030"), Some(FieldType::TEXT_GB18030));
    assert_eq!(FieldType::from_wire("text"), None);
    assert_eq!(TableState::from_wire("DELETING"), Some(TableState::DELETING));
    assert_eq!(PartitionType::default(), PartitionType::HASH);
}

#[test]
fn hnsw_params_serialize_without_tag() {
    let p = VectorIndexParams::HNSW(HNSWIndexParam { m: 16, ef_construction: 200 });
    let j = p.to_json();
    assert_eq!(render(&j, false), r#"{"M":16,"efConstruction":200}"#);
    assert_eq!(VectorIndexParams::from_json(&j), Some(p));
}

#[test]
fn index_params_variant_from_members() {
    let pq = VectorIndexParams::HNSWPQ(HNSWPQIndexParam {
        m: 16,
        ef_construction: 200,
        nsq: 8,
        sample_rate: float(0.5),
    });
    let j = pq.to_json();
    assert_eq!(render(&j, false), r#"{"M":16,"efConstruction":200,"NSQ":8,"sampleRate":0.5}"#);
    assert_eq!(VectorIndexParams::from_json(&j), Some(pq));
    let puck = VectorIndexParams::PUCK(PUCKIndexParam {
        coarse_cluster_count: 5,
        fine_cluster_count: 7,
    });
    let j = puck.to_json();
    assert_eq!(render(&j, false), r#"{"coarseClusterCount":5,"fineClusterCount":7}"#);
    assert_eq!(VectorIndexParams::from_json(&j), Some(puck));
    let only_m = obj(vec![("M", JsonValue::Int(16))]);
    assert_eq!(VectorIndexParams::from_json(&only_m), None);
    let negative = obj(vec![("M", JsonValue::Int(-1)), ("efConstruction", JsonValue::Int(2))]);
    assert_eq!(VectorIndexParams::from_json(&negative), None);
}

fn sample_schema() -> TableSchema {
    let mut id = FieldSchema::new("id", FieldType::STRING);
    id.primary_key = true;
    id.partition_key = true;
    id.not_null = true;
    let mut vector = FieldSchema::new("vector", FieldType::FLOAT_VECTOR);
    vector.not_null = true;
    vector.dimension = Some(3);
    let mut index = IndexSchema::new("vector_idx", "vector");
    index.index_type = Some(IndexType::HNSW);
    index.metric_type = Some(MetricType::L2);
    index.params = Some(VectorIndexParams::HNSW(HNSWIndexParam { m: 32, ef_construction: 200 }));
    index.auto_build = true;
    index.auto_build_policy = Some(AutoBuildPolicy {
        policy_type: Some(AutoBuildPolicyType::PERIODICAL),
        timing: String::new(),
        period_in_second: 5000,
        row_count_increment: 0,
        row_count_increment_ratio: float(0.0),
    });
    TableSchema { fields: vec![id, vector], indexes: vec![index] }
}

#[test]
fn table_schema_round_trip() {
    let j = sample_schema().to_json();
    let back = TableSchema::from_json(&j).unwrap();
    let orig = sample_schema();
    assert_eq!(back.fields.len(), 2);
    assert_eq!(back.indexes.len(), 1);
    for (a, b) in back.fields.iter().zip(orig.fields.iter()) {
        assert_eq!(a.field_name, b.field_name);
        assert_eq!(a.field_type, b.field_type);
        assert_eq!(a.primary_key, b.primary_key);
        assert_eq!(a.partition_key, b.partition_key);
        assert_eq!(a.not_null, b.not_null);
        assert_eq!(a.dimension, b.dimension);
    }
    let (a, b) = (&back.indexes[0], &orig.indexes[0]);
    assert_eq!(a.index_name, b.index_name);
    assert_eq!(a.field, b.field);
    assert_eq!(a.index_type, b.index_type);
    assert_eq!(a.metric_type, b.metric_type);
    assert_eq!(a.params, b.params);
    assert_eq!(a.auto_build, b.auto_build);
    assert_eq!(a.state, None);
    let (pa, pb) = (a.auto_build_policy.as_ref().unwrap(), b.auto_build_policy.as_ref().unwrap());
    assert_eq!(pa.policy_type, pb.policy_type);
    assert_eq!(pa.period_in_second, 5000);
    assert_eq!(pa.timing, "");
}

#[test]
fn index_state_is_read_but_never_sent() {
    let mut index = IndexSchema::new("idx", "f");
    index.state = Some(IndexState::NORMAL);
    let j = index.to_json();
    assert_eq!(render(&j, false), r#"{"indexName":"idx","field":"f","autoBuild":false}"#);
    let with_state = obj(vec![("field", s("f")), ("state", s("BUILDING"))]);
    let back = IndexSchema::from_json(&with_state).unwrap();
    assert_eq!(back.state, Some(IndexState::BUILDING));
    assert_eq!(back.index_name, "");
    let no_field = obj(vec![("indexName", s("idx"))]);
    assert!(IndexSchema::from_json(&no_field).is_none());
}

#[test]
fn create_table_args_serialize_test() {
    let mut field = FieldSchema::new("name", FieldType::TEXT);
    field.dimension = Some(0);
    let mut index = IndexSchema::new("name", "");
    index.index_type = Some(IndexType::HNSW);
    index.params = Some(VectorIndexParams::HNSW(HNSWIndexParam { m: 8, ef_construction: 200 }));
    index.metric_type = Some(MetricType::L2);
    index.auto_build = true;
    index.auto_build_policy = Some(AutoBuildPolicy {
        policy_type: Some(AutoBuildPolicyType::PERIODICAL),
        timing: String::new(),
        period_in_second: 0,
        row_count_increment: 0,
        row_count_increment_ratio: float(0.0),
    });
    let mut args = CreateTableArgs::new(
        "test_db",
        "test_table",
        3,
        Partition { partition_type: PartitionType::HASH, partition_num: 1 },
        TableSchema { fields: vec![field], indexes: vec![index] },
    );
    args.description = Some("this is description".to_string());
    args.enable_dynamic_field = Some(true);
    let req = args.into_request(&config());
    assert_eq!(req.url, "http://127.0.0.1:5287/v1/table?create");
    let json = render(&req.body.unwrap(), true);
    let expected = r#"{"database":"test_db","description":"this is description","enableDynamicField":true,"partition":{"partitionNum":1,"partitionType":"HASH"},"replication":3,"schema":{"fields":[{"autoIncrement":false,"dimension":0,"fieldName":"name","fieldType":"TEXT","notNull":false,"partitionKey":false,"primaryKey":false}],"indexes":[{"autoBuild":true,"autoBuildPolicy":{"periodInSecond":0,"policyType":"PERIODICAL","rowCountIncrement":0,"rowCountIncrementRatio":0.0},"field":"","indexName":"name","indexType":"HNSW","metricType":"L2","params":{"M":8,"efConstruction":200}}]},"table":"test_table"}"#;
    println!("{}", json);
    assert_eq!(json, expected);
}

#[test]
fn descript_table_response_deserialize_test() {
    let field = obj(vec![
        ("fieldName", s("name")),
        ("fieldType", s("TEXT")),
        ("partitionKey", JsonValue::Bool(false)),
        ("primaryKey", JsonValue::Bool(false)),
        ("autoIncrement", JsonValue::Bool(false)),
        ("notNull", JsonValue::Bool(false)),
        ("dimension", JsonValue::Int(0)),
    ]);
    let policy = obj(vec![
        ("periodInSecond", JsonValue::Int(0)),
        ("policyType", s("TIMING")),
        ("rowCountIncrement", JsonValue::Int(0)),
        ("rowCountIncrementRatio", JsonValue::Float(float(0.0))),
        ("timing", s("")),
    ]);
    let index = obj(vec![
        ("autoBuild", JsonValue::Bool(true)),
        ("autoBuildPolicy", policy),
        ("field", s("")),
        ("indexName", s("name")),
        ("indexType", s("HNSW")),
        ("metricType", s("L2")),
        ("state", s("NORMAL")),
        ("params", obj(vec![("M", JsonValue::Int(8)), ("efConstruction", JsonValue::Int(20))])),
    ]);
    let data = obj(vec![
        ("database", s("test_db")),
        ("table", s("test_table")),
        ("createTime", s("2024-02-02T12:02:08Z")),
        ("enableDynamicField", JsonValue::Bool(true)),
        ("state", s("NORMAL")),
        ("replication", JsonValue::Int(3)),
        ("description", s("this is description")),
        (
            "partition",
            obj(vec![("partitionType", s("HASH")), ("partitionNum", JsonValue::Int(1))]),
        ),
        (
            "schema",
            obj(vec![
                ("fields", JsonValue::Array(vec![field])),
                ("indexes", JsonValue::Array(vec![index])),
            ]),
        ),
    ]);
    let v = DescriptTable::from_json(&data).unwrap();
    println!("{:?}", v);
    assert_eq!(v.state, TableState::NORMAL);
    assert_eq!(v.replication, 3);
    assert_eq!(v.partition.partition_num, 1);
    assert!(v.aliases.is_empty());
    assert_eq!(v.schema.fields[0].dimension, Some(0));
    let idx = &v.schema.indexes[0];
    assert_eq!(idx.state, Some(IndexState::NORMAL));
    assert_eq!(
        idx.params,
        Some(VectorIndexParams::HNSW(HNSWIndexParam { m: 8, ef_construction: 20 }))
    );
    assert_eq!(
        idx.auto_build_policy.as_ref().unwrap().policy_type,
        Some(AutoBuildPolicyType::TIMING)
    );
}
