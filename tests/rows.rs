use mochow_rust_sdk::mochow::api::database::{DropDatabaseArgs, ListDatabaseArgs};
use mochow_rust_sdk::mochow::api::enums::ReadConsistency;
use mochow_rust_sdk::mochow::api::index::{DeleteIndexArgs, DescriptIndexResponse};
use mochow_rust_sdk::mochow::api::row::{
    AnnsSearchParams, DeleteRowArgs, FLATSearchParams, HNSWPQSearchParams, HNSWSearchParams,
    InsertRowArgs, InsertRowsResponse, PUCKSearchParams,
    QueryRowArgs, SearchRowsArgs, SelectRowsArgs, SelectRowsResponse, UpdateRowArgs,
    VectorSearchParams,
};
use mochow_rust_sdk::mochow::api::table::{ListTableResponse, StatsTableResponse};
use mochow_rust_sdk::mochow::client::{prepare_client, HttpMethod};
use mochow_rust_sdk::mochow::config::{ClientConfiguration, ClientConfigurationBuilder};
use mochow_rust_sdk::mochow::json::{get_field, FloatBits, JsonValue};

fn config() -> ClientConfiguration {
    let conf = ClientConfigurationBuilder::default()
        .account("acc")
        .api_key("key")
        .endpoint("http://h:1")
        .build()
        .unwrap();
    prepare_client(&conf).unwrap().configuration
}

fn s(x: &str) -> JsonValue {
    JsonValue::Str(x.to_string())
}

fn obj(es: Vec<(&str, JsonValue)>) -> JsonValue {
    JsonValue::Object(es.into_iter().map(|(k, v)| (k.to_string(), v)).collect())
}

fn float(x: f64) -> JsonValue {
    JsonValue::Float(FloatBits { bits: x.to_bits() })
}

fn keys(j: &JsonValue) -> Vec<String> {
    match j {
        JsonValue::Object(es) => es.iter().map(|(k, _)| k.clone()).collect(),
        _ => Vec::new(),
    }
}

fn select_args() -> SelectRowsArgs {
    SelectRowsArgs {
        database: "book".to_string(),
        table: "book_segments".to_string(),
        filter: Some("page > 21".to_string()),
        marker: None,
        limit: Some(1),
        projections: Some(vec!["id".to_string(), "bookName".to_string(), "page".to_string()]),
        read_consistency: None,
    }
}

#[test]
fn test_insert_row_serialize() {
    let row = obj(vec![
        ("id", s("00001")),
        ("username", s("alice")),
        ("vector_field", JsonValue::Array(vec![float(0.2323234), float(0.34534545), float(0.9837234)])),
    ]);
    let args = InsertRowArgs {
        database: "test_db".to_string(),
        table: "test_table".to_string(),
        rows: vec![row],
    };
    let req = args.into_request(&config());
    assert_eq!(req.url, "http://h:1/v1/row?insert");
    let body = req.body.unwrap();
    println!("{:?}", body);
    assert_eq!(keys(&body), vec!["database", "table", "rows"]);
    match get_field(&body, "rows") {
        Some(JsonValue::Array(rows)) => {
            assert_eq!(rows.len(), 1);
            assert!(matches!(get_field(&rows[0], "username"), Some(JsonValue::Str(u)) if u == "alice"));
        }
        _ => panic!("rows missing"),
    }
}

#[test]
fn oversized_batch_is_sent_unchanged() {
    let rows: Vec<JsonValue> = (0..1001).map(|i| obj(vec![("id", JsonValue::Int(i))])).collect();
    let args = InsertRowArgs { database: "d".to_string(), table: "t".to_string(), rows };
    let body = args.into_request(&config()).body.unwrap();
    match get_field(&body, "rows") {
        Some(JsonValue::Array(rows)) => {
            assert_eq!(rows.len(), 1001);
            assert!(matches!(get_field(&rows[1000], "id"), Some(JsonValue::Int(1000))));
        }
        _ => panic!("rows missing"),
    }
}

#[test]
fn next_page_sends_previous_marker() {
    let mut args = select_args();
    let page: SelectRowsResponse<JsonValue> = SelectRowsResponse {
        code: 0,
        msg: "Success".to_string(),
        rows: vec![obj(vec![("id", s("0001"))])],
        is_truncated: true,
        next_marker: obj(vec![("id", s("0002"))]),
    };
    assert!(args.advance(page));
    let body = args.into_request(&config()).body.unwrap();
    assert_eq!(keys(&body), vec!["database", "table", "filter", "marker", "limit", "projections"]);
    match get_field(&body, "marker") {
        Some(m) => assert!(matches!(get_field(m, "id"), Some(JsonValue::Str(v)) if v == "0002")),
        None => panic!("marker missing"),
    }
}

#[test]
fn last_page_leaves_request_unchanged() {
    let mut args = select_args();
    let page: SelectRowsResponse<JsonValue> = SelectRowsResponse {
        code: 0,
        msg: "Success".to_string(),
        rows: vec![],
        is_truncated: false,
        next_marker: JsonValue::Null,
    };
    assert!(!args.advance(page));
    assert!(args.marker.is_none());
    let body = args.into_request(&config()).body.unwrap();
    assert!(get_field(&body, "marker").is_none());
}

#[test]
fn search_body_holds_untagged_params() {
    let args = SearchRowsArgs {
        database: "book".to_string(),
        table: "book_segments".to_string(),
        anns: AnnsSearchParams {
            vector_field: "vector".to_string(),
            vector_floats: vec![FloatBits { bits: 0.5f64.to_bits() }],
            params: VectorSearchParams::HNSW(HNSWSearchParams {
                ef: 200,
                limit: 10,
                distance_far: None,
                distance_near: None,
                pruning: false,
            }),
            filter: Some("bookName = '三国演义'".to_string()),
        },
        partition_ey: None,
        projections: None,
        retrieve_vector: Some(true),
        read_consistency: None,
    };
    let req = args.into_request(&config());
    assert_eq!(req.url, "http://h:1/v1/row?search");
    let body = req.body.unwrap();
    assert_eq!(keys(&body), vec!["database", "table", "anns", "retrieveVector"]);
    let anns = get_field(&body, "anns").unwrap();
    assert_eq!(keys(anns), vec!["vectorField", "vectorFloats", "params", "filter"]);
    assert_eq!(keys(get_field(anns, "params").unwrap()), vec!["ef", "limit", "pruning"]);
}

#[test]
fn row_requests_name_their_members() {
    let update = UpdateRowArgs {
        database: "d".to_string(),
        table: "t".to_string(),
        primary_key: obj(vec![("id", s("0001"))]),
        partition_ey: None,
        update: obj(vec![("page", JsonValue::Int(100))]),
    };
    let req = update.into_request(&config());
    assert_eq!(req.url, "http://h:1/v1/row?update");
    assert_eq!(keys(&req.body.unwrap()), vec!["database", "table", "primaryKey", "update"]);
    let delete = DeleteRowArgs {
        database: "d".to_string(),
        table: "t".to_string(),
        primary_key: None,
        partition_ey: None,
        filter: Some("page >= 22".to_string()),
    };
    let req = delete.into_request(&config());
    assert_eq!(req.method, HttpMethod::Post);
    assert_eq!(keys(&req.body.unwrap()), vec!["database", "table", "filter"]);
    let query = QueryRowArgs {
        database: "d".to_string(),
        table: "t".to_string(),
        primary_key: obj(vec![("id", s("0001"))]),
        partition_key: None,
        projections: Some(vec!["id".to_string()]),
        retrieve_vector: Some(false),
        read_consistency: Some(ReadConsistency::STRONG),
    };
    let body = query.into_request(&config()).body.unwrap();
    assert_eq!(
        keys(&body),
        vec!["database", "table", "primaryKey", "projections", "retrieveVector", "readConsistency"]
    );
    assert!(matches!(get_field(&body, "readConsistency"), Some(JsonValue::Str(c)) if c == "STRONG"));
}

#[test]
fn drop_requests_use_delete() {
    let req = DropDatabaseArgs::new("book").into_request(&config());
    assert_eq!(req.method, HttpMethod::Delete);
    assert_eq!(req.url, "http://h:1/v1/database");
    let req = DeleteIndexArgs::new("book", "t", "idx").into_request(&config());
    assert_eq!(req.method, HttpMethod::Delete);
    assert_eq!(keys(&req.body.unwrap()), vec!["database", "table", "indexName"]);
    let req = ListDatabaseArgs::new().into_request(&config());
    assert_eq!(req.url, "http://h:1/v1/database?list");
    assert!(req.body.is_none());
}

#[test]
fn write_and_table_responses_decode() {
    let j = obj(vec![("code", JsonValue::Int(0)), ("msg", s("Success")), ("affectedCount", JsonValue::Int(2))]);
    assert_eq!(InsertRowsResponse::from_json(&j).unwrap().affected_count, 2);
    let j = obj(vec![
        ("code", JsonValue::Int(0)),
        ("msg", s("Success")),
        ("rowCount", JsonValue::Int(10)),
        ("memorySizeInByte", JsonValue::Int(2048)),
        ("diskSizeInByte", JsonValue::Int(4096)),
    ]);
    let stats = StatsTableResponse::from_json(&j).unwrap();
    assert_eq!((stats.row_count, stats.memory_size_in_byte, stats.disk_size_in_byte), (10, 2048, 4096));
    let j = obj(vec![
        ("code", JsonValue::Int(0)),
        ("msg", s("Success")),
        ("tables", JsonValue::Array(vec![s("book_segments")])),
    ]);
    let tables = ListTableResponse::from_json(&j).unwrap();
    assert!(tables.contains("book_segments"));
    assert!(!tables.contains("book"));
    let j = obj(vec![
        ("code", JsonValue::Int(0)),
        ("msg", s("Success")),
        ("index", obj(vec![("indexName", s("vector_idx")), ("field", s("vector"))])),
    ]);
    let d = DescriptIndexResponse::from_json(&j).unwrap();
    assert_eq!(d.index.index_name, "vector_idx");
}

#[test]
fn search_params_default_to_fifty_rows() {

    let h = HNSWSearchParams::new(200);
    assert_eq!((h.ef, h.limit, h.pruning), (200, 50, false));
    assert_eq!(HNSWPQSearchParams::new(10).limit, 50);
    assert_eq!(PUCKSearchParams::new(5).search_coarse_count, 5);
    let flat = VectorSearchParams::FLAT(FLATSearchParams::new());
    let j = flat.to_json();
    assert_eq!(keys(&j), vec!["limit"]);
    let ranged = VectorSearchParams::FLAT(FLATSearchParams {
        limit: 3,
        distance_far: Some(FloatBits { bits: 2.0f64.to_bits() }),
        distance_near: None,
    });
    assert_eq!(keys(&ranged.to_json()), vec!["limit", "distanceFar"]);
}
