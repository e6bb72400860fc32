pub mod common;
pub mod database;
pub mod enums;
pub mod index;
pub mod row;
pub mod table;

pub use common::{CommonResponse, ServiceError};
pub use database::{CreateDatabaseArgs, DropDatabaseArgs, ListDatabaseArgs, ListDatabaseResponse};
pub use enums::{
    AutoBuildPolicyType, FieldType, IndexState, IndexType, MetricType, PartitionType,
    ReadConsistency, ServerErrorCode, TableState,
};
pub use index::{
    AutoBuildPolicy, CreateIndexArgs, DeleteIndexArgs, DescriptIndexArgs, DescriptIndexResponse,
    HNSWIndexParam, HNSWPQIndexParam, IndexSchema, ModifyIndexArgs, PUCKIndexParam,
    RebuildIndexArgs, VectorIndexParams,
};
pub use row::{
    AnnsSearchParams, BatchAnnsSearchParams, BatchRowResult, BatchSearchRowsArgs,
    BatchSearchRowsResponse, DeleteRowArgs, FLATSearchParams, HNSWPQSearchParams, HNSWSearchParams,
    InsertRowArgs, InsertRowsResponse, PUCKSearchParams, QueryRowArgs, QueryRowsResponse, RowResult,
    SearchRowsArgs, SearchRowsResponse, SelectRowsArgs, SelectRowsResponse, UpdateRowArgs,
    UpsertRowArgs, UpsertRowsResponse, VectorSearchParams,
};
pub use table::{
    AddFieldArgs, AliasTableArgs, CreateTableArgs, DescriptTable, DescriptTableArgs,
    DescriptTableResponse, DropTableArgs, FieldSchema, ListTableArgs, ListTableResponse, Partition,
    StatsTableArgs, StatsTableResponse, TableSchema, UnaliasTableArgs,
};
