use vstd::prelude::*;
use vstd::string::*;

use crate::mochow::client::{HttpMethod, HttpRequest, request_url, url_of};
use crate::mochow::config::ClientConfiguration;
use crate::mochow::client::contains_name;
use crate::mochow::json::{
    JsonValue, field, get_field, i32_at, is_str_object, read_i32, read_str, read_strs, str_at,
    str_entry, strs_at,
};

verus! {

/// Creates a database.
#[derive(Debug, Clone)]
pub struct CreateDatabaseArgs {
    pub database: String,
}

impl CreateDatabaseArgs {
    pub fn new(database: &str) -> (r: CreateDatabaseArgs)
        ensures
            r.database@ == database@,
    {
        CreateDatabaseArgs { database: String::from_str(database) }
    }

    /// The JSON body: `database`, in that order.
    pub open spec fn encoded_by(&self, j: JsonValue) -> bool {
        is_str_object(j, seq!["database"@], seq![self.database@])
    }

    /// Post `database?create`, answered by [`CommonResponse`].
    pub fn into_request(self, config: &ClientConfiguration) -> (r: HttpRequest)
        ensures
            r.method == HttpMethod::Post,
            r.url@ == url_of(config.endpoint@, config.version@, "database"@, "create"@),
            r.body matches Some(b) && self.encoded_by(b),
    {
        let url = request_url(config, "database", "create");
        let ghost old_self = self;
        let mut es: Vec<(String, JsonValue)> = Vec::new();
        es.push(str_entry("database", self.database));
        let body = JsonValue::Object(es);
        proof {
            assert(old_self.encoded_by(body));
        }
        HttpRequest { method: HttpMethod::Post, url, body: Some(body) }
    }
}

/// Drops a database; its tables must have been dropped before.
#[derive(Debug, Clone)]
pub struct DropDatabaseArgs {
    pub database: String,
}

impl DropDatabaseArgs {
    pub fn new(database: &str) -> (r: DropDatabaseArgs)
        ensures
            r.database@ == database@,
    {
        DropDatabaseArgs { database: String::from_str(database) }
    }

    /// The JSON body: `database`, in that order.
    pub open spec fn encoded_by(&self, j: JsonValue) -> bool {
        is_str_object(j, seq!["database"@], seq![self.database@])
    }

    /// Delete `database`, answered by [`CommonResponse`].
    pub fn into_request(self, config: &ClientConfiguration) -> (r: HttpRequest)
        ensures
            r.method == HttpMethod::Delete,
            r.url@ == url_of(config.endpoint@, config.version@, "database"@, Seq::<char>::empty()),
            r.body matches Some(b) && self.encoded_by(b),
    {
        let url = request_url(config, "database", "");
        proof {
            reveal_strlit("");
        }
        let ghost old_self = self;
        let mut es: Vec<(String, JsonValue)> = Vec::new();
        es.push(str_entry("database", self.database));
        let body = JsonValue::Object(es);
        proof {
            assert(old_self.encoded_by(body));
        }
        HttpRequest { method: HttpMethod::Delete, url, body: Some(body) }
    }
}

/// Lists the databases.
#[derive(Debug, Clone)]
pub struct ListDatabaseArgs {}

impl ListDatabaseArgs {
    pub fn new() -> (r: ListDatabaseArgs) {
        ListDatabaseArgs {  }
    }

    /// Post `database?list` with no body, answered by [`ListDatabaseResponse`].
    pub fn into_request(self, config: &ClientConfiguration) -> (r: HttpRequest)
        ensures
            r.method == HttpMethod::Post,
            r.url@ == url_of(config.endpoint@, config.version@, "database"@, "list"@),
            r.body is None,
    {
        HttpRequest { method: HttpMethod::Post, url: request_url(config, "database", "list"), body: None }
    }
}

/// The answer to [`ListDatabaseArgs`].
#[derive(Debug, Clone)]
pub struct ListDatabaseResponse {
    pub code: i32,
    pub msg: String,
    pub databases: Vec<String>,
}

impl ListDatabaseResponse {
    /// Whether an answer decodes: `code` and `msg` are required, `databases` may be absent.
    pub open spec fn decodes(j: JsonValue) -> bool {
        &&& i32_at(j, "code"@) is Some
        &&& str_at(j, "msg"@) is Some
        &&& (field(j, "databases"@) is None || strs_at(j, "databases"@) is Some)
    }

    pub fn from_json(j: &JsonValue) -> (r: Option<ListDatabaseResponse>)
        ensures
            r is Some <==> Self::decodes(*j),
            r matches Some(l) ==> {
                &&& i32_at(*j, "code"@) == Some(l.code)
                &&& str_at(*j, "msg"@) == Some(l.msg@)
                &&& field(*j, "databases"@) is None ==> l.databases@.len() == 0
                &&& field(*j, "databases"@) is Some ==> strs_at(*j, "databases"@) == Some(
                    Seq::new(l.databases@.len(), |i: int| l.databases@[i]@),
                )
            },
    {
        let code = match read_i32(j, "code") {
            Some(c) => c,
            None => {
                return None;
            },
        };
        let msg = match read_str(j, "msg") {
            Some(m) => m,
            None => {
                return None;
            },
        };
        let databases = if get_field(j, "databases").is_none() {
            Vec::new()
        } else {
            match read_strs(j, "databases") {
                Some(d) => d,
                None => {
                    return None;
                },
            }
        };
        Some(ListDatabaseResponse { code, msg, databases })
    }

    /// Whether the list holds `database`.
    pub fn contains(&self, database: &str) -> (r: bool)
        ensures
            r == exists|i: int| 0 <= i < self.databases@.len() && self.databases@[i]@ == database@,
    {
        contains_name(&self.databases, database)
    }
}

} // verus!
