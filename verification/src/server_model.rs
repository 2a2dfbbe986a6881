//! The host-registry data model: registered remote servers, their groups,
//! the request shapes of the registry API, and the pure parts of the
//! registry service — response shaping, update merging, pagination and the
//! placeholder lists of batch statements.

use vstd::prelude::*;
use crate::strutil::{join_with, str_eq};

verus! {

/// How a registered server authenticates.
#[derive(Debug, Clone, PartialEq, Eq, Structural)]
pub enum AuthType {
    Password,
    Key,
}

impl AuthType {
    /// The registry's storage text for this authentication kind.
    pub open spec fn spec_str(&self) -> Seq<char> {
        match self {
            AuthType::Password => "password"@,
            AuthType::Key => "key"@,
        }
    }

    /// Render the authentication kind as the registry stores it.
    pub fn to_string(&self) -> (s: String)
        ensures
            s@ == self.spec_str(),
    {
        match self {
            AuthType::Password => String::from_str("password"),
            AuthType::Key => String::from_str("key"),
        }
    }

    /// Read the authentication kind back from its storage text; anything
    /// unrecognized is the password kind.
    pub fn from(s: String) -> (r: AuthType)
        ensures
            r == if s@ == "key"@ {
                AuthType::Key
            } else {
                AuthType::Password
            },
    {
        if str_eq(s.as_str(), "key") {
            AuthType::Key
        } else {
            AuthType::Password
        }
    }
}

/// The kinds of operations the registry audit log records.
#[derive(Debug, Clone, PartialEq, Eq, Structural)]
pub enum OperationType {
    Create,
    Update,
    Delete,
    Connect,
    Disconnect,
}

impl OperationType {
    /// The audit log's storage text for this operation kind.
    pub open spec fn spec_str(&self) -> Seq<char> {
        match self {
            OperationType::Create => "create"@,
            OperationType::Update => "update"@,
            OperationType::Delete => "delete"@,
            OperationType::Connect => "connect"@,
            OperationType::Disconnect => "disconnect"@,
        }
    }

    /// Render the operation kind as the audit log stores it.
    pub fn to_string(&self) -> (s: String)
        ensures
            s@ == self.spec_str(),
    {
        match self {
            OperationType::Create => String::from_str("create"),
            OperationType::Update => String::from_str("update"),
            OperationType::Delete => String::from_str("delete"),
            OperationType::Connect => String::from_str("connect"),
            OperationType::Disconnect => String::from_str("disconnect"),
        }
    }
}

/// A registered remote server, as the registry stores it.
#[derive(Debug)]
pub struct RemoteServer {
    pub id: i64,
    pub user_id: i64,
    pub name: String,
    pub host: String,
    pub port: i64,
    pub username: String,
    pub auth_type: String,
    pub password: Option<String>,
    pub private_key: Option<String>,
    pub description: Option<String>,
    pub tags: Option<String>,
    pub created_at: String,
    pub updated_at: String,
    pub last_connected_at: Option<String>,
    pub is_active: i64,
    pub created_by_username: Option<String>,
    pub updated_by_username: Option<String>,
    pub group_id: Option<i64>,
    pub group_name: Option<String>,
}

/// A server as reported to clients: the stored record with its tags parsed
/// out of their JSON text.
#[derive(Debug)]
pub struct ServerResponse {
    pub id: i64,
    pub name: String,
    pub host: String,
    pub port: i64,
    pub username: String,
    pub auth_type: String,
    pub description: Option<String>,
    pub group_id: Option<i64>,
    pub group_name: Option<String>,
    pub tags: Vec<String>,
    pub created_at: String,
    pub updated_at: String,
    pub last_connected_at: Option<String>,
    pub created_by_username: Option<String>,
    pub updated_by_username: Option<String>,
    pub password: Option<String>,
    pub private_key: Option<String>,
}

/// What `serde_json::from_str::<Vec<String>>` parses from this text: the
/// list of strings when the text is a JSON array of strings, nothing
/// otherwise.
pub uninterp spec fn parsed_string_list(s: Seq<char>) -> Option<Seq<Seq<char>>>;

/// Relies on serde_json::from_str::<Vec<String>>: parsing depends on the
/// text alone.
#[verifier::external_body]
fn parse_string_list(s: &str) -> (r: Option<Vec<String>>)
    ensures
        match r {
            Some(v) => parsed_string_list(s@) == Some(v@.map_values(|x: String| x@)),
            None => parsed_string_list(s@) is None,
        },
{
    serde_json::from_str::<Vec<String>>(s).ok()
}

/// What `serde_json::to_string::<Vec<String>>` renders for this list.
pub uninterp spec fn string_list_json(v: Seq<Seq<char>>) -> Seq<char>;

/// Relies on serde_json::to_string::<Vec<String>>: the rendering depends on
/// the values alone.
#[verifier::external_body]
fn render_string_list(v: &Vec<String>) -> (r: Option<String>)
    ensures
        r matches Some(s) ==> s@ == string_list_json(v@.map_values(|x: String| x@)),
{
    serde_json::to_string(v).ok()
}

/// The tag list carried by a stored record: the parse of its JSON text,
/// empty when the field is absent or does not parse.
pub open spec fn tags_of_record(tags: Option<String>) -> Seq<Seq<char>> {
    match tags {
        Some(t) => match parsed_string_list(t@) {
            Some(l) => l,
            None => Seq::empty(),
        },
        None => Seq::empty(),
    }
}

impl ServerResponse {
    /// Shape a stored record into its client response: every field carried
    /// over, the tags parsed out of their JSON text (empty when absent or
    /// malformed).
    pub fn from(server: RemoteServer) -> (r: ServerResponse)
        ensures
            r.id == server.id,
            r.name@ == server.name@,
            r.host@ == server.host@,
            r.port == server.port,
            r.username@ == server.username@,
            r.auth_type@ == server.auth_type@,
            r.description == server.description,
            r.group_id == server.group_id,
            r.group_name == server.group_name,
            r.tags@.map_values(|x: String| x@) == tags_of_record(server.tags),
            r.created_at@ == server.created_at@,
            r.updated_at@ == server.updated_at@,
            r.last_connected_at == server.last_connected_at,
            r.created_by_username == server.created_by_username,
            r.updated_by_username == server.updated_by_username,
            r.password == server.password,
            r.private_key == server.private_key,
    {
        let tags: Vec<String> = match &server.tags {
            Some(t) => match parse_string_list(t.as_str()) {
                Some(l) => l,
                None => Vec::new(),
            },
            None => Vec::new(),
        };
        proof {
            assert(Seq::<String>::empty().map_values(|x: String| x@) =~= Seq::<Seq<char>>::empty());
        }
        ServerResponse {
            id: server.id,
            name: server.name,
            host: server.host,
            port: server.port,
            username: server.username,
            auth_type: server.auth_type,
            description: server.description,
            group_id: server.group_id,
            group_name: server.group_name,
            tags,
            created_at: server.created_at,
            updated_at: server.updated_at,
            last_connected_at: server.last_connected_at,
            created_by_username: server.created_by_username,
            updated_by_username: server.updated_by_username,
            password: server.password,
            private_key: server.private_key,
        }
    }
}

/// A request to register a server.
#[derive(Debug)]
pub struct CreateServerRequest {
    pub name: String,
    pub host: String,
    pub port: Option<i64>,
    pub username: String,
    pub auth_type: Option<AuthType>,
    pub password: Option<String>,
    pub private_key: Option<String>,
    pub description: Option<String>,
    pub tags: Option<Vec<String>>,
    pub group_id: Option<i64>,
}

/// A request to change a registered server; absent fields keep their
/// stored values.
#[derive(Debug)]
pub struct UpdateServerRequest {
    pub name: Option<String>,
    pub host: Option<String>,
    pub port: Option<i64>,
    pub username: Option<String>,
    pub auth_type: Option<AuthType>,
    pub password: Option<String>,
    pub private_key: Option<String>,
    pub description: Option<String>,
    pub tags: Option<Vec<String>>,
    pub group_id: Option<i64>,
}

/// A request to delete several records at once.
#[derive(Debug)]
pub struct BatchDeleteRequest {
    pub ids: Vec<i64>,
}

/// A server group, with its member count.
#[derive(Debug)]
pub struct ServerGroup {
    pub id: i64,
    pub user_id: i64,
    pub name: String,
    pub description: Option<String>,
    pub created_at: String,
    pub server_count: i64,
}

/// A request to create a group.
#[derive(Debug)]
pub struct CreateGroupRequest {
    pub name: String,
    pub description: Option<String>,
}

/// A request to change a group; absent fields keep their stored values.
#[derive(Debug)]
pub struct UpdateGroupRequest {
    pub name: Option<String>,
    pub description: Option<String>,
}

/// One line of the registry audit log.
#[derive(Debug)]
pub struct ServerOperationLog {
    pub id: i64,
    pub user_id: i64,
    pub username: String,
    pub server_id: Option<i64>,
    pub server_name: Option<String>,
    pub operation_type: String,
    pub operation_detail: Option<String>,
    pub ip_address: Option<String>,
    pub user_agent: Option<String>,
    pub created_at: String,
}

/// The paging part of a listing request.
#[derive(Debug)]
pub struct PaginationParams {
    pub page: Option<u32>,
    pub page_size: Option<u32>,
    pub group_id: Option<i64>,
    pub search: Option<String>,
}

/// One page of a listing response.
#[derive(Debug)]
pub struct PaginatedResponse<T> {
    pub items: Vec<T>,
    pub total: i64,
    pub page: u32,
    pub page_size: u32,
}

/// The default page number of a listing request.
pub const DEFAULT_PAGE: u32 = 1;

/// The default page size of a listing request.
pub const DEFAULT_PAGE_SIZE: u32 = 20;

/// The window a listing request asks for: the page and page size with their
/// defaults filled in, and the row offset of the page. Pages count from
/// one; a page below one is clamped to the first.
pub fn page_window(page: Option<u32>, page_size: Option<u32>) -> (r: (u32, u32, u64))
    ensures
        r.0 == match page {
            Some(p) => p,
            None => DEFAULT_PAGE,
        },
        r.1 == match page_size {
            Some(s) => s,
            None => DEFAULT_PAGE_SIZE,
        },
        r.2 == if r.0 >= 1 {
            (r.0 - 1) * r.1
        } else {
            0
        },
{
    let p = match page {
        Some(p) => p,
        None => DEFAULT_PAGE,
    };
    let s = match page_size {
        Some(s) => s,
        None => DEFAULT_PAGE_SIZE,
    };
    let offset: u64 = if p >= 1 {
        let a = (p - 1) as u64;
        let b = s as u64;
        proof {
            assert(a * b <= 0xffff_ffff * 0xffff_ffff) by (nonlinear_arith)
                requires
                    a <= 0xffff_ffff,
                    b <= 0xffff_ffff,
            ;
        }
        a * b
    } else {
        0
    };
    (p, s, offset)
}

/// The merged column values of a server update: every field the request
/// names replaces the stored one, every absent field keeps it; requested
/// tags are rendered to their JSON text.
#[derive(Debug)]
pub struct MergedServerUpdate {
    pub name: String,
    pub host: String,
    pub port: i64,
    pub username: String,
    pub auth_type: String,
    pub password: Option<String>,
    pub private_key: Option<String>,
    pub description: Option<String>,
    pub tags: Option<String>,
}

/// Merge an update request into the stored record, field by field.
pub fn merge_server_update(existing: RemoteServer, req: UpdateServerRequest) -> (r:
    MergedServerUpdate)
    ensures
        r.name@ == match req.name {
            Some(ref n) => n@,
            None => existing.name@,
        },
        r.host@ == match req.host {
            Some(ref h) => h@,
            None => existing.host@,
        },
        r.port == match req.port {
            Some(p) => p,
            None => existing.port,
        },
        r.username@ == match req.username {
            Some(ref u) => u@,
            None => existing.username@,
        },
        r.auth_type@ == match req.auth_type {
            Some(a) => a.spec_str(),
            None => existing.auth_type@,
        },
        r.password == match req.password {
            Some(p) => Some(p),
            None => existing.password,
        },
        r.private_key == match req.private_key {
            Some(k) => Some(k),
            None => existing.private_key,
        },
        r.description == match req.description {
            Some(d) => Some(d),
            None => existing.description,
        },
        match req.tags {
            Some(ref t) => (r.tags matches Some(j) && j@ == string_list_json(
                t@.map_values(|x: String| x@),
            )) || r.tags == existing.tags,
            None => r.tags == existing.tags,
        },
{
    let tags: Option<String> = match &req.tags {
        Some(t) => match render_string_list(t) {
            Some(j) => Some(j),
            None => existing.tags,
        },
        None => existing.tags,
    };
    MergedServerUpdate {
        name: match req.name {
            Some(n) => n,
            None => existing.name,
        },
        host: match req.host {
            Some(h) => h,
            None => existing.host,
        },
        port: match req.port {
            Some(p) => p,
            None => existing.port,
        },
        username: match req.username {
            Some(u) => u,
            None => existing.username,
        },
        auth_type: match req.auth_type {
            Some(a) => a.to_string(),
            None => existing.auth_type,
        },
        password: match req.password {
            Some(p) => Some(p),
            None => existing.password,
        },
        private_key: match req.private_key {
            Some(k) => Some(k),
            None => existing.private_key,
        },
        description: match req.description {
            Some(d) => Some(d),
            None => existing.description,
        },
        tags,
    }
}

/// The column values stored for a newly registered server: port and
/// authentication kind with their defaults filled in, tags rendered to
/// their JSON text (empty text when the rendering fails).
#[derive(Debug)]
pub struct NewServerRecord {
    pub port: i64,
    pub auth_type: String,
    pub tags: Option<String>,
}

/// The default port of a registered server.
pub const DEFAULT_SSH_PORT: i64 = 22;

/// Fill the defaults of a creation request.
pub fn new_server_record(port: Option<i64>, auth_type: Option<AuthType>, tags: Option<Vec<String>>)
    -> (r: NewServerRecord)
    ensures
        r.port == match port {
            Some(p) => p,
            None => DEFAULT_SSH_PORT,
        },
        r.auth_type@ == match auth_type {
            Some(a) => a.spec_str(),
            None => AuthType::Password.spec_str(),
        },
        match tags {
            Some(ref t) => r.tags matches Some(j) && (j@ == string_list_json(
                t@.map_values(|x: String| x@),
            ) || j@.len() == 0),
            None => r.tags is None,
        },
{
    let rendered: Option<String> = match &tags {
        Some(t) => match render_string_list(t) {
            Some(j) => Some(j),
            None => Some(String::new()),
        },
        None => None,
    };
    NewServerRecord {
        port: match port {
            Some(p) => p,
            None => DEFAULT_SSH_PORT,
        },
        auth_type: match auth_type {
            Some(a) => a.to_string(),
            None => AuthType::Password.to_string(),
        },
        tags: rendered,
    }
}

/// The placeholder list of a batch statement: one `?` per value, separated
/// by commas.
pub fn sql_placeholders(n: usize) -> (s: String)
    ensures
        s@ == join_with(Seq::new(n as nat, |i: int| "?"@), ", "@),
{
    let ghost parts = Seq::new(n as nat, |i: int| "?"@);
    let mut v: Vec<String> = Vec::new();
    let mut i: usize = 0;
    while i < n
        invariant
            0 <= i <= n,
            v@.len() == i,
            v@.map_values(|p: String| p@) =~= parts.take(i as int),
            parts == Seq::new(n as nat, |j: int| "?"@),
        decreases n - i,
    {
        v.push(String::from_str("?"));
        proof {
            broadcast use Seq::lemma_push_map_commute;

            assert(parts.take(i + 1) =~= parts.take(i as int).push("?"@));
            assert(v@.map_values(|p: String| p@) =~= parts.take(i + 1));
        }
        i = i + 1;
    }
    proof {
        assert(parts.take(n as int) =~= parts);
    }
    crate::strutil::join_strings(&v, ", ")
}

} // verus!
