//! Plain models of the records the dispatch engine consumes: connection
//! model definitions (how to call one upstream action), connection model
//! schemas (how to map a common model), connections, and the per-request
//! destination. Everything the logic reads is a plain value.
use crate::config::Environment;
use vstd::prelude::*;

verus! {

#[derive(Debug, Clone, Copy, PartialEq, Eq, Structural)]
pub enum HttpMethod {
    Get,
    Post,
    Put,
    Patch,
    Delete,
    Head,
    Options,
}

/// The method name as it appears on the wire.
pub open spec fn method_label(m: HttpMethod) -> Seq<char> {
    match m {
        HttpMethod::Get => "GET"@,
        HttpMethod::Post => "POST"@,
        HttpMethod::Put => "PUT"@,
        HttpMethod::Patch => "PATCH"@,
        HttpMethod::Delete => "DELETE"@,
        HttpMethod::Head => "HEAD"@,
        HttpMethod::Options => "OPTIONS"@,
    }
}

impl HttpMethod {
    pub fn as_str(&self) -> (r: &'static str)
        ensures
            r@ == method_label(*self),
    {
        match self {
            HttpMethod::Get => "GET",
            HttpMethod::Post => "POST",
            HttpMethod::Put => "PUT",
            HttpMethod::Patch => "PATCH",
            HttpMethod::Delete => "DELETE",
            HttpMethod::Head => "HEAD",
            HttpMethod::Options => "OPTIONS",
        }
    }
}

/// The logical operation a model definition implements.
#[derive(Debug, Clone, Copy, PartialEq, Eq, Structural)]
pub enum CrudAction {
    GetMany,
    GetOne,
    Create,
    Update,
    Upsert,
    Delete,
    GetCount,
    Custom,
}

/// The action name as the envelope metadata shows it.
pub open spec fn action_label(a: CrudAction) -> Seq<char> {
    match a {
        CrudAction::GetMany => "getMany"@,
        CrudAction::GetOne => "getOne"@,
        CrudAction::Create => "create"@,
        CrudAction::Update => "update"@,
        CrudAction::Upsert => "upsert"@,
        CrudAction::Delete => "delete"@,
        CrudAction::GetCount => "getCount"@,
        CrudAction::Custom => "custom"@,
    }
}

impl CrudAction {
    pub fn as_str(&self) -> (r: &'static str)
        ensures
            r@ == action_label(*self),
    {
        match self {
            CrudAction::GetMany => "getMany",
            CrudAction::GetOne => "getOne",
            CrudAction::Create => "create",
            CrudAction::Update => "update",
            CrudAction::Upsert => "upsert",
            CrudAction::Delete => "delete",
            CrudAction::GetCount => "getCount",
            CrudAction::Custom => "custom",
        }
    }
}

/// JSONPath-style locations inside request and response payloads.
#[derive(Debug, Clone, PartialEq, Eq)]
pub struct ModelPaths {
    pub request_object: Option<String>,
    pub response_object: Option<String>,
    pub response_cursor: Option<String>,
}

#[derive(Debug, Clone, Copy, PartialEq, Eq, Structural)]
pub enum HashAlgorithm {
    HmacSha1,
    HmacSha256,
    HmacSha512,
    PlainText,
}

/// The signature method name an authorization header shows.
pub open spec fn hash_algorithm_label(h: HashAlgorithm) -> Seq<char> {
    match h {
        HashAlgorithm::HmacSha1 => "HMAC-SHA1"@,
        HashAlgorithm::HmacSha256 => "HMAC-SHA256"@,
        HashAlgorithm::HmacSha512 => "HMAC-SHA512"@,
        HashAlgorithm::PlainText => "PLAINTEXT"@,
    }
}

impl HashAlgorithm {
    pub fn as_str(&self) -> (r: &'static str)
        ensures
            r@ == hash_algorithm_label(*self),
    {
        match self {
            HashAlgorithm::HmacSha1 => "HMAC-SHA1",
            HashAlgorithm::HmacSha256 => "HMAC-SHA256",
            HashAlgorithm::HmacSha512 => "HMAC-SHA512",
            HashAlgorithm::PlainText => "PLAINTEXT",
        }
    }
}

/// How the outbound call authenticates; exactly one applies.
#[derive(Debug, Clone, PartialEq, Eq)]
pub enum AuthMethod {
    BearerToken { value: String },
    ApiKey { key: String, value: String },
    QueryParam { key: String, value: String },
    BasicAuth { username: String, password: String },
    OAuthLegacy { hash_algorithm: HashAlgorithm, realm: Option<String> },
    OAuth,
    Anonymous,
}

/// The recipe for calling one upstream endpoint.
#[derive(Debug, Clone, PartialEq, Eq)]
pub struct ApiModelConfig {
    pub base_url: String,
    pub path: String,
    pub auth_method: AuthMethod,
    pub headers: Vec<(String, String)>,
    pub query_params: Vec<(String, String)>,
    pub paths: Option<ModelPaths>,
}

/// The bidirectional CRUD mapping scripts of a model definition.
#[derive(Debug, Clone, PartialEq, Eq)]
pub struct CrudMapping {
    pub common_model_name: String,
    pub from_common_model: Option<String>,
    pub to_common_model: Option<String>,
}

/// A per-(platform, action) recipe for an upstream call and its mapping.
#[derive(Debug, Clone, PartialEq, Eq)]
pub struct ConnectionModelDefinition {
    pub id: String,
    pub connection_platform: String,
    pub platform_version: String,
    pub title: String,
    pub name: String,
    pub action: HttpMethod,
    pub action_name: CrudAction,
    pub api_config: ApiModelConfig,
    pub mapping: Option<CrudMapping>,
    pub supported: bool,
}

/// The bidirectional schema mapping scripts of a common model.
#[derive(Debug, Clone, PartialEq, Eq)]
pub struct SchemaMapping {
    pub common_model_name: String,
    pub from_common_model: String,
    pub to_common_model: String,
}

/// A per-(platform, common model) field mapping.
#[derive(Debug, Clone, PartialEq, Eq)]
pub struct ConnectionModelSchema {
    pub id: String,
    pub platform: String,
    pub mapping: Option<SchemaMapping>,
}

#[derive(Debug, Clone, Copy, PartialEq, Eq, Structural)]
pub enum ConnectionType {
    Api,
    DatabaseSql,
    DatabaseNoSql,
}

/// Requests-per-window budget of a connection.
#[derive(Debug, Clone, PartialEq, Eq)]
pub struct Throughput {
    pub key: String,
    pub limit: u64,
}

/// A tenant's connection to one platform.
#[derive(Debug, PartialEq, Eq)]
pub struct Connection {
    pub id: String,
    pub platform: String,
    pub platform_version: String,
    pub connection_definition_id: String,
    pub connection_type: ConnectionType,
    pub key: String,
    pub group: String,
    pub name: Option<String>,
    pub identity: Option<String>,
    pub identity_type: Option<String>,
    pub environment: Environment,
    pub secrets_service_id: String,
    pub ownership_id: String,
    pub throughput: Throughput,
    pub settings: crate::json::JsonValue,
    pub active: bool,
}

/// What a request asks the gateway to do.
#[derive(Debug, Clone, PartialEq, Eq)]
pub enum Action {
    Unified { name: String, action: CrudAction, id: Option<String>, passthrough: bool },
    Passthrough { method: HttpMethod, path: String, id: Option<String> },
}

/// The cache key of a resolved call: platform, action, connection.
#[derive(Debug, Clone, PartialEq, Eq)]
pub struct Destination {
    pub platform: String,
    pub connection_key: String,
    pub action: Action,
}

} // verus!
