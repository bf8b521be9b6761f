//! Connection lifecycle rules: validating and assembling a new connection
//! record, merging an update, the vault listing shape, and the
//! provisioning plan a SQL connection triggers.
use crate::config::Environment;
use crate::crud::{opt_view, pairs_view};
use crate::error::{opt_str_view, pview, ApplicationError, ApplicationKind, ErrView, PicaError};
use crate::json::{jview, JsonValue, Jv};
use crate::keys::{connection_key_view, key_suffix_view, make_connection_key, make_key_suffix};
use crate::model::{Connection, ConnectionType, Throughput};
use crate::strutil::replace2_view;
use vstd::prelude::*;
use vstd::string::{StrSliceExecFns, StringExecFns};

verus! {

/// What a client sends to create a connection.
#[derive(Debug, Clone, PartialEq, Eq)]
pub struct CreateConnectionPayload {
    pub connection_definition_id: String,
    pub auth_form_data: Vec<(String, String)>,
    pub active: bool,
    pub identity: Option<String>,
    pub identity_type: Option<String>,
    pub group: Option<String>,
    pub name: Option<String>,
}

/// What a client sends to update a connection.
#[derive(Debug, PartialEq, Eq)]
pub struct UpdateConnectionPayload {
    pub settings: Option<JsonValue>,
    pub throughput: Option<Throughput>,
    pub auth_form_data: Option<Vec<(String, String)>>,
    pub active: Option<bool>,
    pub identity: Option<String>,
    pub identity_type: Option<String>,
}

/// The group a new connection joins: the requested one, or the fresh
/// token.
pub open spec fn chosen_group(group: Option<Seq<char>>, token: Seq<char>) -> Seq<char> {
    match group {
        Option::Some(g) => g,
        Option::None => token,
    }
}

/// The identity a new connection carries: the requested one, or its
/// group.
pub open spec fn chosen_identity(
    identity: Option<Seq<char>>,
    group: Seq<char>,
) -> Seq<char> {
    match identity {
        Option::Some(i) => i,
        Option::None => group,
    }
}

/// Assembles a new connection record. Its key is
/// `{env}::{platform}::default::{suffix}`, where the suffix is the fresh
/// token alone when no identity was chosen, and otherwise the token and
/// the sanitized identity joined by `|`; the throughput budget is keyed
/// by the same text, and the secret reference is carried as given.
pub fn build_connection_record(
    connection_id: String,
    token: String,
    payload: CreateConnectionPayload,
    platform: String,
    platform_version: String,
    connection_type: ConnectionType,
    environment: Environment,
    secrets_service_id: String,
    ownership_id: String,
    throughput_limit: u64,
    settings: JsonValue,
) -> (r: Connection)
    ensures
        ({
            let group = chosen_group(opt_str_view(payload.group), token@);
            let identity = chosen_identity(opt_str_view(payload.identity), group);
            &&& r.key@ == connection_key_view(
                match environment {
                    Environment::Development => "development"@,
                    Environment::Production => "production"@,
                },
                platform@,
                "default"@,
                key_suffix_view(token@, identity),
            )
            &&& r.id@ == connection_id@
            &&& r.platform@ == platform@
            &&& r.platform_version@ == platform_version@
            &&& r.connection_definition_id@ == payload.connection_definition_id@
            &&& r.connection_type == connection_type
            &&& r.group@ == group
            &&& r.identity matches Option::Some(i) && i@ == identity
            &&& opt_str_view(r.identity_type) == opt_str_view(payload.identity_type)
            &&& opt_str_view(r.name) == opt_str_view(payload.name)
            &&& r.environment == environment
            &&& r.secrets_service_id@ == secrets_service_id@
            &&& r.ownership_id@ == ownership_id@
            &&& r.throughput.key@ == r.key@
            &&& r.throughput.limit == throughput_limit
            &&& jview(r.settings) == jview(settings)
            &&& r.active == true
        }),
{
    let group = match payload.group {
        Option::Some(g) => g,
        Option::None => token.clone(),
    };
    let identity = match payload.identity {
        Option::Some(i) => i,
        Option::None => group.clone(),
    };
    let suffix = make_key_suffix(&token, &identity);
    let key = make_connection_key(environment.as_str(), platform.as_str(), "default",
        suffix.as_str());
    let throughput = Throughput { key: key.clone(), limit: throughput_limit };
    Connection {
        id: connection_id,
        platform,
        platform_version,
        connection_definition_id: payload.connection_definition_id,
        connection_type,
        key,
        group,
        name: payload.name,
        identity: Option::Some(identity),
        identity_type: payload.identity_type,
        environment,
        secrets_service_id,
        ownership_id,
        throughput,
        settings,
        active: true,
    }
}

/// Whether the caller may touch this connection: same owner, same
/// environment; anything else is forbidden.
pub fn check_access(conn: &Connection, ownership_id: &str, environment: Environment) -> (r:
    Result<(), PicaError>)
    ensures
        match r {
            Result::Ok(_) => conn.ownership_id@ == ownership_id@ && conn.environment
                == environment,
            Result::Err(e) => (conn.ownership_id@ != ownership_id@ || conn.environment
                != environment) && pview(e) == (ErrView::App {
                kind: ApplicationKind::Forbidden,
                message: "You do not have permission to update this connection"@,
                subtype: Option::None,
                meta: Option::None,
            }),
        },
{
    let same_owner = crate::cache::str_eq(conn.ownership_id.as_str(), ownership_id);
    let same_env = match (conn.environment, environment) {
        (Environment::Development, Environment::Development) => true,
        (Environment::Production, Environment::Production) => true,
        _ => false,
    };
    if same_owner && same_env {
        Result::Ok(())
    } else {
        Result::Err(
            ApplicationError::forbidden(
                "You do not have permission to update this connection",
                Option::None,
            ),
        )
    }
}

/// Rotating credentials is refused for a SQL connection.
pub fn check_auth_rotation(connection_type: ConnectionType) -> (r: Result<(), PicaError>)
    ensures
        match r {
            Result::Ok(_) => !(connection_type is DatabaseSql),
            Result::Err(e) => connection_type is DatabaseSql && pview(e) == (ErrView::App {
                kind: ApplicationKind::BadRequest,
                message: "Unsupported platform for SQL connection"@,
                subtype: Option::None,
                meta: Option::None,
            }),
        },
{
    match connection_type {
        ConnectionType::DatabaseSql => Result::Err(
            ApplicationError::bad_request("Unsupported platform for SQL connection", Option::None),
        ),
        _ => Result::Ok(()),
    }
}

/// Merges an update into a connection: each given field replaces the old
/// one, a rotated secret replaces the secret reference, and everything
/// else stays.
pub fn apply_connection_update(
    conn: Connection,
    update: UpdateConnectionPayload,
    new_secret_id: Option<String>,
) -> (r: Connection)
    ensures
        r.id@ == conn.id@,
        r.key@ == conn.key@,
        jview(r.settings) == (match update.settings {
            Option::Some(s) => jview(s),
            Option::None => jview(conn.settings),
        }),
        (match update.throughput {
            Option::Some(t) => r.throughput.key@ == t.key@ && r.throughput.limit == t.limit,
            Option::None => r.throughput.key@ == conn.throughput.key@ && r.throughput.limit
                == conn.throughput.limit,
        }),
        opt_str_view(r.identity) == (match update.identity {
            Option::Some(i) => Option::Some(i@),
            Option::None => opt_str_view(conn.identity),
        }),
        opt_str_view(r.identity_type) == (match update.identity_type {
            Option::Some(t) => Option::Some(t@),
            Option::None => opt_str_view(conn.identity_type),
        }),
        r.secrets_service_id@ == (match new_secret_id {
            Option::Some(s) => s@,
            Option::None => conn.secrets_service_id@,
        }),
        r.active == (match update.active {
            Option::Some(a) => a,
            Option::None => conn.active,
        }),
{
    let mut conn = conn;
    match update.settings {
        Option::Some(s) => {
            conn.settings = s;
        },
        Option::None => {},
    }
    match update.throughput {
        Option::Some(t) => {
            conn.throughput = t;
        },
        Option::None => {},
    }
    match update.identity {
        Option::Some(i) => {
            conn.identity = Option::Some(i);
        },
        Option::None => {},
    }
    match update.identity_type {
        Option::Some(t) => {
            conn.identity_type = Option::Some(t);
        },
        Option::None => {},
    }
    match new_secret_id {
        Option::Some(s) => {
            conn.secrets_service_id = s;
        },
        Option::None => {},
    }
    match update.active {
        Option::Some(a) => {
            conn.active = a;
        },
        Option::None => {},
    }
    conn
}

/// A connection as the vault listing shows it.
#[derive(Debug, Clone, PartialEq, Eq)]
pub struct VaultConnection {
    pub id: String,
    pub platform_version: String,
    pub name: Option<String>,
    pub connection_type: ConnectionType,
    pub key: String,
    pub environment: Environment,
    pub platform: String,
    pub identity: Option<String>,
    pub identity_type: Option<String>,
    pub description: String,
}

/// The vault's view of a connection and its definition's description.
pub fn to_vault_connection(conn: Connection, description: String) -> (r: VaultConnection)
    ensures
        r.id@ == conn.id@,
        r.platform_version@ == conn.platform_version@,
        opt_str_view(r.name) == opt_str_view(conn.name),
        r.connection_type == conn.connection_type,
        r.key@ == conn.key@,
        r.environment == conn.environment,
        r.platform@ == conn.platform@,
        opt_str_view(r.identity) == opt_str_view(conn.identity),
        opt_str_view(r.identity_type) == opt_str_view(conn.identity_type),
        r.description@ == description@,
{
    VaultConnection {
        id: conn.id,
        platform_version: conn.platform_version,
        name: conn.name,
        connection_type: conn.connection_type,
        key: conn.key,
        environment: conn.environment,
        platform: conn.platform,
        identity: conn.identity,
        identity_type: conn.identity_type,
        description,
    }
}

/// The secret payload stored for a provisioned SQL connection.
#[derive(Debug, Clone, PartialEq, Eq)]
pub struct DatabaseConnectionSecret {
    pub service_name: String,
    pub namespace: String,
    pub connection_id: String,
    pub postgres_config: Vec<(String, String)>,
}

/// The service a SQL connection's side-car is reached through.
#[derive(Debug, Clone, PartialEq, Eq)]
pub struct ServiceSpecModel {
    pub name: String,
    pub namespace: String,
    pub service_type: String,
    pub port: u16,
    pub target_port: u16,
    pub labels: Vec<(String, String)>,
}

/// The deployment that runs a SQL connection's side-car.
#[derive(Debug, Clone, PartialEq, Eq)]
pub struct DeploymentSpecModel {
    pub name: String,
    pub namespace: String,
    pub image: String,
    pub replicas: u32,
    pub container_port: u16,
    pub env: Vec<(String, String)>,
    pub jwt_secret_ref_name: String,
    pub jwt_secret_ref_key: String,
    pub labels: Vec<(String, String)>,
}

/// The deterministic service name a connection id yields: a `db-` prefix
/// and the id with `:` and `_` rewritten to `-`.
pub open spec fn service_name_view(id: Seq<char>) -> Seq<char> {
    "db-"@ + replace2_view(id, ':', '_', '-')
}

/// What provisioning a connection yields.
#[derive(Debug, PartialEq, Eq)]
pub enum ProvisionPlan {
    Plain,
    Database(DatabaseConnectionSecret, ServiceSpecModel, DeploymentSpecModel),
}

/// Plans the provisioning of a new connection. Only a SQL connection
/// provisions anything: a deterministic service name from the connection
/// id; a secret of the service name, namespace, connection id and
/// database configuration; a cluster-internal service from port 80 to
/// the side-car's 5005; and a single-replica deployment whose
/// environment holds every side-car setting plus a `JWT_SECRET` drawn
/// from the named cluster secret. Everything else stores the credentials
/// as given and provisions nothing.
pub fn plan_provisioning(
    connection_type: ConnectionType,
    connection_id: &str,
    namespace: &str,
    platform: &str,
    image: &str,
    pod_env: Vec<(String, String)>,
    auth_form_data: Vec<(String, String)>,
    jwt_secret_ref_name: &str,
    jwt_secret_ref_key: &str,
) -> (r: ProvisionPlan)
    ensures
        !(connection_type is DatabaseSql) ==> r is Plain,
        connection_type is DatabaseSql ==> (match r {
            ProvisionPlan::Database(secret, service, deployment) => {
                &&& secret.service_name@ == service_name_view(connection_id@)
                &&& secret.namespace@ == namespace@
                &&& secret.connection_id@ == connection_id@
                &&& pairs_view(secret.postgres_config@) == pairs_view(auth_form_data@)
                &&& service.name@ == service_name_view(connection_id@)
                &&& service.namespace@ == namespace@
                &&& service.service_type@ == "ClusterIP"@
                &&& service.port == 80
                &&& service.target_port == 5005
                &&& pairs_view(service.labels@) == seq![
                    ("app"@, service_name_view(connection_id@)),
                    ("database-type"@, platform@),
                ]
                &&& deployment.name@ == service_name_view(connection_id@)
                &&& deployment.namespace@ == namespace@
                &&& deployment.image@ == image@
                &&& deployment.replicas == 1
                &&& deployment.container_port == 5005
                &&& pairs_view(deployment.env@) == pairs_view(pod_env@)
                &&& deployment.jwt_secret_ref_name@ == jwt_secret_ref_name@
                &&& deployment.jwt_secret_ref_key@ == jwt_secret_ref_key@
                &&& pairs_view(deployment.labels@) == pairs_view(service.labels@)
            },
            ProvisionPlan::Plain => false,
        }),
{
    match connection_type {
        ConnectionType::DatabaseSql => {
            let mut service_name = String::from_str("db-");
            let rewritten = crate::strutil::replace2(connection_id, ':', '_', '-');
            service_name.append(rewritten.as_str());
            let mut labels: Vec<(String, String)> = Vec::new();
            labels.push((String::from_str("app"), service_name.clone()));
            labels.push((String::from_str("database-type"), platform.to_owned()));
            let mut dep_labels: Vec<(String, String)> = Vec::new();
            dep_labels.push((String::from_str("app"), service_name.clone()));
            dep_labels.push((String::from_str("database-type"), platform.to_owned()));
            let secret = DatabaseConnectionSecret {
                service_name: service_name.clone(),
                namespace: namespace.to_owned(),
                connection_id: connection_id.to_owned(),
                postgres_config: auth_form_data,
            };
            let service = ServiceSpecModel {
                name: service_name.clone(),
                namespace: namespace.to_owned(),
                service_type: String::from_str("ClusterIP"),
                port: 80,
                target_port: 5005,
                labels,
            };
            let deployment = DeploymentSpecModel {
                name: service_name,
                namespace: namespace.to_owned(),
                image: image.to_owned(),
                replicas: 1,
                container_port: 5005,
                env: pod_env,
                jwt_secret_ref_name: jwt_secret_ref_name.to_owned(),
                jwt_secret_ref_key: jwt_secret_ref_key.to_owned(),
                labels: dep_labels,
            };
            proof {
                assert(pairs_view(service.labels@) =~~= seq![
                    ("app"@, service_name_view(connection_id@)),
                    ("database-type"@, platform@),
                ]);
                assert(pairs_view(deployment.labels@) =~~= pairs_view(service.labels@));
            }
            ProvisionPlan::Database(secret, service, deployment)
        },
        _ => ProvisionPlan::Plain,
    }
}

/// The text of the missing-definition error for a definition id.
pub open spec fn missing_definition_message(definition_id: Seq<char>) -> Seq<char> {
    "Connection definition with id "@ + definition_id + " not found"@
}

/// The outcome of fetching the connection definition a creation names:
/// a found record passes through, a missing one is a not-found
/// application error naming the id, and a store failure passes through
/// unchanged.
pub fn require_connection_definition<T>(
    found: Result<Option<T>, PicaError>,
    definition_id: &str,
) -> (r: Result<T, PicaError>)
    ensures
        match r {
            Result::Ok(v) => found matches Result::Ok(o) && o matches Option::Some(w) && v == w,
            Result::Err(e) => match found {
                Result::Ok(o) => o is None && pview(e) == (ErrView::App {
                    kind: ApplicationKind::NotFound,
                    message: missing_definition_message(definition_id@),
                    subtype: Option::None,
                    meta: Option::None,
                }),
                Result::Err(orig) => pview(e) == pview(orig),
            },
        },
{
    match found {
        Result::Ok(Option::Some(v)) => Result::Ok(v),
        Result::Ok(Option::None) => {
            let mut msg = String::from_str("Connection definition with id ");
            msg.append(definition_id);
            msg.append(" not found");
            Result::Err(ApplicationError::not_found(msg.as_str(), Option::None))
        },
        Result::Err(orig) => Result::Err(orig),
    }
}

/// What a failed connection test triggers during creation: the
/// provisioned service and deployment — when there are any — must be
/// deleted, and the creation fails as a bad request around the probe's
/// error text.
pub fn handle_test_connection_failure(provisioned: bool, error_text: &str) -> (r: (
    bool,
    PicaError,
))
    ensures
        r.0 == provisioned,
        pview(r.1) == (ErrView::App {
            kind: ApplicationKind::BadRequest,
            message: "Invalid connection credentials: "@ + error_text@,
            subtype: Option::None,
            meta: Option::None,
        }),
{
    let mut msg = String::from_str("Invalid connection credentials: ");
    msg.append(error_text);
    (provisioned, ApplicationError::bad_request(msg.as_str(), Option::None))
}

/// What a connection test concludes from what the probe showed: no
/// configured probe passes; a configured probe fails exactly when its
/// model definition is missing, its call never completed, or the call
/// came back with a non-success status.
pub fn evaluate_test_connection(
    probe_configured: bool,
    probe_found: bool,
    response_status: Option<u16>,
) -> (r: Result<(), PicaError>)
    ensures
        match r {
            Result::Ok(_) => !probe_configured || (probe_found && (match response_status {
                Option::Some(st) => 200 <= st < 300,
                Option::None => false,
            })),
            Result::Err(e) => probe_configured && (if !probe_found {
                pview(e) == (ErrView::Int {
                    kind: crate::error::InternalKind::KeyNotFound,
                    message: "Test connection model config not found"@,
                    subtype: Option::None,
                    meta: Option::None,
                })
            } else {
                match response_status {
                    Option::None => pview(e) == (ErrView::Int {
                        kind: crate::error::InternalKind::ConnectionError,
                        message: "Test connection failed to execute"@,
                        subtype: Option::None,
                        meta: Option::None,
                    }),
                    Option::Some(st) => !(200 <= st < 300) && pview(e) == (ErrView::Int {
                        kind: crate::error::InternalKind::ConnectionError,
                        message: "Test connections failed: "@ + crate::strutil::decimal_rep(
                            st as nat,
                        ),
                        subtype: Option::None,
                        meta: Option::None,
                    }),
                }
            }),
        },
{
    if !probe_configured {
        return Result::Ok(());
    }
    if !probe_found {
        return Result::Err(
            crate::error::InternalError::key_not_found(
                "Test connection model config not found",
                Option::None,
            ),
        );
    }
    match response_status {
        Option::None => Result::Err(
            crate::error::InternalError::connection_error(
                "Test connection failed to execute",
                Option::None,
            ),
        ),
        Option::Some(st) => {
            if 200 <= st && st < 300 {
                Result::Ok(())
            } else {
                let mut msg = String::from_str("Test connections failed: ");
                let digits = crate::strutil::to_decimal(st as u64);
                msg.append(digits.as_str());
                Result::Err(
                    crate::error::InternalError::connection_error(msg.as_str(), Option::None),
                )
            }
        },
    }
}

} // verus!
