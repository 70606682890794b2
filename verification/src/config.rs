//! The services' configurations, read from the environment. Each loader
//! reads its variables in order and stops at the first one that is missing
//! or malformed.
#![allow(non_snake_case)]
use crate::b64::b64u_bytes;
use crate::envs::{
    env_lookup, get_env, get_env_b64u_as_u8s, get_env_parse, spec_get_env, spec_get_env_b64u,
    spec_get_env_i64, spec_parse_i64, EnvError, EnvErrorV, EnvVars,
};
use vstd::prelude::*;

verus! {

/// Keys of the authentication library.
pub struct AuthConfig {
    /// Key of the password hashing schemes.
    pub PWD_KEY: Vec<u8>,
    /// Key of the web tokens.
    pub TOKEN_KEY: Vec<u8>,
    /// Lifetime of a web token, in seconds.
    pub TOKEN_DURATION_SEC: i64,
}

/// What loading the authentication configuration gives.
pub open spec fn spec_auth_config(env: Seq<(Seq<char>, Seq<char>)>) -> Result<(Seq<u8>, Seq<u8>, int), EnvErrorV> {
    match spec_get_env_b64u(env, "SERVICE_PWD_KEY"@) {
        Err(e) => Err(e),
        Ok(pwd_key) => match spec_get_env_b64u(env, "SERVICE_TOKEN_KEY"@) {
            Err(e) => Err(e),
            Ok(token_key) => match spec_get_env_i64(env, "SERVICE_TOKEN_DURATION_SEC"@) {
                Err(e) => Err(e),
                Ok(d) => Ok((pwd_key, token_key, d)),
            },
        },
    }
}

/// Whether the three variables of the authentication configuration are set
/// and well formed: both keys base64url, the token lifetime an `i64`.
pub open spec fn auth_vars_present_and_well_formed(env: Seq<(Seq<char>, Seq<char>)>) -> bool {
    &&& env_lookup(env, "SERVICE_PWD_KEY"@) is Some
    &&& b64u_bytes(env_lookup(env, "SERVICE_PWD_KEY"@).unwrap()) is Some
    &&& env_lookup(env, "SERVICE_TOKEN_KEY"@) is Some
    &&& b64u_bytes(env_lookup(env, "SERVICE_TOKEN_KEY"@).unwrap()) is Some
    &&& env_lookup(env, "SERVICE_TOKEN_DURATION_SEC"@) is Some
    &&& spec_parse_i64(env_lookup(env, "SERVICE_TOKEN_DURATION_SEC"@).unwrap()) is Some
}

/// Loading the authentication configuration succeeds exactly when every
/// variable it reads is set and well formed, and then each field is what
/// its variable says; no value is ever made up. With the keys well formed
/// and no token lifetime set, the error names that variable.
pub proof fn lemma_auth_config_reads_every_variable(env: Seq<(Seq<char>, Seq<char>)>)
    ensures
        spec_auth_config(env) is Ok <==> auth_vars_present_and_well_formed(env),
        spec_auth_config(env) matches Ok((p, t, d)) ==> p == b64u_bytes(env_lookup(env, "SERVICE_PWD_KEY"@).unwrap()).unwrap()
            && t == b64u_bytes(env_lookup(env, "SERVICE_TOKEN_KEY"@).unwrap()).unwrap()
            && d == spec_parse_i64(env_lookup(env, "SERVICE_TOKEN_DURATION_SEC"@).unwrap()).unwrap(),
        spec_get_env_b64u(env, "SERVICE_PWD_KEY"@) is Ok && spec_get_env_b64u(env, "SERVICE_TOKEN_KEY"@) is Ok
            && env_lookup(env, "SERVICE_TOKEN_DURATION_SEC"@) is None
            ==> spec_auth_config(env) == Err::<(Seq<u8>, Seq<u8>, int), EnvErrorV>(EnvErrorV::MissingEnv("SERVICE_TOKEN_DURATION_SEC"@)),
{
}

impl AuthConfig {
    /// Reads `SERVICE_PWD_KEY` and `SERVICE_TOKEN_KEY` (base64url) and
    /// `SERVICE_TOKEN_DURATION_SEC` (an `i64`).
    pub fn load_from_env(env: &EnvVars) -> (res: Result<AuthConfig, EnvError>)
        ensures
            match spec_auth_config(env@) {
                Ok((p, t, d)) => (res matches Ok(c) && c.PWD_KEY@ == p && c.TOKEN_KEY@ == t && c.TOKEN_DURATION_SEC == d),
                Err(e) => (res matches Err(r) && r@ == e),
            },
            res is Ok <==> auth_vars_present_and_well_formed(env@),
            res matches Ok(c) ==> env_lookup(env@, "SERVICE_TOKEN_DURATION_SEC"@) is Some
                && spec_parse_i64(env_lookup(env@, "SERVICE_TOKEN_DURATION_SEC"@).unwrap()) == Some(c.TOKEN_DURATION_SEC as int)
                && b64u_bytes(env_lookup(env@, "SERVICE_PWD_KEY"@).unwrap()) == Some(c.PWD_KEY@)
                && b64u_bytes(env_lookup(env@, "SERVICE_TOKEN_KEY"@).unwrap()) == Some(c.TOKEN_KEY@),
    {
        proof { lemma_auth_config_reads_every_variable(env@); }
        let pwd_key = get_env_b64u_as_u8s(env, "SERVICE_PWD_KEY")?;
        let token_key = get_env_b64u_as_u8s(env, "SERVICE_TOKEN_KEY")?;
        let duration = get_env_parse(env, "SERVICE_TOKEN_DURATION_SEC")?;
        Ok(AuthConfig { PWD_KEY: pwd_key, TOKEN_KEY: token_key, TOKEN_DURATION_SEC: duration })
    }
}

/// The address of the Kafka brokers for consumers.
pub struct ConsumeConfig {
    pub KAFKA_BOOTSTRAP_SERVERS: String,
}

impl ConsumeConfig {
    /// Reads `KAFKA_BOOTSTRAP_SERVERS`.
    pub fn load_from_env(env: &EnvVars) -> (res: Result<ConsumeConfig, EnvError>)
        ensures
            match spec_get_env(env@, "KAFKA_BOOTSTRAP_SERVERS"@) {
                Ok(v) => (res matches Ok(c) && c.KAFKA_BOOTSTRAP_SERVERS@ == v),
                Err(e) => (res matches Err(r) && r@ == e),
            },
    {
        Ok(ConsumeConfig { KAFKA_BOOTSTRAP_SERVERS: get_env(env, "KAFKA_BOOTSTRAP_SERVERS")? })
    }
}

/// The address of the Kafka brokers for producers.
pub struct ProducerConfig {
    pub KAFKA_BOOTSTRAP_SERVERS: String,
}

impl ProducerConfig {
    /// Reads `KAFKA_BOOTSTRAP_SERVERS`.
    pub fn load_from_env(env: &EnvVars) -> (res: Result<ProducerConfig, EnvError>)
        ensures
            match spec_get_env(env@, "KAFKA_BOOTSTRAP_SERVERS"@) {
                Ok(v) => (res matches Ok(c) && c.KAFKA_BOOTSTRAP_SERVERS@ == v),
                Err(e) => (res matches Err(r) && r@ == e),
            },
    {
        Ok(ProducerConfig { KAFKA_BOOTSTRAP_SERVERS: get_env(env, "KAFKA_BOOTSTRAP_SERVERS")? })
    }
}

/// The address the server-sent-events service listens on.
pub struct SseConfig {
    pub SSE_SERVER_URL: String,
}

impl SseConfig {
    /// Reads `SERVICE_SSE_SERVER_URL`.
    pub fn load_from_env(env: &EnvVars) -> (res: Result<SseConfig, EnvError>)
        ensures
            match spec_get_env(env@, "SERVICE_SSE_SERVER_URL"@) {
                Ok(v) => (res matches Ok(c) && c.SSE_SERVER_URL@ == v),
                Err(e) => (res matches Err(r) && r@ == e),
            },
    {
        Ok(SseConfig { SSE_SERVER_URL: get_env(env, "SERVICE_SSE_SERVER_URL")? })
    }
}

/// The configuration of the web server.
pub struct WebConfig {
    pub SERVICE_WEB_SERVER_URL: String,
    pub WEB_FOLDER: String,
}

/// What loading the web server configuration gives.
pub open spec fn spec_web_config(env: Seq<(Seq<char>, Seq<char>)>) -> Result<(Seq<char>, Seq<char>), EnvErrorV> {
    match spec_get_env(env, "SERVICE_WEB_SERVER_URL"@) {
        Err(e) => Err(e),
        Ok(url) => match spec_get_env(env, "SERVICE_WEB_FOLDER"@) {
            Err(e) => Err(e),
            Ok(folder) => Ok((url, folder)),
        },
    }
}

/// Loading the web server configuration succeeds exactly when both of its
/// variables are set, and then each field is its variable's value.
pub proof fn lemma_web_config_reads_every_variable(env: Seq<(Seq<char>, Seq<char>)>)
    ensures
        spec_web_config(env) is Ok <==> env_lookup(env, "SERVICE_WEB_SERVER_URL"@) is Some
            && env_lookup(env, "SERVICE_WEB_FOLDER"@) is Some,
        spec_web_config(env) matches Ok((u, f)) ==> Some(u) == env_lookup(env, "SERVICE_WEB_SERVER_URL"@)
            && Some(f) == env_lookup(env, "SERVICE_WEB_FOLDER"@),
{
}

impl WebConfig {
    /// Reads `SERVICE_WEB_SERVER_URL` and `SERVICE_WEB_FOLDER`.
    pub fn load_env_var(env: &EnvVars) -> (res: Result<WebConfig, EnvError>)
        ensures
            match spec_web_config(env@) {
                Ok((u, f)) => (res matches Ok(c) && c.SERVICE_WEB_SERVER_URL@ == u && c.WEB_FOLDER@ == f),
                Err(e) => (res matches Err(r) && r@ == e),
            },
            res is Ok <==> env_lookup(env@, "SERVICE_WEB_SERVER_URL"@) is Some
                && env_lookup(env@, "SERVICE_WEB_FOLDER"@) is Some,
            res matches Ok(c) ==> Some(c.SERVICE_WEB_SERVER_URL@) == env_lookup(env@, "SERVICE_WEB_SERVER_URL"@)
                && Some(c.WEB_FOLDER@) == env_lookup(env@, "SERVICE_WEB_FOLDER"@),
    {
        proof { lemma_web_config_reads_every_variable(env@); }
        let url = get_env(env, "SERVICE_WEB_SERVER_URL")?;
        let folder = get_env(env, "SERVICE_WEB_FOLDER")?;
        Ok(WebConfig { SERVICE_WEB_SERVER_URL: url, WEB_FOLDER: folder })
    }
}

/// The configuration of the model layer: databases and web folder.
pub struct CoreConfig {
    pub PSQL_DB_URL: String,
    pub PSQL_DB_URL_DEV: String,
    pub SCYLLA_DB_URL: String,
    pub SCYLLA_DB_USERNAME: String,
    pub SCYLLA_DB_PASSWORD: String,
    pub WEB_FOLDER: String,
}

/// The environment variables that the core configuration reads, in order.
pub open spec fn core_config_names() -> Seq<Seq<char>> {
    seq![
        "SERVICE_PG_DEV_APP_URL"@,
        "SERVICE_PG_DEV_POSTGRES_URL"@,
        "SERVICE_SCYLLA_DB_URL"@,
        "SERVICE_SCYLLA_DB_USER"@,
        "SERVICE_SCYLLA_DB_PASSWORD"@,
        "SERVICE_WEB_FOLDER"@,
    ]
}

/// Reading the variables `names` in order: their values, or the error of the
/// first one that is missing.
pub open spec fn spec_get_envs(env: Seq<(Seq<char>, Seq<char>)>, names: Seq<Seq<char>>) -> Result<Seq<Seq<char>>, EnvErrorV>
    decreases names.len(),
{
    if names.len() == 0 {
        Ok(Seq::empty())
    } else {
        match spec_get_env(env, names[0]) {
            Err(e) => Err(e),
            Ok(v) => match spec_get_envs(env, names.drop_first()) {
                Err(e) => Err(e),
                Ok(vs) => Ok(seq![v] + vs),
            },
        }
    }
}

/// Reading several variables succeeds exactly when every one of them is
/// set, and then gives their values in order.
pub proof fn lemma_get_envs_reads_every_variable(env: Seq<(Seq<char>, Seq<char>)>, names: Seq<Seq<char>>)
    ensures
        spec_get_envs(env, names) is Ok <==> forall|i: int| 0 <= i < names.len() ==> #[trigger] env_lookup(env, names[i]) is Some,
        spec_get_envs(env, names) matches Ok(vs) ==> vs.len() == names.len()
            && forall|i: int| 0 <= i < names.len() ==> Some(#[trigger] vs[i]) == env_lookup(env, names[i]),
    decreases names.len(),
{
    if names.len() > 0 {
        let tail = names.drop_first();
        lemma_get_envs_reads_every_variable(env, tail);
        assert forall|i: int| 1 <= i < names.len() implies names[i] == #[trigger] tail[i - 1] by {}
        let all = forall|i: int| 0 <= i < names.len() ==> #[trigger] env_lookup(env, names[i]) is Some;
        let all_tail = forall|i: int| 0 <= i < tail.len() ==> #[trigger] env_lookup(env, tail[i]) is Some;
        if env_lookup(env, names[0]) is Some && all_tail {
            assert forall|i: int| 0 <= i < names.len() implies #[trigger] env_lookup(env, names[i]) is Some by {
                if i > 0 {
                    assert(names[i] == tail[i - 1]);
                }
            }
            let vs = spec_get_envs(env, names)->Ok_0;
            let rest = spec_get_envs(env, tail)->Ok_0;
            assert forall|i: int| 0 <= i < names.len() implies Some(#[trigger] vs[i]) == env_lookup(env, names[i]) by {
                if i > 0 {
                    assert(vs[i] == rest[i - 1]);
                    assert(names[i] == tail[i - 1]);
                }
            }
        } else if env_lookup(env, names[0]) is Some {
            let k = choose|k: int| 0 <= k < tail.len() && !(#[trigger] env_lookup(env, tail[k]) is Some);
            assert(tail[k] == names[k + 1]);
            assert(!all);
        } else {
            assert(!all);
        }
    }
}

impl CoreConfig {
    /// The values of the configuration, in the order of its fields.
    pub open spec fn values(&self) -> Seq<Seq<char>> {
        seq![
            self.PSQL_DB_URL@,
            self.PSQL_DB_URL_DEV@,
            self.SCYLLA_DB_URL@,
            self.SCYLLA_DB_USERNAME@,
            self.SCYLLA_DB_PASSWORD@,
            self.WEB_FOLDER@,
        ]
    }

    /// Reads `SERVICE_PG_DEV_APP_URL`, `SERVICE_PG_DEV_POSTGRES_URL`,
    /// `SERVICE_SCYLLA_DB_URL`, `SERVICE_SCYLLA_DB_USER`,
    /// `SERVICE_SCYLLA_DB_PASSWORD` and `SERVICE_WEB_FOLDER`.
    pub fn load_from_env(env: &EnvVars) -> (res: Result<CoreConfig, EnvError>)
        ensures
            match spec_get_envs(env@, core_config_names()) {
                Ok(vs) => (res matches Ok(c) && c.values() == vs),
                Err(e) => (res matches Err(r) && r@ == e),
            },
            res is Ok <==> forall|i: int| 0 <= i < 6 ==> #[trigger] env_lookup(env@, core_config_names()[i]) is Some,
            res matches Ok(c) ==> forall|i: int| 0 <= i < 6 ==> Some(#[trigger] c.values()[i]) == env_lookup(env@, core_config_names()[i]),
    {
        let ghost names = core_config_names();
        proof {
            lemma_get_envs_reads_every_variable(env@, names);
            reveal_with_fuel(spec_get_envs, 7);
            assert(names.drop_first() =~= seq![names[1], names[2], names[3], names[4], names[5]]);
            assert(names.drop_first().drop_first() =~= seq![names[2], names[3], names[4], names[5]]);
            assert(names.drop_first().drop_first().drop_first() =~= seq![names[3], names[4], names[5]]);
            assert(names.drop_first().drop_first().drop_first().drop_first() =~= seq![names[4], names[5]]);
            assert(names.drop_first().drop_first().drop_first().drop_first().drop_first() =~= seq![names[5]]);
            assert(seq![names[5]].drop_first() =~= Seq::<Seq<char>>::empty());
        }
        let psql = get_env(env, "SERVICE_PG_DEV_APP_URL")?;
        let psql_dev = get_env(env, "SERVICE_PG_DEV_POSTGRES_URL")?;
        let scylla = get_env(env, "SERVICE_SCYLLA_DB_URL")?;
        let user = get_env(env, "SERVICE_SCYLLA_DB_USER")?;
        let pwd = get_env(env, "SERVICE_SCYLLA_DB_PASSWORD")?;
        let folder = get_env(env, "SERVICE_WEB_FOLDER")?;
        let c = CoreConfig {
            PSQL_DB_URL: psql,
            PSQL_DB_URL_DEV: psql_dev,
            SCYLLA_DB_URL: scylla,
            SCYLLA_DB_USERNAME: user,
            SCYLLA_DB_PASSWORD: pwd,
            WEB_FOLDER: folder,
        };
        assert(c.values() =~= seq![psql@, psql_dev@, scylla@, user@, pwd@, folder@]);
        Ok(c)
    }
}

} // verus!
