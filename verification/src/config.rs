//! The configuration resolver: the port, the data directory and the
//! environment that the service process is started with.
//!
//! Creating the data directory is the host's part. A directory that cannot be
//! created does not stop the launch: the host reports
//! `SupervisorError::DataDirNotCreated` and goes on, and the service fails
//! loudly when it opens its database.

use vstd::prelude::*;
use vstd::string::*;
use crate::error::SupervisorError;
use crate::text::{decimal, decimal_digits};

verus! {

/// The port that the service listens on.
pub const PORT: u16 = 3947;

/// One environment variable of the overlay.
#[derive(Debug, PartialEq, Eq)]
pub struct EnvVar {
    pub key: String,
    pub value: String,
}

/// The environment that a list of variables stands for: each variable set in
/// turn, a later one replacing an earlier one of the same name.
pub open spec fn overlay_of(vars: Seq<EnvVar>) -> Map<Seq<char>, Seq<char>>
    decreases vars.len(),
{
    if vars.len() == 0 {
        Map::empty()
    } else {
        overlay_of(vars.drop_last()).insert(vars.last().key@, vars.last().value@)
    }
}

/// The database location inside the data directory `dir`.
pub open spec fn database_url_text(dir: Seq<char>) -> Seq<char> {
    "file:"@ + dir + "/handai.db"@
}

/// The environment overlay of the service: the port in decimal, the loopback
/// host name, the production mode, and the database location.
pub open spec fn service_environment(port: u16, dir: Seq<char>) -> Map<Seq<char>, Seq<char>> {
    Map::empty().insert("PORT"@, decimal_digits(port as nat)).insert(
        "HOSTNAME"@,
        "127.0.0.1"@,
    ).insert("NODE_ENV"@, "production"@).insert("DATABASE_URL"@, database_url_text(dir))
}

/// The configuration as a mathematical value.
pub struct ServerConfigView {
    pub port: u16,
    pub data_dir: Seq<char>,
    pub env: Map<Seq<char>, Seq<char>>,
}

/// The configuration for `port` and the data directory `dir`.
pub open spec fn resolved_config(port: u16, dir: Seq<char>) -> ServerConfigView {
    ServerConfigView { port, data_dir: dir, env: service_environment(port, dir) }
}

/// The configuration of the service. It is built once, by `resolve`, and
/// never changes.
#[derive(Debug)]
pub struct ServerConfig {
    port: u16,
    data_dir: String,
    env: Vec<EnvVar>,
}

impl View for ServerConfig {
    type V = ServerConfigView;

    closed spec fn view(&self) -> ServerConfigView {
        ServerConfigView { port: self.port, data_dir: self.data_dir@, env: overlay_of(self.env@) }
    }
}

/// The database location inside the data directory `dir`.
pub fn database_url(dir: &str) -> (url: String)
    ensures
        url@ == database_url_text(dir@),
{
    let mut url = String::from_str("file:");
    url.append(dir);
    url.append("/handai.db");
    url
}

/// Takes the result of creating the data directory. A failure is handed back
/// to be logged; it is never fatal, so the launch goes on either way.
pub fn after_create_dir(created: bool) -> (report: Option<SupervisorError>)
    ensures
        created ==> report is None,
        !created ==> report == Some(SupervisorError::DataDirNotCreated),
        report matches Some(error) ==> !error.fatal(),
{
    if created {
        None
    } else {
        Some(SupervisorError::DataDirNotCreated)
    }
}

fn env_var(key: &str, value: String) -> (var: EnvVar)
    ensures
        var.key@ == key@,
        var.value@ == value@,
{
    EnvVar { key: String::from_str(key), value }
}

impl ServerConfig {
    /// Resolves the configuration from the port and the application data
    /// directory that the platform offers. Without a directory there is no
    /// place for the database, and the result is `DataDirUnavailable`.
    pub fn resolve(port: u16, data_dir: Option<String>) -> (config: Result<Self, SupervisorError>)
        ensures
            data_dir is None ==> config == Err::<Self, SupervisorError>(
                SupervisorError::DataDirUnavailable,
            ),
            data_dir matches Some(dir) ==> config is Ok && config->Ok_0@ == resolved_config(
                port,
                dir@,
            ),
    {
        match data_dir {
            None => Err(SupervisorError::DataDirUnavailable),
            Some(dir) => {
                let mut env: Vec<EnvVar> = Vec::new();
                env.push(env_var("PORT", decimal(port as u64)));
                env.push(env_var("HOSTNAME", String::from_str("127.0.0.1")));
                env.push(env_var("NODE_ENV", String::from_str("production")));
                env.push(env_var("DATABASE_URL", database_url(dir.as_str())));
                proof {
                    let vars = env@;
                    assert(vars.drop_last().drop_last().drop_last().drop_last() =~= Seq::<
                        EnvVar,
                    >::empty());
                    reveal_with_fuel(overlay_of, 5);
                    assert(overlay_of(vars) == service_environment(port, dir@));
                }
                Ok(ServerConfig { port, data_dir: dir, env })
            },
        }
    }

    /// The port that the service listens on.
    pub fn port(&self) -> (port: u16)
        ensures
            port == self@.port,
    {
        self.port
    }

    /// The data directory.
    pub fn data_dir(&self) -> (dir: &str)
        ensures
            dir@ == self@.data_dir,
    {
        self.data_dir.as_str()
    }

    /// The environment overlay, as the list of variables to set in turn.
    pub fn env(&self) -> (vars: &Vec<EnvVar>)
        ensures
            overlay_of(vars@) == self@.env,
    {
        &self.env
    }
}

/// The overlay sets exactly four variables, and each has the value that the
/// service reads it for.
pub proof fn lemma_service_environment_entries(port: u16, dir: Seq<char>)
    ensures
        service_environment(port, dir).dom() =~= set![
            "PORT"@,
            "HOSTNAME"@,
            "NODE_ENV"@,
            "DATABASE_URL"@,
        ],
        service_environment(port, dir)["PORT"@] == decimal_digits(port as nat),
        service_environment(port, dir)["HOSTNAME"@] == "127.0.0.1"@,
        service_environment(port, dir)["NODE_ENV"@] == "production"@,
        service_environment(port, dir)["DATABASE_URL"@] == database_url_text(dir),
{
    reveal_strlit("PORT");
    reveal_strlit("HOSTNAME");
    reveal_strlit("NODE_ENV");
    reveal_strlit("DATABASE_URL");
    assert("PORT"@.len() == 4);
    assert("HOSTNAME"@.len() == 8);
    assert("NODE_ENV"@.len() == 8);
    assert("DATABASE_URL"@.len() == 12);
    assert("HOSTNAME"@[0] == 'H');
    assert("NODE_ENV"@[0] == 'N');
}

} // verus!
