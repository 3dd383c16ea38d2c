//! Database connections: how their parameters are settled, and the client
//! that a connection holds once it is open.
//!
//! A parameter set by hand stands. One that was not set is taken from the
//! command line, then from the environment, then from the defaults of this
//! module.

use crate::cli::{given_value, matched, option_value, text_of};
use crate::text::{decimal, parse_port, port_of, to_decimal};
use vstd::prelude::*;

verus! {

/// The port of a database that names none.
pub const DEFAULT_DB_PORT: u16 = 5432;

/// The client of `postgres` for one open connection. It is carried, never
/// looked into.
#[verifier::external_type_specification]
#[verifier::external_body]
pub struct ExClient(postgres::Client);

/// The first of `set` and `found` that is there, or else `default`.
pub open spec fn settled(
    set: Option<Seq<char>>,
    found: Option<Seq<char>>,
    default: Seq<char>,
) -> Seq<char> {
    match set {
        Some(text) => text,
        None => match found {
            Some(text) => text,
            None => default,
        },
    }
}

/// `set` where it is there, or else `found`.
pub open spec fn preferred(set: Option<Seq<char>>, found: Option<Seq<char>>) -> Option<
    Seq<char>,
> {
    match set {
        Some(text) => Some(text),
        None => found,
    }
}

/// Why the parameters of a connection could not be settled.
#[derive(Debug, PartialEq, Eq)]
pub enum ConfigError {
    /// The text given for the port names no port.
    InvalidPort(String),
}

/// What the environment says about the database: the values of `PGHOST`,
/// `PGPORT`, `PGUSER` and `PGDATABASE`, each where it is set.
#[derive(Debug)]
pub struct ConnectionEnv {
    pub host: Option<String>,
    pub port: Option<String>,
    pub user: Option<String>,
    pub database: Option<String>,
}

/// The parameters collected so far, as the contracts see them.
pub struct BuilderModel {
    pub host: Option<Seq<char>>,
    pub port: Option<u16>,
    pub user: Option<Seq<char>>,
    pub database: Option<Seq<char>>,
    pub application: Option<Seq<char>>,
}

/// A connection as the contracts see it.
pub struct ConnectionModel {
    pub host: Seq<char>,
    pub port: u16,
    pub user: Seq<char>,
    pub database: Seq<char>,
    pub application: Option<Seq<char>>,
    /// The client, while the connection is open.
    pub client: Option<postgres::Client>,
}

impl ConnectionModel {
    /// The connection string: host, port, user and database, and the name
    /// of the application where one is set.
    pub open spec fn dsn(self) -> Seq<char> {
        "host="@ + self.host + " port="@ + decimal(self.port as nat) + " user="@ + self.user
            + " dbname="@ + self.database + match self.application {
            Some(name) => " application="@ + name,
            None => Seq::empty(),
        }
    }

    /// Whether the connection is open.
    pub open spec fn connected(self) -> bool {
        self.client is Some
    }

    /// The same parameters, and no client.
    pub open spec fn closed(self) -> ConnectionModel {
        ConnectionModel { client: None, ..self }
    }
}

impl BuilderModel {
    /// The parameters after the command line was heard: what was set
    /// stands, and what was not is taken from the options `db-host`,
    /// `db-port`, `db-user` and `db-name`. There are none where the port
    /// is to come from the command line and the text there names no port.
    pub open spec fn with_options(self, options: Map<Seq<char>, Seq<Option<Seq<char>>>>) -> Option<
        BuilderModel,
    > {
        let port = match self.port {
            Some(port) => Some(Some(port)),
            None => match option_value(options, "db-port"@) {
                Some(text) => match port_of(text) {
                    Some(port) => Some(Some(port)),
                    None => None,
                },
                None => Some(None),
            },
        };
        match port {
            Some(port) => Some(
                BuilderModel {
                    host: preferred(self.host, option_value(options, "db-host"@)),
                    port,
                    user: preferred(self.user, option_value(options, "db-user"@)),
                    database: preferred(self.database, option_value(options, "db-name"@)),
                    application: self.application,
                },
            ),
            None => None,
        }
    }

    /// The connection that the parameters make: what was set stands, what
    /// was not is taken from the environment, and what is not there either
    /// from the defaults. There is none where the port is to come from the
    /// environment and the text there names no port.
    pub open spec fn resolve(self, env: &ConnectionEnv) -> Option<ConnectionModel> {
        let port = match self.port {
            Some(port) => Some(port),
            None => match text_of(env.port) {
                Some(text) => port_of(text),
                None => Some(DEFAULT_DB_PORT),
            },
        };
        match port {
            Some(port) => Some(
                ConnectionModel {
                    host: settled(self.host, text_of(env.host), "localhost"@),
                    port,
                    user: settled(self.user, text_of(env.user), "evergreen"@),
                    database: settled(self.database, text_of(env.database), "evergreen"@),
                    application: self.application,
                    client: None,
                },
            ),
            None => None,
        }
    }
}

/// Collects the parameters of a connection.
pub struct DatabaseConnectionBuilder {
    host: Option<String>,
    port: Option<u16>,
    user: Option<String>,
    database: Option<String>,
    application: Option<String>,
}

impl View for DatabaseConnectionBuilder {
    type V = BuilderModel;

    closed spec fn view(&self) -> BuilderModel {
        BuilderModel {
            host: text_of(self.host),
            port: self.port,
            user: text_of(self.user),
            database: text_of(self.database),
            application: text_of(self.application),
        }
    }
}

/// `set` where it is there, or else a copy of `found`, or else `default`.
fn settle(set: Option<String>, found: &Option<String>, default: &str) -> (text: String)
    ensures
        text@ == settled(text_of(set), text_of(*found), default@),
{
    match set {
        Some(text) => text,
        None => match found {
            Some(text) => text.clone(),
            None => String::from_str(default),
        },
    }
}

impl DatabaseConnectionBuilder {
    /// A builder with nothing set.
    pub fn new() -> (builder: DatabaseConnectionBuilder)
        ensures
            builder@ == (BuilderModel {
                host: None,
                port: None,
                user: None,
                database: None,
                application: None,
            }),
    {
        DatabaseConnectionBuilder {
            host: None,
            port: None,
            user: None,
            database: None,
            application: None,
        }
    }

    /// Takes from the command line what was not set yet: the values of the
    /// options `db-host`, `db-port`, `db-user` and `db-name`.
    ///
    /// Nothing is taken where the port has to come from the command line
    /// and the text there names no port: the error then holds that text.
    pub fn set_opts(&mut self, params: &getopts::Matches) -> (taken: Result<(), ConfigError>)
        ensures
            match taken {
                Ok(_) => old(self)@.with_options(matched(*params)) == Some(final(self)@),
                Err(ConfigError::InvalidPort(text)) => old(self)@.with_options(matched(*params))
                    is None && final(self)@ == old(self)@ && Some(text@) == option_value(
                    matched(*params),
                    "db-port"@,
                ),
            },
    {
        let mut port: Option<u16> = self.port;
        if port.is_none() {
            if let Some(text) = given_value(params, "db-port") {
                match parse_port(text.as_str()) {
                    Some(number) => {
                        port = Some(number);
                    },
                    None => {
                        return Err(ConfigError::InvalidPort(text));
                    },
                }
            }
        }
        if self.host.is_none() {
            self.host = given_value(params, "db-host");
        }
        if self.user.is_none() {
            self.user = given_value(params, "db-user");
        }
        if self.database.is_none() {
            self.database = given_value(params, "db-name");
        }
        self.port = port;
        Ok(())
    }

    /// Sets the host.
    pub fn set_host(&mut self, host: &str)
        ensures
            final(self)@ == (BuilderModel { host: Some(host@), ..old(self)@ }),
    {
        self.host = Some(String::from_str(host));
    }

    /// Sets the port.
    pub fn set_port(&mut self, port: u16)
        ensures
            final(self)@ == (BuilderModel { port: Some(port), ..old(self)@ }),
    {
        self.port = Some(port);
    }

    /// Sets the user.
    pub fn set_user(&mut self, user: &str)
        ensures
            final(self)@ == (BuilderModel { user: Some(user@), ..old(self)@ }),
    {
        self.user = Some(String::from_str(user));
    }

    /// Sets the name of the database.
    pub fn set_database(&mut self, database: &str)
        ensures
            final(self)@ == (BuilderModel { database: Some(database@), ..old(self)@ }),
    {
        self.database = Some(String::from_str(database));
    }

    /// Sets the name under which the application connects.
    pub fn set_application(&mut self, application: &str)
        ensures
            final(self)@ == (BuilderModel { application: Some(application@), ..old(self)@ }),
    {
        self.application = Some(String::from_str(application));
    }

    /// Settles the parameters and makes the connection, not yet open.
    ///
    /// What was set stands. What was not is taken from `env`, and what is
    /// not there either from the defaults: host `localhost`, port 5432,
    /// user and database `evergreen`. No connection is made where the port
    /// has to come from `env` and the text there names no port: the error
    /// then holds that text.
    pub fn build(self, env: &ConnectionEnv) -> (built: Result<DatabaseConnection, ConfigError>)
        ensures
            match built {
                Ok(connection) => self@.resolve(env) == Some(connection@),
                Err(ConfigError::InvalidPort(text)) => self@.resolve(env) is None && Some(text@)
                    == text_of(env.port),
            },
    {
        let port = match self.port {
            Some(port) => port,
            None => match &env.port {
                Some(text) => match parse_port(text.as_str()) {
                    Some(port) => port,
                    None => {
                        return Err(ConfigError::InvalidPort(text.clone()));
                    },
                },
                None => DEFAULT_DB_PORT,
            },
        };
        let host = settle(self.host, &env.host, "localhost");
        let user = settle(self.user, &env.user, "evergreen");
        let database = settle(self.database, &env.database, "evergreen");
        let digits = to_decimal(port as u64);
        let mut dsn = String::from_str("host=");
        dsn.append(host.as_str());
        dsn.append(" port=");
        dsn.append(digits.as_str());
        dsn.append(" user=");
        dsn.append(user.as_str());
        dsn.append(" dbname=");
        dsn.append(database.as_str());
        let ghost plain = dsn@;
        if let Some(name) = &self.application {
            dsn.append(" application=");
            dsn.append(name.as_str());
            assert(dsn@ =~= plain + (" application="@ + name@));
        } else {
            assert(dsn@ =~= plain + Seq::<char>::empty());
        }
        Ok(
            DatabaseConnection {
                client: None,
                params: ConnectionParams {
                    dsn,
                    host,
                    port,
                    user,
                    database,
                    application: self.application,
                },
            },
        )
    }
}

/// The settled parameters of a connection, with the connection string
/// that they make.
struct ConnectionParams {
    dsn: String,
    host: String,
    port: u16,
    user: String,
    database: String,
    application: Option<String>,
}

impl ConnectionParams {
    spec fn model(&self) -> ConnectionModel {
        ConnectionModel {
            host: self.host@,
            port: self.port,
            user: self.user@,
            database: self.database@,
            application: text_of(self.application),
            client: None,
        }
    }

    #[verifier::type_invariant]
    spec fn valid(&self) -> bool {
        self.dsn@ == self.model().dsn()
    }

    fn copy(&self) -> (copy: ConnectionParams)
        ensures
            copy.model() == self.model(),
    {
        proof {
            use_type_invariant(self);
        }
        let application = match &self.application {
            Some(name) => Some(name.clone()),
            None => None,
        };
        ConnectionParams {
            dsn: self.dsn.clone(),
            host: self.host.clone(),
            port: self.port,
            user: self.user.clone(),
            database: self.database.clone(),
            application,
        }
    }
}

/// The parameters of a connection, and its client while it is open.
pub struct DatabaseConnection {
    client: Option<postgres::Client>,
    params: ConnectionParams,
}

impl View for DatabaseConnection {
    type V = ConnectionModel;

    closed spec fn view(&self) -> ConnectionModel {
        ConnectionModel { client: self.client, ..self.params.model() }
    }
}

impl DatabaseConnection {
    /// A builder with nothing set.
    pub fn builder() -> (builder: DatabaseConnectionBuilder)
        ensures
            builder@ == (BuilderModel {
                host: None,
                port: None,
                user: None,
                database: None,
                application: None,
            }),
    {
        DatabaseConnectionBuilder::new()
    }

    /// The connection string.
    pub fn dsn(&self) -> (dsn: &str)
        ensures
            dsn@ == self@.dsn(),
    {
        proof {
            use_type_invariant(&self.params);
        }
        self.params.dsn.as_str()
    }

    /// Tells whether the connection is open.
    pub fn is_connected(&self) -> (connected: bool)
        ensures
            connected == self@.connected(),
    {
        self.client.is_some()
    }

    /// The client of the open connection.
    pub fn client(&mut self) -> (client: &mut postgres::Client)
        requires
            old(self)@.connected(),
        ensures
            *client == old(self)@.client->0,
            final(self)@ == (ConnectionModel { client: Some(*final(client)), ..old(self)@ }),
    {
        self.client.as_mut().unwrap()
    }

    /// Takes note of an attempt to open the connection.
    ///
    /// The client of an attempt that succeeded is kept: the connection is
    /// open. An attempt that failed changes nothing, and its reason is
    /// handed back behind the words `Error connecting to database: `.
    pub fn connect(&mut self, attempt: Result<postgres::Client, String>) -> (connected: Result<
        (),
        String,
    >)
        ensures
            match attempt {
                Ok(client) => connected is Ok && final(self)@ == (ConnectionModel {
                    client: Some(client),
                    ..old(self)@
                }),
                Err(reason) => connected matches Err(message) && message@
                    == "Error connecting to database: "@ + reason@ && final(self)@ == old(self)@,
            },
    {
        match attempt {
            Ok(client) => {
                self.client = Some(client);
                Ok(())
            },
            Err(reason) => {
                let mut message = String::from_str("Error connecting to database: ");
                message.append(reason.as_str());
                Err(message)
            },
        }
    }

    /// Closes the connection: the client is dropped.
    pub fn disconnect(&mut self)
        ensures
            final(self)@ == old(self)@.closed(),
    {
        self.client = None;
    }

    /// A connection of its own with the same parameters, not open.
    pub fn partial_clone(&self) -> (copy: DatabaseConnection)
        ensures
            copy@ == self@.closed(),
    {
        DatabaseConnection { client: None, params: self.params.copy() }
    }
}

/// A parameter of a connection is what was set by hand; where nothing
/// was, what the command line says; where that says nothing either, what
/// the environment says; and else the default.
pub proof fn law_settled_in_order(
    builder: BuilderModel,
    options: Map<Seq<char>, Seq<Option<Seq<char>>>>,
    env: &ConnectionEnv,
)
    requires
        builder.with_options(options) is Some,
        builder.with_options(options)->0.resolve(env) is Some,
    ensures
        ({
            let connection = builder.with_options(options)->0.resolve(env)->0;
            &&& connection.host == settled(
                builder.host,
                preferred(option_value(options, "db-host"@), text_of(env.host)),
                "localhost"@,
            )
            &&& connection.user == settled(
                builder.user,
                preferred(option_value(options, "db-user"@), text_of(env.user)),
                "evergreen"@,
            )
            &&& connection.database == settled(
                builder.database,
                preferred(option_value(options, "db-name"@), text_of(env.database)),
                "evergreen"@,
            )
            &&& Some(connection.port) == match builder.port {
                Some(port) => Some(port),
                None => match preferred(option_value(options, "db-port"@), text_of(env.port)) {
                    Some(text) => port_of(text),
                    None => Some(DEFAULT_DB_PORT),
                },
            }
            &&& connection.application == builder.application
            &&& !connection.connected()
        }),
{
}

} // verus!
