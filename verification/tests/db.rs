use egutil::db::{ConfigError, ConnectionEnv, DatabaseConnection, DatabaseConnectionBuilder};

fn no_env() -> ConnectionEnv {
    ConnectionEnv { host: None, port: None, user: None, database: None }
}

fn full_env() -> ConnectionEnv {
    ConnectionEnv {
        host: Some("envhost".to_string()),
        port: Some("6543".to_string()),
        user: Some("envuser".to_string()),
        database: Some("envdb".to_string()),
    }
}

fn command_line(args: &[&str]) -> getopts::Matches {
    let mut options = getopts::Options::new();
    options.optopt("", "db-host", "Database Host", "DB_HOST");
    options.optopt("", "db-port", "Database Port", "DB_PORT");
    options.optopt("", "db-user", "Database User", "DB_USER");
    options.optopt("", "db-name", "Database Name", "DB_NAME");
    options.parse(args).unwrap()
}

#[test]
fn defaults_where_nothing_is_said() {
    let connection = DatabaseConnection::builder().build(&no_env()).unwrap();
    assert_eq!(
        connection.dsn(),
        "host=localhost port=5432 user=evergreen dbname=evergreen"
    );
    assert!(!connection.is_connected());
}

#[test]
fn environment_before_defaults() {
    let connection = DatabaseConnectionBuilder::new().build(&full_env()).unwrap();
    assert_eq!(connection.dsn(), "host=envhost port=6543 user=envuser dbname=envdb");
}

#[test]
fn command_line_before_environment() {
    let mut builder = DatabaseConnection::builder();
    let params = command_line(&[
        "--db-host", "clihost", "--db-port", "7777", "--db-user", "cliuser", "--db-name", "clidb",
    ]);
    assert_eq!(builder.set_opts(&params), Ok(()));
    let connection = builder.build(&full_env()).unwrap();
    assert_eq!(connection.dsn(), "host=clihost port=7777 user=cliuser dbname=clidb");
}

#[test]
fn set_by_hand_before_command_line() {
    let mut builder = DatabaseConnection::builder();
    builder.set_host("myhost");
    builder.set_port(1234);
    builder.set_user("me");
    builder.set_database("mydb");
    builder.set_application("reingest");
    let params = command_line(&[
        "--db-host", "clihost", "--db-port", "7777", "--db-user", "cliuser", "--db-name", "clidb",
    ]);
    assert_eq!(builder.set_opts(&params), Ok(()));
    let connection = builder.build(&full_env()).unwrap();
    assert_eq!(
        connection.dsn(),
        "host=myhost port=1234 user=me dbname=mydb application=reingest"
    );
}

#[test]
fn each_parameter_is_settled_on_its_own() {
    let mut builder = DatabaseConnection::builder();
    builder.set_user("me");
    let params = command_line(&["--db-host", "clihost"]);
    assert_eq!(builder.set_opts(&params), Ok(()));
    let env = ConnectionEnv {
        host: Some("envhost".to_string()),
        port: Some("6543".to_string()),
        user: Some("envuser".to_string()),
        database: None,
    };
    let connection = builder.build(&env).unwrap();
    assert_eq!(connection.dsn(), "host=clihost port=6543 user=me dbname=evergreen");
}

#[test]
fn options_that_are_not_defined_are_passed_over() {
    let mut options = getopts::Options::new();
    options.optopt("", "db-host", "Database Host", "DB_HOST");
    options.optflag("h", "help", "Show Help Text");
    let params = options.parse(["--db-host", "only"]).unwrap();
    let mut builder = DatabaseConnection::builder();
    assert_eq!(builder.set_opts(&params), Ok(()));
    let connection = builder.build(&no_env()).unwrap();
    assert_eq!(connection.dsn(), "host=only port=5432 user=evergreen dbname=evergreen");
}

#[test]
fn command_line_port_that_is_no_port() {
    let mut builder = DatabaseConnection::builder();
    builder.set_host("kept");
    let params = command_line(&["--db-port", "54x2", "--db-user", "cliuser"]);
    assert_eq!(
        builder.set_opts(&params),
        Err(ConfigError::InvalidPort("54x2".to_string()))
    );
    let connection = builder.build(&no_env()).unwrap();
    assert_eq!(connection.dsn(), "host=kept port=5432 user=evergreen dbname=evergreen");
}

#[test]
fn command_line_port_is_not_read_where_the_port_is_set() {
    let mut builder = DatabaseConnection::builder();
    builder.set_port(99);
    let params = command_line(&["--db-port", "nonsense"]);
    assert_eq!(builder.set_opts(&params), Ok(()));
    let connection = builder.build(&no_env()).unwrap();
    assert_eq!(connection.dsn(), "host=localhost port=99 user=evergreen dbname=evergreen");
}

#[test]
fn environment_port_that_is_no_port() {
    let mut env = no_env();
    env.port = Some("70000".to_string());
    match DatabaseConnection::builder().build(&env) {
        Err(error) => assert_eq!(error, ConfigError::InvalidPort("70000".to_string())),
        Ok(_) => panic!("a port above 65535 was taken"),
    }
    let mut builder = DatabaseConnection::builder();
    builder.set_port(5433);
    let connection = builder.build(&env).unwrap();
    assert_eq!(connection.dsn(), "host=localhost port=5433 user=evergreen dbname=evergreen");
}

#[test]
fn failed_attempt_leaves_the_connection_closed() {
    let mut connection = DatabaseConnection::builder().build(&no_env()).unwrap();
    assert_eq!(
        connection.connect(Err("connection refused".to_string())),
        Err("Error connecting to database: connection refused".to_string())
    );
    assert!(!connection.is_connected());
    connection.disconnect();
    assert!(!connection.is_connected());
}

#[test]
fn copy_has_the_same_parameters() {
    let mut builder = DatabaseConnection::builder();
    builder.set_host("db1");
    builder.set_application("worker");
    let connection = builder.build(&no_env()).unwrap();
    let copy = connection.partial_clone();
    assert_eq!(copy.dsn(), connection.dsn());
    assert_eq!(
        copy.dsn(),
        "host=db1 port=5432 user=evergreen dbname=evergreen application=worker"
    );
    assert!(!copy.is_connected());
}
