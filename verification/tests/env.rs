use registration::env::{DotenvyAdapter, EnvError, EnvPort, join_strings};
use registration::numeral::{parse_u16, u16_to_decimal};
use registration::server::{Server, server_address};

#[test]
fn parse_u16_accepts_plain_and_signed_numerals() {
    assert_eq!(parse_u16("8080"), Some(8080));
    assert_eq!(parse_u16("+80"), Some(80));
    assert_eq!(parse_u16("0"), Some(0));
    assert_eq!(parse_u16("00123"), Some(123));
    assert_eq!(parse_u16("65535"), Some(65535));
}

#[test]
fn parse_u16_rejects_malformed_and_oversized_numerals() {
    assert_eq!(parse_u16(""), None);
    assert_eq!(parse_u16("+"), None);
    assert_eq!(parse_u16("12a"), None);
    assert_eq!(parse_u16("-1"), None);
    assert_eq!(parse_u16(" 80"), None);
    assert_eq!(parse_u16("65536"), None);
    assert_eq!(parse_u16("999999999999999999999"), None);
}

#[test]
fn parse_u16_agrees_with_the_standard_parser() {
    for s in ["8080", "+80", "0", "00123", "65535", "", "+", "12a", "-1", " 80", "65536"] {
        assert_eq!(parse_u16(s), s.parse::<u16>().ok());
    }
}

#[test]
fn u16_to_decimal_prints_canonically() {
    assert_eq!(u16_to_decimal(0), "0".to_string());
    assert_eq!(u16_to_decimal(7), "7".to_string());
    assert_eq!(u16_to_decimal(8080), "8080".to_string());
    assert_eq!(u16_to_decimal(65535), "65535".to_string());
}

#[test]
fn printing_then_parsing_a_port_gives_it_back() {
    for n in [0u16, 1, 9, 10, 99, 100, 8080, 65535] {
        assert_eq!(parse_u16(&u16_to_decimal(n)), Some(n));
    }
}

#[test]
fn server_address_joins_host_and_port() {
    assert_eq!(server_address("localhost", 8080), "localhost:8080".to_string());
    assert_eq!(server_address("0.0.0.0", 80), "0.0.0.0:80".to_string());
}

#[test]
fn join_strings_glues_with_the_separator() {
    assert_eq!(join_strings(&vec![], ", "), "".to_string());
    assert_eq!(join_strings(&vec!["A".to_string()], ", "), "A".to_string());
    assert_eq!(
        join_strings(&vec!["A".to_string(), "B".to_string(), "C".to_string()], ", "),
        "A, B, C".to_string()
    );
}

#[test]
fn adapter_starts_with_the_env_file_unloaded() {
    assert!(!DotenvyAdapter::new().is_env_file_loaded);
    assert!(!DotenvyAdapter::default().is_env_file_loaded);
    let mut adapter = DotenvyAdapter::new();
    adapter.mark_env_file_loaded();
    assert!(adapter.is_env_file_loaded);
}

#[test]
fn lookups_fail_before_the_env_file_is_loaded() {
    let adapter = DotenvyAdapter::new();
    assert!(matches!(
        adapter.interpret_env_lookup("SERVER_HOST", Some("localhost".to_string())),
        Err(EnvError::FileNotLoaded)
    ));
    assert!(matches!(
        adapter.interpret_port_lookup("SERVER_PORT", Some("8080".to_string())),
        Err(EnvError::FileNotLoaded)
    ));
    assert!(matches!(
        adapter.check_env_values(Some("localhost".to_string()), Some("8080".to_string())),
        Err(EnvError::FileNotLoaded)
    ));
}

fn loaded_adapter() -> DotenvyAdapter {
    let mut adapter = DotenvyAdapter::new();
    adapter.mark_env_file_loaded();
    adapter
}

#[test]
fn lookups_classify_each_raw_value() {
    let adapter = loaded_adapter();
    assert_eq!(
        adapter.interpret_env_lookup("SERVER_HOST", Some("localhost".to_string())).unwrap(),
        "localhost".to_string()
    );
    assert!(matches!(
        adapter.interpret_env_lookup("SERVER_HOST", None),
        Err(EnvError::VariableNotSet("SERVER_HOST"))
    ));
    assert_eq!(
        adapter.interpret_port_lookup("SERVER_PORT", Some("8080".to_string())).unwrap(),
        8080
    );
    let parsing_err = adapter.interpret_port_lookup("SERVER_PORT", Some("eighty".to_string()));
    match parsing_err {
        Err(EnvError::VariableParsing { key, value, parsing_type }) => {
            assert_eq!(key, "SERVER_PORT");
            assert_eq!(value, "eighty".to_string());
            assert_eq!(parsing_type, "u16");
        },
        other => panic!("expected a parsing error, got {:?}", other),
    }
}

#[test]
fn check_names_every_missing_variable() {
    let adapter = loaded_adapter();
    assert!(adapter.check_env_values(Some("localhost".to_string()), Some("8080".to_string())).is_ok());

    match adapter.check_env_values(None, Some("8080".to_string())) {
        Err(EnvError::MissingVariables(vars)) => {
            assert_eq!(vars, vec!["SERVER_HOST".to_string()])
        },
        other => panic!("expected missing variables, got {:?}", other),
    }
    match adapter.check_env_values(Some("localhost".to_string()), Some("no-port".to_string())) {
        Err(EnvError::MissingVariables(vars)) => {
            assert_eq!(vars, vec!["SERVER_PORT".to_string()])
        },
        other => panic!("expected missing variables, got {:?}", other),
    }
    match adapter.check_env_values(None, None) {
        Err(EnvError::MissingVariables(vars)) => {
            assert_eq!(vars, vec!["SERVER_HOST".to_string(), "SERVER_PORT".to_string()])
        },
        other => panic!("expected missing variables, got {:?}", other),
    }
}

#[test]
fn env_error_messages_are_exact() {
    assert_eq!(
        EnvError::EnvNotInitialized.message(),
        "Environment not initialized. Ensure the env adapter is set up before use.".to_string()
    );
    assert_eq!(EnvError::FileNotFound.message(), ".env file not found".to_string());
    assert_eq!(EnvError::FileNotLoaded.message(), ".env file not loaded".to_string());
    assert_eq!(
        EnvError::MissingVariables(vec!["SERVER_HOST".to_string()]).message(),
        "SERVER_HOST is not set in .env file".to_string()
    );
    assert_eq!(
        EnvError::MissingVariables(
            vec!["SERVER_HOST".to_string(), "SERVER_PORT".to_string()]
        ).message(),
        "SERVER_HOST, SERVER_PORT are not set in .env file".to_string()
    );
    assert_eq!(
        EnvError::VariableNotSet("SERVER_HOST").message(),
        "env variable 'SERVER_HOST' not set".to_string()
    );
    assert_eq!(
        EnvError::VariableParsing {
            key: "SERVER_PORT",
            value: "eighty".to_string(),
            parsing_type: "u16",
        }.message(),
        "Could not parse env variable 'SERVER_PORT' with value 'eighty' to 'u16'".to_string()
    );
}

#[test]
fn server_adopts_a_prepared_adapter() {
    let mut server = Server::new();
    assert!(server.env_adapter.is_none());
    let server_default = Server::default();
    assert!(server_default.env_adapter.is_none());
    server.setup_env(loaded_adapter());
    assert!(server.env_adapter.is_some());
    assert!(server.env_adapter.unwrap().is_env_file_loaded);
}

struct MapEnv {
    loaded: bool,
    host: Option<String>,
    port: Option<String>,
}

impl EnvPort for MapEnv {
    fn load_env_file(&mut self) -> Result<(), EnvError> {
        self.loaded = true;
        Ok(())
    }

    fn check_env_vars(&self) -> Result<(), EnvError> {
        let adapter = DotenvyAdapter { is_env_file_loaded: self.loaded };
        adapter.check_env_values(self.host.clone(), self.port.clone())
    }

    fn get_env_var(&self, key: &'static str) -> Result<String, EnvError> {
        let adapter = DotenvyAdapter { is_env_file_loaded: self.loaded };
        let raw = if key == "SERVER_HOST" { self.host.clone() } else { self.port.clone() };
        adapter.interpret_env_lookup(key, raw)
    }

    fn get_server_host(&self) -> Result<String, EnvError> {
        self.get_env_var("SERVER_HOST")
    }

    fn get_server_port(&self) -> Result<u16, EnvError> {
        let adapter = DotenvyAdapter { is_env_file_loaded: self.loaded };
        adapter.interpret_port_lookup("SERVER_PORT", self.port.clone())
    }
}

#[test]
fn an_env_port_built_on_the_interpreters_is_coherent() {
    let mut env = MapEnv { loaded: false, host: Some("localhost".to_string()), port: Some("8080".to_string()) };
    assert!(matches!(env.check_env_vars(), Err(EnvError::FileNotLoaded)));
    env.load_env_file().unwrap();
    env.check_env_vars().unwrap();
    assert_eq!(env.get_server_host().unwrap(), "localhost".to_string());
    assert_eq!(env.get_server_port().unwrap(), 8080);
}
