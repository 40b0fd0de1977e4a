use vstd::prelude::*;
use vstd::string::*;

use crate::numeral::u16_numeral;
use crate::numeral::parse_u16;

verus! {

/// Everything that can go wrong while loading and reading the process
/// configuration from the `.env` file.
#[derive(Debug)]
pub enum EnvError {
    EnvNotInitialized,
    FileNotFound,
    FileNotLoaded,
    MissingVariables(Vec<String>),
    VariableNotSet(&'static str),
    VariableParsing { key: &'static str, value: String, parsing_type: &'static str },
}

/// Mathematical model of an `EnvError`.
pub enum EnvErrorView {
    EnvNotInitialized,
    FileNotFound,
    FileNotLoaded,
    MissingVariables(Seq<Seq<char>>),
    VariableNotSet(Seq<char>),
    VariableParsing { key: Seq<char>, value: Seq<char>, parsing_type: Seq<char> },
}

impl View for EnvError {
    type V = EnvErrorView;

    open spec fn view(&self) -> EnvErrorView {
        match self {
            EnvError::EnvNotInitialized => EnvErrorView::EnvNotInitialized,
            EnvError::FileNotFound => EnvErrorView::FileNotFound,
            EnvError::FileNotLoaded => EnvErrorView::FileNotLoaded,
            EnvError::MissingVariables(vars) => EnvErrorView::MissingVariables(
                vars@.map_values(|v: String| v@),
            ),
            EnvError::VariableNotSet(key) => EnvErrorView::VariableNotSet(key@),
            EnvError::VariableParsing { key, value, parsing_type } => EnvErrorView::VariableParsing {
                key: key@,
                value: value@,
                parsing_type: parsing_type@,
            },
        }
    }
}

/// The given parts glued together with the separator between them.
pub open spec fn join_with(parts: Seq<Seq<char>>, sep: Seq<char>) -> Seq<char>
    decreases parts.len(),
{
    if parts.len() == 0 {
        Seq::empty()
    } else if parts.len() == 1 {
        parts[0]
    } else {
        join_with(parts.drop_last(), sep) + sep + parts.last()
    }
}

/// The human-readable description of each configuration error.
pub open spec fn env_error_message(e: EnvErrorView) -> Seq<char> {
    match e {
        EnvErrorView::EnvNotInitialized => "Environment not initialized. Ensure the env adapter is set up before use."@,
        EnvErrorView::FileNotFound => ".env file not found"@,
        EnvErrorView::FileNotLoaded => ".env file not loaded"@,
        EnvErrorView::MissingVariables(vars) => if vars.len() > 1 {
            join_with(vars, ", "@) + " are not set in .env file"@
        } else {
            join_with(vars, " "@) + " is not set in .env file"@
        },
        EnvErrorView::VariableNotSet(key) => "env variable '"@ + key + "' not set"@,
        EnvErrorView::VariableParsing { key, value, parsing_type } => "Could not parse env variable '"@
            + key + "' with value '"@ + value + "' to '"@ + parsing_type + "'"@,
    }
}

/// Glues the parts together with the separator between them.
pub fn join_strings(parts: &Vec<String>, sep: &str) -> (r: String)
    ensures
        r@ == join_with(parts@.map_values(|v: String| v@), sep@),
{
    let ghost vs = parts@.map_values(|v: String| v@);
    let mut r = String::new();
    let mut i: usize = 0;
    while i < parts.len()
        invariant
            i <= parts@.len(),
            vs == parts@.map_values(|v: String| v@),
            vs.len() == parts@.len(),
            r@ == join_with(vs.subrange(0, i as int), sep@),
        decreases parts@.len() - i,
    {
        if i > 0 {
            r.append(sep);
        }
        r.append(parts[i].as_str());
        proof {
            let pre = vs.subrange(0, i as int);
            let cur = vs.subrange(0, i + 1);
            assert(cur.drop_last() =~= pre);
            assert(cur.last() == vs[i as int]);
            if i == 0 {
                assert(Seq::<char>::empty() + vs[0] =~= vs[0]);
            }
        }
        i = i + 1;
    }
    proof {
        assert(vs.subrange(0, i as int) =~= vs);
    }
    r
}

impl EnvError {
    /// The human-readable description of the error.
    pub fn message(&self) -> (r: String)
        ensures
            r@ == env_error_message(self@),
    {
        match self {
            EnvError::EnvNotInitialized => {
                "Environment not initialized. Ensure the env adapter is set up before use.".to_owned()
            },
            EnvError::FileNotFound => ".env file not found".to_owned(),
            EnvError::FileNotLoaded => ".env file not loaded".to_owned(),
            EnvError::MissingVariables(vars) => {
                if vars.len() > 1 {
                    let mut m = join_strings(vars, ", ");
                    m.append(" are not set in .env file");
                    m
                } else {
                    let mut m = join_strings(vars, " ");
                    m.append(" is not set in .env file");
                    m
                }
            },
            EnvError::VariableNotSet(key) => {
                let mut m = "env variable '".to_owned();
                m.append(key);
                m.append("' not set");
                m
            },
            EnvError::VariableParsing { key, value, parsing_type } => {
                let mut m = "Could not parse env variable '".to_owned();
                m.append(key);
                m.append("' with value '");
                m.append(value.as_str());
                m.append("' to '");
                m.append(parsing_type);
                m.append("'");
                m
            },
        }
    }
}

/// Access to the process configuration. Loading and reading the `.env` file
/// touches the process environment, so implementations live with the rest of
/// the infrastructure wiring; the decision logic they share stands below as
/// the verified interpretation functions of `DotenvyAdapter`.
pub trait EnvPort {
    fn load_env_file(&mut self) -> Result<(), EnvError>;

    fn check_env_vars(&self) -> Result<(), EnvError>;

    fn get_env_var(&self, key: &'static str) -> Result<String, EnvError>;

    fn get_server_host(&self) -> Result<String, EnvError>;

    fn get_server_port(&self) -> Result<u16, EnvError>;
}

pub open spec fn opt_string_view(v: Option<String>) -> Option<Seq<char>> {
    match v {
        Some(s) => Some(s@),
        None => None,
    }
}

pub open spec fn env_value_view(r: Result<String, EnvError>) -> Result<Seq<char>, EnvErrorView> {
    match r {
        Ok(v) => Ok(v@),
        Err(e) => Err(e@),
    }
}

pub open spec fn port_value_view(r: Result<u16, EnvError>) -> Result<u16, EnvErrorView> {
    match r {
        Ok(v) => Ok(v),
        Err(e) => Err(e@),
    }
}

pub open spec fn env_check_view(r: Result<(), EnvError>) -> Result<(), EnvErrorView> {
    match r {
        Ok(v) => Ok(v),
        Err(e) => Err(e@),
    }
}

/// The outcome of reading one raw configuration variable: the file must have
/// been loaded, and the variable must be set.
pub open spec fn env_lookup_model(loaded: bool, key: Seq<char>, value: Option<Seq<char>>) -> Result<
    Seq<char>,
    EnvErrorView,
> {
    if !loaded {
        Err(EnvErrorView::FileNotLoaded)
    } else {
        match value {
            None => Err(EnvErrorView::VariableNotSet(key)),
            Some(v) => Ok(v),
        }
    }
}

/// The outcome of reading a configuration variable that must denote a `u16`.
pub open spec fn port_lookup_model(loaded: bool, key: Seq<char>, value: Option<Seq<char>>) -> Result<
    u16,
    EnvErrorView,
> {
    match env_lookup_model(loaded, key, value) {
        Err(e) => Err(e),
        Ok(raw) => match u16_numeral(raw) {
            Some(n) => Ok(n),
            None => Err(
                EnvErrorView::VariableParsing { key, value: raw, parsing_type: "u16"@ },
            ),
        },
    }
}

/// The names of the required configuration variables that the given raw
/// values leave unsatisfied: the host must be set, the port must be set and
/// denote a `u16`.
pub open spec fn missing_variable_names(host: Option<Seq<char>>, port: Option<Seq<char>>) -> Seq<
    Seq<char>,
> {
    let h: Seq<Seq<char>> = match host {
        Some(_) => seq![],
        None => seq!["SERVER_HOST"@],
    };
    let p: Seq<Seq<char>> = match port {
        Some(pv) => if u16_numeral(pv) is Some {
            seq![]
        } else {
            seq!["SERVER_PORT"@]
        },
        None => seq!["SERVER_PORT"@],
    };
    h + p
}

/// The outcome of checking the whole configuration: the file must have been
/// loaded and no required variable may be missing or malformed.
pub open spec fn env_check_model(loaded: bool, host: Option<Seq<char>>, port: Option<Seq<char>>) -> Result<
    (),
    EnvErrorView,
> {
    if !loaded {
        Err(EnvErrorView::FileNotLoaded)
    } else {
        let missing = missing_variable_names(host, port);
        if missing.len() == 0 {
            Ok(())
        } else {
            Err(EnvErrorView::MissingVariables(missing))
        }
    }
}

/// The configuration adapter's state: whether the `.env` file has been
/// loaded. Loading and raw reading touch the process environment and stay
/// with the infrastructure wiring; every decision made on what was read is
/// one of the verified methods below.
pub struct DotenvyAdapter {
    pub is_env_file_loaded: bool,
}

impl DotenvyAdapter {
    pub fn new() -> (r: Self)
        ensures
            !r.is_env_file_loaded,
    {
        Self { is_env_file_loaded: false }
    }

    /// Records that the `.env` file has been loaded.
    pub fn mark_env_file_loaded(&mut self)
        ensures
            final(self).is_env_file_loaded,
    {
        self.is_env_file_loaded = true;
    }

    /// Classifies one raw configuration value, exactly as `env_lookup_model`
    /// says.
    pub fn interpret_env_lookup(&self, key: &'static str, value: Option<String>) -> (r: Result<
        String,
        EnvError,
    >)
        ensures
            env_value_view(r) == env_lookup_model(
                self.is_env_file_loaded,
                key@,
                opt_string_view(value),
            ),
    {
        if !self.is_env_file_loaded {
            return Err(EnvError::FileNotLoaded);
        }
        match value {
            None => Err(EnvError::VariableNotSet(key)),
            Some(v) => Ok(v),
        }
    }

    /// Classifies one raw configuration value that must denote a `u16`,
    /// exactly as `port_lookup_model` says.
    pub fn interpret_port_lookup(&self, key: &'static str, value: Option<String>) -> (r: Result<
        u16,
        EnvError,
    >)
        ensures
            port_value_view(r) == port_lookup_model(
                self.is_env_file_loaded,
                key@,
                opt_string_view(value),
            ),
    {
        if !self.is_env_file_loaded {
            return Err(EnvError::FileNotLoaded);
        }
        let v = match value {
            None => {
                return Err(EnvError::VariableNotSet(key));
            },
            Some(v) => v,
        };
        match parse_u16(v.as_str()) {
            Some(n) => Ok(n),
            None => Err(EnvError::VariableParsing { key, value: v, parsing_type: "u16" }),
        }
    }

    /// Checks the raw values of the two required configuration variables,
    /// exactly as `env_check_model` says, naming every missing or malformed
    /// one.
    pub fn check_env_values(&self, host: Option<String>, port: Option<String>) -> (r: Result<
        (),
        EnvError,
    >)
        ensures
            env_check_view(r) == env_check_model(
                self.is_env_file_loaded,
                opt_string_view(host),
                opt_string_view(port),
            ),
    {
        if !self.is_env_file_loaded {
            return Err(EnvError::FileNotLoaded);
        }
        let ghost host_v = opt_string_view(host);
        let ghost port_v = opt_string_view(port);
        let mut variables: Vec<String> = Vec::new();
        if host.is_none() {
            variables.push("SERVER_HOST".to_owned());
        }
        let port_ok = match &port {
            Some(p) => parse_u16(p.as_str()).is_some(),
            None => false,
        };
        if !port_ok {
            variables.push("SERVER_PORT".to_owned());
        }
        proof {
            assert(variables@.map_values(|v: String| v@) =~= missing_variable_names(
                host_v,
                port_v,
            ));
        }
        if variables.is_empty() {
            Ok(())
        } else {
            Err(EnvError::MissingVariables(variables))
        }
    }
}

impl Default for DotenvyAdapter {
    fn default() -> (r: Self)
        ensures
            !r.is_env_file_loaded,
    {
        Self::new()
    }
}

} // verus!
