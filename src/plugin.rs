use crate::json::{json_member, json_text, member, text};
use crate::uri::{describe_parse_error, join_url, joined_url, parse_error_text, parse_url, parsed_url};
use serde_json::Value;
use url::{ParseError, Url};
use vstd::prelude::*;

verus! {

/// The part of the host's initialisation request that the plugin reads.
pub struct InitializeParams {
    /// Options that the user configured for the plugin, as the host hands them over.
    pub initialization_options: Option<Value>,
}

/// Selects the documents that a language server handles.
pub struct DocumentFilter {
    pub language: Option<String>,
    pub scheme: Option<String>,
    pub pattern: Option<String>,
}

/// The instruction to the host to start a language server.
pub struct StartLsp {
    pub server_uri: Url,
    pub server_args: Vec<String>,
    pub document_selector: Vec<DocumentFilter>,
    pub options: Option<Value>,
}

/// Why the server's location could not be worked out.
pub enum ConfigurationError {
    /// No base URI for the plugin's install location was available.
    MissingBaseUri,
    /// A URI could not be parsed, or the server's name not joined onto it.
    InvalidUri(ParseError),
}

/// The key, inside the initialisation options, of an explicit server path.
pub open spec fn server_path_key() -> Seq<char> {
    seq!['s', 'e', 'r', 'v', 'e', 'r', 'P', 'a', 't', 'h']
}

/// The scheme put in front of an explicit server path.
pub open spec fn urn_prefix() -> Seq<char> {
    seq!['u', 'r', 'n', ':']
}

/// The name of the server, joined onto the plugin's base URI.
pub open spec fn server_name() -> Seq<char> {
    seq!['e', 'l', 'i', 'x', 'i', 'r', '-', 'l', 's']
}

/// The language whose documents the server handles.
pub open spec fn elixir() -> Seq<char> {
    seq!['e', 'l', 'i', 'x', 'i', 'r']
}

/// The characters of an optional text.
pub open spec fn opt_text(s: Option<String>) -> Option<Seq<char>> {
    match s {
        Some(t) => Some(t@),
        None => None,
    }
}

/// The explicit server path: the `serverPath` member of the options when it
/// is a non-empty string.
pub open spec fn server_path_override(options: Option<Value>) -> Option<Seq<char>> {
    match options {
        Some(v) => match json_member(v, server_path_key()) {
            Some(m) => match json_text(m) {
                Some(p) => if p.len() > 0 {
                    Some(p)
                } else {
                    None
                },
                None => None,
            },
            None => None,
        },
        None => None,
    }
}

/// A URL, or the configuration error that a failed parse or join makes.
pub open spec fn uri_result(r: Result<Url, ParseError>) -> Result<Url, ConfigurationError> {
    match r {
        Ok(u) => Ok(u),
        Err(e) => Err(ConfigurationError::InvalidUri(e)),
    }
}

/// Where the server is: the explicit path behind the `urn:` scheme, else the
/// server's name joined onto the base URI.
pub open spec fn server_uri(options: Option<Value>, base_uri: Option<Seq<char>>) -> Result<
    Url,
    ConfigurationError,
> {
    match server_path_override(options) {
        Some(p) => uri_result(parsed_url(urn_prefix() + p)),
        None => match base_uri {
            None => Err(ConfigurationError::MissingBaseUri),
            Some(b) => match parsed_url(b) {
                Ok(base) => uri_result(joined_url(base, server_name())),
                Err(e) => Err(ConfigurationError::InvalidUri(e)),
            },
        },
    }
}

/// The filter that selects Elixir documents, by language alone.
pub open spec fn is_elixir_filter(f: DocumentFilter) -> bool {
    &&& opt_text(f.language) == Some(elixir())
    &&& f.scheme is None
    &&& f.pattern is None
}

/// `s` starts the server at `uri`, with no arguments, for Elixir documents
/// alone, and hands it `options`.
pub open spec fn starts_server(s: StartLsp, uri: Url, options: Option<Value>) -> bool {
    &&& s.server_uri == uri
    &&& s.server_args@.len() == 0
    &&& s.document_selector@.len() == 1
    &&& is_elixir_filter(s.document_selector@[0])
    &&& s.options == options
}

/// The explicit server path in the initialisation options, if there is one.
pub fn server_path(options: &Option<Value>) -> (r: Option<String>)
    ensures
        opt_text(r) == server_path_override(*options),
{
    match options {
        Some(v) => {
            let key = "serverPath";
            proof {
                reveal_strlit("serverPath");
                assert(key@ =~= server_path_key());
            }
            match member(v, key) {
                Some(m) => match text(m) {
                    Some(p) => if p.as_str().is_empty() {
                        None
                    } else {
                        Some(p)
                    },
                    None => None,
                },
                None => None,
            }
        },
        None => None,
    }
}

/// Works out the server's URI from the initialisation options and, where
/// they name no server path, from the plugin's base URI.
pub fn resolve_server_uri(options: &Option<Value>, base_uri: Option<String>) -> (r: Result<
    Url,
    ConfigurationError,
>)
    ensures
        r == server_uri(*options, opt_text(base_uri)),
{
    match server_path(options) {
        Some(p) => {
            let mut text = String::from_str("urn:");
            proof {
                reveal_strlit("urn:");
            }
            text.append(p.as_str());
            proof {
                assert(text@ =~= urn_prefix() + p@);
            }
            match parse_url(text.as_str()) {
                Ok(u) => Ok(u),
                Err(e) => Err(ConfigurationError::InvalidUri(e)),
            }
        },
        None => match base_uri {
            None => Err(ConfigurationError::MissingBaseUri),
            Some(b) => match parse_url(b.as_str()) {
                Ok(base) => {
                    let name = "elixir-ls";
                    proof {
                        reveal_strlit("elixir-ls");
                        assert(name@ =~= server_name());
                    }
                    match join_url(&base, name) {
                        Ok(u) => Ok(u),
                        Err(e) => Err(ConfigurationError::InvalidUri(e)),
                    }
                },
                Err(e) => Err(ConfigurationError::InvalidUri(e)),
            },
        },
    }
}

/// The filter that selects Elixir documents.
pub fn elixir_filter() -> (r: DocumentFilter)
    ensures
        is_elixir_filter(r),
{
    let language = String::from_str("elixir");
    proof {
        reveal_strlit("elixir");
        assert(language@ =~= elixir());
    }
    DocumentFilter { language: Some(language), scheme: None, pattern: None }
}

/// The documents that the server handles: those in the Elixir language.
pub fn language_filters() -> (r: Vec<DocumentFilter>)
    ensures
        r@.len() == 1,
        is_elixir_filter(r@[0]),
{
    let mut filters: Vec<DocumentFilter> = Vec::new();
    filters.push(elixir_filter());
    filters
}

/// The instruction that starts the server at `server_uri` and hands it
/// `options` unchanged.
pub fn start_instruction(server_uri: Url, options: Option<Value>) -> (r: StartLsp)
    ensures
        starts_server(r, server_uri, options),
{
    StartLsp {
        server_uri,
        server_args: Vec::new(),
        document_selector: language_filters(),
        options,
    }
}

/// Handles the host's initialisation: the instruction that starts the
/// server, or why its location could not be worked out. `base_uri` is the
/// plugin's install location, where the host provides one.
pub fn initialize(params: InitializeParams, base_uri: Option<String>) -> (r: Result<
    StartLsp,
    ConfigurationError,
>)
    ensures
        match server_uri(params.initialization_options, opt_text(base_uri)) {
            Ok(u) => r is Ok && starts_server(r->Ok_0, u, params.initialization_options),
            Err(e) => r is Err && r->Err_0 == e,
        },
{
    match resolve_server_uri(&params.initialization_options, base_uri) {
        Ok(u) => Ok(start_instruction(u, params.initialization_options)),
        Err(e) => Err(e),
    }
}

/// What `VarError::NotPresent` says: the environment variable is not set.
pub open spec fn missing_variable_text() -> Seq<char> {
    "environment variable not found"@
}

/// The message that describes an error.
pub open spec fn error_text(e: ConfigurationError) -> Seq<char> {
    match e {
        ConfigurationError::MissingBaseUri => missing_variable_text(),
        ConfigurationError::InvalidUri(p) => parse_error_text(p),
    }
}

/// The text in front of every message that the plugin reports to the host.
pub open spec fn diagnostic_prefix() -> Seq<char> {
    "plugin returned with error: "@
}

impl ConfigurationError {
    /// The message that describes this error.
    pub fn message(&self) -> (r: String)
        ensures
            r@ == error_text(*self),
    {
        match self {
            ConfigurationError::MissingBaseUri => {
                proof {
                    reveal_strlit("environment variable not found");
                }
                String::from_str("environment variable not found")
            },
            ConfigurationError::InvalidUri(e) => describe_parse_error(e),
        }
    }
}

/// The line that reports a failed initialisation to the host.
pub fn diagnostic(e: &ConfigurationError) -> (r: String)
    ensures
        r@ == diagnostic_prefix() + error_text(*e),
{
    let mut line = String::from_str("plugin returned with error: ");
    proof {
        reveal_strlit("plugin returned with error: ");
    }
    let m = e.message();
    line.append(m.as_str());
    line
}

/// The method name of the host's initialisation request.
pub open spec fn initialize_method() -> Seq<char> {
    "initialize"@
}

/// Whether two texts hold the same characters.
pub fn same_text(a: &str, b: &str) -> (r: bool)
    ensures
        r == (a@ == b@),
{
    let n = a.unicode_len();
    if n != b.unicode_len() {
        return false;
    }
    let mut i: usize = 0;
    while i < n
        invariant
            n == a@.len(),
            n == b@.len(),
            i <= n,
            forall|k: int| 0 <= k < i ==> a@[k] == b@[k],
        decreases n - i,
    {
        if a.get_char(i) != b.get_char(i) {
            return false;
        }
        i = i + 1;
    }
    assert(a@ =~= b@);
    true
}

/// What the plugin does in answer to a request from the host.
pub enum Reply {
    /// Start the language server as instructed.
    StartLsp(StartLsp),
    /// Write this line to the host's error output.
    Stderr(String),
    /// Nothing: the request is not one that the plugin handles.
    Ignored,
}

/// The plugin's session state: it holds nothing.
pub struct State {}

impl State {
    /// A fresh session state.
    pub fn new() -> (r: State) {
        State {  }
    }

    /// Answers a request from the host. Only the initialisation request is
    /// handled; `params` is that request's payload, and `base_uri` the
    /// plugin's install location where the host provides one.
    pub fn handle_request(
        &mut self,
        _id: u64,
        method: &str,
        params: Option<InitializeParams>,
        base_uri: Option<String>,
    ) -> (r: Reply)
        requires
            method@ == initialize_method() ==> params is Some,
        ensures
            *final(self) == *old(self),
            method@ != initialize_method() ==> r is Ignored,
            method@ == initialize_method() ==> match server_uri(
                params->Some_0.initialization_options,
                opt_text(base_uri),
            ) {
                Ok(u) => r is StartLsp && starts_server(
                    r->StartLsp_0,
                    u,
                    params->Some_0.initialization_options,
                ),
                Err(e) => r is Stderr && r->Stderr_0@ == diagnostic_prefix() + error_text(e),
            },
    {
        let name = "initialize";
        proof {
            reveal_strlit("initialize");
        }
        if same_text(method, name) {
            match params {
                Some(p) => match initialize(p, base_uri) {
                    Ok(start) => Reply::StartLsp(start),
                    Err(e) => Reply::Stderr(diagnostic(&e)),
                },
                None => Reply::Ignored,
            }
        } else {
            Reply::Ignored
        }
    }
}

/// The host platform and the plugin's configuration.
pub struct PluginInfo {
    pub arch: String,
    pub os: String,
    pub configuration: Configuration,
}

/// The options configured for one language.
pub struct Configuration {
    pub language_id: String,
    pub options: Option<Value>,
}

} // verus!
