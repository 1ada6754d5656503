use lapce_elixir::plugin::{
    diagnostic, elixir_filter, initialize, language_filters, resolve_server_uri, same_text,
    server_path, ConfigurationError, InitializeParams, Reply, State,
};
use serde_json::Value;

fn options_with(key: &str, value: Value) -> Option<Value> {
    let mut map = serde_json::Map::new();
    map.insert(key.to_string(), value);
    Some(Value::Object(map))
}

fn empty_options() -> Option<Value> {
    Some(Value::Object(serde_json::Map::new()))
}

fn text(s: &str) -> Value {
    Value::String(s.to_string())
}

#[test]
fn explicit_server_path_gives_urn_uri() {
    let params = InitializeParams {
        initialization_options: options_with("serverPath", text("/usr/local/bin/elixir-ls")),
    };
    let start = initialize(params, None).ok().unwrap();
    assert_eq!(start.server_uri.as_str(), "urn:/usr/local/bin/elixir-ls");
}

#[test]
fn base_uri_is_joined_with_server_name() {
    let params = InitializeParams { initialization_options: empty_options() };
    let start = initialize(params, Some("file:///plugins/elixir/".to_string()))
        .ok()
        .unwrap();
    assert_eq!(start.server_uri.as_str(), "file:///plugins/elixir/elixir-ls");
}

#[test]
fn missing_base_uri_reports_one_diagnostic() {
    let mut state = State::new();
    let params = InitializeParams { initialization_options: empty_options() };
    match state.handle_request(0, "initialize", Some(params), None) {
        Reply::Stderr(line) => {
            assert_eq!(line, "plugin returned with error: environment variable not found")
        }
        _ => panic!("expected a diagnostic"),
    }
}

#[test]
fn explicit_path_ignores_base_uri() {
    let options = options_with("serverPath", text("/opt/elixir-ls/launch.sh"));
    let with_base = resolve_server_uri(&options, Some("file:///plugins/elixir/".to_string()));
    let without_base = resolve_server_uri(&options, None);
    assert_eq!(with_base.ok().unwrap().as_str(), "urn:/opt/elixir-ls/launch.sh");
    assert_eq!(without_base.ok().unwrap().as_str(), "urn:/opt/elixir-ls/launch.sh");
}

#[test]
fn empty_server_path_without_base_fails() {
    let options = options_with("serverPath", text(""));
    let r = resolve_server_uri(&options, None);
    assert!(matches!(r, Err(ConfigurationError::MissingBaseUri)));
}

#[test]
fn non_string_server_path_without_base_fails() {
    let options = options_with("serverPath", Value::Bool(true));
    assert!(server_path(&options).is_none());
    let params = InitializeParams { initialization_options: options };
    assert!(matches!(initialize(params, None), Err(ConfigurationError::MissingBaseUri)));
}

#[test]
fn absent_options_without_base_fail() {
    let params = InitializeParams { initialization_options: None };
    assert!(matches!(initialize(params, None), Err(ConfigurationError::MissingBaseUri)));
}

#[test]
fn empty_server_path_falls_back_to_base() {
    let options = options_with("serverPath", text(""));
    let r = resolve_server_uri(&options, Some("file:///home/u/.lapce/plugins/elixir/".to_string()));
    assert_eq!(r.ok().unwrap().as_str(), "file:///home/u/.lapce/plugins/elixir/elixir-ls");
}

#[test]
fn server_path_reads_the_member() {
    let options = options_with("serverPath", text("/bin/els"));
    assert_eq!(server_path(&options), Some("/bin/els".to_string()));
    assert_eq!(server_path(&options_with("other", text("/bin/els"))), None);
    assert_eq!(server_path(&None), None);
}

#[test]
fn options_are_forwarded_unchanged_on_explicit_path() {
    let options = options_with("serverPath", text("/usr/bin/elixir-ls"));
    let params = InitializeParams { initialization_options: options.clone() };
    let start = initialize(params, None).ok().unwrap();
    assert_eq!(start.options, options);
    assert!(start.server_args.is_empty());
}

#[test]
fn options_are_forwarded_unchanged_on_base_uri() {
    let options = options_with("dialyzerEnabled", Value::Bool(false));
    let params = InitializeParams { initialization_options: options.clone() };
    let start = initialize(params, Some("file:///plugins/elixir/".to_string()))
        .ok()
        .unwrap();
    assert_eq!(start.options, options);
    assert!(start.server_args.is_empty());
}

#[test]
fn filter_selects_elixir_only() {
    let filters = language_filters();
    assert_eq!(filters.len(), 1);
    assert_eq!(filters[0].language.as_deref(), Some("elixir"));
    assert_eq!(filters[0].scheme, None);
    assert_eq!(filters[0].pattern, None);
    let f = elixir_filter();
    assert_eq!(f.language.as_deref(), Some("elixir"));
}

#[test]
fn start_instruction_carries_the_filter() {
    let params = InitializeParams {
        initialization_options: options_with("serverPath", text("/x/elixir-ls")),
    };
    let start = initialize(params, None).ok().unwrap();
    assert_eq!(start.document_selector.len(), 1);
    assert_eq!(start.document_selector[0].language.as_deref(), Some("elixir"));
}

#[test]
fn unparsable_base_uri_is_a_configuration_error() {
    let params = InitializeParams { initialization_options: empty_options() };
    let r = initialize(params, Some("plugins/elixir".to_string()));
    match r {
        Err(e) => {
            assert!(matches!(e, ConfigurationError::InvalidUri(url::ParseError::RelativeUrlWithoutBase)));
            assert_eq!(diagnostic(&e), "plugin returned with error: relative URL without a base");
            assert_eq!(e.message(), "relative URL without a base");
        }
        Ok(_) => panic!("expected an error"),
    }
}

#[test]
fn base_that_cannot_be_joined_is_a_configuration_error() {
    let r = resolve_server_uri(&None, Some("mailto:someone@example.com".to_string()));
    assert!(matches!(
        r,
        Err(ConfigurationError::InvalidUri(url::ParseError::RelativeUrlWithCannotBeABaseBase))
    ));
}

#[test]
fn base_without_trailing_slash_replaces_last_segment() {
    let r = resolve_server_uri(&None, Some("file:///plugins/elixir".to_string()));
    assert_eq!(r.ok().unwrap().as_str(), "file:///plugins/elixir-ls");
}

#[test]
fn other_requests_are_ignored() {
    let mut state = State::new();
    assert!(matches!(state.handle_request(3, "shutdown", None, None), Reply::Ignored));
    assert!(matches!(state.handle_request(4, "initialized", None, None), Reply::Ignored));
}

#[test]
fn initialize_request_starts_server() {
    let mut state = State::new();
    let options = options_with("serverPath", text("/usr/local/bin/elixir-ls"));
    let params = InitializeParams { initialization_options: options.clone() };
    match state.handle_request(1, "initialize", Some(params), None) {
        Reply::StartLsp(start) => {
            assert_eq!(start.server_uri.as_str(), "urn:/usr/local/bin/elixir-ls");
            assert_eq!(start.options, options);
        }
        _ => panic!("expected a start instruction"),
    }
}

#[test]
fn same_text_compares_characters() {
    assert!(same_text("initialize", "initialize"));
    assert!(!same_text("initialize", "initialized"));
    assert!(!same_text("abc", "abd"));
    assert!(same_text("", ""));
    assert!(same_text("élixir", "élixir"));
}
