use crate::json::{json_member, json_text};
use crate::plugin::{
    server_name, server_path_key, server_path_override, server_uri, uri_result, urn_prefix,
    ConfigurationError,
};
use crate::uri::{joined_url, parsed_url};
use serde_json::Value;
use url::Url;
use vstd::prelude::*;

verus! {

/// A non-empty string under `serverPath` decides the server's URI: it is
/// that path behind the `urn:` scheme, whatever base URI there is or is not.
pub proof fn explicit_path_decides(
    options: Value,
    member: Value,
    path: Seq<char>,
    base_uri: Option<Seq<char>>,
)
    requires
        json_member(options, server_path_key()) == Some(member),
        json_text(member) == Some(path),
        path.len() > 0,
    ensures
        server_uri(Some(options), base_uri) == uri_result(parsed_url(urn_prefix() + path)),
{
}

/// Without a usable server path and without a base URI, resolution fails
/// for want of the base URI, and no server is started.
pub proof fn missing_base_fails(options: Option<Value>)
    requires
        server_path_override(options) is None,
    ensures
        server_uri(options, None) == Err::<Url, ConfigurationError>(
            ConfigurationError::MissingBaseUri,
        ),
        !(server_uri(options, None) is Ok),
{
}

/// Without a usable server path, a base URI that parses decides the
/// server's URI: the server's name joined onto it.
pub proof fn base_uri_decides(options: Option<Value>, base_uri: Seq<char>, base: Url)
    requires
        server_path_override(options) is None,
        parsed_url(base_uri) == Ok::<Url, url::ParseError>(base),
    ensures
        server_uri(options, Some(base_uri)) == uri_result(joined_url(base, server_name())),
{
}

} // verus!
