//! Shaping of the secret request and dispatch on the server's response.
use vstd::prelude::*;
use vstd::string::StringExecFns;
use vstd::utf8::encode_utf8;
use crate::error::SecretError;
use crate::key::bucket_of;
use crate::transit::{agrees, transit_decrypt, transit_decrypt_at, transit_outcome};

verus! {

/// What the command line and environment assembled for one retrieval.
pub struct Config {
    /// The shared credential, sent as a bearer token and used for key derivation.
    pub apikey: String,
    /// Base URL of the vault server, to which the endpoint name is appended.
    pub vault_server: String,
    /// The table to read from.
    pub table_name: String,
    /// A table to read whole; also names the table when `table_name` is empty.
    pub get_table: String,
    /// The key of one secret to read.
    pub get_secret: String,
    /// Several secret keys to read, as the server expects them in one parameter.
    pub get_secrets: String,
    /// Length in bytes of the derived transit key.
    pub transit_key_length: usize,
    /// Width in seconds of a time bucket.
    pub transit_time_bucket: u64,
}

/// The three ways to retrieve secrets.
#[derive(Clone, Copy, Debug, PartialEq, Eq, Structural)]
pub enum RetrievalMode {
    Secret,
    Secrets,
    Table,
}

/// Everything a GET request for secrets needs.
pub struct RequestMaterials {
    pub url: String,
    /// Query parameters, in order.
    pub params: Vec<(String, String)>,
    /// Request headers, in order.
    pub headers: Vec<(String, String)>,
}

/// The `detail` field of the server's response, by shape.
pub enum Detail {
    /// The response has no `detail` field.
    Absent,
    /// `detail` is null.
    Null,
    /// `detail` is a string: a transit envelope.
    Text(String),
    /// `detail` is an object, a diagnostic from the server.
    Object,
    /// `detail` is a number, a boolean or an array.
    Other,
}

/// Pairs of strings seen as pairs of character sequences.
pub open spec fn pairs(v: Seq<(String, String)>) -> Seq<(Seq<char>, Seq<char>)> {
    v.map_values(|p: (String, String)| (p.0@, p.1@))
}

/// The headers that authenticate a request with `apikey`.
pub open spec fn bearer_headers(apikey: Seq<char>) -> Seq<(Seq<char>, Seq<char>)> {
    seq![("Authorization"@, "Bearer "@ + apikey), ("Accept"@, "application/json"@)]
}

/// The table a configuration selects: `table_name`, else `get_table`.
pub open spec fn table_selector(c: Config) -> Option<Seq<char>> {
    if c.table_name@.len() > 0 {
        Some(c.table_name@)
    } else if c.get_table@.len() > 0 {
        Some(c.get_table@)
    } else {
        None
    }
}

/// The retrieval mode a configuration selects, when it selects exactly one.
pub open spec fn selected_mode(c: Config) -> Option<RetrievalMode> {
    let secret = c.get_secret@.len() > 0;
    let secrets = c.get_secrets@.len() > 0;
    let table = c.get_table@.len() > 0;
    if secret && !secrets && !table {
        Some(RetrievalMode::Secret)
    } else if secrets && !secret && !table {
        Some(RetrievalMode::Secrets)
    } else if table && !secret && !secrets {
        Some(RetrievalMode::Table)
    } else {
        None
    }
}

/// The endpoint name of a mode, appended to the server URL.
pub open spec fn endpoint(mode: RetrievalMode) -> Seq<char> {
    match mode {
        RetrievalMode::Secret => "get-secret"@,
        RetrievalMode::Secrets => "get-secrets"@,
        RetrievalMode::Table => "get-table"@,
    }
}

/// The query parameters of a mode for `table`.
pub open spec fn query(c: Config, mode: RetrievalMode, table: Seq<char>) -> Seq<(Seq<char>, Seq<char>)> {
    match mode {
        RetrievalMode::Secret => seq![("table_name"@, table), ("key"@, c.get_secret@)],
        RetrievalMode::Secrets => seq![("table_name"@, table), ("keys"@, c.get_secrets@)],
        RetrievalMode::Table => seq![("table_name"@, table)],
    }
}

/// The authorization and accept headers for `apikey`.
pub fn auth_headers(apikey: &String) -> (r: Vec<(String, String)>)
    ensures
        pairs(r@) == bearer_headers(apikey@),
{
    let bearer = String::from_str("Bearer ").concat(apikey.as_str());
    let mut headers: Vec<(String, String)> = Vec::new();
    headers.push((String::from_str("Authorization"), bearer));
    headers.push((String::from_str("Accept"), String::from_str("application/json")));
    proof {
        assert(pairs(headers@) =~= bearer_headers(apikey@));
    }
    headers
}

/// The retrieval mode of `config`, or a usage error unless exactly one is selected.
pub fn retrieval_mode(config: &Config) -> (r: Result<RetrievalMode, SecretError>)
    ensures
        match selected_mode(*config) {
            Some(m) => r == Ok::<RetrievalMode, SecretError>(m),
            None => r == Err::<RetrievalMode, SecretError>(SecretError::UsageError),
        },
{
    let secret = !config.get_secret.as_str().is_empty();
    let secrets = !config.get_secrets.as_str().is_empty();
    let table = !config.get_table.as_str().is_empty();
    if secret && !secrets && !table {
        Ok(RetrievalMode::Secret)
    } else if secrets && !secret && !table {
        Ok(RetrievalMode::Secrets)
    } else if table && !secret && !secrets {
        Ok(RetrievalMode::Table)
    } else {
        Err(SecretError::UsageError)
    }
}

/// Builds the URL, query and headers of the request for `config`. Fails with a
/// usage error when no table is named or when not exactly one mode is selected.
pub fn create_request_materials(config: &Config) -> (r: Result<RequestMaterials, SecretError>)
    ensures
        r is Err <==> (table_selector(*config) is None || selected_mode(*config) is None),
        r is Err ==> r->Err_0 == SecretError::UsageError,
        r is Ok ==> ({
            let m = r->Ok_0;
            let mode = selected_mode(*config)->Some_0;
            &&& m.url@ == config.vault_server@ + endpoint(mode)
            &&& pairs(m.params@) == query(*config, mode, table_selector(*config)->Some_0)
            &&& pairs(m.headers@) == bearer_headers(config.apikey@)
        }),
{
    let table = if !config.table_name.as_str().is_empty() {
        config.table_name.clone()
    } else if !config.get_table.as_str().is_empty() {
        config.get_table.clone()
    } else {
        return Err(SecretError::UsageError);
    };
    let mode = match retrieval_mode(config) {
        Ok(m) => m,
        Err(e) => return Err(e),
    };
    let mut params: Vec<(String, String)> = Vec::new();
    params.push((String::from_str("table_name"), table));
    let url = match mode {
        RetrievalMode::Secret => {
            params.push((String::from_str("key"), config.get_secret.clone()));
            config.vault_server.clone().concat("get-secret")
        },
        RetrievalMode::Secrets => {
            params.push((String::from_str("keys"), config.get_secrets.clone()));
            config.vault_server.clone().concat("get-secrets")
        },
        RetrievalMode::Table => config.vault_server.clone().concat("get-table"),
    };
    proof {
        assert(pairs(params@) =~= query(*config, mode, table_selector(*config)->Some_0));
    }
    Ok(RequestMaterials { url, params, headers: auth_headers(&config.apikey) })
}

/// The secret held in a response's `detail`, decrypted with the key of the bucket
/// that `now_secs` falls in. Only a string `detail` is decrypted; every other shape
/// is a retrieval failure.
pub fn secret_from_detail_at(config: &Config, detail: &Detail, now_secs: u64) -> (r: Result<
    serde_json::Value,
    SecretError,
>)
    requires
        config.transit_time_bucket > 0,
    ensures
        match detail {
            Detail::Text(envelope) => agrees(
                r,
                transit_outcome(
                    encode_utf8(config.apikey@),
                    envelope@,
                    bucket_of(now_secs as nat, config.transit_time_bucket as nat),
                    config.transit_key_length as nat,
                ),
            ),
            _ => r == Err::<serde_json::Value, SecretError>(SecretError::RetrievalFailed),
        },
{
    match detail {
        Detail::Text(envelope) => transit_decrypt_at(
            &config.apikey,
            envelope,
            now_secs,
            config.transit_key_length,
            config.transit_time_bucket,
        ),
        _ => Err(SecretError::RetrievalFailed),
    }
}

/// The secret held in a response's `detail`, decrypted with the key of the current
/// time bucket. Only a string `detail` is decrypted; every other shape is a
/// retrieval failure.
pub fn secret_from_detail(config: &Config, detail: &Detail) -> (r: Result<serde_json::Value, SecretError>)
    requires
        config.transit_time_bucket > 0,
    ensures
        match detail {
            Detail::Text(envelope) => r == Err::<serde_json::Value, SecretError>(
                SecretError::ClockError,
            ) || exists|now: u64|
                agrees(
                    r,
                    #[trigger] transit_outcome(
                        encode_utf8(config.apikey@),
                        envelope@,
                        bucket_of(now as nat, config.transit_time_bucket as nat),
                        config.transit_key_length as nat,
                    ),
                ),
            _ => r == Err::<serde_json::Value, SecretError>(SecretError::RetrievalFailed),
        },
{
    match detail {
        Detail::Text(envelope) => transit_decrypt(
            &config.apikey,
            envelope,
            config.transit_key_length,
            config.transit_time_bucket,
        ),
        _ => Err(SecretError::RetrievalFailed),
    }
}

} // verus!
