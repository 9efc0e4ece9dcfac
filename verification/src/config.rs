//! Configuration rules: the settings snapshot a backend is built from, and
//! the pure logic over it (defaults, listing, keyed updates, credential
//! checks). Reading and writing the configuration store itself is input and
//! output and is left to the surrounding program, which hands a loaded
//! `SampConf` value to these functions.
use vstd::prelude::*;

verus! {

/// Errors of the configuration rules.
#[derive(Clone, Copy, PartialEq, Eq, Structural, Debug)]
pub enum ConfigError {
    InvalidStorageValue,
    APIKeyNotDefined,
    APISecretKeyNotDefined,
    IOError,
}

/// The configuration snapshot: credentials, region and endpoint, bucket,
/// local path, and the relay endpoint. A backend owns an immutable copy of
/// the values it needs for its whole lifetime.
#[derive(Clone, Debug)]
pub struct SampConf {
    pub api_key: String,
    pub api_secret_key: String,
    pub region: String,
    pub endpoint: String,
    pub bucket: String,
    pub local_path: String,
    pub sampic_endpoint: String,
}

impl Default for SampConf {
    /// The default configuration: empty credentials and the stock region,
    /// endpoint, bucket, local path and relay endpoint.
    fn default() -> (r: Self)
        ensures
            r.api_key@ == ""@,
            r.api_secret_key@ == ""@,
            r.region@ == "fr-par"@,
            r.endpoint@ == "https://s3.fr-par.scw.cloud"@,
            r.bucket@ == "sampic-store"@,
            r.local_path@ == "/tmp/"@,
            r.sampic_endpoint@ == "https://sampic.xyz/upload"@,
    {
        SampConf {
            api_key: String::from_str(""),
            api_secret_key: String::from_str(""),
            region: String::from_str("fr-par"),
            endpoint: String::from_str("https://s3.fr-par.scw.cloud"),
            bucket: String::from_str("sampic-store"),
            local_path: String::from_str("/tmp/"),
            sampic_endpoint: String::from_str("https://sampic.xyz/upload"),
        }
    }
}

/// String equality against a literal key name.
fn str_eq(a: &String, b: &str) -> (r: bool)
    ensures
        r == (a@ == b@),
{
    let bs = String::from_str(b);
    *a == bs
}

/// The API key, if one is configured: the key when it is non-empty, and
/// `APIKeyNotDefined` exactly when it is empty.
pub fn api_key(cfg: &SampConf) -> (r: Result<String, ConfigError>)
    ensures
        cfg.api_key@.len() == 0 ==> r == Err::<String, ConfigError>(ConfigError::APIKeyNotDefined),
        cfg.api_key@.len() > 0 ==> (r matches Ok(k) && k@ == cfg.api_key@),
{
    if cfg.api_key.as_str().is_empty() {
        Err(ConfigError::APIKeyNotDefined)
    } else {
        Ok(cfg.api_key.clone())
    }
}

/// The API secret key, if one is configured: the key when it is non-empty,
/// and `APISecretKeyNotDefined` exactly when it is empty.
pub fn api_secret_key(cfg: &SampConf) -> (r: Result<String, ConfigError>)
    ensures
        cfg.api_secret_key@.len() == 0 ==> r == Err::<String, ConfigError>(
            ConfigError::APISecretKeyNotDefined,
        ),
        cfg.api_secret_key@.len() > 0 ==> (r matches Ok(k) && k@ == cfg.api_secret_key@),
{
    if cfg.api_secret_key.as_str().is_empty() {
        Err(ConfigError::APISecretKeyNotDefined)
    } else {
        Ok(cfg.api_secret_key.clone())
    }
}

/// The configured local path. Never fails.
pub fn local_path(cfg: &SampConf) -> (r: Result<String, ConfigError>)
    ensures
        r matches Ok(p) && p@ == cfg.local_path@,
{
    Ok(cfg.local_path.clone())
}

/// The text a configuration listing shows: one `key=value` line per setting.
pub open spec fn listing(cfg: &SampConf) -> Seq<char> {
    "api_key="@ + cfg.api_key@ + "\n"@ + "api_secret_key="@ + cfg.api_secret_key@ + "\n"@
        + "region="@ + cfg.region@ + "\n"@ + "endpoint="@ + cfg.endpoint@ + "\n"@ + "bucket="@
        + cfg.bucket@ + "\n"@ + "local_path="@ + cfg.local_path@ + "\n"@ + "sampic_endpoint="@
        + cfg.sampic_endpoint@ + "\n"@
}

/// List the configuration, one `key=value` line per setting. Never fails.
pub fn list(cfg: &SampConf) -> (r: Result<String, ConfigError>)
    ensures
        r matches Ok(s) && s@ == listing(cfg),
{
    let mut s = String::new();
    s.append("api_key=");
    s.append(cfg.api_key.as_str());
    s.append("\n");
    s.append("api_secret_key=");
    s.append(cfg.api_secret_key.as_str());
    s.append("\n");
    s.append("region=");
    s.append(cfg.region.as_str());
    s.append("\n");
    s.append("endpoint=");
    s.append(cfg.endpoint.as_str());
    s.append("\n");
    s.append("bucket=");
    s.append(cfg.bucket.as_str());
    s.append("\n");
    s.append("local_path=");
    s.append(cfg.local_path.as_str());
    s.append("\n");
    s.append("sampic_endpoint=");
    s.append(cfg.sampic_endpoint.as_str());
    s.append("\n");
    proof {
        assert(s@ =~= listing(cfg));
    }
    Ok(s)
}

/// Update one setting by name: the named field takes `value`, every other
/// field keeps its value, and an unknown name is rejected with
/// `InvalidStorageValue`.
pub fn set(cfg: SampConf, key: &String, value: String) -> (r: Result<SampConf, ConfigError>)
    ensures
        key@ == "api_key"@ ==> (r matches Ok(c) && c == (SampConf { api_key: value, ..cfg })),
        key@ == "region"@ ==> (r matches Ok(c) && c == (SampConf { region: value, ..cfg })),
        key@ == "endpoint"@ ==> (r matches Ok(c) && c == (SampConf { endpoint: value, ..cfg })),
        key@ == "bucket"@ ==> (r matches Ok(c) && c == (SampConf { bucket: value, ..cfg })),
        key@ == "api_secret_key"@ ==> (r matches Ok(c) && c == (SampConf {
            api_secret_key: value,
            ..cfg
        })),
        key@ == "local_path"@ ==> (r matches Ok(c) && c == (SampConf { local_path: value, ..cfg })),
        key@ == "sampic_endpoint"@ ==> (r matches Ok(c) && c == (SampConf {
            sampic_endpoint: value,
            ..cfg
        })),
        !(key@ == "api_key"@ || key@ == "region"@ || key@ == "endpoint"@ || key@ == "bucket"@
            || key@ == "api_secret_key"@ || key@ == "local_path"@ || key@ == "sampic_endpoint"@)
            ==> r == Err::<SampConf, ConfigError>(ConfigError::InvalidStorageValue),
{
    proof {
        reveal_strlit("api_key");
        reveal_strlit("region");
        reveal_strlit("endpoint");
        reveal_strlit("bucket");
        reveal_strlit("api_secret_key");
        reveal_strlit("local_path");
        reveal_strlit("sampic_endpoint");
        assert("api_key"@.len() == 7);
        assert("region"@.len() == 6);
        assert("endpoint"@.len() == 8);
        assert("bucket"@.len() == 6);
        assert("api_secret_key"@.len() == 14);
        assert("local_path"@.len() == 10);
        assert("sampic_endpoint"@.len() == 15);
        assert("region"@[0] == 'r');
        assert("bucket"@[0] == 'b');
    }
    if str_eq(key, "api_key") {
        Ok(SampConf { api_key: value, ..cfg })
    } else if str_eq(key, "region") {
        Ok(SampConf { region: value, ..cfg })
    } else if str_eq(key, "endpoint") {
        Ok(SampConf { endpoint: value, ..cfg })
    } else if str_eq(key, "bucket") {
        Ok(SampConf { bucket: value, ..cfg })
    } else if str_eq(key, "api_secret_key") {
        Ok(SampConf { api_secret_key: value, ..cfg })
    } else if str_eq(key, "local_path") {
        Ok(SampConf { local_path: value, ..cfg })
    } else if str_eq(key, "sampic_endpoint") {
        Ok(SampConf { sampic_endpoint: value, ..cfg })
    } else {
        Err(ConfigError::InvalidStorageValue)
    }
}

} // verus!
