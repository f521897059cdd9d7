//! Configuration of the Veil server shim and its defaults.
//!
//! Reading the TOML file and the environment happens outside the library;
//! the library holds the values and decides what they mean.
use vstd::prelude::*;
use vstd::string::StringExecFns;

verus! {

/// Default maximum request body size: 10 MiB.
pub const DEFAULT_MAX_BODY_SIZE: usize = 10485760;

/// Default request timeout and default maximum request age, in seconds.
pub const DEFAULT_TIMEOUT_SECS: u64 = 300;

/// Configuration for an additional server key.
#[derive(Debug, Clone)]
pub struct KeyConfig {
    /// Base64-encoded secret key.
    pub secret_key: String,
    /// Key identifier.
    pub key_id: String,
}

/// Server configuration, as loaded from a TOML file or defaulted.
#[derive(Debug, Clone)]
pub struct ServerConfig {
    /// Address to listen on.
    pub listen_addr: String,
    /// URL of the actual LLM inference backend.
    pub backend_url: String,
    /// Server's static secret key (base64).
    pub server_secret_key: String,
    /// Key ID advertised to clients.
    pub key_id: String,
    /// Maximum request body size in bytes (default: 10 MiB).
    pub max_body_size: Option<usize>,
    /// Request timeout in seconds (default: 300).
    pub request_timeout_secs: Option<u64>,
    /// Enable Prometheus metrics endpoint.
    pub metrics_enabled: Option<bool>,
    /// Maximum age of a request in seconds for replay protection (default: 300).
    pub max_request_age_secs: Option<u64>,
    /// Additional key pairs for key rotation support.
    pub additional_keys: Option<Vec<KeyConfig>>,
}

/// `config` holds the documented defaults: listening on `0.0.0.0:8481`,
/// backend `http://127.0.0.1:8000`, no secret key, key ID `default`, a
/// 10 MiB body limit, 300-second timeout and request age, metrics on, and no
/// additional keys.
pub open spec fn is_default_config(config: ServerConfig) -> bool {
    &&& config.listen_addr@ == "0.0.0.0:8481"@
    &&& config.backend_url@ == "http://127.0.0.1:8000"@
    &&& config.server_secret_key@ == Seq::<char>::empty()
    &&& config.key_id@ == "default"@
    &&& config.max_body_size == Some(DEFAULT_MAX_BODY_SIZE)
    &&& config.request_timeout_secs == Some(DEFAULT_TIMEOUT_SECS)
    &&& config.metrics_enabled == Some(true)
    &&& config.max_request_age_secs == Some(DEFAULT_TIMEOUT_SECS)
    &&& config.additional_keys is None
}

impl Default for ServerConfig {
    fn default() -> (r: Self)
        ensures
            is_default_config(r),
            r.listen_addr@ == "0.0.0.0:8481"@,
            r.backend_url@ == "http://127.0.0.1:8000"@,
            r.server_secret_key@.len() == 0,
            r.key_id@ == "default"@,
            r.max_body_size == Some(10485760usize),
            r.request_timeout_secs == Some(300u64),
            r.metrics_enabled == Some(true),
            r.max_request_age_secs == Some(300u64),
            r.additional_keys is None,
    {
        ServerConfig {
            listen_addr: String::from_str("0.0.0.0:8481"),
            backend_url: String::from_str("http://127.0.0.1:8000"),
            server_secret_key: String::new(),
            key_id: String::from_str("default"),
            max_body_size: Some(DEFAULT_MAX_BODY_SIZE),
            request_timeout_secs: Some(DEFAULT_TIMEOUT_SECS),
            metrics_enabled: Some(true),
            max_request_age_secs: Some(DEFAULT_TIMEOUT_SECS),
            additional_keys: None,
        }
    }
}

/// The (key ID, secret) texts of the keys the server loads, in order: the
/// primary key with `primary_secret`, then the additional keys as configured.
pub open spec fn key_source_views(config: ServerConfig, primary_secret: Seq<char>) -> Seq<(Seq<char>, Seq<char>)> {
    seq![(config.key_id@, primary_secret)] + match config.additional_keys {
        Some(keys) => keys@.map_values(|k: KeyConfig| (k.key_id@, k.secret_key@)),
        None => Seq::empty(),
    }
}

/// The `Duration` that `std::time::Duration::from_secs(secs)` returns: a
/// span of exactly `secs` whole seconds.
pub uninterp spec fn duration_of_secs(secs: u64) -> std::time::Duration;

/// `std::time::Duration::from_secs`. Claimed of it: its result is
/// `duration_of_secs(secs)`, the same for the same number of seconds.
#[verifier::external_body]
fn duration_from_secs(secs: u64) -> (r: std::time::Duration)
    ensures
        r == duration_of_secs(secs),
{
    std::time::Duration::from_secs(secs)
}

impl ServerConfig {
    /// The secret key to load: the value of the `VEIL_SERVER_SECRET_KEY`
    /// environment variable where it is set (`env_value`), else the one from
    /// the configuration file.
    pub fn choose_secret_key(&self, env_value: Option<String>) -> (r: String)
        ensures
            r@ == match env_value {
                Some(v) => v@,
                None => self.server_secret_key@,
            },
    {
        match env_value {
            Some(v) => v,
            None => self.server_secret_key.clone(),
        }
    }

    /// The keys that the server loads, in order, as (key ID, base64 secret)
    /// pairs: the primary key under `key_id` with the secret that
    /// `choose_secret_key(env_value)` picks, then every additional key in the
    /// order configured.
    pub fn key_sources(&self, env_value: Option<String>) -> (r: Vec<(String, String)>)
        ensures
            r@.map_values(|p: (String, String)| (p.0@, p.1@)) == key_source_views(
                *self,
                match env_value {
                    Some(v) => v@,
                    None => self.server_secret_key@,
                },
            ),
            r@.len() == 1 + match self.additional_keys {
                Some(keys) => keys@.len(),
                None => 0,
            },
            r@[0].0@ == self.key_id@,
            r@[0].1@ == match env_value {
                Some(v) => v@,
                None => self.server_secret_key@,
            },
            self.additional_keys matches Some(keys) ==> forall|i: int|
                0 <= i < keys@.len() ==> {
                    &&& (#[trigger] r@[i + 1]).0@ == keys@[i].key_id@
                    &&& r@[i + 1].1@ == keys@[i].secret_key@
                },
    {
        let mut sources: Vec<(String, String)> = Vec::new();
        let primary = self.choose_secret_key(env_value);
        let ghost primary_text = primary@;
        sources.push((self.key_id.clone(), primary));
        match &self.additional_keys {
            None => {},
            Some(keys) => {
                let ghost first = sources@.map_values(|p: (String, String)| (p.0@, p.1@));
                let mut i: usize = 0;
                while i < keys.len()
                    invariant
                        0 <= i <= keys@.len(),
                        sources@.map_values(|p: (String, String)| (p.0@, p.1@)) == first
                            + keys@.subrange(0, i as int).map_values(|k: KeyConfig| (k.key_id@, k.secret_key@)),
                    decreases keys@.len() - i,
                {
                    let kc = &keys[i];
                    let id = kc.key_id.clone();
                    let secret = kc.secret_key.clone();
                    let ghost before = sources@;
                    sources.push((id, secret));
                    assert(sources@ == before.push((id, secret)));
                    assert(sources@.map_values(|p: (String, String)| (p.0@, p.1@))
                        =~= before.map_values(|p: (String, String)| (p.0@, p.1@)).push((kc.key_id@, kc.secret_key@)));
                    assert(keys@.subrange(0, i + 1).map_values(|k: KeyConfig| (k.key_id@, k.secret_key@))
                        =~= keys@.subrange(0, i as int).map_values(|k: KeyConfig| (k.key_id@, k.secret_key@)).push(
                        (kc.key_id@, kc.secret_key@)));
                    assert(sources@.map_values(|p: (String, String)| (p.0@, p.1@)) =~= first
                        + keys@.subrange(0, i + 1).map_values(|k: KeyConfig| (k.key_id@, k.secret_key@)));
                    i = i + 1;
                }
                assert(keys@.subrange(0, keys@.len() as int) =~= keys@);
            },
        }
        proof {
            lemma_key_source_views_shape(*self, primary_text);
            let views = sources@.map_values(|p: (String, String)| (p.0@, p.1@));
            assert(views.len() == sources@.len());
            assert(views[0] == (sources@[0].0@, sources@[0].1@));
            match &self.additional_keys {
                Some(keys) => {
                    assert forall|i: int| 0 <= i < keys@.len() implies {
                        &&& (#[trigger] sources@[i + 1]).0@ == keys@[i].key_id@
                        &&& sources@[i + 1].1@ == keys@[i].secret_key@
                    } by {
                        assert(views[i + 1] == (sources@[i + 1].0@, sources@[i + 1].1@));
                        assert(key_source_views(*self, primary_text)[i + 1] == (
                            keys@[i].key_id@,
                            keys@[i].secret_key@,
                        ));
                    }
                },
                None => {},
            }
        }
        sources
    }

    /// The max body size, 10 MiB where none is configured.
    pub fn max_body_size(&self) -> (r: usize)
        ensures
            r == match self.max_body_size {
                Some(v) => v,
                None => DEFAULT_MAX_BODY_SIZE,
            },
    {
        match self.max_body_size {
            Some(v) => v,
            None => DEFAULT_MAX_BODY_SIZE,
        }
    }

    /// The request timeout in seconds, 300 where none is configured.
    pub fn request_timeout_secs_or_default(&self) -> (r: u64)
        ensures
            r == match self.request_timeout_secs {
                Some(v) => v,
                None => DEFAULT_TIMEOUT_SECS,
            },
    {
        match self.request_timeout_secs {
            Some(v) => v,
            None => DEFAULT_TIMEOUT_SECS,
        }
    }

    /// The request timeout: `request_timeout_secs_or_default` seconds.
    pub fn request_timeout(&self) -> (r: std::time::Duration)
        ensures
            r == duration_of_secs(match self.request_timeout_secs {
                Some(v) => v,
                None => DEFAULT_TIMEOUT_SECS,
            }),
    {
        duration_from_secs(self.request_timeout_secs_or_default())
    }

    /// The maximum request age for replay protection in seconds, 300 where
    /// none is configured.
    pub fn max_request_age_secs_or_default(&self) -> (r: u64)
        ensures
            r == match self.max_request_age_secs {
                Some(v) => v,
                None => DEFAULT_TIMEOUT_SECS,
            },
    {
        match self.max_request_age_secs {
            Some(v) => v,
            None => DEFAULT_TIMEOUT_SECS,
        }
    }

    /// The maximum request age: `max_request_age_secs_or_default` seconds.
    pub fn max_request_age(&self) -> (r: std::time::Duration)
        ensures
            r == duration_of_secs(match self.max_request_age_secs {
                Some(v) => v,
                None => DEFAULT_TIMEOUT_SECS,
            }),
    {
        duration_from_secs(self.max_request_age_secs_or_default())
    }
}

/// The shape of the key list, for every configuration and primary secret:
/// one entry more than there are additional keys; first the primary key ID
/// with the primary secret, then each additional key's ID and secret in the
/// configured order, whichever secret the primary entry carries.
pub proof fn lemma_key_source_views_shape(config: ServerConfig, primary_secret: Seq<char>)
    ensures
        key_source_views(config, primary_secret).len() == 1 + match config.additional_keys {
            Some(keys) => keys@.len(),
            None => 0,
        },
        key_source_views(config, primary_secret)[0] == (config.key_id@, primary_secret),
        config.additional_keys matches Some(keys) ==> forall|i: int|
            0 <= i < keys@.len() ==> #[trigger] key_source_views(config, primary_secret)[i + 1] == (
                keys@[i].key_id@,
                keys@[i].secret_key@,
            ),
{
}

} // verus!
