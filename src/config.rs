//! Startup configuration: resolved once from the raw settings that the
//! process environment provides, then passed to every component.

use vstd::prelude::*;
use crate::error::ChatError;

verus! {

/// The settings as the environment gives them: each one present or not.
#[derive(Debug, Clone)]
pub struct Settings {
    pub xai_api_key: Option<String>,
    pub database_url: Option<String>,
    pub server_host: Option<String>,
    pub server_port: Option<String>,
    pub default_model: Option<String>,
}

/// The resolved configuration.
#[derive(Debug, Clone)]
pub struct Config {
    pub xai_api_key: String,
    pub database_url: String,
    pub server_host: String,
    pub server_port: u16,
    pub default_model: String,
}

/// `sqlite:grok_chat.db`
pub open spec fn default_database_url() -> Seq<char> {
    seq!['s', 'q', 'l', 'i', 't', 'e', ':', 'g', 'r', 'o', 'k', '_', 'c', 'h', 'a', 't', '.', 'd', 'b']
}

/// `127.0.0.1`
pub open spec fn default_server_host() -> Seq<char> {
    seq!['1', '2', '7', '.', '0', '.', '0', '.', '1']
}

/// `grok-4-0709`
pub open spec fn default_model_name() -> Seq<char> {
    seq!['g', 'r', 'o', 'k', '-', '4', '-', '0', '7', '0', '9']
}

pub open spec fn is_digit(b: u8) -> bool {
    48 <= b <= 57
}

/// The number that a run of decimal digits writes.
pub open spec fn digits_value(d: Seq<u8>) -> nat
    decreases d.len(),
{
    if d.len() == 0 {
        0
    } else {
        digits_value(d.drop_last()) * 10 + (d.last() - 48) as nat
    }
}

/// The digits of a port text: all of it, or all after a leading `+`.
pub open spec fn port_digits(s: Seq<u8>) -> Seq<u8> {
    if s.len() > 0 && s[0] == 43 {
        s.drop_first()
    } else {
        s
    }
}

/// The port that a text names, read as an unsigned decimal number: an
/// optional `+`, then at least one digit and nothing else, at most 65535.
pub open spec fn port_value(s: Seq<u8>) -> Option<u16> {
    let d = port_digits(s);
    if d.len() > 0 && (forall|k: int| 0 <= k < d.len() ==> is_digit(#[trigger] d[k]))
        && digits_value(d) <= 65535 {
        Some(digits_value(d) as u16)
    } else {
        None
    }
}

/// The port that a text names, read from its UTF-8 bytes.
pub open spec fn port_of(text: Seq<char>) -> Option<u16> {
    port_value(vstd::utf8::encode_utf8(text))
}

proof fn lemma_digits_grow(d: Seq<u8>, i: int)
    requires
        0 <= i <= d.len(),
        forall|k: int| 0 <= k < d.len() ==> is_digit(#[trigger] d[k]),
    ensures
        digits_value(d.subrange(0, i)) <= digits_value(d),
    decreases d.len() - i,
{
    if i < d.len() {
        lemma_digits_grow(d, i + 1);
        let next = d.subrange(0, i + 1);
        assert(next.drop_last() =~= d.subrange(0, i));
    } else {
        assert(d.subrange(0, i) =~= d);
    }
}

/// Reads a port number, as `port_value` describes.
pub fn parse_port(text: &str) -> (r: Option<u16>)
    ensures
        r == port_of(text@),
{
    let s = text.as_bytes();
    let ghost d = port_digits(s@);
    let start: usize = if s.len() > 0 && s[0] == 43 {
        1
    } else {
        0
    };
    proof {
        assert(d =~= s@.subrange(start as int, s@.len() as int));
    }
    if start >= s.len() {
        return None;
    }
    let mut value: u32 = 0;
    let mut i: usize = start;
    while i < s.len()
        invariant
            d == s@.subrange(start as int, s@.len() as int),
            d == port_digits(s@),
            s@ == vstd::utf8::encode_utf8(text@),
            d.len() > 0,
            start <= i <= s@.len(),
            value <= 65535,
            value == digits_value(d.subrange(0, i - start)),
            forall|k: int| 0 <= k < i - start ==> is_digit(#[trigger] d[k]),
        decreases s@.len() - i,
    {
        let b = s[i];
        proof {
            assert(d[i - start] == b);
            let next = d.subrange(0, i - start + 1);
            assert(next.drop_last() =~= d.subrange(0, i - start));
        }
        if b < 48 || b > 57 {
            proof {
                assert(!is_digit(d[i - start]));
            }
            return None;
        }
        let v = value * 10 + (b - 48) as u32;
        if v > 65535 {
            proof {
                if forall|k: int| 0 <= k < d.len() ==> is_digit(#[trigger] d[k]) {
                    lemma_digits_grow(d, i - start + 1);
                }
            }
            return None;
        }
        value = v;
        i = i + 1;
    }
    proof {
        assert(d.subrange(0, d.len() as int) =~= d);
    }
    Some(value as u16)
}

/// What resolving `settings` gives: a configuration error exactly when the
/// API key is missing or the port is not a number in 0..=65535, and otherwise
/// each setting given, or its fallback.
pub open spec fn resolves_to(settings: Settings, r: Result<Config, ChatError>) -> bool {
    &&& settings.xai_api_key is None ==> r is Err
    &&& settings.xai_api_key is Some ==> match settings.server_port {
        Some(p) => port_of(p@) is None <==> r is Err,
        None => r is Ok,
    }
    &&& r matches Err(e) ==> e is Config
    &&& r matches Ok(c) ==> {
        &&& Some(c.xai_api_key) == settings.xai_api_key
        &&& c.database_url@ == match settings.database_url {
            Some(u) => u@,
            None => default_database_url(),
        }
        &&& c.server_host@ == match settings.server_host {
            Some(h) => h@,
            None => default_server_host(),
        }
        &&& c.server_port == match settings.server_port {
            Some(p) => port_of(p@)->Some_0,
            None => 3000u16,
        }
        &&& c.default_model@ == match settings.default_model {
            Some(m) => m@,
            None => default_model_name(),
        }
    }
}

impl Config {
    /// Resolves the settings: the API key must be present; the others fall
    /// back to `sqlite:grok_chat.db`, `127.0.0.1`, port 3000 and `grok-4-0709`;
    /// a port that is not a number in 0..=65535 is refused.
    pub fn from_settings(settings: Settings) -> (r: Result<Config, ChatError>)
        ensures
            resolves_to(settings, r),
    {
        proof {
            reveal_strlit("sqlite:grok_chat.db");
            reveal_strlit("127.0.0.1");
            reveal_strlit("grok-4-0709");
            assert("sqlite:grok_chat.db"@ =~= default_database_url());
            assert("127.0.0.1"@ =~= default_server_host());
            assert("grok-4-0709"@ =~= default_model_name());
        }
        let xai_api_key = match settings.xai_api_key {
            Some(k) => k,
            None => {
                return Err(
                    ChatError::Config("XAI_API_KEY environment variable is required".to_owned()),
                );
            },
        };
        let database_url = match settings.database_url {
            Some(u) => u,
            None => "sqlite:grok_chat.db".to_owned(),
        };
        let server_host = match settings.server_host {
            Some(h) => h,
            None => "127.0.0.1".to_owned(),
        };
        let server_port = match &settings.server_port {
            Some(p) => match parse_port(p.as_str()) {
                Some(n) => n,
                None => {
                    return Err(ChatError::Config("Invalid SERVER_PORT value".to_owned()));
                },
            },
            None => 3000,
        };
        let default_model = match settings.default_model {
            Some(m) => m,
            None => "grok-4-0709".to_owned(),
        };
        Ok(Config { xai_api_key, database_url, server_host, server_port, default_model })
    }

    pub fn xai_api_key(&self) -> (r: &str)
        ensures
            r@ == self.xai_api_key@,
    {
        self.xai_api_key.as_str()
    }

    pub fn database_url(&self) -> (r: &str)
        ensures
            r@ == self.database_url@,
    {
        self.database_url.as_str()
    }

    pub fn server_host(&self) -> (r: &str)
        ensures
            r@ == self.server_host@,
    {
        self.server_host.as_str()
    }

    pub fn server_port(&self) -> (r: u16)
        ensures
            r == self.server_port,
    {
        self.server_port
    }

    pub fn default_model(&self) -> (r: &str)
        ensures
            r@ == self.default_model@,
    {
        self.default_model.as_str()
    }
}

impl Default for Config {
    /// No API key, and the fallback of every other setting.
    fn default() -> (c: Config)
        ensures
            c.xai_api_key@.len() == 0,
            c.database_url@ == default_database_url(),
            c.server_host@ == default_server_host(),
            c.server_port == 3000,
            c.default_model@ == default_model_name(),
    {
        proof {
            reveal_strlit("");
            reveal_strlit("sqlite:grok_chat.db");
            reveal_strlit("127.0.0.1");
            reveal_strlit("grok-4-0709");
            assert("sqlite:grok_chat.db"@ =~= default_database_url());
            assert("127.0.0.1"@ =~= default_server_host());
            assert("grok-4-0709"@ =~= default_model_name());
        }
        Config {
            xai_api_key: "".to_owned(),
            database_url: "sqlite:grok_chat.db".to_owned(),
            server_host: "127.0.0.1".to_owned(),
            server_port: 3000,
            default_model: "grok-4-0709".to_owned(),
        }
    }
}

/// Resolves the configuration from the settings of the process.
pub fn load_config(settings: Settings) -> (r: Result<Config, ChatError>)
    ensures
        resolves_to(settings, r),
{
    Config::from_settings(settings)
}

} // verus!
