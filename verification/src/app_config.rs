//! The settings a program is started with.

use std::collections::HashMap;
use vstd::prelude::*;
use vstd::string::*;
use crate::actor::CACHE_EXPIRE;
use crate::state::AppState;

verus! {

/// Where the cache keeps its entries.
#[derive(Debug)]
pub enum CacheType {
    /// On the remote service at `url`.
    Redis { url: String },
    /// In the process itself.
    Memory,
}

/// The cache's share of the settings.
#[derive(Debug)]
pub struct CacheSection {
    /// Seconds a cached entry lives.
    pub expire: usize,
    /// The backend.
    pub kind: CacheType,
}

/// Where the program listens.
#[derive(Debug)]
pub struct Server {
    pub listen: String,
    pub port: u16,
}

/// All settings of the program.
#[derive(Debug)]
pub struct AppConfig {
    pub logger_level: String,
    pub config_path: String,
    pub proxy: Option<String>,
    pub server: Server,
    pub cache: CacheSection,
    pub env: HashMap<String, String>,
}

/// The character of the decimal digit `d`.
pub open spec fn digit(d: nat) -> char {
    if d == 0 {
        '0'
    } else if d == 1 {
        '1'
    } else if d == 2 {
        '2'
    } else if d == 3 {
        '3'
    } else if d == 4 {
        '4'
    } else if d == 5 {
        '5'
    } else if d == 6 {
        '6'
    } else if d == 7 {
        '7'
    } else if d == 8 {
        '8'
    } else {
        '9'
    }
}

/// The decimal numeral of `n`, without leading zeros.
pub open spec fn decimal(n: nat) -> Seq<char>
    decreases n,
{
    if n < 10 {
        seq![digit(n)]
    } else {
        decimal(n / 10).push(digit(n % 10))
    }
}

/// The text `listen:port`.
pub open spec fn address_of(listen: Seq<char>, port: u16) -> Seq<char> {
    listen.push(':') + decimal(port as nat)
}

fn digit_text(d: u16) -> (text: &'static str)
    requires
        d < 10,
    ensures
        text@ == seq![digit(d as nat)],
{
    proof {
        reveal_strlit("0");
        reveal_strlit("1");
        reveal_strlit("2");
        reveal_strlit("3");
        reveal_strlit("4");
        reveal_strlit("5");
        reveal_strlit("6");
        reveal_strlit("7");
        reveal_strlit("8");
        reveal_strlit("9");
    }
    let text = if d == 0 {
        "0"
    } else if d == 1 {
        "1"
    } else if d == 2 {
        "2"
    } else if d == 3 {
        "3"
    } else if d == 4 {
        "4"
    } else if d == 5 {
        "5"
    } else if d == 6 {
        "6"
    } else if d == 7 {
        "7"
    } else if d == 8 {
        "8"
    } else {
        "9"
    };
    assert(text@ =~= seq![digit(d as nat)]);
    text
}

/// Writes `n` in decimal.
pub fn decimal_text(n: u16) -> (text: String)
    ensures
        text@ == decimal(n as nat),
    decreases n,
{
    if n < 10 {
        String::from_str(digit_text(n))
    } else {
        let text = decimal_text(n / 10).concat(digit_text(n % 10));
        assert(text@ =~= decimal(n as nat));
        text
    }
}

impl AppConfig {
    /// The settings of a program that was given none, to be kept at
    /// `config_path`: it listens on the loopback address, keeps entries
    /// in the process for the default TTL, and logs at `INFO`.
    pub fn new(config_path: String) -> (config: Self)
        ensures
            config.server.listen@ == "127.0.0.1"@,
            config.server.port == 8080,
            config.cache.expire == CACHE_EXPIRE,
            config.cache.kind is Memory,
            config.logger_level@ == "INFO"@,
            config.proxy is None,
            config.env@ == Map::<String, String>::empty(),
            config.config_path == config_path,
    {
        AppConfig {
            server: Server { listen: String::from_str("127.0.0.1"), port: 8080 },
            cache: CacheSection { expire: CACHE_EXPIRE, kind: CacheType::Memory },
            logger_level: String::from_str("INFO"),
            proxy: None,
            env: HashMap::new(),
            config_path,
        }
    }

    /// What the running program keeps of these settings: the connection
    /// string where the cache is remote, the TTL, and the free-form settings.
    pub fn into_state(self) -> (state: AppState)
        ensures
            self.cache.kind matches CacheType::Redis { url } ==> (state.redis matches Some(kept)
                && kept@ == url@),
            self.cache.kind is Memory ==> state.redis is None,
            state.cache_expire == self.cache.expire,
            state.env == self.env,
    {
        let redis = match &self.cache.kind {
            CacheType::Redis { url } => Some(url.clone()),
            CacheType::Memory => None,
        };
        AppState { redis, cache_expire: self.cache.expire, env: self.env }
    }

    /// The address to listen on, as `listen:port`.
    pub fn address(&self) -> (address: String)
        ensures
            address@ == address_of(self.server.listen@, self.server.port),
    {
        proof {
            reveal_strlit(":");
        }
        let address = self.server.listen.clone().concat(":").concat(
            decimal_text(self.server.port).as_str(),
        );
        assert(address@ =~= address_of(self.server.listen@, self.server.port));
        address
    }
}

} // verus!
