use std::collections::HashMap;

use magnetite_cache::actor::StoreRequest;
use magnetite_cache::app_config::{decimal_text, AppConfig, CacheSection, CacheType, Server};
use magnetite_cache::state::{AppState, Backend};
use magnetite_cache::store::redis::RedisCommand;

fn config(kind: CacheType, expire: usize) -> AppConfig {
    let mut env = HashMap::new();
    env.insert("TOKEN".to_string(), "t".to_string());
    AppConfig {
        logger_level: "DEBUG".to_string(),
        config_path: "/etc/magnetite/config.toml".to_string(),
        proxy: Some("http://proxy:3128".to_string()),
        server: Server { listen: "0.0.0.0".to_string(), port: 80 },
        cache: CacheSection { expire, kind },
        env,
    }
}

#[test]
fn the_default_settings() {
    let config = AppConfig::new("./config.toml".to_string());
    assert_eq!(config.server.listen, "127.0.0.1");
    assert_eq!(config.server.port, 8080);
    assert_eq!(config.cache.expire, 5 * 60);
    assert!(matches!(config.cache.kind, CacheType::Memory));
    assert_eq!(config.logger_level, "INFO");
    assert_eq!(config.proxy, None);
    assert!(config.env.is_empty());
    assert_eq!(config.config_path, "./config.toml");
    assert_eq!(config.address(), "127.0.0.1:8080");
}

#[test]
fn the_address_is_listen_colon_port() {
    assert_eq!(config(CacheType::Memory, 1).address(), "0.0.0.0:80");
    let mut other = config(CacheType::Memory, 1);
    other.server = Server { listen: "::1".to_string(), port: 0 };
    assert_eq!(other.address(), "::1:0");
    other.server = Server { listen: String::new(), port: 65535 };
    assert_eq!(other.address(), ":65535");
}

#[test]
fn numbers_are_written_in_decimal() {
    assert_eq!(decimal_text(0), "0");
    assert_eq!(decimal_text(9), "9");
    assert_eq!(decimal_text(10), "10");
    assert_eq!(decimal_text(99), "99");
    assert_eq!(decimal_text(100), "100");
    assert_eq!(decimal_text(8080), "8080");
    assert_eq!(decimal_text(12345), "12345");
    assert_eq!(decimal_text(60709), "60709");
    assert_eq!(decimal_text(65535), "65535");
}

#[test]
fn the_state_of_a_program_that_caches_in_memory() {
    let state = config(CacheType::Memory, 120).into_state();
    assert_eq!(state.redis, None);
    assert_eq!(state.cache_expire, 120);
    assert_eq!(state.env.get("TOKEN"), Some(&"t".to_string()));
    assert_eq!(state.env.len(), 1);
}

#[test]
fn the_state_of_a_program_that_caches_remotely() {
    let state = config(CacheType::Redis { url: "redis://cache/1".to_string() }, 30).into_state();
    assert_eq!(state.redis, Some("redis://cache/1".to_string()));
    assert_eq!(state.cache_expire, 30);
}

#[test]
fn a_state_without_a_connection_string_runs_in_memory() {
    let state = AppState { redis: None, cache_expire: 600, env: HashMap::new() };
    match state.storage() {
        Backend::Memory(mut storage) => {
            assert_eq!(
                storage.set(b"k", &1u8, |v: &u8| serde_json::to_vec(v)),
                Ok(())
            );
            assert_eq!(
                storage.get(b"k", |b: &[u8]| serde_json::from_slice::<u8>(b)),
                Ok(Some(1u8))
            );
        }
        Backend::Redis(_) => panic!("the in-process store was asked for"),
    }

    let at_once = AppState { redis: None, cache_expire: 0, env: HashMap::new() };
    match at_once.storage() {
        Backend::Memory(mut storage) => {
            assert_eq!(
                storage.set(b"k", &1u8, |v: &u8| serde_json::to_vec(v)),
                Ok(())
            );
            assert_eq!(
                storage.get(b"k", |b: &[u8]| serde_json::from_slice::<u8>(b)),
                Ok(None)
            );
        }
        Backend::Redis(_) => panic!("the in-process store was asked for"),
    }
}

#[test]
fn a_state_with_a_connection_string_runs_on_the_service() {
    let state = AppState {
        redis: Some("redis://192.168.31.127:6380/1".to_string()),
        cache_expire: 45,
        env: HashMap::new(),
    };
    match state.storage() {
        Backend::Redis(actor) => {
            assert_eq!(actor.url(), "redis://192.168.31.127:6380/1");
            assert_eq!(actor.ttl(), 45);
            assert_eq!(
                actor.command(StoreRequest::Put(b"k".to_vec(), b"v".to_vec())),
                RedisCommand::SetEx {
                    key: b"RSS_CACHE:k".to_vec(),
                    seconds: 45,
                    value: b"v".to_vec(),
                }
            );
        }
        Backend::Memory(_) => panic!("the remote service was asked for"),
    }
}
