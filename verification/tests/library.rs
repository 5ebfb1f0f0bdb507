use percent_encoding::{utf8_percent_encode, NON_ALPHANUMERIC};
use market_api_server::config::{
    parse_port, Config, ConfigError, EnvVar, EnvVars, Environment, LogFilter, LogLevel,
};
use market_api_server::fetch::models::{Item, Response, Trader, TraderPrice};
use market_api_server::fetch::{items_of, FetchError};
use market_api_server::server::endpoints::post_oauth_refresh;
use market_api_server::server::error::{Error, ResultExt};
use market_api_server::server::models::{OAuthRefreshData, PriceData, TraderPriceData};
use market_api_server::server::recover::{recover, Rejection};
use market_api_server::server::state::{
    after_first_lookup, compress_market_items, market_entries, market_item, Lookup, StateHandle,
};
use market_api_server::server::status::StatusCode;
use market_api_server::server::util::PercentDecoded;
use market_api_server::db::models::NewPriceData;
use market_api_server::service::{
    after_fetch, languages, price_data_write, update_writes, AfterFetch, LanguageCycle, Write,
};
use market_api_server::text::trim;
use std::io::Read;

#[test]
fn trim_drops_unicode_white_space_at_both_ends() {
    assert_eq!(trim("  abc  "), "abc");
    assert_eq!(trim("\u{3000}\t a b \u{85}\n"), "a b");
    assert_eq!(trim("   "), "");
    assert_eq!(trim(""), "");
    assert_eq!(trim("x"), "x");
    for s in ["  abc  ", " \u{2000}q\u{205f}", "a  b", "\u{a0}"] {
        assert_eq!(trim(s), s.trim());
        assert_eq!(trim(trim(s)), trim(s));
    }
}

#[test]
fn percent_decoding() {
    assert_eq!(PercentDecoded::decode("%20abc%20").unwrap().as_str(), " abc ");
    assert_eq!(PercentDecoded::decode("a%2fb%2F").unwrap().as_str(), "a/b/");
    assert_eq!(PercentDecoded::decode("100%").unwrap().as_str(), "100%");
    assert_eq!(PercentDecoded::decode("%zz%4").unwrap().as_str(), "%zz%4");
    assert_eq!(PercentDecoded::decode("%C3%A9").unwrap().as_str(), "\u{e9}");
    let e = PercentDecoded::decode("%FF").unwrap_err();
    assert_eq!(e.code().as_u16(), 400);
    let parsed: PercentDecoded = "x%41".parse().unwrap();
    assert_eq!(AsRef::<str>::as_ref(&parsed), "xA");
}

#[test]
fn ports_parse_as_u16() {
    assert_eq!(parse_port("8081"), Some(8081));
    assert_eq!(parse_port("+80"), Some(80));
    assert_eq!(parse_port("0"), Some(0));
    assert_eq!(parse_port("65535"), Some(65535));
    assert_eq!(parse_port("65536"), None);
    assert_eq!(parse_port("99999999999"), None);
    assert_eq!(parse_port(""), None);
    assert_eq!(parse_port("+"), None);
    assert_eq!(parse_port("-1"), None);
    assert_eq!(parse_port(" 80"), None);
    assert_eq!(parse_port("8a"), None);
    for s in ["8081", "+80", "65536", "", "+", "-1", "007"] {
        assert_eq!(parse_port(s), s.parse::<u16>().ok());
    }
}

fn vars() -> EnvVars {
    EnvVars {
        port: Some("8081".to_string()),
        database_url: Some("sqlite://./db.sqlite".to_string()),
        auth_key: Some("MY_SECURE_KEY".to_string()),
        oauth_client_id_discord: Some("id".to_string()),
        oauth_client_secret_discord: Some("secret".to_string()),
        oauth_client_token_endpoint_discord: Some("https://token".to_string()),
        environment: Some("Production".to_string()),
    }
}

#[test]
fn config_from_env() {
    let c = Config::from_env(vars()).unwrap();
    assert_eq!(c.port, 8081);
    assert_eq!(c.database_url, "sqlite://./db.sqlite");
    assert_eq!(c.auth_key, "MY_SECURE_KEY");
    assert_eq!(c.env, Environment::Production);

    let mut v = vars();
    v.port = None;
    v.environment = None;
    v.database_url = None;
    assert!(matches!(Config::from_env(v), Err(ConfigError::Missing(EnvVar::DatabaseUrl))));
    let mut v = vars();
    v.port = Some("80000".to_string());
    assert!(matches!(Config::from_env(v), Err(ConfigError::InvalidPort)));
    let mut v = vars();
    v.auth_key = None;
    v.environment = None;
    assert!(matches!(Config::from_env(v), Err(ConfigError::Missing(EnvVar::AuthKey))));
    let mut v = vars();
    v.environment = Some("Staging".to_string());
    match Config::from_env(v) {
        Err(ConfigError::InvalidEnvironment(name)) => assert_eq!(name, "Staging"),
        other => panic!("unexpected {:?}", other.map(|_| ())),
    }
    let mut v = vars();
    v.port = Some("x".to_string());
    v.database_url = None;
    assert!(matches!(Config::from_env(v), Err(ConfigError::InvalidPort)));
    assert_eq!(EnvVar::OAuthClientTokenEndpointDiscord.name(), "OAUTH_CLIENT_TOKEN_ENDPOINT_DISCORD");
}

#[test]
fn environments_and_logging() {
    assert_eq!(Environment::from_name("Development"), Some(Environment::Development));
    assert_eq!(Environment::from_name("Test"), Some(Environment::Test));
    assert_eq!(Environment::from_name("test"), None);
    assert_eq!(
        Environment::Development.log_filter(),
        Some(LogFilter { level: LogLevel::Info, sqlx: Some(LogLevel::Error) })
    );
    assert_eq!(
        Environment::Production.log_filter(),
        Some(LogFilter { level: LogLevel::Warn, sqlx: None })
    );
    assert_eq!(Environment::Test.log_filter(), None);
}

#[test]
fn recover_answers() {
    let (code, msg) = recover(&Rejection::NotFound);
    assert_eq!((code.as_u16(), msg.code, msg.message), (404, 404, Some("Not Found")));
    let (code, msg) = recover(&Rejection::MethodNotAllowed);
    assert_eq!((code.as_u16(), msg.message), (405, Some("Method Not Allowed")));
    let (code, _) = recover(&Rejection::BodyDeserialize);
    assert_eq!(code.as_u16(), 400);
    let (code, _) = recover(&Rejection::MissingHeader);
    assert_eq!(code.as_u16(), 400);
    let (code, msg) = recover(&Rejection::Other);
    assert_eq!((code.as_u16(), msg.message), (500, Some("Internal Server Error")));
    let (code, msg) = recover(&Rejection::Error(Error::from(StatusCode::unauthorized())));
    assert_eq!((code.as_u16(), msg.message), (401, Some("Unauthorized")));
    let unusual = StatusCode::from_u16(599).unwrap();
    let (_, msg) = recover(&Rejection::Error(Error::from(unusual)));
    assert_eq!((msg.code, msg.message), (599, None));
}

#[test]
fn status_codes() {
    assert!(StatusCode::from_u16(99).is_none());
    assert!(StatusCode::from_u16(1000).is_none());
    assert!(StatusCode::internal_server_error().is_server_error());
    assert!(!StatusCode::not_found().is_server_error());
    assert!(StatusCode::not_found().is_client_error());
    assert_eq!(Error::not_found().code().as_u16(), 404);
    assert_eq!(Error::server_error().code().as_u16(), 500);
}

#[test]
fn result_ext_keeps_the_message() {
    let r: Result<u8, String> = Err("boom".to_string());
    let e = r.client_error().unwrap_err();
    assert_eq!((e.code().as_u16(), e.source()), (400, Some("boom")));
    let r: Result<u8, String> = Err("boom".to_string());
    assert_eq!(r.server_error().unwrap_err().code().as_u16(), 500);
    let r: Result<u8, String> = Ok(7);
    assert_eq!(r.status_code_error(StatusCode::not_found()).unwrap(), 7);
}

#[test]
fn oauth_refresh_checks_the_client() {
    let conf = Config::new(
        8081,
        "db".to_string(),
        "1234".to_string(),
        "client".to_string(),
        "secret".to_string(),
        "https://discord/token".to_string(),
        Environment::Test,
    );
    let wrong = OAuthRefreshData { client_id: "other".to_string(), refresh_token: "t".to_string() };
    assert_eq!(post_oauth_refresh(&conf, wrong).err().unwrap().code().as_u16(), 400);
    let right = OAuthRefreshData { client_id: "client".to_string(), refresh_token: "t".to_string() };
    let req = post_oauth_refresh(&conf, right).ok().unwrap();
    assert_eq!(req.uri, "https://discord/token");
    assert_eq!(
        req.form,
        vec![
            ("client_id", "client".to_string()),
            ("client_secret", "secret".to_string()),
            ("grant_type", "refresh_token".to_string()),
            ("refresh_token", "t".to_string()),
        ]
    );
}

fn item(id: &str, traders: &[(&str, i64)]) -> Item {
    Item {
        id: id.to_string(),
        base_price: 100,
        updated: Some("2020-01-01".to_string()),
        icon_link: Some("icon".to_string()),
        wiki_link: None,
        image_link: None,
        last_low_price: None,
        low_24h_price: None,
        avg_24h_price: Some(90),
        trader_prices: traders
            .iter()
            .map(|(t, p)| TraderPrice {
                price: *p,
                trader: Trader { id: t.to_string(), name: t.to_uppercase() },
            })
            .collect(),
    }
}

#[test]
fn fetched_answers() {
    let items = items_of(Response::Data { items_by_type: vec![item("a", &[])] }).unwrap();
    assert_eq!(items.len(), 1);
    assert!(matches!(items_of(Response::Error {}), Err(FetchError::Graphql)));
}

#[test]
fn writes_follow_the_items() {
    let items = vec![item("a", &[("t1", 5), ("t2", 6)]), item("b", &[])];
    let w = update_writes(&items, 1700);
    assert_eq!(w.len(), 2 + 4 + 2);
    match w[0] {
        Write::Item(i) => assert_eq!((i.id, i.icon_link, i.wiki_link), ("a", Some("icon"), None)),
        _ => panic!(),
    }
    match w[1] {
        Write::PriceData(p) => {
            assert_eq!((p.item_id, p.timestamp, p.base_price, p.avg_24h_price), ("a", 1700, 100, Some(90)))
        }
        _ => panic!(),
    }
    match w[2] {
        Write::Trader(t) => assert_eq!((t.id, t.name), ("t1", "T1")),
        _ => panic!(),
    }
    match w[5] {
        Write::TraderPriceData(t) => {
            assert_eq!((t.item_id, t.trader_id, t.timestamp, t.price), ("a", "t2", 1700, 6))
        }
        _ => panic!(),
    }
    assert!(matches!(w[6], Write::Item(i) if i.id == "b"));
    assert!(update_writes(&vec![], 0).is_empty());
}

#[test]
fn languages_go_round() {
    let langs = languages();
    assert_eq!(langs, vec!["en"]);
    let mut c = LanguageCycle::new(vec!["en", "de", "fr"]);
    let taken: Vec<&str> = (0..7).map(|_| c.next()).collect();
    assert_eq!(taken, vec!["en", "de", "fr", "en", "de", "fr", "en"]);
    assert_eq!(after_fetch(true), AfterFetch::RefreshThenWait(600));
    assert_eq!(after_fetch(false), AfterFetch::Wait(60));
}

fn gunzip(data: &[u8]) -> Vec<u8> {
    let mut out = Vec::new();
    flate2::read::GzDecoder::new(data).read_to_end(&mut out).unwrap();
    out
}

#[test]
fn market_data_per_language() {
    let row = market_api_server::db::models::Item {
        id: "a".to_string(),
        icon_link: None,
        wiki_link: Some("w".to_string()),
        image_link: None,
    };
    assert!(market_item(row.clone(), None, vec![]).is_none());
    let price = PriceData { timestamp: 3, base_price: 4, avg_24h_price: None };
    let tp = TraderPriceData { trader_id: "t".to_string(), timestamp: 3, price: 2 };
    let it = market_item(row, Some(price.clone()), vec![tp.clone()]).unwrap();
    assert_eq!((it.id.as_str(), it.price_data, it.trader_prices), ("a", price, vec![tp]));

    let compressed = compress_market_items(b"[1,2,3]").unwrap();
    assert_eq!(gunzip(&compressed), b"[1,2,3]");

    let state = StateHandle::new();
    assert_eq!(state.get(None), None);
    state.update("en", vec![], b"[]").unwrap();
    state.update("de", vec![], b"[0]").unwrap();
    assert_eq!(gunzip(&state.get(None).unwrap()), b"[]");
    assert_eq!(gunzip(&state.get(Some("de")).unwrap()), b"[0]");
    assert_eq!(gunzip(&state.get(Some("fr")).unwrap()), b"[]");
    assert_eq!(gunzip(&state.state().get(Some("en")).unwrap()), b"[]");
}

#[test]
fn lookups_fall_back_to_english() {
    assert!(matches!(after_first_lookup(Some("de"), Some(vec![1])), Lookup::Found(d) if d == vec![1]));
    assert!(matches!(after_first_lookup(Some("de"), None), Lookup::LookUp("en")));
    assert!(matches!(after_first_lookup(None, None), Lookup::Nothing));
    assert!(matches!(after_first_lookup(None, Some(vec![])), Lookup::Found(d) if d.is_empty()));
}

#[test]
fn entries_of_an_update() {
    let ((k1, g), (k2, items)) = market_entries("de", vec![], b"[9]").unwrap();
    assert_eq!((k1.as_str(), k2.as_str()), ("de", "de"));
    assert_eq!(gunzip(&g), b"[9]");
    assert!(items.is_empty());
}

#[test]
fn unchanged_prices_are_not_written_again() {
    let row = NewPriceData { item_id: "a", timestamp: 1, base_price: 2, avg_24h_price: None };
    assert_eq!(price_data_write(row, true), None);
    assert_eq!(price_data_write(row, false), Some(row));
}

#[test]
fn percent_encoding_round_trips() {
    for s in ["a b/c", "100%", "caf\u{e9} +", "", "\u{1F600}"] {
        let encoded = utf8_percent_encode(s, NON_ALPHANUMERIC).to_string();
        assert_eq!(PercentDecoded::decode(&encoded).unwrap().as_str(), s);
    }
    assert_eq!(PercentDecoded::decode("+").unwrap().as_str(), "+");
}

#[test]
fn readme_environment_is_enough() {
    let v = EnvVars {
        port: None,
        database_url: Some("sqlite://./db.sqlite".to_string()),
        auth_key: Some("MY_SECURE_KEY".to_string()),
        oauth_client_id_discord: None,
        oauth_client_secret_discord: None,
        oauth_client_token_endpoint_discord: None,
        environment: None,
    };
    let c = Config::from_env(v).unwrap();
    assert_eq!(c.database_url, "sqlite://./db.sqlite");
    assert_eq!(c.auth_key, "MY_SECURE_KEY");
    assert_eq!(c.port, 8081);
    assert_eq!(c.env, Environment::Development);
    assert_eq!(c.oauth_client_id_discord, "");
}
