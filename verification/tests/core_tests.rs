use web_backend::config::{AuthConfig, ConsumeConfig, CoreConfig, ProducerConfig, SseConfig, WebConfig};
use web_backend::ctx::{Ctx, CtxError};
use web_backend::envs::{get_env, get_env_parse, parse_i64, EnvError, EnvVars};
use web_backend::text::i64_to_decimal;
use web_backend::time::{plus_sec_str_at, add_seconds, format_time, now_utc, now_utc_plus_sec_str, parse_utc, time_plus_sec_str, TimeError};

fn env(pairs: &[(&str, &str)]) -> EnvVars {
    EnvVars { vars: pairs.iter().map(|(k, v)| (k.to_string(), v.to_string())).collect() }
}

#[test]
fn root_ctx_is_user_zero() {
    assert_eq!(Ctx::root_ctx().user_id(), 0);
}

#[test]
fn new_ctx_refuses_root() {
    assert!(matches!(Ctx::new(0), Err(CtxError::CtxCannotNewRootCtx)));
    assert_eq!(Ctx::new(42).unwrap().user_id(), 42);
    assert_eq!(Ctx::new(-1).unwrap().user_id(), -1);
}

#[test]
fn parse_i64_like_std() {
    for s in ["0", "42", "-42", "+7", "007", "9223372036854775807", "-9223372036854775808",
              "9223372036854775808", "-9223372036854775809", "", "-", "+", "1a", " 1", "1 ",
              "--1", "+-1", "99999999999999999999999"] {
        assert_eq!(parse_i64(s), s.parse::<i64>().ok(), "input {s:?}");
    }
}

#[test]
fn decimal_text_like_std() {
    for n in [0i64, 7, -7, 10, 1234567890, i64::MAX, i64::MIN] {
        assert_eq!(i64_to_decimal(n), n.to_string());
    }
}

#[test]
fn get_env_finds_first_value() {
    let e = env(&[("A", "1"), ("B", "2"), ("A", "3")]);
    assert_eq!(get_env(&e, "A").unwrap(), "1");
    assert_eq!(get_env(&e, "B").unwrap(), "2");
    assert!(matches!(get_env(&e, "C"), Err(EnvError::MissingEnv(n)) if n == "C"));
    assert!(matches!(get_env_parse(&e, "B"), Ok(2)));
}

#[test]
fn auth_config_reads_keys_and_duration() {
    let e = env(&[
        ("SERVICE_PWD_KEY", "AAEC"),
        ("SERVICE_TOKEN_KEY", "_-8"),
        ("SERVICE_TOKEN_DURATION_SEC", "1800"),
    ]);
    let c = AuthConfig::load_from_env(&e).ok().unwrap();
    assert_eq!(c.PWD_KEY, vec![0u8, 1, 2]);
    assert_eq!(c.TOKEN_KEY, vec![0xffu8, 0xef]);
    assert_eq!(c.TOKEN_DURATION_SEC, 1800);
}

#[test]
fn auth_config_errors() {
    let missing = env(&[("SERVICE_PWD_KEY", "AAEC")]);
    assert!(matches!(AuthConfig::load_from_env(&missing), Err(EnvError::MissingEnv(n)) if n == "SERVICE_TOKEN_KEY"));
    let bad_key = env(&[("SERVICE_PWD_KEY", "A=A"), ("SERVICE_TOKEN_KEY", "AAEC")]);
    assert!(matches!(AuthConfig::load_from_env(&bad_key), Err(EnvError::WrongFormat(n)) if n == "SERVICE_PWD_KEY"));
    let bad_duration = env(&[
        ("SERVICE_PWD_KEY", "AAEC"),
        ("SERVICE_TOKEN_KEY", "AAEC"),
        ("SERVICE_TOKEN_DURATION_SEC", "30m"),
    ]);
    assert!(matches!(AuthConfig::load_from_env(&bad_duration), Err(EnvError::WrongFormat(n)) if n == "SERVICE_TOKEN_DURATION_SEC"));
}

#[test]
fn other_configs() {
    let e = env(&[
        ("KAFKA_BOOTSTRAP_SERVERS", "localhost:9092"),
        ("SERVICE_SSE_SERVER_URL", "0.0.0.0:8081"),
        ("SERVICE_WEB_SERVER_URL", "0.0.0.0:3000"),
        ("SERVICE_WEB_FOLDER", "web-folder/"),
        ("SERVICE_PG_DEV_APP_URL", "postgres://app"),
        ("SERVICE_PG_DEV_POSTGRES_URL", "postgres://dev"),
        ("SERVICE_SCYLLA_DB_URL", "127.0.0.1:9042"),
        ("SERVICE_SCYLLA_DB_USER", "scylla"),
        ("SERVICE_SCYLLA_DB_PASSWORD", "pwd"),
    ]);
    assert_eq!(ConsumeConfig::load_from_env(&e).ok().unwrap().KAFKA_BOOTSTRAP_SERVERS, "localhost:9092");
    assert_eq!(ProducerConfig::load_from_env(&e).ok().unwrap().KAFKA_BOOTSTRAP_SERVERS, "localhost:9092");
    assert_eq!(SseConfig::load_from_env(&e).ok().unwrap().SSE_SERVER_URL, "0.0.0.0:8081");
    let w = WebConfig::load_env_var(&e).ok().unwrap();
    assert_eq!(w.SERVICE_WEB_SERVER_URL, "0.0.0.0:3000");
    assert_eq!(w.WEB_FOLDER, "web-folder/");
    let c = CoreConfig::load_from_env(&e).ok().unwrap();
    assert_eq!(c.PSQL_DB_URL, "postgres://app");
    assert_eq!(c.PSQL_DB_URL_DEV, "postgres://dev");
    assert_eq!(c.SCYLLA_DB_URL, "127.0.0.1:9042");
    assert_eq!(c.SCYLLA_DB_USERNAME, "scylla");
    assert_eq!(c.SCYLLA_DB_PASSWORD, "pwd");
    assert_eq!(c.WEB_FOLDER, "web-folder/");
    let partial = env(&[("SERVICE_PG_DEV_APP_URL", "x"), ("SERVICE_PG_DEV_POSTGRES_URL", "y")]);
    assert!(matches!(CoreConfig::load_from_env(&partial), Err(EnvError::MissingEnv(n)) if n == "SERVICE_SCYLLA_DB_URL"));
}

#[test]
fn rfc3339_round_trip() {
    let t = parse_utc("2002-10-02T10:00:00-05:00").ok().unwrap();
    assert_eq!(t.offset_seconds(), 0);
    assert_eq!(t.unix_timestamp_nanos(), 1033570800 * 1_000_000_000);
    assert_eq!(format_time(t), "2002-10-02T15:00:00Z");
    let z = parse_utc("2024-02-29T23:59:59.5Z").ok().unwrap();
    assert_eq!(format_time(z), "2024-02-29T23:59:59.5Z");
}

#[test]
fn parse_utc_without_utc_form() {
    let late = "9999-12-31T23:00:00-05:00";
    assert!(matches!(parse_utc(late), Err(TimeError::FailToDateParse(m)) if m == late));
    let t = parse_utc("9999-12-31T20:00:00-03:59").ok().unwrap();
    assert_eq!(format_time(t), "9999-12-31T23:59:00Z");
    let early = parse_utc("0000-01-01T00:00:00+01:00").ok().unwrap();
    assert_eq!(early.offset_seconds(), 0);
}

#[test]
fn parse_utc_error() {
    assert!(matches!(parse_utc("not a date"), Err(TimeError::FailToDateParse(m)) if m == "not a date"));
}

#[test]
fn adding_seconds() {
    let t = parse_utc("2002-10-02T10:00:00Z").ok().unwrap();
    let later = add_seconds(t, 3600);
    assert_eq!(format_time(later), "2002-10-02T11:00:00Z");
    assert_eq!(time_plus_sec_str(t, -86400), "2002-10-01T10:00:00Z");
}

#[test]
fn now_plus_seconds() {
    let now = now_utc();
    assert_eq!(now.offset_seconds(), 0);
    let s = now_utc_plus_sec_str(60).unwrap();
    assert!(s.ends_with('Z'));
    assert!(parse_utc(&s).is_ok());
    assert!(now_utc_plus_sec_str(i64::MAX).is_none());
    assert!(now_utc_plus_sec_str(i64::MIN).is_none());
}

#[test]
fn plus_seconds_at_a_given_time() {
    let t = parse_utc("2002-10-02T10:00:00Z").ok().unwrap();
    assert_eq!(plus_sec_str_at(t, 90).unwrap(), "2002-10-02T10:01:30Z");
    let far = parse_utc("9999-12-31T23:00:00Z").ok().unwrap();
    assert!(plus_sec_str_at(far, 7200).is_none());
    let early = parse_utc("0000-01-01T00:00:30Z").ok().unwrap();
    assert!(plus_sec_str_at(early, -60).is_none());
    let east = parse_utc("2002-10-02T10:00:00+02:00").ok().unwrap();
    assert_eq!(plus_sec_str_at(east, 60).unwrap(), "2002-10-02T08:01:00Z");
}
