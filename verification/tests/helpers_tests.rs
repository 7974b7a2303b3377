//! Utilities and configuration: formatting, normalization, truncation,
//! identifier generation, parsing and environment selection.

use game_soul::config::AppConfig;
use game_soul::config::Environment;
use game_soul::helpers::format_minutes_to_human_readable;
use game_soul::helpers::generate_id;
use game_soul::helpers::normalize_name_for_id;
use game_soul::helpers::truncate_text;
use game_soul::strings::i64_to_string;
use game_soul::strings::parse_i64;
use game_soul::strings::parse_u16;
use game_soul::strings::u64_to_string;
use game_soul::AppError;

#[test]
fn minutes_format_as_minutes_and_hours() {
    assert_eq!(format_minutes_to_human_readable(45), "45 minutos");
    assert_eq!(format_minutes_to_human_readable(90), "1 hora y 30 minutos");
    assert_eq!(format_minutes_to_human_readable(120), "2 horas");
    assert_eq!(format_minutes_to_human_readable(150), "2 horas y 30 minutos");
    assert_eq!(format_minutes_to_human_readable(0), "0 minutos");
}

#[test]
fn names_normalize_to_lowercase_identifiers() {
    assert_eq!(normalize_name_for_id("Stardew Valley"), "stardewvalley");
    assert_eq!(normalize_name_for_id("ABC_def"), "abc_def");
    assert_eq!(normalize_name_for_id("¡Exploración!"), "exploración");
}

#[test]
fn texts_truncate_with_an_ellipsis() {
    assert_eq!(truncate_text("corto", 10), "corto");
    assert_eq!(truncate_text("hello world", 8), "hello...");
    assert_eq!(truncate_text("abcdef", 6), "abcdef");
}

#[test]
fn generated_ids_are_uuid_shaped_and_fresh() {
    let a = generate_id();
    let b = generate_id();
    assert_eq!(a.len(), 36);
    assert_eq!(b.len(), 36);
    assert_ne!(a, b);
}

#[test]
fn decimal_strings_render_exactly() {
    assert_eq!(u64_to_string(0), "0");
    assert_eq!(u64_to_string(3001), "3001");
    assert_eq!(i64_to_string(-86400), "-86400");
    assert_eq!(i64_to_string(i64::MIN), "-9223372036854775808");
}

#[test]
fn u16_parsing_accepts_plain_decimals() {
    assert_eq!(parse_u16("3001"), Some(3001));
    assert_eq!(parse_u16("+42"), Some(42));
    assert_eq!(parse_u16("65535"), Some(65535));
    assert_eq!(parse_u16("65536"), None);
    assert_eq!(parse_u16(""), None);
    assert_eq!(parse_u16("12a"), None);
    assert_eq!(parse_u16("-1"), None);
}

#[test]
fn i64_parsing_accepts_signed_decimals() {
    assert_eq!(parse_i64("86400"), Some(86400));
    assert_eq!(parse_i64("-86400"), Some(-86400));
    assert_eq!(parse_i64("9223372036854775807"), Some(i64::MAX));
    assert_eq!(parse_i64("-9223372036854775808"), Some(i64::MIN));
    assert_eq!(parse_i64("9223372036854775808"), None);
    assert_eq!(parse_i64("x"), None);
}

#[test]
fn environments_parse_case_insensitively() {
    assert_eq!(Environment::from_str("PRODUCTION"), Environment::Production);
    assert_eq!(Environment::from_str("prod"), Environment::Production);
    assert_eq!(Environment::from_str("Testing"), Environment::Testing);
    assert_eq!(Environment::from_str("test"), Environment::Testing);
    assert_eq!(Environment::from_str("development"), Environment::Development);
    assert_eq!(Environment::from_str("anything"), Environment::Development);
    assert!(Environment::Development.is_development());
    assert!(Environment::Production.is_production());
    assert!(!Environment::Testing.is_production());
}

#[test]
fn config_applies_documented_defaults() {
    let config = AppConfig::from_values(None, None, None, None, None, None, None, None);
    assert_eq!(config.host, "127.0.0.1");
    assert_eq!(config.port, 3001);
    assert_eq!(config.neo4j_uri, "bolt://localhost:7687");
    assert_eq!(config.neo4j_user, "neo4j");
    assert_eq!(config.neo4j_password, "password");
    assert_eq!(config.jwt_secret, "development_jwt_secret_key");
    assert_eq!(config.jwt_expiration, 86400);
    assert_eq!(config.environment, Environment::Development);
}

#[test]
fn config_parses_values_and_falls_back_on_garbage() {
    let config = AppConfig::from_values(
        Some("production".to_string()),
        Some("0.0.0.0".to_string()),
        Some("no-es-un-puerto".to_string()),
        None,
        None,
        None,
        Some("clave-de-prueba".to_string()),
        Some("3600".to_string()),
    );
    assert_eq!(config.environment, Environment::Production);
    assert_eq!(config.host, "0.0.0.0");
    assert_eq!(config.port, 3001);
    assert_eq!(config.jwt_expiration, 3600);
}

#[test]
fn errors_expose_status_and_public_message() {
    let db = AppError::DatabaseError("detalle interno".to_string());
    assert_eq!(db.status_code(), 500);
    assert_eq!(db.public_message(), "Error en la base de datos");
    assert_eq!(db.detail(), "detalle interno");
    let val = AppError::ValidationError("campo vacío".to_string());
    assert_eq!(val.status_code(), 400);
    assert_eq!(val.public_message(), "campo vacío");
    let nf = AppError::NotFoundError("no está".to_string());
    assert_eq!(nf.status_code(), 404);
    let auth = AppError::AuthError("sin token".to_string());
    assert_eq!(auth.status_code(), 401);
}
