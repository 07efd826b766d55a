use ascendia_server::activities::{
    check_daily_runs, dungeon_rewards, expedition_rewards, parse_dungeon_type, tower_progress,
    tower_rewards, tower_status, DungeonType,
};
use ascendia_server::auth::{
    bearer_token, check_totp_code, may_grant_admin, new_refresh_token, normalize_email,
    oauth_account, oauth_identity, token_hash, Gender, LoginRequest, OAuthAccount,
    RegisterRequest,
};
use ascendia_server::error::AppError;
use ascendia_server::guild::check_guild_name;
use ascendia_server::social::{history_limit, sanitize};
use ascendia_server::text::{hex_lower, trim};
use ascendia_server::totp::{
    check_totp_attempt, new_totp_secret, totp_window, otpauth_url, secret_of_record, secret_record,
    totp_code_accepted, verify_totp_demo,
};
use std::collections::hash_map::DefaultHasher;
use std::hash::{Hash, Hasher};

#[test]
fn sanitizacao_rejeita_controle_e_espacos() {
    assert!(sanitize("  ").is_err());
    assert!(sanitize("oi\n").is_err());
    assert_eq!(sanitize(" oi ").unwrap(), "oi");
}

#[test]
fn sanitize_limits_length_and_reports_the_error() {
    let long: String = "a".repeat(281);
    match sanitize(&long) {
        Err(AppError::Validation(m)) => assert_eq!(m, "mensagem inválida"),
        other => panic!("unexpected {:?}", other),
    }
    let exact: String = "é".repeat(280);
    assert_eq!(sanitize(&exact).unwrap().chars().count(), 280);
    let once = sanitize("  olá mundo ").unwrap();
    assert_eq!(sanitize(&once).unwrap(), once);
    assert_eq!(history_limit(0), 1);
    assert_eq!(history_limit(1_000), 100);
}

#[test]
fn trimming_follows_unicode_whitespace() {
    assert_eq!(trim("\u{3000} olá \t"), "olá");
    assert_eq!(trim(""), "");
}

#[test]
fn token_hash_is_lowercase_sha256() {
    assert_eq!(
        token_hash("abc"),
        "ba7816bf8f01cfea414140de5dae2223b00361a396177a9cb410ff61f20015ad"
    );
    assert_eq!(token_hash("").len(), 64);
    assert_eq!(hex_lower(&vec![0, 15, 255]), "000fff");
}

#[test]
fn refresh_tokens_are_alphanumeric() {
    let a = new_refresh_token();
    let b = new_refresh_token();
    assert_eq!(a.len(), 64);
    assert!(a.chars().all(|c| c.is_ascii_alphanumeric()));
    assert_ne!(a, b);
}

#[test]
fn emails_are_normalized() {
    assert_eq!(normalize_email("  Foo@Example.COM "), "foo@example.com");
}

#[test]
fn registration_is_validated() {
    let good = RegisterRequest {
        email: "player@example.com".to_string(),
        display_name: "Hero".to_string(),
        password: "0123456789".to_string(),
        gender: Gender::Female,
    };
    assert!(good.validate().is_ok());
    let bad_email = RegisterRequest { email: "not-an-email".to_string(), ..good };
    match bad_email.validate() {
        Err(AppError::Validation(m)) => assert_eq!(m, "email: e-mail inválido"),
        other => panic!("unexpected {:?}", other),
    }
    let all_bad = RegisterRequest {
        email: "x".to_string(),
        display_name: "ab".to_string(),
        password: "short".to_string(),
        gender: Gender::Male,
    };
    match all_bad.validate() {
        Err(AppError::Validation(m)) => assert_eq!(
            m,
            "email: e-mail inválido\ndisplay_name: nome deve ter entre 3 e 24 caracteres\npassword: senha deve ter no mínimo 10 caracteres"
        ),
        other => panic!("unexpected {:?}", other),
    }
    let short_password = RegisterRequest {
        email: "player@example.com".to_string(),
        display_name: "Hero".to_string(),
        password: "short".to_string(),
        gender: Gender::Male,
    };
    assert!(short_password.validate().is_err());
    let login = LoginRequest { email: "x@y.com".to_string(), password: "p".to_string() };
    assert!(login.validate().is_ok());
    assert_eq!(Gender::Female.as_str(), "female");
}

#[test]
fn bearer_tokens_are_extracted() {
    assert_eq!(bearer_token("Bearer abc.def"), Some("abc.def"));
    assert_eq!(bearer_token("Basic abc"), None);
    assert_eq!(bearer_token("Bearer"), None);
}

#[test]
fn oauth_identities_are_checked() {
    let id = oauth_identity("Google", "12345", " Ana@Mail.com ", None).unwrap();
    assert_eq!(id.provider, "google");
    assert_eq!(id.email, "ana@mail.com");
    assert_eq!(id.display_name, "ana");
    let named = oauth_identity("discord", "999", "b@c.d", Some("Bia".to_string())).unwrap();
    assert_eq!(named.display_name, "Bia");
    assert!(oauth_identity("github", "12345", "a@b.c", None).is_err());
    assert!(oauth_identity("google", "12", "a@b.c", None).is_err());
    assert!(oauth_identity("google", "123", "no-at-sign", None).is_err());
    match oauth_identity("google", "abc", "x", None) {
        Err(AppError::Validation(m)) => assert_eq!(m, "email inválido"),
        other => panic!("unexpected {:?}", other.map(|i| i.email)),
    }
    assert_eq!(oauth_account(Some(5), Some(6)), OAuthAccount::Linked(5));
    assert_eq!(oauth_account(None, Some(6)), OAuthAccount::LinkByEmail(6));
    assert_eq!(oauth_account(None, None), OAuthAccount::Create);
    assert!(!OAuthAccount::Linked(5).is_new());
    assert!(OAuthAccount::LinkByEmail(6).is_new());
    assert_eq!(OAuthAccount::Create.user_id(42), 42);
    assert_eq!(OAuthAccount::LinkByEmail(6).user_id(42), 6);
}

#[test]
fn totp_codes_and_admin_rights() {
    assert!(check_totp_code("123456").is_ok());
    assert!(check_totp_code("12345a").is_err());
    assert!(check_totp_code("1234567").is_err());
    assert!(may_grant_admin(false, "boss@game.com", "boss@game.com").is_ok());
    assert!(matches!(may_grant_admin(false, "x@game.com", "boss@game.com"), Err(AppError::Unauthorized)));
}

#[test]
fn error_codes_and_statuses() {
    let cases = vec![
        (AppError::Config("x".to_string()), 500, "INTERNAL_ERROR"),
        (AppError::InvalidCredentials, 401, "INVALID_CREDENTIALS"),
        (AppError::Unauthorized, 401, "UNAUTHORIZED"),
        (AppError::Conflict("x".to_string()), 409, "CONFLICT"),
        (AppError::Validation("x".to_string()), 400, "VALIDATION_ERROR"),
        (AppError::NotFound, 404, "NOT_FOUND"),
        (AppError::Internal("x".to_string()), 500, "INTERNAL_ERROR"),
    ];
    for (error, status, code) in cases {
        assert_eq!(error.status_code(), status);
        assert_eq!(error.code(), code);
    }
    assert_eq!(AppError::Conflict("nome".to_string()).message(), "conflito: nome");
    assert_eq!(
        AppError::Internal("db down".to_string()).public_message(),
        "O servidor não conseguiu concluir a operação"
    );
    assert_eq!(AppError::NotFound.public_message(), "recurso não encontrado");
}

#[test]
fn dungeons_expeditions_and_tower() {
    assert_eq!(parse_dungeon_type("EXP").unwrap(), DungeonType::Exp);
    assert!(parse_dungeon_type("raid").is_err());
    assert_eq!(dungeon_rewards(DungeonType::Exp, 2_000), (0, 200, 0));
    assert_eq!(dungeon_rewards(DungeonType::Equipment, 0), (50, 30, 2));
    match check_daily_runs(3, 3) {
        Err(AppError::Validation(m)) => assert_eq!(m, "limite diário 3 atingido"),
        other => panic!("unexpected {:?}", other),
    }
    assert_eq!(expedition_rewards("24h"), (1400, 25));
    assert_eq!(expedition_rewards("unknown"), (100, 3));
    let status = tower_status(9, 12);
    assert!(status.is_boss);
    assert_eq!(status.next_floor, 10);
    assert_eq!(tower_rewards(10, true), (100, 40));
    assert_eq!(tower_rewards(10, false), (0, 0));
    assert_eq!(tower_progress(12, 12, true), (13, 13));
    assert_eq!(tower_progress(5, 12, false), (5, 12));
}

#[test]
fn guild_names_are_trimmed_and_checked() {
    assert_eq!(check_guild_name("  Lobos  ").unwrap(), "Lobos");
    assert!(check_guild_name(" ab ").is_err());
    assert!(check_guild_name(&"x".repeat(41)).is_err());
}

#[test]
fn totp_codes_follow_the_window_hashes() {
    assert!(totp_code_accepted("123456", &vec![]));
    assert!(totp_code_accepted("000042", &vec![7, 1_000_042]));
    assert!(!totp_code_accepted("42", &vec![42]));
    assert!(!totp_code_accepted("000043", &vec![42, 1_000_042]));
    let secret = "ABCDEF0123456789";
    let window = 57_000_000_i64;
    let mut hasher = DefaultHasher::new();
    secret.hash(&mut hasher);
    (window + 1).hash(&mut hasher);
    let expected = format!("{:06}", hasher.finish() % 1_000_000);
    assert!(verify_totp_demo(secret, &expected, window));
    assert!(verify_totp_demo(secret, "123456", window));
    let mut far = DefaultHasher::new();
    secret.hash(&mut far);
    (window + 5).hash(&mut far);
    let other = format!("{:06}", far.finish() % 1_000_000);
    let near: Vec<String> = (window - 1..=window + 1)
        .map(|w| {
            let mut h = DefaultHasher::new();
            secret.hash(&mut h);
            w.hash(&mut h);
            format!("{:06}", h.finish() % 1_000_000)
        })
        .collect();
    assert_eq!(verify_totp_demo(secret, &other, window), near.contains(&other) || other == "123456");
}

#[test]
fn totp_setup_values() {
    let secret = new_totp_secret();
    assert_eq!(secret.len(), 16);
    assert!(secret.chars().all(|c| c.is_ascii_uppercase() || c.is_ascii_digit()));
    assert_eq!(secret_record("ABC"), "enc:ABC");
    assert_eq!(totp_window(1_700_000_029), 56_666_667);
    assert_eq!(totp_window(59), 1);
    assert_eq!(totp_window(-59), -1);
    assert_eq!(secret_of_record("enc:ABC"), "ABC");
    assert_eq!(secret_of_record("ABC"), "ABC");
    assert_eq!(
        otpauth_url("a@b.c", "XYZ"),
        "otpauth://totp/Ascendia:a@b.c?secret=XYZ&issuer=Ascendia-Online"
    );
    assert!(check_totp_attempt(true, true).is_ok());
    match check_totp_attempt(false, true) {
        Err(AppError::Validation(m)) => assert_eq!(m, "2FA não configurado"),
        other => panic!("unexpected {:?}", other),
    }
    match check_totp_attempt(true, false) {
        Err(AppError::Validation(m)) => assert_eq!(m, "código inválido"),
        other => panic!("unexpected {:?}", other),
    }
}
