use binance_connector::requests::position_symbol;
use binance_connector::session::{init, init_from_cpp, ClientKind, Session};

const ALL: [ClientKind; 4] = [ClientKind::Account, ClientKind::General, ClientKind::Market, ClientKind::UserStream];

#[test]
fn fresh_session_has_nothing() {
    let s = Session::new();
    assert!(s.api_key().is_none());
    assert!(s.secret_key().is_none());
    for k in ALL {
        assert!(!s.is_made(k));
    }
}

#[test]
fn init_sets_keys_and_plans_every_client() {
    let mut s = Session::new();
    let (code, plan) = init_from_cpp(&mut s, "key-1", "secret-1");
    assert_eq!(code, 0);
    assert_eq!(s.api_key().map(|k| k.as_str()), Some("key-1"));
    assert_eq!(s.secret_key().map(|k| k.as_str()), Some("secret-1"));
    assert_eq!(plan.api_key.as_deref(), Some("key-1"));
    assert_eq!(plan.secret_key.as_deref(), Some("secret-1"));
    assert_eq!(plan.missing, ALL.to_vec());
    for k in ALL {
        assert!(s.is_made(k));
    }
}

#[test]
fn first_init_wins_on_values() {
    let mut s = Session::new();
    init(&mut s, "key-1", "secret-1");
    let plan = init(&mut s, "key-2", "secret-2");
    assert_eq!(s.api_key().map(|k| k.as_str()), Some("key-1"));
    assert_eq!(s.secret_key().map(|k| k.as_str()), Some("secret-1"));
    assert_eq!(plan.api_key.as_deref(), Some("key-1"));
    assert_eq!(plan.secret_key.as_deref(), Some("secret-1"));
    assert!(plan.missing.is_empty());
}

#[test]
fn position_symbol_empty_means_all() {
    assert_eq!(position_symbol(""), None);
    assert_eq!(position_symbol("BTCUSDT"), Some("BTCUSDT".to_string()));
    assert_eq!(position_symbol(" "), Some(" ".to_string()));
}
