use plaza_tui::api::{
    check_delete_status, check_login_status, check_status, login_form, reaction_total,
    token_from_file, ApiClient, Error, BASE_URL,
};
use plaza_tui::models::RatingRange;

#[test]
fn urls_are_built_from_the_base() {
    let c = ApiClient::new(None);
    assert_eq!(c.base_url(), BASE_URL);
    assert_eq!(c.status_url(), "https://api.plaza.one/status");
    assert_eq!(c.history_url(2), "https://api.plaza.one/v2/history?page=2");
    assert_eq!(c.song_url("42"), "https://api.plaza.one/v2/songs/42");
    assert_eq!(c.favorites_url(1), "https://api.plaza.one/v2/users/me/favorites?page=1");
    assert_eq!(c.add_favorite_url(), "https://api.plaza.one/v2/users/me/favorites");
    assert_eq!(c.remove_favorite_url(99), "https://api.plaza.one/v2/users/me/favorites/99");
    assert_eq!(c.reactions_url(), "https://api.plaza.one/v2/reactions");
    assert_eq!(c.ratings_url(RatingRange::Weekly, 3), "https://api.plaza.one/v2/ratings/weekly?page=3");
    assert_eq!(c.me_url(), "https://api.plaza.one/v2/users/me");
    assert_eq!(c.my_stats_url(), "https://api.plaza.one/v2/users/me/stats");
    assert_eq!(c.news_url(1), "https://api.plaza.one/v2/news?page=1");
    assert_eq!(c.login_url(), "https://api.plaza.one/v2/auth/token");
    assert_eq!(c.logout_url(), "https://api.plaza.one/v2/auth/logout");
}

#[test]
fn url_strips_leading_slashes_and_base_can_change() {
    let c = ApiClient::new(Some("t".into())).with_base_url("http://127.0.0.1:9");
    assert_eq!(c.url("//status"), "http://127.0.0.1:9/status");
    assert_eq!(c.url("v2/x"), "http://127.0.0.1:9/v2/x");
    assert!(c.is_authenticated());
}

#[test]
fn tokens_can_be_set_and_cleared() {
    let mut c = ApiClient::new(None);
    assert!(!c.is_authenticated());
    c.set_token(Some("secret-token".into()));
    assert_eq!(c.token().map(|t| t.as_str()), Some("secret-token"));
    c.set_token(None);
    assert!(!c.is_authenticated());
}

#[test]
fn status_codes_map_to_error_variants() {
    assert!(check_status(200).is_ok());
    assert!(check_status(204).is_ok());
    assert!(matches!(check_status(401), Err(Error::Unauthorized)));
    assert!(matches!(check_status(404), Err(Error::NotFound)));
    assert!(matches!(check_status(429), Err(Error::RateLimited)));
    assert!(matches!(check_status(503), Err(Error::Server { status: 503 })));
    assert!(matches!(check_status(302), Err(Error::Server { status: 302 })));
}

#[test]
fn removal_and_login_statuses() {
    assert!(check_delete_status(200).is_ok());
    assert!(matches!(check_delete_status(429), Err(Error::RateLimited)));
    assert!(matches!(check_delete_status(404), Err(Error::NotFound)));
    assert!(check_login_status(201).is_ok());
    assert!(matches!(check_login_status(204), Err(Error::Server { status: 204 })));
    assert!(matches!(check_login_status(401), Err(Error::Unauthorized)));
}

#[test]
fn error_messages() {
    assert_eq!(Error::Unauthorized.message(), "unauthorized");
    assert_eq!(Error::RateLimited.message(), "rate limited");
    assert_eq!(Error::NotFound.message(), "not found");
    assert_eq!(Error::Server { status: 503 }.message(), "server returned status 503");
    assert_eq!(Error::Unexpected("x".into()).message(), "unexpected response: x");
    assert_eq!(Error::Http("timeout".into()).message(), "http transport error");
}

#[test]
fn send_reaction_without_count_field_is_unexpected() {
    assert!(matches!(reaction_total(None), Err(Error::Unexpected(_))));
    assert_eq!(reaction_total(Some(7)).unwrap(), 7);
    assert_eq!(reaction_total(Some((1u64 << 32) + 3)).unwrap(), 3);
}

#[test]
fn login_form_always_asks_to_be_remembered() {
    let f = login_form("vapor", "wave");
    assert_eq!(f.username, "vapor");
    assert_eq!(f.password, "wave");
    assert!(f.remember);
}

#[test]
fn saved_token_file_is_trimmed() {
    assert_eq!(token_from_file("  abc\n").as_deref(), Some("abc"));
    assert_eq!(token_from_file("\n\t "), None);
    assert_eq!(token_from_file(""), None);
}
