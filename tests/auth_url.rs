use libtwitch_rs::auth::{auth_code_flow, format_scope, gen_auth_url, imp_grant_flow, Scope};
use libtwitch_rs::credentials::CredentialSource;

#[test]
fn format_scope_empty() {
    assert_eq!(format_scope(&[]), "");
}

#[test]
fn format_scope_single() {
    assert_eq!(format_scope(&[Scope::chat_login]), "chat_login");
}

#[test]
fn format_scope_keeps_order() {
    let s = format_scope(&[Scope::user_read, Scope::channel_read, Scope::viewing_activity_ready]);
    assert_eq!(s, "user_read+channel_read+viewing_activity_ready");
}

#[test]
fn scope_names_are_canonical() {
    assert_eq!(Scope::channel_check_subscription.name(), "channel_check_subscription");
    assert_eq!(Scope::user_blocks_edit.name(), "user_blocks_edit");
    assert_eq!(Scope::channel_feed_read.name(), "channel_feed_read");
}

#[test]
fn auth_url_code_flow_example() {
    let url = gen_auth_url(
        "code",
        "myid",
        "http://localhost/cb",
        &[Scope::channel_read, Scope::user_read],
        "xyz",
    );
    assert_eq!(
        url,
        "https://api.twitch.tv/kraken/oauth2/authorize?response_type=code&client_id=myid&redirect_uri=http://localhost/cb&scope=channel_read+user_read&state=xyz"
    );
}

#[test]
fn auth_url_without_scopes() {
    let url = gen_auth_url("token", "id", "r", &[], "s");
    assert_eq!(
        url,
        "https://api.twitch.tv/kraken/oauth2/authorize?response_type=token&client_id=id&redirect_uri=r&scope=&state=s"
    );
}

#[test]
fn flows_use_client_id_of_client() {
    let c = libtwitch_rs::new(CredentialSource::Environment {
        client_id: Some("abc".to_string()),
        token: Some("tok".to_string()),
    })
    .unwrap();
    assert_eq!(
        auth_code_flow(&c, "http://localhost/cb", &[Scope::channel_read, Scope::user_read], "xyz"),
        "https://api.twitch.tv/kraken/oauth2/authorize?response_type=code&client_id=abc&redirect_uri=http://localhost/cb&scope=channel_read+user_read&state=xyz"
    );
    assert_eq!(
        imp_grant_flow(&c, "u", &[Scope::chat_login], "st"),
        "https://api.twitch.tv/kraken/oauth2/authorize?response_type=token&client_id=abc&redirect_uri=u&scope=chat_login&state=st"
    );
}
