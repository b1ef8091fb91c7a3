//! OAuth scopes and authorization-request URLs.
use vstd::prelude::*;
use crate::client::TwitchClient;
use crate::credentials::or_empty;

verus! {

/// A permission that an application may request from a user.
#[allow(non_camel_case_types)]
#[derive(Debug, Clone, Copy, PartialEq, Eq, Structural)]
pub enum Scope {
    channel_check_subscription,
    channel_commercial,
    channel_editor,
    channel_feed_edit,
    channel_feed_read,
    channel_read,
    channel_stream,
    channel_subscriptions,
    chat_login,
    user_blocks_edit,
    user_blocks_read,
    user_follows_edit,
    user_read,
    user_subscriptions,
    viewing_activity_ready,
}

/// The canonical name of a scope, as the authorization endpoint expects it.
pub open spec fn scope_name(s: Scope) -> Seq<char> {
    match s {
        Scope::channel_check_subscription => "channel_check_subscription"@,
        Scope::channel_commercial => "channel_commercial"@,
        Scope::channel_editor => "channel_editor"@,
        Scope::channel_feed_edit => "channel_feed_edit"@,
        Scope::channel_feed_read => "channel_feed_read"@,
        Scope::channel_read => "channel_read"@,
        Scope::channel_stream => "channel_stream"@,
        Scope::channel_subscriptions => "channel_subscriptions"@,
        Scope::chat_login => "chat_login"@,
        Scope::user_blocks_edit => "user_blocks_edit"@,
        Scope::user_blocks_read => "user_blocks_read"@,
        Scope::user_follows_edit => "user_follows_edit"@,
        Scope::user_read => "user_read"@,
        Scope::user_subscriptions => "user_subscriptions"@,
        Scope::viewing_activity_ready => "viewing_activity_ready"@,
    }
}

/// The names of `scopes`, in order, separated by `+`, with no separator at
/// either end.
pub open spec fn joined_scopes(scopes: Seq<Scope>) -> Seq<char>
    decreases scopes.len(),
{
    if scopes.len() == 0 {
        Seq::empty()
    } else if scopes.len() == 1 {
        scope_name(scopes[0])
    } else {
        joined_scopes(scopes.drop_last()) + seq!['+'] + scope_name(scopes.last())
    }
}

/// The authorization URL for the given response type, client, redirect,
/// scopes and state, with every value taken verbatim.
pub open spec fn auth_url(
    rtype: Seq<char>,
    client_id: Seq<char>,
    redirect_url: Seq<char>,
    scopes: Seq<Scope>,
    state: Seq<char>,
) -> Seq<char> {
    "https://api.twitch.tv/kraken/oauth2/authorize"@ + "?response_type="@ + rtype
        + "&client_id="@ + client_id + "&redirect_uri="@ + redirect_url + "&scope="@
        + joined_scopes(scopes) + "&state="@ + state
}

impl Scope {
    /// The canonical name of this scope.
    pub fn name(&self) -> (r: String)
        ensures
            r@ == scope_name(*self),
    {
        match self {
            Scope::channel_check_subscription => String::from_str("channel_check_subscription"),
            Scope::channel_commercial => String::from_str("channel_commercial"),
            Scope::channel_editor => String::from_str("channel_editor"),
            Scope::channel_feed_edit => String::from_str("channel_feed_edit"),
            Scope::channel_feed_read => String::from_str("channel_feed_read"),
            Scope::channel_read => String::from_str("channel_read"),
            Scope::channel_stream => String::from_str("channel_stream"),
            Scope::channel_subscriptions => String::from_str("channel_subscriptions"),
            Scope::chat_login => String::from_str("chat_login"),
            Scope::user_blocks_edit => String::from_str("user_blocks_edit"),
            Scope::user_blocks_read => String::from_str("user_blocks_read"),
            Scope::user_follows_edit => String::from_str("user_follows_edit"),
            Scope::user_read => String::from_str("user_read"),
            Scope::user_subscriptions => String::from_str("user_subscriptions"),
            Scope::viewing_activity_ready => String::from_str("viewing_activity_ready"),
        }
    }
}

/// Renders scopes as the value of the `scope` query parameter.
pub fn format_scope(scopes: &[Scope]) -> (r: String)
    ensures
        r@ == joined_scopes(scopes@),
{
    let mut res = String::new();
    let mut i: usize = 0;
    while i < scopes.len()
        invariant
            i <= scopes@.len(),
            res@ == joined_scopes(scopes@.subrange(0, i as int)),
        decreases scopes@.len() - i,
    {
        if i > 0 {
            proof {
                reveal_strlit("+");
            }
            res.append("+");
        }
        let name = scopes[i].name();
        res.append(name.as_str());
        proof {
            let next = scopes@.subrange(0, i + 1);
            assert(next.drop_last() =~= scopes@.subrange(0, i as int));
            assert(next.last() == scopes@[i as int]);
        }
        i = i + 1;
    }
    assert(scopes@.subrange(0, scopes@.len() as int) =~= scopes@);
    res
}

/// Builds the authorization URL for the response type `rtype` (`code` or
/// `token`). Values are placed in the query verbatim.
pub fn gen_auth_url(
    rtype: &str,
    client_id: &str,
    redirect_url: &str,
    scope: &[Scope],
    state: &str,
) -> (r: String)
    ensures
        r@ == auth_url(rtype@, client_id@, redirect_url@, scope@, state@),
{
    let mut url = String::from_str("https://api.twitch.tv/kraken/oauth2/authorize");
    url.append("?response_type=");
    url.append(rtype);
    url.append("&client_id=");
    url.append(client_id);
    url.append("&redirect_uri=");
    url.append(redirect_url);
    url.append("&scope=");
    let scopes = format_scope(scope);
    url.append(scopes.as_str());
    url.append("&state=");
    url.append(state);
    url
}

/// The client identifier of `c`, empty where it has none.
fn client_id_of(c: &TwitchClient) -> (r: String)
    ensures
        r@ == or_empty(c.credentials().client_id),
{
    match &c.cred().client_id {
        Some(id) => id.clone(),
        None => String::new(),
    }
}

/// The authorization URL of the authorization-code flow for client `c`.
pub fn auth_code_flow(c: &TwitchClient, redirect_url: &str, scope: &[Scope], state: &str) -> (r:
    String)
    ensures
        r@ == auth_url("code"@, or_empty(c.credentials().client_id), redirect_url@, scope@, state@),
{
    let id = client_id_of(c);
    gen_auth_url("code", id.as_str(), redirect_url, scope, state)
}

/// The authorization URL of the implicit-grant flow for client `c`.
pub fn imp_grant_flow(c: &TwitchClient, redirect_url: &str, scope: &[Scope], state: &str) -> (r:
    String)
    ensures
        r@ == auth_url("token"@, or_empty(c.credentials().client_id), redirect_url@, scope@, state@),
{
    let id = client_id_of(c);
    gen_auth_url("token", id.as_str(), redirect_url, scope, state)
}

} // verus!
