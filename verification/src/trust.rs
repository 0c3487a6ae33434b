//! Passwordless login of the launcher's own window.
//!
//! The launcher draws a secret for each session and hands it to the backend it
//! starts. Before it opens the backend's page it exchanges the secret for a
//! one-time token, and opens the login page with that token. Whatever goes
//! wrong, it opens the ordinary first page instead.
use crate::address::{
    backend_url, is_backend, is_loopback_page_text, is_loopback_text,
    lemma_decimal_before_query, loopback, parse_url, redacted, redacted_url_log, UrlError, UrlParts,
};
use crate::encoding::{
    base64_encode, base64_len, base64_text, is_base64_char, law_base64_alphabet,
    law_base64_is_injective,
};
use crate::json::{find_json_string, json_string_member};
use crate::text::{decimal, lemma_decimal_len};
use rand::RngCore;
use vstd::prelude::*;

verus! {

/// The environment variable in which the backend receives the secret.
pub const TRUST_SECRET_ENV: &'static str = "ALAS_WEBUI_TRUST_SECRET";

/// The header in which the launcher shows the secret.
pub const TRUST_SECRET_HEADER: &'static str = "X-Webui-Launcher-Secret";

/// The number of random bytes in a secret.
pub const TRUST_SECRET_LENGTH: usize = 24;

/// How long the exchange of the secret may take, in milliseconds.
pub const TRUST_LOGIN_TIMEOUT_MS: u64 = 3000;

/// `fill_bytes` of `rand::rng()` overwrites a buffer with random bytes. Nothing
/// can be said of the bytes; their number is that of the buffer. It panics if
/// the system has no randomness to offer.
#[verifier::external_body]
fn random_bytes(len: usize) -> (bytes: Vec<u8>)
    requires
        len <= isize::MAX,
    ensures
        bytes@.len() == len,
{
    let mut bytes = vec![0u8; len];
    rand::rng().fill_bytes(&mut bytes);
    bytes
}

/// The secret that some random bytes make.
pub fn trust_secret_of(bytes: &Vec<u8>) -> (secret: String)
    requires
        base64_len(bytes@.len()) <= isize::MAX,
    ensures
        secret@ == base64_text(bytes@),
{
    base64_encode(bytes.as_slice())
}

/// Bytes that the random source gives. Nothing but a call of `random_bytes` shows
/// that bytes are such.
pub closed spec fn drawn_at_random(bytes: Seq<u8>) -> bool {
    exists|draw: Vec<u8>| #[trigger]
        call_ensures(random_bytes, (TRUST_SECRET_LENGTH,), draw) && draw@ == bytes
}

/// Calls a function and keeps the fact that the result came from the call.
fn draw_from<F: Fn(usize) -> Vec<u8>>(source: F, len: usize) -> (draw: Vec<u8>)
    requires
        call_requires(source, (len,)),
    ensures
        call_ensures(source, (len,), draw),
{
    source(len)
}

/// Whether a text is the Base64 form of as many bytes as a secret has, drawn at
/// random.
pub open spec fn is_trust_secret(secret: Seq<char>) -> bool {
    exists|bytes: Seq<u8>|
        bytes.len() == TRUST_SECRET_LENGTH && drawn_at_random(bytes) && secret
            == #[trigger] base64_text(bytes)
}

/// A session of the launcher, which has one secret from the first use on.
#[derive(Debug)]
pub struct TrustSession {
    secret: Option<String>,
}

impl TrustSession {
    /// A secret that was drawn has the form of one.
    #[verifier::type_invariant]
    spec fn well_formed(self) -> bool {
        self.secret is Some ==> is_trust_secret(self.secret->0@)
    }
}

impl View for TrustSession {
    type V = Option<Seq<char>>;

    closed spec fn view(&self) -> Option<Seq<char>> {
        match self.secret {
            Some(secret) => Some(secret@),
            None => None,
        }
    }
}

impl TrustSession {
    /// A session whose secret was not drawn yet.
    pub fn new() -> (session: TrustSession)
        ensures
            session@ is None,
    {
        TrustSession { secret: None }
    }
}

/// The secret of a session: drawn at the first call, from fresh random bytes,
/// and the same at every later one.
pub fn launcher_trust_secret(session: &mut TrustSession) -> (secret: String)
    ensures
        final(session)@ == Some(secret@),
        old(session)@ is Some ==> old(session)@ == Some(secret@),
        is_trust_secret(secret@),
{
    proof {
        use_type_invariant(&*session);
    }
    if let Some(secret) = &session.secret {
        return secret.clone();
    }
    let bytes = draw_from(random_bytes, TRUST_SECRET_LENGTH);
    assert(drawn_at_random(bytes@));
    let secret = trust_secret_of(&bytes);
    assert(is_trust_secret(secret@));
    session.secret = Some(secret.clone());
    secret
}

/// A secret is a text of 32 characters, all of them Base64 characters.
pub proof fn law_trust_secret_is_plain(secret: Seq<char>)
    requires
        is_trust_secret(secret),
    ensures
        secret.len() == 32,
        forall|i: int| 0 <= i < secret.len() ==> is_base64_char(#[trigger] secret[i]),
{
    let bytes = choose|bytes: Seq<u8>|
        bytes.len() == TRUST_SECRET_LENGTH && drawn_at_random(bytes) && secret
            == #[trigger] base64_text(bytes);
    law_base64_alphabet(bytes);
}

/// Nothing of what was drawn is lost: different bytes make different secrets, and
/// the secret grows with the bytes, four characters for every three.
pub proof fn law_secret_keeps_every_byte(
    bytes: &Vec<u8>,
    secret: String,
    other_bytes: &Vec<u8>,
    other_secret: String,
)
    requires
        call_ensures(trust_secret_of, (bytes,), secret),
        call_ensures(trust_secret_of, (other_bytes,), other_secret),
    ensures
        secret@ == other_secret@ ==> bytes@ == other_bytes@,
        secret@.len() == (bytes@.len() + 2) / 3 * 4,
{
    law_base64_alphabet(bytes@);
    if secret@ == other_secret@ {
        law_base64_is_injective(bytes@, other_bytes@);
    }
}

/// The address at which the secret is exchanged for a token.
pub fn trusted_login_url(port: u16) -> (url: String)
    ensures
        url@ == loopback(port) + "api/launcher/trusted-login"@,
{
    let mut url = backend_url(port);
    url.append("api/launcher/trusted-login");
    url
}

/// What came of the request for a token.
#[derive(Debug)]
pub enum TrustReply {
    /// The request could not be made or was not answered.
    Unanswered,
    /// An answer came; its body is missing where it could not be read as text.
    Answered { status: u16, body: Option<String> },
}

/// The token that a reply carries: a string of at least one character under
/// `token` in the JSON body of a successful answer.
pub open spec fn reply_token(reply: TrustReply) -> Option<Seq<char>> {
    match reply {
        TrustReply::Answered { status, body: Some(body) } => {
            let token = json_string_member(body@, "token"@);
            if 200 <= status < 300 && token is Some && token->0.len() > 0 {
                token
            } else {
                None
            }
        },
        _ => None,
    }
}

/// The address of the login page for a token, or the first page without one.
pub open spec fn navigate_target(port: u16, token: Option<Seq<char>>) -> Seq<char> {
    match token {
        Some(token) => if token.len() > 0 {
            loopback(port) + "launcher-login?token="@ + token
        } else {
            loopback(port)
        },
        None => loopback(port),
    }
}

/// The address that the main window opens, given the token if there is one.
/// The token is made of characters that stand for themselves in a query.
pub fn token_navigate_url(port: u16, token: Option<String>) -> (url: String)
    ensures
        url@ == navigate_target(
            port,
            match token {
                Some(token) => Some(token@),
                None => None,
            },
        ),
{
    match token {
        Some(token) => {
            let mut url = backend_url(port);
            if !token.as_str().is_empty() {
                url.append("launcher-login?token=");
                url.append(token.as_str());
            }
            url
        },
        None => backend_url(port),
    }
}

/// The token that a reply carries, empty tokens included.
fn token_in_reply(reply: TrustReply) -> (token: Option<String>)
    ensures
        reply_token(reply) is Some ==> token is Some && reply_token(reply) == Some(token->0@),
        reply_token(reply) is None ==> token is None || token->0@.len() == 0,
{
    match reply {
        TrustReply::Answered { status, body: Some(body) } => {
            if 200 <= status && status < 300 {
                find_json_string(body.as_str(), "token")
            } else {
                None
            }
        },
        _ => None,
    }
}

/// The address that the main window opens: the login page with the token that
/// the backend gave, or the backend's first page where it gave none.
pub fn webui_navigate_url(port: u16, reply: TrustReply) -> (url: String)
    ensures
        url@ == navigate_target(port, reply_token(reply)),
{
    token_navigate_url(port, token_in_reply(reply))
}

/// The address for a token begins like one of the login page on the local
/// backend, and holds a `#` only where the token does.
proof fn lemma_token_address(port: u16, token: Seq<char>)
    requires
        token.len() > 0,
    ensures
        is_loopback_text(navigate_target(port, Some(token)), port),
        is_loopback_page_text(navigate_target(port, Some(token)), port, "launcher-login"@),
        navigate_target(port, Some(token)).len() <= token.len() + 0x100,
        !token.contains('#') ==> !navigate_target(port, Some(token)).contains('#'),
{
    reveal_strlit("http://127.0.0.1:");
    reveal_strlit("/");
    reveal_strlit("?");
    reveal_strlit("launcher-login");
    reveal_strlit("launcher-login?token=");
    lemma_decimal_len(port);
    lemma_decimal_before_query(port as nat);
    let text = navigate_target(port, Some(token));
    assert(loopback(port).is_prefix_of(text));
    assert((loopback(port) + "launcher-login"@ + "?"@).is_prefix_of(text));
    if text.contains('#') {
        let front = loopback(port) + "launcher-login?token="@;
        let at = choose|at: int| 0 <= at < text.len() && text[at] == '#';
        let digits = decimal(port as nat);
        let start = "http://127.0.0.1:"@.len() as int;
        if at < front.len() {
            assert(text[at] == front[at]);
            if start <= at < start + digits.len() {
                assert(front[at] == digits[at - start]);
            }
            assert(false);
        }
        assert(token[at - front.len()] == '#');
    }
}

/// With a token or without, the main window goes to the local backend at the
/// port: wherever its address can be taken apart, it is a backend URL. It can be
/// unless there is a `#` in a token of hundreds of millions of characters.
pub proof fn law_main_window_stays_on_the_backend(
    port: u16,
    reply: TrustReply,
    url: String,
    text: &str,
    parts: Result<UrlParts, UrlError>,
)
    requires
        call_ensures(webui_navigate_url, (port, reply), url),
        text@ == url@,
        call_ensures(parse_url, (text,), parts),
    ensures
        parts matches Ok(parts) ==> is_backend(parts@, port),
        reply_token(reply) is None || !reply_token(reply)->0.contains('#') || reply_token(
            reply,
        )->0.len() <= 0xfff_ff00 ==> parts is Ok,
{
    match reply_token(reply) {
        Some(token) => {
            lemma_token_address(port, token);
        },
        None => {
            reveal_strlit("http://127.0.0.1:");
            reveal_strlit("/");
            lemma_decimal_len(port);
            assert(is_loopback_text(url@, port));
        },
    }
}

/// The token is never logged: whatever it is, what is logged of the address that
/// carries it is the address of the login page. The address can be taken apart
/// unless there is a `#` in a token of hundreds of millions of characters.
pub proof fn law_token_is_not_logged(
    port: u16,
    token: Seq<char>,
    text: &str,
    parts: Result<UrlParts, UrlError>,
    log: String,
)
    requires
        token.len() > 0,
        text@ == navigate_target(port, Some(token)),
        call_ensures(parse_url, (text,), parts),
        parts is Ok ==> call_ensures(redacted_url_log, (&parts->Ok_0,), log),
    ensures
        parts is Ok ==> log@ == (if port == 80 {
            "http://127.0.0.1/launcher-login"@
        } else {
            "http://127.0.0.1:"@ + decimal(port as nat) + "/launcher-login"@
        }),
        !token.contains('#') || token.len() <= 0xfff_ff00 ==> parts is Ok,
{
    lemma_token_address(port, token);
    if parts is Ok {
        reveal_strlit("http");
        reveal_strlit("://");
        reveal_strlit("127.0.0.1");
        reveal_strlit(":");
        reveal_strlit("/");
        reveal_strlit("launcher-login");
        reveal_strlit("/launcher-login");
        reveal_strlit("http://127.0.0.1:");
        reveal_strlit("http://127.0.0.1/launcher-login");
        let url = parts->Ok_0@;
        assert(url.path == "/"@ + "launcher-login"@);
        assert(url.port == (if port == 80 {
            None
        } else {
            Some(port)
        }));
        if port == 80 {
            assert(redacted(url) =~= "http://127.0.0.1/launcher-login"@);
        } else {
            assert(redacted(url) =~= "http://127.0.0.1:"@ + decimal(port as nat)
                + "/launcher-login"@);
        }
    }
}

/// A successful answer whose JSON body holds a token leads to the login page with
/// that token, whole: the address begins with the login page of the local backend,
/// ends with the token, and holds nothing else. So different tokens lead to
/// different addresses.
pub proof fn law_login_address_carries_the_token(
    port: u16,
    status: u16,
    body: String,
    url: String,
    other_status: u16,
    other_body: String,
    other_url: String,
)
    requires
        200 <= status < 300,
        json_string_member(body@, "token"@) is Some,
        json_string_member(body@, "token"@)->0.len() > 0,
        call_ensures(
            webui_navigate_url,
            (port, TrustReply::Answered { status, body: Some(body) }),
            url,
        ),
        200 <= other_status < 300,
        json_string_member(other_body@, "token"@) is Some,
        json_string_member(other_body@, "token"@)->0.len() > 0,
        call_ensures(
            webui_navigate_url,
            (port, TrustReply::Answered { status: other_status, body: Some(other_body) }),
            other_url,
        ),
    ensures
        ({
            let token = json_string_member(body@, "token"@)->0;
            let front = "http://127.0.0.1:"@ + decimal(port as nat) + "/launcher-login?token="@;
            &&& front.is_prefix_of(url@)
            &&& url@.len() == front.len() + token.len()
            &&& url@.skip(front.len() as int) == token
        }),
        url@ == other_url@ <==> json_string_member(body@, "token"@) == json_string_member(
            other_body@,
            "token"@,
        ),
{
    reveal_strlit("/");
    reveal_strlit("launcher-login?token=");
    reveal_strlit("/launcher-login?token=");
    let token = json_string_member(body@, "token"@)->0;
    let other_token = json_string_member(other_body@, "token"@)->0;
    let front = "http://127.0.0.1:"@ + decimal(port as nat) + "/launcher-login?token="@;
    assert(front =~= loopback(port) + "launcher-login?token="@);
    assert(url@ =~= front + token);
    assert(other_url@ =~= front + other_token);
    assert(url@.skip(front.len() as int) =~= token);
    assert(other_url@.skip(front.len() as int) =~= other_token);
}

/// Whatever else comes of the request leads to the first page of the local backend:
/// no answer, an answer without success, an unreadable body, or a body without a
/// token.
pub proof fn law_without_a_token_the_first_page_opens(port: u16, reply: TrustReply, url: String)
    requires
        call_ensures(webui_navigate_url, (port, reply), url),
        match reply {
            TrustReply::Unanswered => true,
            TrustReply::Answered { status, body } => {
                ||| status < 200 || 300 <= status
                ||| body is None
                ||| json_string_member(body->0@, "token"@) is None
                ||| json_string_member(body->0@, "token"@)->0.len() == 0
            },
        },
    ensures
        url@ == "http://127.0.0.1:"@ + decimal(port as nat) + "/"@,
{
}

/// A token opens the same page whether it is handed over or comes in a reply, and
/// the secret is exchanged for it at the same backend.
pub proof fn law_token_and_exchange_share_the_backend(
    port: u16,
    token: String,
    url: String,
    exchange: String,
)
    requires
        call_ensures(token_navigate_url, (port, Some(token)), url),
        call_ensures(trusted_login_url, (port,), exchange),
    ensures
        exchange@ == "http://127.0.0.1:"@ + decimal(port as nat)
            + "/api/launcher/trusted-login"@,
        token@.len() > 0 ==> url@ == "http://127.0.0.1:"@ + decimal(port as nat)
            + "/launcher-login?token="@ + token@,
        token@.len() == 0 ==> url@ == "http://127.0.0.1:"@ + decimal(port as nat) + "/"@,
{
    reveal_strlit("/");
    reveal_strlit("launcher-login?token=");
    reveal_strlit("/launcher-login?token=");
    reveal_strlit("api/launcher/trusted-login");
    reveal_strlit("/api/launcher/trusted-login");
    assert("/"@ + "launcher-login?token="@ =~= "/launcher-login?token="@);
    assert("/"@ + "api/launcher/trusted-login"@ =~= "/api/launcher/trusted-login"@);
    assert(exchange@ =~= "http://127.0.0.1:"@ + decimal(port as nat)
        + "/api/launcher/trusted-login"@);
    if token@.len() > 0 {
        assert(url@ =~= "http://127.0.0.1:"@ + decimal(port as nat) + "/launcher-login?token="@
            + token@);
    }
}

/// The terms of the exchange, which the backend relies on: where it finds the
/// secret, where it is shown the secret, how much chance is in it, and how long
/// the exchange may take.
pub proof fn law_terms_of_the_exchange()
    ensures
        TRUST_SECRET_ENV@ == "ALAS_WEBUI_TRUST_SECRET"@,
        TRUST_SECRET_HEADER@ == "X-Webui-Launcher-Secret"@,
        TRUST_SECRET_LENGTH == 24,
        TRUST_LOGIN_TIMEOUT_MS == 3 * 1000,
{
}

} // verus!
