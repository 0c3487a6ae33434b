//! Addresses: the backend's, the error page's, and what is logged of them.
use crate::json::pairs_view;
use crate::platform::Platform;
use crate::text::{chars_of, decimal, decimal_text, is_digit, parse_u16, parsed_u16, same_text};
use vstd::prelude::*;
use vstd::utf8::encode_utf8;

verus! {

/// The port that the error page falls back to.
pub const DEFAULT_PORT: u16 = 22267;

/// Where the error page is served from a scheme of its own.
pub const ERROR_SCHEME_URL: &'static str = "alas-error://localhost/backend";

/// Where the error page is served over plain HTTP.
pub const ERROR_HTTP_URL: &'static str = "http://alas-error.localhost/backend";

/// Where the splash page is served from a scheme of its own.
pub const SPLASH_SCHEME_URL: &'static str = "alas-splash://localhost/";

/// Where the splash page is served over plain HTTP.
pub const SPLASH_HTTP_URL: &'static str = "http://alas-splash.localhost/";

/// A URL in its parts.
#[derive(Debug)]
pub struct UrlParts {
    /// The whole URL in normal form.
    pub text: String,
    pub scheme: String,
    pub host: Option<String>,
    /// The port, unless it is the default of the scheme.
    pub port: Option<u16>,
    /// The port, or the default of the scheme.
    pub effective_port: Option<u16>,
    pub path: String,
    /// The decoded query, in order.
    pub query: Vec<(String, String)>,
}

/// What the parts of a URL hold.
#[verifier::ext_equal]
pub struct UrlView {
    pub text: Seq<char>,
    pub scheme: Seq<char>,
    pub host: Option<Seq<char>>,
    pub port: Option<u16>,
    pub effective_port: Option<u16>,
    pub path: Seq<char>,
    pub query: Seq<(Seq<char>, Seq<char>)>,
}

impl View for UrlParts {
    type V = UrlView;

    open spec fn view(&self) -> UrlView {
        UrlView {
            text: self.text@,
            scheme: self.scheme@,
            host: match self.host {
                Some(host) => Some(host@),
                None => None,
            },
            port: self.port,
            effective_port: self.effective_port,
            path: self.path@,
            query: pairs_view(self.query@),
        }
    }
}

/// `url::ParseError`: why a text is not a URL.
#[verifier::external_type_specification]
#[verifier::external_body]
pub struct ExParseError(url::ParseError);

/// The parts of the URL that a text spells; `None` where it spells none.
pub uninterp spec fn parsed_url(text: Seq<char>) -> Option<UrlView>;

/// The upper-case hexadecimal digit for a value below sixteen.
pub open spec fn percent_digit(value: int) -> char {
    if value < 10 {
        ('0' as u32 + value) as char
    } else {
        ('A' as u32 + value - 10) as char
    }
}

/// How one byte is written in form encoding.
pub open spec fn form_byte(byte: u8) -> Seq<char> {
    let c = byte as char;
    if 'a' <= c <= 'z' || 'A' <= c <= 'Z' || '0' <= c <= '9' || c == '*' || c == '-' || c == '.'
        || c == '_' {
        seq![c]
    } else if c == ' ' {
        seq!['+']
    } else {
        seq!['%', percent_digit(byte as int / 16), percent_digit(byte as int % 16)]
    }
}

/// Bytes in form encoding.
pub open spec fn form_bytes(bytes: Seq<u8>) -> Seq<char>
    decreases bytes.len(),
{
    if bytes.len() == 0 {
        seq![]
    } else {
        form_byte(bytes[0]) + form_bytes(bytes.skip(1))
    }
}

/// A name and its value in form encoding, both in UTF-8.
pub open spec fn form_pair(pair: (Seq<char>, Seq<char>)) -> Seq<char> {
    form_bytes(encode_utf8(pair.0)) + seq!['='] + form_bytes(encode_utf8(pair.1))
}

/// A query in form encoding.
pub open spec fn form_query(pairs: Seq<(Seq<char>, Seq<char>)>) -> Seq<char>
    decreases pairs.len(),
{
    if pairs.len() == 0 {
        seq![]
    } else if pairs.len() == 1 {
        form_pair(pairs[0])
    } else {
        form_pair(pairs[0]) + seq!['&'] + form_query(pairs.skip(1))
    }
}

/// A `?` or a `#`, which begin a query and a fragment.
pub open spec fn begins_query(c: char) -> bool {
    c == '?' || c == '#'
}

/// Holds no `?` and no `#`.
pub open spec fn before_query(text: Seq<char>) -> bool {
    forall|i: int| 0 <= i < text.len() ==> !begins_query(#[trigger] text[i])
}

/// What stands before the first `?` or `#`.
pub open spec fn upto_query(text: Seq<char>) -> Seq<char>
    decreases text.len(),
{
    if text.len() == 0 || begins_query(text[0]) {
        seq![]
    } else {
        seq![text[0]] + upto_query(text.skip(1))
    }
}

/// A text whose characters a signed 32-bit number can count.
pub open spec fn is_countable(text: Seq<char>) -> bool {
    text.len() <= 0x7fff_ffff
}

/// What holds of the parts of every URL.
pub open spec fn consistent(url: UrlView) -> bool {
    &&& before_query(url.scheme)
    &&& url.host is Some ==> before_query(url.host->0)
    &&& before_query(url.path)
    &&& url.port is Some ==> url.effective_port == url.port
    &&& url.scheme == "http"@ ==> (url.port is None <==> url.effective_port == Some(80u16))
    &&& url.scheme == "https"@ ==> (url.port is None <==> url.effective_port == Some(443u16))
}

/// The beginning of every address on the local backend.
pub open spec fn loopback(port: u16) -> Seq<char> {
    "http://127.0.0.1:"@ + decimal(port as nat) + "/"@
}

/// A text that begins like an address on the local backend.
pub open spec fn is_loopback_text(text: Seq<char>, port: u16) -> bool {
    loopback(port).is_prefix_of(text)
}

/// Positions in this text fit into 32 bits even if every character is
/// percent-encoded, which takes at most twelve bytes for each.
pub open spec fn is_short(text: Seq<char>) -> bool {
    text.len() <= 0x1000_0000
}

/// One segment of a path, made of small letters, digits and hyphens.
pub open spec fn is_plain_segment(segment: Seq<char>) -> bool {
    forall|i: int|
        0 <= i < segment.len() ==> 'a' <= #[trigger] segment[i] <= 'z' || is_digit(segment[i])
            || segment[i] == '-'
}

/// A text that leads to the page `segment` on the local backend, with a query.
pub open spec fn is_loopback_page_text(text: Seq<char>, port: u16, segment: Seq<char>) -> bool {
    &&& is_plain_segment(segment)
    &&& (loopback(port) + segment + "?"@).is_prefix_of(text)
}

/// An address at which the error page is served.
pub open spec fn is_error_page_base(base: Seq<char>) -> bool {
    base == ERROR_SCHEME_URL@ || base == ERROR_HTTP_URL@
}

/// `url::Url::parse` and the accessors of `url::Url` depend on the text alone;
/// what they give is named by `parsed_url`. The parser ends scheme, host and
/// path at the first `?` or `#` and writes neither into them.
/// `port` leaves out 80 for `http` and 443 for `https`, and
/// `port_or_known_default` fills them in. A text that begins with the loopback
/// address and a port, and parses, has that host and port whatever path, query
/// and fragment follow, and a path of small letters, digits and hyphens before
/// the query stays as it is. Such a text is refused only where the position of
/// its query or fragment is beyond 32 bits: never if it is short, and never if
/// the query follows such a path and there is no fragment.
/// The parser counts the characters between the scheme and the next slash in a
/// signed 32-bit number, which overflows on longer texts, so those are left out.
#[verifier::external_body]
fn url_parts(text: &str) -> (url: Result<UrlParts, url::ParseError>)
    requires
        is_countable(text@),
    ensures
        url is Ok <==> parsed_url(text@) is Some,
        url matches Ok(parts) ==> parsed_url(text@) == Some(parts@) && consistent(parts@),
        forall|port: u16| #[trigger]
            is_loopback_text(text@, port) ==> {
                &&& is_short(text@) ==> url is Ok
                &&& url is Ok ==> url->Ok_0@.scheme == "http"@ && url->Ok_0@.host == Some(
                    "127.0.0.1"@,
                ) && url->Ok_0@.effective_port == Some(port)
            },
        forall|port: u16, segment: Seq<char>| #[trigger]
            is_loopback_page_text(text@, port, segment) ==> {
                &&& !text@.contains('#') ==> url is Ok
                &&& url is Ok ==> url->Ok_0@.path == "/"@ + segment
            },
{
    let url = url::Url::parse(text)?;
    Ok(
        UrlParts {
            text: url.as_str().to_owned(),
            scheme: url.scheme().to_owned(),
            host: url.host_str().map(str::to_owned),
            port: url.port(),
            effective_port: url.port_or_known_default(),
            path: url.path().to_owned(),
            query: url.query_pairs().into_owned().collect(),
        },
    )
}

/// `url::Url::parse_with_params` parses the base and appends the pairs to its
/// query in form encoding. The two error page addresses are URLs in normal form
/// without a query, so a `?` and the encoded pairs follow them as they stand.
/// Parsing what comes out gives back their scheme and host, and form decoding
/// gives back the pairs. The function panics where the base, or what stands
/// before its fragment, is longer than 32 bits can count; no other base is taken.
#[verifier::external_body]
fn append_query(base: &str, pairs: &Vec<(String, String)>) -> (url: Result<
    String,
    url::ParseError,
>)
    requires
        is_error_page_base(base@),
    ensures
        url is Ok,
        url->Ok_0@ == base@ + "?"@ + form_query(pairs_view(pairs@)),
        parsed_url(url->Ok_0@) is Some,
        base@ == ERROR_SCHEME_URL@ ==> parsed_url(url->Ok_0@)->0.scheme == "alas-error"@,
        base@ == ERROR_HTTP_URL@ ==> parsed_url(url->Ok_0@)->0.host == Some(
            "alas-error.localhost"@,
        ),
        parsed_url(url->Ok_0@)->0.query == pairs_view(pairs@),
{
    url::Url::parse_with_params(base, pairs).map(String::from)
}

/// Why an address cannot be used.
#[derive(Debug, Clone, Copy, PartialEq, Eq)]
pub enum UrlError {
    /// The text is not a URL.
    NotAUrl,
}

/// Takes a URL apart.
pub fn parse_url(text: &str) -> (url: Result<UrlParts, UrlError>)
    requires
        is_countable(text@),
    ensures
        url is Ok <==> parsed_url(text@) is Some,
        url matches Ok(parts) ==> parsed_url(text@) == Some(parts@) && consistent(parts@),
        url matches Err(e) ==> e == UrlError::NotAUrl,
        forall|port: u16| #[trigger]
            is_loopback_text(text@, port) ==> {
                &&& is_short(text@) ==> url is Ok
                &&& url is Ok ==> is_backend(url->Ok_0@, port) && url->Ok_0@.scheme == "http"@
                    && url->Ok_0@.host == Some("127.0.0.1"@)
            },
        forall|port: u16, segment: Seq<char>| #[trigger]
            is_loopback_page_text(text@, port, segment) ==> {
                &&& !text@.contains('#') ==> url is Ok
                &&& url is Ok ==> url->Ok_0@.path == "/"@ + segment
            },
{
    match url_parts(text) {
        Ok(parts) => Ok(parts),
        Err(_) => Err(UrlError::NotAUrl),
    }
}

/// What is logged of a URL: scheme, host, port and path. Of a URL without a
/// host this is what stands before its query and fragment.
pub open spec fn redacted(url: UrlView) -> Seq<char> {
    match url.host {
        None => upto_query(url.text),
        Some(host) => {
            let port = match url.port {
                Some(port) => ":"@ + decimal(port as nat),
                None => seq![],
            };
            url.scheme + "://"@ + host + port + url.path
        },
    }
}

/// The first `n` characters are what stands before the query, if no query
/// begins among them and they end the text or a query follows them.
pub proof fn lemma_upto_query(text: Seq<char>, n: nat)
    requires
        n <= text.len(),
        before_query(text.take(n as int)),
        n == text.len() || begins_query(text[n as int]),
    ensures
        upto_query(text) == text.take(n as int),
    decreases text.len(),
{
    if n == 0 {
        assert(text.take(0) =~= Seq::<char>::empty());
    } else {
        assert(text.take(n as int)[0] == text[0]);
        let rest = text.skip(1);
        assert(rest.take(n - 1) =~= text.take(n as int).skip(1));
        assert forall|i: int| 0 <= i < rest.take(n - 1).len() implies !begins_query(
            #[trigger] rest.take(n - 1)[i],
        ) by {
            assert(rest.take(n - 1)[i] == text.take(n as int)[i + 1]);
        }
        lemma_upto_query(rest, (n - 1) as nat);
        assert(text.take(n as int) =~= seq![text[0]] + rest.take(n - 1));
    }
}

/// What stands in a text before its first `?` or `#`.
fn cut_query(text: &str) -> (front: String)
    ensures
        front@ == upto_query(text@),
{
    let chars = chars_of(text);
    let mut front = String::new();
    let mut i: usize = 0;
    while i < chars.len() && chars[i] != '?' && chars[i] != '#'
        invariant
            i <= chars.len(),
            chars@ == text@,
            front@ == text@.take(i as int),
            before_query(text@.take(i as int)),
        decreases chars.len() - i,
    {
        front.push(chars[i]);
        assert(text@.take(i + 1) =~= text@.take(i as int).push(text@[i as int]));
        i += 1;
    }
    proof {
        lemma_upto_query(text@, i as nat);
    }
    front
}

/// The form of a URL that is safe to log: without the query, which may hold a
/// login token.
pub fn redacted_url_log(url: &UrlParts) -> (log: String)
    ensures
        log@ == redacted(url@),
{
    let host: &String = match &url.host {
        Some(host) => host,
        None => return cut_query(url.text.as_str()),
    };
    let mut log = url.scheme.clone();
    log.append("://");
    log.append(host.as_str());
    if let Some(port) = url.port {
        log.append(":");
        log.append(decimal_text(port).as_str());
    }
    log.append(url.path.as_str());
    assert(log@ =~= redacted(url@));
    log
}

/// A number in decimal holds no `?` and no `#`.
pub proof fn lemma_decimal_before_query(n: nat)
    ensures
        before_query(decimal(n)),
    decreases n,
{
    if n >= 10 {
        lemma_decimal_before_query(n / 10);
        assert forall|i: int| 0 <= i < decimal(n).len() implies !begins_query(
            #[trigger] decimal(n)[i],
        ) by {
            if i < decimal(n / 10).len() {
                assert(decimal(n)[i] == decimal(n / 10)[i]);
            }
        }
    }
}

proof fn lemma_before_query_concat(a: Seq<char>, b: Seq<char>)
    requires
        before_query(a),
        before_query(b),
    ensures
        before_query(a + b),
{
    assert forall|i: int| 0 <= i < (a + b).len() implies !begins_query(#[trigger] (a + b)[i]) by {
        if i < a.len() {
            assert((a + b)[i] == a[i]);
        } else {
            assert((a + b)[i] == b[i - a.len()]);
        }
    }
}

proof fn lemma_upto_query_holds_none(text: Seq<char>)
    ensures
        before_query(upto_query(text)),
    decreases text.len(),
{
    if text.len() > 0 && !begins_query(text[0]) {
        lemma_upto_query_holds_none(text.skip(1));
        lemma_before_query_concat(seq![text[0]], upto_query(text.skip(1)));
    }
}

/// What is logged of a URL holds nothing of its query or fragment: it has no `?`
/// and no `#`, and URLs that differ in query and fragment alone are logged alike.
pub proof fn law_log_holds_no_query(url: UrlView, other: UrlView)
    requires
        consistent(url),
    ensures
        before_query(redacted(url)),
        other.scheme == url.scheme && other.host == url.host && other.port == url.port && other.path
            == url.path && upto_query(other.text) == upto_query(url.text) ==> redacted(other)
            == redacted(url),
{
    lemma_upto_query_holds_none(url.text);
    if url.host is Some {
        lemma_log_with_host(url);
    }
}

proof fn lemma_log_with_host(url: UrlView)
    requires
        consistent(url),
        url.host is Some,
    ensures
        before_query(redacted(url)),
{
    reveal_strlit("://");
    reveal_strlit(":");
    let host = url.host->0;
    lemma_before_query_concat(url.scheme, "://"@);
    lemma_before_query_concat(url.scheme + "://"@, host);
    let port = match url.port {
        Some(port) => ":"@ + decimal(port as nat),
        None => Seq::<char>::empty(),
    };
    if url.port is Some {
        lemma_decimal_before_query(url.port->0 as nat);
        lemma_before_query_concat(":"@, decimal(url.port->0 as nat));
    }
    lemma_before_query_concat(url.scheme + "://"@ + host, port);
    lemma_before_query_concat(url.scheme + "://"@ + host + port, url.path);
}

/// Whether a URL leads to the local backend at `port`.
pub open spec fn is_backend(url: UrlView, port: u16) -> bool {
    &&& url.scheme == "http"@ || url.scheme == "https"@
    &&& url.host == Some("127.0.0.1"@) || url.host == Some("localhost"@)
    &&& url.effective_port == Some(port)
}

/// Tells whether a URL leads to the local backend at `port`.
pub fn is_backend_url(url: &UrlParts, port: u16) -> (backend: bool)
    ensures
        backend == is_backend(url@, port),
{
    let scheme_fits = same_text(url.scheme.as_str(), "http") || same_text(
        url.scheme.as_str(),
        "https",
    );
    let host_fits = match &url.host {
        Some(host) => same_text(host.as_str(), "127.0.0.1") || same_text(
            host.as_str(),
            "localhost",
        ),
        None => false,
    };
    let port_fits = match url.effective_port {
        Some(effective) => effective == port,
        None => false,
    };
    scheme_fits && host_fits && port_fits
}

/// The address of the backend's first page.
pub fn backend_url(port: u16) -> (url: String)
    ensures
        url@ == loopback(port),
{
    let mut url = String::new();
    url.append("http://127.0.0.1:");
    url.append(decimal_text(port).as_str());
    url.append("/");
    assert(url@ =~= loopback(port));
    url
}

/// The socket address of the backend.
pub fn backend_address(port: u16) -> (address: String)
    ensures
        address@ == "127.0.0.1:"@ + decimal(port as nat),
{
    let mut address = "127.0.0.1:".to_owned();
    address.append(decimal_text(port).as_str());
    address
}

/// Where the splash page is served.
pub fn splash_url(platform: Platform) -> (url: &'static str)
    ensures
        url@ == (if platform.spec_serves_schemes_over_http() {
            SPLASH_HTTP_URL@
        } else {
            SPLASH_SCHEME_URL@
        }),
{
    if platform.serves_schemes_over_http() {
        SPLASH_HTTP_URL
    } else {
        SPLASH_SCHEME_URL
    }
}

/// Where the error page is served.
pub open spec fn error_page_base(platform: Platform) -> Seq<char> {
    if platform.spec_serves_schemes_over_http() {
        ERROR_HTTP_URL@
    } else {
        ERROR_SCHEME_URL@
    }
}

/// The query of an error page address.
pub open spec fn error_page_query(port: u16, detail: Seq<char>) -> Seq<(Seq<char>, Seq<char>)> {
    seq![("port"@, decimal(port as nat)), ("detail"@, detail)]
}

/// The address of the error page for a port and a detail.
pub open spec fn error_page_url(platform: Platform, port: u16, detail: Seq<char>) -> Seq<char> {
    error_page_base(platform) + "?"@ + form_query(error_page_query(port, detail))
}

/// The port that a query of the error page gives: the last one that is a
/// number, or the default.
pub open spec fn shown_port(query: Seq<(Seq<char>, Seq<char>)>) -> u16
    decreases query.len(),
{
    if query.len() == 0 {
        DEFAULT_PORT
    } else if query.last().0 == "port"@ && parsed_u16(query.last().1) is Some {
        parsed_u16(query.last().1)->0
    } else {
        shown_port(query.drop_last())
    }
}

/// The detail that a query of the error page gives: the last one, or the
/// default.
pub open spec fn shown_detail(
    query: Seq<(Seq<char>, Seq<char>)>,
    default_detail: Seq<char>,
) -> Seq<char>
    decreases query.len(),
{
    if query.len() == 0 {
        default_detail
    } else if query.last().0 == "detail"@ {
        query.last().1
    } else {
        shown_detail(query.drop_last(), default_detail)
    }
}

/// The query of a URL; nothing where the text is no URL.
pub open spec fn query_of(text: Seq<char>) -> Seq<(Seq<char>, Seq<char>)> {
    match parsed_url(text) {
        Some(url) => url.query,
        None => seq![],
    }
}

proof fn lemma_error_page_query(port: u16, detail: Seq<char>, default_detail: Seq<char>)
    ensures
        shown_port(error_page_query(port, detail)) == port,
        shown_detail(error_page_query(port, detail), default_detail) == detail,
{
    reveal_strlit("port");
    reveal_strlit("detail");
    crate::text::law_decimal_round_trip(port);
    let query = error_page_query(port, detail);
    assert("port"@.len() != "detail"@.len());
    assert(query.drop_last() =~= seq![("port"@, decimal(port as nat))]);
    assert(shown_port(query.drop_last()) == port);
}

/// The address of the error page for a backend that cannot be reached. Reading
/// the address back gives the port and the detail, and the address is never
/// taken for one of the backend.
pub fn backend_error_url(platform: Platform, port: u16, error_detail: &str) -> (url: Result<
    String,
    UrlError,
>)
    ensures
        url is Ok,
        url->Ok_0@ == error_page_url(platform, port, error_detail@),
        shown_port(query_of(url->Ok_0@)) == port,
        forall|default_detail: Seq<char>| #[trigger]
            shown_detail(query_of(url->Ok_0@), default_detail) == error_detail@,
        parsed_url(url->Ok_0@) is Some,
        forall|any_port: u16| !#[trigger] is_backend(parsed_url(url->Ok_0@)->0, any_port),
{
    let base = if platform.serves_schemes_over_http() {
        ERROR_HTTP_URL
    } else {
        ERROR_SCHEME_URL
    };
    let mut pairs: Vec<(String, String)> = Vec::new();
    pairs.push(("port".to_owned(), decimal_text(port)));
    pairs.push(("detail".to_owned(), error_detail.to_owned()));
    proof {
        assert(pairs_view(pairs@) =~= error_page_query(port, error_detail@));
        assert forall|default_detail: Seq<char>| #[trigger]
            shown_detail(error_page_query(port, error_detail@), default_detail)
                == error_detail@ by {
            lemma_error_page_query(port, error_detail@, default_detail);
        }
        lemma_error_page_query(port, error_detail@, seq![]);
    }
    match append_query(base, &pairs) {
        Ok(url) => {
            proof {
                reveal_strlit("http");
                reveal_strlit("https");
                reveal_strlit("alas-error");
                reveal_strlit("127.0.0.1");
                reveal_strlit("localhost");
                reveal_strlit("alas-error.localhost");
                assert("alas-error"@.len() == 10 && "alas-error.localhost"@.len() == 20);
                assert("http"@.len() == 4 && "https"@.len() == 5);
                assert("127.0.0.1"@.len() == 9 && "localhost"@.len() == 9);
            }
            Ok(url)
        },
        Err(_) => Err(UrlError::NotAUrl),
    }
}

/// The port and the detail that a query asks the error page to show.
pub fn backend_error_query_params(query: &Vec<(String, String)>, default_detail: &str) -> (params: (
    u16,
    String,
))
    ensures
        params.0 == shown_port(pairs_view(query@)),
        params.1@ == shown_detail(pairs_view(query@), default_detail@),
{
    let mut port = DEFAULT_PORT;
    let mut detail = default_detail.to_owned();
    let ghost pairs = pairs_view(query@);
    let mut i: usize = 0;
    while i < query.len()
        invariant
            i <= query.len(),
            pairs == pairs_view(query@),
            port == shown_port(pairs.take(i as int)),
            detail@ == shown_detail(pairs.take(i as int), default_detail@),
        decreases query.len() - i,
    {
        let ghost next = pairs.take(i + 1);
        proof {
            assert(next.drop_last() =~= pairs.take(i as int));
            assert(next.last() == (query@[i as int].0@, query@[i as int].1@));
            reveal_strlit("port");
            reveal_strlit("detail");
            assert("port"@.len() != "detail"@.len());
        }
        let key = query[i].0.as_str();
        let value = query[i].1.as_str();
        if same_text(key, "port") {
            if let Some(parsed_port) = parse_u16(value) {
                port = parsed_port;
            }
        } else if same_text(key, "detail") {
            detail = value.to_owned();
        }
        i += 1;
    }
    assert(pairs.take(query@.len() as int) =~= pairs);
    (port, detail)
}

/// The port and the detail that an address asks the error page to show. An
/// address that is no URL asks for nothing.
pub fn backend_error_request_params(uri: &str, default_detail: &str) -> (params: (u16, String))
    requires
        is_countable(uri@),
    ensures
        params.0 == shown_port(query_of(uri@)),
        params.1@ == shown_detail(query_of(uri@), default_detail@),
{
    match parse_url(uri) {
        Ok(url) => backend_error_query_params(&url.query, default_detail),
        Err(_) => (DEFAULT_PORT, default_detail.to_owned()),
    }
}

/// The log keeps everything before the query: of a URL with a host, scheme and host in
/// front, the path at the end, and between them the port if it is not the usual one; of
/// one without a host, all that stands before the query.
pub proof fn law_log_keeps_what_stands_before_the_query(url: &UrlParts, log: String)
    requires
        call_ensures(redacted_url_log, (url,), log),
    ensures
        url@.host is Some ==> {
            let front = url@.scheme + "://"@ + url@.host->0;
            let port = match url@.port {
                Some(port) => ":"@ + decimal(port as nat),
                None => seq![],
            };
            &&& front.is_prefix_of(log@)
            &&& log@.len() == front.len() + port.len() + url@.path.len()
            &&& log@.skip(front.len() as int) == port + url@.path
        },
        url@.host is None ==> {
            &&& log@.is_prefix_of(url@.text)
            &&& before_query(log@)
            &&& log@.len() == url@.text.len() || url@.text[log@.len() as int] == '?'
                || url@.text[log@.len() as int] == '#'
        },
{
    if url@.host is Some {
        let front = url@.scheme + "://"@ + url@.host->0;
        let port = match url@.port {
            Some(port) => ":"@ + decimal(port as nat),
            None => Seq::<char>::empty(),
        };
        assert(log@ =~= front + (port + url@.path));
        assert(log@.skip(front.len() as int) =~= port + url@.path);
    } else {
        lemma_upto_query_holds_none(url@.text);
        lemma_upto_query_ends(url@.text);
    }
}

proof fn lemma_upto_query_ends(text: Seq<char>)
    ensures
        upto_query(text).is_prefix_of(text),
        upto_query(text).len() == text.len() || begins_query(
            text[upto_query(text).len() as int],
        ),
    decreases text.len(),
{
    if text.len() > 0 && !begins_query(text[0]) {
        let rest = text.skip(1);
        lemma_upto_query_ends(rest);
        assert(upto_query(text).len() == upto_query(rest).len() + 1);
        assert forall|i: int| 0 <= i < upto_query(text).len() implies upto_query(text)[i]
            == #[trigger] text[i] by {
            if i > 0 {
                assert(upto_query(text)[i] == upto_query(rest)[i - 1]);
                assert(rest[i - 1] == text[i]);
            }
        }
        assert(text.take(upto_query(text).len() as int) =~= upto_query(text));
        if upto_query(rest).len() < rest.len() {
            assert(text[upto_query(text).len() as int] == rest[upto_query(rest).len() as int]);
        }
    }
}

/// A URL leads to the local backend exactly if it is one over HTTP or HTTPS, to this
/// machine by number or name, at the port, written out or by default.
pub proof fn law_backend_is_on_this_machine(url: &UrlParts, port: u16, backend: bool)
    requires
        call_ensures(is_backend_url, (url, port), backend),
    ensures
        backend <==> {
            &&& url@.scheme == "http"@ || url@.scheme == "https"@
            &&& url@.host == Some("127.0.0.1"@) || url@.host == Some("localhost"@)
            &&& url@.effective_port == Some(port)
        },
{
}

/// The first page of the backend stands at the address that the launcher connects to,
/// over plain HTTP. Different ports have different addresses.
pub proof fn law_backend_page_stands_at_its_address(
    port: u16,
    url: String,
    address: String,
    other_port: u16,
    other_url: String,
)
    requires
        call_ensures(backend_url, (port,), url),
        call_ensures(backend_address, (port,), address),
        call_ensures(backend_url, (other_port,), other_url),
    ensures
        url@ == "http://"@ + address@ + "/"@,
        address@ == "127.0.0.1:"@ + decimal(port as nat),
        url@ == other_url@ <==> port == other_port,
{
    reveal_strlit("http://");
    reveal_strlit("127.0.0.1:");
    reveal_strlit("http://127.0.0.1:");
    reveal_strlit("/");
    assert("http://"@ + "127.0.0.1:"@ =~= "http://127.0.0.1:"@);
    assert(url@ =~= "http://"@ + address@ + "/"@);
    if url@ == other_url@ {
        let front = "http://127.0.0.1:"@.len() as int;
        assert(url@.subrange(front, url@.len() - 1) =~= decimal(port as nat));
        assert(other_url@.subrange(front, other_url@.len() - 1) =~= decimal(other_port as nat));
        crate::text::law_decimal_round_trip(port);
        crate::text::law_decimal_round_trip(other_port);
    }
}

/// The launcher's own pages stand at a scheme of their own, or at a subdomain of this
/// machine over plain HTTP on Windows and Android.
pub proof fn law_own_pages_stand_where_the_system_serves_them(
    platform: Platform,
    port: u16,
    detail: &str,
    splash: &'static str,
    error: Result<String, UrlError>,
)
    requires
        call_ensures(splash_url, (platform,), splash),
        call_ensures(backend_error_url, (platform, port, detail), error),
    ensures
        ({
            let over_http = platform == Platform::Windows || platform == Platform::Android;
            &&& error is Ok
            &&& over_http ==> splash@ == "http://alas-splash.localhost/"@
            &&& !over_http ==> splash@ == "alas-splash://localhost/"@
            &&& over_http ==> ("http://alas-error.localhost/backend"@ + "?"@).is_prefix_of(
                error->Ok_0@,
            )
            &&& !over_http ==> ("alas-error://localhost/backend"@ + "?"@).is_prefix_of(
                error->Ok_0@,
            )
        }),
{
    let base = error_page_base(platform);
    assert((base + "?"@).is_prefix_of(error->Ok_0@));
}

/// The parameters of the error page: without any, the usual port and the usual detail;
/// a further port counts if it is a number, a further detail always, and anything else
/// changes nothing.
pub proof fn law_last_parameters_count(
    query: Seq<(Seq<char>, Seq<char>)>,
    name: Seq<char>,
    value: Seq<char>,
    usual_detail: Seq<char>,
)
    ensures
        shown_port(seq![]) == 22267,
        shown_detail(seq![], usual_detail) == usual_detail,
        name == "port"@ && parsed_u16(value) is Some ==> shown_port(query.push((name, value)))
            == parsed_u16(value)->0,
        name != "port"@ || parsed_u16(value) is None ==> shown_port(query.push((name, value)))
            == shown_port(query),
        name == "detail"@ ==> shown_detail(query.push((name, value)), usual_detail) == value,
        name != "detail"@ ==> shown_detail(query.push((name, value)), usual_detail)
            == shown_detail(query, usual_detail),
{
    let longer = query.push((name, value));
    assert(longer.drop_last() =~= query);
    assert(longer.last() == (name, value));
}

/// An address without parameters, or one that is none, shows the usual port and detail.
/// Otherwise the parameters of the address count as if they had been handed over.
pub proof fn law_address_shows_its_parameters(
    uri: &str,
    usual_detail: &str,
    params: (u16, String),
    query: &Vec<(String, String)>,
    from_query: (u16, String),
)
    requires
        call_ensures(backend_error_request_params, (uri, usual_detail), params),
        call_ensures(backend_error_query_params, (query, usual_detail), from_query),
    ensures
        parsed_url(uri@) is None ==> params.0 == 22267 && params.1@ == usual_detail@,
        parsed_url(uri@) is Some && parsed_url(uri@)->0.query == pairs_view(query@) ==> params.0
            == from_query.0 && params.1@ == from_query.1@,
{
}

} // verus!
