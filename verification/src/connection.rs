//! Waiting for the backend and deciding where the main window goes.
use crate::address::{
    backend_address, backend_error_url, error_page_url, is_backend, is_backend_url, parsed_url,
    query_of, redacted, redacted_url_log, shown_detail, shown_port, UrlError, UrlParts,
};
use crate::platform::Platform;
use crate::text::decimal;
use crate::trust::{navigate_target, reply_token, webui_navigate_url, TrustReply};
use vstd::prelude::*;

verus! {

/// How long one attempt to connect may take, in milliseconds.
pub const CONNECT_TIMEOUT_MS: u64 = 500;

/// How long the launcher waits for the backend before it opens a page, in
/// milliseconds.
pub const NAVIGATION_TIMEOUT_MS: u64 = 10000;

/// The pause between two attempts to connect, in milliseconds.
pub const CONNECT_PAUSE_MS: u64 = 200;

/// How long the launcher waits for the splash page, in milliseconds.
pub const SPLASH_TIMEOUT_MS: u64 = 2000;

/// The pause between two looks at the splash page, in milliseconds.
pub const SPLASH_PAUSE_MS: u64 = 25;

/// What a wait does next.
#[derive(Debug, Clone, Copy, PartialEq, Eq, Structural)]
pub enum WaitStep {
    /// Try once.
    Try,
    /// Give up.
    GiveUp,
}

/// A wait for something that is tried again until it succeeds or time runs out.
#[derive(Debug)]
pub struct Wait {
    /// The time after which no attempt is begun, in milliseconds.
    pub timeout_ms: u64,
    /// The pause after a failed attempt, in milliseconds.
    pub pause_ms: u64,
    /// Why the last attempt failed.
    pub last_error: Option<String>,
}

/// What a wait knows.
#[verifier::ext_equal]
pub struct WaitView {
    pub timeout_ms: u64,
    pub pause_ms: u64,
    pub last_error: Option<Seq<char>>,
}

impl View for Wait {
    type V = WaitView;

    open spec fn view(&self) -> WaitView {
        WaitView {
            timeout_ms: self.timeout_ms,
            pause_ms: self.pause_ms,
            last_error: match self.last_error {
                Some(error) => Some(error@),
                None => None,
            },
        }
    }
}

impl WaitView {
    /// The wait after an attempt failed.
    pub open spec fn after_failure(self, error: Seq<char>) -> WaitView {
        WaitView { last_error: Some(error), ..self }
    }

    /// The wait after the first `n` of some failures.
    pub open spec fn after_failures(self, errors: Seq<Seq<char>>, n: nat) -> WaitView
        decreases n,
    {
        if n == 0 {
            self
        } else {
            self.after_failures(errors, (n - 1) as nat).after_failure(errors[n - 1])
        }
    }

    /// What the wait does after so many milliseconds.
    pub open spec fn step_at(self, elapsed_ms: u64) -> WaitStep {
        if elapsed_ms < self.timeout_ms {
            WaitStep::Try
        } else {
            WaitStep::GiveUp
        }
    }

    /// Why the wait is given up: the last failure, or `timeout_text` where
    /// nothing was tried.
    pub open spec fn outcome(self, timeout_text: Seq<char>) -> Seq<char> {
        match self.last_error {
            Some(error) => error,
            None => timeout_text,
        }
    }
}

impl Wait {
    /// The wait for the backend, with the time that it may take.
    pub fn for_backend(timeout_ms: u64) -> (wait: Wait)
        ensures
            wait@ == (WaitView { timeout_ms, pause_ms: CONNECT_PAUSE_MS, last_error: None }),
    {
        Wait { timeout_ms, pause_ms: CONNECT_PAUSE_MS, last_error: None }
    }

    /// The wait for the splash page.
    pub fn for_splash() -> (wait: Wait)
        ensures
            wait@ == (WaitView {
                timeout_ms: SPLASH_TIMEOUT_MS,
                pause_ms: SPLASH_PAUSE_MS,
                last_error: None,
            }),
    {
        Wait { timeout_ms: SPLASH_TIMEOUT_MS, pause_ms: SPLASH_PAUSE_MS, last_error: None }
    }

    /// Decides whether another attempt is begun after so many milliseconds.
    pub fn step(&self, elapsed_ms: u64) -> (step: WaitStep)
        ensures
            step == self@.step_at(elapsed_ms),
    {
        if elapsed_ms < self.timeout_ms {
            WaitStep::Try
        } else {
            WaitStep::GiveUp
        }
    }

    /// Takes note of a failed attempt, and tells how many milliseconds to pause.
    pub fn attempt_failed(&mut self, error: String) -> (pause_ms: u64)
        ensures
            pause_ms == old(self)@.pause_ms,
            final(self)@ == old(self)@.after_failure(error@),
    {
        self.last_error = Some(error);
        self.pause_ms
    }

    /// Why the wait was given up.
    pub fn failure(self, timeout_text: &str) -> (error: String)
        ensures
            error@ == self@.outcome(timeout_text@),
    {
        match self.last_error {
            Some(error) => error,
            None => timeout_text.to_owned(),
        }
    }
}

/// A wait that was given up is explained by its last failure, and failures
/// change neither when it is given up nor how long it pauses.
pub proof fn law_wait_reports_the_last_failure(
    wait: WaitView,
    errors: Seq<Seq<char>>,
    n: nat,
    elapsed_ms: u64,
    timeout_text: Seq<char>,
)
    requires
        n <= errors.len(),
    ensures
        n > 0 ==> wait.after_failures(errors, n).outcome(timeout_text) == errors[n - 1],
        wait.after_failures(errors, n).step_at(elapsed_ms) == wait.step_at(elapsed_ms),
        wait.after_failures(errors, n).pause_ms == wait.pause_ms,
    decreases n,
{
    if n > 0 {
        law_wait_reports_the_last_failure(
            wait,
            errors,
            (n - 1) as nat,
            elapsed_ms,
            timeout_text,
        );
    }
}

/// Tells that the backend refused a connection.
pub open spec fn refusal(port: u16, cause: Seq<char>) -> Seq<char> {
    "Unable to connect to local backend at 127.0.0.1:"@ + decimal(port as nat) + ": "@ + cause
}

/// Tells that the backend refused a connection, and why.
pub fn connection_error(port: u16, cause: &str) -> (error: String)
    ensures
        error@ == refusal(port, cause@),
{
    let mut error = "Unable to connect to local backend at ".to_owned();
    error.append(backend_address(port).as_str());
    error.append(": ");
    error.append(cause);
    proof {
        reveal_strlit("Unable to connect to local backend at ");
        reveal_strlit("127.0.0.1:");
        reveal_strlit("Unable to connect to local backend at 127.0.0.1:");
        assert("Unable to connect to local backend at "@ + "127.0.0.1:"@
            =~= "Unable to connect to local backend at 127.0.0.1:"@);
        assert(error@ =~= refusal(port, cause@));
    }
    error
}

/// What came of the wait for the backend.
#[derive(Debug)]
pub enum Reached {
    /// The backend accepts connections, and answered the request for a token so.
    Yes(TrustReply),
    /// It does not, for this reason.
    No(String),
}

/// Where the main window goes.
#[derive(Debug)]
pub struct Navigation {
    pub url: String,
    /// Whether the address is one of the backend.
    pub to_backend: bool,
}

/// Decides where the main window goes after the wait for the backend: to the
/// backend if it was reached, else to the error page, which tells the reason.
pub fn navigate_backend_or_error(platform: Platform, port: u16, reached: Reached) -> (navigation:
    Result<Navigation, UrlError>)
    ensures
        navigation is Ok,
        match reached {
            Reached::Yes(reply) => {
                &&& navigation->Ok_0.to_backend
                &&& navigation->Ok_0.url@ == navigate_target(port, reply_token(reply))
            },
            Reached::No(error) => {
                &&& !navigation->Ok_0.to_backend
                &&& navigation->Ok_0.url@ == error_page_url(platform, port, error@)
                &&& shown_port(query_of(navigation->Ok_0.url@)) == port
                &&& forall|default_detail: Seq<char>| #[trigger]
                    shown_detail(query_of(navigation->Ok_0.url@), default_detail) == error@
            },
        },
{
    match reached {
        Reached::Yes(reply) => Ok(
            Navigation { url: webui_navigate_url(port, reply), to_backend: true },
        ),
        Reached::No(error) => match backend_error_url(platform, port, error.as_str()) {
            Ok(url) => Ok(Navigation { url, to_backend: false }),
            Err(e) => Err(e),
        },
    }
}

/// Decides where the main window goes when the user retries on the error page:
/// to the backend if it was reached, nowhere if not.
pub fn retry_backend_connection(port: u16, reached: Reached) -> (target: Option<String>)
    ensures
        match reached {
            Reached::Yes(reply) => target is Some && target->0@ == navigate_target(
                port,
                reply_token(reply),
            ),
            Reached::No(_) => target is None,
        },
{
    match reached {
        Reached::Yes(reply) => Some(webui_navigate_url(port, reply)),
        Reached::No(_) => None,
    }
}

/// What is decided about a navigation before anything was tried.
#[derive(Debug, Clone, Copy, PartialEq, Eq, Structural)]
pub enum NavigationCheck {
    /// The window may go there.
    Allow,
    /// Whether the window may go there depends on a connection to the backend.
    Connect,
}

/// What is decided about a navigation to the backend.
#[derive(Debug)]
pub enum NavigationVerdict {
    /// The window may go there.
    Allow,
    /// The window may not go there; it is sent to the error page instead.
    Block {
        /// What is logged of the blocked address.
        blocked_url: String,
        /// The address of the error page.
        error_url: String,
    },
}

/// Decides whether a navigation of the main window calls for a connection to the
/// backend: it does if it leads there.
pub fn check_navigation(port: u16, url: &UrlParts) -> (check: NavigationCheck)
    ensures
        check == (if is_backend(url@, port) {
            NavigationCheck::Connect
        } else {
            NavigationCheck::Allow
        }),
{
    if is_backend_url(url, port) {
        NavigationCheck::Connect
    } else {
        NavigationCheck::Allow
    }
}

/// Decides about a navigation of the main window, given why the backend could
/// not be connected to, if it could not: only a navigation to a backend that
/// cannot be reached is blocked.
pub fn handle_backend_navigation(
    platform: Platform,
    port: u16,
    url: &UrlParts,
    failure: Option<String>,
) -> (verdict: Result<NavigationVerdict, UrlError>)
    ensures
        verdict is Ok,
        verdict->Ok_0 is Allow <==> !(is_backend(url@, port) && failure is Some),
        verdict->Ok_0 matches NavigationVerdict::Block { blocked_url, error_url } ==> {
            &&& blocked_url@ == redacted(url@)
            &&& error_url@ == error_page_url(platform, port, failure->0@)
            &&& parsed_url(error_url@) is Some
            &&& forall|any_port: u16| !#[trigger] is_backend(parsed_url(error_url@)->0, any_port)
        },
{
    match check_navigation(port, url) {
        NavigationCheck::Allow => Ok(NavigationVerdict::Allow),
        NavigationCheck::Connect => match failure {
            None => Ok(NavigationVerdict::Allow),
            Some(error) => match backend_error_url(platform, port, error.as_str()) {
                Ok(error_url) => Ok(
                    NavigationVerdict::Block { blocked_url: redacted_url_log(url), error_url },
                ),
                Err(e) => Err(e),
            },
        },
    }
}

/// The error page can always be shown: the address that a blocked navigation is
/// sent to is itself never blocked, whatever the state of the backend.
pub proof fn law_error_page_is_never_blocked(
    platform: Platform,
    port: u16,
    url: &UrlParts,
    failure: Option<String>,
    verdict: Result<NavigationVerdict, UrlError>,
    text: &str,
    target: Result<UrlParts, UrlError>,
    second_failure: Option<String>,
    second: Result<NavigationVerdict, UrlError>,
)
    requires
        call_ensures(handle_backend_navigation, (platform, port, url, failure), verdict),
        verdict matches Ok(NavigationVerdict::Block { error_url, .. }) && error_url@ == text@,
        call_ensures(crate::address::parse_url, (text,), target),
        target is Ok ==> call_ensures(
            handle_backend_navigation,
            (platform, port, &target->Ok_0, second_failure),
            second,
        ),
    ensures
        target is Ok,
        second matches Ok(verdict) && verdict is Allow,
{
    let error_url = verdict->Ok_0->error_url;
    assert(!is_backend(parsed_url(error_url@)->0, port));
}

/// A wait goes on exactly until its time is up, and then says why: the last failure,
/// whole, or that the time ran out where nothing was tried.
pub proof fn law_wait_ends_with_its_time(
    wait: WaitView,
    elapsed_ms: u64,
    error: Seq<char>,
    timeout_text: Seq<char>,
)
    ensures
        wait.step_at(elapsed_ms) == WaitStep::Try <==> elapsed_ms < wait.timeout_ms,
        wait.step_at(elapsed_ms) == WaitStep::GiveUp <==> elapsed_ms >= wait.timeout_ms,
        wait.after_failure(error).outcome(timeout_text) == error,
        wait.last_error is None ==> wait.outcome(timeout_text) == timeout_text,
        wait.last_error is Some ==> wait.outcome(timeout_text) == wait.last_error->0,
{
}

/// The times of the waits: half a second for an attempt to connect, ten seconds before
/// a page opens with a fifth of a second between attempts, and two seconds for the
/// splash page with a fortieth of a second between looks.
pub proof fn law_times_of_the_waits(timeout_ms: u64, backend: Wait, splash: Wait)
    requires
        call_ensures(Wait::for_backend, (timeout_ms,), backend),
        call_ensures(Wait::for_splash, (), splash),
    ensures
        CONNECT_TIMEOUT_MS == 500,
        NAVIGATION_TIMEOUT_MS == 10 * 1000,
        backend@.timeout_ms == timeout_ms,
        backend@.pause_ms * 5 == 1000,
        backend@.last_error is None,
        splash@.timeout_ms == 2 * 1000,
        splash@.pause_ms * 40 == 1000,
        splash@.last_error is None,
{
}

/// A refused connection is told with the address and the whole cause.
pub proof fn law_refusal_tells_address_and_cause(
    port: u16,
    cause: &str,
    error: String,
    address: String,
)
    requires
        call_ensures(connection_error, (port, cause), error),
        call_ensures(backend_address, (port,), address),
    ensures
        error@ == "Unable to connect to local backend at "@ + address@ + ": "@ + cause@,
        address@ == "127.0.0.1:"@ + decimal(port as nat),
{
    reveal_strlit("Unable to connect to local backend at ");
    reveal_strlit("127.0.0.1:");
    reveal_strlit("Unable to connect to local backend at 127.0.0.1:");
    assert("Unable to connect to local backend at "@ + "127.0.0.1:"@
        =~= "Unable to connect to local backend at 127.0.0.1:"@);
    assert(error@ =~= "Unable to connect to local backend at "@ + address@ + ": "@ + cause@);
}

/// Once the backend was reached, opening the main window and retrying on the error page
/// lead to the same address: the one that the answer of the backend asks for.
pub proof fn law_retrying_opens_what_would_have_opened(
    platform: Platform,
    port: u16,
    reply: TrustReply,
    navigation: Result<Navigation, UrlError>,
    target: Option<String>,
    login: String,
)
    requires
        call_ensures(navigate_backend_or_error, (platform, port, Reached::Yes(reply)), navigation),
        call_ensures(retry_backend_connection, (port, Reached::Yes(reply)), target),
        call_ensures(webui_navigate_url, (port, reply), login),
    ensures
        navigation is Ok && navigation->Ok_0.to_backend,
        navigation->Ok_0.url@ == login@,
        target is Some && target->0@ == login@,
{
}

/// A backend that was not reached leads to the error page that `backend_error_url`
/// gives for the port and the reason, and retrying leads nowhere.
pub proof fn law_unreached_backend_leads_to_the_error_page(
    platform: Platform,
    port: u16,
    reason: String,
    text: &str,
    navigation: Result<Navigation, UrlError>,
    target: Option<String>,
    error_url: Result<String, UrlError>,
)
    requires
        call_ensures(navigate_backend_or_error, (platform, port, Reached::No(reason)), navigation),
        call_ensures(retry_backend_connection, (port, Reached::No(reason)), target),
        text@ == reason@,
        call_ensures(backend_error_url, (platform, port, text), error_url),
    ensures
        navigation is Ok && !navigation->Ok_0.to_backend,
        error_url is Ok && navigation->Ok_0.url@ == error_url->Ok_0@,
        shown_port(query_of(navigation->Ok_0.url@)) == port,
        shown_detail(query_of(navigation->Ok_0.url@), seq![]) == reason@,
        target is None,
{
}

/// The main window may go anywhere but to a local backend that cannot be reached, at the
/// port of this launcher. Whether it can be reached matters only for addresses of the
/// backend.
pub proof fn law_only_an_unreachable_backend_is_blocked(
    platform: Platform,
    port: u16,
    url: &UrlParts,
    failure: Option<String>,
    check: NavigationCheck,
    verdict: Result<NavigationVerdict, UrlError>,
)
    requires
        call_ensures(check_navigation, (port, url), check),
        call_ensures(handle_backend_navigation, (platform, port, url, failure), verdict),
    ensures
        ({
            let of_backend = {
                &&& url@.scheme == "http"@ || url@.scheme == "https"@
                &&& url@.host == Some("127.0.0.1"@) || url@.host == Some("localhost"@)
                &&& url@.effective_port == Some(port)
            };
            &&& check == NavigationCheck::Connect <==> of_backend
            &&& check == NavigationCheck::Allow <==> !of_backend
            &&& verdict is Ok
            &&& verdict->Ok_0 is Block <==> of_backend && failure is Some
            &&& verdict->Ok_0 is Allow <==> !of_backend || failure is None
        }),
{
}

/// A blocked navigation is logged without its query and leads to the error page for the
/// port and the reason.
pub proof fn law_blocked_navigation_shows_the_reason(
    platform: Platform,
    port: u16,
    url: &UrlParts,
    failure: String,
    verdict: Result<NavigationVerdict, UrlError>,
    log: String,
    text: &str,
    error_url: Result<String, UrlError>,
)
    requires
        call_ensures(handle_backend_navigation, (platform, port, url, Some(failure)), verdict),
        verdict is Ok && verdict->Ok_0 is Block,
        call_ensures(redacted_url_log, (url,), log),
        text@ == failure@,
        call_ensures(backend_error_url, (platform, port, text), error_url),
    ensures
        verdict->Ok_0->blocked_url@ == log@,
        error_url is Ok && verdict->Ok_0->error_url@ == error_url->Ok_0@,
        shown_port(query_of(verdict->Ok_0->error_url@)) == port,
        shown_detail(query_of(verdict->Ok_0->error_url@), seq![]) == failure@,
{
}

} // verus!
