//! The token manager: holds the current access token, decides when a
//! refresh is due, guards against concurrent refreshes, and builds the
//! authorization headers. The HTTP exchange itself is performed by the
//! surrounding process, which feeds the parsed grant back in.

use vstd::prelude::*;
use vstd::string::*;
use crate::errors::SpotifyError;
use base64::engine::general_purpose;
use base64::Engine as _;

verus! {

/// How long before expiry a token is refreshed, in milliseconds.
pub const TOKEN_REFRESH_BUFFER_MS: u64 = 300000;

/// The access-token state shared by every API caller.
#[derive(Debug, Clone, PartialEq)]
pub struct TokenManager {
    /// The current bearer token, if one was obtained.
    pub access_token: Option<String>,
    /// The long-lived refresh token, if one was configured.
    pub refresh_token: Option<String>,
    /// When the current token expires, as epoch milliseconds.
    pub expires_at_ms: Option<u64>,
    /// A refresh exchange is in flight; no second one may start.
    pub refresh_in_flight: bool,
}

/// A refresh is due: there is no token, no known expiry, or the expiry is
/// within the buffer of now.
pub open spec fn spec_needs_refresh(m: TokenManager, now_ms: u64) -> bool {
    ||| m.access_token is None
    ||| m.expires_at_ms is None
    ||| now_ms + TOKEN_REFRESH_BUFFER_MS >= m.expires_at_ms->0
}

/// What a caller asking for a valid token must do next.
#[derive(Debug, Clone, Copy, PartialEq, Eq, Structural)]
pub enum RefreshGate {
    /// The token is fresh; use it.
    Fresh,
    /// This caller must perform the refresh exchange.
    Begin,
    /// Another caller's refresh is in flight; await its result.
    AwaitInFlight,
}

/// Which gate applies: an in-flight refresh must be awaited, a fresh
/// token is used as it stands, and only otherwise does a refresh begin.
pub open spec fn spec_refresh_gate(m: TokenManager, now_ms: u64) -> RefreshGate {
    if m.refresh_in_flight {
        RefreshGate::AwaitInFlight
    } else if !spec_needs_refresh(m, now_ms) {
        RefreshGate::Fresh
    } else {
        RefreshGate::Begin
    }
}

/// The expiry stored for a grant: now plus its lifetime, saturating.
pub open spec fn spec_grant_expiry(now_ms: u64, expires_in_s: u64) -> u64 {
    if expires_in_s as int * 1000 + now_ms as int > u64::MAX as int {
        u64::MAX
    } else {
        (now_ms + expires_in_s * 1000) as u64
    }
}

impl TokenManager {
    /// A manager holding only the configured refresh token.
    pub fn new(refresh_token: String) -> (m: TokenManager)
        ensures
            m.access_token is None,
            m.refresh_token == Some(refresh_token),
            m.expires_at_ms is None,
            !m.refresh_in_flight,
    {
        TokenManager {
            access_token: None,
            refresh_token: Some(refresh_token),
            expires_at_ms: None,
            refresh_in_flight: false,
        }
    }

    /// A refresh is due now.
    pub fn needs_refresh(&self, now_ms: u64) -> (r: bool)
        ensures
            r == spec_needs_refresh(*self, now_ms),
    {
        match (&self.access_token, &self.expires_at_ms) {
            (None, _) => true,
            (Some(_), None) => true,
            (Some(_), Some(expires_at)) => {
                if now_ms > u64::MAX - TOKEN_REFRESH_BUFFER_MS {
                    true
                } else {
                    now_ms + TOKEN_REFRESH_BUFFER_MS >= *expires_at
                }
            },
        }
    }

    /// Ask to use the token now. At most one caller is told to refresh:
    /// whoever is told `Begin` flips the in-flight flag, and every caller
    /// arriving before the refresh completes is told to await it.
    pub fn begin_refresh(&mut self, now_ms: u64) -> (g: RefreshGate)
        ensures
            g == spec_refresh_gate(*old(self), now_ms),
            g is Begin ==> *final(self) == (TokenManager { refresh_in_flight: true, ..*old(self) }),
            !(g is Begin) ==> *final(self) == *old(self),
    {
        if self.refresh_in_flight {
            RefreshGate::AwaitInFlight
        } else if !self.needs_refresh(now_ms) {
            RefreshGate::Fresh
        } else {
            self.refresh_in_flight = true;
            RefreshGate::Begin
        }
    }

    /// Store a completed grant: the new token, its computed absolute
    /// expiry, and the in-flight flag cleared.
    pub fn complete_refresh(&mut self, access_token: String, expires_in_s: u64, now_ms: u64)
        ensures
            final(self).access_token == Some(access_token),
            final(self).expires_at_ms == Some(spec_grant_expiry(now_ms, expires_in_s)),
            final(self).refresh_token == old(self).refresh_token,
            !final(self).refresh_in_flight,
    {
        let expiry: u64 = if expires_in_s > u64::MAX / 1000 {
            proof {
                let q = (u64::MAX / 1000) as int;
                vstd::arithmetic::div_mod::lemma_fundamental_div_mod(u64::MAX as int, 1000);
                vstd::arithmetic::mul::lemma_mul_inequality(q + 1, expires_in_s as int, 1000);
            }
            u64::MAX
        } else {
            proof {
                let q = (u64::MAX / 1000) as int;
                vstd::arithmetic::div_mod::lemma_fundamental_div_mod(u64::MAX as int, 1000);
                vstd::arithmetic::mul::lemma_mul_inequality(expires_in_s as int, q, 1000);
            }
            let ms = expires_in_s * 1000;
            if now_ms > u64::MAX - ms {
                u64::MAX
            } else {
                now_ms + ms
            }
        };
        self.access_token = Some(access_token);
        self.expires_at_ms = Some(expiry);
        self.refresh_in_flight = false;
    }

    /// Clear the in-flight flag after a refresh exchange failed, leaving
    /// the rest of the state as it was.
    pub fn fail_refresh(&mut self)
        ensures
            *final(self) == (TokenManager { refresh_in_flight: false, ..*old(self) }),
    {
        self.refresh_in_flight = false;
    }

    /// The bearer header for the current token; fails when none is held.
    pub fn bearer_header(&self) -> (r: Result<String, SpotifyError>)
        ensures
            r is Ok <==> self.access_token is Some,
            r is Ok ==> r->Ok_0@ == "Bearer "@ + self.access_token->0@,
            r is Err ==> (r->Err_0 matches SpotifyError::AuthenticationFailed(m) && m@
                == "No access token available"@),
    {
        match &self.access_token {
            Some(token) => {
                let mut header = String::from_str("Bearer ");
                header.append(token.as_str());
                Ok(header)
            },
            None => Err(
                SpotifyError::AuthenticationFailed(
                    String::from_str("No access token available"),
                ),
            ),
        }
    }
}

/// What the standard base64 alphabet encodes a text's bytes to; a function
/// of the text alone.
pub uninterp spec fn base64_std_of(s: Seq<char>) -> Seq<char>;

/// Relies on base64's STANDARD engine: encodes the text's bytes, a
/// function of the text alone.
#[verifier::external_body]
fn base64_encode(s: &str) -> (r: String)
    ensures
        r@ == base64_std_of(s@),
{
    general_purpose::STANDARD.encode(s)
}

/// The basic-authorization header for the token exchange: `Basic` plus the
/// base64 encoding of `client_id:client_secret`.
pub fn basic_auth_header(client_id: &str, client_secret: &str) -> (r: String)
    ensures
        r@ == "Basic "@ + base64_std_of(client_id@ + ":"@ + client_secret@),
{
    let mut credentials = String::from_str(client_id);
    credentials.append(":");
    credentials.append(client_secret);
    let encoded = base64_encode(credentials.as_str());
    let mut header = String::from_str("Basic ");
    header.append(encoded.as_str());
    header
}

/// The planned token-refresh exchange: the endpoint, the
/// basic-authorization header, and the form fields of the body.
#[derive(Debug, Clone, PartialEq)]
pub struct TokenRequest {
    /// The token-exchange endpoint URL.
    pub url: String,
    /// The basic-authorization header value.
    pub auth_header: String,
    /// The `refresh_token` form field.
    pub form_refresh_token: String,
    /// The `grant_type` form field.
    pub form_grant_type: String,
}

impl TokenManager {
    /// Plan the refresh exchange: fails when no refresh token is
    /// configured; otherwise the token endpoint, basic auth built from
    /// the client credentials, and the refresh-token grant form.
    pub fn refresh_request(&self, client_id: &str, client_secret: &str) -> (r: Result<
        TokenRequest,
        SpotifyError,
    >)
        ensures
            r is Ok <==> self.refresh_token is Some,
            r is Ok ==> r->Ok_0.url@ == "https://accounts.spotify.com/api/token"@,
            r is Ok ==> r->Ok_0.auth_header@ == "Basic "@ + base64_std_of(
                client_id@ + ":"@ + client_secret@,
            ),
            r is Ok ==> r->Ok_0.form_refresh_token@ == self.refresh_token->0@,
            r is Ok ==> r->Ok_0.form_grant_type@ == "refresh_token"@,
            r is Err ==> (r->Err_0 matches SpotifyError::AuthenticationFailed(m) && m@
                == "No refresh token available"@),
    {
        match &self.refresh_token {
            Some(token) => {
                let auth_header = basic_auth_header(client_id, client_secret);
                Ok(
                    TokenRequest {
                        url: String::from_str("https://accounts.spotify.com/api/token"),
                        auth_header,
                        form_refresh_token: token.clone(),
                        form_grant_type: String::from_str("refresh_token"),
                    },
                )
            },
            None => Err(
                SpotifyError::AuthenticationFailed(
                    String::from_str("No refresh token available"),
                ),
            ),
        }
    }
}

/// Law: no duplicate refreshes under contention. When several callers
/// ask for a valid token one after another, as the shared lock arranges
/// them, a stale token is refreshed exactly once and a fresh one not at
/// all; whoever begins the refresh stores the grant, and all later
/// callers find the token fresh.
#[verifier::loop_isolation(false)]
pub fn ensure_valid_model(
    m: &mut TokenManager,
    callers: usize,
    grant_token: String,
    grant_expires_in_s: u64,
    now_ms: u64,
) -> (refreshes: usize)
    requires
        !old(m).refresh_in_flight,
        grant_expires_in_s as int * 1000 > TOKEN_REFRESH_BUFFER_MS,
        now_ms as int + grant_expires_in_s as int * 1000 <= u64::MAX,
        callers >= 1,
    ensures
        refreshes == (if spec_needs_refresh(*old(m), now_ms) {
            1int
        } else {
            0
        }),
        !spec_needs_refresh(*final(m), now_ms),
        !final(m).refresh_in_flight,
{
    let ghost m0 = *m;
    let mut refreshes: usize = 0;
    let mut i: usize = 0;
    while i < callers
        invariant
            i <= callers,
            !m.refresh_in_flight,
            refreshes == (if spec_needs_refresh(m0, now_ms) && i > 0 {
                1int
            } else {
                0
            }),
            refreshes == 0 ==> *m == m0,
            i > 0 ==> !spec_needs_refresh(*m, now_ms),
        decreases callers - i,
    {
        match m.begin_refresh(now_ms) {
            RefreshGate::Fresh => {},
            RefreshGate::Begin => {
                m.complete_refresh(grant_token.clone(), grant_expires_in_s, now_ms);
                proof {
                    assert(spec_grant_expiry(now_ms, grant_expires_in_s) == now_ms
                        + grant_expires_in_s * 1000);
                }
                refreshes = refreshes + 1;
            },
            RefreshGate::AwaitInFlight => {},
        }
        i = i + 1;
    }
    refreshes
}

/// Law: token refreshes are never duplicated. While one caller's refresh
/// is in flight, every other caller is gated to await it rather than begin
/// a second one; and once a grant whose lifetime exceeds the refresh
/// buffer is stored, a caller arriving at the same instant finds the token
/// fresh and begins no refresh at all.
pub proof fn lemma_refresh_exclusion(
    m: TokenManager,
    stored: TokenManager,
    token: String,
    expires_in_s: u64,
    now_ms: u64,
)
    requires
        expires_in_s as int * 1000 > TOKEN_REFRESH_BUFFER_MS,
        now_ms as int + expires_in_s as int * 1000 <= u64::MAX,
        stored.access_token == Some(token),
        stored.expires_at_ms == Some(spec_grant_expiry(now_ms, expires_in_s)),
        !stored.refresh_in_flight,
    ensures
        m.refresh_in_flight ==> spec_refresh_gate(m, now_ms) == RefreshGate::AwaitInFlight,
        spec_refresh_gate(stored, now_ms) == RefreshGate::Fresh,
{
    assert(spec_grant_expiry(now_ms, expires_in_s) == now_ms + expires_in_s * 1000);
    assert(!spec_needs_refresh(stored, now_ms));
}

} // verus!
