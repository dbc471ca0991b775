//! Session decisions: the login protocol, the token cache and the edit
//! throttle. The driver performs each request and hands the outcome back.

use vstd::prelude::*;

use crate::enum_set::EnumSet;
use crate::flags::strs_view;
use crate::req::{Action, Login, Main, MetaUserInfo, Query, QueryMeta, TokenType};

verus! {

/// A marker for anonymous access to an API endpoint.
#[derive(Clone, Copy, Debug)]
pub struct AnonymousAccess;

/// A marker for access as a logged-in user.
#[derive(Clone, Copy, Debug)]
pub struct AuthorizedAccess;

/// The kinds of access a client can have.
pub trait Access {
    spec fn logged_in() -> bool;
}

impl Access for AnonymousAccess {
    open spec fn logged_in() -> bool {
        false
    }
}

impl Access for AuthorizedAccess {
    open spec fn logged_in() -> bool {
        true
    }
}

/// Bot password credentials.
#[derive(Clone, Debug)]
pub struct BotPassword {
    username: String,
    password: String,
}

impl BotPassword {
    pub closed spec fn username_spec(&self) -> Seq<char> {
        self.username@
    }

    pub closed spec fn password_spec(&self) -> Seq<char> {
        self.password@
    }

    pub fn new(username: &str, password: &str) -> (r: Self)
        ensures
            r.username_spec() == username@,
            r.password_spec() == password@,
    {
        BotPassword { username: String::from_str(username), password: String::from_str(password) }
    }
}

/// Why logging in failed.
#[derive(Clone, Copy, Debug, PartialEq, Eq, Structural)]
pub enum AuthError {
    /// The server's `login.result` was absent or other than `Success`.
    LoginFailed,
    /// After logging in, the server still named the user by an IP address.
    Unauthorized,
    /// A step was taken out of order.
    OutOfOrder,
}

/// Where a login stands.
#[derive(Clone, Copy, Debug, PartialEq, Eq, Structural)]
pub enum LoginStage {
    Start,
    AwaitToken,
    AwaitResult,
    AwaitUserInfo,
    LoggedIn,
    Failed,
}

/// What the driver must do next in a login.
#[derive(Debug)]
pub enum LoginStep {
    /// GET this request; hand `query.tokens.logintoken` to `on_login_token`.
    FetchLoginToken(Main),
    /// POST this request as a form; hand `login.result` to `on_login_result`.
    PostLogin(Main),
    /// GET this request; say whether `query.userinfo.name` is an IP address.
    FetchUserInfo(Main),
    /// The login ended.
    Finished(Result<(), AuthError>),
}

/// The query for the current user's information.
pub open spec fn is_user_info_query(m: Main) -> bool {
    &&& m.format == (crate::req::Format::Json { formatversion: 2 })
    &&& match m.action {
        Action::Query(q) => q.list is None && q.prop is None && q.titles is None && q.pageids is None
            && q.generator is None
            && match q.meta {
            Some(s) => s@.len() == 1 && match s@[0] {
                QueryMeta::UserInfo(u) => u.prop is None,
                _ => false,
            },
            None => false,
        },
        _ => false,
    }
}

/// The query for a login token.
pub open spec fn is_login_token_query(m: Main) -> bool {
    is_token_query(m, TokenType::LOGIN)
}

/// The step fetches a login token.
pub open spec fn fetches_login_token(r: LoginStep) -> bool {
    match r {
        LoginStep::FetchLoginToken(m) => is_login_token_query(m),
        _ => false,
    }
}

/// The step posts a login with these name, password and token.
pub open spec fn posts_login(r: LoginStep, name: Seq<char>, password: Seq<char>, token: Seq<char>) -> bool {
    match r {
        LoginStep::PostLogin(m) => m.format == (crate::req::Format::Json { formatversion: 2 }) && match m.action {
            Action::Login(l) => l.name@ == name && l.password@ == password && l.token@ == token,
            _ => false,
        },
        _ => false,
    }
}

/// The step fetches the current user's information.
pub open spec fn fetches_user_info(r: LoginStep) -> bool {
    match r {
        LoginStep::FetchUserInfo(m) => is_user_info_query(m),
        _ => false,
    }
}

/// The step ends the login with `res`.
pub open spec fn finishes_with(r: LoginStep, res: Result<(), AuthError>) -> bool {
    match r {
        LoginStep::Finished(x) => x == res,
        _ => false,
    }
}

/// Whether the server's login result is the literal `Success`.
pub open spec fn is_success(result: Option<&str>) -> bool {
    match result {
        Some(s) => s@ == "Success"@,
        None => false,
    }
}

/// The login protocol: fetch a login token, post the credentials with it,
/// accept only the result `Success`, then make sure the server no longer
/// names the user by an IP address.
pub struct LoginFlow {
    stage: LoginStage,
    password: BotPassword,
}

impl LoginFlow {
    pub closed spec fn stage(&self) -> LoginStage {
        self.stage
    }

    pub closed spec fn credentials(&self) -> BotPassword {
        self.password
    }

    pub fn new(password: BotPassword) -> (r: Self)
        ensures
            r.stage() == LoginStage::Start,
            r.credentials() == password,
    {
        LoginFlow { stage: LoginStage::Start, password }
    }

    /// Whether the login succeeded.
    pub fn is_logged_in(&self) -> (r: bool)
        ensures
            r == (self.stage() == LoginStage::LoggedIn),
    {
        self.stage == LoginStage::LoggedIn
    }

    fn out_of_order(&mut self) -> (r: LoginStep)
        ensures
            final(self).stage() == LoginStage::Failed,
            final(self).credentials() == old(self).credentials(),
            finishes_with(r, Err(AuthError::OutOfOrder)),
    {
        self.stage = LoginStage::Failed;
        LoginStep::Finished(Err(AuthError::OutOfOrder))
    }

    /// The first step: fetch a login token.
    pub fn start(&mut self) -> (r: LoginStep)
        ensures
            final(self).credentials() == old(self).credentials(),
            old(self).stage() == LoginStage::Start ==> final(self).stage() == LoginStage::AwaitToken
                && fetches_login_token(r),
            old(self).stage() != LoginStage::Start ==> final(self).stage() == LoginStage::Failed
                && finishes_with(r, Err(AuthError::OutOfOrder)),
    {
        if self.stage != LoginStage::Start {
            return self.out_of_order();
        }
        self.stage = LoginStage::AwaitToken;
        LoginStep::FetchLoginToken(Main::tokens(TokenType { bits: TokenType::LOGIN }))
    }

    /// Takes the login token and posts the credentials with it.
    pub fn on_login_token(&mut self, token: String) -> (r: LoginStep)
        ensures
            final(self).credentials() == old(self).credentials(),
            old(self).stage() == LoginStage::AwaitToken ==> final(self).stage() == LoginStage::AwaitResult
                && posts_login(
                r,
                old(self).credentials().username_spec(),
                old(self).credentials().password_spec(),
                token@,
            ),
            old(self).stage() != LoginStage::AwaitToken ==> final(self).stage() == LoginStage::Failed
                && finishes_with(r, Err(AuthError::OutOfOrder)),
    {
        if self.stage != LoginStage::AwaitToken {
            return self.out_of_order();
        }
        self.stage = LoginStage::AwaitResult;
        let l = Login { name: self.password.username.clone(), password: self.password.password.clone(), token };
        LoginStep::PostLogin(Main::login(l))
    }

    /// Takes the server's `login.result`: only the literal `Success` goes on.
    pub fn on_login_result(&mut self, result: Option<&str>) -> (r: LoginStep)
        ensures
            final(self).credentials() == old(self).credentials(),
            old(self).stage() == LoginStage::AwaitResult && is_success(result) ==> final(self).stage()
                == LoginStage::AwaitUserInfo && fetches_user_info(r),
            old(self).stage() == LoginStage::AwaitResult && !is_success(result) ==> final(self).stage()
                == LoginStage::Failed && finishes_with(r, Err(AuthError::LoginFailed)),
            old(self).stage() != LoginStage::AwaitResult ==> final(self).stage() == LoginStage::Failed
                && finishes_with(r, Err(AuthError::OutOfOrder)),
    {
        if self.stage != LoginStage::AwaitResult {
            return self.out_of_order();
        }
        let ok = match result {
            Some(s) => str_eq(s, "Success"),
            None => false,
        };
        if !ok {
            self.stage = LoginStage::Failed;
            return LoginStep::Finished(Err(AuthError::LoginFailed));
        }
        self.stage = LoginStage::AwaitUserInfo;
        LoginStep::FetchUserInfo(user_info_query())
    }

    /// Takes whether the server names the current user by an IP address,
    /// which means the session is anonymous after all.
    pub fn on_user_info(&mut self, name_is_ip: bool) -> (r: LoginStep)
        ensures
            final(self).credentials() == old(self).credentials(),
            old(self).stage() == LoginStage::AwaitUserInfo && !name_is_ip ==> final(self).stage()
                == LoginStage::LoggedIn && finishes_with(r, Ok(())),
            old(self).stage() == LoginStage::AwaitUserInfo && name_is_ip ==> final(self).stage() == LoginStage::Failed
                && finishes_with(r, Err(AuthError::Unauthorized)),
            old(self).stage() != LoginStage::AwaitUserInfo ==> final(self).stage() == LoginStage::Failed
                && finishes_with(r, Err(AuthError::OutOfOrder)),
    {
        if self.stage != LoginStage::AwaitUserInfo {
            return self.out_of_order();
        }
        let r = check_user_name(name_is_ip);
        self.stage = if name_is_ip {
            LoginStage::Failed
        } else {
            LoginStage::LoggedIn
        };
        LoginStep::Finished(r)
    }
}

/// The outcome of checking a session: a user named by an IP address is not
/// logged in.
pub fn check_user_name(name_is_ip: bool) -> (r: Result<(), AuthError>)
    ensures
        r == if name_is_ip {
            Err::<(), AuthError>(AuthError::Unauthorized)
        } else {
            Ok::<(), AuthError>(())
        },
{
    if name_is_ip {
        Err(AuthError::Unauthorized)
    } else {
        Ok(())
    }
}

/// The query that checks who the session is logged in as; its answer goes to
/// [`check_user_name`].
pub fn user_info_query() -> (r: Main)
    ensures
        is_user_info_query(r),
{
    let mut q = Query::new();
    q.meta = Some(EnumSet::new_one(QueryMeta::UserInfo(MetaUserInfo { prop: None })));
    Main::query(q)
}

/// Whether two strings are equal.
pub fn str_eq(a: &str, b: &str) -> (r: bool)
    ensures
        r == (a@ == b@),
{
    let n = a.unicode_len();
    if n != b.unicode_len() {
        return false;
    }
    let mut i: usize = 0;
    while i < n
        invariant
            n == a@.len() == b@.len(),
            i <= n,
            forall|j: int| 0 <= j < i ==> a@[j] == b@[j],
        decreases n - i,
    {
        if a.get_char(i) != b.get_char(i) {
            return false;
        }
        i += 1;
    }
    assert(a@ =~= b@);
    true
}

/// The query for tokens of the kinds `bits`.
pub open spec fn is_token_query(m: Main, bits: u16) -> bool {
    &&& m.format == (crate::req::Format::Json { formatversion: 2 })
    &&& match m.action {
        Action::Query(q) => q.list is None && q.prop is None && q.titles is None && q.pageids is None
            && q.generator is None && match q.meta {
            Some(s) => s@ == seq![QueryMeta::Tokens { type_: TokenType { bits } }],
            None => false,
        },
        _ => false,
    }
}

/// The query for a CSRF token.
pub open spec fn is_csrf_token_query(m: Main) -> bool {
    is_token_query(m, TokenType::CSRF)
}

/// How many kinds of token there are; kind `k` is bit `k` of a [`TokenType`].
pub const TOKEN_KINDS: u32 = 9;

/// The kind of a CSRF token.
pub const CSRF_KIND: u32 = 1;

/// The kind of a login token.
pub const LOGIN_KIND: u32 = 3;

/// The field of `query.tokens` that holds a token of kind `kind`.
pub open spec fn token_field_spec(kind: nat) -> Seq<char> {
    TokenType::names_spec()[kind as int] + "token"@
}

/// The field of `query.tokens` that holds a token of kind `kind`, such as
/// `csrftoken`.
pub fn token_field(kind: u32) -> (r: String)
    requires
        kind < TOKEN_KINDS,
    ensures
        r@ == token_field_spec(kind as nat),
{
    let names = TokenType::names();
    assert(strs_view(names@).len() == names@.len());
    assert(names@.len() == TOKEN_KINDS);
    assert(strs_view(names@)[kind as int] == names@[kind as int]@);
    let mut r = String::from_str(names[kind as usize]);
    r.append("token");
    r
}

/// The cached tokens of a session, one slot per token kind: empty until
/// first fetched, and kept until cleared by a new login. A token the server
/// rejects stays cached; nothing retries on its own: the caller clears the
/// cache, or logs in again, and fetches a fresh token.
#[derive(Clone, Debug)]
pub struct TokenCache {
    tokens: Vec<Option<String>>,
}

/// Where a token comes from.
#[derive(Clone, Debug)]
pub enum TokenStep {
    /// From the cache.
    Cached(String),
    /// From the server: GET this request and `store` what the field
    /// `token_field(kind)` of `query.tokens` holds.
    Fetch(Main),
}

/// The step hands out `t` from the cache.
pub open spec fn is_cached(r: TokenStep, t: Seq<char>) -> bool {
    match r {
        TokenStep::Cached(s) => s@ == t,
        _ => false,
    }
}

/// The step fetches tokens of the kinds `bits`.
pub open spec fn fetches(r: TokenStep, bits: u16) -> bool {
    match r {
        TokenStep::Fetch(m) => is_token_query(m, bits),
        _ => false,
    }
}

impl TokenCache {
    /// The cached token of kind `kind`, if any.
    pub closed spec fn cached(&self, kind: nat) -> Option<Seq<char>> {
        match self.tokens@[kind as int] {
            Some(t) => Some(t@),
            None => None,
        }
    }

    pub closed spec fn wf(&self) -> bool {
        self.tokens@.len() == TOKEN_KINDS
    }

    pub fn new() -> (r: Self)
        ensures
            r.wf(),
            forall|k: nat| k < TOKEN_KINDS ==> r.cached(k) is None,
    {
        let mut tokens: Vec<Option<String>> = Vec::new();
        let mut i: u32 = 0;
        while i < TOKEN_KINDS
            invariant
                i <= TOKEN_KINDS,
                tokens@.len() == i,
                forall|k: int| 0 <= k < i ==> tokens@[k] is None,
            decreases TOKEN_KINDS - i,
        {
            tokens.push(None);
            i += 1;
        }
        TokenCache { tokens }
    }

    /// The token of kind `kind` if cached, else the query that fetches it.
    pub fn token(&self, kind: u32) -> (r: TokenStep)
        requires
            self.wf(),
            kind < TOKEN_KINDS,
        ensures
            match self.cached(kind as nat) {
                Some(t) => is_cached(r, t),
                None => fetches(r, (1u16 << kind as u16)),
            },
    {
        match &self.tokens[kind as usize] {
            Some(t) => TokenStep::Cached(t.clone()),
            None => TokenStep::Fetch(Main::tokens(TokenType { bits: 1u16 << kind as u16 })),
        }
    }

    /// The CSRF token if cached, else the query that fetches it.
    pub fn csrf_token(&self) -> (r: TokenStep)
        requires
            self.wf(),
        ensures
            match self.cached(CSRF_KIND as nat) {
                Some(t) => is_cached(r, t),
                None => fetches(r, TokenType::CSRF),
            },
    {
        assert((1u16 << 1u16) == 2u16) by (bit_vector);
        self.token(CSRF_KIND)
    }

    /// Caches a fetched token of kind `kind`.
    pub fn store(&mut self, kind: u32, token: String)
        requires
            old(self).wf(),
            kind < TOKEN_KINDS,
        ensures
            final(self).wf(),
            final(self).cached(kind as nat) == Some(token@),
            forall|k: nat| k < TOKEN_KINDS && k != kind ==> final(self).cached(k) == old(self).cached(k),
    {
        self.tokens.set(kind as usize, Some(token));
    }

    /// Forgets every cached token, as a new login must.
    pub fn clear(&mut self)
        ensures
            final(self).wf(),
            forall|k: nat| k < TOKEN_KINDS ==> final(self).cached(k) is None,
    {
        *self = Self::new();
    }
}

/// The send time a throttle gives a mutation requested at `now`, when the last
/// one was sent at `last`: no sooner than `now` nor than `interval` after `last`.
pub open spec fn gate_time(last: Option<u64>, interval: u64, now: u64) -> int {
    match last {
        Some(l) => if now >= l + interval { now as int } else { l + interval },
        None => now as int,
    }
}

/// The shared throttle of a session's mutations: successive sends stand at
/// least `interval` apart.
#[derive(Clone, Copy, Debug)]
pub struct RateGate {
    interval: u64,
    last: Option<u64>,
}

impl RateGate {
    pub closed spec fn interval(&self) -> u64 {
        self.interval
    }

    /// When the last mutation was sent, if any was.
    pub closed spec fn last(&self) -> Option<u64> {
        self.last
    }

    pub fn new(interval: u64) -> (r: Self)
        ensures
            r.interval() == interval,
            r.last() is None,
    {
        RateGate { interval, last: None }
    }

    /// When the last mutation was sent, if any was.
    pub fn last_send(&self) -> (r: Option<u64>)
        ensures
            r == self.last(),
    {
        self.last
    }

    pub fn interval_ms(&self) -> (r: u64)
        ensures
            r == self.interval(),
    {
        self.interval
    }

    /// Books the next send, requested at `now`, and says when it may go.
    pub fn acquire(&mut self, now: u64) -> (send_at: u64)
        requires
            old(self).last() matches Some(l) ==> l + old(self).interval() <= u64::MAX,
        ensures
            send_at == gate_time(old(self).last(), old(self).interval(), now),
            send_at >= now,
            old(self).last() matches Some(l) ==> send_at >= l + old(self).interval(),
            final(self).last() == Some(send_at),
            final(self).interval() == old(self).interval(),
    {
        let send_at = match self.last {
            Some(l) => {
                let earliest = l + self.interval;
                if now >= earliest {
                    now
                } else {
                    earliest
                }
            },
            None => now,
        };
        self.last = Some(send_at);
        send_at
    }
}

/// Two mutations booked one after the other on one throttle are sent at least
/// the throttle's interval apart, whenever each was requested.
pub proof fn lemma_gate_spacing(interval: u64, last: Option<u64>, now1: u64, now2: u64)
    requires
        last matches Some(l) ==> l + interval <= u64::MAX,
        gate_time(last, interval, now1) + interval <= u64::MAX,
    ensures
        gate_time(Some(gate_time(last, interval, now1) as u64), interval, now2) >= gate_time(last, interval, now1)
            + interval,
        gate_time(last, interval, now1) >= now1,
{
}

} // verus!
