use crate::error::Error;
use vstd::prelude::*;

verus! {

/// A reading of the machine's wall clock.
#[verifier::external_type_specification]
#[verifier::external_body]
pub struct ExSystemTime(std::time::SystemTime);

/// The wall clock's time, by `std::time::SystemTime::now`. Nothing is claimed of it: it is
/// the time of the call.
#[verifier::external_body]
fn system_time_now() -> (r: std::time::SystemTime) {
    std::time::SystemTime::now()
}

/// How long after the UNIX epoch `t` is, by `SystemTime::duration_since`, or `None` for a
/// time before the epoch. Nothing is claimed of the duration.
#[verifier::external_body]
fn time_since_epoch(t: std::time::SystemTime) -> (r: Option<core::time::Duration>) {
    match t.duration_since(std::time::SystemTime::UNIX_EPOCH) {
        Ok(d) => Some(d),
        Err(_) => None,
    }
}

/// The whole milliseconds of `d`, by `Duration::as_millis`. Nothing is claimed of the number.
#[verifier::external_body]
fn duration_millis(d: core::time::Duration) -> (r: u128) {
    d.as_millis()
}

/// The milliseconds since the UNIX epoch by the wall clock, or `None` for a clock set before
/// the epoch.
pub(crate) fn now_millis() -> (r: Option<u128>) {
    let now = system_time_now();
    match time_since_epoch(now) {
        Some(d) => Some(duration_millis(d)),
        None => None,
    }
}

/// A path as the operating system holds it.
#[verifier::external_type_specification]
#[verifier::external_body]
pub struct ExPathBuf(std::path::PathBuf);

/// The user's home directory as `dirs::home_dir` finds it. Nothing is claimed of it: it
/// depends on the environment.
#[verifier::external_body]
fn home_dir() -> (r: Option<std::path::PathBuf>) {
    dirs::home_dir()
}

/// The text of the path `p` when it is valid Unicode, `None` when it is not.
pub uninterp spec fn path_text(p: std::path::PathBuf) -> Option<Seq<char>>;

/// The text of the path `p` when it is valid Unicode, by `OsString::into_string` on
/// `PathBuf::into_os_string`; otherwise the path back, unchanged (`into_string` hands back
/// the original string).
#[verifier::external_body]
fn path_into_text(p: std::path::PathBuf) -> (r: Result<String, std::path::PathBuf>)
    ensures
        match r {
            Ok(s) => path_text(p) == Some(s@),
            Err(q) => path_text(p) is None && q == p,
        },
{
    match p.into_os_string().into_string() {
        Ok(s) => Ok(s),
        Err(os) => Err(std::path::PathBuf::from(os)),
    }
}

/// The path `base` with the component `part` pushed on by `std::path::PathBuf::push`.
pub uninterp spec fn pushed_native(base: std::path::PathBuf, part: Seq<char>) -> std::path::PathBuf;

/// `base` with `part` pushed on by `std::path::PathBuf::push`.
#[verifier::external_body]
fn push_native(base: std::path::PathBuf, part: &str) -> (r: std::path::PathBuf)
    ensures
        r == pushed_native(base, part@),
{
    let mut p = base;
    p.push(part);
    p
}

/// The path `base` with the component `part` pushed on, as `std::path::PathBuf::push` joins
/// them. The separator is the one of the platform the crate is compiled for, so the result is
/// a function of the two texts.
pub uninterp spec fn pushed_path(base: Seq<char>, part: Seq<char>) -> Seq<char>;

/// `base` joined with `part` by `std::path::Path::join` (which pushes `part` as
/// `PathBuf::push` does), as text. Both are Unicode text, so the joined path is too and its
/// text is taken as it is.
#[verifier::external_body]
fn join_path(base: &str, part: &str) -> (r: String)
    ensures
        r@ == pushed_path(base@, part@),
{
    std::path::Path::new(base).join(part).to_string_lossy().into_owned()
}

/// The directory, under the home directory, that holds the cached token.
pub open spec fn token_dir_name() -> Seq<char> {
    seq!['.', 'z', 'e', 'e', 'b', 'e']
}

/// The name of the file that holds the cached token.
pub open spec fn token_file_name() -> Seq<char> {
    seq!['c', 'l', 'o', 'u', 'd', '.', 't', 'o', 'k', 'e', 'n']
}

/// Where the token is cached by default for the home directory `home`:
/// `<home>/.zeebe/cloud.token`.
pub open spec fn spec_default_token_path(home: Seq<char>) -> Seq<char> {
    pushed_path(pushed_path(home, token_dir_name()), token_file_name())
}

/// The default place of the cached token under the home directory `home`:
/// `.zeebe/cloud.token` pushed onto it.
pub fn default_cloud_token_path(home: &str) -> (r: String)
    ensures
        r@ == spec_default_token_path(home@),
{
    let dir_name = String::from_str(".zeebe");
    let file_name = String::from_str("cloud.token");
    proof {
        reveal_strlit(".zeebe");
        reveal_strlit("cloud.token");
        assert(dir_name@ == token_dir_name());
        assert(file_name@ == token_file_name());
    }
    let dir = join_path(home, dir_name.as_str());
    join_path(dir.as_str(), file_name.as_str())
}

/// The client credentials that the cloud's authentication service is asked with.
#[derive(Clone, Debug, PartialEq)]
pub struct AccessRequest {
    pub client_id: String,
    pub client_secret: String,
    pub audience: String,
    pub grant_type: String,
}

/// The grant type of every access request.
pub open spec fn client_credentials() -> Seq<char> {
    seq!['c', 'l', 'i', 'e', 'n', 't', '_', 'c', 'r', 'e', 'd', 'e', 'n', 't', 'i', 'a', 'l', 's']
}

impl AccessRequest {
    /// A request for these credentials, with the grant type `client_credentials`.
    pub fn new(client_id: String, client_secret: String, audience: String) -> (r: Self)
        ensures
            r.client_id == client_id,
            r.client_secret == client_secret,
            r.audience == audience,
            r.grant_type@ == client_credentials(),
    {
        let grant_type = String::from_str("client_credentials");
        proof {
            reveal_strlit("client_credentials");
        }
        Self { client_id, client_secret, audience, grant_type }
    }
}

/// What the cloud's authentication service answers.
#[derive(Clone, Debug, PartialEq)]
pub struct AccessResponse {
    pub access_token: Option<String>,
    pub expires_in: Option<u64>,
    pub token_type: Option<String>,
    pub scope: Option<String>,
}

/// An access token and the moment it expires, in milliseconds since the UNIX epoch.
#[derive(Clone, Debug, PartialEq)]
pub struct CloudToken {
    pub token: String,
    pub due_date: u128,
}

impl CloudToken {
    pub fn new(token: String, due_date: u128) -> (r: Self)
        ensures
            r.token == token,
            r.due_date == due_date,
    {
        Self { token, due_date }
    }

    /// True if the due date is less than `now`.
    pub fn is_overdue_at(&self, now: u128) -> (r: bool)
        ensures
            r == (self.due_date < now),
    {
        self.due_date < now
    }

    /// Returns true if due date is less than now-utc. A clock set before the UNIX epoch is
    /// before every due date.
    pub fn is_overdue(&self) -> (r: bool)
        ensures
            self.due_date == u128::MAX ==> !r,
    {
        match now_millis() {
            Some(now) => self.is_overdue_at(now),
            None => false,
        }
    }
}

/// The token that an answer with both a token and a lifetime gives at time `now`: it is due
/// `expires_in` seconds after `now`.
pub open spec fn spec_token_due_date(now: u128, expires_in: u64) -> int {
    now + expires_in * 1000
}

/// The token of an answer received at `now`: due `expires_in` seconds later; an answer
/// without a token or without a lifetime, or whose due date is past what a `u128` holds, is
/// refused.
pub open spec fn spec_cloud_token_from_response(access_response: AccessResponse, now: u128) -> Result<
    CloudToken,
    Error,
> {
    match (access_response.access_token, access_response.expires_in) {
        (Some(t), Some(e)) => if spec_token_due_date(now, e) <= u128::MAX {
            Ok(CloudToken { token: t, due_date: spec_token_due_date(now, e) as u128 })
        } else {
            Err(Error::InvalidCloudToken)
        },
        _ => Err(Error::InvalidCloudToken),
    }
}

/// The token of an answer received at `now` (milliseconds since the UNIX epoch): due
/// `expires_in` seconds later; an answer without a token or without a lifetime is refused.
/// A due date past what a `u128` holds is refused too.
pub fn cloud_token_from_response(access_response: AccessResponse, now: u128) -> (r: Result<CloudToken, Error>)
    ensures
        r == spec_cloud_token_from_response(access_response, now),
{
    match (access_response.access_token, access_response.expires_in) {
        (Some(access_token), Some(expires_in)) => {
            let expires_in_millis = (expires_in as u128) * 1000;
            if now > u128::MAX - expires_in_millis {
                return Err(Error::InvalidCloudToken);
            }
            Ok(CloudToken::new(access_token, now + expires_in_millis))
        },
        _ => Err(Error::InvalidCloudToken),
    }
}

/// Whether a token has to be asked for, given whether the cached token's path is a file
/// (`None`: nothing can be read there): only a file can hold a cached token.
pub fn needs_authentication(path_is_file: Option<bool>) -> (r: bool)
    ensures
        r == !(path_is_file == Some(true)),
{
    match path_is_file {
        Some(true) => false,
        _ => true,
    }
}

/// Where a token is cached: a path that is Unicode text, or one that is not, kept as the
/// operating system's path.
#[derive(Debug, PartialEq)]
pub enum TokenPath {
    Text(String),
    Native(std::path::PathBuf),
}

/// Whether `path` is where the token is cached by default under the home directory `home`:
/// `<home>/.zeebe/cloud.token`, as text when the home directory is Unicode text, else as the
/// operating system's path.
pub open spec fn is_default_cache_path(home: std::path::PathBuf, path: TokenPath) -> bool {
    match path_text(home) {
        Some(t) => path matches TokenPath::Text(x) && x@ == spec_default_token_path(t),
        None => path == TokenPath::Native(
            pushed_native(pushed_native(home, token_dir_name()), token_file_name()),
        ),
    }
}

/// Where the token is cached by default under the home directory `home`: `.zeebe` and then
/// `cloud.token` pushed onto it.
pub fn default_cache_path(home: std::path::PathBuf) -> (r: TokenPath)
    ensures
        is_default_cache_path(home, r),
{
    let ghost h = home;
    match path_into_text(home) {
        Ok(text) => TokenPath::Text(default_cloud_token_path(text.as_str())),
        Err(native) => {
            let dir_name = String::from_str(".zeebe");
            let file_name = String::from_str("cloud.token");
            proof {
                reveal_strlit(".zeebe");
                reveal_strlit("cloud.token");
                assert(dir_name@ == token_dir_name());
                assert(file_name@ == token_file_name());
            }
            let dir = push_native(native, dir_name.as_str());
            TokenPath::Native(push_native(dir, file_name.as_str()))
        },
    }
}

/// Provides access tokens for the cloud: a cached one while it is not overdue, else a new one.
#[derive(Debug, PartialEq)]
pub struct CamundaCloudTokenProvider {
    access_request: AccessRequest,
    cloud_token_path: TokenPath,
}

impl CamundaCloudTokenProvider {
    pub closed spec fn spec_access_request(&self) -> AccessRequest {
        self.access_request
    }

    pub closed spec fn spec_cloud_token_path(&self) -> TokenPath {
        self.cloud_token_path
    }

    /// A provider for these credentials that caches its token at the custom path, or else at
    /// `.zeebe/cloud.token` under the home directory `home`, which must then be given. A home
    /// directory that is Unicode text gives a text path; one that is not has the two parts
    /// pushed onto it as the operating system's path.
    pub fn with_home_dir(
        client_id: String,
        client_secret: String,
        audience: String,
        custom_cloud_token_path: Option<TokenPath>,
        home: Option<std::path::PathBuf>,
    ) -> (r: Self)
        requires
            custom_cloud_token_path is Some || home is Some,
        ensures
            r.spec_access_request().client_id == client_id,
            r.spec_access_request().client_secret == client_secret,
            r.spec_access_request().audience == audience,
            r.spec_access_request().grant_type@ == client_credentials(),
            match custom_cloud_token_path {
                Some(c) => r.spec_cloud_token_path() == c,
                None => is_default_cache_path(home->0, r.spec_cloud_token_path()),
            },
    {
        let access_request = AccessRequest::new(client_id, client_secret, audience);
        match custom_cloud_token_path {
            Some(c) => Self { access_request, cloud_token_path: c },
            None => {
                let h = home.unwrap();
                Self { access_request, cloud_token_path: default_cache_path(h) }
            },
        }
    }

    /// A provider for these credentials that caches its token at the custom path, or at
    /// `.zeebe/cloud.token` under the user's home directory; `None` if there is neither a
    /// custom path nor a home directory.
    pub fn new(
        client_id: String,
        client_secret: String,
        audience: String,
        custom_cloud_token_path: Option<TokenPath>,
    ) -> (r: Option<Self>)
        ensures
            r matches Some(p) ==> p.spec_access_request().client_id == client_id
                && p.spec_access_request().client_secret == client_secret
                && p.spec_access_request().audience == audience
                && p.spec_access_request().grant_type@ == client_credentials(),
            custom_cloud_token_path matches Some(c) ==> r matches Some(p) && p.spec_cloud_token_path() == c,
            custom_cloud_token_path is None ==> (r matches Some(p) ==> exists|home: std::path::PathBuf|
                #[trigger] is_default_cache_path(home, p.spec_cloud_token_path())),
    {
        match custom_cloud_token_path {
            Some(c) => Some(Self::with_home_dir(client_id, client_secret, audience, Some(c), None)),
            None => match home_dir() {
                None => None,
                Some(home) => {
                    let ghost h = home;
                    let r = Self::with_home_dir(client_id, client_secret, audience, None, Some(home));
                    proof {
                        assert(is_default_cache_path(h, r.spec_cloud_token_path()));
                    }
                    Some(r)
                },
            },
        }
    }

    /// The credentials that are sent to the authentication service.
    pub fn access_request(&self) -> (r: &AccessRequest)
        ensures
            *r == self.spec_access_request(),
    {
        &self.access_request
    }

    /// Where the token is cached.
    pub fn cloud_token_path(&self) -> (r: &TokenPath)
        ensures
            *r == self.spec_cloud_token_path(),
    {
        &self.cloud_token_path
    }

    /// The token of the service's answer, due `expires_in` seconds from now. An answer without
    /// a token or a lifetime is refused, and so is one whose due date cannot be told (a clock
    /// set before the UNIX epoch, or a due date past what a `u128` holds).
    pub fn response_to_cloud_token(&self, access_response: AccessResponse) -> (r: Result<CloudToken, Error>)
        ensures
            (access_response.access_token is None || access_response.expires_in is None) ==> r matches Err(
                Error::InvalidCloudToken,
            ),
            r matches Ok(c) ==> access_response.access_token == Some(c.token),
            r matches Ok(c) ==> (access_response.expires_in matches Some(e) && c.due_date >= e * 1000
                && exists|now: u128| c.due_date == #[trigger] spec_token_due_date(now, e)),
    {
        match now_millis() {
            None => Err(Error::InvalidCloudToken),
            Some(now) => cloud_token_from_response(access_response, now),
        }
    }
}

} // verus!
