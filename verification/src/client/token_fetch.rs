use crate::client::camunda_cloud_token_provider::{
    cloud_token_from_response, needs_authentication, now_millis, spec_cloud_token_from_response, AccessResponse,
    CloudToken,
};
use crate::error::Error;
use vstd::prelude::*;

verus! {

/// Where fetching a token stands.
pub enum TokenFetch {
    /// Nothing is under way.
    Idle,
    /// Waiting to learn whether the token path is a file.
    Inspecting,
    /// Waiting for the cached token of the file.
    Reading,
    /// Waiting for the authentication service's answer.
    Authenticating,
    /// Waiting for this new token to be written to the file.
    Persisting(CloudToken),
}

/// What happened since the last step.
pub enum TokenEvent {
    /// A token is wanted.
    Begin,
    /// Whether the token path is a file (`None`: its metadata could not be read).
    PathInspected(Option<bool>),
    /// The token read from the file, or why it could not be read.
    CacheRead(Result<CloudToken, Error>),
    /// The authentication service's answer, or why there is none.
    Authenticated(Result<AccessResponse, Error>),
    /// Whether the new token was written to the file.
    Persisted(Result<(), Error>),
}

/// What to do next.
pub enum TokenAction {
    /// Find out whether the token path is a file.
    InspectPath,
    /// Read the cached token from the file.
    ReadCache,
    /// Ask the authentication service for a token.
    Authenticate,
    /// Write this token to the file.
    Persist(CloudToken),
    /// Fetching is over, with this outcome.
    Finish(Result<CloudToken, Error>),
}

/// The events that can come in each state: the answer to the action that led there.
pub open spec fn event_fits(state: TokenFetch, event: TokenEvent) -> bool {
    match state {
        TokenFetch::Idle => event is Begin,
        TokenFetch::Inspecting => event is PathInspected,
        TokenFetch::Reading => event is CacheRead,
        TokenFetch::Authenticating => event is Authenticated,
        TokenFetch::Persisting(_) => event is Persisted,
    }
}

/// One step of fetching a token at time `now` (milliseconds since the UNIX epoch): a cached
/// token is used while the path is a file and the token is not overdue; otherwise a new
/// token is asked for, made from the answer at `now`, written to the file, and given back.
/// Every failure ends the fetch with its error.
pub open spec fn spec_token_step(state: TokenFetch, event: TokenEvent, now: u128) -> (TokenFetch, TokenAction) {
    match (state, event) {
        (TokenFetch::Idle, TokenEvent::Begin) => (TokenFetch::Inspecting, TokenAction::InspectPath),
        (TokenFetch::Inspecting, TokenEvent::PathInspected(is_file)) => if is_file == Some(true) {
            (TokenFetch::Reading, TokenAction::ReadCache)
        } else {
            (TokenFetch::Authenticating, TokenAction::Authenticate)
        },
        (TokenFetch::Reading, TokenEvent::CacheRead(read)) => match read {
            Err(e) => (TokenFetch::Idle, TokenAction::Finish(Err(e))),
            Ok(cached) => if cached.due_date < now {
                (TokenFetch::Authenticating, TokenAction::Authenticate)
            } else {
                (TokenFetch::Idle, TokenAction::Finish(Ok(cached)))
            },
        },
        (TokenFetch::Authenticating, TokenEvent::Authenticated(answer)) => match answer {
            Err(e) => (TokenFetch::Idle, TokenAction::Finish(Err(e))),
            Ok(response) => match spec_cloud_token_from_response(response, now) {
                Ok(t) => (TokenFetch::Persisting(t), TokenAction::Persist(t)),
                Err(e) => (TokenFetch::Idle, TokenAction::Finish(Err(e))),
            },
        },
        (TokenFetch::Persisting(t), TokenEvent::Persisted(written)) => match written {
            Ok(()) => (TokenFetch::Idle, TokenAction::Finish(Ok(t))),
            Err(e) => (TokenFetch::Idle, TokenAction::Finish(Err(e))),
        },
        _ => (TokenFetch::Idle, TokenAction::Finish(Err(Error::InvalidCloudToken))),
    }
}

/// One step of fetching a token, at time `now`.
pub fn token_step(state: TokenFetch, event: TokenEvent, now: u128) -> (r: (TokenFetch, TokenAction))
    requires
        event_fits(state, event),
    ensures
        r == spec_token_step(state, event, now),
{
    match (state, event) {
        (TokenFetch::Idle, TokenEvent::Begin) => (TokenFetch::Inspecting, TokenAction::InspectPath),
        (TokenFetch::Inspecting, TokenEvent::PathInspected(is_file)) => if needs_authentication(is_file) {
            (TokenFetch::Authenticating, TokenAction::Authenticate)
        } else {
            (TokenFetch::Reading, TokenAction::ReadCache)
        },
        (TokenFetch::Reading, TokenEvent::CacheRead(read)) => match read {
            Err(e) => (TokenFetch::Idle, TokenAction::Finish(Err(e))),
            Ok(cached) => if cached.is_overdue_at(now) {
                (TokenFetch::Authenticating, TokenAction::Authenticate)
            } else {
                (TokenFetch::Idle, TokenAction::Finish(Ok(cached)))
            },
        },
        (TokenFetch::Authenticating, TokenEvent::Authenticated(answer)) => match answer {
            Err(e) => (TokenFetch::Idle, TokenAction::Finish(Err(e))),
            Ok(response) => match cloud_token_from_response(response, now) {
                Ok(t) => {
                    let copy = CloudToken::new(t.token.clone(), t.due_date);
                    (TokenFetch::Persisting(t), TokenAction::Persist(copy))
                },
                Err(e) => (TokenFetch::Idle, TokenAction::Finish(Err(e))),
            },
        },
        (TokenFetch::Persisting(t), TokenEvent::Persisted(written)) => match written {
            Ok(()) => (TokenFetch::Idle, TokenAction::Finish(Ok(t))),
            Err(e) => (TokenFetch::Idle, TokenAction::Finish(Err(e))),
        },
        _ => (TokenFetch::Idle, TokenAction::Finish(Err(Error::InvalidCloudToken))),
    }
}

/// The steps that depend on the time: judging a cached token, and making a token of the
/// service's answer.
pub open spec fn step_reads_clock(state: TokenFetch, event: TokenEvent) -> bool {
    ||| state is Reading && event matches TokenEvent::CacheRead(Ok(_))
    ||| state is Authenticating && event matches TokenEvent::Authenticated(Ok(_))
}

fn reads_clock(state: &TokenFetch, event: &TokenEvent) -> (r: bool)
    ensures
        r == step_reads_clock(*state, *event),
{
    match (state, event) {
        (TokenFetch::Reading, TokenEvent::CacheRead(Ok(_))) => true,
        (TokenFetch::Authenticating, TokenEvent::Authenticated(Ok(_))) => true,
        _ => false,
    }
}

/// One step of fetching a token, given the clock's reading in milliseconds since the UNIX
/// epoch for a step that depends on the time (`None`: the clock is set before the epoch):
/// such a step is the step at that reading, or ends the fetch with `InvalidCloudToken`
/// without one; every other step is the same at any time and ignores the reading.
fn token_step_at_reading(state: TokenFetch, event: TokenEvent, reading: Option<u128>) -> (r: (
    TokenFetch,
    TokenAction,
))
    requires
        event_fits(state, event),
    ensures
        !step_reads_clock(state, event) ==> forall|now: u128| r == #[trigger] spec_token_step(state, event, now),
        step_reads_clock(state, event) ==> match reading {
            Some(now) => r == spec_token_step(state, event, now),
            None => r == (TokenFetch::Idle, TokenAction::Finish(Err(Error::InvalidCloudToken))),
        },
{
    if reads_clock(&state, &event) {
        match reading {
            Some(now) => token_step(state, event, now),
            None => (TokenFetch::Idle, TokenAction::Finish(Err(Error::InvalidCloudToken))),
        }
    } else {
        let ghost (s0, e0) = (state, event);
        let r = token_step(state, event, 0);
        proof {
            assert forall|now: u128| r == #[trigger] spec_token_step(s0, e0, now) by {}
        }
        r
    }
}

/// One step of fetching a token by the wall clock, which is read (in milliseconds since the
/// UNIX epoch) only for the steps that depend on the time. Such a step ends the fetch with
/// `InvalidCloudToken` when the clock is set before the UNIX epoch, and is otherwise the step
/// at the clock's reading; every other step is the same at any time.
pub fn token_step_now(state: TokenFetch, event: TokenEvent) -> (r: (TokenFetch, TokenAction))
    requires
        event_fits(state, event),
    ensures
        !step_reads_clock(state, event) ==> forall|now: u128| r == #[trigger] spec_token_step(state, event, now),
        step_reads_clock(state, event) ==> (r == (TokenFetch::Idle, TokenAction::Finish(
            Err(Error::InvalidCloudToken),
        )) || exists|now: u128| r == #[trigger] spec_token_step(state, event, now)),
{
    let reading = if reads_clock(&state, &event) {
        now_millis()
    } else {
        None
    };
    token_step_at_reading(state, event, reading)
}

/// What a fetch gives back is what the token file holds afterwards: a fetch ends with a
/// token only right after reading that token from the file, or right after that token was
/// written to the file, and a new token is written exactly as it was made.
pub proof fn lemma_fetched_token_is_in_the_file(state: TokenFetch, event: TokenEvent, now: u128)
    ensures
        spec_token_step(state, event, now).1 matches TokenAction::Finish(Ok(t)) ==> {
            ||| event matches TokenEvent::CacheRead(Ok(cached)) && cached == t
            ||| state matches TokenFetch::Persisting(written) && written == t
        },
        spec_token_step(state, event, now).0 matches TokenFetch::Persisting(p) ==> spec_token_step(
            state,
            event,
            now,
        ).1 == TokenAction::Persist(p),
{
}

/// A cached token is used again without asking the service: when the token path is a file
/// that holds a token which is not overdue at `now` (its due date is not before `now`), a
/// fetch inspects the path, reads the file and gives that token back, with no
/// authentication and no write.
pub proof fn lemma_cached_token_is_reused(cached: CloudToken, now: u128)
    requires
        now <= cached.due_date,
    ensures
        spec_token_step(TokenFetch::Idle, TokenEvent::Begin, now) == (
        TokenFetch::Inspecting,
        TokenAction::InspectPath,
        ),
        spec_token_step(TokenFetch::Inspecting, TokenEvent::PathInspected(Some(true)), now) == (
        TokenFetch::Reading,
        TokenAction::ReadCache,
        ),
        spec_token_step(TokenFetch::Reading, TokenEvent::CacheRead(Ok(cached)), now) == (
        TokenFetch::Idle,
        TokenAction::Finish(Ok(cached)),
        ),
{
}

/// A fetch asks the service when there is no cached token to use: when the path is not a
/// file, or the cached token is overdue at `now`; and a good answer is written to the file
/// before it is given back.
pub proof fn lemma_missing_or_overdue_token_is_renewed(
    is_file: Option<bool>,
    cached: CloudToken,
    response: AccessResponse,
    now: u128,
)
    ensures
        is_file != Some(true) ==> spec_token_step(TokenFetch::Inspecting, TokenEvent::PathInspected(is_file), now)
            == (TokenFetch::Authenticating, TokenAction::Authenticate),
        cached.due_date < now ==> spec_token_step(TokenFetch::Reading, TokenEvent::CacheRead(Ok(cached)), now)
            == (TokenFetch::Authenticating, TokenAction::Authenticate),
        spec_cloud_token_from_response(response, now) matches Ok(t) ==> spec_token_step(
            TokenFetch::Authenticating,
            TokenEvent::Authenticated(Ok(response)),
            now,
        ) == (TokenFetch::Persisting(t), TokenAction::Persist(t)),
{
}

/// A new token is the service's token, due its lifetime (in seconds) after `now` in
/// milliseconds: it is written to the file, and once written it is what the fetch gives back.
pub proof fn lemma_new_token_is_due_after_its_lifetime(
    response: AccessResponse,
    token: String,
    lifetime: u64,
    now: u128,
)
    requires
        response.access_token == Some(token),
        response.expires_in == Some(lifetime),
        now + lifetime * 1000 <= u128::MAX,
    ensures
        spec_token_step(TokenFetch::Authenticating, TokenEvent::Authenticated(Ok(response)), now).1 == (TokenAction::Persist(
            CloudToken { token, due_date: (now + lifetime * 1000) as u128 },
        )),
        spec_token_step(
            spec_token_step(TokenFetch::Authenticating, TokenEvent::Authenticated(Ok(response)), now).0,
            TokenEvent::Persisted(Ok(())),
            now,
        ).1 == (TokenAction::Finish(Ok(CloudToken { token, due_date: (now + lifetime * 1000) as u128 }))),
{
}

} // verus!
