//! What the queries decide once the outside work is done: how a query ends, given the
//! reply of the upstream and what the decoder makes of the body, and which municipality
//! a name picks out of a list.
//!
//! Sending the request and decoding the body are done by the caller. A query sends one
//! request, keeps nothing from one call to the next, and returns the first failure
//! that it meets: of the transport, of the application, or of the decoding.

use vstd::prelude::*;
use crate::endpoint::BRASIL_API_URL;
use crate::error::{is_success_status, ApiError, Response};
use crate::ibge::provider::MunicipalitiesProvider;
use crate::ibge::records::{Municipality, State};
use crate::ibge::service::{all_states_url, municipalities_url, state_url};
use crate::text::matches_ignoring_ascii_case;

verus! {

/// The first municipality of the list whose name matches `city_name` up to the case of
/// ASCII letters, if there is one.
pub open spec fn first_match(municipalities: Seq<Municipality>, city_name: Seq<char>) -> Option<
    Municipality,
>
    decreases municipalities.len(),
{
    if municipalities.len() == 0 {
        None
    } else if matches_ignoring_ascii_case(municipalities[0]@.name, city_name) {
        Some(municipalities[0])
    } else {
        first_match(municipalities.drop_first(), city_name)
    }
}

/// `first_match` finds nothing exactly when no name in the list matches, and what it
/// finds stands in the list at the least position whose name matches.
pub proof fn lemma_first_match_is_first(municipalities: Seq<Municipality>, city_name: Seq<char>)
    ensures
        match first_match(municipalities, city_name) {
            Some(found) => exists|i: int|
                0 <= i < municipalities.len() && found == #[trigger] municipalities[i]
                    && matches_ignoring_ascii_case(municipalities[i]@.name, city_name)
                    && forall|j: int|
                    0 <= j < i ==> !matches_ignoring_ascii_case(
                        (#[trigger] municipalities[j])@.name,
                        city_name,
                    ),
            None => forall|i: int|
                0 <= i < municipalities.len() ==> !matches_ignoring_ascii_case(
                    (#[trigger] municipalities[i])@.name,
                    city_name,
                ),
        },
    decreases municipalities.len(),
{
    if municipalities.len() == 0 {
    } else if matches_ignoring_ascii_case(municipalities[0]@.name, city_name) {
        assert(municipalities[0] == municipalities[0]);
    } else {
        let rest = municipalities.drop_first();
        lemma_first_match_is_first(rest, city_name);
        assert forall|i: int| 0 <= i < rest.len() implies rest[i] == municipalities[i + 1] by {}
        match first_match(rest, city_name) {
            Some(found) => {
                let k = choose|i: int|
                    0 <= i < rest.len() && found == #[trigger] rest[i]
                        && matches_ignoring_ascii_case(rest[i]@.name, city_name) && forall|j: int|
                        0 <= j < i ==> !matches_ignoring_ascii_case(
                            (#[trigger] rest[j])@.name,
                            city_name,
                        );
                assert(found == municipalities[k + 1]);
                assert forall|j: int| 0 <= j < k + 1 implies !matches_ignoring_ascii_case(
                    (#[trigger] municipalities[j])@.name,
                    city_name,
                ) by {
                    if j > 0 {
                        assert(rest[j - 1] == municipalities[j]);
                    }
                }
            },
            None => {
                assert forall|i: int| 0 <= i < municipalities.len() implies
                    !matches_ignoring_ascii_case((#[trigger] municipalities[i])@.name, city_name) by {
                    if i > 0 {
                        assert(rest[i - 1] == municipalities[i]);
                    }
                }
            },
        }
    }
}

/// Looks a municipality up by name in the list of one state. The names are compared
/// up to the case of ASCII letters, and of several that match the first is returned.
/// That none matches is an answer, not a failure.
pub fn find_municipality_by_name(municipalities: Vec<Municipality>, city_name: &str) -> (found:
    Option<Municipality>)
    ensures
        found == first_match(municipalities@, city_name@),
{
    let mut list = municipalities;
    let mut i: usize = 0;
    assert(municipalities@.skip(0) == municipalities@);
    while i < list.len()
        invariant
            i <= list.len(),
            list@ == municipalities@,
            first_match(municipalities@, city_name@) == first_match(
                municipalities@.skip(i as int),
                city_name@,
            ),
        decreases list.len() - i,
    {
        let ghost rest = municipalities@.skip(i as int);
        assert(rest[0] == municipalities@[i as int]);
        assert(rest.drop_first() == municipalities@.skip(i + 1));
        if list[i].get_name().eq_ignore_ascii_case(city_name) {
            let found = list.swap_remove(i);
            return Some(found);
        }
        i += 1;
    }
    None
}

/// How a query ends, given what the transport reports of its one request and what the
/// decoder makes of a body: the first failure on the way, or the decoded value.
pub open spec fn settled<T>(
    reply: Result<Response, reqwest::Error>,
    decoder: spec_fn(Seq<char>) -> Result<T, serde_json::Error>,
) -> Result<T, ApiError> {
    match ApiError::of_reply(reply) {
        Ok(response) => ApiError::of_decoded(decoder(response.body@)),
        Err(error) => Err(error),
    }
}

/// How the query for the municipalities of a state ends against a given upstream,
/// which answers each URL with a reply.
pub open spec fn get_municipalities_outcome(
    uf: Seq<char>,
    providers: Option<Vec<MunicipalitiesProvider>>,
    upstream: spec_fn(Seq<char>) -> Result<Response, reqwest::Error>,
    decoder: spec_fn(Seq<char>) -> Result<Vec<Municipality>, serde_json::Error>,
) -> Result<Vec<Municipality>, ApiError> {
    settled(upstream(municipalities_url(BRASIL_API_URL@, uf, providers)), decoder)
}

/// How the lookup of a municipality by state and name ends against a given upstream.
pub open spec fn find_municipality_outcome(
    uf: Seq<char>,
    city_name: Seq<char>,
    providers: Option<Vec<MunicipalitiesProvider>>,
    upstream: spec_fn(Seq<char>) -> Result<Response, reqwest::Error>,
    decoder: spec_fn(Seq<char>) -> Result<Vec<Municipality>, serde_json::Error>,
) -> Result<Option<Municipality>, ApiError> {
    match get_municipalities_outcome(uf, providers, upstream, decoder) {
        Ok(municipalities) => Ok(first_match(municipalities@, city_name)),
        Err(error) => Err(error),
    }
}

/// How the query for all states ends against a given upstream.
pub open spec fn get_all_states_outcome(
    upstream: spec_fn(Seq<char>) -> Result<Response, reqwest::Error>,
    decoder: spec_fn(Seq<char>) -> Result<Vec<State>, serde_json::Error>,
) -> Result<Vec<State>, ApiError> {
    settled(upstream(all_states_url(BRASIL_API_URL@)), decoder)
}

/// How the query for one state ends against a given upstream.
pub open spec fn get_state_outcome(
    code: Seq<char>,
    upstream: spec_fn(Seq<char>) -> Result<Response, reqwest::Error>,
    decoder: spec_fn(Seq<char>) -> Result<State, serde_json::Error>,
) -> Result<State, ApiError> {
    settled(upstream(state_url(BRASIL_API_URL@, code)), decoder)
}

/// A query ends in exactly one of four ways, and the reply and the decoder decide
/// which: a transport failure where there was no response; an application failure
/// where the status was not a success, whatever the body holds; a deserialization
/// failure where the body of a successful response could not be decoded; else the
/// decoded value.
pub proof fn lemma_settled_cases<T>(
    reply: Result<Response, reqwest::Error>,
    decoder: spec_fn(Seq<char>) -> Result<T, serde_json::Error>,
)
    ensures
        match reply {
            Err(cause) => settled(reply, decoder) == Err::<T, ApiError>(
                ApiError::TransportFailure(cause),
            ),
            Ok(response) => if !is_success_status(response.status) {
                settled(reply, decoder) == Err::<T, ApiError>(
                    ApiError::ApplicationFailure { status: response.status, body: response.body },
                )
            } else {
                match decoder(response.body@) {
                    Err(cause) => settled(reply, decoder) == Err::<T, ApiError>(
                        ApiError::DeserializationFailure(cause),
                    ),
                    Ok(value) => settled(reply, decoder) == Ok::<T, ApiError>(value),
                }
            },
        },
{
}

/// Where the upstream answers a token that names no state with a failure status, the
/// query for the municipalities of that token and the query for the state of that token
/// both end in an application failure with that status and body: never in a value,
/// whatever the decoder would make of the body.
pub proof fn lemma_failure_status_is_application_failure(
    token: Seq<char>,
    providers: Option<Vec<MunicipalitiesProvider>>,
    upstream: spec_fn(Seq<char>) -> Result<Response, reqwest::Error>,
    municipalities_decoder: spec_fn(Seq<char>) -> Result<Vec<Municipality>, serde_json::Error>,
    state_decoder: spec_fn(Seq<char>) -> Result<State, serde_json::Error>,
)
    requires
        upstream(municipalities_url(BRASIL_API_URL@, token, providers)) matches Ok(response)
            && !is_success_status(response.status),
        upstream(state_url(BRASIL_API_URL@, token)) matches Ok(response) && !is_success_status(
            response.status,
        ),
    ensures
        get_municipalities_outcome(token, providers, upstream, municipalities_decoder) == Err::<
            Vec<Municipality>,
            ApiError,
        >(
            ApiError::ApplicationFailure {
                status: upstream(
                    municipalities_url(BRASIL_API_URL@, token, providers),
                )->Ok_0.status,
                body: upstream(municipalities_url(BRASIL_API_URL@, token, providers))->Ok_0.body,
            },
        ),
        get_state_outcome(token, upstream, state_decoder) == Err::<State, ApiError>(
            ApiError::ApplicationFailure {
                status: upstream(state_url(BRASIL_API_URL@, token))->Ok_0.status,
                body: upstream(state_url(BRASIL_API_URL@, token))->Ok_0.body,
            },
        ),
{
}

/// A query depends on the upstream only through the reply to its one request. So
/// two calls for one state end in the same result when the upstream answers that
/// state's URL alike both times, whatever else has changed.
pub proof fn lemma_get_state_is_repeatable(
    code: Seq<char>,
    earlier: spec_fn(Seq<char>) -> Result<Response, reqwest::Error>,
    later: spec_fn(Seq<char>) -> Result<Response, reqwest::Error>,
    decoder: spec_fn(Seq<char>) -> Result<State, serde_json::Error>,
)
    requires
        earlier(state_url(BRASIL_API_URL@, code)) == later(state_url(BRASIL_API_URL@, code)),
    ensures
        get_state_outcome(code, earlier, decoder) == get_state_outcome(code, later, decoder),
{
}

} // verus!
