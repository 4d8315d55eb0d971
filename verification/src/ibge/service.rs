//! The service client: a base URL, and the request that each operation sends to it.
//! Every request is a GET with no body, so a request is its URL. The client sends one
//! request for one call, and sets no timeout and asks for no retry of its own.

use vstd::prelude::*;
use vstd::string::*;
use crate::ibge::provider::{format_providers, providers_parameter, MunicipalitiesProvider};

verus! {

/// A GET request, ready to be sent.
#[derive(Debug)]
pub struct Request {
    pub url: String,
}

/// A client of the IBGE endpoints under one base URL.
#[derive(Debug)]
pub struct IbgeService {
    base_url: String,
}

/// The URL that lists the municipalities of a state:
/// `{base}/api/ibge/municipios/v1/{uf}?providers={tokens}`. The parameter is there also
/// when its value is empty.
pub open spec fn municipalities_url(
    base: Seq<char>,
    uf: Seq<char>,
    providers: Option<Vec<MunicipalitiesProvider>>,
) -> Seq<char> {
    base + "/api/ibge/municipios/v1/"@ + uf + "?providers="@ + providers_parameter(providers)
}

/// The URL that lists all states: `{base}/api/ibge/uf/v1`.
pub open spec fn all_states_url(base: Seq<char>) -> Seq<char> {
    base + "/api/ibge/uf/v1"@
}

/// The URL of one state, by abbreviation or code: `{base}/api/ibge/uf/v1/{code}`.
pub open spec fn state_url(base: Seq<char>, code: Seq<char>) -> Seq<char> {
    base + "/api/ibge/uf/v1/"@ + code
}

impl IbgeService {
    /// The base URL that the client was made with.
    pub closed spec fn base_url(&self) -> Seq<char> {
        self.base_url@
    }

    /// A client of the endpoints under `base_url`.
    pub fn new(base_url: &str) -> (service: IbgeService)
        ensures
            service.base_url() == base_url@,
    {
        IbgeService { base_url: base_url.to_owned() }
    }

    /// The request for the municipalities of the state `uf`, from the given providers
    /// in the given order, or from the upstream's own choice where none is given.
    pub fn get_municipalities_request(
        &self,
        uf: &str,
        providers: Option<Vec<MunicipalitiesProvider>>,
    ) -> (request: Request)
        ensures
            request.url@ == municipalities_url(self.base_url(), uf@, providers),
    {
        let parameter = format_providers(&providers);
        let mut url = self.base_url.clone();
        url.append("/api/ibge/municipios/v1/");
        url.append(uf);
        url.append("?providers=");
        url.append(parameter.as_str());
        Request { url }
    }

    /// The request for all states.
    pub fn get_all_states_request(&self) -> (request: Request)
        ensures
            request.url@ == all_states_url(self.base_url()),
    {
        let mut url = self.base_url.clone();
        url.append("/api/ibge/uf/v1");
        Request { url }
    }

    /// The request for the state with the given abbreviation or code.
    pub fn get_state_request(&self, code: &str) -> (request: Request)
        ensures
            request.url@ == state_url(self.base_url(), code@),
    {
        let mut url = self.base_url.clone();
        url.append("/api/ibge/uf/v1/");
        url.append(code);
        Request { url }
    }
}

/// The URL of one state is the URL of all states, a slash, and the code.
pub proof fn lemma_state_url_extends_all_states_url(base: Seq<char>, code: Seq<char>)
    ensures
        state_url(base, code) == all_states_url(base) + seq!['/'] + code,
{
    reveal_strlit("/api/ibge/uf/v1");
    reveal_strlit("/api/ibge/uf/v1/");
    assert("/api/ibge/uf/v1/"@ =~= "/api/ibge/uf/v1"@ + seq!['/']);
    assert(state_url(base, code) =~= all_states_url(base) + seq!['/'] + code);
}

/// Where no provider is named, be it by an absent list or by an empty one, the URL for
/// municipalities still ends in the `providers` parameter, with nothing behind it.
pub proof fn lemma_municipalities_url_without_providers(
    base: Seq<char>,
    uf: Seq<char>,
    providers: Option<Vec<MunicipalitiesProvider>>,
)
    requires
        providers matches Some(list) ==> list@.len() == 0,
    ensures
        municipalities_url(base, uf, providers) == base + "/api/ibge/municipios/v1/"@ + uf
            + "?providers="@,
{
    assert(providers_parameter(providers) =~= Seq::<char>::empty());
    assert(municipalities_url(base, uf, providers) =~= base + "/api/ibge/municipios/v1/"@ + uf
        + "?providers="@);
}

} // verus!
