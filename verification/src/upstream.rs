//! The upstream client: which request stands for an operation, and how the
//! service's answer is judged.
use vstd::prelude::*;
use vstd::string::*;
use crate::decimal::{decimal_text, lemma_decimal_text_reads_back, weight_text};
use crate::error::UpstreamError;
use crate::model::{City, CostRequest, CostRequestView, CostResponse, CourierCost, RajaOngkirResponse};

verus! {

/// An HTTP method, as far as the gateway tells methods apart.
#[derive(Clone, Copy, Debug, PartialEq, Eq, Structural)]
pub enum Method {
    Get,
    Post,
    Options,
    Other,
}

/// A list of name and value pairs as text.
pub open spec fn pairs_view(pairs: Seq<(String, String)>) -> Seq<(Seq<char>, Seq<char>)> {
    Seq::new(pairs.len(), |i: int| (pairs[i].0@, pairs[i].1@))
}

/// One request to the upstream service, ready to be sent.
#[derive(Clone, Debug, PartialEq, Eq)]
pub struct UpstreamRequest {
    pub method: Method,
    pub url: String,
    /// Header names and values, in the order in which they are set.
    pub headers: Vec<(String, String)>,
    /// The fields of the form-encoded body, in order; empty for no body.
    pub form: Vec<(String, String)>,
}

/// An upstream request as text.
pub struct UpstreamRequestView {
    pub method: Method,
    pub url: Seq<char>,
    pub headers: Seq<(Seq<char>, Seq<char>)>,
    pub form: Seq<(Seq<char>, Seq<char>)>,
}

impl View for UpstreamRequest {
    type V = UpstreamRequestView;

    open spec fn view(&self) -> UpstreamRequestView {
        UpstreamRequestView {
            method: self.method,
            url: self.url@,
            headers: pairs_view(self.headers@),
            form: pairs_view(self.form@),
        }
    }
}

/// The request that reads the city directory: an authenticated read without
/// a body.
pub open spec fn cities_request_spec(api_key: Seq<char>) -> UpstreamRequestView {
    UpstreamRequestView {
        method: Method::Get,
        url: "https://api.rajaongkir.com/starter/city"@,
        headers: seq![("key"@, api_key)],
        form: seq![],
    }
}

/// The request that computes a cost: an authenticated write that carries the
/// four fields of the caller's request as a form, the weight in decimal.
pub open spec fn cost_request_spec(api_key: Seq<char>, request: CostRequestView) -> UpstreamRequestView {
    UpstreamRequestView {
        method: Method::Post,
        url: "https://api.rajaongkir.com/starter/cost"@,
        headers: seq![
            ("key"@, api_key),
            ("content-type"@, "application/x-www-form-urlencoded"@),
        ],
        form: seq![
            ("origin"@, request.origin),
            ("destination"@, request.destination),
            ("weight"@, decimal_text(request.weight)),
            ("courier"@, request.courier),
        ],
    }
}

/// Builds the request that reads the city directory.
pub fn cities_request(api_key: &str) -> (request: UpstreamRequest)
    ensures
        request@ == cities_request_spec(api_key@),
{
    let mut headers: Vec<(String, String)> = Vec::new();
    headers.push(("key".to_owned(), api_key.to_owned()));
    let request = UpstreamRequest {
        method: Method::Get,
        url: "https://api.rajaongkir.com/starter/city".to_owned(),
        headers,
        form: Vec::new(),
    };
    assert(request@.headers =~= cities_request_spec(api_key@).headers);
    assert(request@.form =~= cities_request_spec(api_key@).form);
    request
}

/// Builds the request that computes the cost of `request`.
pub fn cost_request(api_key: &str, request: CostRequest) -> (upstream: UpstreamRequest)
    ensures
        upstream@ == cost_request_spec(api_key@, request@),
{
    let ghost wanted = cost_request_spec(api_key@, request@);
    let mut headers: Vec<(String, String)> = Vec::new();
    headers.push(("key".to_owned(), api_key.to_owned()));
    headers.push(("content-type".to_owned(), "application/x-www-form-urlencoded".to_owned()));
    let mut form: Vec<(String, String)> = Vec::new();
    form.push(("origin".to_owned(), request.origin));
    form.push(("destination".to_owned(), request.destination));
    form.push(("weight".to_owned(), weight_text(request.weight)));
    form.push(("courier".to_owned(), request.courier));
    let upstream = UpstreamRequest {
        method: Method::Post,
        url: "https://api.rajaongkir.com/starter/cost".to_owned(),
        headers,
        form,
    };
    assert(upstream@.headers =~= wanted.headers);
    assert(upstream@.form =~= wanted.form);
    upstream
}

/// The cost request forwards exactly four fields, named `origin`,
/// `destination`, `weight` and `courier` in this order, and two different
/// caller requests never lead to the same form.
pub proof fn lemma_cost_form_is_faithful(api_key: Seq<char>, a: CostRequestView, b: CostRequestView)
    ensures
        cost_request_spec(api_key, a).form.len() == 4,
        cost_request_spec(api_key, a).form[0] == ("origin"@, a.origin),
        cost_request_spec(api_key, a).form[1] == ("destination"@, a.destination),
        cost_request_spec(api_key, a).form[2] == ("weight"@, decimal_text(a.weight)),
        cost_request_spec(api_key, a).form[3] == ("courier"@, a.courier),
        cost_request_spec(api_key, a).form == cost_request_spec(api_key, b).form ==> a == b,
{
    let fa = cost_request_spec(api_key, a).form;
    let fb = cost_request_spec(api_key, b).form;
    if fa == fb {
        assert(fa[0] == fb[0]);
        assert(fa[1] == fb[1]);
        assert(fa[2] == fb[2]);
        assert(fa[3] == fb[3]);
        lemma_decimal_text_reads_back(a.weight);
        lemma_decimal_text_reads_back(b.weight);
    }
}

/// Whether an HTTP status code lies in the success class.
pub open spec fn success_status(status: u16) -> bool {
    200 <= status <= 299
}

/// Tells whether `status` is a success code.
pub fn is_success(status: u16) -> (ok: bool)
    ensures
        ok == success_status(status),
{
    200 <= status && status <= 299
}

/// What came of sending a request to the upstream service.
#[derive(Clone, Debug, PartialEq, Eq)]
pub enum UpstreamReply<T> {
    /// No answer arrived.
    Unreachable,
    /// An answer arrived with this status; `body` holds what the body
    /// decoded to, or nothing where it did not have the expected shape.
    Answered { status: u16, body: Option<T> },
}

/// The verdict on an upstream reply. The status is judged before the body:
/// a status outside the success class fails whatever the body holds.
pub open spec fn reply_outcome<T>(reply: UpstreamReply<T>) -> Result<T, UpstreamError> {
    match reply {
        UpstreamReply::Unreachable => Err(UpstreamError::Network),
        UpstreamReply::Answered { status, body } => if !success_status(status) {
            Err(UpstreamError::Status(status))
        } else {
            match body {
                Some(value) => Ok(value),
                None => Err(UpstreamError::Shape),
            }
        },
    }
}

/// Judges an upstream reply.
pub fn judge_reply<T>(reply: UpstreamReply<T>) -> (outcome: Result<T, UpstreamError>)
    ensures
        outcome == reply_outcome(reply),
{
    match reply {
        UpstreamReply::Unreachable => Err(UpstreamError::Network),
        UpstreamReply::Answered { status, body } => {
            if !is_success(status) {
                Err(UpstreamError::Status(status))
            } else {
                match body {
                    Some(value) => Ok(value),
                    None => Err(UpstreamError::Shape),
                }
            }
        },
    }
}

/// A reply whose status is not a success code is rejected with that status,
/// whatever its body holds; and only a reply with a success status and a
/// body of the expected shape is accepted.
pub proof fn lemma_status_decides_first<T>(status: u16, body: Option<T>)
    ensures
        !success_status(status) ==> reply_outcome(UpstreamReply::Answered { status, body })
            == Err::<T, UpstreamError>(UpstreamError::Status(status)),
        reply_outcome(UpstreamReply::Answered { status, body }) is Ok <==> success_status(status)
            && body is Some,
{
}

/// The cities that a reply of the city directory yields.
pub open spec fn cities_outcome(reply: UpstreamReply<RajaOngkirResponse>) -> Result<Vec<City>, UpstreamError> {
    match reply_outcome(reply) {
        Ok(envelope) => Ok(envelope.rajaongkir.results),
        Err(error) => Err(error),
    }
}

/// The courier costs that a reply of the cost calculation yields.
pub open spec fn costs_outcome(reply: UpstreamReply<CostResponse>) -> Result<Vec<CourierCost>, UpstreamError> {
    match reply_outcome(reply) {
        Ok(envelope) => Ok(envelope.rajaongkir.results),
        Err(error) => Err(error),
    }
}

/// Both operations reject a reply whose status is not a success code, with
/// that status, whatever the body decoded to; and on a success status they
/// yield exactly the inner list of the envelope.
pub proof fn lemma_outcomes_follow_status(
    status: u16,
    cities: Option<RajaOngkirResponse>,
    costs: Option<CostResponse>,
)
    ensures
        !success_status(status) ==> cities_outcome(UpstreamReply::Answered { status, body: cities })
            == Err::<Vec<City>, UpstreamError>(UpstreamError::Status(status)),
        !success_status(status) ==> costs_outcome(UpstreamReply::Answered { status, body: costs })
            == Err::<Vec<CourierCost>, UpstreamError>(UpstreamError::Status(status)),
        success_status(status) && cities is Some ==> cities_outcome(
            UpstreamReply::Answered { status, body: cities },
        ) == Ok::<Vec<City>, UpstreamError>(cities->0.rajaongkir.results),
        success_status(status) && costs is Some ==> costs_outcome(
            UpstreamReply::Answered { status, body: costs },
        ) == Ok::<Vec<CourierCost>, UpstreamError>(costs->0.rajaongkir.results),
{
}

/// Turns the reply of the city directory into its inner list of cities.
pub fn get_cities(reply: UpstreamReply<RajaOngkirResponse>) -> (outcome: Result<Vec<City>, UpstreamError>)
    ensures
        outcome == cities_outcome(reply),
{
    match judge_reply(reply) {
        Ok(envelope) => Ok(envelope.into_results()),
        Err(error) => Err(error),
    }
}

/// Turns the reply of the cost calculation into its inner list of courier
/// costs.
pub fn calculate_cost(reply: UpstreamReply<CostResponse>) -> (outcome: Result<Vec<CourierCost>, UpstreamError>)
    ensures
        outcome == costs_outcome(reply),
{
    match judge_reply(reply) {
        Ok(envelope) => Ok(envelope.into_results()),
        Err(error) => Err(error),
    }
}

} // verus!
