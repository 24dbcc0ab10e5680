//! The gateway: which response an inbound request receives, and when the
//! upstream service is called for it.
use vstd::prelude::*;
use vstd::string::*;
use crate::error::{DecodeError, GatewayError, UpstreamError};
use crate::model::{
    cities_view, costs_view, City, CostRequest, CostRequestView, CostResponse, CourierCost,
    RajaOngkirResponse,
};
use crate::upstream::{
    cities_outcome, cities_request, cities_request_spec, cost_request, cost_request_spec,
    costs_outcome, pairs_view, success_status, Method, UpstreamReply, UpstreamRequest,
    UpstreamRequestView,
};

verus! {

/// The two operations that the gateway offers.
#[derive(Clone, Copy, Debug, PartialEq, Eq, Structural)]
pub enum Route {
    /// The city directory, read with `GET /cities`.
    Cities,
    /// The cost calculation, asked with `POST /cost`.
    Cost,
}

/// Where the segment that starts at `from` ends: at the next `/`, or at the
/// end of the path.
pub open spec fn segment_end(path: Seq<char>, from: int) -> int
    decreases path.len() - from,
{
    if from >= path.len() {
        path.len() as int
    } else if path[from] == '/' {
        from
    } else {
        segment_end(path, from + 1)
    }
}

/// The first segment of a path: what stands between its leading `/` and the
/// next `/` or the end.
pub open spec fn first_segment(path: Seq<char>) -> Seq<char>
    recommends
        path.len() >= 1,
{
    path.subrange(1, segment_end(path, 1))
}

/// The route that a path names, if any: a path names a route by its first
/// segment, whatever follows it.
pub open spec fn path_route(path: Seq<char>) -> Option<Route> {
    if path.len() == 0 || path[0] != '/' {
        None
    } else if first_segment(path) == "cities"@ {
        Some(Route::Cities)
    } else if first_segment(path) == "cost"@ {
        Some(Route::Cost)
    } else {
        None
    }
}

/// The one method under which a route is served.
pub open spec fn route_method(route: Route) -> Method {
    match route {
        Route::Cities => Method::Get,
        Route::Cost => Method::Post,
    }
}

/// What a response carries as its body, before it is encoded.
#[derive(Clone, Debug, PartialEq, Eq)]
pub enum Payload {
    /// No body.
    Empty,
    /// A list of cities, to be encoded as a JSON array.
    Cities(Vec<City>),
    /// A list of courier costs, to be encoded as a JSON array.
    Costs(Vec<CourierCost>),
}

/// One response of the gateway.
#[derive(Clone, Debug, PartialEq, Eq)]
pub struct GatewayResponse {
    pub status: u16,
    /// Header names and values, in order.
    pub headers: Vec<(String, String)>,
    pub payload: Payload,
}

/// A gateway response with its headers as text.
pub struct GatewayResponseView {
    pub status: u16,
    pub headers: Seq<(Seq<char>, Seq<char>)>,
    pub payload: Payload,
}

impl View for GatewayResponse {
    type V = GatewayResponseView;

    open spec fn view(&self) -> GatewayResponseView {
        GatewayResponseView {
            status: self.status,
            headers: pairs_view(self.headers@),
            payload: self.payload,
        }
    }
}

/// The header that opens a response to every origin.
pub open spec fn allow_origin() -> (Seq<char>, Seq<char>) {
    ("Access-Control-Allow-Origin"@, "*"@)
}

/// The header that names the methods a browser may use.
pub open spec fn allow_methods() -> (Seq<char>, Seq<char>) {
    ("Access-Control-Allow-Methods"@, "GET, POST"@)
}

/// The header that names the request headers a browser may send.
pub open spec fn allow_headers() -> (Seq<char>, Seq<char>) {
    ("Access-Control-Allow-Headers"@, "Content-Type, key"@)
}

impl GatewayResponseView {
    /// Whether the response opens itself to every origin.
    pub open spec fn allows_any_origin(self) -> bool {
        self.headers.contains(allow_origin())
    }
}

/// The answer to a request proper: a status, a payload, and the header that
/// allows any origin.
pub open spec fn plain_response(status: u16, payload: Payload) -> GatewayResponseView {
    GatewayResponseView { status, headers: seq![allow_origin()], payload }
}

/// The answer to a preflight request: success without a body, with the whole
/// cross-origin policy.
pub open spec fn preflight_response() -> GatewayResponseView {
    GatewayResponseView {
        status: 200,
        headers: seq![allow_origin(), allow_methods(), allow_headers()],
        payload: Payload::Empty,
    }
}

/// The status under which a failure is reported: not found, for a malformed
/// body as for every upstream failure.
pub open spec fn error_status(error: GatewayError) -> u16 {
    match error {
        GatewayError::Decode(_) => 404,
        GatewayError::Upstream(_) => 404,
    }
}

/// The response to a failed request: its status, and no body.
pub open spec fn rejection(error: GatewayError) -> GatewayResponseView {
    plain_response(error_status(error), Payload::Empty)
}

/// The response to the city directory's outcome.
pub open spec fn cities_response(outcome: Result<Vec<City>, UpstreamError>) -> GatewayResponseView {
    match outcome {
        Ok(cities) => plain_response(200, Payload::Cities(cities)),
        Err(error) => rejection(GatewayError::Upstream(error)),
    }
}

/// The response to the cost calculation's outcome.
pub open spec fn costs_response(outcome: Result<Vec<CourierCost>, UpstreamError>) -> GatewayResponseView {
    match outcome {
        Ok(costs) => plain_response(200, Payload::Costs(costs)),
        Err(error) => rejection(GatewayError::Upstream(error)),
    }
}

/// Builds the answer to a request proper.
pub fn respond(status: u16, payload: Payload) -> (response: GatewayResponse)
    ensures
        response@ == plain_response(status, payload),
{
    let mut headers: Vec<(String, String)> = Vec::new();
    headers.push(("Access-Control-Allow-Origin".to_owned(), "*".to_owned()));
    let response = GatewayResponse { status, headers, payload };
    assert(response@.headers =~= plain_response(status, payload).headers);
    response
}

/// Builds the answer to a preflight request.
pub fn preflight() -> (response: GatewayResponse)
    ensures
        response@ == preflight_response(),
{
    let mut headers: Vec<(String, String)> = Vec::new();
    headers.push(("Access-Control-Allow-Origin".to_owned(), "*".to_owned()));
    headers.push(("Access-Control-Allow-Methods".to_owned(), "GET, POST".to_owned()));
    headers.push(("Access-Control-Allow-Headers".to_owned(), "Content-Type, key".to_owned()));
    let response = GatewayResponse { status: 200, headers, payload: Payload::Empty };
    assert(response@.headers =~= preflight_response().headers);
    response
}

/// Builds the response to a failed request.
pub fn reject(error: GatewayError) -> (response: GatewayResponse)
    ensures
        response@ == rejection(error),
{
    let status: u16 = match error {
        GatewayError::Decode(_) => 404,
        GatewayError::Upstream(_) => 404,
    };
    respond(status, Payload::Empty)
}

/// No failure shows its cause: any two failures receive the same response,
/// a not-found error without a body, open to any origin.
pub proof fn lemma_failures_look_alike(a: GatewayError, b: GatewayError)
    ensures
        rejection(a) == rejection(b),
        rejection(a).status == 404,
        rejection(a).payload == Payload::Empty,
        rejection(a).headers == seq![allow_origin()],
{
}

/// Answers `GET /cities` from the outcome of the upstream call: the cities
/// as they came, or the generic error.
pub fn get_cities_handler(outcome: Result<Vec<City>, UpstreamError>) -> (response: GatewayResponse)
    ensures
        response@ == cities_response(outcome),
{
    match outcome {
        Ok(cities) => respond(200, Payload::Cities(cities)),
        Err(error) => reject(GatewayError::Upstream(error)),
    }
}

/// Answers `POST /cost` from the outcome of the upstream call: the courier
/// costs as they came, or the generic error.
pub fn calculate_cost_handler(outcome: Result<Vec<CourierCost>, UpstreamError>) -> (response: GatewayResponse)
    ensures
        response@ == costs_response(outcome),
{
    match outcome {
        Ok(costs) => respond(200, Payload::Costs(costs)),
        Err(error) => reject(GatewayError::Upstream(error)),
    }
}

/// What the gateway does next with an inbound request.
#[derive(Clone, Debug, PartialEq, Eq)]
pub enum Step {
    /// Send this request upstream; its reply decides the response.
    Forward(Route, UpstreamRequest),
    /// Answer at once, without calling upstream.
    Respond(GatewayResponse),
}

/// A step with its request or response as text.
pub enum StepView {
    Forward(Route, UpstreamRequestView),
    Respond(GatewayResponseView),
}

impl View for Step {
    type V = StepView;

    open spec fn view(&self) -> StepView {
        match *self {
            Step::Forward(route, request) => StepView::Forward(route, request@),
            Step::Respond(response) => StepView::Respond(response@),
        }
    }
}

/// The step that an inbound request calls for. `body` is the decoded body of
/// the request, or nothing where it did not decode as a cost request.
///
/// A preflight is answered at once. A path that names no route is not
/// found; a route asked under another method than its own is refused with
/// status 405. The city directory is forwarded whatever the body. A cost
/// calculation is forwarded where the body decoded, and rejected otherwise.
pub open spec fn accept_spec(
    api_key: Seq<char>,
    method: Method,
    path: Seq<char>,
    body: Option<CostRequestView>,
) -> StepView {
    if method == Method::Options {
        StepView::Respond(preflight_response())
    } else {
        match path_route(path) {
            None => StepView::Respond(plain_response(404, Payload::Empty)),
            Some(route) => if route_method(route) != method {
                StepView::Respond(plain_response(405, Payload::Empty))
            } else {
                match route {
                    Route::Cities => StepView::Forward(route, cities_request_spec(api_key)),
                    Route::Cost => match body {
                        Some(request) => StepView::Forward(
                            route,
                            cost_request_spec(api_key, request),
                        ),
                        None => StepView::Respond(
                            rejection(GatewayError::Decode(DecodeError)),
                        ),
                    },
                }
            },
        }
    }
}

/// The decoded body as its view.
pub open spec fn body_view(body: Option<CostRequest>) -> Option<CostRequestView> {
    match body {
        Some(request) => Some(request@),
        None => None,
    }
}

/// Finds the route that a path names.
pub fn route_of(path: &str) -> (route: Option<Route>)
    ensures
        route == path_route(path@),
{
    let len: usize = path.unicode_len();
    if len == 0 || path.get_char(0) != '/' {
        return None;
    }
    let mut end: usize = 1;
    while end < len && path.get_char(end) != '/'
        invariant
            len == path@.len(),
            1 <= end <= len,
            segment_end(path@, end as int) == segment_end(path@, 1),
        decreases len - end,
    {
        end += 1;
    }
    let segment = path.substring_char(1, end).to_owned();
    if segment == "cities".to_owned() {
        Some(Route::Cities)
    } else if segment == "cost".to_owned() {
        Some(Route::Cost)
    } else {
        None
    }
}

/// Decides what to do with an inbound request.
pub fn accept(api_key: &str, method: Method, path: &str, body: Option<CostRequest>) -> (step: Step)
    ensures
        step@ == accept_spec(api_key@, method, path@, body_view(body)),
{
    if method == Method::Options {
        return Step::Respond(preflight());
    }
    match route_of(path) {
        None => Step::Respond(respond(404, Payload::Empty)),
        Some(Route::Cities) => {
            if method == Method::Get {
                Step::Forward(Route::Cities, cities_request(api_key))
            } else {
                Step::Respond(respond(405, Payload::Empty))
            }
        },
        Some(Route::Cost) => {
            if method == Method::Post {
                match body {
                    Some(request) => Step::Forward(Route::Cost, cost_request(api_key, request)),
                    None => Step::Respond(reject(GatewayError::Decode(DecodeError))),
                }
            } else {
                Step::Respond(respond(405, Payload::Empty))
            }
        },
    }
}

/// Every response of the gateway allows any origin: the answer to a
/// preflight, each response given at once, and each response to an upstream
/// outcome.
pub proof fn lemma_every_response_allows_any_origin(
    api_key: Seq<char>,
    method: Method,
    path: Seq<char>,
    body: Option<CostRequestView>,
    cities: Result<Vec<City>, UpstreamError>,
    costs: Result<Vec<CourierCost>, UpstreamError>,
)
    ensures
        preflight_response().allows_any_origin(),
        accept_spec(api_key, method, path, body) matches StepView::Respond(response)
            ==> response.allows_any_origin(),
        cities_response(cities).allows_any_origin(),
        costs_response(costs).allows_any_origin(),
{
    assert(preflight_response().headers[0] == allow_origin());
    assert forall|status: u16, payload: Payload|
        #[trigger] plain_response(status, payload).allows_any_origin() by {
        assert(plain_response(status, payload).headers[0] == allow_origin());
    }
}

/// On upstream success a route answers with status 200 and with the inner
/// list of the upstream envelope itself: the same elements, in the same
/// order, with the same fields.
pub proof fn lemma_success_passes_results_through(
    status: u16,
    cities: RajaOngkirResponse,
    costs: CostResponse,
)
    requires
        success_status(status),
    ensures
        cities_response(cities_outcome(UpstreamReply::Answered { status, body: Some(cities) }))
            == plain_response(200, Payload::Cities(cities.rajaongkir.results)),
        costs_response(costs_outcome(UpstreamReply::Answered { status, body: Some(costs) }))
            == plain_response(200, Payload::Costs(costs.rajaongkir.results)),
        cities_response(
            cities_outcome(UpstreamReply::Answered { status, body: Some(cities) }),
        ).payload matches Payload::Cities(sent) && {
            &&& sent@.len() == cities.rajaongkir.results@.len()
            &&& cities_view(sent) == cities_view(cities.rajaongkir.results)
        },
        costs_response(
            costs_outcome(UpstreamReply::Answered { status, body: Some(costs) }),
        ).payload matches Payload::Costs(sent) && {
            &&& sent@.len() == costs.rajaongkir.results@.len()
            &&& costs_view(sent) == costs_view(costs.rajaongkir.results)
        },
{
}

/// A cost calculation whose body did not decode is answered at once with a
/// client error, under every method: nothing is sent upstream for it.
pub proof fn lemma_undecoded_cost_is_never_forwarded(api_key: Seq<char>, method: Method, path: Seq<char>)
    requires
        path_route(path) == Some(Route::Cost),
    ensures
        accept_spec(api_key, method, path, None) matches StepView::Respond(response) && (
        method != Method::Options ==> 400 <= response.status < 500),
        accept_spec(api_key, Method::Post, path, None) == StepView::Respond(
            rejection(GatewayError::Decode(DecodeError)),
        ),
{
}

/// A request is forwarded only on its own route under that route's method,
/// and what is forwarded is made of the key and that request's own body
/// alone.
pub proof fn lemma_forward_matches_own_input(
    api_key: Seq<char>,
    method: Method,
    path: Seq<char>,
    body: Option<CostRequestView>,
)
    ensures
        accept_spec(api_key, method, path, body) matches StepView::Forward(route, upstream) ==> {
            &&& path_route(path) == Some(route)
            &&& route_method(route) == method
            &&& route == Route::Cities ==> upstream == cities_request_spec(api_key)
            &&& route == Route::Cost ==> body is Some && upstream == cost_request_spec(
                api_key,
                body->0,
            )
        },
{
}

} // verus!
