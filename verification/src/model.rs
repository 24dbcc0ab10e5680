//! The transfer records, shaped as the upstream service shapes them.
use vstd::prelude::*;

verus! {

/// One entry of the city directory. Every field is copied as received.
#[derive(Clone, Debug, PartialEq, Eq)]
pub struct City {
    pub city_id: String,
    pub city_name: String,
    pub province_id: String,
    pub province: String,
    pub city_type: String,
    pub postal_code: String,
}

/// What a caller asks of the cost calculation.
#[derive(Clone, Debug, PartialEq, Eq)]
pub struct CostRequest {
    pub origin: String,
    pub destination: String,
    pub weight: u32,
    pub courier: String,
}

/// One price of a service.
#[derive(Clone, Debug, PartialEq, Eq)]
pub struct CostValue {
    pub value: u32,
    pub etd: String,
    pub note: String,
}

/// One service of a courier, with its prices in upstream order.
#[derive(Clone, Debug, PartialEq, Eq)]
pub struct CostDetail {
    pub service: String,
    pub description: String,
    pub cost: Vec<CostValue>,
}

/// One courier, with its services in upstream order.
#[derive(Clone, Debug, PartialEq, Eq)]
pub struct CourierCost {
    pub code: String,
    pub name: String,
    pub costs: Vec<CostDetail>,
}

/// The inner object of the city directory's envelope.
#[derive(Clone, Debug, PartialEq, Eq)]
pub struct RajaOngkirData {
    pub results: Vec<City>,
}

/// The envelope of the city directory.
#[derive(Clone, Debug, PartialEq, Eq)]
pub struct RajaOngkirResponse {
    pub rajaongkir: RajaOngkirData,
}

/// The inner object of the cost calculation's envelope.
#[derive(Clone, Debug, PartialEq, Eq)]
pub struct CostData {
    pub results: Vec<CourierCost>,
}

/// The envelope of the cost calculation.
#[derive(Clone, Debug, PartialEq, Eq)]
pub struct CostResponse {
    pub rajaongkir: CostData,
}

/// A city as text: its six fields as character sequences.
pub struct CityView {
    pub city_id: Seq<char>,
    pub city_name: Seq<char>,
    pub province_id: Seq<char>,
    pub province: Seq<char>,
    pub city_type: Seq<char>,
    pub postal_code: Seq<char>,
}

impl View for City {
    type V = CityView;

    open spec fn view(&self) -> CityView {
        CityView {
            city_id: self.city_id@,
            city_name: self.city_name@,
            province_id: self.province_id@,
            province: self.province@,
            city_type: self.city_type@,
            postal_code: self.postal_code@,
        }
    }
}

/// A cost request as text and number.
pub struct CostRequestView {
    pub origin: Seq<char>,
    pub destination: Seq<char>,
    pub weight: nat,
    pub courier: Seq<char>,
}

impl View for CostRequest {
    type V = CostRequestView;

    open spec fn view(&self) -> CostRequestView {
        CostRequestView {
            origin: self.origin@,
            destination: self.destination@,
            weight: self.weight as nat,
            courier: self.courier@,
        }
    }
}

/// One price as number and text.
pub struct CostValueView {
    pub value: nat,
    pub etd: Seq<char>,
    pub note: Seq<char>,
}

impl View for CostValue {
    type V = CostValueView;

    open spec fn view(&self) -> CostValueView {
        CostValueView { value: self.value as nat, etd: self.etd@, note: self.note@ }
    }
}

/// One service as text, with its prices in order.
pub struct CostDetailView {
    pub service: Seq<char>,
    pub description: Seq<char>,
    pub cost: Seq<CostValueView>,
}

impl View for CostDetail {
    type V = CostDetailView;

    open spec fn view(&self) -> CostDetailView {
        CostDetailView {
            service: self.service@,
            description: self.description@,
            cost: self.cost@.map_values(|value: CostValue| value@),
        }
    }
}

/// One courier as text, with its services in order.
pub struct CourierCostView {
    pub code: Seq<char>,
    pub name: Seq<char>,
    pub costs: Seq<CostDetailView>,
}

impl View for CourierCost {
    type V = CourierCostView;

    open spec fn view(&self) -> CourierCostView {
        CourierCostView {
            code: self.code@,
            name: self.name@,
            costs: self.costs@.map_values(|detail: CostDetail| detail@),
        }
    }
}

/// A list of cities as text, in order.
pub open spec fn cities_view(cities: Vec<City>) -> Seq<CityView> {
    cities@.map_values(|city: City| city@)
}

/// A list of courier costs as text, in order.
pub open spec fn costs_view(costs: Vec<CourierCost>) -> Seq<CourierCostView> {
    costs@.map_values(|courier: CourierCost| courier@)
}

impl RajaOngkirResponse {
    /// Wraps a list of cities as the upstream service would.
    pub fn new(results: Vec<City>) -> (envelope: RajaOngkirResponse)
        ensures
            envelope.rajaongkir.results == results,
    {
        RajaOngkirResponse { rajaongkir: RajaOngkirData { results } }
    }

    /// Takes the list of cities out of its envelope, untouched.
    pub fn into_results(self) -> (results: Vec<City>)
        ensures
            results == self.rajaongkir.results,
    {
        self.rajaongkir.results
    }
}

impl CostResponse {
    /// Wraps a list of courier costs as the upstream service would.
    pub fn new(results: Vec<CourierCost>) -> (envelope: CostResponse)
        ensures
            envelope.rajaongkir.results == results,
    {
        CostResponse { rajaongkir: CostData { results } }
    }

    /// Takes the list of courier costs out of its envelope, untouched.
    pub fn into_results(self) -> (results: Vec<CourierCost>)
        ensures
            results == self.rajaongkir.results,
    {
        self.rajaongkir.results
    }
}

} // verus!
