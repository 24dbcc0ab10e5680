use ongkir_gateway::decimal::weight_text;
use ongkir_gateway::error::UpstreamError;
use ongkir_gateway::model::{
    City, CostDetail, CostRequest, CostResponse, CostValue, CourierCost, RajaOngkirResponse,
};
use ongkir_gateway::upstream::{
    calculate_cost, cities_request, cost_request, get_cities, is_success, judge_reply, Method,
    UpstreamReply,
};

fn pair(name: &str, value: &str) -> (String, String) {
    (name.to_string(), value.to_string())
}

fn jakarta() -> City {
    City {
        city_id: "1".to_string(),
        city_name: "Jakarta".to_string(),
        province_id: "1".to_string(),
        province: "DKI".to_string(),
        city_type: "city".to_string(),
        postal_code: "10110".to_string(),
    }
}

fn jne() -> CourierCost {
    CourierCost {
        code: "jne".to_string(),
        name: "Jalur Nugraha Ekakurir (JNE)".to_string(),
        costs: vec![CostDetail {
            service: "REG".to_string(),
            description: "Layanan Reguler".to_string(),
            cost: vec![CostValue { value: 9000, etd: "1-2".to_string(), note: String::new() }],
        }],
    }
}

fn sample_request(weight: u32) -> CostRequest {
    CostRequest {
        origin: "1".to_string(),
        destination: "2".to_string(),
        weight,
        courier: "jne".to_string(),
    }
}

#[test]
fn weight_text_of_zero() {
    assert_eq!(weight_text(0), "0");
}

#[test]
fn weight_text_of_single_digits() {
    let digits = ["0", "1", "2", "3", "4", "5", "6", "7", "8", "9"];
    for (value, text) in digits.iter().enumerate() {
        assert_eq!(weight_text(value as u32), *text);
    }
}

#[test]
fn weight_text_of_round_numbers() {
    assert_eq!(weight_text(10), "10");
    assert_eq!(weight_text(1000), "1000");
    assert_eq!(weight_text(1700), "1700");
    assert_eq!(weight_text(100_000), "100000");
}

#[test]
fn weight_text_of_largest_weight() {
    assert_eq!(weight_text(u32::MAX), "4294967295");
}

#[test]
fn weight_text_agrees_with_std() {
    let samples = [7u32, 42, 99, 100, 101, 65_535, 1_000_000_007, 4_000_000_000];
    for n in samples {
        assert_eq!(weight_text(n), n.to_string());
    }
}

#[test]
fn weight_text_parses_back() {
    for n in [0u32, 9, 10, 909, 30_000, u32::MAX] {
        assert_eq!(weight_text(n).parse::<u32>().unwrap(), n);
    }
}

#[test]
fn cities_request_is_an_authenticated_read() {
    let request = cities_request("secret-key");
    assert_eq!(request.method, Method::Get);
    assert_eq!(request.url, "https://api.rajaongkir.com/starter/city");
    assert_eq!(request.headers, vec![pair("key", "secret-key")]);
    assert!(request.form.is_empty());
}

#[test]
fn cost_request_is_an_authenticated_form_post() {
    let request = cost_request("secret-key", sample_request(1000));
    assert_eq!(request.method, Method::Post);
    assert_eq!(request.url, "https://api.rajaongkir.com/starter/cost");
    assert_eq!(
        request.headers,
        vec![
            pair("key", "secret-key"),
            pair("content-type", "application/x-www-form-urlencoded"),
        ]
    );
}

#[test]
fn cost_request_forwards_the_four_fields_only() {
    let request = cost_request("k", sample_request(1000));
    assert_eq!(
        request.form,
        vec![
            pair("origin", "1"),
            pair("destination", "2"),
            pair("weight", "1000"),
            pair("courier", "jne"),
        ]
    );
}

#[test]
fn cost_request_keeps_text_fields_verbatim() {
    let request = cost_request(
        "k",
        CostRequest {
            origin: " 501 ".to_string(),
            destination: String::new(),
            weight: 0,
            courier: "jne:pos:tiki".to_string(),
        },
    );
    assert_eq!(
        request.form,
        vec![
            pair("origin", " 501 "),
            pair("destination", ""),
            pair("weight", "0"),
            pair("courier", "jne:pos:tiki"),
        ]
    );
}

#[test]
fn different_cost_requests_give_different_forms() {
    let light = cost_request("k", sample_request(1000));
    let heavy = cost_request("k", sample_request(10000));
    assert_ne!(light.form, heavy.form);
    assert_eq!(light.form[2], pair("weight", "1000"));
    assert_eq!(heavy.form[2], pair("weight", "10000"));
}

#[test]
fn success_class_is_two_hundred_to_two_ninety_nine() {
    assert!(!is_success(0));
    assert!(!is_success(199));
    assert!(is_success(200));
    assert!(is_success(204));
    assert!(is_success(299));
    assert!(!is_success(300));
    assert!(!is_success(404));
    assert!(!is_success(500));
    assert!(!is_success(u16::MAX));
}

#[test]
fn unreachable_upstream_is_a_network_error() {
    let outcome: Result<u8, UpstreamError> = judge_reply(UpstreamReply::Unreachable);
    assert_eq!(outcome, Err(UpstreamError::Network));
}

#[test]
fn failing_status_is_rejected_whatever_the_body() {
    let with_body = judge_reply(UpstreamReply::Answered { status: 500, body: Some(7u8) });
    assert_eq!(with_body, Err(UpstreamError::Status(500)));
    let without_body: Result<u8, UpstreamError> =
        judge_reply(UpstreamReply::Answered { status: 404, body: None });
    assert_eq!(without_body, Err(UpstreamError::Status(404)));
    let redirect = judge_reply(UpstreamReply::Answered { status: 302, body: Some(7u8) });
    assert_eq!(redirect, Err(UpstreamError::Status(302)));
}

#[test]
fn unexpected_shape_is_a_shape_error() {
    let outcome: Result<u8, UpstreamError> =
        judge_reply(UpstreamReply::Answered { status: 200, body: None });
    assert_eq!(outcome, Err(UpstreamError::Shape));
}

#[test]
fn well_formed_success_is_accepted() {
    let outcome = judge_reply(UpstreamReply::Answered { status: 200, body: Some(7u8) });
    assert_eq!(outcome, Ok(7));
}

#[test]
fn get_cities_unwraps_the_envelope() {
    let envelope = RajaOngkirResponse::new(vec![jakarta()]);
    let outcome = get_cities(UpstreamReply::Answered { status: 200, body: Some(envelope) });
    assert_eq!(outcome, Ok(vec![jakarta()]));
}

#[test]
fn get_cities_keeps_count_and_order() {
    let mut bandung = jakarta();
    bandung.city_id = "23".to_string();
    bandung.city_name = "Bandung".to_string();
    let envelope = RajaOngkirResponse::new(vec![bandung.clone(), jakarta(), bandung.clone()]);
    let outcome = get_cities(UpstreamReply::Answered { status: 201, body: Some(envelope) });
    assert_eq!(outcome, Ok(vec![bandung.clone(), jakarta(), bandung]));
}

#[test]
fn get_cities_accepts_an_empty_directory() {
    let envelope = RajaOngkirResponse::new(Vec::new());
    let outcome = get_cities(UpstreamReply::Answered { status: 200, body: Some(envelope) });
    assert_eq!(outcome, Ok(Vec::new()));
}

#[test]
fn get_cities_rejects_failing_status() {
    let envelope = RajaOngkirResponse::new(vec![jakarta()]);
    let outcome = get_cities(UpstreamReply::Answered { status: 400, body: Some(envelope) });
    assert_eq!(outcome, Err(UpstreamError::Status(400)));
}

#[test]
fn get_cities_reports_network_and_shape() {
    assert_eq!(get_cities(UpstreamReply::Unreachable), Err(UpstreamError::Network));
    assert_eq!(
        get_cities(UpstreamReply::Answered { status: 200, body: None }),
        Err(UpstreamError::Shape)
    );
}

#[test]
fn calculate_cost_unwraps_the_envelope() {
    let envelope = CostResponse::new(vec![jne()]);
    let outcome = calculate_cost(UpstreamReply::Answered { status: 200, body: Some(envelope) });
    assert_eq!(outcome, Ok(vec![jne()]));
}

#[test]
fn calculate_cost_rejects_failing_status() {
    let envelope = CostResponse::new(vec![jne()]);
    let outcome = calculate_cost(UpstreamReply::Answered { status: 503, body: Some(envelope) });
    assert_eq!(outcome, Err(UpstreamError::Status(503)));
}

#[test]
fn calculate_cost_reports_network_and_shape() {
    assert_eq!(calculate_cost(UpstreamReply::Unreachable), Err(UpstreamError::Network));
    assert_eq!(
        calculate_cost(UpstreamReply::Answered { status: 200, body: None }),
        Err(UpstreamError::Shape)
    );
}

#[test]
fn envelopes_hand_back_what_they_wrap() {
    assert_eq!(RajaOngkirResponse::new(vec![jakarta()]).into_results(), vec![jakarta()]);
    assert_eq!(CostResponse::new(vec![jne()]).into_results(), vec![jne()]);
}

#[test]
fn upstream_errors_describe_themselves() {
    assert_eq!(UpstreamError::Network.describe(), "upstream unreachable");
    assert_eq!(UpstreamError::Status(500).describe(), "upstream status not successful");
    assert_eq!(UpstreamError::Shape.describe(), "upstream body of unexpected shape");
}
