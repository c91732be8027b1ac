//! The collection of rates, and a table filled from the service's own format.

use currency_exchange::{APIResponse, Rates};

/// Reads a table from the JSON text in which the rate service sends it.
/// Every field has to be there; fields that the table does not have are
/// passed over.
fn table_from_json(text: &str) -> Option<APIResponse> {
    let value: serde_json::Value = serde_json::from_str(text).ok()?;
    let object = value.as_object()?;
    let text_of = |name: &str| Some(object.get(name)?.as_str()?.to_string());
    let time_of = |name: &str| u32::try_from(object.get(name)?.as_u64()?).ok();
    let mut rates = Rates::new();
    for (code, rate) in object.get("conversion_rates")?.as_object()? {
        rates.insert(code.clone(), (rate.as_f64()? as f32).to_bits());
    }
    Some(APIResponse {
        result: text_of("result")?,
        documentation: text_of("documentation")?,
        terms_of_use: text_of("terms_of_use")?,
        time_last_update_unix: time_of("time_last_update_unix")?,
        time_last_update_utc: text_of("time_last_update_utc")?,
        time_next_update_unix: time_of("time_next_update_unix")?,
        time_next_update_utc: text_of("time_next_update_utc")?,
        base_code: text_of("base_code")?,
        conversion_rates: rates,
    })
}

#[test]
fn deserialize_api_response_valid_json() {
    let json_data = r#"
    {
        "result": "success",
        "documentation": "https://www.exchangerate-api.com/docs",
        "terms_of_use": "...",
        "time_last_update_unix": 1679173200,
        "time_last_update_utc": "2024-03-18T10:00:00Z",
        "time_next_update_unix": 1679259600,
        "time_next_update_utc": "2024-03-19T10:00:00Z",
        "base_code": "USD",
        "conversion_rates": {
        "EUR": 0.94,
        "JPY": 130.0
        }
    }
    "#;

    let response = table_from_json(json_data);

    assert!(response.is_some());
    let api_response: APIResponse = response.unwrap();
    assert_eq!(api_response.result, "success");
    assert_eq!(api_response.base_code, "USD");
    assert_eq!(api_response.time_last_update_unix, 1679173200);
    assert_eq!(api_response.time_next_update_unix, 1679259600);
    assert_eq!(api_response.conversion_rates.len(), 2);
    assert_eq!(api_response.conversion_rates.get("EUR"), Some(0.94f32.to_bits()));
    assert_eq!(api_response.conversion_rates.get("JPY"), Some(130.0f32.to_bits()));
}

#[test]
fn new_collection_is_empty() {
    let rates = Rates::new();
    assert_eq!(rates.len(), 0);
    assert_eq!(rates.get("USD"), None);
    assert_eq!(rates.get(""), None);
    assert_eq!(rates.pair(0), None);
}

#[test]
fn insert_adds_a_new_code_at_the_end() {
    let mut rates = Rates::new();
    assert_eq!(rates.insert("EUR".to_string(), 1), None);
    assert_eq!(rates.insert("JPY".to_string(), 2), None);
    assert_eq!(rates.insert("AED".to_string(), 3), None);
    assert_eq!(rates.len(), 3);
    assert_eq!(rates.pair(0), Some(("EUR", 1)));
    assert_eq!(rates.pair(1), Some(("JPY", 2)));
    assert_eq!(rates.pair(2), Some(("AED", 3)));
    assert_eq!(rates.pair(3), None);
    assert_eq!(rates.pair(usize::MAX), None);
}

#[test]
fn insert_replaces_the_rate_of_a_known_code() {
    let mut rates = Rates::new();
    rates.insert("EUR".to_string(), 1);
    rates.insert("JPY".to_string(), 2);
    assert_eq!(rates.insert("EUR".to_string(), 7), Some(1));
    assert_eq!(rates.len(), 2);
    assert_eq!(rates.pair(0), Some(("EUR", 7)));
    assert_eq!(rates.pair(1), Some(("JPY", 2)));
    assert_eq!(rates.get("EUR"), Some(7));
    assert_eq!(rates.insert("EUR".to_string(), 7), Some(7));
    assert_eq!(rates.insert("JPY".to_string(), 0), Some(2));
    assert_eq!(rates.get("JPY"), Some(0));
    assert_eq!(rates.len(), 2);
}

#[test]
fn get_compares_codes_exactly() {
    let mut rates = Rates::new();
    rates.insert("EUR".to_string(), 1);
    rates.insert("".to_string(), 5);
    assert_eq!(rates.get("EUR"), Some(1));
    assert_eq!(rates.get("eur"), None);
    assert_eq!(rates.get("EUR "), None);
    assert_eq!(rates.get("EU"), None);
    assert_eq!(rates.get(""), Some(5));
    assert_eq!(rates.insert("eur".to_string(), 2), None);
    assert_eq!(rates.len(), 3);
}

#[test]
fn rate_keeps_every_bit() {
    let mut rates = Rates::new();
    for (code, rate) in [
        ("A", 0.0f32),
        ("B", -0.0),
        ("C", f32::MAX),
        ("D", f32::MIN_POSITIVE),
        ("E", f32::INFINITY),
        ("F", 0.94),
    ] {
        rates.insert(code.to_string(), rate.to_bits());
        assert_eq!(rates.get(code), Some(rate.to_bits()));
    }
    rates.insert("G".to_string(), u32::MAX);
    assert_eq!(rates.get("G"), Some(u32::MAX));
    assert_eq!(f32::from_bits(rates.get("F").unwrap()).to_string(), "0.94");
}

#[test]
fn clone_has_the_same_pairs_and_is_its_own() {
    let mut rates = Rates::new();
    rates.insert("EUR".to_string(), 1);
    rates.insert("JPY".to_string(), 2);
    let mut copy = rates.clone();
    assert_eq!(copy.len(), 2);
    assert_eq!(copy.pair(0), Some(("EUR", 1)));
    assert_eq!(copy.pair(1), Some(("JPY", 2)));
    copy.insert("EUR".to_string(), 9);
    copy.insert("AED".to_string(), 3);
    assert_eq!(rates.get("EUR"), Some(1));
    assert_eq!(rates.get("AED"), None);
    assert_eq!(rates.len(), 2);
    assert_eq!(copy.get("EUR"), Some(9));
    assert_eq!(copy.len(), 3);
}

#[test]
fn no_code_occurs_twice() {
    let mut rates = Rates::new();
    for round in 0u32..3 {
        for code in ["USD", "EUR", "JPY", "USD", "GBP", "EUR"] {
            rates.insert(code.to_string(), round);
        }
    }
    assert_eq!(rates.len(), 4);
    let mut codes = Vec::new();
    let mut at = 0;
    while let Some((code, rate)) = rates.pair(at) {
        assert_eq!(rate, 2);
        assert!(!codes.contains(&code));
        codes.push(code);
        at += 1;
    }
    assert_eq!(codes, vec!["USD", "EUR", "JPY", "GBP"]);
}
