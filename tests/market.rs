use etrade_market::api::Api;
use etrade_market::error::DecodeError;
use etrade_market::expiry::decode_expiration_response;
use etrade_market::flexible::{coerce_bool_text, flexible_bool};
use etrade_market::quote::decode_quote_response;
use etrade_market::request::{
    build_expiration_request, build_quote_request, DetailFlag, ExpiryType, GetOptionExpireDatesRequest,
    GetQuotesRequest, ValidationError,
};

fn parse(text: &str) -> serde_json::Value {
    serde_json::from_str(text).expect("test JSON must parse")
}

fn pairs(v: &[(&str, &str)]) -> Vec<(String, String)> {
    v.iter().map(|(a, b)| (a.to_string(), b.to_string())).collect()
}

#[test]
fn test_quote_response_with_missing_fields() {
    let minimal_json = r#"{
        "QuoteResponse": {
            "QuoteData": [
                {
                    "All": {
                        "companyName": "TEST COMPANY",
                        "lastTrade": 100.0
                    },
                    "dateTime": "12:00:00 EDT 01-01-2024",
                    "dateTimeUTC": 1704067200
                }
            ]
        }
    }"#;
    let quote_response = decode_quote_response(&parse(minimal_json))
        .expect("Failed to deserialize minimal QuoteResponse");
    assert_eq!(quote_response.quote_data.len(), 1);
    let quote_data = &quote_response.quote_data[0];
    let all_details = quote_data.all.as_ref().expect("Should have All quote details");
    assert_eq!(all_details.company_name.as_deref(), Some("TEST COMPANY"));
    assert_eq!(all_details.last_trade.as_ref().and_then(|n| n.as_f64()), Some(100.0));
    assert!(all_details.ask.is_none());
    assert!(all_details.bid.is_none());
}

#[test]
fn test_quote_response_empty_messages() {
    let json_with_messages = r#"{
        "QuoteResponse": {
            "QuoteData": [
                {
                    "All": {
                        "companyName": "TEST COMPANY",
                        "lastTrade": 100.0
                    }
                }
            ],
            "Messages": {
                "Message": []
            }
        }
    }"#;
    let quote_response = decode_quote_response(&parse(json_with_messages))
        .expect("Failed to deserialize QuoteResponse with messages");
    assert_eq!(quote_response.quote_data.len(), 1);
    assert!(quote_response.messages.is_empty());
}

#[test]
fn minimal_record_leaves_other_fields_empty() {
    let doc = r#"{"QuoteResponse":{"QuoteData":[{"All":{"companyName":"TEST COMPANY","lastTrade":100.0}}]}}"#;
    let r = decode_quote_response(&parse(doc)).unwrap();
    let d = &r.quote_data[0];
    assert!(d.fundamental.is_none() && d.intraday.is_none() && d.option.is_none());
    assert!(d.week52.is_none() && d.mutual_fund.is_none() && d.product.is_none());
    assert!(d.ah_flag.is_none() && d.date_time.is_none() && d.date_time_utc.is_none());
    let all = d.all.as_ref().unwrap();
    assert!(all.high.is_none() && all.total_volume.is_none() && all.option_style.is_none());
    assert!(r.messages.is_empty());
}

#[test]
fn integer_fields_are_read_and_fractions_are_dropped() {
    let doc = r#"{"QuoteResponse":{"QuoteData":[
        {"dateTimeUTC": 1704067200, "All": {"totalVolume": 12.5, "openInterest": -3}}]}}"#;
    let r = decode_quote_response(&parse(doc)).unwrap();
    assert_eq!(r.quote_data[0].date_time_utc, Some(1704067200));
    let all = r.quote_data[0].all.as_ref().unwrap();
    assert_eq!(all.total_volume, None);
    assert_eq!(all.open_interest, Some(-3));
}

#[test]
fn mistyped_optional_members_read_as_absent() {
    let doc = r#"{"QuoteResponse":{"QuoteData":[
        {"All": {"companyName": 5, "bid": "1.5"}, "dstFlag": "yes", "fundamental": 7, "timeZone": "EST"}]}}"#;
    let r = decode_quote_response(&parse(doc)).unwrap();
    let d = &r.quote_data[0];
    let all = d.all.as_ref().unwrap();
    assert!(all.company_name.is_none());
    assert!(all.bid.is_none());
    assert_eq!(d.dst_flag, None);
    assert!(d.fundamental.is_none());
    assert_eq!(d.time_zone.as_deref(), Some("EST"));
}

#[test]
fn records_keep_provider_order_and_messages() {
    let doc = r#"{"QuoteResponse":{"QuoteData":[
        {"Product": {"symbol": "MSFT", "strikePrice": 250.5, "expiryYear": 2024}, "errorMessage": "stale"},
        {"Product": {"symbol": "AAPL"}, "hasMiniOptions": false}],
        "Messages": {"Message": [{"description": "partial", "code": 1002, "type": "WARNING"}]}}}"#;
    let r = decode_quote_response(&parse(doc)).unwrap();
    assert_eq!(r.quote_data.len(), 2);
    let first = r.quote_data[0].product.as_ref().unwrap();
    assert_eq!(first.symbol.as_deref(), Some("MSFT"));
    assert_eq!(first.strike_price.as_ref().and_then(|n| n.as_f64()), Some(250.5));
    assert_eq!(first.expiry_year, Some(2024));
    assert_eq!(r.quote_data[0].error_message.as_deref(), Some("stale"));
    assert_eq!(r.quote_data[1].product.as_ref().unwrap().symbol.as_deref(), Some("AAPL"));
    assert_eq!(r.quote_data[1].has_mini_options, Some(false));
    assert!(!r.messages.is_empty());
    let m = &r.messages.message[0];
    assert_eq!(m.description.as_deref(), Some("partial"));
    assert_eq!(m.code, Some(1002));
    assert_eq!(m.message_type.as_deref(), Some("WARNING"));
}

#[test]
fn option_and_fund_blocks_decode_nested_parts() {
    let doc = r#"{"QuoteResponse":{"QuoteData":[{
        "option": {"osiKey": "X", "OptionGreeks": {"delta": 0.5, "currentValue": true}},
        "MutualFund": {"fundName": "F", "actual12B1Fee": 0.25, "monthlyTrailingReturnYTD": 3.0,
            "netAssets": {"value": 10.0, "asOfDate": 99},
            "redemption": {"minMonth": "3", "salesValues": [{"low": "0", "high": "1", "percent": "2"}, 4]},
            "deferredSalesChanges": [{"lowhigh": "0-1", "percent": "5"}],
            "frontendSalesChanges": "none"}}]}}"#;
    let r = decode_quote_response(&parse(doc)).unwrap();
    let d = &r.quote_data[0];
    let opt = d.option.as_ref().unwrap();
    assert_eq!(opt.osi_key.as_deref(), Some("X"));
    let greeks = opt.option_greeks.as_ref().unwrap();
    assert_eq!(greeks.delta.as_ref().and_then(|n| n.as_f64()), Some(0.5));
    assert_eq!(greeks.current_value, Some(true));
    let mf = d.mutual_fund.as_ref().unwrap();
    assert_eq!(mf.fund_name.as_deref(), Some("F"));
    assert_eq!(mf.actual_12b1_fee.as_ref().and_then(|n| n.as_f64()), Some(0.25));
    assert_eq!(mf.monthly_trailing_return_ytd.as_ref().and_then(|n| n.as_f64()), Some(3.0));
    assert_eq!(mf.net_assets.as_ref().unwrap().as_of_date, Some(99));
    let red = mf.redemption.as_ref().unwrap();
    assert_eq!(red.min_month.as_deref(), Some("3"));
    assert_eq!(red.sales_values.len(), 2);
    assert_eq!(red.sales_values[0].percent.as_deref(), Some("2"));
    assert!(red.sales_values[1].low.is_none());
    assert!(red.front_end_values.is_empty());
    assert_eq!(mf.deferred_sales_changes.len(), 1);
    assert_eq!(mf.deferred_sales_changes[0].lowhigh.as_deref(), Some("0-1"));
    assert!(mf.frontend_sales_changes.is_empty());
}

#[test]
fn missing_envelope_is_an_error() {
    for doc in [r#"{}"#, r#"{"QuoteData": []}"#, r#"[1, 2]"#, r#"{"OptionExpireDateResponse": {}}"#] {
        match decode_quote_response(&parse(doc)) {
            Err(DecodeError::MissingEnvelope { envelope }) => assert_eq!(envelope, "QuoteResponse"),
            other => panic!("expected a missing envelope, got {:?}", other),
        }
    }
    match decode_expiration_response(&parse(r#"{"QuoteResponse": {}}"#)) {
        Err(DecodeError::MissingEnvelope { envelope }) => assert_eq!(envelope, "OptionExpireDateResponse"),
        other => panic!("expected a missing envelope, got {:?}", other),
    }
}

#[test]
fn empty_payload_is_an_empty_result() {
    let r = decode_quote_response(&parse(r#"{"QuoteResponse": {}}"#)).unwrap();
    assert!(r.quote_data.is_empty());
    assert!(r.messages.is_empty());
    let r = decode_quote_response(&parse(r#"{"QuoteResponse": {"QuoteData": null}}"#)).unwrap();
    assert!(r.quote_data.is_empty());
}

#[test]
fn wrong_shapes_are_structure_errors() {
    let cases = [
        (r#"{"QuoteResponse": []}"#, "QuoteResponse"),
        (r#"{"QuoteResponse": {"QuoteData": {}}}"#, "QuoteData"),
        (r#"{"QuoteResponse": {"QuoteData": [{}, 3]}}"#, "QuoteData"),
    ];
    for (doc, member) in cases {
        match decode_quote_response(&parse(doc)) {
            Err(DecodeError::Structure { field }) => assert_eq!(field, member),
            other => panic!("expected a structure error, got {:?}", other),
        }
    }
    match decode_expiration_response(&parse(r#"{"OptionExpireDateResponse": {"ExpirationDate": [1]}}"#)) {
        Err(DecodeError::Structure { field }) => assert_eq!(field, "ExpirationDate"),
        other => panic!("expected a structure error, got {:?}", other),
    }
    match decode_expiration_response(&parse(r#"{"OptionExpireDateResponse": "x"}"#)) {
        Err(DecodeError::Structure { field }) => assert_eq!(field, "OptionExpireDateResponse"),
        other => panic!("expected a structure error, got {:?}", other),
    }
}

#[test]
fn after_hours_flag_accepts_every_encoding() {
    for raw in ["true", r#""true""#, r#""1""#, r#""TRUE""#, r#""yes""#, r#""Yes""#] {
        assert_eq!(flexible_bool(&parse(raw), "ahFlag").unwrap(), Some(true), "{}", raw);
    }
    for raw in ["false", r#""false""#, r#""0""#, r#""no""#, r#""FALSE""#] {
        assert_eq!(flexible_bool(&parse(raw), "ahFlag").unwrap(), Some(false), "{}", raw);
    }
    assert_eq!(flexible_bool(&parse("null"), "ahFlag").unwrap(), None);
}

#[test]
fn after_hours_flag_rejects_other_values() {
    match flexible_bool(&parse(r#""maybe""#), "ahFlag") {
        Err(DecodeError::InvalidBooleanEncoding { field, raw }) => {
            assert_eq!(field, "ahFlag");
            assert_eq!(raw, "maybe");
        }
        other => panic!("expected an encoding error, got {:?}", other),
    }
    match flexible_bool(&parse("5"), "ahFlag") {
        Err(DecodeError::InvalidBooleanEncoding { raw, .. }) => assert_eq!(raw, "5"),
        other => panic!("expected an encoding error, got {:?}", other),
    }
    match flexible_bool(&parse(r#"[true]"#), "ahFlag") {
        Err(DecodeError::InvalidBooleanEncoding { raw, .. }) => assert_eq!(raw, "[true]"),
        other => panic!("expected an encoding error, got {:?}", other),
    }
}

#[test]
fn after_hours_flag_inside_a_record() {
    let ok = r#"{"QuoteResponse":{"QuoteData":[{"ahFlag":"TRUE"},{"ahFlag":false},{}]}}"#;
    let r = decode_quote_response(&parse(ok)).unwrap();
    assert_eq!(r.quote_data[0].ah_flag, Some(true));
    assert_eq!(r.quote_data[1].ah_flag, Some(false));
    assert_eq!(r.quote_data[2].ah_flag, None);
    let bad = r#"{"QuoteResponse":{"QuoteData":[{"ahFlag":1},{"ahFlag":"maybe"}]}}"#;
    match decode_quote_response(&parse(bad)) {
        Err(DecodeError::InvalidBooleanEncoding { field, raw }) => {
            assert_eq!(field, "ahFlag");
            assert_eq!(raw, "1");
        }
        other => panic!("expected an encoding error, got {:?}", other),
    }
    let bad = r#"{"QuoteResponse":{"QuoteData":[{"ahFlag":"true"},{"ahFlag":"maybe"}]}}"#;
    match decode_quote_response(&parse(bad)) {
        Err(DecodeError::InvalidBooleanEncoding { field, raw }) => {
            assert_eq!(field, "ahFlag");
            assert_eq!(raw, "maybe");
        }
        other => panic!("expected an encoding error, got {:?}", other),
    }
}

#[test]
fn boolean_words() {
    assert_eq!(coerce_bool_text("tRuE"), Some(true));
    assert_eq!(coerce_bool_text("NO"), Some(false));
    assert_eq!(coerce_bool_text("0"), Some(false));
    assert_eq!(coerce_bool_text("yess"), None);
    assert_eq!(coerce_bool_text(""), None);
    assert_eq!(coerce_bool_text("2"), None);
}

#[test]
fn requested_detail_alone_decodes_for_every_flag() {
    for key in ["All", "fundamental", "intraday", "option", "week52", "MutualFund"] {
        let doc = format!(r#"{{"QuoteResponse":{{"QuoteData":[{{"{}":{{"companyName":"C"}}}}]}}}}"#, key);
        let r = decode_quote_response(&parse(&doc)).unwrap();
        assert_eq!(r.quote_data.len(), 1, "{}", key);
    }
}

#[test]
fn symbol_count_limits() {
    let one = ["IBM"];
    assert!(build_quote_request(&one, None).is_ok());
    let many: Vec<String> = (0..25).map(|i| format!("S{}", i)).collect();
    let refs: Vec<&str> = many.iter().map(|s| s.as_str()).collect();
    assert!(build_quote_request(&refs, None).is_ok());
    let many: Vec<String> = (0..26).map(|i| format!("S{}", i)).collect();
    let refs: Vec<&str> = many.iter().map(|s| s.as_str()).collect();
    assert_eq!(build_quote_request(&refs, None).unwrap_err(), ValidationError::TooManySymbols { count: 26 });
    assert_eq!(build_quote_request(&[], None).unwrap_err(), ValidationError::NoSymbols);
}

#[test]
fn symbols_joined_in_order_without_dedup() {
    let q = build_quote_request(&["MSFT", "AAPL", "MSFT", "A"], None).unwrap();
    assert_eq!(q.path, "/v1/market/quote/MSFT,AAPL,MSFT,A");
    assert!(q.params.is_empty());
}

#[test]
fn quote_options_become_query_pairs() {
    let params = GetQuotesRequest {
        detail_flag: Some(DetailFlag::WEEK_52),
        require_earnings_date: Some(true),
        override_symbol_count: None,
        skip_mini_options_check: Some(false),
    };
    let q = build_quote_request(&["GOOG"], Some(params)).unwrap();
    assert_eq!(q.path, "/v1/market/quote/GOOG");
    assert_eq!(
        q.params,
        pairs(&[("detailFlag", "WEEK_52"), ("requireEarningsDate", "true"), ("skipMiniOptionsCheck", "false")])
    );
    let q = build_quote_request(&["GOOG"], Some(GetQuotesRequest::default())).unwrap();
    assert!(q.params.is_empty());
    assert_eq!(DetailFlag::default(), DetailFlag::ALL);
    assert_eq!(DetailFlag::MF_DETAIL.wire_name(), "MF_DETAIL");
}

#[test]
fn expiration_request_defaults_to_all() {
    let q = build_expiration_request(&GetOptionExpireDatesRequest { symbol: "SPY".to_string(), expiry_type: None });
    assert_eq!(q.path, "/v1/market/optionexpiredate");
    assert_eq!(q.params, pairs(&[("symbol", "SPY"), ("expiryType", "ALL")]));
    let q = build_expiration_request(&GetOptionExpireDatesRequest {
        symbol: "VIX".to_string(),
        expiry_type: Some(ExpiryType::MonthEnd),
    });
    assert_eq!(q.params, pairs(&[("symbol", "VIX"), ("expiryType", "MONTHEND")]));
    assert_eq!(ExpiryType::default(), ExpiryType::All);
    assert!(GetOptionExpireDatesRequest::default().symbol.is_empty());
}

#[test]
fn expiration_dates_decode_in_order() {
    let doc = r#"{"OptionExpireDateResponse":{"ExpirationDate":[
        {"year":2024,"month":1,"day":19,"expiryType":"MONTHLY"},
        {"year":2024,"month":2},
        {"year":-1,"month":12,"day":31,"expiryType":7}]}}"#;
    let r = decode_expiration_response(&parse(doc)).unwrap();
    assert_eq!(r.expiration_dates.len(), 3);
    let d = &r.expiration_dates[0];
    assert_eq!((d.year, d.month, d.day), (2024, 1, 19));
    assert_eq!(d.expiry_type.as_deref(), Some("MONTHLY"));
    let d = &r.expiration_dates[1];
    assert_eq!((d.year, d.month, d.day), (2024, 2, 0));
    assert!(d.expiry_type.is_none());
    let d = &r.expiration_dates[2];
    assert_eq!((d.year, d.month, d.day), (-1, 12, 31));
    assert!(d.expiry_type.is_none());
    assert!(r.messages.is_empty());
}

#[test]
fn malformed_date_fields_fail_the_call() {
    let cases = [
        (r#"{"year":"2024","month":1,"day":19}"#, "year"),
        (r#"{"year":99999999999,"month":1,"day":19}"#, "year"),
        (r#"{"year":2024,"month":1.5,"day":"x"}"#, "month"),
        (r#"{"year":2024,"month":1,"day":null}"#, "day"),
    ];
    for (date, member) in cases {
        let doc = format!(
            r#"{{"OptionExpireDateResponse":{{"ExpirationDate":[{{"year":2024,"month":3,"day":1}},{}]}}}}"#,
            date
        );
        match decode_expiration_response(&parse(&doc)) {
            Err(DecodeError::Structure { field }) => assert_eq!(field, member, "{}", date),
            other => panic!("expected a structure error, got {:?}", other),
        }
    }
    match decode_expiration_response(&parse(r#"{"OptionExpireDateResponse":{"ExpirationDate":"oops"}}"#)) {
        Err(DecodeError::Structure { field }) => assert_eq!(field, "ExpirationDate"),
        other => panic!("expected a structure error, got {:?}", other),
    }
}

#[test]
fn api_keeps_its_session() {
    let api = Api::new(7u32);
    assert_eq!(*api.session(), 7);
}
