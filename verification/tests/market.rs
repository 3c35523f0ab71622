use stooq_mcp::Market;

#[test]
fn test_market_deserialize() {
    let code: String = serde_json::from_str(r#""jp""#).unwrap();
    let jp: Market = Market::from_code(&code).unwrap();
    assert_eq!(jp, Market::Jp);

    let code: String = serde_json::from_str(r#""us""#).unwrap();
    let us: Market = Market::from_code(&code).unwrap();
    assert_eq!(us, Market::Us);
}

#[test]
fn every_code_decodes_to_its_market() {
    assert_eq!(Market::from_code("jp"), Some(Market::Jp));
    assert_eq!(Market::from_code("us"), Some(Market::Us));
    assert_eq!(Market::from_code("uk"), Some(Market::Uk));
    assert_eq!(Market::from_code("hk"), Some(Market::Hk));
    assert_eq!(Market::from_code("de"), Some(Market::De));
}

#[test]
fn code_round_trips_through_decoding() {
    for market in [Market::Jp, Market::Us, Market::Uk, Market::Hk, Market::De] {
        assert_eq!(Market::from_code(market.as_str()), Some(market));
    }
}

#[test]
fn codes_are_distinct() {
    let markets = [Market::Jp, Market::Us, Market::Uk, Market::Hk, Market::De];
    for a in markets {
        for b in markets {
            assert_eq!(a.as_str() == b.as_str(), a == b);
        }
    }
}

#[test]
fn codes_are_two_lowercase_letters() {
    for market in [Market::Jp, Market::Us, Market::Uk, Market::Hk, Market::De] {
        let code = market.as_str();
        assert_eq!(code.chars().count(), 2);
        assert!(code.chars().all(|c| c.is_ascii_lowercase()));
    }
}

#[test]
fn unknown_codes_are_turned_down() {
    assert_eq!(Market::from_code(""), None);
    assert_eq!(Market::from_code("j"), None);
    assert_eq!(Market::from_code("jpx"), None);
    assert_eq!(Market::from_code("fr"), None);
    assert_eq!(Market::from_code("pj"), None);
    assert_eq!(Market::from_code("ud"), None);
}

#[test]
fn decoding_is_case_sensitive() {
    assert_eq!(Market::from_code("JP"), None);
    assert_eq!(Market::from_code("Us"), None);
    assert_eq!(Market::from_code("uK"), None);
}

#[test]
fn decoding_does_not_trim() {
    assert_eq!(Market::from_code(" jp"), None);
    assert_eq!(Market::from_code("jp "), None);
    assert_eq!(Market::from_code("\"jp\""), None);
}

#[test]
fn decoding_counts_characters_not_bytes() {
    assert_eq!(Market::from_code("ｊｐ"), None);
    assert_eq!(Market::from_code("é"), None);
    assert_eq!(Market::from_code("dé"), None);
}
