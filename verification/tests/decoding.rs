use coinmarket::{decode_global, decode_symbols, global_from_json, symbols_from_json};
use coinmarket::{DecodeError, Json};

#[test]
pub fn parsing_ticker_example_should_work() {
    let example_content = r#"[
    {
        "id": "bitcoin",
        "name": "Bitcoin",
        "symbol": "BTC",
        "rank": "1",
        "price_usd": "8667.49",
        "price_btc": "1.0",
        "24h_volume_usd": "4899070000.0",
        "market_cap_usd": "146819479859",
        "available_supply": "16939100.0",
        "total_supply": "16939100.0",
        "max_supply": "21000000.0",
        "percent_change_1h": "1.07",
        "percent_change_24h": "-3.06",
        "percent_change_7d": "12.03",
        "last_updated": "1522004666",
        "price_eur": "7013.94959525",
        "24h_volume_eur": "3964449920.75",
        "market_cap_eur": "118809993589"
    },
    {
        "id": "ethereum",
        "name": "Ethereum",
        "symbol": "ETH",
        "rank": "2",
        "price_usd": "529.528",
        "price_btc": "0.0613264",
        "24h_volume_usd": "1182010000.0",
        "market_cap_usd": "52111526356.0",
        "available_supply": "98411276.0",
        "total_supply": "98411276.0",
        "max_supply": null,
        "percent_change_1h": "1.31",
        "percent_change_24h": "-1.53",
        "percent_change_7d": "5.64",
        "last_updated": "1522004652",
        "price_eur": "428.5072958",
        "24h_volume_eur": "956512042.25",
        "market_cap_eur": "42169949915.0"
    }
]
"#;
    match decode_symbols(example_content) {
        Ok(symbols) => {
            assert_eq!(2, symbols.len());
        }
        Err(e) => {
            panic!("{:?}", e);
        }
    };
}

#[test]
pub fn parsing_global_example_should_work() {
    let example_content = r#"
        {
            "active_assets": 677,
            "active_currencies": 919,
            "active_markets": 9914,
            "bitcoin_percentage_of_market_cap": 45.41,
            "last_updated": 1522597167,
            "total_24h_volume_eur": 8326584597.0,
            "total_24h_volume_usd": 10267058689.0,
            "total_market_cap_eur": 198469129734.0,
            "total_market_cap_usd": 244721491658.0
        }"#;
    match decode_global(example_content) {
        Ok(global) => {
            assert_eq!(677, global.active_assets);
        }
        Err(e) => {
            panic!("{:?}", e);
        }
    };
}

#[test]
fn single_symbol_decodes_exactly() {
    let text = r#"[{"id":"bitcoin","name":"Bitcoin","symbol":"BTC","rank":"1","price_usd":"8667.49","price_btc":"1.0","price_eur":"7013.94959525","market_cap_usd":"146819479859","market_cap_eur":"118809993589"}]"#;
    let symbols = decode_symbols(text).unwrap();
    assert_eq!(1, symbols.len());
    let s = &symbols[0];
    assert_eq!("bitcoin", s.id);
    assert_eq!("Bitcoin", s.name);
    assert_eq!("BTC", s.symbol);
    assert_eq!(1, s.rank);
    assert_eq!("8667.49", s.price_usd);
    assert_eq!(8667.49, s.price_usd.parse::<f64>().unwrap());
    assert_eq!(1.0, s.price_btc.parse::<f64>().unwrap());
    assert_eq!(7013.94959525, s.price_eur.parse::<f64>().unwrap());
    assert_eq!(146819479859.0, s.market_cap_usd.parse::<f64>().unwrap());
    assert_eq!(118809993589.0, s.market_cap_eur.parse::<f64>().unwrap());
}

#[test]
fn global_decodes_exactly() {
    let text = r#"{"active_assets":677,"active_currencies":919,"active_markets":9914,"bitcoin_percentage_of_market_cap":45.41,"total_24h_volume_eur":8326584597.0,"total_24h_volume_usd":10267058689.0,"total_market_cap_eur":198469129734.0,"total_market_cap_usd":244721491658.0}"#;
    let g = decode_global(text).unwrap();
    assert_eq!(677, g.active_assets);
    assert_eq!(919, g.active_currencies);
    assert_eq!(9914, g.active_markets);
    assert_eq!(45.41, g.bitcoin_percentage_of_market_cap.parse::<f64>().unwrap());
    assert_eq!(8326584597.0, g.total_24h_volume_eur.parse::<f64>().unwrap());
    assert_eq!(10267058689.0, g.total_24h_volume_usd.parse::<f64>().unwrap());
    assert_eq!(198469129734.0, g.total_market_cap_eur.parse::<f64>().unwrap());
    assert_eq!(244721491658.0, g.total_market_cap_usd.parse::<f64>().unwrap());
}

#[test]
fn symbols_keep_source_order() {
    let text = r#"[
        {"id":"a","name":"A","symbol":"AAA","rank":"3","price_usd":"1.0","price_btc":"0.1","price_eur":"0.9","market_cap_usd":"10","market_cap_eur":"9"},
        {"id":"b","name":"B","symbol":"BBB","rank":"1","price_usd":"2.0","price_btc":"0.2","price_eur":"1.8","market_cap_usd":"20","market_cap_eur":"18"},
        {"id":"c","name":"C","symbol":"CCC","rank":"2","price_usd":"3.0","price_btc":"0.3","price_eur":"2.7","market_cap_usd":"30","market_cap_eur":"27"}
    ]"#;
    let symbols = decode_symbols(text).unwrap();
    assert_eq!(3, symbols.len());
    assert_eq!("a", symbols[0].id);
    assert_eq!("b", symbols[1].id);
    assert_eq!("c", symbols[2].id);
    assert_eq!(3, symbols[0].rank);
    assert_eq!(1, symbols[1].rank);
    assert_eq!(2, symbols[2].rank);
}

#[test]
fn empty_array_is_empty_list() {
    let symbols = decode_symbols("[]").unwrap();
    assert_eq!(0, symbols.len());
}

#[test]
fn invalid_rank_string_names_the_field() {
    let text = r#"[{"id":"x","name":"X","symbol":"X","rank":"abc","price_usd":"1.0","price_btc":"1.0","price_eur":"1.0","market_cap_usd":"1.0","market_cap_eur":"1.0"}]"#;
    match decode_symbols(text) {
        Err(DecodeError::BadNumber(field, value)) => {
            assert_eq!("rank", field);
            assert_eq!("abc", value);
        }
        other => panic!("expected a bad-number error, got {:?}", other),
    }
}

#[test]
fn null_rank_is_rejected() {
    let text = r#"[{"id":"x","name":"X","symbol":"X","rank":null,"price_usd":"1.0","price_btc":"1.0","price_eur":"1.0","market_cap_usd":"1.0","market_cap_eur":"1.0"}]"#;
    match decode_symbols(text) {
        Err(DecodeError::WrongKind(field, kind)) => {
            assert_eq!("rank", field);
            assert_eq!("null", kind);
        }
        other => panic!("expected a wrong-kind error, got {:?}", other),
    }
}

#[test]
fn native_number_rank_is_rejected() {
    let text = r#"[{"id":"x","name":"X","symbol":"X","rank":1,"price_usd":"1.0","price_btc":"1.0","price_eur":"1.0","market_cap_usd":"1.0","market_cap_eur":"1.0"}]"#;
    match decode_symbols(text) {
        Err(DecodeError::WrongKind(field, kind)) => {
            assert_eq!("rank", field);
            assert_eq!("number", kind);
        }
        other => panic!("expected a wrong-kind error, got {:?}", other),
    }
}

#[test]
fn non_numeric_price_is_rejected() {
    let text = r#"[{"id":"x","name":"X","symbol":"X","rank":"1","price_usd":"soon","price_btc":"1.0","price_eur":"1.0","market_cap_usd":"1.0","market_cap_eur":"1.0"}]"#;
    match decode_symbols(text) {
        Err(DecodeError::BadNumber(field, value)) => {
            assert_eq!("price_usd", field);
            assert_eq!("soon", value);
        }
        other => panic!("expected a bad-number error, got {:?}", other),
    }
}

#[test]
fn missing_field_names_the_field() {
    let text = r#"[{"name":"X","symbol":"X","rank":"1","price_usd":"1.0","price_btc":"1.0","price_eur":"1.0","market_cap_usd":"1.0","market_cap_eur":"1.0"}]"#;
    match decode_symbols(text) {
        Err(DecodeError::MissingField(field)) => {
            assert_eq!("id", field);
        }
        other => panic!("expected a missing-field error, got {:?}", other),
    }
}

#[test]
fn quoted_global_integer_is_rejected() {
    let text = r#"{"active_assets":"677","active_currencies":919,"active_markets":9914,"bitcoin_percentage_of_market_cap":45.41,"total_24h_volume_eur":1.0,"total_24h_volume_usd":1.0,"total_market_cap_eur":1.0,"total_market_cap_usd":1.0}"#;
    match decode_global(text) {
        Err(DecodeError::WrongKind(field, kind)) => {
            assert_eq!("active_assets", field);
            assert_eq!("string", kind);
        }
        other => panic!("expected a wrong-kind error, got {:?}", other),
    }
}

#[test]
fn malformed_json_is_a_syntax_error() {
    assert!(matches!(decode_symbols("not json"), Err(DecodeError::Syntax)));
    assert!(matches!(decode_global("{"), Err(DecodeError::Syntax)));
}

#[test]
fn wrong_document_shapes_are_rejected() {
    assert!(matches!(decode_symbols("{}"), Err(DecodeError::NotArray)));
    assert!(matches!(decode_global("[]"), Err(DecodeError::NotObject)));
    assert!(matches!(decode_symbols("[1]"), Err(DecodeError::NotObject)));
}

fn sample_symbol_fields() -> Vec<(String, Json)> {
    vec![
        ("id".to_string(), Json::Str("litecoin".to_string())),
        ("name".to_string(), Json::Str("Litecoin".to_string())),
        ("symbol".to_string(), Json::Str("LTC".to_string())),
        ("rank".to_string(), Json::Str("6".to_string())),
        ("price_usd".to_string(), Json::Str("141.234".to_string())),
        ("price_btc".to_string(), Json::Str("0.0162".to_string())),
        ("price_eur".to_string(), Json::Str("114.1".to_string())),
        ("market_cap_usd".to_string(), Json::Str("7.8e9".to_string())),
        ("market_cap_eur".to_string(), Json::Str("6.3e9".to_string())),
    ]
}

#[test]
fn decoding_a_built_json_value_works() {
    let value = Json::Arr(vec![Json::Obj(sample_symbol_fields())]);
    let symbols = symbols_from_json(&value).unwrap();
    assert_eq!(1, symbols.len());
    assert_eq!("litecoin", symbols[0].id);
    assert_eq!(6, symbols[0].rank);
    assert_eq!("7.8e9", symbols[0].market_cap_usd);
}

#[test]
fn global_from_built_json_value_works() {
    let value = Json::Obj(vec![
        ("active_assets".to_string(), Json::Num("677".to_string())),
        ("active_currencies".to_string(), Json::Num("919".to_string())),
        ("active_markets".to_string(), Json::Num("9914".to_string())),
        (
            "bitcoin_percentage_of_market_cap".to_string(),
            Json::Num("45.41".to_string()),
        ),
        ("total_24h_volume_eur".to_string(), Json::Num("8326584597.0".to_string())),
        ("total_24h_volume_usd".to_string(), Json::Num("10267058689.0".to_string())),
        ("total_market_cap_eur".to_string(), Json::Num("198469129734.0".to_string())),
        ("total_market_cap_usd".to_string(), Json::Num("244721491658.0".to_string())),
    ]);
    let g = global_from_json(&value).unwrap();
    assert_eq!(677, g.active_assets);
    assert_eq!("45.41", g.bitcoin_percentage_of_market_cap);
}

#[test]
fn duplicate_keys_keep_the_last_binding() {
    let text = r#"{"active_assets":1,"active_assets":677,"active_currencies":919,"active_markets":9914,"bitcoin_percentage_of_market_cap":45.41,"total_24h_volume_eur":1.0,"total_24h_volume_usd":1.0,"total_market_cap_eur":1.0,"total_market_cap_usd":1.0}"#;
    let g = decode_global(text).unwrap();
    assert_eq!(677, g.active_assets);
}
