use upbit_ticker::catalog::{catalog_subscription, market_codes, MarketDescriptor};
use upbit_ticker::feed::{FeedAction, FeedEvent, FeedSession};
use upbit_ticker::subscription::{default_subscription, subscription_text};

fn markets_from_json(text: &str) -> Vec<MarketDescriptor> {
    let v: serde_json::Value = serde_json::from_str(text).unwrap();
    v.as_array()
        .unwrap()
        .iter()
        .map(|m| MarketDescriptor {
            market: m["market"].as_str().unwrap().to_string(),
            korean_name: m["korean_name"].as_str().unwrap().to_string(),
            english_name: m["english_name"].as_str().unwrap().to_string(),
        })
        .collect()
}

#[test]
fn default_subscription_text_is_exact() {
    assert_eq!(
        default_subscription(),
        r#"[{"ticket":"test"},{"type":"ticker","codes":["KRW-BTC"]}]"#
    );
}

#[test]
fn default_session_sends_default_subscription() {
    let mut s = FeedSession::with_default_subscription();
    match s.handle(FeedEvent::Connected) {
        FeedAction::SendSubscription(t) => {
            assert_eq!(t, r#"[{"ticket":"test"},{"type":"ticker","codes":["KRW-BTC"]}]"#)
        }
        _ => panic!("expected a subscription to send"),
    }
}

#[test]
fn subscription_escapes_ticket_and_codes() {
    let codes = vec!["A\"B".to_string(), "C\\D".to_string(), "E".to_string()];
    assert_eq!(
        subscription_text("t\"k", &codes),
        r#"[{"ticket":"t\"k"},{"type":"ticker","codes":["A\"B","C\\D","E"]}]"#
    );
}

#[test]
fn subscription_with_no_codes() {
    assert_eq!(
        subscription_text("x", &Vec::new()),
        r#"[{"ticket":"x"},{"type":"ticker","codes":[]}]"#
    );
}

#[test]
fn catalog_response_gives_codes() {
    let markets = markets_from_json(
        r#"[{"market":"KRW-BTC","korean_name":"비트코인","english_name":"Bitcoin"}]"#,
    );
    let text = catalog_subscription(&markets);
    assert!(text.contains(r#""codes":["KRW-BTC"]"#));
    assert_eq!(
        text,
        r#"[{"ticket":"550e8400-e29b-41d4-a716-446655440000"},{"type":"ticker","codes":["KRW-BTC"]}]"#
    );
}

#[test]
fn catalog_codes_keep_order() {
    let markets = markets_from_json(
        r#"[{"market":"KRW-BTC","korean_name":"a","english_name":"Bitcoin"},
            {"market":"KRW-ETH","korean_name":"b","english_name":"Ethereum"},
            {"market":"BTC-XRP","korean_name":"c","english_name":"Ripple"}]"#,
    );
    assert_eq!(market_codes(&markets), vec!["KRW-BTC", "KRW-ETH", "BTC-XRP"]);
    assert!(catalog_subscription(&markets).contains(r#""codes":["KRW-BTC","KRW-ETH","BTC-XRP"]"#));
    assert!(catalog_subscription(&Vec::new()).ends_with(r#""codes":[]}]"#));
}
