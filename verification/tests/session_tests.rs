use trading_sessions::IdentifyTradingSession;
use trading_sessions::SessionLabel;
use trading_sessions::SessionVerification;
use trading_sessions::classify_hour;
use trading_sessions::hour_of_day;

fn timestamp_at_hour(hour: u32) -> u32 {
    1_708_560_000 + hour * 3600
}

fn expected_label(hour: u32) -> &'static str {
    if hour <= 6 {
        "Tokyo"
    } else if hour <= 8 {
        "Tokyo_London"
    } else if hour <= 12 {
        "London"
    } else if hour <= 15 {
        "London_NewYork"
    } else if hour <= 21 {
        "NewYork"
    } else {
        "Undefined"
    }
}

#[test]
fn hour_of_day_of_documented_timestamps() {
    assert_eq!(hour_of_day(1_708_574_400), 4);
    assert_eq!(hour_of_day(1_708_596_000), 10);
    assert_eq!(hour_of_day(1_708_696_800), 14);
    assert_eq!(hour_of_day(0), 0);
    assert_eq!(hour_of_day(86_399), 23);
    assert_eq!(hour_of_day(86_400), 0);
    assert_eq!(hour_of_day(u32::MAX), 6);
}

#[test]
fn documented_scenario_timestamps_classify() {
    let s = IdentifyTradingSession::new(1_708_574_400);
    assert_eq!(s.identify_trading_session(), "Tokyo");
    let s = IdentifyTradingSession::new(1_708_596_000);
    assert_eq!(s.identify_trading_session(), "London");
    let s = IdentifyTradingSession::new(1_708_696_800);
    assert_eq!(s.identify_trading_session(), "London_NewYork");
}

#[test]
fn every_hour_range_classifies_to_its_label() {
    for hour in 0u32..24 {
        let s = IdentifyTradingSession::new(timestamp_at_hour(hour));
        assert_eq!(s.identify_trading_session(), expected_label(hour));
    }
}

#[test]
fn late_hours_classify_undefined() {
    let s = IdentifyTradingSession::new(timestamp_at_hour(22));
    assert_eq!(s.identify_trading_session(), "Undefined");
    let s = IdentifyTradingSession::new(timestamp_at_hour(23));
    assert_eq!(s.identify_trading_session(), "Undefined");
}

#[test]
fn classification_is_day_periodic() {
    for &base in &[0u32, 1_708_574_400, 1_708_596_000, 86_399] {
        let one_day = IdentifyTradingSession::new(base).identify_trading_session();
        for k in 1u32..4 {
            let shifted = IdentifyTradingSession::new(base + k * 86_400);
            assert_eq!(shifted.identify_trading_session(), one_day);
        }
    }
}

#[test]
fn verify_accepts_the_classified_label() {
    let v = SessionVerification::new(1_708_574_400, "Tokyo".to_string());
    assert!(v.verify());
    let v = SessionVerification::new(1_708_696_800, "London_NewYork".to_string());
    assert!(v.verify());
}

#[test]
fn verify_rejects_a_plausible_wrong_label() {
    let v = SessionVerification::new(1_708_574_400, "London".to_string());
    assert!(!v.verify());
    let v = SessionVerification::new(1_708_596_000, "Tokyo".to_string());
    assert!(!v.verify());
}

#[test]
fn verify_rejects_text_outside_the_label_set() {
    let v = SessionVerification::new(1_708_574_400, "tokyo".to_string());
    assert!(!v.verify());
    let v = SessionVerification::new(1_708_574_400, String::new());
    assert!(!v.verify());
    let v = SessionVerification::new(timestamp_at_hour(22), "hello".to_string());
    assert!(!v.verify());
}

#[test]
fn verify_agrees_with_classify_on_every_hour() {
    for hour in 0u32..24 {
        let ts = timestamp_at_hour(hour);
        for claim in [
            "Tokyo",
            "Tokyo_London",
            "London",
            "London_NewYork",
            "NewYork",
            "Undefined",
        ] {
            let v = SessionVerification::new(ts, claim.to_string());
            let classified = IdentifyTradingSession::new(ts).identify_trading_session();
            assert_eq!(v.verify(), classified == claim);
        }
    }
}

#[test]
fn classify_hour_yields_the_enum_label_at_each_boundary() {
    assert_eq!(classify_hour(0), SessionLabel::Tokyo);
    assert_eq!(classify_hour(6), SessionLabel::Tokyo);
    assert_eq!(classify_hour(7), SessionLabel::TokyoLondon);
    assert_eq!(classify_hour(8), SessionLabel::TokyoLondon);
    assert_eq!(classify_hour(9), SessionLabel::London);
    assert_eq!(classify_hour(12), SessionLabel::London);
    assert_eq!(classify_hour(13), SessionLabel::LondonNewYork);
    assert_eq!(classify_hour(15), SessionLabel::LondonNewYork);
    assert_eq!(classify_hour(16), SessionLabel::NewYork);
    assert_eq!(classify_hour(21), SessionLabel::NewYork);
    assert_eq!(classify_hour(22), SessionLabel::Undefined);
    assert_eq!(classify_hour(23), SessionLabel::Undefined);
    assert_eq!(classify_hour(7).to_text(), "Tokyo_London");
}
