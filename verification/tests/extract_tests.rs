use masp_rewards::error::CrawlError;
use masp_rewards::extract::{
    check_coefficients, extract, record_from_entry, RawRewardEntry, RawRewardSnapshot,
};
use masp_rewards::masp::{check_digit_string, Amount, Id};

fn entry(token: &str, rate: &str, kp: &str, kd: &str, target: &str) -> RawRewardEntry {
    RawRewardEntry {
        token: token.to_string(),
        max_reward_rate: rate.to_string(),
        kp_gain: kp.to_string(),
        kd_gain: kd.to_string(),
        locked_amount_target: target.to_string(),
    }
}

#[test]
fn extract_keeps_text_verbatim_and_in_order() {
    let raw = RawRewardSnapshot {
        entries: vec![
            entry("tnam1b", "0.0100", "120000", "-1.5", "0007"),
            entry("tnam1a", "1e-3", "+2", "0", "340282366920938463463374607431768211456000"),
        ],
    };
    let records = extract(raw).unwrap();
    assert_eq!(records.len(), 2);
    assert!(matches!(records[0].address, Id::Account(ref t) if t == "tnam1b"));
    assert_eq!(records[0].max_reward_rate, "0.0100");
    assert_eq!(records[0].kp_gain, "120000");
    assert_eq!(records[0].kd_gain, "-1.5");
    assert_eq!(records[0].locked_amount_target.to_string(), "0007");
    assert!(matches!(records[1].address, Id::Account(ref t) if t == "tnam1a"));
    assert_eq!(records[1].max_reward_rate, "1e-3");
    assert_eq!(
        records[1].locked_amount_target.to_string(),
        "340282366920938463463374607431768211456000"
    );
}

#[test]
fn extract_of_empty_snapshot_is_empty() {
    let records = extract(RawRewardSnapshot { entries: vec![] }).unwrap();
    assert!(records.is_empty());
}

#[test]
fn extract_rejects_non_numeric_coefficient() {
    for bad in ["abc", "", "0.1x", "1.2.3", "NaN", " 1", "0,1"] {
        let raw = RawRewardSnapshot { entries: vec![entry("t", bad, "1", "1", "1")] };
        assert_eq!(extract(raw).err(), Some(CrawlError::MalformedData), "{:?}", bad);
        let raw = RawRewardSnapshot { entries: vec![entry("t", "1", bad, "1", "1")] };
        assert_eq!(extract(raw).err(), Some(CrawlError::MalformedData), "{:?}", bad);
        let raw = RawRewardSnapshot { entries: vec![entry("t", "1", "1", bad, "1")] };
        assert_eq!(extract(raw).err(), Some(CrawlError::MalformedData), "{:?}", bad);
    }
}

#[test]
fn extract_rejects_non_integer_amount() {
    for bad in ["", "-1", "1.0", "12a", "1e3", "+5", " 7", "１２"] {
        let raw = RawRewardSnapshot { entries: vec![entry("t", "1", "1", "1", bad)] };
        assert_eq!(extract(raw).err(), Some(CrawlError::MalformedData), "{:?}", bad);
    }
}

#[test]
fn one_malformed_entry_rejects_the_whole_snapshot() {
    let raw = RawRewardSnapshot {
        entries: vec![
            entry("a", "1", "1", "1", "1"),
            entry("b", "1", "oops", "1", "1"),
            entry("c", "1", "1", "1", "1"),
        ],
    };
    assert_eq!(extract(raw).err(), Some(CrawlError::MalformedData));
}

#[test]
fn check_coefficients_asks_about_all_three() {
    assert!(check_coefficients(&entry("t", "0.1", "2", "3e5", "ignored")));
    assert!(!check_coefficients(&entry("t", "x", "2", "3", "1")));
    assert!(!check_coefficients(&entry("t", "1", "x", "3", "1")));
    assert!(!check_coefficients(&entry("t", "1", "2", "x", "1")));
}

#[test]
fn record_from_entry_follows_the_verdict() {
    let ok = record_from_entry(entry("t", "a", "b", "c", "15"), true).unwrap();
    assert_eq!(ok.max_reward_rate, "a");
    assert_eq!(ok.kp_gain, "b");
    assert_eq!(ok.kd_gain, "c");
    assert_eq!(ok.locked_amount_target.to_string(), "15");
    assert_eq!(
        record_from_entry(entry("t", "1", "1", "1", "15"), false).err(),
        Some(CrawlError::MalformedData)
    );
    assert_eq!(
        record_from_entry(entry("t", "1", "1", "1", "x"), true).err(),
        Some(CrawlError::MalformedData)
    );
}

#[test]
fn digit_strings() {
    assert!(check_digit_string("0"));
    assert!(check_digit_string("0123456789"));
    assert!(!check_digit_string(""));
    assert!(!check_digit_string("12 "));
    assert!(!check_digit_string("/"));
    assert!(!check_digit_string(":"));
    assert!(!check_digit_string("٣"));
    assert!(Amount::parse("").is_none());
    assert!(Amount::parse("1x").is_none());
    let a = Amount::parse("00120").unwrap();
    assert_eq!(a.to_string(), "00120");
    assert_eq!(a.clone().to_string(), "00120");
}

#[test]
fn id_text_is_the_inner_text() {
    assert_eq!(Id::Account("tnam1Q".to_string()).to_string(), "tnam1Q");
    assert_eq!(Id::Hash("ABCdef".to_string()).to_string(), "ABCdef");
    assert_eq!(Id::Hash("x".to_string()).clone().to_string(), "x");
}
