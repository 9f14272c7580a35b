use db_dump::crates::CrateId;
use db_dump::crates_keywords;
use db_dump::keywords::{KeywordId, Row, Timestamp};

#[test]
fn crate_id_digits() {
    assert_eq!(CrateId::parse("0"), Some(CrateId(0)));
    assert_eq!(CrateId::parse("12345"), Some(CrateId(12345)));
    assert_eq!(CrateId::parse("+7"), Some(CrateId(7)));
    assert_eq!(CrateId::parse("4294967295"), Some(CrateId(4294967295)));
}

#[test]
fn crate_id_rejects() {
    assert_eq!(CrateId::parse(""), None);
    assert_eq!(CrateId::parse("+"), None);
    assert_eq!(CrateId::parse("-1"), None);
    assert_eq!(CrateId::parse("1a"), None);
    assert_eq!(CrateId::parse("4294967296"), None);
    assert_eq!(CrateId::parse("99999999999999999999999"), None);
}

#[test]
fn keyword_rows_compare_by_key() {
    let t = Timestamp { seconds: 1_500_000_000, nanos: 0 };
    let a = Row::new(KeywordId(3), "cli".to_string(), 10, t);
    let b = Row::new(KeywordId(3), "other".to_string(), 99, t);
    let c = Row::new(KeywordId(4), "cli".to_string(), 10, t);
    assert!(a == b);
    assert!(a != c);
    assert_eq!(*a.key(), KeywordId(3));
    assert!(KeywordId(3) < KeywordId(4));
}

#[test]
fn keyword_rows_order_by_key() {
    let t = Timestamp { seconds: 0, nanos: 5 };
    let a = Row::new(KeywordId(3), "zzz".to_string(), 1, t);
    let b = Row::new(KeywordId(3), "aaa".to_string(), 2, t);
    let c = Row::new(KeywordId(9), "aaa".to_string(), 2, t);
    assert_eq!(a.partial_cmp(&b), Some(std::cmp::Ordering::Equal));
    assert!(a < c);
    assert!(c > b);
}

#[test]
fn crate_keyword_link() {
    let r = crates_keywords::Row::new(CrateId(1), KeywordId(2));
    assert_eq!(r.crate_id, CrateId(1));
    assert_eq!(r.keyword_id, KeywordId(2));
}
