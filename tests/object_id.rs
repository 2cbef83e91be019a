use apub_federation::context::{RequestContext, REFETCH_INTERVAL_DEBUG_MS, REFETCH_INTERVAL_MS};
use apub_federation::error::Error;
use apub_federation::object_id::ObjectId;
use apub_federation::resolver::{is_stale, should_refetch_object};
use chrono::{Duration, Utc};

/// The kind of object that the identifiers in these tests resolve to.
struct DbUser;

#[test]
fn test_deserialize() {
    let id = ObjectId::<DbUser>::new("http://test.com/").unwrap();

    let string = serde_json::to_string(id.inner()).unwrap();
    assert_eq!("\"http://test.com/\"", string);

    let text: String = serde_json::from_str(&string).unwrap();
    let parsed = ObjectId::<DbUser>::new(&text).unwrap();
    assert!(parsed == id);
}

#[test]
fn test_should_refetch_object() {
    let one_second_ago = (Utc::now() - Duration::seconds(1)).timestamp_millis();
    assert_eq!(false, should_refetch_object(one_second_ago, REFETCH_INTERVAL_DEBUG_MS));

    let two_days_ago = (Utc::now() - Duration::days(2)).timestamp_millis();
    assert_eq!(true, should_refetch_object(two_days_ago, REFETCH_INTERVAL_DEBUG_MS));
}

#[test]
fn production_interval_keeps_an_hour_old_object() {
    let an_hour_ago = (Utc::now() - Duration::hours(1)).timestamp_millis();
    assert!(!should_refetch_object(an_hour_ago, REFETCH_INTERVAL_MS));
    let two_days_ago = (Utc::now() - Duration::days(2)).timestamp_millis();
    assert!(should_refetch_object(two_days_ago, REFETCH_INTERVAL_MS));
}

#[test]
fn stale_boundary_is_strict() {
    assert!(!is_stale(80_000, 100_000, 20_000));
    assert!(is_stale(79_999, 100_000, 20_000));
    assert!(!is_stale(i64::MIN, i64::MIN, 0));
    assert!(is_stale(i64::MIN, i64::MAX, i64::MAX));
}

#[test]
fn valid_url_round_trips_exactly() {
    for s in ["http://test.com/", "https://lemmy.ml/u/nutomic", "http://localhost:8002/a?b=c"] {
        let id = ObjectId::<DbUser>::new(s).unwrap();
        assert_eq!(id.inner(), s);
        assert_eq!(id.into_inner(), s.to_string());
    }
}

#[test]
fn url_is_normalised_by_parsing() {
    let id = ObjectId::<DbUser>::new("HTTP://Test.com").unwrap();
    assert_eq!(id.inner(), "http://test.com/");
    assert_eq!(id.host_port(), "test.com");
}

#[test]
fn malformed_url_is_refused() {
    assert_eq!(ObjectId::<DbUser>::new("not a url").err(), Some(Error::MalformedUrl));
    assert_eq!(ObjectId::<DbUser>::new("/relative/path").err(), Some(Error::MalformedUrl));
    assert_eq!(ObjectId::<DbUser>::new("").err(), Some(Error::MalformedUrl));
}

#[test]
fn host_port_keeps_explicit_port() {
    let id = ObjectId::<DbUser>::new("http://localhost:8002/u/1").unwrap();
    assert_eq!(id.host_port(), "localhost:8002");
    let id = ObjectId::<DbUser>::new("https://example.com:443/u/1").unwrap();
    assert_eq!(id.host_port(), "example.com");
}

#[test]
fn equality_is_url_equality() {
    let a = ObjectId::<DbUser>::new("http://test.com").unwrap();
    let b = ObjectId::<DbUser>::new("http://test.com/").unwrap();
    let c = ObjectId::<DbUser>::new("http://test.com/x").unwrap();
    assert!(a == b);
    assert!(a != c);
    assert!(c.clone() == c);
}

#[test]
fn local_url_matches_domain_and_port() {
    let ctx = RequestContext::new("localhost:8002".to_string(), true);
    assert!(ctx.is_local_url(&ObjectId::<DbUser>::new("http://localhost:8002/u/1").unwrap()));
    assert!(!ctx.is_local_url(&ObjectId::<DbUser>::new("http://localhost:123").unwrap()));
    assert!(!ctx.is_local_url(&ObjectId::<DbUser>::new("http://localhost/u/1").unwrap()));
}
