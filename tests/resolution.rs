use gmaps_coords::extract::Coordinate;
use gmaps_coords::resolve::{Phase, ResolveError, Resolution, Step, POLL_BUDGET};

fn pair(c: &Coordinate) -> (String, String) {
    (c.lng.as_str().to_string(), c.lat.as_str().to_string())
}

const PLACE: &str = "https://maps.example/place/Opera+House";

#[test]
fn direct_query_needs_no_navigation() {
    let (res, step) = Resolution::start("https://maps.example/?q=-25.0,160.0");
    match step {
        Step::Resolved(c) => assert_eq!(pair(&c), ("160.0".to_string(), "-25.0".to_string())),
        _ => panic!("expected a coordinate straight from the URL"),
    }
    assert_eq!(res.phase(), Phase::Finished);
    assert_eq!(res.polls(), 0);
}

#[test]
fn url_without_query_asks_to_navigate() {
    let (res, step) = Resolution::start(PLACE);
    assert!(matches!(step, Step::Navigate));
    assert_eq!(res.phase(), Phase::Navigating);
    assert_eq!(res.url(), PLACE);
}

#[test]
fn redirect_to_view_center_resolves() {
    let (mut res, step) = Resolution::start(PLACE);
    assert!(matches!(step, Step::Navigate));
    assert!(matches!(res.navigated(true), Step::Poll));
    assert!(matches!(res.observed(Some(PLACE)), Step::Poll));
    match res.observed(Some("https://maps.example/place/Opera+House/@-33.8,151.2,15z")) {
        Step::Resolved(c) => assert_eq!(pair(&c), ("151.2".to_string(), "-33.8".to_string())),
        _ => panic!("expected the view center"),
    }
    assert_eq!(res.polls(), 2);
    assert_eq!(res.phase(), Phase::Finished);
}

#[test]
fn unchanged_url_with_a_center_is_not_taken() {
    let url = "https://maps.example/place/x/@1.0,2.0";
    let (mut res, step) = Resolution::start(url);
    assert!(matches!(step, Step::Navigate));
    assert!(matches!(res.navigated(true), Step::Poll));
    assert!(matches!(res.observed(Some(url)), Step::Poll));
}

#[test]
fn changed_url_without_center_keeps_polling() {
    let (mut res, _) = Resolution::start(PLACE);
    res.navigated(true);
    assert!(matches!(res.observed(Some("https://maps.example/loading")), Step::Poll));
    assert_eq!(res.polls(), 1);
}

#[test]
fn unmoving_address_times_out_after_the_budget() {
    let (mut res, _) = Resolution::start(PLACE);
    assert!(matches!(res.navigated(true), Step::Poll));
    for k in 1..POLL_BUDGET {
        assert!(matches!(res.observed(Some(PLACE)), Step::Poll), "read {k}");
        assert_eq!(res.polls(), k);
    }
    assert!(matches!(res.observed(Some(PLACE)), Step::Failed(ResolveError::Timeout)));
    assert_eq!(res.polls(), POLL_BUDGET);
    assert_eq!(POLL_BUDGET, 100);
    assert_eq!(res.phase(), Phase::Finished);
}

#[test]
fn navigation_failure_is_a_session_error() {
    let (mut res, _) = Resolution::start(PLACE);
    assert!(matches!(res.navigated(false), Step::Failed(ResolveError::Session)));
    assert_eq!(res.phase(), Phase::Finished);
}

#[test]
fn unreadable_address_is_a_session_error() {
    let (mut res, _) = Resolution::start(PLACE);
    res.navigated(true);
    assert!(matches!(res.observed(None), Step::Failed(ResolveError::Session)));
}
