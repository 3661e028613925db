use gmaps_coords::assemble::{assemble, OutputFeature, PlaceRecord};
use gmaps_coords::extract::{extract, Anchor, Coordinate};
use gmaps_coords::reconcile::{build_features, reconcile_updates, resolution_target, StoredPlace};
use gmaps_coords::resolve::{Resolution, Step};

fn coord(lat: &str, lng: &str) -> Coordinate {
    extract(Anchor::Query, &format!("q={lat},{lng}")).ok().unwrap()
}

fn pair(c: &Coordinate) -> (String, String) {
    (c.lng.as_str().to_string(), c.lat.as_str().to_string())
}

fn stored(point: &[&str], url: Option<&str>) -> StoredPlace {
    StoredPlace {
        point: Some(point.iter().map(|s| s.to_string()).collect()),
        maps_url: url.map(|u| u.to_string()),
    }
}

fn record(title: &str, url: &str, note: Option<&str>, comment: Option<&str>) -> PlaceRecord {
    PlaceRecord {
        title: title.to_string(),
        url: url.to_string(),
        note: note.map(|s| s.to_string()),
        comment: comment.map(|s| s.to_string()),
    }
}

fn props(f: &OutputFeature) -> Vec<(String, String)> {
    f.properties.clone()
}

fn kv(k: &str, v: &str) -> (String, String) {
    (k.to_string(), v.to_string())
}

#[test]
fn only_sentinel_with_url_is_a_target() {
    let url = "https://maps.example/place/a";
    assert_eq!(resolution_target(&stored(&["0", "0"], Some(url))), Some(url.to_string()));
    assert_eq!(resolution_target(&stored(&["-0", "0.0", "5"], Some(url))), Some(url.to_string()));
    assert_eq!(resolution_target(&stored(&["0", "0"], None)), None);
    assert_eq!(resolution_target(&stored(&["151.2", "-33.8"], Some(url))), None);
    assert_eq!(resolution_target(&stored(&["0", "1"], Some(url))), None);
    assert_eq!(resolution_target(&stored(&["0"], Some(url))), None);
    assert_eq!(
        resolution_target(&StoredPlace { point: None, maps_url: Some(url.to_string()) }),
        None
    );
}

fn three_places() -> Vec<StoredPlace> {
    vec![
        stored(&["0", "0"], Some("https://maps.example/place/a")),
        stored(&["0", "0"], Some("https://maps.example/place/b")),
        stored(&["151.2", "-33.8"], Some("https://maps.example/place/c")),
    ]
}

#[test]
fn update_keeps_every_record_in_order() {
    let places = three_places();
    let resolved = vec![Some(coord("-33.8", "151.2")), None, None];
    let out = reconcile_updates(&places, &resolved, false);
    assert_eq!(out.len(), 3);
    assert_eq!(out.iter().map(|p| p.index).collect::<Vec<_>>(), vec![0, 1, 2]);
    assert_eq!(pair(out[0].coordinate.as_ref().unwrap()), ("151.2".to_string(), "-33.8".to_string()));
    assert!(out[1].coordinate.is_none());
    assert!(out[2].coordinate.is_none());
}

#[test]
fn changed_only_keeps_resolved_sentinels() {
    let places = three_places();
    let resolved = vec![None, Some(coord("1", "2")), None];
    let out = reconcile_updates(&places, &resolved, true);
    assert_eq!(out.len(), 1);
    assert_eq!(out[0].index, 1);
    assert_eq!(pair(out[0].coordinate.as_ref().unwrap()), ("2".to_string(), "1".to_string()));
}

#[test]
fn placed_record_is_never_changed() {
    let places = three_places();
    let resolved = vec![None, None, Some(coord("9", "9"))];
    let out = reconcile_updates(&places, &resolved, false);
    assert!(out[2].coordinate.is_none());
    assert!(reconcile_updates(&places, &resolved, true).is_empty());
}

#[test]
fn empty_collection_stays_empty() {
    assert!(reconcile_updates(&vec![], &vec![], false).is_empty());
    assert!(build_features(&vec![], &vec![]).is_empty());
}

#[test]
fn sentinel_feature_takes_the_redirected_center() {
    let url = "https://maps.example/place/Opera+House";
    let places = vec![stored(&["0", "0"], Some(url))];
    let target = resolution_target(&places[0]).unwrap();
    let (mut res, step) = Resolution::start(&target);
    assert!(matches!(step, Step::Navigate));
    assert!(matches!(res.navigated(true), Step::Poll));
    let c = match res.observed(Some("https://maps.example/place/Opera+House/@-33.8,151.2,15z")) {
        Step::Resolved(c) => c,
        _ => panic!("expected the view center"),
    };
    let out = reconcile_updates(&places, &vec![Some(c)], false);
    assert_eq!(out.len(), 1);
    assert_eq!(pair(out[0].coordinate.as_ref().unwrap()), ("151.2".to_string(), "-33.8".to_string()));
}

#[test]
fn cafe_row_becomes_a_point_feature() {
    let url = "https://maps.example/?q=-25.0,160.0";
    // empty Note and Comment cells are read as absent
    let rec = record("Cafe", url, None, None);
    let (_, step) = Resolution::start(&rec.url);
    let c = match step {
        Step::Resolved(c) => c,
        _ => panic!("expected a coordinate straight from the URL"),
    };
    let features = build_features(&vec![Some(rec)], &vec![Some(c)]);
    assert_eq!(features.len(), 1);
    assert_eq!(pair(&features[0].coordinate), ("160.0".to_string(), "-25.0".to_string()));
    assert_eq!(props(&features[0]), vec![kv("name", "Cafe"), kv("google_maps_url", url)]);
}

#[test]
fn note_and_comment_are_carried() {
    let rec = record("Pier", "https://maps.example/p", Some("fish"), Some("closed mondays"));
    let f = assemble(&rec, coord("1.5", "-2.5"));
    assert_eq!(pair(&f.coordinate), ("-2.5".to_string(), "1.5".to_string()));
    assert_eq!(
        props(&f),
        vec![
            kv("name", "Pier"),
            kv("google_maps_url", "https://maps.example/p"),
            kv("note", "fish"),
            kv("comment", "closed mondays"),
        ]
    );
    let f = assemble(&record("Hut", "u", None, Some("c")), coord("0", "0"));
    assert_eq!(props(&f), vec![kv("name", "Hut"), kv("google_maps_url", "u"), kv("comment", "c")]);
}

#[test]
fn malformed_row_is_skipped_and_later_rows_go_on() {
    let rows = vec![
        Some(record("A", "https://maps.example/a", None, None)),
        None,
        Some(record("B", "https://maps.example/b", None, None)),
        Some(record("C", "https://maps.example/c", None, None)),
    ];
    let resolved = vec![Some(coord("1", "2")), None, None, Some(coord("3", "4"))];
    let features = build_features(&rows, &resolved);
    assert_eq!(features.len(), 2);
    assert_eq!(props(&features[0])[0], kv("name", "A"));
    assert_eq!(props(&features[1])[0], kv("name", "C"));
    assert_eq!(pair(&features[1].coordinate), ("4".to_string(), "3".to_string()));
}
