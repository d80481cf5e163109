use ralertsinua::region::{Alert, LineStyle, Region, RegionStore, StoreError};
use ralertsinua::status::{AlertStatus, AlertStatusCodec, AlertStatusString};

const DEMO: &str = "ANNAANNANNNPANANANNNNAANNNN";
const ALL_NONE: &str = "NNNNNNNNNNNNNNNNNNNNNNNNNNN";

fn demo_region(i: usize) -> Region {
    Region {
        id: i as i8,
        a_id: i as i8,
        osm_id: 1000 + i as i64,
        geo: String::new(),
        name: format!("Region {}", i),
        name_en: format!("Region {}", i),
        status: AlertStatus::N,
    }
}

fn demo_regions() -> Vec<Region> {
    (0..27).map(demo_region).collect()
}

fn demo_status(raw: &str) -> AlertStatusString {
    AlertStatusCodec::decode(raw).unwrap()
}

fn demo_alert(id: i32, oblast_uid: Option<i32>) -> Alert {
    Alert {
        id,
        location_title: String::from("somewhere"),
        location_type: String::from("oblast"),
        started_at: String::from("2024-04-18 05:43:26"),
        finished_at: None,
        updated_at: String::from("2024-04-18 06:00:00"),
        alert_type: String::from("air_raid"),
        location_oblast: String::from("somewhere"),
        location_uid: String::from("16"),
        notes: None,
        country: None,
        calculated: None,
        location_oblast_uid: oblast_uid,
    }
}

fn statuses(store: &RegionStore) -> Vec<AlertStatus> {
    (0..27).map(|i| store.region_at(i).status).collect()
}

#[test]
fn decode_then_apply_status_sets_every_ordinal() {
    let status = demo_status(DEMO);
    let mut store = RegionStore::new(demo_regions(), &demo_status(ALL_NONE));
    store.apply_status(&status);
    for (i, c) in DEMO.chars().enumerate() {
        let expected = match c {
            'A' => AlertStatus::A,
            'P' => AlertStatus::P,
            _ => AlertStatus::N,
        };
        assert_eq!(store.region_at(i).status, expected);
        assert_eq!(store.region_at(i).name, format!("Region {}", i));
    }
}

#[test]
fn apply_status_recomputes_list_items() {
    let mut store = RegionStore::new(demo_regions(), &demo_status(ALL_NONE));
    store.apply_status(&demo_status(DEMO));
    let items = store.list_items();
    assert_eq!(items.len(), 27);
    assert_eq!(items[0].style, LineStyle::Alert);
    assert_eq!(items[1].style, LineStyle::Plain);
    assert_eq!(items[11].style, LineStyle::Marker);
    assert_eq!(items[11].index, 11);
    assert_eq!(items[11].name, "Region 11");
}

#[test]
fn apply_alerts_is_idempotent() {
    let mut store = RegionStore::new(demo_regions(), &demo_status(DEMO));
    let alerts = vec![
        demo_alert(1, Some(3)),
        demo_alert(2, Some(16)),
        demo_alert(3, None),
        demo_alert(4, Some(99)),
    ];
    store.apply_alerts(&alerts);
    let once = statuses(&store);
    store.apply_alerts(&alerts);
    let twice = statuses(&store);
    assert_eq!(once, twice);
    assert_eq!(once[3], AlertStatus::A);
    assert_eq!(once[16], AlertStatus::A);
    assert_eq!(once[0], AlertStatus::N);
}

#[test]
fn apply_alerts_clears_absent_regions() {
    let mut store = RegionStore::new(demo_regions(), &demo_status(DEMO));
    assert_eq!(store.region_at(0).status, AlertStatus::A);
    store.apply_alerts(&vec![demo_alert(1, Some(5))]);
    assert_eq!(store.region_at(0).status, AlertStatus::N);
    assert_eq!(store.region_at(5).status, AlertStatus::A);
    assert_eq!(store.region_at(11).status, AlertStatus::N);
}

#[test]
fn select_next_is_circular_from_any_start() {
    for start in [0usize, 1, 13, 25, 26] {
        let mut store = RegionStore::new(demo_regions(), &demo_status(ALL_NONE));
        for _ in 0..=start {
            store.select_next();
        }
        assert_eq!(store.selection_index(), Some(start));
        for _ in 0..27 {
            store.select_next();
        }
        assert_eq!(store.selection_index(), Some(start));
    }
}

#[test]
fn select_previous_wraps_from_top() {
    let mut store = RegionStore::new(demo_regions(), &demo_status(ALL_NONE));
    assert_eq!(store.selection_index(), None);
    store.select_top();
    assert_eq!(store.selection_index(), Some(0));
    store.select_previous();
    assert_eq!(store.selection_index(), Some(26));
}

#[test]
fn select_bottom_and_next_wraps_to_top() {
    let mut store = RegionStore::new(demo_regions(), &demo_status(ALL_NONE));
    store.select_bottom();
    assert_eq!(store.selection_index(), Some(26));
    store.select_next();
    assert_eq!(store.selection_index(), Some(0));
}

#[test]
fn unselect_preserves_scroll_offset() {
    let mut store = RegionStore::new(demo_regions(), &demo_status(ALL_NONE));
    store.select_bottom();
    store.set_scroll_offset(14);
    assert_eq!(store.scroll_offset(), 14);
    store.unselect();
    assert_eq!(store.selection_index(), None);
    assert_eq!(store.scroll_offset(), 14);
}

#[test]
fn reselect_resumes_at_last_selection() {
    let mut store = RegionStore::new(demo_regions(), &demo_status(ALL_NONE));
    store.select_top();
    store.select_next();
    store.select_next();
    assert_eq!(store.selection_index(), Some(2));
    store.unselect();
    store.select_next();
    assert_eq!(store.selection_index(), Some(2));
}

#[test]
fn replace_regions_requires_exactly_27() {
    let mut store = RegionStore::new(demo_regions(), &demo_status(ALL_NONE));
    let too_few: Vec<Region> = (0..26).map(demo_region).collect();
    let e = store.replace_regions(too_few).unwrap_err();
    assert_eq!(e, StoreError::WrongRegionCount { expected: 27, actual: 26 });
    assert_eq!(store.list_size(), 27);
    assert!(store.replace_regions(demo_regions()).is_ok());
    assert_eq!(store.list_size(), 27);
}
