use ralertsinua::action::{
    Action, ActionBus, Event, FetchError, KeyCode, KeyModifiers, classify_http_status,
    translate_event, translate_key,
};
use ralertsinua::component::Component;
use ralertsinua::controller::{AppController, Locale, Mode};
use ralertsinua::geoindex::{AlertsInUaGeoClient, BoundingBox, Location};
use ralertsinua::region::{Region, RegionStore};
use ralertsinua::status::{AlertStatus, AlertStatusCodec};

const DEMO: &str = "ANNAANNANNNPANANANNNNAANNNN";
const ALL_NONE: &str = "NNNNNNNNNNNNNNNNNNNNNNNNNNN";
const SQUARE_WKT: &str = "POLYGON((0 0,4 0,4 4,0 4,0 0))";

fn demo_regions() -> Vec<Region> {
    (0..27)
        .map(|i| Region {
            id: i as i8,
            a_id: i as i8,
            osm_id: 1000 + i as i64,
            geo: String::new(),
            name: format!("Region {}", i),
            name_en: format!("Region {}", i),
            status: AlertStatus::N,
        })
        .collect()
}

fn demo_locations() -> Vec<Location> {
    (0..27)
        .map(|i| Location {
            location_uid: i,
            name: format!("Region {}", i),
            name_en: format!("Region {}", i),
        })
        .collect()
}

fn demo_bbox() -> BoundingBox {
    BoundingBox { min_x: 22080, min_y: 44230, max_x: 40130, max_y: 52250 }
}

fn demo_controller(raw: &str) -> AppController {
    let store = RegionStore::new(demo_regions(), &AlertStatusCodec::decode(raw).unwrap());
    let geo = AlertsInUaGeoClient::from_parts(SQUARE_WKT, demo_bbox(), demo_locations()).unwrap();
    AppController::new(store, geo, 1000, 250)
}

fn statuses(store: &RegionStore) -> Vec<AlertStatus> {
    (0..27).map(|i| store.region_at(i).status).collect()
}

#[test]
fn fetch_failed_leaves_store_untouched() {
    let mut c = demo_controller(DEMO);
    let before = statuses(&c.store);
    let sel_before = c.store.selection_index();
    let off_before = c.store.scroll_offset();
    let out = c.dispatch_cycle(vec![Action::FetchFailed(FetchError::Network)]);
    assert_eq!(statuses(&c.store), before);
    assert_eq!(c.store.selection_index(), sel_before);
    assert_eq!(c.store.scroll_offset(), off_before);
    assert!(out.derived.is_empty());
    assert!(!out.draw);
    assert!(!out.fetch);
}

#[test]
fn fetch_completed_merges_and_asks_refresh() {
    let mut c = demo_controller(ALL_NONE);
    assert_eq!(c.store.region_at(0).status, AlertStatus::N);
    let status = AlertStatusCodec::decode(DEMO).unwrap();
    let out = c.dispatch_cycle(vec![Action::FetchCompleted(status)]);
    assert_eq!(c.store.region_at(0).status, AlertStatus::A);
    assert_eq!(c.store.region_at(11).status, AlertStatus::P);
    assert_eq!(out.derived.len(), 1);
    assert!(matches!(out.derived[0], Action::Refresh));
}

#[test]
fn quit_latches_and_mode_follows() {
    let mut c = demo_controller(DEMO);
    assert_eq!(c.mode(), Mode::Running);
    c.dispatch_cycle(vec![Action::Suspend]);
    assert_eq!(c.mode(), Mode::Suspended);
    c.dispatch_cycle(vec![Action::Resume]);
    assert_eq!(c.mode(), Mode::Running);
    c.dispatch_cycle(vec![Action::Quit]);
    assert_eq!(c.mode(), Mode::Quitting);
    c.dispatch_cycle(vec![Action::Resume]);
    assert_eq!(c.mode(), Mode::Quitting);
}

#[test]
fn locale_toggles_and_asks_refresh() {
    let mut c = demo_controller(DEMO);
    assert_eq!(c.locale, Locale::Uk);
    let out = c.dispatch_cycle(vec![Action::Locale]);
    assert_eq!(c.locale, Locale::En);
    assert_eq!(out.derived.len(), 1);
    assert!(matches!(out.derived[0], Action::Refresh));
    c.dispatch_cycle(vec![Action::Locale]);
    assert_eq!(c.locale, Locale::Uk);
}

#[test]
fn render_and_resize_ask_for_draw() {
    let mut c = demo_controller(DEMO);
    let out = c.dispatch_cycle(vec![Action::Tick]);
    assert!(!out.draw);
    let out = c.dispatch_cycle(vec![Action::Render]);
    assert!(out.draw);
    let out = c.dispatch_cycle(vec![Action::Resize(80, 24)]);
    assert!(out.draw);
    let out = c.dispatch_cycle(vec![Action::Fetch]);
    assert!(out.fetch);
    assert!(!out.draw);
}

#[test]
fn resize_reaches_every_view() {
    let mut c = demo_controller(DEMO);
    c.dispatch_cycle(vec![Action::Resize(120, 40)]);
    match &c.components[0] {
        Component::MapView(m) => {
            assert_eq!(m.size.width, 120);
            assert_eq!(m.size.height, 40);
        },
        _ => panic!("map view expected first"),
    }
    match &c.components[1] {
        Component::ListView(l) => assert_eq!(l.size.width, 120),
        _ => panic!("list view expected second"),
    }
}

#[test]
fn diagnostic_view_counts_ticks_and_renders() {
    let mut c = demo_controller(DEMO);
    c.dispatch_cycle(vec![Action::Tick, Action::Tick, Action::Render]);
    match &c.components[2] {
        Component::DiagnosticView(d) => {
            assert_eq!(d.app_ticks, 2);
            assert_eq!(d.render_ticks, 1);
        },
        _ => panic!("diagnostic view expected third"),
    }
}

#[test]
fn select_actions_move_selection() {
    let mut c = demo_controller(DEMO);
    c.dispatch_cycle(vec![Action::Select(1)]);
    assert_eq!(c.store.selection_index(), Some(0));
    c.dispatch_cycle(vec![Action::Select(1), Action::Select(1)]);
    assert_eq!(c.store.selection_index(), Some(2));
    c.dispatch_cycle(vec![Action::Select(-1)]);
    assert_eq!(c.store.selection_index(), Some(1));
}

#[test]
fn derived_actions_keep_drain_order() {
    let mut c = demo_controller(ALL_NONE);
    let status = AlertStatusCodec::decode(DEMO).unwrap();
    let out = c.dispatch_cycle(vec![
        Action::Locale,
        Action::Tick,
        Action::FetchCompleted(status),
    ]);
    assert_eq!(out.derived.len(), 2);
    assert!(matches!(out.derived[0], Action::Refresh));
    assert!(matches!(out.derived[1], Action::Refresh));
}

#[test]
fn key_translation_matches_bindings() {
    let none = KeyModifiers::none();
    let ctrl = KeyModifiers::control();
    assert!(matches!(translate_key(KeyCode::Esc, none), Some(Action::Quit)));
    assert!(matches!(translate_key(KeyCode::Char('q'), none), Some(Action::Quit)));
    assert!(matches!(translate_key(KeyCode::Char('c'), ctrl), Some(Action::Quit)));
    assert!(matches!(translate_key(KeyCode::Char('C'), ctrl), Some(Action::Quit)));
    assert!(translate_key(KeyCode::Char('c'), none).is_none());
    assert!(matches!(translate_key(KeyCode::Down, none), Some(Action::Select(1))));
    assert!(matches!(translate_key(KeyCode::Up, none), Some(Action::Select(-1))));
    assert!(matches!(translate_key(KeyCode::Char('u'), none), Some(Action::Fetch)));
    assert!(matches!(translate_key(KeyCode::Char('l'), none), Some(Action::Locale)));
    assert!(matches!(translate_key(KeyCode::Char('r'), none), Some(Action::Refresh)));
    assert!(matches!(translate_key(KeyCode::Char('z'), none), Some(Action::Suspend)));
    assert!(translate_key(KeyCode::Char('x'), none).is_none());
    assert!(translate_key(KeyCode::Enter, none).is_none());
}

#[test]
fn event_translation_matches_sources() {
    assert!(matches!(translate_event(&Event::Quit), Some(Action::Quit)));
    assert!(matches!(translate_event(&Event::Tick), Some(Action::Tick)));
    assert!(matches!(translate_event(&Event::Render), Some(Action::Render)));
    assert!(matches!(translate_event(&Event::Resize(80, 24)), Some(Action::Resize(80, 24))));
    assert!(matches!(
        translate_event(&Event::Key(KeyCode::Down, KeyModifiers::none())),
        Some(Action::Select(1))
    ));
    assert!(translate_event(&Event::Other).is_none());
}

#[test]
fn http_status_classification() {
    assert!(classify_http_status(200).is_none());
    assert!(classify_http_status(204).is_none());
    assert!(matches!(classify_http_status(401), Some(FetchError::Unauthorized)));
    assert!(matches!(classify_http_status(403), Some(FetchError::Unauthorized)));
    assert!(matches!(classify_http_status(429), Some(FetchError::RateLimited)));
    assert!(matches!(classify_http_status(500), Some(FetchError::ServerError)));
    assert!(matches!(classify_http_status(503), Some(FetchError::ServerError)));
    assert!(matches!(classify_http_status(404), Some(FetchError::Network)));
    assert!(matches!(classify_http_status(301), Some(FetchError::Network)));
}

#[test]
fn action_bus_delivers_in_fifo_order() {
    let mut bus = ActionBus::new();
    assert_eq!(bus.len(), 0);
    bus.push(Action::Tick);
    bus.push(Action::Render);
    bus.push(Action::Quit);
    assert_eq!(bus.len(), 3);
    let drained = bus.drain();
    assert_eq!(bus.len(), 0);
    assert_eq!(drained.len(), 3);
    assert!(matches!(drained[0], Action::Tick));
    assert!(matches!(drained[1], Action::Render));
    assert!(matches!(drained[2], Action::Quit));
    assert!(bus.drain().is_empty());
}

#[test]
fn component_input_translation_is_empty() {
    let c = Component::new_map();
    assert!(c.handle_input(&Event::Tick).is_none());
}

#[test]
fn component_init_takes_initial_size() {
    let mut c = Component::new_list();
    c.init(100, 30);
    match c {
        Component::ListView(l) => {
            assert_eq!(l.size.width, 100);
            assert_eq!(l.size.height, 30);
        },
        _ => panic!("list view expected"),
    }
}

#[test]
fn controller_starts_running_with_three_components() {
    let c = demo_controller(DEMO);
    assert_eq!(c.mode(), Mode::Running);
    assert!(!c.should_quit);
    assert!(!c.should_suspend);
    assert_eq!(c.locale, Locale::Uk);
    assert_eq!(c.components.len(), 3);
    assert_eq!(c.tick_rate_ms, 1000);
    assert_eq!(c.frame_rate_ms, 250);
    assert!(matches!(c.components[0], Component::MapView(_)));
    assert!(matches!(c.components[1], Component::ListView(_)));
    assert!(matches!(c.components[2], Component::DiagnosticView(_)));
}
