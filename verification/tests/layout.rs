use host_providers::connection::ConnectionWatch;
use host_providers::layout::{
    catalog_position, create_layout_map, extract_layout_name, get_keyboard_layout_code, send_data,
    LayoutProvider, LayoutState, LayoutVerdict,
};
use tokio::sync::{broadcast, mpsc};

fn catalog(codes: &[&str]) -> Vec<String> {
    codes.iter().map(|c| c.to_string()).collect()
}

fn fixture(
    codes: &[&str],
    capacity: usize,
) -> (LayoutProvider, mpsc::Receiver<Vec<u8>>, broadcast::Sender<bool>, ConnectionWatch) {
    let (data_tx, data_rx) = mpsc::channel::<Vec<u8>>(capacity);
    let (signal_tx, _) = broadcast::channel::<bool>(8);
    let provider = LayoutProvider::new(data_tx, signal_tx.clone(), catalog(codes));
    let watch = ConnectionWatch::new(provider.connected_sender().subscribe());
    (provider, data_rx, signal_tx, watch)
}

#[test]
fn layout_map_knows_three_layouts() {
    let map = create_layout_map();
    assert_eq!(map.get("U.S."), Some("en"));
    assert_eq!(map.get("ABC"), Some("en"));
    assert_eq!(map.get("Russian"), Some("ru"));
    assert_eq!(map.get("German"), None);
    assert_eq!(map.get(""), None);
    assert_eq!(map.get("russian"), None);
}

#[test]
fn extract_layout_name_strips_the_namespace() {
    assert_eq!(extract_layout_name("com.apple.keylayout.Russian"), Some("Russian".to_string()));
    assert_eq!(extract_layout_name("com.apple.keylayout.U.S."), Some("U.S.".to_string()));
    assert_eq!(extract_layout_name("com.apple.keylayout."), Some(String::new()));
}

#[test]
fn extract_layout_name_rejects_other_shapes() {
    assert_eq!(extract_layout_name(""), None);
    assert_eq!(extract_layout_name("Russian"), None);
    assert_eq!(extract_layout_name("com.apple.keylayout"), None);
    assert_eq!(extract_layout_name("com.apple.inputmethod.Kotoeri"), None);
    assert_eq!(extract_layout_name(" com.apple.keylayout.ABC"), None);
}

#[test]
fn extract_layout_name_strips_a_repeated_namespace() {
    assert_eq!(
        extract_layout_name("com.apple.keylayout.com.apple.keylayout.ABC"),
        Some("ABC".to_string())
    );
    assert_eq!(
        extract_layout_name("com.apple.keylayout.com.apple.keylayout."),
        Some(String::new())
    );
    assert_eq!(
        extract_layout_name("com.apple.keylayout.xcom.apple.keylayout.ABC"),
        Some("xcom.apple.keylayout.ABC".to_string())
    );
}

#[test]
fn layout_code_is_looked_up_by_name() {
    let map = create_layout_map();
    assert_eq!(get_keyboard_layout_code("com.apple.keylayout.U.S.", &map), Some("en".to_string()));
    assert_eq!(get_keyboard_layout_code("com.apple.keylayout.ABC", &map), Some("en".to_string()));
    assert_eq!(
        get_keyboard_layout_code("com.apple.keylayout.Russian", &map),
        Some("ru".to_string())
    );
    assert_eq!(get_keyboard_layout_code("com.apple.keylayout.German", &map), None);
    assert_eq!(get_keyboard_layout_code("org.example.Russian", &map), None);
}

#[test]
fn catalog_position_is_the_first_place() {
    let layouts = catalog(&["en", "ru", "en", "de"]);
    assert_eq!(catalog_position(&layouts, &"en".to_string()), Some(0));
    assert_eq!(catalog_position(&layouts, &"ru".to_string()), Some(1));
    assert_eq!(catalog_position(&layouts, &"de".to_string()), Some(3));
    assert_eq!(catalog_position(&layouts, &"fr".to_string()), None);
    assert_eq!(catalog_position(&Vec::new(), &"en".to_string()), None);
}

#[test]
fn send_data_offers_the_position() {
    let (tx, mut rx) = mpsc::channel::<Vec<u8>>(4);
    let layouts = catalog(&["en", "ru"]);
    let sent = send_data(&"ru".to_string(), &layouts, &tx);
    let delivery = sent.expect("the catalog holds the code");
    assert!(delivery.accepted);
    assert_eq!(delivery.frame.to_bytes(), vec![0u8, 1]);
    assert_eq!(rx.try_recv().ok(), Some(vec![0u8, 1]));
    assert!(send_data(&"de".to_string(), &layouts, &tx).is_none());
    assert!(rx.try_recv().is_err());
}

#[test]
fn russian_layout_is_announced_as_index_one() {
    let (provider, mut rx, _signal, watch) = fixture(&["en", "ru"], 4);
    let map = create_layout_map();
    let mut state = LayoutState::new();
    let report = provider.tick(&watch, &mut state, &map, Some("com.apple.keylayout.Russian"));
    assert_eq!(report.verdict, LayoutVerdict::Emit(1));
    assert_eq!(rx.try_recv().ok(), Some(vec![0x00u8, 0x01]));
    assert!(rx.try_recv().is_err());
    assert_eq!(state.last_emitted(), &Some("ru".to_string()));
}

#[test]
fn repeated_layout_is_announced_once() {
    let (provider, mut rx, _signal, watch) = fixture(&["en", "ru"], 8);
    let map = create_layout_map();
    let mut state = LayoutState::new();
    let first = provider.tick(&watch, &mut state, &map, Some("com.apple.keylayout.U.S."));
    assert_eq!(first.verdict, LayoutVerdict::Emit(0));
    for _ in 0..5 {
        let again = provider.tick(&watch, &mut state, &map, Some("com.apple.keylayout.U.S."));
        assert_eq!(again.verdict, LayoutVerdict::Unchanged);
        assert!(again.delivery.is_none());
    }
    // Another layout with the same code is no change either.
    let abc = provider.tick(&watch, &mut state, &map, Some("com.apple.keylayout.ABC"));
    assert_eq!(abc.verdict, LayoutVerdict::Unchanged);
    let russian = provider.tick(&watch, &mut state, &map, Some("com.apple.keylayout.Russian"));
    assert_eq!(russian.verdict, LayoutVerdict::Emit(1));
    let back = provider.tick(&watch, &mut state, &map, Some("com.apple.keylayout.U.S."));
    assert_eq!(back.verdict, LayoutVerdict::Emit(0));
    assert_eq!(rx.try_recv().ok(), Some(vec![0u8, 0]));
    assert_eq!(rx.try_recv().ok(), Some(vec![0u8, 1]));
    assert_eq!(rx.try_recv().ok(), Some(vec![0u8, 0]));
    assert!(rx.try_recv().is_err());
}

#[test]
fn code_outside_the_catalog_is_not_announced() {
    let (provider, mut rx, _signal, watch) = fixture(&["en"], 4);
    let map = create_layout_map();
    let mut state = LayoutState::new();
    let report = provider.tick(&watch, &mut state, &map, Some("com.apple.keylayout.Russian"));
    assert_eq!(report.verdict, LayoutVerdict::NotInCatalog);
    assert!(report.delivery.is_none());
    assert!(rx.try_recv().is_err());
    assert_eq!(state.last_emitted(), &None);
    let english = provider.tick(&watch, &mut state, &map, Some("com.apple.keylayout.ABC"));
    assert_eq!(english.verdict, LayoutVerdict::Emit(0));
    let again = provider.tick(&watch, &mut state, &map, Some("com.apple.keylayout.Russian"));
    assert_eq!(again.verdict, LayoutVerdict::NotInCatalog);
    assert_eq!(state.last_emitted(), &Some("en".to_string()));
}

#[test]
fn unrecognised_identifier_is_not_announced() {
    let (provider, mut rx, _signal, watch) = fixture(&["en", "ru"], 4);
    let map = create_layout_map();
    let mut state = LayoutState::new();
    let foreign = provider.tick(&watch, &mut state, &map, Some("com.apple.inputmethod.Kotoeri"));
    assert_eq!(foreign.verdict, LayoutVerdict::Unrecognized);
    let unknown = provider.tick(&watch, &mut state, &map, Some("com.apple.keylayout.German"));
    assert_eq!(unknown.verdict, LayoutVerdict::Unrecognized);
    assert!(rx.try_recv().is_err());
    assert_eq!(state.last_emitted(), &None);
}

#[test]
fn failed_read_is_no_news() {
    let (provider, mut rx, _signal, watch) = fixture(&["en", "ru"], 4);
    let map = create_layout_map();
    let mut state = LayoutState::new();
    let report = provider.tick(&watch, &mut state, &map, None);
    assert_eq!(report.verdict, LayoutVerdict::NoReading);
    assert!(report.delivery.is_none());
    assert!(rx.try_recv().is_err());
}

#[test]
fn duplicate_catalog_entry_is_announced_by_its_first_place() {
    let (provider, mut rx, _signal, watch) = fixture(&["ru", "ru", "en"], 4);
    let map = create_layout_map();
    let mut state = LayoutState::new();
    let report = provider.tick(&watch, &mut state, &map, Some("com.apple.keylayout.Russian"));
    assert_eq!(report.verdict, LayoutVerdict::Emit(0));
    assert_eq!(rx.try_recv().ok(), Some(vec![0u8, 0]));
}

#[test]
fn place_beyond_one_byte_is_not_announced() {
    let mut codes: Vec<String> = (0..256).map(|i| format!("x{}", i)).collect();
    codes.push("ru".to_string());
    let (tx, mut rx) = mpsc::channel::<Vec<u8>>(4);
    let (signal_tx, signal_rx) = broadcast::channel::<bool>(4);
    let provider = LayoutProvider::new(tx.clone(), signal_tx, codes.clone());
    let watch = ConnectionWatch::new(signal_rx);
    let map = create_layout_map();
    let mut state = LayoutState::new();
    let report = provider.tick(&watch, &mut state, &map, Some("com.apple.keylayout.Russian"));
    assert_eq!(report.verdict, LayoutVerdict::BeyondIndex);
    assert!(report.delivery.is_none());
    assert!(rx.try_recv().is_err());
    assert_eq!(state.last_emitted(), &None);
    assert_eq!(catalog_position(&codes, &"ru".to_string()), Some(256));
    assert!(send_data(&"ru".to_string(), &codes, &tx).is_none());
    assert!(rx.try_recv().is_err());
}

#[test]
fn announced_index_names_the_place_in_a_long_catalog() {
    let codes: Vec<String> = (0..300).map(|i| format!("c{}", i)).collect();
    let (tx, mut rx) = mpsc::channel::<Vec<u8>>(4);
    for place in [0usize, 1, 17, 254, 255, 256, 257, 299] {
        let sent = send_data(&codes[place], &codes, &tx);
        if place <= 255 {
            let frame = rx.try_recv().expect("a frame was offered");
            assert!(sent.is_some());
            assert_eq!(frame.len(), 2);
            assert_eq!(frame[0], 0x00);
            assert_eq!(codes[frame[1] as usize], codes[place]);
            assert_eq!(frame[1] as usize, place);
        } else {
            assert!(sent.is_none());
            assert!(rx.try_recv().is_err());
        }
    }
}

#[test]
fn last_place_of_one_byte_is_255() {
    let mut codes: Vec<String> = (0..255).map(|i| format!("x{}", i)).collect();
    codes.push("en".to_string());
    let (tx, mut rx) = mpsc::channel::<Vec<u8>>(4);
    let (signal_tx, signal_rx) = broadcast::channel::<bool>(4);
    let provider = LayoutProvider::new(tx, signal_tx, codes);
    let watch = ConnectionWatch::new(signal_rx);
    let map = create_layout_map();
    let mut state = LayoutState::new();
    let report = provider.tick(&watch, &mut state, &map, Some("com.apple.keylayout.ABC"));
    assert_eq!(report.verdict, LayoutVerdict::Emit(255));
    assert_eq!(rx.try_recv().ok(), Some(vec![0u8, 255]));
}

#[test]
fn full_queue_drops_the_layout_frame() {
    let (provider, mut rx, _signal, watch) = fixture(&["en", "ru"], 1);
    let map = create_layout_map();
    let mut state = LayoutState::new();
    let first = provider.tick(&watch, &mut state, &map, Some("com.apple.keylayout.ABC"));
    assert!(first.delivery.expect("a frame was offered").accepted);
    let second = provider.tick(&watch, &mut state, &map, Some("com.apple.keylayout.Russian"));
    assert_eq!(second.verdict, LayoutVerdict::Emit(1));
    let dropped = second.delivery.expect("a frame was offered");
    assert!(!dropped.accepted);
    assert_eq!(dropped.frame.to_bytes(), vec![0u8, 1]);
    // The dropped frame is not offered again.
    let third = provider.tick(&watch, &mut state, &map, Some("com.apple.keylayout.Russian"));
    assert_eq!(third.verdict, LayoutVerdict::Unchanged);
    assert_eq!(rx.try_recv().ok(), Some(vec![0u8, 0]));
    assert!(rx.try_recv().is_err());
}

#[test]
fn disconnected_layout_provider_is_silent() {
    let (provider, mut rx, signal, mut watch) = fixture(&["en", "ru"], 4);
    let map = create_layout_map();
    let mut state = LayoutState::new();
    assert!(signal.send(false).is_ok());
    assert!(!watch.check());
    let report = provider.tick(&watch, &mut state, &map, Some("com.apple.keylayout.Russian"));
    assert_eq!(report.verdict, LayoutVerdict::Stopped);
    assert!(report.delivery.is_none());
    assert!(rx.try_recv().is_err());
    assert_eq!(state.last_emitted(), &None);
    assert!(signal.send(true).is_ok());
    assert!(!watch.check());
    let later = provider.tick(&watch, &mut state, &map, Some("com.apple.keylayout.Russian"));
    assert_eq!(later.verdict, LayoutVerdict::Stopped);
    assert!(rx.try_recv().is_err());
}

#[test]
fn provider_keeps_its_catalog() {
    let (provider, _rx, _signal, _watch) = fixture(&["en", "ru", "de"], 1);
    assert_eq!(provider.layouts(), &catalog(&["en", "ru", "de"]));
}
