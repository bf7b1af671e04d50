use wrywebview::state::{EngineEvent, WebViewState};

fn text(s: &str) -> String {
    s.to_string()
}

#[test]
fn new_mirror_shows_the_requested_page_as_loading() {
    let state = WebViewState::new(text("https://example.com"));
    assert_eq!(state.url(), "https://example.com");
    assert!(state.is_loading());
    assert_eq!(state.title(), "");
    assert_eq!(state.pending_messages(), 0);
}

#[test]
fn load_finished_clears_loading_and_records_the_address() {
    let mut state = WebViewState::new(text("https://example.com"));
    state.apply(EngineEvent::LoadFinished(text("https://example.com/home")));
    assert!(!state.is_loading());
    assert_eq!(state.url(), "https://example.com/home");
}

#[test]
fn load_started_sets_loading_and_records_the_address() {
    let mut state = WebViewState::new(text("a"));
    state.set_loading(false);
    state.apply(EngineEvent::LoadStarted(text("b")));
    assert!(state.is_loading());
    assert_eq!(state.url(), "b");
}

#[test]
fn navigation_started_sets_loading_only() {
    let mut state = WebViewState::new(text("a"));
    state.set_loading(false);
    state.set_title(text("t"));
    state.apply(EngineEvent::NavigationStarted(text("b")));
    assert!(state.is_loading());
    assert_eq!(state.url(), "a");
    assert_eq!(state.title(), "t");
}

#[test]
fn title_changed_records_the_title_only() {
    let mut state = WebViewState::new(text("a"));
    state.apply(EngineEvent::TitleChanged(text("Example Domain")));
    assert_eq!(state.title(), "Example Domain");
    assert_eq!(state.url(), "a");
    assert!(state.is_loading());
}

#[test]
fn setters_change_one_attribute_each() {
    let mut state = WebViewState::new(text("a"));
    state.set_url(text("b"));
    assert_eq!(state.url(), "b");
    assert!(state.is_loading());
    state.set_title(text("T"));
    assert_eq!(state.title(), "T");
    assert_eq!(state.url(), "b");
    state.set_loading(false);
    assert!(!state.is_loading());
    assert_eq!(state.title(), "T");
}

#[test]
fn messages_are_drained_in_arrival_order() {
    let mut state = WebViewState::new(text("a"));
    state.push_message(text("one"));
    state.apply(EngineEvent::MessageReceived(text("two")));
    state.push_message(text("three"));
    assert_eq!(state.pending_messages(), 3);
    assert_eq!(state.drain_messages(), vec![text("one"), text("two"), text("three")]);
    assert_eq!(state.pending_messages(), 0);
}

#[test]
fn second_drain_in_a_row_is_empty() {
    let mut state = WebViewState::new(text("a"));
    state.push_message(text("one"));
    assert_eq!(state.drain_messages(), vec![text("one")]);
    assert_eq!(state.drain_messages(), Vec::<String>::new());
    assert_eq!(state.drain_messages(), Vec::<String>::new());
    state.push_message(text("two"));
    assert_eq!(state.drain_messages(), vec![text("two")]);
}

#[test]
fn draining_keeps_the_other_attributes() {
    let mut state = WebViewState::new(text("a"));
    state.set_title(text("T"));
    state.push_message(text("one"));
    let _ = state.drain_messages();
    assert_eq!(state.url(), "a");
    assert_eq!(state.title(), "T");
    assert!(state.is_loading());
}
