//! The session table: ids, focus, pop-ups, and the records of the pages.

use servo_scraper::capture::{FullpageCapture, FullpageStep};
use servo_scraper::delegate::{
    dialog_response, matches_blocked_pattern, ConsoleLevel, DialogKind, DialogResponse, LoadStatus,
};
use servo_scraper::run_loop::Step;
use servo_scraper::{JsNumber, JsValue, PageDelegate, PageEngine, PageError, PageOptions, SessionKey};

fn engine() -> PageEngine {
    PageEngine::new(PageOptions::default())
}

fn number(value: f64) -> JsValue {
    JsValue::Number(JsNumber {
        bits: value.to_bits(),
        text: serde_json::to_string(&value).unwrap(),
    })
}

#[test]
fn default_options() {
    let options = PageOptions::default();
    assert_eq!(options.width, 1280);
    assert_eq!(options.height, 720);
    assert_eq!(options.timeout, 30);
    assert_eq!(options.wait, 2_000_000_000);
    assert!(!options.fullpage);
    assert!(options.user_agent.is_none());
    let table = PageEngine::new(options);
    assert_eq!(table.options().width, 1280);
}

#[test]
fn ids_count_up_and_are_never_given_twice() {
    let mut table = engine();
    assert_eq!(table.next_page_id(), 0);
    assert_eq!(table.new_page(), 0);
    assert_eq!(table.new_page_with_size(320, 240), 1);
    assert_eq!(table.new_page(), 2);
    assert_eq!(table.page_ids(), vec![0, 1, 2]);
    assert_eq!(table.page_count(), 3);
    assert_eq!(table.page_size(0), Some((1280, 720)));
    assert_eq!(table.page_size(1), Some((320, 240)));
    assert_eq!(table.page_size(3), None);

    table.close_page(1).unwrap();
    assert_eq!(table.page_ids(), vec![0, 2]);
    assert_eq!(table.new_page(), 3);
    assert_eq!(table.page_ids(), vec![0, 2, 3]);
    table.close_page(3).unwrap();
    table.close_page(0).unwrap();
    assert_eq!(table.new_page(), 4);
    assert_eq!(table.page_ids(), vec![2, 4]);
    assert_eq!(table.next_page_id(), 5);
    assert!(table.can_allocate(1));
    assert!(table.can_allocate((u32::MAX - 5) as usize));
    assert!(!table.can_allocate((u32::MAX - 4) as usize));
}

#[test]
fn page_ids_come_smallest_first_however_many_pages_are_open() {
    let mut table = engine();
    for expected in 0..300u32 {
        assert_eq!(table.new_page(), expected);
    }
    for id in (0..300u32).filter(|id| id % 7 == 3) {
        table.close_page(id).unwrap();
    }
    let expected: Vec<u32> = (0..300u32).filter(|id| id % 7 != 3).collect();
    assert_eq!(table.page_ids(), expected);
    assert_eq!(table.page_count(), expected.len());
    assert!(table.contains_page(0));
    assert!(!table.contains_page(3));
    assert!(!table.contains_page(300));
}

#[test]
fn a_new_page_does_not_take_the_focus() {
    let mut table = engine();
    let id = table.new_page();
    assert_eq!(table.active_page_id(), None);
    assert!(matches!(table.active_page(), Err(PageError::NoPage)));
    table.switch_to(id).unwrap();
    assert_eq!(table.active_page_id(), Some(id));
    assert_eq!(table.active_page().unwrap(), id);
    assert!(matches!(table.webview(), Err(PageError::NoPage)));
    table.mark_attached(id);
    assert_eq!(table.webview().unwrap(), id);
    assert!(table.is_attached(id));
}

#[test]
fn switch_to_a_page_that_is_not_open_changes_nothing() {
    let mut table = engine();
    let id = table.new_page();
    table.switch_to(id).unwrap();
    assert!(matches!(table.switch_to(7), Err(PageError::NoPage)));
    assert_eq!(table.active_page_id(), Some(id));
}

#[test]
fn closing_the_focused_page_leaves_no_focus() {
    let mut table = engine();
    let a = table.new_page();
    let b = table.new_page();
    table.switch_to(a).unwrap();
    table.mark_attached(a);
    table.mark_attached(b);

    table.close_page(b).unwrap();
    assert_eq!(table.active_page_id(), Some(a));
    assert_eq!(table.webview().unwrap(), a);

    table.close_page(a).unwrap();
    assert_eq!(table.active_page_id(), None);
    assert!(matches!(table.webview(), Err(PageError::NoPage)));
    assert!(matches!(table.close_page(a), Err(PageError::NoPage)));
    assert_eq!(table.page_count(), 0);
}

#[test]
fn close_without_focus_closes_nothing() {
    let mut table = engine();
    table.new_page();
    table.close();
    assert_eq!(table.page_count(), 1);
    assert_eq!(table.active_page_id(), None);
}

#[test]
fn open_makes_the_first_page_only_where_none_is_open() {
    let mut table = PageEngine::new(PageOptions {
        width: 640,
        height: 480,
        ..PageOptions::default()
    });
    assert_eq!(table.open_needs_surface(), Some((640, 480)));
    assert_eq!(table.begin_open().unwrap(), (0, false));
    assert_eq!(table.active_page_id(), Some(0));
    assert_eq!(table.page_size(0), Some((640, 480)));
    assert!(table.is_attached(0));

    let other = table.new_page();
    assert_eq!(table.open_needs_surface(), None);
    assert_eq!(table.begin_open().unwrap(), (0, true));
    table.switch_to(other).unwrap();
    assert_eq!(table.begin_open().unwrap(), (other, false));
    assert_eq!(table.begin_open().unwrap(), (other, true));
}

#[test]
fn open_with_pages_and_no_focus_finds_no_page() {
    let mut table = engine();
    table.new_page();
    assert!(matches!(table.begin_open(), Err(PageError::NoPage)));
    assert_eq!(table.page_count(), 1);

    let mut closed = engine();
    let a = closed.new_page();
    let _b = closed.new_page();
    closed.switch_to(a).unwrap();
    closed.close_page(a).unwrap();
    assert!(matches!(closed.begin_open(), Err(PageError::NoPage)));
}

#[test]
fn reset_returns_to_the_state_in_which_the_table_was_made() {
    let mut table = engine();
    table.set_popup_handling(true);
    table.begin_open().unwrap();
    table.new_page();
    table.buffer_popup(100, 100);
    table.reset();
    assert_eq!(table.page_count(), 0);
    assert_eq!(table.active_page_id(), None);
    assert_eq!(table.next_page_id(), 0);
    assert_eq!(table.pending_popups(), 0);
    assert!(!table.popup_handling());
    assert_eq!(table.new_page(), 0);
    assert_eq!(table.request_create_new(SessionKey::Page(0)), None);
    assert_eq!(table.popup_pages(), Vec::<u32>::new());
}

#[test]
fn every_navigation_clears_the_load_flag_before_it_can_be_set_again() {
    let mut table = engine();
    let (page, _) = table.begin_open().unwrap();
    let key = SessionKey::Page(page);
    assert!(!table.delegate(page).unwrap().load_complete());
    table.notify_load_status_changed(key, LoadStatus::Started);
    table.notify_load_status_changed(key, LoadStatus::HeadParsed);
    assert!(!table.delegate(page).unwrap().load_complete());
    table.notify_load_status_changed(key, LoadStatus::Complete);
    assert!(table.delegate(page).unwrap().load_complete());
    table.notify_load_status_changed(key, LoadStatus::Started);
    assert!(table.delegate(page).unwrap().load_complete());

    table.begin_open().unwrap();
    assert!(!table.delegate(page).unwrap().load_complete());
    table.notify_load_status_changed(key, LoadStatus::Complete);
    assert!(table.delegate(page).unwrap().load_complete());
    table.begin_navigation().unwrap();
    assert!(!table.delegate(page).unwrap().load_complete());
}

#[test]
fn frames_are_counted_one_by_one() {
    let mut table = engine();
    let (page, _) = table.begin_open().unwrap();
    let key = SessionKey::Page(page);
    for expected in 1..=5 {
        table.notify_new_frame_ready(key);
        assert_eq!(table.delegate(page).unwrap().frame_count(), expected);
    }
    table.show_console_message(key, ConsoleLevel::Info, "x".to_string());
    table.notify_closed(key);
    assert_eq!(table.delegate(page).unwrap().frame_count(), 5);
    assert!(table.delegate(page).unwrap().closed());
}

#[test]
fn an_event_for_a_session_that_is_gone_changes_nothing() {
    let mut table = engine();
    let (page, _) = table.begin_open().unwrap();
    table.notify_new_frame_ready(SessionKey::Page(9));
    table.notify_new_frame_ready(SessionKey::Pending(0));
    table.show_console_message(SessionKey::Page(9), ConsoleLevel::Log, "lost".to_string());
    assert!(!table.load_web_resource(
        SessionKey::Page(9),
        "GET".to_string(),
        "http://a/".to_string(),
        true,
        1
    ));
    assert_eq!(table.delegate(page).unwrap().frame_count(), 0);
    assert!(table.console_messages().is_empty());
    assert!(table.network_requests().is_empty());
    assert!(table.session_delegate(SessionKey::Page(9)).is_none());
    assert!(table.session_delegate(SessionKey::Pending(0)).is_none());
}

#[test]
fn console_levels_are_recorded_by_name() {
    let mut record = PageDelegate::new(10, 20);
    let levels = [
        (ConsoleLevel::Log, "log"),
        (ConsoleLevel::Debug, "debug"),
        (ConsoleLevel::Info, "info"),
        (ConsoleLevel::Warn, "warn"),
        (ConsoleLevel::Error, "error"),
        (ConsoleLevel::Trace, "trace"),
    ];
    for (level, _) in levels {
        record.show_console_message(level, format!("{level:?}"));
    }
    let messages = record.drain_console_messages();
    let names: Vec<String> = messages.iter().map(|m| m.level.clone()).collect();
    let expected: Vec<String> = levels.iter().map(|(_, name)| name.to_string()).collect();
    assert_eq!(names, expected);
    assert_eq!(messages[3].message, "Warn");
    assert!(record.drain_console_messages().is_empty());
    assert_eq!((record.default_width(), record.default_height()), (10, 20));
}

#[test]
fn requests_are_recorded_whether_blocked_or_not() {
    let mut record = PageDelegate::new(1, 1);
    assert_eq!(record.last_request_time(), None);
    record.set_blocked_url_patterns(vec!["ads".to_string()]);
    assert!(record.load_web_resource(
        "GET".to_string(),
        "https://ads.example/x".to_string(),
        false,
        11
    ));
    assert!(!record.load_web_resource(
        "POST".to_string(),
        "https://example.com/".to_string(),
        true,
        12
    ));
    assert_eq!(record.last_request_time(), Some(12));
    let requests = record.drain_network_requests();
    assert_eq!(requests.len(), 2);
    assert_eq!(requests[0].url, "https://ads.example/x");
    assert_eq!(requests[1].method, "POST");
    assert!(requests[1].is_main_frame);
    assert!(record.drain_network_requests().is_empty());
    assert_eq!(record.last_request_time(), Some(12));
}

#[test]
fn a_pattern_blocks_where_it_occurs_in_the_url() {
    let patterns = vec![".png".to_string(), "track".to_string()];
    assert!(matches_blocked_pattern("http://a/b.png", &patterns));
    assert!(matches_blocked_pattern("http://a/b.png?x", &patterns));
    assert!(matches_blocked_pattern("http://tracker/", &patterns));
    assert!(!matches_blocked_pattern("http://a/b.PNG", &patterns));
    assert!(!matches_blocked_pattern("http://a/png", &patterns));
    assert!(!matches_blocked_pattern("", &patterns));
    assert!(!matches_blocked_pattern("http://a/b.png", &vec![]));
    assert!(matches_blocked_pattern("anything", &vec![String::new()]));
    assert!(matches_blocked_pattern("", &vec![String::new()]));
    assert!(matches_blocked_pattern("é.png", &vec!["é".to_string()]));
}

#[test]
fn patterns_belong_to_the_focused_page() {
    let mut table = engine();
    let (first, _) = table.begin_open().unwrap();
    let second = table.new_page();
    table.block_urls(vec!["x".to_string()]);
    assert!(table.load_web_resource(
        SessionKey::Page(first),
        "GET".to_string(),
        "http://x/".to_string(),
        true,
        1
    ));
    assert!(!table.load_web_resource(
        SessionKey::Page(second),
        "GET".to_string(),
        "http://x/".to_string(),
        true,
        1
    ));
    table.switch_to(second).unwrap();
    assert_eq!(table.network_requests().len(), 1);
    table.switch_to(first).unwrap();
    assert_eq!(table.network_requests().len(), 1);
}

#[test]
fn dialogs_are_answered_without_a_user() {
    assert_eq!(dialog_response(DialogKind::Alert), DialogResponse::Confirm);
    assert_eq!(dialog_response(DialogKind::Confirm), DialogResponse::Dismiss);
    assert_eq!(dialog_response(DialogKind::Prompt), DialogResponse::Dismiss);
    assert_eq!(dialog_response(DialogKind::Other), DialogResponse::Leave);
}

#[test]
fn pop_ups_are_dropped_unless_asked_for() {
    let mut table = engine();
    let (page, _) = table.begin_open().unwrap();
    assert_eq!(table.request_create_new(SessionKey::Page(page)), None);
    table.set_popup_handling(true);
    assert_eq!(
        table.request_create_new(SessionKey::Page(page)),
        Some((1280, 720))
    );
    assert_eq!(table.request_create_new(SessionKey::Page(99)), None);
    table.set_popup_handling(false);
    assert_eq!(table.request_create_new(SessionKey::Page(page)), None);
}

#[test]
fn pop_ups_get_their_ids_in_the_order_they_came() {
    let mut table = engine();
    table.set_popup_handling(true);
    let parent = table.new_page_with_size(300, 200);
    table.switch_to(parent).unwrap();
    let size = table.request_create_new(SessionKey::Page(parent)).unwrap();
    assert_eq!(size, (300, 200));
    assert_eq!(table.buffer_popup(size.0, size.1), SessionKey::Pending(0));
    assert_eq!(table.buffer_popup(size.0, size.1), SessionKey::Pending(1));
    assert_eq!(
        table.request_create_new(SessionKey::Pending(1)),
        Some((300, 200))
    );
    table.notify_load_status_changed(SessionKey::Pending(1), LoadStatus::Complete);
    table.notify_new_frame_ready(SessionKey::Pending(0));
    assert_eq!(table.pending_popups(), 2);
    assert_eq!(table.page_count(), 1);

    let other = table.new_page();
    assert_eq!(other, 1);
    assert!(table.can_allocate(table.pending_popups()));
    assert_eq!(table.popup_pages(), vec![2, 3]);
    assert_eq!(table.pending_popups(), 0);
    assert_eq!(table.popup_pages(), Vec::<u32>::new());
    assert_eq!(table.page_ids(), vec![0, 1, 2, 3]);
    assert_eq!(table.active_page_id(), Some(parent));
    assert!(table.is_attached(2));
    assert!(table.is_attached(3));
    assert_eq!(table.page_size(3), Some((300, 200)));
    assert_eq!(table.delegate(2).unwrap().frame_count(), 1);
    assert!(!table.delegate(2).unwrap().load_complete());
    assert!(table.delegate(3).unwrap().load_complete());
    assert_eq!(table.next_page_id(), 4);
}

#[test]
fn network_idle_wait_begins_only_where_a_request_was_seen() {
    let mut table = engine();
    let (page, _) = table.begin_open().unwrap();
    assert!(table.begin_network_idle_wait(500, 5, 100).unwrap().is_none());
    table.load_web_resource(
        SessionKey::Page(page),
        "GET".to_string(),
        "http://a/".to_string(),
        true,
        50,
    );
    let mut wait = table.begin_network_idle_wait(500, 5, 100).unwrap().unwrap();
    assert_eq!(wait.last_seen, Some(50));
    assert_eq!(wait.observe(Some(50), 500_000_099), Step::Pump);
    assert_eq!(wait.observe(Some(50), 500_000_100), Step::Finished(true));
}

#[test]
fn full_page_capture_resizes_at_most_twice() {
    let mut table = PageEngine::new(PageOptions {
        width: 800,
        height: 600,
        ..PageOptions::default()
    });
    table.begin_open().unwrap();

    let capture = FullpageCapture::begin(&table).unwrap();
    assert_eq!(capture.page(), 0);
    let first = match capture.measured(&Ok(number(3000.4))) {
        FullpageStep::Resize(first) => first,
        FullpageStep::Capture => panic!("taller than the viewport"),
    };
    assert_eq!((first.page, first.width, first.height), (0, 800, 3000));
    let again = first.repainted(true).unwrap();
    match again.measured(&Ok(number(3500.0))) {
        FullpageStep::Resize(second) => {
            assert_eq!((second.page, second.width, second.height), (0, 800, 3500))
        }
        FullpageStep::Capture => panic!("the document grew"),
    }
}

#[test]
fn full_page_capture_of_a_short_document_does_not_resize() {
    let mut table = PageEngine::new(PageOptions {
        width: 800,
        height: 600,
        ..PageOptions::default()
    });
    table.begin_open().unwrap();
    for outcome in [
        Ok(number(600.0)),
        Ok(number(599.9)),
        Ok(number(0.0)),
        Ok(number(-10.0)),
        Ok(number(f64::NAN)),
        Ok(JsValue::Null),
        Ok(JsValue::String("3000".to_string())),
        Err(PageError::Timeout),
        Err(PageError::JsError("x".to_string())),
    ] {
        let capture = FullpageCapture::begin(&table).unwrap();
        assert!(matches!(capture.measured(&outcome), FullpageStep::Capture));
    }
    let capture = FullpageCapture::begin(&table).unwrap();
    assert!(matches!(
        capture.measured(&Ok(number(600.5))),
        FullpageStep::Capture
    ));
    let capture = FullpageCapture::begin(&table).unwrap();
    assert!(matches!(
        capture.measured(&Ok(number(601.0))),
        FullpageStep::Resize(_)
    ));
}

#[test]
fn full_page_capture_times_out_without_a_repaint() {
    let mut table = PageEngine::new(PageOptions {
        width: 800,
        height: 600,
        ..PageOptions::default()
    });
    table.begin_open().unwrap();
    let capture = FullpageCapture::begin(&table).unwrap();
    let first = match capture.measured(&Ok(number(3000.0))) {
        FullpageStep::Resize(first) => first,
        FullpageStep::Capture => panic!("taller than the viewport"),
    };
    match first.repainted(false) {
        Err(PageError::Timeout) => {}
        other => panic!("expected Timeout, got: {other:?}"),
    }
    assert!(table.is_attached(0));
}

#[test]
fn full_page_capture_resizes_again_only_for_a_document_that_grew() {
    let mut table = PageEngine::new(PageOptions {
        width: 800,
        height: 600,
        ..PageOptions::default()
    });
    table.begin_open().unwrap();
    let resize = |table: &PageEngine| match FullpageCapture::begin(table)
        .unwrap()
        .measured(&Ok(number(3000.0)))
    {
        FullpageStep::Resize(first) => first,
        FullpageStep::Capture => panic!("taller than the viewport"),
    };
    for outcome in [
        Ok(number(3000.0)),
        Ok(number(3000.9)),
        Ok(number(2999.0)),
        Ok(number(700.0)),
        Ok(number(600.0)),
        Ok(number(500.0)),
        Ok(number(0.0)),
        Ok(JsValue::Undefined),
        Err(PageError::Timeout),
    ] {
        let again = resize(&table).repainted(true).unwrap();
        assert!(matches!(again.measured(&outcome), FullpageStep::Capture));
    }
    let again = resize(&table).repainted(true).unwrap();
    match again.measured(&Ok(number(3001.0))) {
        FullpageStep::Resize(second) => {
            assert_eq!((second.page, second.width, second.height), (0, 800, 3001))
        }
        FullpageStep::Capture => panic!("the document grew"),
    }
}
