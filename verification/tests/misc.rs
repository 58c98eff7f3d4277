//! Status codes, error texts, addresses, lists, files, keys and frames.

use servo_scraper::capture::screenshot_outcome;
use servo_scraper::files::{input_file, mime_type_for_extension};
use servo_scraper::input::{parse_key_name, type_text_keys, Key, NamedKey};
use servo_scraper::list::split_list;
use servo_scraper::navigation::{init_failed, parse_url, InitStage};
use servo_scraper::status::{
    history_status, status_of, PAGE_NO_HISTORY, PAGE_ERR_CHANNEL, PAGE_ERR_INIT, PAGE_ERR_JS, PAGE_ERR_LOAD, PAGE_ERR_NO_PAGE,
    PAGE_ERR_NULL_PTR, PAGE_ERR_SCREENSHOT, PAGE_ERR_SELECTOR, PAGE_ERR_TIMEOUT, PAGE_OK,
};
use servo_scraper::{error_code, PageError, RawImage};

fn every_error() -> Vec<PageError> {
    vec![
        PageError::InitFailed("a".to_string()),
        PageError::LoadFailed("b".to_string()),
        PageError::Timeout,
        PageError::JsError("c".to_string()),
        PageError::ScreenshotFailed("d".to_string()),
        PageError::ChannelClosed,
        PageError::NoPage,
        PageError::SelectorNotFound("e".to_string()),
    ]
}

#[test]
fn each_error_has_its_code() {
    let codes: Vec<i32> = every_error().iter().map(error_code).collect();
    assert_eq!(codes, vec![1, 2, 3, 4, 5, 6, 8, 9]);
    assert_eq!(
        codes,
        vec![
            PAGE_ERR_INIT,
            PAGE_ERR_LOAD,
            PAGE_ERR_TIMEOUT,
            PAGE_ERR_JS,
            PAGE_ERR_SCREENSHOT,
            PAGE_ERR_CHANNEL,
            PAGE_ERR_NO_PAGE,
            PAGE_ERR_SELECTOR
        ]
    );
    assert_eq!(PAGE_OK, 0);
    assert_eq!(PAGE_ERR_NULL_PTR, 7);
    assert!(!codes.contains(&PAGE_OK));
    assert!(!codes.contains(&PAGE_ERR_NULL_PTR));
    assert_eq!(status_of(&Ok(())), PAGE_OK);
    assert_eq!(status_of(&Err(PageError::NoPage)), PAGE_ERR_NO_PAGE);
}

#[test]
fn a_page_without_history_has_a_status_of_its_own() {
    assert_eq!(PAGE_NO_HISTORY, 10);
    assert_eq!(history_status(&Ok(true)), PAGE_OK);
    assert_eq!(history_status(&Ok(false)), PAGE_NO_HISTORY);
    assert_eq!(history_status(&Err(PageError::NoPage)), PAGE_ERR_NO_PAGE);
    assert_eq!(history_status(&Err(PageError::Timeout)), PAGE_ERR_TIMEOUT);
    for error in every_error() {
        assert_ne!(error_code(&error), PAGE_NO_HISTORY);
    }
}

#[test]
fn each_error_has_its_text() {
    let texts: Vec<String> = every_error().iter().map(|e| e.message()).collect();
    assert_eq!(
        texts,
        vec![
            "initialization failed: a",
            "page load failed: b",
            "timed out",
            "JavaScript error: c",
            "screenshot failed: d",
            "internal channel closed",
            "no page open",
            "selector not found: e",
        ]
    );
}

#[test]
fn init_errors_name_their_stage() {
    match init_failed(InitStage::RenderingContext, "NoDevice") {
        PageError::InitFailed(msg) => assert_eq!(msg, "rendering context: NoDevice"),
        other => panic!("expected InitFailed, got: {other:?}"),
    }
    match init_failed(InitStage::MakeCurrent, "Lost") {
        PageError::InitFailed(msg) => assert_eq!(msg, "make_current: Lost"),
        other => panic!("expected InitFailed, got: {other:?}"),
    }
}

#[test]
fn addresses_must_be_absolute() {
    assert_eq!(
        parse_url("https://example.com").unwrap().as_str(),
        "https://example.com/"
    );
    assert_eq!(
        parse_url("HTTP://EXAMPLE.com:80/a b").unwrap().as_str(),
        "http://example.com/a%20b"
    );
    assert!(parse_url("data:text/html,<h1>x</h1>").is_ok());
    let kept = parse_url("https://example.com/a?b=c#d").unwrap();
    assert_eq!(kept.as_str(), "https://example.com/a?b=c#d");
    assert_eq!(kept.into_url().path(), "/a");
    assert!(parse_url("about:blank").is_ok());
    for (bad, why) in [
        ("not a url at all", "relative URL without a base"),
        ("", "relative URL without a base"),
        ("/path/only", "relative URL without a base"),
        ("http://", "empty host"),
        ("http://example.com:99999/", "invalid port number"),
    ] {
        match parse_url(bad) {
            Err(PageError::LoadFailed(msg)) => assert_eq!(msg, format!("invalid URL: {why}")),
            other => panic!("expected LoadFailed for {bad:?}, got: {other:?}"),
        }
    }
}

#[test]
fn lists_are_split_at_commas_and_trimmed() {
    assert_eq!(split_list(".png,.jpg"), vec![".png", ".jpg"]);
    assert_eq!(split_list(" .png , .jpg "), vec![".png", ".jpg"]);
    assert_eq!(split_list("a b, c\td"), vec!["a b", "c\td"]);
    assert_eq!(split_list("one"), vec!["one"]);
    assert_eq!(split_list(""), Vec::<String>::new());
    assert_eq!(split_list(" \t\n"), Vec::<String>::new());
    assert_eq!(split_list(",,,"), Vec::<String>::new());
    assert_eq!(split_list(", ,a,, ,b,"), vec!["a", "b"]);
    assert_eq!(split_list("a,a"), vec!["a", "a"]);
    assert_eq!(split_list("\u{a0}é\u{3000},\u{2003}ü"), vec!["é", "ü"]);
    assert_eq!(split_list("/tmp/a.txt, /tmp/b c.png"), vec!["/tmp/a.txt", "/tmp/b c.png"]);
}

#[test]
fn whitespace_is_what_the_standard_library_trims() {
    let white = |c: char| {
        matches!(
            c as u32,
            0x09..=0x0D
                | 0x20
                | 0x85
                | 0xA0
                | 0x1680
                | 0x2000..=0x200A
                | 0x2028
                | 0x2029
                | 0x202F
                | 0x205F
                | 0x3000
        )
    };
    for code in 0..=0x10FFFFu32 {
        let Some(c) = char::from_u32(code) else {
            continue;
        };
        assert_eq!(c.is_whitespace(), white(c), "U+{code:04X}");
    }
    for code in (0..0x3100u32).chain([0xFEFF, 0x1F600, 0x10FFFF]) {
        let Some(c) = char::from_u32(code) else {
            continue;
        };
        let kept = split_list(&format!("{c}a{c}"));
        if white(c) || c == ',' {
            assert_eq!(kept, vec!["a"], "U+{code:04X}");
        } else {
            assert_eq!(kept, vec![format!("{c}a{c}")], "U+{code:04X}");
        }
        let alone = split_list(&c.to_string());
        assert_eq!(alone.is_empty(), white(c) || c == ',', "U+{code:04X}");
    }
}

#[test]
fn lists_are_split_as_the_standard_library_would() {
    for text in [
        "a,b",
        "  x  ",
        ",",
        "a,,b",
        " a , b ,c ",
        "\u{85}a\u{85},b\u{1680}",
        "no commas here",
        "trailing,",
        ",leading",
        "\r\n a \r\n,\r\n",
    ] {
        let expected: Vec<String> = text
            .split(',')
            .map(|s| s.trim().to_string())
            .filter(|s| !s.is_empty())
            .collect();
        assert_eq!(split_list(text), expected, "text {text:?}");
    }
}

#[test]
fn mime_types_go_by_extension() {
    for (extension, mime) in [
        ("txt", "text/plain"),
        ("html", "text/html"),
        ("htm", "text/html"),
        ("css", "text/css"),
        ("js", "application/javascript"),
        ("json", "application/json"),
        ("xml", "application/xml"),
        ("pdf", "application/pdf"),
        ("png", "image/png"),
        ("jpg", "image/jpeg"),
        ("jpeg", "image/jpeg"),
        ("gif", "image/gif"),
        ("svg", "image/svg+xml"),
        ("webp", "image/webp"),
        ("zip", "application/zip"),
        ("csv", "text/csv"),
        ("PNG", "application/octet-stream"),
        ("", "application/octet-stream"),
        ("tar", "application/octet-stream"),
    ] {
        assert_eq!(mime_type_for_extension(Some(extension)), mime);
    }
    assert_eq!(mime_type_for_extension(None), "application/octet-stream");
}

#[test]
fn files_get_a_name_and_a_type() {
    let file = input_file(Some("a.png"), Some("png"), vec![1, 2, 3]);
    assert_eq!(file.name, "a.png");
    assert_eq!(file.mime_type, "image/png");
    assert_eq!(file.data, vec![1, 2, 3]);
    let nameless = input_file(None, None, vec![]);
    assert_eq!(nameless.name, "file");
    assert_eq!(nameless.mime_type, "application/octet-stream");
}

#[test]
fn key_names() {
    let named = [
        ("Enter", NamedKey::Enter),
        ("Tab", NamedKey::Tab),
        ("Escape", NamedKey::Escape),
        ("Backspace", NamedKey::Backspace),
        ("Delete", NamedKey::Delete),
        ("ArrowUp", NamedKey::ArrowUp),
        ("ArrowDown", NamedKey::ArrowDown),
        ("ArrowLeft", NamedKey::ArrowLeft),
        ("ArrowRight", NamedKey::ArrowRight),
        ("Home", NamedKey::Home),
        ("End", NamedKey::End),
        ("PageUp", NamedKey::PageUp),
        ("PageDown", NamedKey::PageDown),
    ];
    for (name, key) in named {
        match parse_key_name(name) {
            Key::Named(found) => assert_eq!(found, key),
            Key::Character(text) => panic!("{name} is a named key, got the text {text:?}"),
        }
    }
    for (name, typed) in [
        ("Space", " "),
        (" ", " "),
        ("a", "a"),
        ("enter", "enter"),
        ("ENTER", "ENTER"),
        ("", ""),
        ("é", "é"),
    ] {
        match parse_key_name(name) {
            Key::Character(text) => assert_eq!(text, typed),
            Key::Named(found) => panic!("{name:?} is no named key, got {found:?}"),
        }
    }
}

#[test]
fn a_text_is_typed_character_by_character() {
    assert!(type_text_keys("").is_empty());
    let keys = type_text_keys("a é日");
    let typed: Vec<String> = keys
        .iter()
        .map(|key| match key {
            Key::Character(text) => text.clone(),
            Key::Named(named) => panic!("unexpected named key {named:?}"),
        })
        .collect();
    assert_eq!(typed, vec!["a", " ", "é", "日"]);
}

#[test]
fn a_frame_must_hold_four_bytes_for_each_pixel() {
    assert!(RawImage::new(2, 3, vec![0; 24]).is_some());
    assert!(RawImage::new(2, 3, vec![0; 23]).is_none());
    assert!(RawImage::new(2, 3, vec![0; 25]).is_none());
    assert!(RawImage::new(0, 0, vec![]).is_some());
    assert!(RawImage::new(0, 5, vec![]).is_some());
    assert!(RawImage::new(u32::MAX, u32::MAX, vec![0; 16]).is_none());
    let image = RawImage::new(2, 3, vec![7; 24]).unwrap();
    assert_eq!((image.width(), image.height()), (2, 3));
}

#[test]
fn a_frame_is_encoded_as_png_with_its_dimensions() {
    let image = RawImage::new(3, 2, vec![0x80; 24]).unwrap();
    let png = image.to_png().unwrap();
    assert_eq!(&png[..8], &[0x89, b'P', b'N', b'G', 0x0D, 0x0A, 0x1A, 0x0A]);
    assert_eq!(&png[12..16], b"IHDR");
    assert_eq!(&png[16..20], &[0, 0, 0, 3]);
    assert_eq!(&png[20..24], &[0, 0, 0, 2]);
    assert_eq!(png[24], 8);
    assert_eq!(png[25], 6);
    let same = RawImage::new(3, 2, vec![0x80; 24]).unwrap().to_png().unwrap();
    assert_eq!(png, same);
}

#[test]
fn a_frame_without_pixels_cannot_be_encoded() {
    let empty = RawImage::new(0, 0, vec![]).unwrap();
    match empty.to_png() {
        Err(PageError::ScreenshotFailed(msg)) => {
            assert!(msg.starts_with("PNG encoding failed: "), "msg: {msg}");
            assert!(msg.len() > "PNG encoding failed: ".len(), "msg: {msg}");
        }
        other => panic!("expected ScreenshotFailed, got: {other:?}"),
    }
}

#[test]
fn a_capture_that_failed_or_never_came_is_told_apart() {
    match screenshot_outcome(true, Some(Err("no surface".to_string()))) {
        Err(PageError::ScreenshotFailed(msg)) => assert_eq!(msg, "no surface"),
        other => panic!("expected ScreenshotFailed, got: {other:?}"),
    }
    assert!(matches!(
        screenshot_outcome(false, None),
        Err(PageError::Timeout)
    ));
    assert!(matches!(
        screenshot_outcome(true, None),
        Err(PageError::Timeout)
    ));
    let late = RawImage::new(1, 1, vec![0; 4]).unwrap();
    assert!(matches!(
        screenshot_outcome(false, Some(Ok(late))),
        Err(PageError::Timeout)
    ));
}
