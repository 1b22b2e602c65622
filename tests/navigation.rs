use express_shell::bytes::{bytes_equal, starts_with_bytes};
use express_shell::navigation::{classify_url, decide_navigation, is_internal_url, UrlClass};
use express_shell::window::{
    MAIN_WINDOW_FULLSCREEN, MAIN_WINDOW_HEIGHT, MAIN_WINDOW_LABEL, MAIN_WINDOW_RESIZABLE,
    MAIN_WINDOW_TITLE, MAIN_WINDOW_WIDTH, MAIN_WINDOW_ZOOM_HOTKEYS,
};

fn assert_allowed(url: &str, scheme: &str) {
    let d = decide_navigation(url, scheme);
    assert!(d.allow_in_view);
    assert_eq!(d.external_open, None);
}

fn assert_opened(url: &str, scheme: &str) {
    let d = decide_navigation(url, scheme);
    assert!(!d.allow_in_view);
    assert_eq!(d.external_open.as_deref(), Some(url));
}

#[test]
fn dev_server_page_loads_in_view() {
    assert_allowed("http://localhost:3000/app", "http");
    assert_eq!(classify_url("http://localhost:3000/app", "http"), UrlClass::Internal);
}

#[test]
fn outside_https_page_opens_in_browser() {
    assert_opened("https://example.com/page", "https");
    assert_eq!(classify_url("https://example.com/page", "https"), UrlClass::Web);
}

#[test]
fn outside_http_page_opens_in_browser() {
    assert_opened("http://example.org/", "http");
}

#[test]
fn mailto_opens_with_mail_handler() {
    assert_opened("mailto:user@example.com", "mailto");
    assert_eq!(classify_url("mailto:user@example.com", "mailto"), UrlClass::Mail);
}

#[test]
fn data_url_loads_in_view() {
    assert_allowed("data:text/plain,hello", "data");
    assert_eq!(classify_url("data:text/plain,hello", "data"), UrlClass::Other);
}

#[test]
fn blob_and_ftp_load_in_view() {
    assert_allowed("blob:http://localhost/1234", "blob");
    assert_allowed("ftp://files.example.com/a.txt", "ftp");
    assert_eq!(classify_url("ftp://files.example.com/a.txt", "ftp"), UrlClass::Other);
}

#[test]
fn app_origin_loads_in_view() {
    assert_allowed("tauri://localhost/index.html", "tauri");
    assert_eq!(classify_url("tauri://localhost/index.html", "tauri"), UrlClass::Internal);
}

#[test]
fn app_scheme_on_another_host_loads_in_view() {
    assert_allowed("tauri://other/index.html", "tauri");
    assert!(is_internal_url("tauri://other/index.html", "tauri"));
}

#[test]
fn any_local_host_port_is_internal() {
    assert_allowed("http://localhost:8080/x", "http");
    assert!(is_internal_url("http://localhost", "http"));
}

#[test]
fn https_local_host_is_not_internal() {
    assert!(!is_internal_url("https://localhost/", "https"));
    assert_opened("https://localhost/", "https");
}

#[test]
fn scheme_is_compared_exactly() {
    assert_allowed("HTTPS://example.com/", "HTTPS");
    assert_allowed("httpx://example.com/", "httpx");
}

#[test]
fn empty_url_and_scheme_load_in_view() {
    assert_allowed("", "");
    assert!(!is_internal_url("", ""));
}

#[test]
fn same_request_twice_is_decided_alike() {
    for (url, scheme) in [
        ("https://example.com/page", "https"),
        ("data:text/plain,hello", "data"),
        ("mailto:user@example.com", "mailto"),
    ] {
        let first = decide_navigation(url, scheme);
        let second = decide_navigation(&url.to_string(), &scheme.to_string());
        assert_eq!(first.allow_in_view, second.allow_in_view);
        assert_eq!(first.external_open, second.external_open);
    }
}

#[test]
fn byte_prefix_and_equality() {
    assert!(starts_with_bytes(b"abc", b""));
    assert!(starts_with_bytes(b"abc", b"ab"));
    assert!(starts_with_bytes(b"abc", b"abc"));
    assert!(!starts_with_bytes(b"abc", b"abcd"));
    assert!(!starts_with_bytes(b"abc", b"abd"));
    assert!(bytes_equal(b"", b""));
    assert!(bytes_equal(b"tauri", b"tauri"));
    assert!(!bytes_equal(b"tauri", b"taur"));
    assert!(!bytes_equal(b"tauri", b"tauro"));
}

#[test]
fn main_window_settings() {
    assert_eq!(MAIN_WINDOW_LABEL, "main");
    assert_eq!(MAIN_WINDOW_TITLE, "SuttaCentral Express");
    assert_eq!((MAIN_WINDOW_WIDTH, MAIN_WINDOW_HEIGHT), (800, 600));
    assert!(MAIN_WINDOW_RESIZABLE);
    assert!(!MAIN_WINDOW_FULLSCREEN);
    assert!(MAIN_WINDOW_ZOOM_HOTKEYS);
}
