//! The navigation classifier: given the URL the web view is about to load,
//! and that URL's scheme, decide whether the view loads it or the system's
//! default handler opens it instead.
use vstd::prelude::*;
use vstd::string::StringSliceAdditionalSpecFns;

use crate::bytes::{bytes_equal, has_prefix, starts_with_bytes};

verus! {

/// Origin of the development server.
pub const DEV_SERVER_ORIGIN: &'static str = "http://localhost:3000";

/// Origin of anything served from the local host.
pub const LOCAL_HOST_ORIGIN: &'static str = "http://localhost";

/// Origin under which the packaged application serves its own pages.
pub const APP_ORIGIN: &'static str = "tauri://localhost";

/// The application's own URL scheme.
pub const APP_SCHEME: &'static str = "tauri";

pub const HTTP_SCHEME: &'static str = "http";

pub const HTTPS_SCHEME: &'static str = "https";

pub const MAILTO_SCHEME: &'static str = "mailto";

/// The class of a URL, by the first rule of the policy that it meets.
#[derive(PartialEq, Eq, Structural, Clone, Copy, Debug)]
pub enum UrlClass {
    /// One of the application's own pages: loaded in the view.
    Internal,
    /// An outside web page: opened in the system browser.
    Web,
    /// A mail address: opened by the system's mail handler.
    Mail,
    /// Any other scheme (`data:`, `blob:`, ...): loaded in the view.
    Other,
}

/// The URL is one of the application's own: it starts with a trusted origin,
/// or its scheme is the application's scheme.
pub open spec fn is_internal(url: Seq<u8>, scheme: Seq<u8>) -> bool {
    has_prefix(url, DEV_SERVER_ORIGIN.spec_bytes())
        || has_prefix(url, LOCAL_HOST_ORIGIN.spec_bytes())
        || has_prefix(url, APP_ORIGIN.spec_bytes())
        || scheme == APP_SCHEME.spec_bytes()
}

pub open spec fn is_web_scheme(scheme: Seq<u8>) -> bool {
    scheme == HTTP_SCHEME.spec_bytes() || scheme == HTTPS_SCHEME.spec_bytes()
}

pub open spec fn is_mail_scheme(scheme: Seq<u8>) -> bool {
    scheme == MAILTO_SCHEME.spec_bytes()
}

/// The policy's rules in order; the first that matches decides.
pub open spec fn url_class(url: Seq<u8>, scheme: Seq<u8>) -> UrlClass {
    if is_internal(url, scheme) {
        UrlClass::Internal
    } else if is_web_scheme(scheme) {
        UrlClass::Web
    } else if is_mail_scheme(scheme) {
        UrlClass::Mail
    } else {
        UrlClass::Other
    }
}

/// URLs of this class are loaded in the view.
pub open spec fn class_allows_in_view(c: UrlClass) -> bool {
    c == UrlClass::Internal || c == UrlClass::Other
}

/// URLs of this class are handed to the system's default handler.
pub open spec fn class_opens_externally(c: UrlClass) -> bool {
    c == UrlClass::Web || c == UrlClass::Mail
}

/// What a navigation decision means: whether the view loads the URL, and
/// the URL to open outside the view, if any.
pub struct NavigationView {
    pub allow_in_view: bool,
    pub external_open: Option<Seq<char>>,
}

/// The decision owed for the URL `url` with scheme `scheme`.
pub open spec fn navigation_of(url: &str, scheme: &str) -> NavigationView {
    let c = url_class(url.spec_bytes(), scheme.spec_bytes());
    NavigationView {
        allow_in_view: class_allows_in_view(c),
        external_open: if class_opens_externally(c) {
            Some(url@)
        } else {
            None
        },
    }
}

/// The outcome of one navigation request: whether the view goes on loading
/// the URL, and the URL that the caller is to open with the system's default
/// handler, if any. Opening it is best effort: its failure is not reported.
pub struct NavigationDecision {
    pub allow_in_view: bool,
    pub external_open: Option<String>,
}

impl View for NavigationDecision {
    type V = NavigationView;

    open spec fn view(&self) -> NavigationView {
        NavigationView {
            allow_in_view: self.allow_in_view,
            external_open: match self.external_open {
                Some(s) => Some(s@),
                None => None,
            },
        }
    }
}

/// Whether the URL is one of the application's own.
pub fn is_internal_url(url: &str, scheme: &str) -> (r: bool)
    ensures
        r == is_internal(url.spec_bytes(), scheme.spec_bytes()),
{
    let u = url.as_bytes();
    starts_with_bytes(u, DEV_SERVER_ORIGIN.as_bytes())
        || starts_with_bytes(u, LOCAL_HOST_ORIGIN.as_bytes())
        || starts_with_bytes(u, APP_ORIGIN.as_bytes())
        || bytes_equal(scheme.as_bytes(), APP_SCHEME.as_bytes())
}

/// The class of the URL `url`, whose scheme is `scheme`.
pub fn classify_url(url: &str, scheme: &str) -> (c: UrlClass)
    ensures
        c == url_class(url.spec_bytes(), scheme.spec_bytes()),
{
    let s = scheme.as_bytes();
    if is_internal_url(url, scheme) {
        UrlClass::Internal
    } else if bytes_equal(s, HTTP_SCHEME.as_bytes()) || bytes_equal(s, HTTPS_SCHEME.as_bytes()) {
        UrlClass::Web
    } else if bytes_equal(s, MAILTO_SCHEME.as_bytes()) {
        UrlClass::Mail
    } else {
        UrlClass::Other
    }
}

/// Decides a navigation of the view to `url`, whose scheme is `scheme`.
/// The view's own pages and inert schemes load in the view; web pages and
/// mail addresses are refused there and handed, unchanged, to the system.
pub fn decide_navigation(url: &str, scheme: &str) -> (d: NavigationDecision)
    ensures
        d@ == navigation_of(url, scheme),
{
    match classify_url(url, scheme) {
        UrlClass::Internal | UrlClass::Other => NavigationDecision {
            allow_in_view: true,
            external_open: None,
        },
        UrlClass::Web | UrlClass::Mail => NavigationDecision {
            allow_in_view: false,
            external_open: Some(url.to_owned()),
        },
    }
}

/// A URL of the application's own, by origin or by scheme, is loaded in the
/// view, and nothing is opened outside it.
pub proof fn lemma_internal_stays_in_view(url: &str, scheme: &str)
    requires
        is_internal(url.spec_bytes(), scheme.spec_bytes()),
    ensures
        navigation_of(url, scheme) == (NavigationView { allow_in_view: true, external_open: None }),
{
}

/// An `http` or `https` URL that is not one of the application's own is
/// refused in the view and opened outside it, once, exactly as given.
pub proof fn lemma_web_opens_externally(url: &str, scheme: &str)
    requires
        is_web_scheme(scheme.spec_bytes()),
        !is_internal(url.spec_bytes(), scheme.spec_bytes()),
    ensures
        navigation_of(url, scheme) == (NavigationView {
            allow_in_view: false,
            external_open: Some(url@),
        }),
{
}

/// A `mailto` URL that is not one of the application's own is refused in
/// the view and opened outside it, once, exactly as given.
pub proof fn lemma_mail_opens_externally(url: &str, scheme: &str)
    requires
        is_mail_scheme(scheme.spec_bytes()),
        !is_internal(url.spec_bytes(), scheme.spec_bytes()),
    ensures
        navigation_of(url, scheme) == (NavigationView {
            allow_in_view: false,
            external_open: Some(url@),
        }),
{
}

/// A URL of any scheme other than `http`, `https` and `mailto` is loaded in
/// the view, and nothing is opened outside it.
pub proof fn lemma_other_schemes_stay_in_view(url: &str, scheme: &str)
    requires
        !is_web_scheme(scheme.spec_bytes()),
        !is_mail_scheme(scheme.spec_bytes()),
    ensures
        navigation_of(url, scheme) == (NavigationView { allow_in_view: true, external_open: None }),
{
}

/// The decision depends on the URL's text and scheme alone: two requests for
/// the same URL are decided alike, whenever they come.
pub proof fn lemma_decision_repeats(url1: &str, scheme1: &str, url2: &str, scheme2: &str)
    requires
        url1@ == url2@,
        scheme1@ == scheme2@,
    ensures
        navigation_of(url1, scheme1) == navigation_of(url2, scheme2),
{
}

} // verus!
