//! Navigation, page content and history calls, the url query translation,
//! and deferred navigation for late-created widgets.

use webview_bridge::text::text_result;
use webview_bridge::{
    CommandResponse, NativeCall, NavState, Webview, WebviewBindContext, WebviewCallback,
    WebviewEngine, WebviewError,
};

struct PlainContext;

impl WebviewBindContext for PlainContext {}

struct SilentCallback;

impl WebviewCallback<PlainContext> for SilentCallback {
    fn invoke(
        &mut self,
        _request_id: &str,
        _payload: &str,
        _context: &mut PlainContext,
    ) -> Option<CommandResponse> {
        None
    }
}

/// A stand-in for the native engine: performs the recorded calls against an
/// in-memory page state, the way the toolkit glue performs them over FFI.
#[derive(Default)]
struct EngineStub {
    url: Option<String>,
}

impl EngineStub {
    fn perform(&mut self, call: NativeCall) {
        if let NativeCall::Navigate { url } = call {
            self.url = Some(url);
        }
    }
}

#[test]
fn navigate_on_a_fresh_wrapper_round_trips_through_the_engine() {
    let mut engine: WebviewEngine<PlainContext, SilentCallback> = WebviewEngine::new();
    assert_eq!(engine.navigate("https://example.com"), Ok(()));

    let mut stub = EngineStub::default();
    for call in engine.take_actions() {
        stub.perform(call);
    }

    // the url query answers with what the engine processed
    let answer = text_result(stub.url.clone());
    assert_eq!(answer, Ok(String::from("https://example.com")));
}

#[test]
fn url_query_without_an_engine_answer_reports_not_found() {
    assert_eq!(text_result(None), Err(WebviewError::NotFound));
}

#[test]
fn history_calls_are_recorded_in_order() {
    let mut engine: WebviewEngine<PlainContext, SilentCallback> = WebviewEngine::new();
    assert_eq!(engine.back(), Ok(()));
    assert_eq!(engine.forward(), Ok(()));
    assert_eq!(engine.stop(), Ok(()));
    assert_eq!(engine.reload(), Ok(()));
    let calls = engine.take_actions();
    assert_eq!(calls.len(), 4);
    assert!(matches!(calls[0], NativeCall::Back));
    assert!(matches!(calls[1], NativeCall::Forward));
    assert!(matches!(calls[2], NativeCall::Stop));
    assert!(matches!(calls[3], NativeCall::Reload));
}

#[test]
fn set_html_and_scripts_are_recorded_verbatim() {
    let mut engine: WebviewEngine<PlainContext, SilentCallback> = WebviewEngine::new();
    engine.set_html("<p>hi</p>").unwrap();
    engine.init("setup()").unwrap();
    engine.eval("go()").unwrap();
    let calls = engine.take_actions();
    assert_eq!(calls.len(), 3);
    match &calls[0] {
        NativeCall::SetHtml { html } => assert_eq!(html, "<p>hi</p>"),
        other => panic!("expected page content, got {:?}", other),
    }
    match &calls[1] {
        NativeCall::Init { script } => assert_eq!(script, "setup()"),
        other => panic!("expected an init script, got {:?}", other),
    }
    match &calls[2] {
        NativeCall::Eval { script } => assert_eq!(script, "go()"),
        other => panic!("expected an eval script, got {:?}", other),
    }
}

#[test]
fn navigation_before_the_widget_exists_is_remembered_and_replayed() {
    let mut state = NavState::new();
    assert!(!state.is_attached());
    assert_eq!(state.go_to("https://example.com"), None);
    // the creation event replays the remembered address
    assert_eq!(state.on_created(), "https://example.com");
    assert!(state.is_attached());
    // once attached, requests go out directly
    assert_eq!(
        state.go_to("https://example.org"),
        Some(String::from("https://example.org"))
    );
}

#[test]
fn creation_without_a_remembered_address_goes_to_the_blank_page() {
    let mut state = NavState::new();
    assert_eq!(state.on_created(), "about:blank");
    // an empty address always resolves to the blank page
    assert_eq!(state.go_to(""), Some(String::from("about:blank")));
}
