//! Every operation that accepts a string rejects an embedded null byte
//! locally, with no native call recorded.

use webview_bridge::{
    CommandResponse, Webview, WebviewBindContext, WebviewCallback, WebviewEngine, WebviewError,
    WebviewExt,
};

struct PlainContext;

impl WebviewBindContext for PlainContext {}

struct SilentCallback;

impl WebviewCallback<PlainContext> for SilentCallback {
    fn invoke(
        &mut self,
        _request_id: &str,
        _payload: &str,
        _context: &mut PlainContext,
    ) -> Option<CommandResponse> {
        None
    }
}

fn fresh() -> WebviewEngine<PlainContext, SilentCallback> {
    WebviewEngine::new()
}

#[test]
fn navigate_rejects_embedded_nul_without_native_call() {
    let mut engine = fresh();
    assert_eq!(
        engine.navigate("https://exa\0mple.com"),
        Err(WebviewError::InvalidArgument)
    );
    assert_eq!(engine.call_count(), 0);
}

#[test]
fn set_html_rejects_embedded_nul_without_native_call() {
    let mut engine = fresh();
    assert_eq!(
        engine.set_html("<p>a\0b</p>"),
        Err(WebviewError::InvalidArgument)
    );
    assert_eq!(engine.call_count(), 0);
}

#[test]
fn init_rejects_embedded_nul_without_native_call() {
    let mut engine = fresh();
    assert_eq!(
        engine.init("var a = '\0';"),
        Err(WebviewError::InvalidArgument)
    );
    assert_eq!(engine.call_count(), 0);
}

#[test]
fn eval_rejects_embedded_nul_without_native_call() {
    let mut engine = fresh();
    assert_eq!(
        engine.eval("doIt('\0')"),
        Err(WebviewError::InvalidArgument)
    );
    assert_eq!(engine.call_count(), 0);
}

#[test]
fn bind_rejects_embedded_nul_name_without_native_call() {
    let mut engine = fresh();
    assert_eq!(
        engine.bind("gre\0et", PlainContext, SilentCallback),
        Err(WebviewError::InvalidArgument)
    );
    assert_eq!(engine.binding_count(), 0);
    assert_eq!(engine.call_count(), 0);
}

#[test]
fn unbind_rejects_embedded_nul_name_without_native_call() {
    let mut engine = fresh();
    engine.bind("greet", PlainContext, SilentCallback).unwrap();
    engine.take_actions();
    assert_eq!(
        engine.unbind("gre\0et"),
        Err(WebviewError::InvalidArgument)
    );
    assert_eq!(engine.binding_count(), 1);
    assert_eq!(engine.call_count(), 0);
}

#[test]
fn return_rejects_embedded_nul_id_and_payload_without_native_call() {
    let mut engine = fresh();
    engine.bind("ask", PlainContext, SilentCallback).unwrap();
    let slot = engine.bound_slot("ask").unwrap();
    engine.on_command(slot, "3", "{}");
    engine.take_actions();
    assert_eq!(
        engine.return_("3\0", 0, "fine"),
        Err(WebviewError::InvalidArgument)
    );
    assert_eq!(
        engine.return_("3", 0, "fi\0ne"),
        Err(WebviewError::InvalidArgument)
    );
    assert_eq!(engine.call_count(), 0);
    // the request is still pending: nothing was consumed by the rejections
    assert!(engine.is_pending("3"));
}

#[test]
fn nul_free_strings_pass_through() {
    let mut engine = fresh();
    assert_eq!(engine.navigate("https://example.com"), Ok(()));
    assert_eq!(engine.set_html("<p>ab</p>"), Ok(()));
    assert_eq!(engine.init("var a = 1;"), Ok(()));
    assert_eq!(engine.eval("doIt()"), Ok(()));
    assert_eq!(engine.call_count(), 4);
}
