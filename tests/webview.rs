use cacao::config::WebViewConfig;
use cacao::foreign::{BaseClass, CallbackToken, ClassRef, Message, ObjectId};
use cacao::layout::{LayoutAnchorX, LayoutAnchorY, XEdge, YEdge};
use cacao::runtime::Runtime;
use cacao::webview::{NavigationPolicy, WebView, WebViewDelegate};

fn obj(slot: u64) -> ObjectId {
    ObjectId { slot }
}

fn class(slot: u64) -> ClassRef {
    ClassRef { slot }
}

fn config_with(names: &[&str]) -> WebViewConfig {
    let mut c = WebViewConfig::new();
    for n in names {
        c.add_handler(n);
    }
    c
}

fn channels(msgs: &[Message]) -> Vec<String> {
    msgs.iter()
        .filter_map(|m| match m {
            Message::AddScriptMessageHandler { name, .. } => Some(name.clone()),
            _ => None,
        })
        .collect()
}

#[derive(Default)]
struct Recorder {
    loads: usize,
    handle: Option<WebView>,
    messages: Vec<(String, String)>,
    refuse: bool,
}

impl WebViewDelegate for Recorder {
    fn did_load(&mut self, view: WebView) {
        self.loads += 1;
        self.handle = Some(view);
    }

    fn on_message(&mut self, name: &str, body: &str) {
        self.messages.push((name.to_string(), body.to_string()));
    }

    fn policy_for_navigation(&mut self, _url: &str) -> NavigationPolicy {
        if self.refuse {
            NavigationPolicy::Cancel
        } else {
            NavigationPolicy::Allow
        }
    }
}

#[test]
fn add_handler_keeps_a_set() {
    let c = config_with(&["a", "b", "a"]);
    assert_eq!(c.handlers, vec!["a".to_string(), "b".to_string()]);
    assert!(!c.downloads);
}

#[test]
fn take_handlers_leaves_none() {
    let mut c = config_with(&["x", "y"]);
    c.set_downloads(true);
    let taken = c.take_handlers();
    assert_eq!(taken, vec!["x".to_string(), "y".to_string()]);
    assert!(c.handlers.is_empty());
    assert!(c.downloads);
}

#[test]
fn into_inner_creates_configuration() {
    let mut rt = Runtime::new();
    let c = WebViewConfig::default();
    let o = c.into_inner(&mut rt);
    assert_eq!(o, obj(0));
    assert_eq!(rt.outbox, vec![Message::NewConfiguration { object: obj(0) }]);
}

#[test]
fn new_sends_the_allocation_sequence() {
    let mut rt = Runtime::new();
    let v = WebView::new(config_with(&["a"]), &mut rt);
    assert_eq!(v.objc, obj(2));
    assert_eq!(
        rt.outbox,
        vec![
            Message::DeclareClass { class: class(0), base: BaseClass::WebView },
            Message::NewConfiguration { object: obj(1) },
            Message::InitView { class: class(0), view: obj(2), configuration: obj(1) },
            Message::SetWantsLayer { view: obj(2), value: true },
            Message::SetTranslatesAutoresizingMask { view: obj(2), value: false },
        ]
    );
    assert!(channels(&rt.outbox).is_empty());
    assert!(v.delegate.is_none() && v.objc_delegate.is_none() && v.callback_token.is_none());
    assert_eq!(v.top, LayoutAnchorY { view: obj(2), edge: YEdge::Top });
    assert_eq!(v.center_x, LayoutAnchorX { view: obj(2), edge: XEdge::CenterX });
}

#[test]
fn with_wires_the_delegate() {
    let mut rt = Runtime::new();
    let mut c = config_with(&["a", "b"]);
    c.set_downloads(true);
    let v = WebView::with(c, Recorder::default(), &mut rt);
    let d = obj(1);
    let view = obj(4);
    assert_eq!(v.objc, view);
    assert_eq!(v.objc_delegate, Some(d));
    assert_eq!(v.callback_token, Some(CallbackToken { id: 0 }));
    assert_eq!(
        rt.outbox,
        vec![
            Message::DeclareClass { class: class(0), base: BaseClass::Delegate },
            Message::New { class: class(0), object: d },
            Message::SetDelegateSlot { object: d, token: CallbackToken { id: 0 } },
            Message::DeclareClass { class: class(2), base: BaseClass::WebView },
            Message::NewConfiguration { object: obj(3) },
            Message::SetDownloadDelegate { configuration: obj(3), delegate: d },
            Message::AddScriptMessageHandler { configuration: obj(3), delegate: d, name: "a".to_string() },
            Message::AddScriptMessageHandler { configuration: obj(3), delegate: d, name: "b".to_string() },
            Message::InitView { class: class(2), view, configuration: obj(3) },
            Message::SetWantsLayer { view, value: true },
            Message::SetTranslatesAutoresizingMask { view, value: false },
            Message::SetNavigationDelegate { view, delegate: d },
            Message::SetUIDelegate { view, delegate: d },
        ]
    );
}

#[test]
fn with_subscribes_each_channel_once() {
    let mut rt = Runtime::new();
    let _v = WebView::with(config_with(&["b", "a", "b", "c"]), Recorder::default(), &mut rt);
    assert_eq!(channels(&rt.outbox), vec!["b".to_string(), "a".to_string(), "c".to_string()]);
}

#[test]
fn with_calls_did_load_once_with_a_detached_handle() {
    let mut rt = Runtime::new();
    let v = WebView::with(WebViewConfig::new(), Recorder::default(), &mut rt);
    let d = v.delegate.as_ref().unwrap();
    assert_eq!(d.loads, 1);
    let h = d.handle.as_ref().unwrap();
    assert_eq!(h.objc, v.objc);
    assert!(h.delegate.is_none() && h.objc_delegate.is_none() && h.callback_token.is_none());
    assert_eq!(h.bottom, v.bottom);
    assert_eq!(h.width, v.width);
}

#[test]
fn bridge_classes_are_registered_once() {
    let mut rt = Runtime::new();
    let a = rt.register_delegate_class();
    let b = rt.register_delegate_class();
    assert_eq!(a, b);
    let _v1 = WebView::with(WebViewConfig::new(), Recorder::default(), &mut rt);
    let _v2 = WebView::with(WebViewConfig::new(), Recorder::default(), &mut rt);
    let _v3 = WebView::new(WebViewConfig::new(), &mut rt);
    let declared: Vec<&Message> =
        rt.outbox.iter().filter(|m| matches!(m, Message::DeclareClass { .. })).collect();
    assert_eq!(declared.len(), 2);
    assert_eq!(rt.view_class, Some(class(2)));
    assert_eq!(rt.delegate_class, Some(a));
}

#[test]
fn load_url_sends_one_request() {
    let mut rt = Runtime::new();
    let v = WebView::new(WebViewConfig::new(), &mut rt);
    let before = rt.outbox.len();
    v.load_url("https://example.com/", &mut rt);
    assert_eq!(rt.outbox.len(), before + 1);
    assert_eq!(
        rt.outbox[before],
        Message::LoadRequest { view: v.objc, url: "https://example.com/".to_string() }
    );
}

#[test]
fn load_url_passes_text_unchanged() {
    let mut rt = Runtime::new();
    let v = WebView::new(WebViewConfig::new(), &mut rt);
    let _ = rt.drain();
    v.load_url("not a url", &mut rt);
    assert_eq!(rt.outbox, vec![Message::LoadRequest { view: v.objc, url: "not a url".to_string() }]);
}

#[test]
fn add_subview_does_nothing() {
    let mut rt = Runtime::new();
    let v = WebView::new(WebViewConfig::new(), &mut rt);
    let other = WebView::new(WebViewConfig::new(), &mut rt);
    let before = rt.outbox.clone();
    v.add_subview(&other);
    assert_eq!(rt.outbox, before);
    assert_eq!(v.get_backing_node(), obj(2));
}

#[test]
fn messages_reach_the_delegate_by_token() {
    let mut rt = Runtime::new();
    let mut v = WebView::with(config_with(&["ch"]), Recorder::default(), &mut rt);
    let token = v.callback_token.unwrap();
    assert!(v.on_message(token, "ch", "hello"));
    assert!(!v.on_message(CallbackToken { id: token.id + 1 }, "ch", "lost"));
    let d = v.delegate.as_ref().unwrap();
    assert_eq!(d.messages, vec![("ch".to_string(), "hello".to_string())]);
}

#[test]
fn navigation_policy_comes_from_the_delegate() {
    let mut rt = Runtime::new();
    let rec = Recorder { refuse: true, ..Recorder::default() };
    let mut v = WebView::with(WebViewConfig::new(), rec, &mut rt);
    let token = v.callback_token.unwrap();
    assert_eq!(v.navigation_policy(token, "https://a.example/"), NavigationPolicy::Cancel);
    assert_eq!(
        v.navigation_policy(CallbackToken { id: 99 }, "https://a.example/"),
        NavigationPolicy::Allow
    );
}

#[test]
fn drain_hands_out_in_order() {
    let mut rt = Runtime::new();
    let v = WebView::new(WebViewConfig::new(), &mut rt);
    let sent = rt.drain();
    assert_eq!(sent.len(), 5);
    assert!(rt.outbox.is_empty());
    v.load_url("https://example.com/", &mut rt);
    assert_eq!(rt.outbox.len(), 1);
    assert_eq!(rt.next_object, 3);
}
