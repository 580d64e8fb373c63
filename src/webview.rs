use vstd::prelude::*;
use crate::config::{names_of, WebViewConfig};
use crate::foreign::{CallbackToken, ClassRef, Message, ObjectId};
use crate::layout::{
    Dimension, LayoutAnchorDimension, LayoutAnchorX, LayoutAnchorY, XEdge, YEdge,
};
use crate::runtime::{Runtime, RuntimeModel};

verus! {

/// What a delegate answers when the view asks whether a navigation may go ahead.
#[derive(Clone, Copy, Debug, PartialEq, Eq, Structural)]
pub enum NavigationPolicy {
    Allow,
    Cancel,
}


/// A web view: the foreign view, its constraint anchors and, when it was
/// built with [`WebView::with`], the user delegate and the foreign delegate
/// object that forwards runtime callbacks to it.
#[derive(Debug)]
pub struct WebView<T = ()> {
    /// The foreign view.
    pub objc: ObjectId,
    /// The foreign delegate object, present only with a user delegate.
    pub objc_delegate: Option<ObjectId>,
    /// The token stored in the foreign delegate's slot; callbacks that carry
    /// it are routed to this view's delegate.
    pub callback_token: Option<CallbackToken>,
    /// The user delegate.
    pub delegate: Option<T>,
    pub top: LayoutAnchorY,
    pub leading: LayoutAnchorX,
    pub trailing: LayoutAnchorX,
    pub bottom: LayoutAnchorY,
    pub width: LayoutAnchorDimension,
    pub height: LayoutAnchorDimension,
    pub center_x: LayoutAnchorX,
    pub center_y: LayoutAnchorY,
}

/// Lifecycle and event callbacks of a web view, implemented by its user.
pub trait WebViewDelegate {
    /// Called exactly once, before [`WebView::with`] returns, with a handle to
    /// the new view that holds no delegate.
    fn did_load(&mut self, view: WebView<()>) {
    }

    /// A script posted `body` to the channel `name`.
    fn on_message(&mut self, name: &str, body: &str) {
    }

    /// Whether the view may navigate to `url`.
    fn policy_for_navigation(&mut self, url: &str) -> NavigationPolicy {
        NavigationPolicy::Allow
    }
}

/// Subscriptions of `delegate` to each channel of `handlers`, in order.
pub open spec fn subscriptions(
    handlers: Seq<String>,
    configuration: ObjectId,
    delegate: ObjectId,
) -> Seq<Message> {
    handlers.map_values(
        |h: String| Message::AddScriptMessageHandler { configuration, delegate, name: h },
    )
}

/// The messages that bring up a web view of class `class` in slot `view`,
/// with its configuration in slot `configuration`.
pub open spec fn allocation_messages(
    handlers: Seq<String>,
    downloads: bool,
    class: ClassRef,
    configuration: ObjectId,
    view: ObjectId,
    delegate: Option<ObjectId>,
) -> Seq<Message> {
    let before = match delegate {
        Some(d) => (if downloads {
            seq![Message::SetDownloadDelegate { configuration, delegate: d }]
        } else {
            Seq::empty()
        }) + subscriptions(handlers, configuration, d),
        None => Seq::empty(),
    };
    let after = match delegate {
        Some(d) => seq![
            Message::SetNavigationDelegate { view, delegate: d },
            Message::SetUIDelegate { view, delegate: d },
        ],
        None => Seq::empty(),
    };
    seq![Message::NewConfiguration { object: configuration }] + before + seq![
        Message::InitView { class, view, configuration },
        Message::SetWantsLayer { view, value: true },
        Message::SetTranslatesAutoresizingMask { view, value: false },
    ] + after
}

/// Allocating a web view from `m`: the state after it, and the view's slot.
pub open spec fn allocation(
    m: RuntimeModel,
    handlers: Seq<String>,
    downloads: bool,
    delegate: Option<ObjectId>,
) -> (RuntimeModel, ObjectId) {
    let (m1, class) = m.register_view_class();
    let configuration = m1.fresh_object();
    let view = m1.take_slot().fresh_object();
    (
        m1.take_slot().take_slot().send(
            allocation_messages(handlers, downloads, class, configuration, view, delegate),
        ),
        view,
    )
}

/// The delegate side of [`WebView::with`], before the view is allocated:
/// the state after it, the foreign delegate's slot and the callback token
/// stored in it.
pub open spec fn delegate_setup(m: RuntimeModel) -> (RuntimeModel, ObjectId, CallbackToken) {
    let token = CallbackToken { id: m.next_token };
    let m1 = RuntimeModel { next_token: (m.next_token + 1) as u64, ..m };
    let (m2, class) = m1.register_delegate_class();
    let d = m2.fresh_object();
    (
        m2.take_slot().send(
            seq![
                Message::New { class, object: d },
                Message::SetDelegateSlot { object: d, token },
            ],
        ),
        d,
        token,
    )
}

/// The names of the channels that the messages subscribe to, in order.
pub open spec fn channels(msgs: Seq<Message>) -> Seq<Seq<char>>
    decreases msgs.len(),
{
    if msgs.len() == 0 {
        Seq::empty()
    } else {
        let rest = channels(msgs.drop_last());
        match msgs.last() {
            Message::AddScriptMessageHandler { name, .. } => rest.push(name@),
            _ => rest,
        }
    }
}

proof fn lemma_channels_concat(a: Seq<Message>, b: Seq<Message>)
    ensures
        channels(a + b) == channels(a) + channels(b),
    decreases b.len(),
{
    if b.len() == 0 {
        assert(a + b =~= a);
        assert(channels(b) =~= Seq::empty());
        assert(channels(a) + channels(b) =~= channels(a));
    } else {
        lemma_channels_concat(a, b.drop_last());
        assert((a + b).drop_last() =~= a + b.drop_last());
        assert((a + b).last() == b.last());
        match b.last() {
            Message::AddScriptMessageHandler { name, .. } => {
                assert(channels(a) + channels(b) =~= (channels(a) + channels(b.drop_last())).push(name@));
            },
            _ => {},
        }
    }
}

proof fn lemma_channels_of_subscriptions(h: Seq<String>, c: ObjectId, d: ObjectId)
    ensures
        channels(subscriptions(h, c, d)) == names_of(h),
    decreases h.len(),
{
    if h.len() > 0 {
        lemma_channels_of_subscriptions(h.drop_last(), c, d);
        assert(subscriptions(h, c, d).drop_last() =~= subscriptions(h.drop_last(), c, d));
        assert(names_of(h) =~= names_of(h.drop_last()).push(h.last()@));
    } else {
        assert(names_of(h) =~= Seq::empty());
    }
}

/// With a delegate, the messages that bring up a view subscribe it to exactly
/// the configuration's channels, each once; without one, to none.
pub proof fn lemma_allocation_channels(
    config: WebViewConfig,
    class: ClassRef,
    configuration: ObjectId,
    view: ObjectId,
    delegate: Option<ObjectId>,
)
    requires
        config.wf(),
    ensures
        ({
            let msgs = allocation_messages(
                config.handlers@,
                config.downloads,
                class,
                configuration,
                view,
                delegate,
            );
            &&& delegate.is_some() ==> channels(msgs) == config.handler_names()
                && channels(msgs).no_duplicates()
                && channels(msgs).len() == config.handlers@.len()
            &&& delegate.is_none() ==> channels(msgs).len() == 0
        }),
{
    let h = config.handlers@;
    let head = seq![Message::NewConfiguration { object: configuration }];
    let mid = seq![
        Message::InitView { class, view, configuration },
        Message::SetWantsLayer { view, value: true },
        Message::SetTranslatesAutoresizingMask { view, value: false },
    ];
    reveal_with_fuel(channels, 4);
    assert(channels(head) =~= Seq::empty());
    assert(channels(mid) =~= Seq::empty());
    match delegate {
        Some(d) => {
            let dl = if config.downloads {
                seq![Message::SetDownloadDelegate { configuration, delegate: d }]
            } else {
                Seq::empty()
            };
            let tail = seq![
                Message::SetNavigationDelegate { view, delegate: d },
                Message::SetUIDelegate { view, delegate: d },
            ];
            assert(channels(dl) =~= Seq::empty());
            assert(channels(tail) =~= Seq::empty());
            let subs = subscriptions(h, configuration, d);
            lemma_channels_of_subscriptions(h, configuration, d);
            lemma_channels_concat(dl, subs);
            lemma_channels_concat(head, dl + subs);
            lemma_channels_concat(head + (dl + subs), mid);
            lemma_channels_concat(head + (dl + subs) + mid, tail);
            assert(channels(head + (dl + subs) + mid + tail) =~= names_of(h));
        },
        None => {
            let e = Seq::<Message>::empty();
            assert(channels(e) =~= Seq::empty());
            lemma_channels_concat(head, e);
            lemma_channels_concat(head + e, mid);
            lemma_channels_concat(head + e + mid, e);
        },
    }
}

/// Queues the allocation of a web view built from `config`, wired to
/// `objc_delegate` when there is one, and returns the view's slot.
fn allocate_webview(config: WebViewConfig, objc_delegate: Option<ObjectId>, rt: &mut Runtime) -> (r:
    ObjectId)
    requires
        old(rt)@.has_slots(3),
    ensures
        (final(rt)@, r) == allocation(old(rt)@, config.handlers@, config.downloads, objc_delegate),
{
    let ghost h0 = config.handlers@;
    let class = rt.register_view_class();
    let mut config = config;
    let downloads = config.downloads;
    let handlers = config.take_handlers();
    let configuration = config.into_inner(rt);
    let ghost base = rt@;
    if let Some(d) = objc_delegate {
        if downloads {
            rt.send(Message::SetDownloadDelegate { configuration, delegate: d });
        }
        let ghost start = rt@;
        let mut i: usize = 0;
        while i < handlers.len()
            invariant
                i <= handlers@.len(),
                handlers@ == h0,
                rt@ == start.send(subscriptions(h0.take(i as int), configuration, d)),
            decreases handlers@.len() - i,
        {
            let name = handlers[i].clone();
            rt.send(Message::AddScriptMessageHandler { configuration, delegate: d, name });
            assert(subscriptions(h0.take(i + 1), configuration, d) =~= subscriptions(
                h0.take(i as int),
                configuration,
                d,
            ).push(Message::AddScriptMessageHandler { configuration, delegate: d, name: h0[i as int] }));
            assert(start.outbox + subscriptions(h0.take(i + 1), configuration, d) =~= start.outbox
                + subscriptions(h0.take(i as int), configuration, d) + seq![
                Message::AddScriptMessageHandler { configuration, delegate: d, name: h0[i as int] },
            ]);
            i = i + 1;
        }
        assert(h0.take(handlers@.len() as int) =~= h0);
    }
    let view = rt.alloc_object();
    rt.send(Message::InitView { class, view, configuration });
    rt.send(Message::SetWantsLayer { view, value: true });
    rt.send(Message::SetTranslatesAutoresizingMask { view, value: false });
    if let Some(d) = objc_delegate {
        rt.send(Message::SetNavigationDelegate { view, delegate: d });
        rt.send(Message::SetUIDelegate { view, delegate: d });
    }
    proof {
        let (m1, c) = old(rt)@.register_view_class();
        let msgs = allocation_messages(h0, downloads, class, configuration, view, objc_delegate);
        assert(rt@.outbox =~= m1.outbox + msgs);
    }
    view
}

impl<T> WebView<T> {
    /// Each anchor is the matching anchor of the foreign view.
    pub open spec fn anchored(&self) -> bool {
        &&& self.top == (LayoutAnchorY { view: self.objc, edge: YEdge::Top })
        &&& self.leading == (LayoutAnchorX { view: self.objc, edge: XEdge::Leading })
        &&& self.trailing == (LayoutAnchorX { view: self.objc, edge: XEdge::Trailing })
        &&& self.bottom == (LayoutAnchorY { view: self.objc, edge: YEdge::Bottom })
        &&& self.width == (LayoutAnchorDimension { view: self.objc, dimension: Dimension::Width })
        &&& self.height == (LayoutAnchorDimension { view: self.objc, dimension: Dimension::Height })
        &&& self.center_x == (LayoutAnchorX { view: self.objc, edge: XEdge::CenterX })
        &&& self.center_y == (LayoutAnchorY { view: self.objc, edge: YEdge::CenterY })
    }

    /// Nothing reaches a delegate from this value.
    pub open spec fn is_detached(&self) -> bool {
        &&& self.objc_delegate.is_none()
        &&& self.callback_token.is_none()
        &&& self.delegate.is_none()
    }

    /// `self` and `other` are the same view, with the same wiring, and hold a
    /// delegate alike.
    pub open spec fn same_view<U>(&self, other: &WebView<U>) -> bool {
        &&& self.objc == other.objc
        &&& self.objc_delegate == other.objc_delegate
        &&& self.callback_token == other.callback_token
        &&& self.delegate.is_some() == other.delegate.is_some()
        &&& self.top == other.top
        &&& self.leading == other.leading
        &&& self.trailing == other.trailing
        &&& self.bottom == other.bottom
        &&& self.width == other.width
        &&& self.height == other.height
        &&& self.center_x == other.center_x
        &&& self.center_y == other.center_y
    }

    /// A wrapper of the view `objc` with its anchors and no user delegate yet.
    fn wrap(objc: ObjectId, objc_delegate: Option<ObjectId>, callback_token: Option<CallbackToken>) -> (r: WebView<T>)
        ensures
            r.objc == objc,
            r.objc_delegate == objc_delegate,
            r.callback_token == callback_token,
            r.delegate.is_none(),
            r.anchored(),
    {
        WebView {
            objc,
            objc_delegate,
            callback_token,
            delegate: None,
            top: LayoutAnchorY::new(objc, YEdge::Top),
            leading: LayoutAnchorX::new(objc, XEdge::Leading),
            trailing: LayoutAnchorX::new(objc, XEdge::Trailing),
            bottom: LayoutAnchorY::new(objc, YEdge::Bottom),
            width: LayoutAnchorDimension::new(objc, Dimension::Width),
            height: LayoutAnchorDimension::new(objc, Dimension::Height),
            center_x: LayoutAnchorX::new(objc, XEdge::CenterX),
            center_y: LayoutAnchorY::new(objc, YEdge::CenterY),
        }
    }

    /// A handle to the same view and anchors that carries no delegate, no
    /// foreign delegate and no callback token, so that it cannot hold the
    /// delegate alive from inside the delegate.
    pub fn clone_as_handle(&self) -> (r: WebView<()>)
        ensures
            r.objc == self.objc,
            r.is_detached(),
            r.top == self.top,
            r.leading == self.leading,
            r.trailing == self.trailing,
            r.bottom == self.bottom,
            r.width == self.width,
            r.height == self.height,
            r.center_x == self.center_x,
            r.center_y == self.center_y,
    {
        WebView {
            objc: self.objc,
            objc_delegate: None,
            callback_token: None,
            delegate: None,
            top: self.top,
            leading: self.leading,
            trailing: self.trailing,
            bottom: self.bottom,
            width: self.width,
            height: self.height,
            center_x: self.center_x,
            center_y: self.center_y,
        }
    }

    /// Queues one request that makes the view load `url`. The string is
    /// handed over as it is; the foreign runtime parses it.
    pub fn load_url(&self, url: &str, rt: &mut Runtime)
        ensures
            final(rt)@ == old(rt)@.send(seq![final(rt)@.outbox.last()]),
            is_load_request(final(rt)@.outbox.last(), self.objc, url@),
    {
        rt.send(Message::LoadRequest { view: self.objc, url: String::from_str(url) });
    }

    /// The foreign view, for placing this view in a parent.
    pub fn get_backing_node(&self) -> (r: ObjectId)
        ensures
            r == self.objc,
    {
        self.objc
    }

    /// Does nothing: a web view hosts no child views. It takes the view and
    /// no runtime, so it can change neither the hierarchy nor the outbox.
    pub fn add_subview<V>(&self, view: &V) {
    }
}

/// `msg` asks `view` to load the URL whose text is `url`.
pub open spec fn is_load_request(msg: Message, view: ObjectId, url: Seq<char>) -> bool {
    match msg {
        Message::LoadRequest { view: v, url: u } => v == view && u@ == url,
        _ => false,
    }
}

impl WebView<()> {
    /// Queues the allocation of a web view built from `config`, with no
    /// delegate, and wraps it.
    pub fn new(config: WebViewConfig, rt: &mut Runtime) -> (r: WebView<()>)
        requires
            old(rt)@.has_slots(3),
        ensures
            (final(rt)@, r.objc) == allocation(old(rt)@, config.handlers@, config.downloads, None),
            r.anchored(),
            r.is_detached(),
    {
        let view = allocate_webview(config, None, rt);
        WebView::wrap(view, None, None)
    }
}

impl<T: WebViewDelegate> WebView<T> {
    /// Queues the registration (on first use) of the delegate bridge class,
    /// a foreign delegate carrying a fresh callback token, and a web view built
    /// from `config` and wired to that delegate; then hands `delegate` a
    /// detached handle to the view, once, and returns the view owning it.
    pub fn with(config: WebViewConfig, delegate: T, rt: &mut Runtime) -> (r: WebView<T>)
        requires
            old(rt)@.has_slots(5),
            old(rt)@.next_token < u64::MAX,
        ensures
            ({
                let (m, d, token) = delegate_setup(old(rt)@);
                &&& (final(rt)@, r.objc) == allocation(m, config.handlers@, config.downloads, Some(d))
                &&& r.objc_delegate == Some(d)
                &&& r.callback_token == Some(token)
            }),
            r.delegate.is_some(),
            r.anchored(),
    {
        let mut delegate = delegate;
        let token = rt.alloc_token();
        let class = rt.register_delegate_class();
        let objc_delegate = rt.alloc_object();
        rt.send(Message::New { class, object: objc_delegate });
        rt.send(Message::SetDelegateSlot { object: objc_delegate, token });
        proof {
            let (m, d, t) = delegate_setup(old(rt)@);
            assert(rt@.outbox =~= m.outbox);
        }
        let view = allocate_webview(config, Some(objc_delegate), rt);
        let mut webview: WebView<T> = WebView::wrap(view, Some(objc_delegate), Some(token));
        delegate.did_load(webview.clone_as_handle());
        webview.delegate = Some(delegate);
        webview
    }

    /// Whether a callback carrying `token` belongs to this view's delegate.
    pub open spec fn routes(&self, token: CallbackToken) -> bool {
        self.callback_token == Some(token) && self.delegate.is_some()
    }

    /// Forwards a script message that arrived for `token` to the delegate, if
    /// the token is this view's; returns whether it was forwarded.
    pub fn on_message(&mut self, token: CallbackToken, name: &str, body: &str) -> (r: bool)
        ensures
            r == old(self).routes(token),
            final(self).same_view(old(self)),
    {
        if self.callback_token == Some(token) {
            match &mut self.delegate {
                Some(d) => {
                    d.on_message(name, body);
                    true
                },
                None => false,
            }
        } else {
            false
        }
    }

    /// Asks the delegate whether a navigation to `url`, reported for `token`,
    /// may go ahead; a navigation that no delegate of this view answers for
    /// is allowed.
    pub fn navigation_policy(&mut self, token: CallbackToken, url: &str) -> (r: NavigationPolicy)
        ensures
            !old(self).routes(token) ==> r == NavigationPolicy::Allow,
            final(self).same_view(old(self)),
    {
        if self.callback_token == Some(token) {
            match &mut self.delegate {
                Some(d) => d.policy_for_navigation(url),
                None => NavigationPolicy::Allow,
            }
        } else {
            NavigationPolicy::Allow
        }
    }
}

} // verus!
