use vstd::prelude::*;

verus! {

/// A slot naming one foreign object; the host resolves it to the object that
/// the message creating it produced.
#[derive(Clone, Copy, Debug, PartialEq, Eq, Structural)]
pub struct ObjectId {
    pub slot: u64,
}

/// A slot naming one dynamically registered foreign class.
#[derive(Clone, Copy, Debug, PartialEq, Eq, Structural)]
pub struct ClassRef {
    pub slot: u64,
}

/// What a foreign delegate object stores in its instance slot so that runtime
/// callbacks can find the wrapper that owns the user delegate.
#[derive(Clone, Copy, Debug, PartialEq, Eq, Structural)]
pub struct CallbackToken {
    pub id: u64,
}

/// The toolkit class that a bridge class inherits from.
#[derive(Clone, Copy, Debug, PartialEq, Eq, Structural)]
pub enum BaseClass {
    /// The toolkit's web view class.
    WebView,
    /// The root object class; the subclass gets the delegate pointer slot and
    /// the navigation, UI and script-message callback entry points.
    Delegate,
}

/// One message to the foreign runtime.
#[derive(Clone, Debug, PartialEq, Eq)]
pub enum Message {
    /// Register a new class inheriting from `base`, for the process's lifetime.
    DeclareClass { class: ClassRef, base: BaseClass },
    /// `[class new]`, stored in `object`.
    New { class: ClassRef, object: ObjectId },
    /// Store `token` in the delegate pointer slot of `object`.
    SetDelegateSlot { object: ObjectId, token: CallbackToken },
    /// Create a web view configuration, stored in `object`.
    NewConfiguration { object: ObjectId },
    /// Make `delegate` the download delegate of the configuration's process pool.
    SetDownloadDelegate { configuration: ObjectId, delegate: ObjectId },
    /// Subscribe `delegate` to script messages on channel `name` of the
    /// configuration's user content controller.
    AddScriptMessageHandler { configuration: ObjectId, delegate: ObjectId, name: String },
    /// `[[class alloc] initWithFrame:zero configuration:configuration]`, stored in `view`.
    InitView { class: ClassRef, view: ObjectId, configuration: ObjectId },
    /// `setWantsLayer:`
    SetWantsLayer { view: ObjectId, value: bool },
    /// `setTranslatesAutoresizingMaskIntoConstraints:`
    SetTranslatesAutoresizingMask { view: ObjectId, value: bool },
    /// `setNavigationDelegate:`
    SetNavigationDelegate { view: ObjectId, delegate: ObjectId },
    /// `setUIDelegate:`
    SetUIDelegate { view: ObjectId, delegate: ObjectId },
    /// Build a URL and a request from `url` and send `loadRequest:` to `view`.
    LoadRequest { view: ObjectId, url: String },
}

} // verus!
