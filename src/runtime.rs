use vstd::prelude::*;
use crate::foreign::{BaseClass, CallbackToken, ClassRef, Message, ObjectId};

verus! {

/// The bridge's process-wide state: the two memoized bridge class registries,
/// the slot and token counters, and the messages not yet sent.
///
/// Callbacks reach a wrapper through its [`CallbackToken`] alone; the wrapper
/// owns the user delegate outright. When the wrapper is dropped, a callback
/// that still carries its token finds nothing to dispatch to, so no alias of
/// the delegate can outlive it.
#[derive(Debug)]
pub struct Runtime {
    pub outbox: Vec<Message>,
    pub next_object: u64,
    pub next_token: u64,
    pub view_class: Option<ClassRef>,
    pub delegate_class: Option<ClassRef>,
}

/// The mathematical model of a [`Runtime`].
pub struct RuntimeModel {
    pub outbox: Seq<Message>,
    pub next_object: u64,
    pub next_token: u64,
    pub view_class: Option<ClassRef>,
    pub delegate_class: Option<ClassRef>,
}

impl View for Runtime {
    type V = RuntimeModel;

    open spec fn view(&self) -> RuntimeModel {
        RuntimeModel {
            outbox: self.outbox@,
            next_object: self.next_object,
            next_token: self.next_token,
            view_class: self.view_class,
            delegate_class: self.delegate_class,
        }
    }
}

impl RuntimeModel {
    /// At least `n` more object slots can be handed out.
    pub open spec fn has_slots(self, n: nat) -> bool {
        self.next_object + n <= u64::MAX
    }

    /// The next object slot.
    pub open spec fn fresh_object(self) -> ObjectId {
        ObjectId { slot: self.next_object }
    }

    /// Hands out the next object slot.
    pub open spec fn take_slot(self) -> RuntimeModel {
        RuntimeModel { next_object: (self.next_object + 1) as u64, ..self }
    }

    /// Appends messages to the outbox.
    pub open spec fn send(self, msgs: Seq<Message>) -> RuntimeModel {
        RuntimeModel { outbox: self.outbox + msgs, ..self }
    }

    /// Registration of the web view bridge class: the state after it, and the class.
    pub open spec fn register_view_class(self) -> (RuntimeModel, ClassRef) {
        match self.view_class {
            Some(c) => (self, c),
            None => {
                let c = ClassRef { slot: self.next_object };
                let m = self.take_slot().send(
                    seq![Message::DeclareClass { class: c, base: BaseClass::WebView }],
                );
                (RuntimeModel { view_class: Some(c), ..m }, c)
            },
        }
    }

    /// Registration of the delegate bridge class: the state after it, and the class.
    pub open spec fn register_delegate_class(self) -> (RuntimeModel, ClassRef) {
        match self.delegate_class {
            Some(c) => (self, c),
            None => {
                let c = ClassRef { slot: self.next_object };
                let m = self.take_slot().send(
                    seq![Message::DeclareClass { class: c, base: BaseClass::Delegate }],
                );
                (RuntimeModel { delegate_class: Some(c), ..m }, c)
            },
        }
    }
}

/// Registering a bridge class a second time changes nothing and yields the
/// class that the first registration yielded, for the web view class and for
/// the delegate class alike.
pub proof fn lemma_registration_idempotent(m: RuntimeModel)
    ensures
        m.register_view_class().0.register_view_class() == m.register_view_class(),
        m.register_delegate_class().0.register_delegate_class() == m.register_delegate_class(),
{
}

impl Runtime {
    /// A runtime with nothing registered and nothing to send.
    pub fn new() -> (r: Runtime)
        ensures
            r@.outbox.len() == 0,
            r@.next_object == 0,
            r@.next_token == 0,
            r@.view_class.is_none(),
            r@.delegate_class.is_none(),
    {
        Runtime {
            outbox: Vec::new(),
            next_object: 0,
            next_token: 0,
            view_class: None,
            delegate_class: None,
        }
    }

    /// Hands out a fresh object slot.
    pub fn alloc_object(&mut self) -> (r: ObjectId)
        requires
            old(self)@.has_slots(1),
        ensures
            r == old(self)@.fresh_object(),
            final(self)@ == old(self)@.take_slot(),
    {
        let r = ObjectId { slot: self.next_object };
        self.next_object = self.next_object + 1;
        r
    }

    /// Hands out a fresh callback token.
    pub fn alloc_token(&mut self) -> (r: CallbackToken)
        requires
            old(self).next_token < u64::MAX,
        ensures
            r == (CallbackToken { id: old(self).next_token }),
            final(self)@ == (RuntimeModel { next_token: (old(self).next_token + 1) as u64, ..old(self)@ }),
    {
        let r = CallbackToken { id: self.next_token };
        self.next_token = self.next_token + 1;
        r
    }

    /// Appends one message to the outbox.
    pub fn send(&mut self, msg: Message)
        ensures
            final(self)@ == old(self)@.send(seq![msg]),
    {
        self.outbox.push(msg);
        assert(final(self)@.outbox =~= old(self)@.outbox + seq![msg]);
    }

    /// Returns the web view bridge class, registering it on first use.
    pub fn register_view_class(&mut self) -> (r: ClassRef)
        requires
            old(self)@.has_slots(1),
        ensures
            (final(self)@, r) == old(self)@.register_view_class(),
    {
        match self.view_class {
            Some(c) => c,
            None => {
                let c = ClassRef { slot: self.next_object };
                self.next_object = self.next_object + 1;
                self.send(Message::DeclareClass { class: c, base: BaseClass::WebView });
                self.view_class = Some(c);
                c
            },
        }
    }

    /// Returns the delegate bridge class, registering it on first use.
    pub fn register_delegate_class(&mut self) -> (r: ClassRef)
        requires
            old(self)@.has_slots(1),
        ensures
            (final(self)@, r) == old(self)@.register_delegate_class(),
    {
        match self.delegate_class {
            Some(c) => c,
            None => {
                let c = ClassRef { slot: self.next_object };
                self.next_object = self.next_object + 1;
                self.send(Message::DeclareClass { class: c, base: BaseClass::Delegate });
                self.delegate_class = Some(c);
                c
            },
        }
    }

    /// Hands the queued messages to the caller, in order, and empties the outbox.
    pub fn drain(&mut self) -> (r: Vec<Message>)
        ensures
            r@ == old(self)@.outbox,
            final(self)@ == (RuntimeModel { outbox: Seq::empty(), ..old(self)@ }),
    {
        let mut r: Vec<Message> = Vec::new();
        std::mem::swap(&mut self.outbox, &mut r);
        r
    }
}

} // verus!
