use vstd::prelude::*;
use crate::foreign::{Message, ObjectId};
use crate::runtime::Runtime;

verus! {

/// What a web view is to be built with: the script-message channels that its
/// delegate listens on, and whether downloads are handed to the delegate.
///
/// Building a view moves the configuration, so it cannot be used twice.
#[derive(Debug)]
pub struct WebViewConfig {
    pub handlers: Vec<String>,
    pub downloads: bool,
}

/// The names of a list of channels.
pub open spec fn names_of(handlers: Seq<String>) -> Seq<Seq<char>> {
    handlers.map_values(|h: String| h@)
}

impl WebViewConfig {
    /// The channel names, in the order they were added.
    pub open spec fn handler_names(&self) -> Seq<Seq<char>> {
        names_of(self.handlers@)
    }

    /// No channel name occurs twice: the handlers form a set.
    pub open spec fn wf(&self) -> bool {
        self.handler_names().no_duplicates()
    }

    /// A configuration with no channels and downloads off.
    pub fn new() -> (r: WebViewConfig)
        ensures
            r.wf(),
            r.handlers@.len() == 0,
            !r.downloads,
    {
        WebViewConfig { handlers: Vec::new(), downloads: false }
    }

    /// Adds a channel named `name`, unless one of that name is already there.
    pub fn add_handler(&mut self, name: &str)
        requires
            old(self).wf(),
        ensures
            final(self).wf(),
            final(self).downloads == old(self).downloads,
            old(self).handler_names().contains(name@) ==> final(self).handlers@ == old(self).handlers@,
            !old(self).handler_names().contains(name@) ==> final(self).handler_names()
                == old(self).handler_names().push(name@),
    {
        let owned = String::from_str(name);
        let mut i: usize = 0;
        while i < self.handlers.len()
            invariant
                i <= self.handlers@.len(),
                *self == *old(self),
                self.wf(),
                owned@ == name@,
                forall|j: int| 0 <= j < i ==> self.handlers@[j]@ != name@,
            decreases self.handlers@.len() - i,
        {
            if self.handlers[i] == owned {
                assert(self.handler_names()[i as int] == name@);
                return;
            }
            i = i + 1;
        }
        assert(!self.handler_names().contains(name@));
        let ghost before = self.handlers@;
        self.handlers.push(owned);
        assert(self.handler_names() =~= names_of(before).push(name@));
    }

    /// Turns handing downloads to the delegate on or off.
    pub fn set_downloads(&mut self, value: bool)
        ensures
            final(self).downloads == value,
            final(self).handlers@ == old(self).handlers@,
    {
        self.downloads = value;
    }

    /// Takes the channels out, leaving none behind.
    pub fn take_handlers(&mut self) -> (r: Vec<String>)
        ensures
            r@ == old(self).handlers@,
            final(self).handlers@.len() == 0,
            final(self).downloads == old(self).downloads,
    {
        let mut r: Vec<String> = Vec::new();
        std::mem::swap(&mut self.handlers, &mut r);
        r
    }

    /// Queues the creation of the foreign configuration and returns its slot.
    pub fn into_inner(self, rt: &mut Runtime) -> (r: ObjectId)
        requires
            old(rt)@.has_slots(1),
        ensures
            r == old(rt)@.fresh_object(),
            final(rt)@ == old(rt)@.take_slot().send(seq![Message::NewConfiguration { object: r }]),
    {
        let object = rt.alloc_object();
        rt.send(Message::NewConfiguration { object });
        object
    }
}

impl Default for WebViewConfig {
    fn default() -> (r: WebViewConfig)
        ensures
            r.wf(),
            r.handlers@.len() == 0,
            !r.downloads,
    {
        WebViewConfig::new()
    }
}

} // verus!
