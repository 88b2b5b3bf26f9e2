//! Events: one-way notifications from the host to the interface.

use vstd::prelude::*;
use crate::text::Text;

verus! {

/// A named notification with an ordered payload of texts.
#[derive(Debug, PartialEq, Eq)]
pub struct Event {
    pub name: String,
    pub payload: Vec<String>,
}

/// An event as a value.
pub struct EventView {
    pub name: Text,
    pub payload: Seq<Text>,
}

impl View for Event {
    type V = EventView;

    open spec fn view(&self) -> EventView {
        EventView { name: self.name@, payload: self.payload@.map_values(|s: String| s@) }
    }
}

impl Clone for Event {
    fn clone(&self) -> (copy: Event)
        ensures
            copy@ == self@,
    {
        let mut payload: Vec<String> = Vec::new();
        let mut i: usize = 0;
        while i < self.payload.len()
            invariant
                i <= self.payload.len(),
                payload@.len() == i,
                forall|j: int| 0 <= j < i ==> payload@[j]@ == self.payload@[j]@,
            decreases self.payload.len() - i,
        {
            payload.push(self.payload[i].clone());
            i += 1;
        }
        let copy = Event { name: self.name.clone(), payload };
        assert(copy@.payload =~= self@.payload);
        copy
    }
}

impl Event {
    /// The event of this name with this payload, the payload in the order given.
    pub fn new(name: &str, payload: Vec<String>) -> (event: Event)
        ensures
            event@.name == name@,
            event@.payload == payload@.map_values(|s: String| s@),
    {
        Event { name: name.to_owned(), payload }
    }
}

} // verus!
