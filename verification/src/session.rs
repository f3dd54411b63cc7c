//! Sessions: where the items of earlier conversations are kept.

use vstd::prelude::*;
use crate::error::AgentError;
use crate::json::JsonValue;

verus! {

/// How a session is set up.
#[derive(Debug)]
pub struct SessionSettings {
    /// The largest number of items to keep, if there is a limit.
    pub max_items: Option<usize>,
}

impl Default for SessionSettings {
    /// No limit.
    fn default() -> (settings: SessionSettings)
        ensures
            settings.max_items is None,
    {
        SessionSettings { max_items: None }
    }
}

/// The `limit` most recent of `items`, oldest first; all of them without a
/// limit.
pub open spec fn recent(items: Seq<Seq<char>>, limit: Option<usize>) -> Seq<Seq<char>> {
    match limit {
        Some(n) => if n >= items.len() {
            items
        } else {
            items.subrange(items.len() - n, items.len() as int)
        },
        None => items,
    }
}

/// A session that keeps its items in memory, oldest first.
pub struct InMemorySession {
    items: Vec<JsonValue>,
}

impl View for InMemorySession {
    type V = Seq<Seq<char>>;

    closed spec fn view(&self) -> Seq<Seq<char>> {
        self.items.deep_view()
    }
}

impl Default for InMemorySession {
    fn default() -> (session: InMemorySession)
        ensures
            session@ == Seq::<Seq<char>>::empty(),
    {
        InMemorySession::new()
    }
}

impl InMemorySession {
    /// A session without items.
    pub fn new() -> (session: InMemorySession)
        ensures
            session@ == Seq::<Seq<char>>::empty(),
    {
        let session = InMemorySession { items: Vec::new() };
        assert(session.items.deep_view() =~= Seq::empty());
        session
    }

    /// Copies of the `limit` most recent items, oldest first; of all items
    /// without a limit.
    pub fn get_items(&self, limit: Option<usize>) -> (items: Result<Vec<JsonValue>, AgentError>)
        ensures
            items is Ok,
            items->Ok_0.deep_view() == recent(self@, limit),
    {
        let start = match limit {
            Some(n) => if n >= self.items.len() {
                0
            } else {
                self.items.len() - n
            },
            None => 0,
        };
        let mut copy: Vec<JsonValue> = Vec::new();
        let mut i: usize = start;
        while i < self.items.len()
            invariant
                start <= i <= self.items.len(),
                copy.len() == i - start,
                forall|k: int| 0 <= k < copy.len() ==> copy@[k]@ == self.items@[start + k]@,
            decreases self.items.len() - i,
        {
            copy.push(self.items[i].clone());
            i += 1;
        }
        assert(copy.deep_view() =~= recent(self@, limit));
        Ok(copy)
    }

    /// Appends the items, in their order.
    pub fn add_items(&mut self, items: Vec<JsonValue>) -> (done: Result<(), AgentError>)
        ensures
            done is Ok,
            final(self)@ == old(self)@ + items.deep_view(),
    {
        let ghost before = self.items.deep_view();
        let ghost added = items.deep_view();
        let mut items = items;
        self.items.append(&mut items);
        assert(self.items.deep_view() =~= before + added);
        Ok(())
    }

    /// Removes the most recent item and returns it; `None` for a session
    /// without items.
    pub fn pop_item(&mut self) -> (item: Result<Option<JsonValue>, AgentError>)
        ensures
            item is Ok,
            match item->Ok_0 {
                Some(last) => old(self)@.len() > 0 && last@ == old(self)@.last() && final(self)@
                    == old(self)@.drop_last(),
                None => old(self)@.len() == 0 && final(self)@ == old(self)@,
            },
    {
        let ghost before = self.items.deep_view();
        let item = self.items.pop();
        assert(item is Some ==> self.items.deep_view() =~= before.drop_last());
        Ok(item)
    }

    /// Removes all items.
    pub fn clear_session(&mut self) -> (done: Result<(), AgentError>)
        ensures
            done is Ok,
            final(self)@ == Seq::<Seq<char>>::empty(),
    {
        self.items.clear();
        assert(self.items.deep_view() =~= Seq::empty());
        Ok(())
    }
}

} // verus!
