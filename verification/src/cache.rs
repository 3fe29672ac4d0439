//! A shared, read-only list of strings.

use std::sync::Arc;
use vstd::prelude::*;

use crate::config::clone_texts;
use crate::config::texts_view;

verus! {

struct Inner {
    data: Vec<String>,
}

/// A list of strings that its holders share. Nobody can change what a
/// shared list holds.
pub struct Cache {
    inner: Arc<Inner>,
}

impl View for Cache {
    type V = Seq<Seq<char>>;

    closed spec fn view(&self) -> Seq<Seq<char>> {
        texts_view(self.inner.data@)
    }
}

impl Cache {
    /// A cache that holds nothing.
    pub fn new() -> (cache: Cache)
        ensures
            cache@ == Seq::<Seq<char>>::empty(),
    {
        let cache = Cache { inner: Arc::new(Inner { data: Vec::new() }) };
        assert(cache@ =~= Seq::<Seq<char>>::empty());
        cache
    }

    /// The number of strings in the cache.
    pub fn len(&self) -> (n: usize)
        ensures
            n == self@.len(),
    {
        self.inner.data.len()
    }

    /// Appends `item` to a copy of the list. The copy is private to the
    /// call and dropped at its end: the shared list stays as it is.
    pub fn add(&self, item: String) {
        let mut data = clone_texts(&self.inner.data);
        data.push(item);
        assert(texts_view(data@) =~= self@.push(item@));
    }
}

} // verus!
