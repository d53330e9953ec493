//! The window of message ids already handled, so that each message is handled once.

use vstd::prelude::*;

verus! {

/// Beyond this many remembered ids, the oldest are forgotten.
pub const SEEN_LIMIT: usize = 1000;

/// How many of the oldest ids are forgotten at once when the window is full.
pub const SEEN_DROP: usize = 500;

/// Whether no id occurs twice in `s`.
pub open spec fn distinct_ids(s: Seq<Seq<char>>) -> bool {
    forall|i: int, j: int| 0 <= i < s.len() && 0 <= j < s.len() && i != j ==> s[i] != s[j]
}

/// The window after `id` is remembered: appended, then the oldest `SEEN_DROP`
/// forgotten if more than `SEEN_LIMIT` are held.
pub open spec fn seen_after_insert(s: Seq<Seq<char>>, id: Seq<char>) -> Seq<Seq<char>> {
    let t = s.push(id);
    if t.len() > SEEN_LIMIT {
        t.subrange(SEEN_DROP as int, t.len() as int)
    } else {
        t
    }
}

/// The window after this machine records the id of a message it sends itself:
/// appended if not held; nothing is forgotten.
pub open spec fn seen_after_own(s: Seq<Seq<char>>, id: Seq<char>) -> Seq<Seq<char>> {
    if s.contains(id) {
        s
    } else {
        s.push(id)
    }
}

/// The window after the message `id` arrives: unchanged if it holds `id`, otherwise
/// with `id` remembered.
pub open spec fn seen_after_arrival(s: Seq<Seq<char>>, id: Seq<char>) -> Seq<Seq<char>> {
    if s.contains(id) {
        s
    } else {
        seen_after_insert(s, id)
    }
}

/// The window after the messages `later` arrive, in order.
pub open spec fn seen_after_arrivals(s: Seq<Seq<char>>, later: Seq<Seq<char>>) -> Seq<Seq<char>>
    decreases later.len(),
{
    if later.len() == 0 {
        s
    } else {
        seen_after_arrival(seen_after_arrivals(s, later.drop_last()), later.last())
    }
}

/// Message ids already handled, oldest first.
pub struct SeenMessages {
    ids: Vec<String>,
}

impl View for SeenMessages {
    type V = Seq<Seq<char>>;

    closed spec fn view(&self) -> Seq<Seq<char>> {
        self.ids@.map_values(|s: String| s@)
    }
}

impl SeenMessages {
    /// Whether the window holds each id once.  (It may hold more than `SEEN_LIMIT`
    /// ids: the ids of sent messages are added without forgetting any.)
    pub open spec fn wf(&self) -> bool {
        distinct_ids(self@)
    }

    /// An empty window.
    pub fn new() -> (r: Self)
        ensures
            r.wf(),
            r@ == Seq::<Seq<char>>::empty(),
    {
        let r = SeenMessages { ids: Vec::new() };
        assert(r@ =~= Seq::<Seq<char>>::empty());
        r
    }

    /// Whether `id` is in the window.
    pub fn contains(&self, id: &String) -> (r: bool)
        ensures
            r == self@.contains(id@),
    {
        let mut j: usize = 0;
        while j < self.ids.len()
            invariant
                j <= self.ids@.len(),
                forall|k: int| 0 <= k < j ==> self@[k] != id@,
            decreases self.ids@.len() - j,
        {
            if self.ids[j] == *id {
                assert(self@[j as int] == id@);
                return true;
            }
            j = j + 1;
        }
        false
    }

    /// Remembers the id of a message that this machine sends: appended if the window
    /// does not hold it yet; nothing is forgotten.
    pub fn insert(&mut self, id: String)
        requires
            old(self).wf(),
        ensures
            final(self).wf(),
            final(self)@ == seen_after_own(old(self)@, id@),
    {
        if self.contains(&id) {
            return;
        }
        let ghost idv = id@;
        self.ids.push(id);
        assert(self@ =~= old(self)@.push(idv));
        assert(distinct_ids(self@)) by {
            let t = old(self)@.push(idv);
            assert forall|i: int, j: int| 0 <= i < t.len() && 0 <= j < t.len() && i != j implies t[i] != t[j] by {
                if i == old(self)@.len() as int {
                    assert(t[j] == old(self)@[j]);
                } else if j == old(self)@.len() as int {
                    assert(t[i] == old(self)@[i]);
                }
            }
        }
    }

    /// Forgets the oldest `SEEN_DROP` ids where more than `SEEN_LIMIT` are held.
    fn prune(&mut self)
        requires
            old(self).wf(),
        ensures
            final(self).wf(),
            old(self)@.len() > SEEN_LIMIT ==> final(self)@ == old(self)@.subrange(SEEN_DROP as int, old(self)@.len() as int),
            old(self)@.len() <= SEEN_LIMIT ==> final(self)@ == old(self)@,
    {
        if self.ids.len() > SEEN_LIMIT {
            let rest = self.ids.split_off(SEEN_DROP);
            self.ids = rest;
            assert(self@ =~= old(self)@.subrange(SEEN_DROP as int, old(self)@.len() as int));
            assert(distinct_ids(self@)) by {
                assert forall|i: int, j: int| 0 <= i < self@.len() && 0 <= j < self@.len() && i != j implies self@[i] != self@[j] by {
                    assert(self@[i] == old(self)@[i + SEEN_DROP]);
                    assert(self@[j] == old(self)@[j + SEEN_DROP]);
                }
            }
        }
    }

    /// Records the id of an arriving message; returns `true` if it is new and should
    /// be handled, `false` if it was seen before (and leaves the window unchanged
    /// then).  A new id is appended, and then the oldest `SEEN_DROP` ids are
    /// forgotten where more than `SEEN_LIMIT` are held.
    pub fn check_and_insert(&mut self, id: &String) -> (fresh: bool)
        requires
            old(self).wf(),
        ensures
            final(self).wf(),
            fresh == !old(self)@.contains(id@),
            fresh ==> final(self)@ == seen_after_insert(old(self)@, id@),
            !fresh ==> *final(self) == *old(self),
            final(self)@ == seen_after_arrival(old(self)@, id@),
            final(self)@.contains(id@),
    {
        if self.contains(id) {
            false
        } else {
            self.insert(id.clone());
            self.prune();
            assert(seen_after_insert(old(self)@, id@).last() == id@);
            true
        }
    }
}

proof fn lemma_position_after_arrivals(s: Seq<Seq<char>>, id: Seq<char>, later: Seq<Seq<char>>) -> (i: int)
    requires
        s.len() <= SEEN_LIMIT,
        !s.contains(id),
        later.len() <= SEEN_LIMIT - SEEN_DROP,
    ensures
        ({
            let w = seen_after_arrivals(seen_after_insert(s, id), later);
            &&& w.len() <= SEEN_LIMIT
            &&& 0 <= i < w.len()
            &&& w[i] == id
            &&& w.len() - 1 - i <= later.len()
        }),
    decreases later.len(),
{
    if later.len() == 0 {
        let t = s.push(id);
        if t.len() > SEEN_LIMIT {
            let u = t.subrange(SEEN_DROP as int, t.len() as int);
            assert(u[u.len() - 1] == id);
            u.len() - 1
        } else {
            assert(t[t.len() - 1] == id);
            t.len() - 1
        }
    } else {
        let j = lemma_position_after_arrivals(s, id, later.drop_last());
        let w = seen_after_arrivals(seen_after_insert(s, id), later.drop_last());
        let x = later.last();
        if w.contains(x) {
            j
        } else {
            let t = w.push(x);
            assert(t[j] == id);
            if t.len() > SEEN_LIMIT {
                let u = t.subrange(SEEN_DROP as int, t.len() as int);
                assert(u[j - SEEN_DROP] == id);
                j - SEEN_DROP
            } else {
                j
            }
        }
    }
}

/// A message whose id is new is handled; when the same id comes again before more
/// than `SEEN_LIMIT - SEEN_DROP` (500) other messages have arrived, it is refused:
/// the window still holds it.
pub proof fn lemma_handled_message_is_refused_while_recent(s: Seq<Seq<char>>, id: Seq<char>, later: Seq<Seq<char>>)
    requires
        s.len() <= SEEN_LIMIT,
        !s.contains(id),
        later.len() <= SEEN_LIMIT - SEEN_DROP,
    ensures
        seen_after_arrivals(seen_after_arrival(s, id), later).contains(id),
{
    let i = lemma_position_after_arrivals(s, id, later);
    let w = seen_after_arrivals(seen_after_insert(s, id), later);
    assert(w[i] == id);
}

} // verus!
