//! The event router: maps a topic name to a single registered callback and
//! decides, for an inbound payload, which callback the host loop must invoke.
//!
//! The router is generic in the callback type `C`: the host supplies whatever
//! it wants to run (boxed closures, tokens, ...); the router only stores and
//! selects them. Entries are kept in registration order, which is the order
//! re-subscription frames are sent in after a connection opens.

use vstd::prelude::*;

verus! {

/// A payload handed to an event callback.
#[derive(Debug, PartialEq)]
pub enum Payload {
    Data(String),
}

/// Maps each registered topic name to one callback, in registration order.
pub struct Emitter<C> {
    entries: Vec<(String, C)>,
}

impl<C> Emitter<C> {
    /// The topic names currently registered, in registration order.
    pub closed spec fn topics(&self) -> Seq<Seq<char>> {
        Seq::new(self.entries@.len(), |i: int| self.entries@[i].0@)
    }

    /// Whether a callback is registered under topic `t`.
    pub open spec fn registered(&self, t: Seq<char>) -> bool {
        self.topics().contains(t)
    }

    /// The callback registered under topic `t` (meaningful only when
    /// `registered(t)` holds).
    pub closed spec fn handler(&self, t: Seq<char>) -> C {
        self.entries@[choose|i: int|
            0 <= i < self.entries@.len() && self.entries@[i].0@ == t].1
    }

    /// Each topic occurs at most once in the registry.
    pub closed spec fn wf(&self) -> bool {
        forall|i: int, j: int|
            0 <= i < j < self.entries@.len() ==> self.entries@[i].0@ != self.entries@[j].0@
    }

    /// The registry as a map from topic name to callback.
    pub open spec fn as_map(&self) -> Map<Seq<char>, C> {
        Map::new(|t: Seq<char>| self.registered(t), |t: Seq<char>| self.handler(t))
    }

    pub fn new() -> (r: Self)
        ensures
            r.wf(),
            r.topics() == Seq::<Seq<char>>::empty(),
    {
        Emitter { entries: Vec::new() }
    }

    /// The index of the entry for `handler_name`, if one exists.
    fn find(&self, handler_name: &String) -> (r: Option<usize>)
        requires
            self.wf(),
        ensures
            match r {
                Some(i) => i < self.entries@.len() && self.entries@[i as int].0@
                    == handler_name@,
                None => !self.registered(handler_name@),
            },
    {
        let n = self.entries.len();
        let mut k: usize = 0;
        while k < n
            invariant
                n == self.entries@.len(),
                k <= n,
                forall|j: int| 0 <= j < k ==> self.entries@[j].0@ != handler_name@,
            decreases n - k,
        {
            if self.entries[k].0 == *handler_name {
                return Some(k);
            }
            k += 1;
        }
        None
    }

    /// Registers `handler` under `handler_name`, replacing any callback
    /// already registered there; a new topic is appended in registration
    /// order.
    pub fn on(&mut self, handler_name: String, handler: C)
        requires
            old(self).wf(),
        ensures
            final(self).wf(),
            final(self).as_map() == old(self).as_map().insert(handler_name@, handler),
            old(self).registered(handler_name@) ==> final(self).topics() == old(
                self,
            ).topics(),
            !old(self).registered(handler_name@) ==> final(self).topics() == old(
                self,
            ).topics().push(handler_name@),
    {
        let found = self.find(&handler_name);
        match found {
            Some(i) => {
                let ghost t = handler_name@;
                self.entries.set(i, (handler_name, handler));
                proof {
                    assert(self.topics() =~= old(self).topics());
                    assert(self.topics()[i as int] == t);
                    lemma_unique_handler(self.entries@, t, i as int);
                    assert(self.handler(t) == handler);
                    assert forall|u: Seq<char>| old(self).registered(u) && u != t implies
                        self.handler(u) == old(self).handler(u) && self.registered(u) by {
                        let j = choose|j: int|
                            0 <= j < old(self).entries@.len() && old(self).entries@[j].0@ == u;
                        assert(self.entries@[j].0@ == u);
                        lemma_unique_handler(self.entries@, u, j);
                        lemma_unique_handler(old(self).entries@, u, j);
                    }
                    assert(self.as_map() =~= old(self).as_map().insert(t, handler));
                }
            },
            None => {
                let ghost t = handler_name@;
                self.entries.push((handler_name, handler));
                proof {
                    assert(self.topics() =~= old(self).topics().push(t));
                    assert forall|i: int, j: int|
                        0 <= i < j < self.entries@.len() implies self.entries@[i].0@
                        != self.entries@[j].0@ by {
                        if j == self.entries@.len() - 1 {
                            assert(old(self).topics()[i] == self.entries@[i].0@);
                        }
                    }
                    assert(self.topics()[self.entries@.len() - 1] == t);
                    lemma_unique_handler(self.entries@, t, self.entries@.len() - 1);
                    assert(self.handler(t) == handler);
                    assert forall|u: Seq<char>| old(self).registered(u) implies
                        self.registered(u) && self.handler(u) == old(self).handler(u) by {
                        let j = choose|j: int|
                            0 <= j < old(self).entries@.len() && old(self).entries@[j].0@ == u;
                        assert(self.entries@[j].0@ == u);
                        assert(self.topics()[j] == u);
                        lemma_unique_handler(self.entries@, u, j);
                        lemma_unique_handler(old(self).entries@, u, j);
                    }
                    assert forall|u: Seq<char>| self.registered(u) && u != t implies
                        old(self).registered(u) by {
                        let j = choose|j: int|
                            0 <= j < self.entries@.len() && self.entries@[j].0@ == u;
                        assert(old(self).topics()[j] == u);
                    }
                    assert(self.as_map() =~= old(self).as_map().insert(t, handler));
                }
            },
        }
    }

    /// Removes the callback registered under `handler_name`, if any; the
    /// relative order of the remaining topics is unchanged.
    pub fn off(&mut self, handler_name: String)
        requires
            old(self).wf(),
        ensures
            final(self).wf(),
            final(self).as_map() == old(self).as_map().remove(handler_name@),
            !old(self).registered(handler_name@) ==> *final(self) == *old(self),
            old(self).registered(handler_name@) ==> exists|i: int|
                0 <= i < old(self).topics().len() && old(self).topics()[i] == handler_name@
                    && final(self).topics() == old(self).topics().subrange(0, i) + old(
                    self,
                ).topics().subrange(i + 1, old(self).topics().len() as int),
    {
        let found = self.find(&handler_name);
        match found {
            Some(i) => {
                let ghost t = handler_name@;
                let ghost n = old(self).entries@.len() as int;
                proof {
                    assert(old(self).topics()[i as int] == t);
                    assert(old(self).registered(t));
                }
                self.entries.remove(i);
                proof {
                    assert(self.topics() =~= old(self).topics().subrange(0, i as int) + old(
                        self,
                    ).topics().subrange(i as int + 1, n));
                    assert forall|p: int, q: int|
                        0 <= p < q < self.entries@.len() implies self.entries@[p].0@
                        != self.entries@[q].0@ by {
                        let p0 = if p < i { p } else { p + 1 };
                        let q0 = if q < i { q } else { q + 1 };
                        assert(self.entries@[p] == old(self).entries@[p0]);
                        assert(self.entries@[q] == old(self).entries@[q0]);
                    }
                    assert forall|u: Seq<char>| self.registered(u) implies u != t && old(
                        self,
                    ).registered(u) by {
                        let j = choose|j: int|
                            0 <= j < self.entries@.len() && self.entries@[j].0@ == u;
                        let j0 = if j < i { j } else { j + 1 };
                        assert(old(self).entries@[j0].0@ == u);
                        assert(old(self).topics()[j0] == u);
                    }
                    assert forall|u: Seq<char>| old(self).registered(u) && u != t implies
                        self.registered(u) && self.handler(u) == old(self).handler(u) by {
                        let j0 = choose|j0: int|
                            0 <= j0 < old(self).entries@.len() && old(self).entries@[j0].0@ == u;
                        lemma_unique_handler(old(self).entries@, u, j0);
                        let j = if j0 < i { j0 } else { j0 - 1 };
                        assert(self.entries@[j] == old(self).entries@[j0]);
                        assert(self.topics()[j] == u);
                        lemma_unique_handler(self.entries@, u, j);
                    }
                    assert(self.as_map() =~= old(self).as_map().remove(t));
                }
            },
            None => {
                proof {
                    assert(self.as_map() =~= old(self).as_map().remove(handler_name@));
                }
            },
        }
    }

    /// The dispatch decision for an inbound event: the callback registered
    /// under `handler_name` paired with the payload it must be invoked with,
    /// or `None` when no callback is registered, in which case the frame is
    /// dropped without error.
    pub fn emit<'a>(&'a self, handler_name: String, payload: &'a Payload) -> (r: Option<
        (&'a C, &'a Payload)
    >)
        requires
            self.wf(),
        ensures
            self.registered(handler_name@) ==> (r matches Some(p) && *p.0 == self.handler(
                handler_name@,
            ) && p.1 == payload),
            !self.registered(handler_name@) ==> r is None,
    {
        let found = self.find(&handler_name);
        match found {
            Some(i) => {
                proof {
                    lemma_unique_handler(self.entries@, handler_name@, i as int);
                    assert(self.topics()[i as int] == handler_name@);
                }
                Some((&self.entries[i].1, payload))
            },
            None => None,
        }
    }

    /// The registered topic names, in registration order, each exactly once.
    pub fn get_handlers_names(&self) -> (r: Vec<String>)
        requires
            self.wf(),
        ensures
            r@.len() == self.topics().len(),
            forall|i: int| 0 <= i < r@.len() ==> r@[i]@ == self.topics()[i],
            forall|i: int, j: int| 0 <= i < j < r@.len() ==> r@[i]@ != r@[j]@,
    {
        let n = self.entries.len();
        let mut names: Vec<String> = Vec::new();
        let mut k: usize = 0;
        while k < n
            invariant
                n == self.entries@.len(),
                k <= n,
                names@.len() == k,
                forall|i: int| 0 <= i < k ==> names@[i]@ == self.topics()[i],
            decreases n - k,
        {
            names.push(self.entries[k].0.clone());
            k += 1;
        }
        proof {
            assert forall|i: int, j: int|
                0 <= i < j < names@.len() implies names@[i]@ != names@[j]@ by {
                assert(self.entries@[i].0@ != self.entries@[j].0@);
                assert(names@[i]@ == self.topics()[i]);
                assert(names@[j]@ == self.topics()[j]);
            }
        }
        names
    }
}

/// In a well-formed registry, any entry whose topic is `t` stands at the one
/// index the `handler` spec function picks.
proof fn lemma_unique_handler<C>(entries: Seq<(String, C)>, t: Seq<char>, i: int)
    requires
        forall|p: int, q: int| 0 <= p < q < entries.len() ==> entries[p].0@ != entries[q].0@,
        0 <= i < entries.len(),
        entries[i].0@ == t,
    ensures
        forall|j: int| 0 <= j < entries.len() && entries[j].0@ == t ==> j == i,
        (choose|j: int| 0 <= j < entries.len() && entries[j].0@ == t) == i,
{
    assert(entries[i].0@ == t);
}

} // verus!
