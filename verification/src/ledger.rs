//! The book of foreign resources that this layer owns.
//!
//! Every handle is entered here when it takes a foreign address and struck
//! out when it gives the address up. The book keeps the set of addresses that
//! are owned right now, and, as ghost state, the whole history of what was
//! taken and given up. Its invariant is the ownership discipline of the
//! boundary: an address has at most one owner at any moment, and each taking
//! is answered by at most one giving up.

use vstd::prelude::*;

verus! {

/// One step in the life of a foreign resource, as this layer sees it.
pub enum Event {
    /// A handle took ownership of the resource at this address.
    Acquired(usize),
    /// The owning handle was torn down: the foreign release call for this
    /// address was handed out.
    Released(usize),
    /// The owning handle let go without a release call: the foreign side
    /// keeps the resource.
    Kept(usize),
}

/// How often `event` stands in `history`.
pub open spec fn count(history: Seq<Event>, event: Event) -> nat
    decreases history.len(),
{
    if history.len() == 0 {
        0
    } else {
        count(history.drop_last(), event) + if history.last() == event {
            1nat
        } else {
            0nat
        }
    }
}

/// How many handles hold `addr` after `history`: the takings that no giving
/// up has answered yet.
pub open spec fn holders(history: Seq<Event>, addr: usize) -> int {
    count(history, Event::Acquired(addr)) - count(history, Event::Released(addr)) - count(
        history,
        Event::Kept(addr),
    )
}

/// Counting over a history that grew by one event.
pub proof fn lemma_count_push(history: Seq<Event>, last: Event, event: Event)
    ensures
        count(history.push(last), event) == count(history, event) + if last == event {
            1nat
        } else {
            0nat
        },
{
    assert(history.push(last).drop_last() =~= history);
}

/// The holders of `addr` after one more event.
pub proof fn lemma_holders_push(history: Seq<Event>, last: Event, addr: usize)
    ensures
        holders(history.push(last), addr) == holders(history, addr) + match last {
            Event::Acquired(a) => if a == addr {
                1int
            } else {
                0int
            },
            Event::Released(a) => if a == addr {
                -1int
            } else {
                0int
            },
            Event::Kept(a) => if a == addr {
                -1int
            } else {
                0int
            },
        },
{
    lemma_count_push(history, last, Event::Acquired(addr));
    lemma_count_push(history, last, Event::Released(addr));
    lemma_count_push(history, last, Event::Kept(addr));
}

/// At every moment of `history`, every address had no holder or one.
pub open spec fn single_owner_throughout(history: Seq<Event>) -> bool {
    forall|k: int, addr: usize|
        0 <= k <= history.len() ==> 0 <= #[trigger] holders(history.take(k), addr) <= 1
}

/// The addresses owned now, and the history that led there.
pub struct Ledger {
    live: Vec<usize>,
    history: Ghost<Seq<Event>>,
}

impl Ledger {
    /// The addresses that a handle owns right now.
    pub closed spec fn live(&self) -> Set<usize> {
        self.live@.to_set()
    }

    /// Everything that was taken and given up so far, oldest first.
    pub closed spec fn history(&self) -> Seq<Event> {
        self.history@
    }

    /// The ownership discipline: the book lists no address twice, an address
    /// is listed exactly when one taking of it is unanswered, and at no moment
    /// of the history did an address have two holders or fewer than none.
    pub closed spec fn wf(&self) -> bool {
        &&& self.live@.no_duplicates()
        &&& forall|addr: usize| #[trigger]
            holders(self.history@, addr) == if self.live@.contains(addr) {
                1int
            } else {
                0int
            }
        &&& single_owner_throughout(self.history@)
    }

    /// An empty book.
    pub fn new() -> (ledger: Self)
        ensures
            ledger.wf(),
            ledger.live() == Set::<usize>::empty(),
            ledger.history() == Seq::<Event>::empty(),
    {
        let ledger = Ledger { live: Vec::new(), history: Ghost(Seq::empty()) };
        proof {
            assert(ledger.live@.to_set() =~= Set::<usize>::empty());
            assert forall|k: int, addr: usize| 0 <= k <= ledger.history@.len() implies 0
                <= #[trigger] holders(ledger.history@.take(k), addr) <= 1 by {
                assert(ledger.history@.take(k) =~= Seq::<Event>::empty());
            }
        }
        ledger
    }

    /// Whether a handle owns `addr` right now.
    pub fn owns(&self, addr: usize) -> (owned: bool)
        ensures
            owned == self.live().contains(addr),
    {
        let mut i: usize = 0;
        while i < self.live.len()
            invariant
                i <= self.live@.len(),
                forall|j: int| 0 <= j < i ==> self.live@[j] != addr,
            decreases self.live@.len() - i,
        {
            if self.live[i] == addr {
                return true;
            }
            i += 1;
        }
        false
    }

    /// How many addresses are owned right now.
    pub fn len(&self) -> (n: usize)
        requires
            self.wf(),
        ensures
            n == self.live().len(),
    {
        proof {
            self.live@.unique_seq_to_set();
        }
        self.live.len()
    }

    /// Enters `addr` as owned.
    pub(crate) fn acquire(&mut self, addr: usize)
        requires
            old(self).wf(),
            !old(self).live().contains(addr),
        ensures
            final(self).wf(),
            final(self).live() == old(self).live().insert(addr),
            final(self).history() == old(self).history().push(Event::Acquired(addr)),
    {
        self.live.push(addr);
        proof {
            let before = old(self).history@;
            let event = Event::Acquired(addr);
            self.history@ = before.push(event);
            assert(self.live@.to_set() =~= old(self).live@.to_set().insert(addr)) by {
                assert forall|a: usize| self.live@.contains(a) <==> old(self).live@.contains(a)
                    || a == addr by {
                    if old(self).live@.contains(a) {
                        let j = choose|j: int| 0 <= j < old(self).live@.len() && old(self).live@[j] == a;
                        assert(self.live@[j] == a);
                    }
                    if a == addr {
                        assert(self.live@[self.live@.len() - 1] == a);
                    }
                }
            }
            assert forall|a: usize| #[trigger]
                holders(self.history@, a) == if self.live@.contains(a) {
                    1int
                } else {
                    0int
                } by {
                lemma_holders_push(before, event, a);
                assert(self.live@.to_set().contains(a) <==> self.live@.contains(a));
                assert(old(self).live@.to_set().contains(a) <==> old(self).live@.contains(a));
            }
            assert forall|a: usize| 0 <= #[trigger] holders(before.push(event), a) <= 1 by {
                assert(holders(self.history@, a) <= 1);
            }
            lemma_single_owner_push(before, event);
        }
    }

    /// Strikes `addr` out, torn down (`kept` false) or left to the foreign
    /// side (`kept` true).
    pub(crate) fn give_up(&mut self, addr: usize, kept: bool)
        requires
            old(self).wf(),
            old(self).live().contains(addr),
        ensures
            final(self).wf(),
            final(self).live() == old(self).live().remove(addr),
            final(self).history() == old(self).history().push(
                if kept {
                    Event::Kept(addr)
                } else {
                    Event::Released(addr)
                },
            ),
    {
        let n: usize = self.live.len();
        let mut i: usize = 0;
        while self.live[i] != addr
            invariant
                i < self.live@.len(),
                n == self.live@.len(),
                self.live@ == old(self).live@,
                self.history@ == old(self).history@,
                exists|j: int| i <= j < self.live@.len() && self.live@[j] == addr,
            decreases self.live@.len() - i,
        {
            i += 1;
        }
        self.live.remove(i);
        proof {
            let before = old(self).history@;
            let event = if kept {
                Event::Kept(addr)
            } else {
                Event::Released(addr)
            };
            self.history@ = before.push(event);
            let was = old(self).live@;
            assert(self.live@ == was.remove(i as int));
            assert forall|a: usize| self.live@.contains(a) <==> was.contains(a) && a != addr by {
                if self.live@.contains(a) {
                    let j = choose|j: int| 0 <= j < self.live@.len() && self.live@[j] == a;
                    if j < i {
                        assert(was[j] == a);
                    } else {
                        assert(was[j + 1] == a);
                    }
                }
                if was.contains(a) && a != addr {
                    let j = choose|j: int| 0 <= j < was.len() && was[j] == a;
                    if j < i {
                        assert(self.live@[j] == a);
                    } else {
                        assert(self.live@[j - 1] == a);
                    }
                }
            }
            assert(self.live@.to_set() =~= was.to_set().remove(addr));
            assert(self.live@.no_duplicates());
            assert forall|a: usize| #[trigger]
                holders(self.history@, a) == if self.live@.contains(a) {
                    1int
                } else {
                    0int
                } by {
                lemma_holders_push(before, event, a);
            }
            assert forall|a: usize| 0 <= #[trigger] holders(before.push(event), a) <= 1 by {
                assert(holders(self.history@, a) <= 1);
            }
            lemma_single_owner_push(before, event);
        }
    }
}

/// A history in which no address ever had two holders stays so when it grows
/// by an event that leaves every address with no holder or one.
pub proof fn lemma_single_owner_push(history: Seq<Event>, event: Event)
    requires
        single_owner_throughout(history),
        forall|addr: usize| 0 <= #[trigger] holders(history.push(event), addr) <= 1,
    ensures
        single_owner_throughout(history.push(event)),
{
    let grown = history.push(event);
    assert forall|k: int, addr: usize| 0 <= k <= grown.len() implies 0 <= #[trigger] holders(
        grown.take(k),
        addr,
    ) <= 1 by {
        if k == grown.len() {
            assert(grown.take(k) =~= grown);
        } else {
            assert(grown.take(k) =~= history.take(k));
        }
    }
}

/// No address has two owners: of a well-formed book, every address has one
/// holder if it is listed as owned and none if it is not.
pub proof fn lemma_single_owner(ledger: Ledger, addr: usize)
    requires
        ledger.wf(),
    ensures
        holders(ledger.history(), addr) == if ledger.live().contains(addr) {
            1int
        } else {
            0int
        },
{
    assert(ledger.live@.to_set().contains(addr) <==> ledger.live@.contains(addr));
}

/// Each taking is answered at most once: at every moment of a well-formed
/// book's history, the release calls and the hand-backs of an address together
/// are as many as its takings, or one fewer while a handle still holds it.
pub proof fn lemma_answered_once(ledger: Ledger, k: int, addr: usize)
    requires
        ledger.wf(),
        0 <= k <= ledger.history().len(),
    ensures
        ({
            let past = ledger.history().take(k);
            let taken = count(past, Event::Acquired(addr));
            let given_up = count(past, Event::Released(addr)) + count(past, Event::Kept(addr));
            given_up == taken || given_up + 1 == taken
        }),
{
    let past = ledger.history().take(k);
    assert(0 <= holders(past, addr) <= 1);
}

} // verus!
