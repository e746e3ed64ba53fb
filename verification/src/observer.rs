//! A channel from one subject to many observers. The subject does not know
//! who listens: it hands each event to every observer that is registered, in
//! the order in which they came.
//!
//! Who registers an observer gets a token, and gives the token back before it
//! goes: from then on the subject passes the observer over. What is
//! registered is a handler, which the subject keeps until the token comes
//! back; an observer that lives elsewhere registers a handler that refers to
//! it without owning it.

use vstd::prelude::*;

verus! {

/// Someone who wants to hear of the events of type `E`.
pub trait Observer<E: Clone> {
    /// Takes one event. What the observer does with it is its own business.
    fn on_notify(&self, event: E);
}

/// The list of the observers of one source of events.
#[verifier::reject_recursive_types(E)]
pub struct Subject<E: Clone> {
    /// One entry for each registration, in their order; `None` once the token
    /// was given back.
    observers: Vec<Option<Box<dyn Observer<E>>>>,
}

impl<E: Clone> View for Subject<E> {
    /// For each registration, in their order, whether it still stands. The
    /// token of a registration is its place in this sequence.
    type V = Seq<bool>;

    closed spec fn view(&self) -> Seq<bool> {
        Seq::new(self.observers@.len(), |i: int| self.observers@[i] is Some)
    }
}

/// The tokens of the registrations that still stand, in the order in which
/// they were made: those to which an event goes, and the order in which it
/// reaches them.
pub open spec fn recipients(live: Seq<bool>) -> Seq<usize>
    decreases live.len(),
{
    if live.len() == 0 {
        Seq::empty()
    } else {
        let earlier = recipients(live.drop_last());
        if live.last() {
            earlier.push((live.len() - 1) as usize)
        } else {
            earlier
        }
    }
}

/// The test that lets every token through but `token`.
pub open spec fn all_but(token: int) -> spec_fn(usize) -> bool {
    |t: usize| t != token
}

impl<E: Clone> Subject<E> {
    /// The handlers, each at the place that its token names; `None` where the
    /// token was given back.
    pub closed spec fn handlers(&self) -> Seq<Option<Box<dyn Observer<E>>>> {
        self.observers@
    }

    /// The view says of each place whether a handler stands there.
    pub proof fn lemma_view_of_handlers(&self)
        ensures
            self@.len() == self.handlers().len(),
            forall|i: int| 0 <= i < self@.len() ==> self@[i] == (#[trigger] self.handlers()[i] is Some),
    {
    }

    /// A token is a place in the list, so the list is no longer than the
    /// tokens reach.
    pub proof fn lemma_tokens_suffice(&self)
        ensures
            self@.len() <= usize::MAX,
    {
        assert(self@.len() == self.observers.len());
    }

    /// A subject that nobody observes yet.
    pub fn new() -> (subject: Self)
        ensures
            subject@ == Seq::<bool>::empty(),
            subject.handlers().len() == 0,
    {
        let subject = Subject { observers: Vec::new() };
        assert(subject@ =~= Seq::<bool>::empty());
        subject
    }

    /// Registers `observer` behind all that are registered, and returns the
    /// token with which it is taken out again. Nothing is looked up: an
    /// observer that is registered twice hears of each event twice.
    pub fn add_observer(&mut self, observer: Box<dyn Observer<E>>) -> (token: usize)
        ensures
            token == old(self)@.len(),
            final(self)@ == old(self)@.push(true),
            final(self).handlers().drop_last() == old(self).handlers(),
            final(self).handlers().last() == Some(observer),
            recipients(final(self)@) == recipients(old(self)@).push(token),
    {
        let token: usize = self.observers.len();
        let entry = Some(observer);
        self.observers.push(entry);
        assert(self@ =~= old(self)@.push(true));
        assert(self@.drop_last() =~= old(self)@);
        assert(self.handlers().drop_last() =~= old(self).handlers());
        token
    }

    /// Takes the registration `token` out; the others keep their places.
    /// Says whether it stood until now. A token that was never given out, or
    /// was given back before, changes nothing. From now on an event passes
    /// the observer over, and reaches the others as before.
    pub fn remove_observer(&mut self, token: usize) -> (removed: bool)
        ensures
            removed == (token < old(self)@.len() && old(self)@[token as int]),
            token < old(self)@.len() ==> final(self)@ == old(self)@.update(token as int, false),
            token >= old(self)@.len() ==> final(self)@ == old(self)@,
            token < old(self)@.len() ==> final(self).handlers() == old(self).handlers().update(
                token as int,
                None,
            ),
            token >= old(self)@.len() ==> final(self).handlers() == old(self).handlers(),
            recipients(final(self)@) == recipients(old(self)@).filter(all_but(token as int)),
    {
        proof {
            self.lemma_tokens_suffice();
        }
        if token < self.observers.len() {
            let removed = self.observers[token].is_some();
            self.observers.set(token, None);
            proof {
                assert(self@ =~= old(self)@.update(token as int, false));
                lemma_removed_observer_is_skipped(old(self)@, token as int);
            }
            removed
        } else {
            proof {
                lemma_recipients_in_order(self@);
                lemma_filter_keeps_all(recipients(self@), all_but(token as int));
            }
            false
        }
    }

    /// Hands a copy of `event` to each observer whose registration stands, in
    /// the order of registration, and returns their tokens in the order in
    /// which they were served.
    pub fn notify_event(&self, event: E) -> (served: Vec<usize>)
        ensures
            served@ == recipients(self@),
    {
        let mut served: Vec<usize> = Vec::new();
        let mut i: usize = 0;
        while i < self.observers.len()
            invariant
                i <= self.observers@.len(),
                served@ == recipients(self@.take(i as int)),
            decreases self.observers@.len() - i,
        {
            assert(self@.take(i + 1).drop_last() =~= self@.take(i as int));
            match &self.observers[i] {
                Some(observer) => {
                    observer.on_notify(event.clone());
                    served.push(i);
                },
                None => {},
            }
            i += 1;
        }
        assert(self@.take(i as int) =~= self@);
        served
    }
}

/// Every recipient is a registration that stands, and the recipients come in
/// the order of registration, each once.
pub proof fn lemma_recipients_in_order(live: Seq<bool>)
    requires
        live.len() <= usize::MAX,
    ensures
        forall|i: int|
            0 <= i < recipients(live).len() ==> (#[trigger] recipients(live)[i]) < live.len()
                && live[recipients(live)[i] as int],
        forall|i: int, j: int|
            0 <= i < j < recipients(live).len() ==> recipients(live)[i] < recipients(live)[j],
        forall|t: int| 0 <= t < live.len() && live[t] ==> recipients(live).contains(t as usize),
    decreases live.len(),
{
    if live.len() > 0 {
        let earlier = live.drop_last();
        lemma_recipients_in_order(earlier);
        let last = (live.len() - 1) as usize;
        assert forall|t: int| 0 <= t < live.len() && live[t] implies recipients(live).contains(
            t as usize,
        ) by {
            if t < earlier.len() {
                assert(earlier[t]);
                let k = choose|k: int|
                    0 <= k < recipients(earlier).len() && recipients(earlier)[k] == t as usize;
                assert(recipients(live)[k] == t as usize);
            } else {
                assert(recipients(live)[recipients(live).len() - 1] == last);
            }
        }
    }
}

/// Once a registration is taken out, an event passes its observer over and
/// still reaches all the others, in the order in which they were registered.
pub proof fn lemma_removed_observer_is_skipped(live: Seq<bool>, token: int)
    requires
        0 <= token < live.len() <= usize::MAX,
    ensures
        recipients(live.update(token, false)) == recipients(live).filter(all_but(token)),
    decreases live.len(),
{
    reveal(Seq::filter);
    let keep = all_but(token);
    let earlier = live.drop_last();
    let last = (live.len() - 1) as usize;
    let after = live.update(token, false);
    if token == live.len() - 1 {
        assert(after.drop_last() =~= earlier);
        lemma_recipients_in_order(earlier);
        lemma_filter_keeps_all(recipients(earlier), keep);
        if live.last() {
            assert(recipients(earlier).push(last).drop_last() =~= recipients(earlier));
        }
    } else {
        assert(after.drop_last() =~= earlier.update(token, false));
        lemma_removed_observer_is_skipped(earlier, token);
        if live.last() {
            assert(recipients(earlier).push(last).drop_last() =~= recipients(earlier));
        }
    }
}

/// A filter that every item passes leaves the sequence as it is.
proof fn lemma_filter_keeps_all(s: Seq<usize>, keep: spec_fn(usize) -> bool)
    requires
        forall|i: int| 0 <= i < s.len() ==> keep(#[trigger] s[i]),
    ensures
        s.filter(keep) == s,
    decreases s.len(),
{
    reveal(Seq::filter);
    if s.len() > 0 {
        lemma_filter_keeps_all(s.drop_last(), keep);
        assert(s.drop_last().push(s.last()) =~= s);
    }
}

} // verus!
