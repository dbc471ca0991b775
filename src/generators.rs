//! The continuation-driven page generator, as a state machine.
//!
//! The generator decides; its driver does the I/O. The driver calls
//! [`GeneratorStream::poll_next`]: on `Step::Request` it sends the request
//! (with the continuation, if any), then hands the outcome to
//! [`GeneratorStream::receive`] and polls again.

use vstd::prelude::*;

verus! {

/// One page of a response: its items and the continuation it carries, if any.
#[derive(Clone, Debug)]
pub struct Page<T, C> {
    pub items: Vec<T>,
    pub cont: Option<C>,
}

/// Why a generator stopped early.
#[derive(Clone, Debug)]
pub enum GeneratorError<E> {
    /// The request failed, in transport or in decoding.
    Request(E),
    /// Too many pages in a row came with a continuation but no items.
    NoProgress,
}

/// What the driver must do next.
#[derive(Clone, Debug)]
pub enum Step<T, C, E> {
    /// Send the request, with this continuation merged in if there is one.
    Request(Option<C>),
    /// The next item of the sequence.
    Item(T),
    /// The sequence ends with this error.
    Error(GeneratorError<E>),
    /// The sequence has ended.
    End,
}

/// The state of a generator.
pub enum State<T, C, E> {
    Init,
    /// A request is out; its outcome has not been received.
    Waiting,
    /// Items of the last page still to yield, and the page's continuation.
    Values(Vec<T>, Option<C>),
    /// All items yielded; the next page is fetched with this continuation.
    Cont(C),
    /// The last request failed; the error is the next and last element.
    Failed(GeneratorError<E>),
    Done,
}

/// The abstract state of a generator.
pub enum Phase<T, C, E> {
    Init,
    Waiting,
    Values(Seq<T>, Option<C>),
    Cont(C),
    Failed(GeneratorError<E>),
    Done,
}

/// The state after a page's items have been taken up: the items while there
/// are any, then the continuation if there is one, else the end.
pub open spec fn after_items<T, C, E>(items: Seq<T>, cont: Option<C>) -> Phase<T, C, E> {
    if items.len() > 0 {
        Phase::Values(items, cont)
    } else {
        match cont {
            Some(c) => Phase::Cont(c),
            None => Phase::Done,
        }
    }
}

/// What one poll does: the next state and the step handed out.
pub open spec fn spec_poll<T, C, E>(p: Phase<T, C, E>) -> (Phase<T, C, E>, Step<T, C, E>) {
    match p {
        Phase::Init => (Phase::Waiting, Step::Request(None)),
        Phase::Cont(c) => (Phase::Waiting, Step::Request(Some(c))),
        Phase::Values(items, cont) => (after_items(items.drop_first(), cont), Step::Item(items[0])),
        Phase::Failed(e) => (Phase::Done, Step::Error(e)),
        Phase::Done => (Phase::Done, Step::End),
        Phase::Waiting => (Phase::Waiting, Step::End),
    }
}

/// What receiving a page does, after `empty_rounds` empty pages in a row,
/// with at most `limit` allowed.
pub open spec fn spec_receive<T, C, E>(r: Result<Page<T, C>, E>, empty_rounds: nat, limit: nat) -> Phase<T, C, E> {
    match r {
        Err(e) => Phase::Failed(GeneratorError::Request(e)),
        Ok(page) => if page.items@.len() == 0 && page.cont is Some && empty_rounds + 1 > limit {
            Phase::Failed(GeneratorError::NoProgress)
        } else {
            after_items(page.items@, page.cont)
        },
    }
}

/// The count of pages in a row with a continuation but no items, after receiving `r`.
pub open spec fn next_empty_rounds<T, C, E>(r: Result<Page<T, C>, E>, empty_rounds: nat) -> nat {
    match r {
        Ok(page) => if page.items@.len() > 0 {
            0
        } else if page.cont is Some {
            empty_rounds + 1
        } else {
            empty_rounds
        },
        Err(_) => empty_rounds,
    }
}

/// A lazy sequence of items, fetched page by page.
pub struct GeneratorStream<T, C, E> {
    state: State<T, C, E>,
    empty_rounds: u32,
    empty_limit: u32,
}

impl<T, C, E> GeneratorStream<T, C, E> {
    pub closed spec fn phase(&self) -> Phase<T, C, E> {
        match self.state {
            State::Init => Phase::Init,
            State::Waiting => Phase::Waiting,
            State::Values(v, c) => Phase::Values(v@, c),
            State::Cont(c) => Phase::Cont(c),
            State::Failed(e) => Phase::Failed(e),
            State::Done => Phase::Done,
        }
    }

    /// Pages with a continuation but no items received in a row.
    pub closed spec fn empty_rounds(&self) -> nat {
        self.empty_rounds as nat
    }

    /// How many empty pages in a row are allowed.
    pub closed spec fn empty_limit(&self) -> nat {
        self.empty_limit as nat
    }

    pub closed spec fn wf(&self) -> bool {
        &&& self.empty_rounds <= self.empty_limit
        &&& match self.state {
            State::Values(v, _) => v@.len() > 0,
            _ => true,
        }
    }

    /// A generator that has sent nothing yet and allows `empty_limit` pages
    /// in a row with a continuation but no items.
    pub fn new(empty_limit: u32) -> (r: Self)
        ensures
            r.wf(),
            r.phase() == Phase::<T, C, E>::Init,
            r.empty_rounds() == 0,
            r.empty_limit() == empty_limit,
    {
        GeneratorStream { state: State::Init, empty_rounds: 0, empty_limit }
    }

    /// Whether a request is out and its outcome is awaited.
    pub fn is_waiting(&self) -> (r: bool)
        ensures
            r == self.phase() is Waiting,
    {
        match self.state {
            State::Waiting => true,
            _ => false,
        }
    }

    /// The next step: a request to send, an item, the final error, or the end.
    pub fn poll_next(&mut self) -> (r: Step<T, C, E>)
        requires
            old(self).wf(),
            !(old(self).phase() is Waiting),
        ensures
            final(self).wf(),
            (final(self).phase(), r) == spec_poll(old(self).phase()),
            final(self).empty_rounds() == old(self).empty_rounds(),
            final(self).empty_limit() == old(self).empty_limit(),
    {
        let mut state = State::Done;
        std::mem::swap(&mut state, &mut self.state);
        match state {
            State::Init => {
                self.state = State::Waiting;
                Step::Request(None)
            },
            State::Cont(c) => {
                self.state = State::Waiting;
                Step::Request(Some(c))
            },
            State::Values(mut items, cont) => {
                let ghost before = items@;
                let item = items.remove(0);
                assert(items@ =~= before.drop_first());
                if items.len() > 0 {
                    self.state = State::Values(items, cont);
                } else {
                    match cont {
                        Some(c) => {
                            self.state = State::Cont(c);
                        },
                        None => {},
                    }
                }
                Step::Item(item)
            },
            State::Failed(e) => Step::Error(e),
            State::Done => Step::End,
            State::Waiting => {
                self.state = State::Waiting;
                Step::End
            },
        }
    }

    /// Takes up the outcome of the request that is out.
    pub fn receive(&mut self, r: Result<Page<T, C>, E>)
        requires
            old(self).wf(),
            old(self).phase() is Waiting,
        ensures
            final(self).wf(),
            final(self).phase() == spec_receive(r, old(self).empty_rounds(), old(self).empty_limit()),
            final(self).empty_limit() == old(self).empty_limit(),
            !(final(self).phase() is Failed) ==> final(self).empty_rounds() == next_empty_rounds(
                r,
                old(self).empty_rounds(),
            ),
    {
        match r {
            Err(e) => {
                self.state = State::Failed(GeneratorError::Request(e));
            },
            Ok(page) => {
                if page.items.len() == 0 {
                    match page.cont {
                        Some(c) => {
                            if self.empty_rounds >= self.empty_limit {
                                self.state = State::Failed(GeneratorError::NoProgress);
                            } else {
                                self.empty_rounds = self.empty_rounds + 1;
                                self.state = State::Cont(c);
                            }
                        },
                        None => {
                            self.state = State::Done;
                        },
                    }
                } else {
                    self.empty_rounds = 0;
                    self.state = State::Values(page.items, page.cont);
                }
            },
        }
    }
}

/// The steps handed out by `n` polls from `p`, with no response received
/// in between.
pub open spec fn polls<T, C, E>(p: Phase<T, C, E>, n: nat) -> Seq<Step<T, C, E>>
    decreases n,
{
    if n == 0 {
        Seq::empty()
    } else {
        seq![spec_poll(p).1] + polls(spec_poll(p).0, (n - 1) as nat)
    }
}

/// The state after `n` polls from `p`.
pub open spec fn after_polls<T, C, E>(p: Phase<T, C, E>, n: nat) -> Phase<T, C, E>
    decreases n,
{
    if n == 0 {
        p
    } else {
        after_polls(spec_poll(p).0, (n - 1) as nat)
    }
}

/// The items of a list as steps.
pub open spec fn item_steps<T, C, E>(items: Seq<T>) -> Seq<Step<T, C, E>> {
    items.map_values(|x: T| Step::<T, C, E>::Item(x))
}

/// A page's items are yielded one by one in the page's order; then the next
/// request carries the page's continuation, unchanged, or the sequence ends.
pub proof fn lemma_page_in_order<T, C, E>(items: Seq<T>, cont: Option<C>)
    ensures
        polls(after_items::<T, C, E>(items, cont), items.len()) == item_steps::<T, C, E>(items),
        spec_poll(after_polls(after_items::<T, C, E>(items, cont), items.len())) == match cont {
            Some(c) => (Phase::<T, C, E>::Waiting, Step::<T, C, E>::Request(Some(c))),
            None => (Phase::<T, C, E>::Done, Step::<T, C, E>::End),
        },
    decreases items.len(),
{
    if items.len() == 0 {
        assert(item_steps::<T, C, E>(items) =~= Seq::empty());
    } else {
        let rest = items.drop_first();
        lemma_page_in_order::<T, C, E>(rest, cont);
        assert(spec_poll(after_items::<T, C, E>(items, cont)) == (after_items::<T, C, E>(rest, cont), Step::<
            T,
            C,
            E,
        >::Item(items[0])));
        assert(item_steps::<T, C, E>(items) =~= seq![Step::<T, C, E>::Item(items[0])] + item_steps::<T, C, E>(rest));
    }
}

/// A received page is yielded in order, and then its continuation is echoed
/// as it came, or the sequence ends; an empty page with a continuation goes
/// straight on to the next request.
pub proof fn lemma_received_page<T, C, E>(page: Page<T, C>, empty_rounds: nat, limit: nat)
    requires
        page.items@.len() > 0 || page.cont is None || empty_rounds < limit,
    ensures
        polls(spec_receive::<T, C, E>(Ok(page), empty_rounds, limit), page.items@.len()) == item_steps::<T, C, E>(
            page.items@,
        ),
        spec_poll(after_polls(spec_receive::<T, C, E>(Ok(page), empty_rounds, limit), page.items@.len()))
            == match page.cont {
            Some(c) => (Phase::<T, C, E>::Waiting, Step::<T, C, E>::Request(Some(c))),
            None => (Phase::<T, C, E>::Done, Step::<T, C, E>::End),
        },
{
    lemma_page_in_order::<T, C, E>(page.items@, page.cont);
}

/// A failed request yields exactly one error, and nothing after it.
pub proof fn lemma_error_is_last<T, C, E>(e: E, empty_rounds: nat, limit: nat, n: nat)
    ensures
        spec_poll(spec_receive::<T, C, E>(Err(e), empty_rounds, limit)) == (Phase::<T, C, E>::Done, Step::<
            T,
            C,
            E,
        >::Error(GeneratorError::Request(e))),
        polls(Phase::<T, C, E>::Done, n) == Seq::new(n, |i: int| Step::<T, C, E>::End),
    decreases n,
{
    if n > 0 {
        lemma_error_is_last::<T, C, E>(e, empty_rounds, limit, (n - 1) as nat);
        assert(polls(Phase::<T, C, E>::Done, n) =~= Seq::new(n, |i: int| Step::<T, C, E>::End));
    }
}

/// The steps a driver sees when it answers each request of the generator
/// with the next response of `script`, over at most `fuel` polls. It stops
/// at the end, or at a request that `script` has no answer for.
pub open spec fn drive<T, C, E>(
    p: Phase<T, C, E>,
    rounds: nat,
    limit: nat,
    script: Seq<Result<Page<T, C>, E>>,
    fuel: nat,
) -> Seq<Step<T, C, E>>
    decreases fuel,
{
    if fuel == 0 {
        Seq::empty()
    } else {
        let (next, s) = spec_poll(p);
        match s {
            Step::End => seq![s],
            Step::Request(_) => if script.len() == 0 {
                seq![s]
            } else {
                seq![s] + drive(
                    spec_receive(script[0], rounds, limit),
                    next_empty_rounds(script[0], rounds),
                    limit,
                    script.drop_first(),
                    (fuel - 1) as nat,
                )
            },
            _ => seq![s] + drive(next, rounds, limit, script, (fuel - 1) as nat),
        }
    }
}

/// What a run yields from a request carrying `cont` on: the request, then
/// for each page answered its items in order and the next request with the
/// page's continuation; a page without continuation ends the run, and a
/// failure ends it with one error.
pub open spec fn expected_run<T, C, E>(
    cont: Option<C>,
    rounds: nat,
    limit: nat,
    script: Seq<Result<Page<T, C>, E>>,
) -> Seq<Step<T, C, E>>
    decreases script.len(),
{
    seq![Step::Request(cont)] + if script.len() == 0 {
        Seq::empty()
    } else {
        match script[0] {
            Err(e) => seq![Step::Error(GeneratorError::Request(e)), Step::End],
            Ok(page) => if page.items@.len() == 0 && page.cont is Some && rounds + 1 > limit {
                seq![Step::Error(GeneratorError::NoProgress), Step::End]
            } else {
                item_steps(page.items@) + match page.cont {
                    None => seq![Step::End],
                    Some(c) => expected_run(Some(c), next_empty_rounds(script[0], rounds), limit, script.drop_first()),
                }
            },
        }
    }
}

/// Enough polls to run through `script`.
pub open spec fn fuel_for<T, C, E>(script: Seq<Result<Page<T, C>, E>>) -> nat
    decreases script.len(),
{
    if script.len() == 0 {
        1
    } else {
        3 + match script[0] {
            Ok(page) => page.items@.len(),
            Err(_) => 0,
        } + fuel_for(script.drop_first())
    }
}

proof fn lemma_drive_items<T, C, E>(
    items: Seq<T>,
    cont: Option<C>,
    rounds: nat,
    limit: nat,
    script: Seq<Result<Page<T, C>, E>>,
    fuel: nat,
)
    requires
        fuel >= items.len(),
    ensures
        drive(after_items::<T, C, E>(items, cont), rounds, limit, script, fuel) == item_steps::<T, C, E>(items)
            + drive(after_items::<T, C, E>(Seq::empty(), cont), rounds, limit, script, (fuel - items.len()) as nat),
    decreases items.len(),
{
    if items.len() == 0 {
        assert(items =~= Seq::<T>::empty());
        assert(item_steps::<T, C, E>(items) =~= Seq::empty());
    } else {
        let rest = items.drop_first();
        lemma_drive_items::<T, C, E>(rest, cont, rounds, limit, script, (fuel - 1) as nat);
        assert(item_steps::<T, C, E>(items) =~= seq![Step::<T, C, E>::Item(items[0])] + item_steps::<T, C, E>(rest));
        assert(drive(after_items::<T, C, E>(items, cont), rounds, limit, script, fuel) == seq![
            Step::<T, C, E>::Item(items[0]),
        ] + drive(after_items::<T, C, E>(rest, cont), rounds, limit, script, (fuel - 1) as nat));
    }
}

proof fn lemma_drive_done<T, C, E>(rounds: nat, limit: nat, script: Seq<Result<Page<T, C>, E>>, fuel: nat)
    requires
        fuel >= 1,
    ensures
        drive(Phase::<T, C, E>::Done, rounds, limit, script, fuel) == seq![Step::<T, C, E>::End],
{
}

proof fn lemma_drive_from_request<T, C, E>(
    p: Phase<T, C, E>,
    cont: Option<C>,
    rounds: nat,
    limit: nat,
    script: Seq<Result<Page<T, C>, E>>,
    fuel: nat,
)
    requires
        spec_poll(p) == (Phase::<T, C, E>::Waiting, Step::<T, C, E>::Request(cont)),
        fuel >= fuel_for(script),
    ensures
        drive(p, rounds, limit, script, fuel) == expected_run(cont, rounds, limit, script),
    decreases script.len(),
{
    if script.len() == 0 {
        assert(drive(p, rounds, limit, script, fuel) =~= expected_run(cont, rounds, limit, script));
    } else {
        let r = script[0];
        let rest = script.drop_first();
        let f1 = (fuel - 1) as nat;
        let after = spec_receive(r, rounds, limit);
        let rounds2 = next_empty_rounds(r, rounds);
        assert(drive(p, rounds, limit, script, fuel) == seq![Step::<T, C, E>::Request(cont)] + drive(
            after,
            rounds2,
            limit,
            rest,
            f1,
        ));
        match r {
            Err(e) => {
                lemma_drive_done::<T, C, E>(rounds2, limit, rest, (f1 - 1) as nat);
                assert(drive(after, rounds2, limit, rest, f1) =~= seq![
                    Step::<T, C, E>::Error(GeneratorError::Request(e)),
                    Step::<T, C, E>::End,
                ]);
                assert(drive(p, rounds, limit, script, fuel) =~= expected_run(cont, rounds, limit, script));
            },
            Ok(page) => {
                if page.items@.len() == 0 && page.cont is Some && rounds + 1 > limit {
                    lemma_drive_done::<T, C, E>(rounds2, limit, rest, (f1 - 1) as nat);
                    assert(drive(after, rounds2, limit, rest, f1) =~= seq![
                        Step::<T, C, E>::Error(GeneratorError::NoProgress),
                        Step::<T, C, E>::End,
                    ]);
                    assert(drive(p, rounds, limit, script, fuel) =~= expected_run(cont, rounds, limit, script));
                } else {
                    let items = page.items@;
                    let f2 = (f1 - items.len()) as nat;
                    lemma_drive_items::<T, C, E>(items, page.cont, rounds2, limit, rest, f1);
                    match page.cont {
                        None => {
                            lemma_drive_done::<T, C, E>(rounds2, limit, rest, f2);
                        },
                        Some(c) => {
                            lemma_drive_from_request::<T, C, E>(Phase::Cont(c), Some(c), rounds2, limit, rest, f2);
                        },
                    }
                    assert(drive(p, rounds, limit, script, fuel) =~= expected_run(cont, rounds, limit, script));
                }
            },
        }
    }
}

/// A generator driven with scripted responses yields each page's items in
/// the page's order, sends the next request with the page's continuation
/// unchanged, ends after a page without continuation, and after a failed
/// request yields exactly one error and then ends.
pub proof fn lemma_run<T, C, E>(limit: nat, script: Seq<Result<Page<T, C>, E>>, fuel: nat)
    requires
        fuel >= fuel_for(script),
    ensures
        drive(Phase::<T, C, E>::Init, 0, limit, script, fuel) == expected_run(None, 0, limit, script),
{
    lemma_drive_from_request::<T, C, E>(Phase::Init, None, 0, limit, script, fuel);
}

} // verus!
