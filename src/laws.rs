use vstd::prelude::*;

use crate::protocol::{Action, CreatorPhase, Event, ExecutionFailure, Invocation};

verus! {

/// The state reached from the initial one through a sequence of events.
pub open spec fn run<T>(evs: Seq<Event<T>>) -> Invocation<T>
    decreases evs.len(),
{
    if evs.len() == 0 {
        Invocation::<T>::initial()
    } else {
        run(evs.drop_last()).next(evs.last()).0
    }
}

/// Several invocations side by side; an event reaches the `i`-th one only.
pub open spec fn step_one<T>(sys: Seq<Invocation<T>>, i: int, e: Event<T>) -> Seq<Invocation<T>> {
    sys.update(i, sys[i].next(e).0)
}

proof fn lemma_next_wf<T>(s: Invocation<T>, e: Event<T>)
    requires
        s.wf(),
    ensures
        s.next(e).0.wf(),
{
}

/// Every reachable state is well formed.
pub proof fn lemma_run_wf<T>(evs: Seq<Event<T>>)
    ensures
        run(evs).wf(),
    decreases evs.len(),
{
    if evs.len() > 0 {
        lemma_run_wf(evs.drop_last());
        lemma_next_wf(run(evs.drop_last()), evs.last());
    }
}

proof fn lemma_prefix<T>(evs: Seq<Event<T>>, i: int)
    requires
        0 <= i < evs.len(),
    ensures
        evs.drop_last().take(i) == evs.take(i),
        evs.drop_last().take(i + 1) == evs.take(i + 1) || i + 1 == evs.len(),
        evs.take(evs.len() as int) == evs,
{
    assert(evs.drop_last().take(i) =~= evs.take(i));
    if i + 1 < evs.len() {
        assert(evs.drop_last().take(i + 1) =~= evs.take(i + 1));
    }
    assert(evs.take(evs.len() as int) =~= evs);
}

/// Once the creator has resumed it stays resumed, and from then on the
/// worker never holds the borrow again: the creator may mutate or drop the
/// data it lent as soon as the spawn call returns.
pub proof fn lemma_borrow_released_once_resumed<T>(evs: Seq<Event<T>>, k: int)
    requires
        0 <= k <= evs.len(),
        run(evs.take(k)).creator == CreatorPhase::Resumed,
    ensures
        run(evs).creator == CreatorPhase::Resumed,
        !run(evs).borrow_live(),
    decreases evs.len(),
{
    lemma_run_wf(evs);
    if k == evs.len() {
        assert(evs.take(k) =~= evs);
    } else {
        lemma_prefix(evs, k);
        lemma_borrow_released_once_resumed(evs.drop_last(), k);
    }
}

proof fn lemma_init_end_index<T>(evs: Seq<Event<T>>) -> (i: int)
    requires
        run(evs).init_over(),
    ensures
        0 <= i < evs.len(),
        run(evs.take(i)).borrow_live(),
        run(evs.take(i + 1)).init_over(),
    decreases evs.len(),
{
    let prev = evs.drop_last();
    if run(prev).init_over() {
        let i = lemma_init_end_index(prev);
        lemma_prefix(evs, i);
        i
    } else {
        let i = evs.len() - 1;
        lemma_prefix(evs, i);
        assert(evs.take(i) =~= prev);
        i
    }
}

proof fn lemma_resume_index<T>(evs: Seq<Event<T>>) -> (j: int)
    requires
        run(evs).creator == CreatorPhase::Resumed,
    ensures
        0 <= j < evs.len(),
        run(evs.take(j)).creator == CreatorPhase::Waiting,
        run(evs.take(j)).signalled,
        run(evs.take(j + 1)).creator == CreatorPhase::Resumed,
    decreases evs.len(),
{
    let prev = evs.drop_last();
    if run(prev).creator == CreatorPhase::Resumed {
        let j = lemma_resume_index(prev);
        lemma_prefix(evs, j);
        j
    } else {
        let j = evs.len() - 1;
        lemma_prefix(evs, j);
        assert(evs.take(j) =~= prev);
        j
    }
}

/// Every effect of the initialization phase happens before the creator
/// resumes: the step that ends the initialization closure (by return or by
/// unwinding) comes strictly before the step at which the creator's wait
/// returns.
pub proof fn lemma_init_ends_before_resume<T>(evs: Seq<Event<T>>)
    requires
        run(evs).creator == CreatorPhase::Resumed,
    ensures
        exists|i: int, j: int|
            0 <= i < j < evs.len() && run(#[trigger] evs.take(i)).borrow_live() && run(
                evs.take(i + 1),
            ).init_over() && run(#[trigger] evs.take(j)).creator == CreatorPhase::Waiting && run(
                evs.take(j + 1),
            ).creator == CreatorPhase::Resumed,
{
    let j = lemma_resume_index(evs);
    let pre = evs.take(j);
    lemma_run_wf(pre);
    let i = lemma_init_end_index(pre);
    assert(pre.take(i) =~= evs.take(i));
    assert(pre.take(i + 1) =~= evs.take(i + 1));
    assert(0 <= i < j < evs.len() && run(evs.take(i)).borrow_live() && run(
        evs.take(i + 1),
    ).init_over() && run(evs.take(j)).creator == CreatorPhase::Waiting && run(
        evs.take(j + 1),
    ).creator == CreatorPhase::Resumed);
}

/// Joining yields the value that the continuation returned.
pub proof fn lemma_join_returns_produced_value<T>(evs: Seq<Event<T>>, v: T)
    requires
        run(evs).worker is Executing,
    ensures
        run(evs.push(Event::ExecReturned(v))).outcome() == Some(Ok::<T, ExecutionFailure>(v)),
{
    assert(evs.push(Event::ExecReturned(v)).drop_last() =~= evs);
}

/// A value obtained by joining was returned by the continuation: never a
/// stale or default one.
pub proof fn lemma_joined_value_was_produced<T>(evs: Seq<Event<T>>, v: T)
    requires
        run(evs).outcome() == Some(Ok::<T, ExecutionFailure>(v)),
    ensures
        exists|i: int| 0 <= i < evs.len() && evs[i] == Event::ExecReturned(v),
    decreases evs.len(),
{
    let prev = evs.drop_last();
    if run(prev).outcome() == Some(Ok::<T, ExecutionFailure>(v)) {
        lemma_joined_value_was_produced(prev, v);
        let i = choose|i: int| 0 <= i < prev.len() && prev[i] == Event::ExecReturned(v);
        assert(evs[i] == prev[i]);
    } else {
        assert(evs[evs.len() - 1] == Event::ExecReturned(v));
    }
}

/// When the initialization closure unwinds, the guard still fires: the
/// creator's wait returns, the creator gets its handle, and joining reports
/// the failure.
pub proof fn lemma_init_failure_unblocks_creator<T>(evs: Seq<Event<T>>)
    requires
        run(evs).borrow_live(),
    ensures
        run(evs.push(Event::InitPanicked)).signalled,
        run(evs.push(Event::InitPanicked).push(Event::SignalReceived)).creator
            == CreatorPhase::Resumed,
        run(evs.push(Event::InitPanicked).push(Event::SignalReceived)).outcome() == Some(
            Err::<T, ExecutionFailure>(ExecutionFailure),
        ),
{
    lemma_run_wf(evs);
    let a = evs.push(Event::InitPanicked);
    assert(a.drop_last() =~= evs);
    assert(a.push(Event::SignalReceived).drop_last() =~= a);
}

/// Each invocation has its own signal: an event of one leaves every other
/// unchanged, and a creator whose own guard has not fired stays blocked.
pub proof fn lemma_invocations_independent<T>(sys: Seq<Invocation<T>>, i: int, e: Event<T>)
    requires
        0 <= i < sys.len(),
    ensures
        forall|j: int|
            0 <= j < sys.len() && j != i ==> #[trigger] step_one(sys, i, e)[j] == sys[j],
        forall|j: int|
            0 <= j < sys.len() && j != i && sys[j].creator == CreatorPhase::Waiting
                && !sys[j].signalled ==> #[trigger] step_one(sys, i, e)[j].next(
                Event::SignalReceived,
            ) == (sys[j], Action::Wait),
{
}

} // verus!
