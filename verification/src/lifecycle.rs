//! What holds of the supervised process over its whole life, stated over
//! the transitions of `SupervisedProcess`.

use vstd::prelude::*;
use crate::supervisor::SupervisedProcess;

verus! {

/// One thing that can happen to a supervisor.
pub enum Event<H> {
    /// The port probe was evaluated; the flag says whether the port was free.
    PortProbed(bool),
    /// A launch was reported that produced this handle.
    Launched(H),
    /// A launch was reported that failed.
    LaunchFailed,
    /// The window asked to close.
    WindowClosed,
}

/// The state after one event.
pub open spec fn step<H>(process: SupervisedProcess<H>, event: Event<H>) -> SupervisedProcess<H> {
    match event {
        Event::PortProbed(port_free) => process.after_probe(port_free),
        Event::Launched(handle) => process.after_launch(handle),
        Event::LaunchFailed => process,
        Event::WindowClosed => process.after_close(),
    }
}

/// The termination that one event asks for, if any.
pub open spec fn request<H>(process: SupervisedProcess<H>, event: Event<H>) -> Option<H> {
    match event {
        Event::WindowClosed => process.close_request(),
        _ => None,
    }
}

/// The state after a run of events.
pub open spec fn run<H>(process: SupervisedProcess<H>, events: Seq<Event<H>>) -> SupervisedProcess<
    H,
>
    decreases events.len(),
{
    if events.len() == 0 {
        process
    } else {
        run(step(process, events[0]), events.drop_first())
    }
}

/// The terminations that a run of events asks for, in order.
pub open spec fn requests<H>(process: SupervisedProcess<H>, events: Seq<Event<H>>) -> Seq<H>
    decreases events.len(),
{
    if events.len() == 0 {
        Seq::empty()
    } else {
        let first = match request(process, events[0]) {
            Some(handle) => seq![handle],
            None => Seq::empty(),
        };
        first + requests(step(process, events[0]), events.drop_first())
    }
}

/// A run of `closes` window-close events and nothing else.
pub open spec fn closes_only<H>(closes: nat) -> Seq<Event<H>> {
    Seq::new(closes, |i: int| Event::WindowClosed)
}

/// The requests of window-close events in a row are those of the run that
/// consists of them.
pub proof fn lemma_closes_are_a_run<H>(process: SupervisedProcess<H>, closes: nat)
    ensures
        requests(process, closes_only(closes)) == process.close_requests(closes),
    decreases closes,
{
    if closes > 0 {
        lemma_closes_are_a_run(process.after_close(), (closes - 1) as nat);
        assert(closes_only::<H>(closes).drop_first() =~= closes_only::<H>((closes - 1) as nat));
    }
}

/// How far a state has come: fresh, then started, then done for good.
pub open spec fn progress<H>(process: SupervisedProcess<H>) -> nat {
    match process {
        SupervisedProcess::NotAttempted => 0,
        SupervisedProcess::Started(_) => 1,
        SupervisedProcess::SkippedExternal => 2,
        SupervisedProcess::Terminated => 2,
    }
}

/// A supervisor that was skipped or has given up its handle is done: no
/// run of events changes it or asks for a termination.
pub proof fn lemma_done_is_final<H>(process: SupervisedProcess<H>, events: Seq<Event<H>>)
    requires
        process is SkippedExternal || process is Terminated,
    ensures
        run(process, events) == process,
        requests(process, events) == Seq::<H>::empty(),
    decreases events.len(),
{
    if events.len() > 0 {
        lemma_done_is_final(step(process, events[0]), events.drop_first());
        assert(requests(process, events) =~= Seq::<H>::empty());
    }
}

/// There is no way back: no run of events lowers the progress of a state,
/// and a handle, once tracked, stays the same until it is given up.
pub proof fn lemma_no_way_back<H>(process: SupervisedProcess<H>, events: Seq<Event<H>>)
    ensures
        progress(process) <= progress(run(process, events)),
        process is Started && run(process, events) is Started ==> run(process, events) == process,
        process is Started ==> !(run(process, events) is SkippedExternal),
    decreases events.len(),
{
    if events.len() > 0 {
        lemma_no_way_back(step(process, events[0]), events.drop_first());
        if step(process, events[0]) is Terminated {
            lemma_done_is_final(step(process, events[0]), events.drop_first());
        }
    }
}

/// Whatever happens, in whatever order: at most one termination is ever
/// asked for, and only once a handle was tracked; the run then ends with
/// the handle given up.
pub proof fn lemma_one_termination_at_most<H>(process: SupervisedProcess<H>, events: Seq<Event<H>>)
    ensures
        requests(process, events).len() <= 1,
        requests(process, events).len() == 1 ==> run(process, events) is Terminated,
        requests(process, events).len() == 1 && process.held() is Some ==> requests(
            process,
            events,
        )[0] == process.held()->0,
    decreases events.len(),
{
    if events.len() > 0 {
        let next = step(process, events[0]);
        lemma_one_termination_at_most(next, events.drop_first());
        if request(process, events[0]) is Some {
            lemma_done_is_final(next, events.drop_first());
        }
    }
}

/// Without a tracked handle, window-close events change nothing and ask
/// for no termination, however many of them arrive.
pub proof fn lemma_close_without_handle<H>(process: SupervisedProcess<H>, closes: nat)
    requires
        process.held() is None,
    ensures
        process.close_request() is None,
        process.after_close() == process,
        process.close_requests(closes) == Seq::<H>::empty(),
    decreases closes,
{
    if closes > 0 {
        lemma_close_without_handle(process, (closes - 1) as nat);
        assert(process.close_requests(closes) =~= Seq::<H>::empty());
    }
}

/// On a free port a fresh supervisor asks for a launch, and the handle
/// that the launch reports fills the slot that was empty before.
pub proof fn lemma_free_port_populates<H>(process: SupervisedProcess<H>, handle: H)
    requires
        process is NotAttempted,
    ensures
        process.held() is None,
        process.wants_launch(true),
        process.after_probe(true) == process,
        process.after_probe(true).after_launch(handle) == SupervisedProcess::Started(handle),
        process.after_probe(true).after_launch(handle).held() == Some(handle),
{
}

/// On a taken port a fresh supervisor asks for no launch and is marked as
/// skipped. It stays so whatever is reported or closed afterwards, and no
/// termination is ever asked for.
pub proof fn lemma_taken_port_skips<H>(process: SupervisedProcess<H>, handle: H, closes: nat)
    requires
        process is NotAttempted,
    ensures
        !process.wants_launch(false),
        process.after_probe(false) is SkippedExternal,
        process.after_probe(false).held() is None,
        process.after_probe(false).after_launch(handle) is SkippedExternal,
        process.after_probe(false).after_close() is SkippedExternal,
        process.after_probe(false).close_requests(closes) == Seq::<H>::empty(),
{
    lemma_close_without_handle(process.after_probe(false), closes);
}

/// With a handle tracked, the first window-close event asks for the
/// termination of that handle and empties the slot; over any number of
/// such events that request is the only one.
pub proof fn lemma_close_terminates_once<H>(process: SupervisedProcess<H>, handle: H, closes: nat)
    requires
        process == SupervisedProcess::Started(handle),
        closes >= 1,
    ensures
        process.close_request() == Some(handle),
        process.after_close() is Terminated,
        process.after_close().held() is None,
        process.close_requests(closes) == seq![handle],
{
    lemma_close_without_handle(process.after_close(), (closes - 1) as nat);
    assert(process.close_requests(closes) =~= seq![handle]);
}

/// A second window-close event right after the first is idle: it asks for
/// nothing and leaves the state where the first one put it.
pub proof fn lemma_close_idempotent<H>(process: SupervisedProcess<H>)
    ensures
        process.after_close().close_request() is None,
        process.after_close().after_close() == process.after_close(),
        process.close_requests(2) == process.close_requests(1),
{
    lemma_close_without_handle(process.after_close(), 1);
    assert(process.close_requests(2) =~= process.close_requests(1)) by {
        reveal_with_fuel(SupervisedProcess::close_requests, 3);
    }
}

/// A window-close event that comes before anything was acquired is idle.
pub proof fn lemma_close_before_acquire<H>(process: SupervisedProcess<H>, closes: nat)
    requires
        process is NotAttempted,
    ensures
        process.close_request() is None,
        process.after_close() is NotAttempted,
        process.close_requests(closes) == Seq::<H>::empty(),
{
    lemma_close_without_handle(process, closes);
}

/// Over any run of window-close events at most one termination is asked
/// for, and only for the handle that was tracked at its start.
pub proof fn lemma_at_most_one_request<H>(process: SupervisedProcess<H>, closes: nat)
    ensures
        process.close_requests(closes).len() <= 1,
        forall|i: int|
            0 <= i < process.close_requests(closes).len() ==> process.held() == Some(
                #[trigger] process.close_requests(closes)[i],
            ),
{
    if closes > 0 {
        match process {
            SupervisedProcess::Started(handle) => {
                lemma_close_terminates_once(process, handle, closes);
            },
            _ => {
                lemma_close_without_handle(process, closes);
            },
        }
    }
}

/// Once the slot has left its fresh state, neither a port probe nor the
/// report of a launch changes it: the tracked handle is never replaced.
pub proof fn lemma_settled_is_kept<H>(process: SupervisedProcess<H>, port_free: bool, handle: H)
    requires
        !(process is NotAttempted),
    ensures
        !process.wants_launch(port_free),
        process.after_probe(port_free) == process,
        process.after_launch(handle) == process,
{
}

} // verus!
