//! The windowed path's event loop, as decisions over received events.
//!
//! After its one frame is presented, the windowed program blocks on the
//! window system's event stream and leaves the loop on the first
//! window-close event; every other event keeps the loop running.  Receiving
//! events is window-system work done outside this crate; the decision made
//! on each event, and on a whole stream of them, is specified here.

use vstd::prelude::*;

verus! {

/// A window-system event, reduced to what the loop's decision reads.
#[derive(Clone, Copy, PartialEq, Eq, Structural, Debug)]
pub enum WinEvent {
    /// The user asked to close the window.
    CloseRequested,
    /// Any other event: input, redraw, resize, focus, ...
    Other,
}

/// What the dispatch loop does after one event.
#[derive(Clone, Copy, PartialEq, Eq, Structural, Debug)]
pub enum LoopFlow {
    /// Leave the loop; the process then ends.
    Break,
    /// Keep waiting for the next event.
    Continue,
}

/// The decision made on one received event: leave the loop exactly on a
/// window-close event.
pub fn handle_event(e: &WinEvent) -> (r: LoopFlow)
    ensures
        r is Break <==> e is CloseRequested,
{
    match e {
        WinEvent::CloseRequested => LoopFlow::Break,
        WinEvent::Other => LoopFlow::Continue,
    }
}

/// Run the dispatch decisions over a stream of received events.  Returns the
/// index of the event that ended the loop: the first window-close event.
/// `None` means no event in the stream ended the loop — the process would
/// still be waiting.
pub fn run_loop(events: &Vec<WinEvent>) -> (r: Option<usize>)
    ensures
        r matches Some(i) ==> {
            &&& i < events@.len()
            &&& events@[i as int] is CloseRequested
            &&& forall|j: int| 0 <= j < i ==> !(events@[j] is CloseRequested)
        },
        r is None <==> (forall|j: int| 0 <= j < events@.len() ==> !(events@[j] is CloseRequested)),
{
    let mut k: usize = 0;
    while k < events.len()
        invariant
            k <= events@.len(),
            forall|j: int| 0 <= j < k ==> !(events@[j] is CloseRequested),
        decreases events@.len() - k,
    {
        let flow = handle_event(&events[k]);
        match flow {
            LoopFlow::Break => {
                return Some(k);
            },
            LoopFlow::Continue => {},
        }
        k = k + 1;
    }
    None
}

} // verus!
