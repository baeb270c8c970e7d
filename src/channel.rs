//! The outbound handle of a connection: the sending half of an unbounded
//! tokio channel that carries frames already rendered to wire text.
use tokio::sync::mpsc::UnboundedSender;
use vstd::prelude::*;

verus! {

/// tokio's unbounded sender, carried through the registry as an opaque value.
#[verifier::external_type_specification]
#[verifier::external_body]
#[verifier::reject_recursive_types(T)]
pub struct ExUnboundedSender<T>(UnboundedSender<T>);

/// Relies on tokio's `UnboundedSender::clone`: the copy shares the channel of
/// the handle it was made from (it clones the `Arc` of the channel), so as a
/// handle it is the same value.
#[verifier::external_body]
pub(crate) fn clone_handle(handle: &UnboundedSender<String>) -> (r: UnboundedSender<String>)
    ensures
        r == *handle,
{
    handle.clone()
}

/// Relies on tokio's `UnboundedSender::send`, which never blocks: the frame is
/// queued unless the receiving half is gone, in which case it is handed back
/// (here: dropped) and `false` is returned. Whether the receiver is still
/// alive is decided by another task, so nothing is promised of the result.
#[verifier::external_body]
fn push_frame(handle: &UnboundedSender<String>, frame: String) -> (accepted: bool) {
    handle.send(frame).is_ok()
}

/// One push: the handle it was made on and the frame it carried.
pub type Push = (UnboundedSender<String>, Seq<char>);

/// The pushes made through this outbox, in order. Every frame that leaves
/// the library goes through `Outbox::push`, which is the only place that
/// calls the channel's `send` and the only place that extends the record.
pub struct Outbox {
    made: Ghost<Seq<Push>>,
}

impl View for Outbox {
    type V = Seq<Push>;

    closed spec fn view(&self) -> Seq<Push> {
        self.made@
    }
}

impl Outbox {
    /// An outbox through which nothing has been pushed yet.
    pub fn new() -> (r: Outbox)
        ensures
            r@ == Seq::<Push>::empty(),
    {
        Outbox { made: Ghost(Seq::empty()) }
    }

    /// Queues `frame` on `handle` and records the push. Returns whether the
    /// receiving half was still there to take it.
    pub fn push(&mut self, handle: &UnboundedSender<String>, frame: String) -> (accepted: bool)
        ensures
            final(self)@ == old(self)@.push((*handle, frame@)),
    {
        let ghost pushed: Push = (*handle, frame@);
        let accepted = push_frame(handle, frame);
        self.made = Ghost(self.made@.push(pushed));
        accepted
    }
}

} // verus!
