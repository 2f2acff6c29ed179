use crate::frame::{Frame, FrameModel};
use tokio::sync::mpsc::UnboundedSender;
use vstd::prelude::*;

verus! {

#[verifier::external_type_specification]
#[verifier::external_body]
#[verifier::reject_recursive_types(T)]
pub struct ExUnboundedSender<T>(UnboundedSender<T>);

/// The record of one frame handed to an outbound queue. Only `enqueue`
/// makes one, so holding it shows that the hand-over took place.
pub struct Offer {
    accepted: bool,
    to: Ghost<UnboundedSender<Frame>>,
    frame: Ghost<FrameModel>,
}

impl Offer {
    /// The producer handle the frame was handed to.
    pub closed spec fn to_spec(&self) -> UnboundedSender<Frame> {
        self.to@
    }

    /// The frame that was handed over.
    pub closed spec fn frame_spec(&self) -> FrameModel {
        self.frame@
    }

    pub closed spec fn accepted_spec(&self) -> bool {
        self.accepted
    }

    /// Whether the queue took the frame; `false` once its consumer is gone.
    pub fn accepted(&self) -> (r: bool)
        ensures
            r == self.accepted_spec(),
    {
        self.accepted
    }
}

/// Relies on tokio's `UnboundedSender::send`: it hands `frame` itself to the
/// channel of `tx`, never waits, and fails only when the receiving half has
/// been closed or dropped. Whether that has happened depends on another task,
/// so nothing is promised of the flag.
#[verifier::external_body]
pub(crate) fn enqueue(tx: &UnboundedSender<Frame>, frame: Frame) -> (r: Offer)
    ensures
        r.to_spec() == *tx,
        r.frame_spec() == frame@,
{
    let to = Ghost(*tx);
    let offered = Ghost(frame@);
    Offer { accepted: tx.send(frame).is_ok(), to, frame: offered }
}

} // verus!
