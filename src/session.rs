use crate::frame::Frame;
use crate::issuer::IdIssuer;
use crate::registry::{Entry, RegisterError, Registry};
use tokio::sync::mpsc::UnboundedSender;
use vstd::prelude::*;

verus! {

/// Where a connection stands between registration and teardown. Teardown
/// itself is `disconnect`, which consumes the session, so it runs at most
/// once and nothing follows it.
#[derive(Clone, Copy, Debug, PartialEq, Eq, Structural)]
pub enum Phase {
    /// Registered and reading inbound frames.
    Registered,
    /// The read side has ended; the session waits to be unregistered.
    Unregistering,
}

/// What one read on a connection's inbound half gave.
#[derive(Clone, Debug, PartialEq, Eq)]
pub enum Inbound {
    /// A frame arrived.
    Frame(Frame),
    /// The stream ended, or the read failed.
    End,
}

/// What the connection's task does next.
#[derive(Clone, Debug, PartialEq, Eq)]
pub enum Step {
    /// Hand this text frame to the dispatcher, then read again.
    Dispatch(Frame),
    /// Nothing to relay; read again.
    Skip,
    /// Stop reading and disconnect.
    Leave,
}

/// One connection from registration to teardown.
pub struct Session {
    id: usize,
    phase: Phase,
}

impl Session {
    pub closed spec fn id_spec(&self) -> usize {
        self.id
    }

    pub closed spec fn phase_spec(&self) -> Phase {
        self.phase
    }

    pub fn id(&self) -> (r: usize)
        ensures
            r == self.id_spec(),
    {
        self.id
    }

    pub fn phase(&self) -> (r: Phase)
        ensures
            r == self.phase_spec(),
    {
        self.phase
    }

    /// Registers the connection `id` with the producer handle `tx` of its
    /// outbound queue. Fails, changing nothing, when `id` is already taken.
    pub fn open(id: usize, users: &mut Registry, tx: UnboundedSender<Frame>) -> (r: Result<
        Session,
        RegisterError,
    >)
        requires
            old(users).wf(),
        ensures
            final(users).wf(),
            r is Ok <==> !old(users).ids().contains(id),
            r is Ok ==> r->Ok_0.id_spec() == id && r->Ok_0.phase_spec() == Phase::Registered
                && final(users).entries_spec() == old(users).entries_spec().push(Entry { id, tx })
                && final(users).ids() == old(users).ids().push(id),
            r is Err ==> r->Err_0 == RegisterError::DuplicateId && final(users).entries_spec()
                == old(users).entries_spec(),
    {
        match users.register(id, tx) {
            Ok(()) => Ok(Session { id, phase: Phase::Registered }),
            Err(e) => Err(e),
        }
    }

    /// Decides what to do with one inbound read: relay a text frame, skip any
    /// other frame, and leave once the stream has ended. After leaving, every
    /// further read is answered with `Leave` as well.
    pub fn step(&mut self, input: Inbound) -> (r: Step)
        ensures
            final(self).id_spec() == old(self).id_spec(),
            old(self).phase_spec() == Phase::Unregistering ==> r == Step::Leave
                && final(self).phase_spec() == Phase::Unregistering,
            old(self).phase_spec() == Phase::Registered ==> match input {
                Inbound::Frame(f) => {
                    &&& final(self).phase_spec() == Phase::Registered
                    &&& f@ is Text ==> r == Step::Dispatch(f)
                    &&& !(f@ is Text) ==> r == Step::Skip
                },
                Inbound::End => r == Step::Leave && final(self).phase_spec()
                    == Phase::Unregistering,
            },
    {
        if let Phase::Unregistering = self.phase {
            return Step::Leave;
        }
        match input {
            Inbound::Frame(f) => {
                if f.is_text() {
                    Step::Dispatch(f)
                } else {
                    Step::Skip
                }
            },
            Inbound::End => {
                self.phase = Phase::Unregistering;
                Step::Leave
            },
        }
    }
}

/// Opens a session for a newly established connection: issues it the next
/// identity and registers it with its outbound queue's producer handle.
/// Identities are never issued twice, so the registration only fails if the
/// counter has wrapped around onto a live identity; on an empty registry it
/// always succeeds.
pub fn connect(issuer: &IdIssuer, users: &mut Registry, tx: UnboundedSender<Frame>) -> (r: Result<
    Session,
    RegisterError,
>)
    requires
        old(users).wf(),
    ensures
        final(users).wf(),
        r is Ok ==> r->Ok_0.phase_spec() == Phase::Registered && !old(users).ids().contains(
            r->Ok_0.id_spec(),
        ) && final(users).ids() == old(users).ids().push(r->Ok_0.id_spec())
            && final(users).entries_spec() == old(users).entries_spec().push(
            (Entry { id: r->Ok_0.id_spec(), tx }),
        ),
        r is Err ==> r->Err_0 == RegisterError::DuplicateId && final(users).entries_spec()
            == old(users).entries_spec() && old(
            users,
        ).ids().len() > 0,
        old(users).ids().len() == 0 ==> r is Ok,
{
    let id = issuer.issue();
    Session::open(id, users, tx)
}

/// Ends a session: removes its identity from the registry, so that no later
/// broadcast reaches it. Consuming the session makes this happen once.
pub fn disconnect(session: Session, users: &mut Registry) -> (removed: bool)
    requires
        old(users).wf(),
    ensures
        final(users).wf(),
        removed == old(users).ids().contains(session.id_spec()),
        !final(users).ids().contains(session.id_spec()),
        !removed ==> final(users).entries_spec() == old(users).entries_spec(),
        removed ==> exists|i: int|
            0 <= i < old(users).ids().len() && old(users).ids()[i] == session.id_spec()
                && final(users).entries_spec() == old(users).entries_spec().remove(i)
                && final(users).ids() == old(users).ids().remove(i),
{
    users.unregister(session.id)
}

} // verus!
