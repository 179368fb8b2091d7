//! The native client's connection bookkeeping.
//!
//! Messages that arrive from the hub before the user interface reports that it
//! is ready are kept, and handed over in arrival order once it is; after that,
//! messages are handed over as they come. Sending needs an open connection.

use vstd::prelude::*;
use crate::protocol::Protocol;

verus! {

/// What the client knows of its connection.
#[derive(Debug, PartialEq)]
pub struct ConnectionManager {
    pub buffer: Vec<Protocol>,
    pub is_ready: bool,
    pub connected: bool,
}

/// The client's bookkeeping as a mathematical value.
pub struct InboxView {
    pub pending: Seq<Protocol>,
    pub ready: bool,
}

impl ConnectionManager {
    /// The pending messages and whether the interface is ready.
    pub open spec fn inbox(&self) -> InboxView {
        InboxView { pending: self.buffer@, ready: self.is_ready }
    }

    /// A client that is neither connected nor ready, with nothing pending.
    pub fn new() -> (res: ConnectionManager)
        ensures
            res.buffer@ == Seq::<Protocol>::empty(),
            !res.is_ready,
            !res.connected,
    {
        ConnectionManager { buffer: Vec::new(), is_ready: false, connected: false }
    }

    /// Records that the websocket to the hub is open.
    pub fn connect(&mut self)
        ensures
            final(self).connected,
            final(self).inbox() == old(self).inbox(),
    {
        self.connected = true;
    }

    /// Takes a message from the hub: hands it over at once if the interface is
    /// ready, and keeps it otherwise.
    pub fn receive(&mut self, msg: Protocol) -> (res: Option<Protocol>)
        ensures
            (final(self).inbox(), res) == receive_step(old(self).inbox(), msg),
            final(self).connected == old(self).connected,
    {
        if self.is_ready {
            Some(msg)
        } else {
            self.buffer.push(msg);
            None
        }
    }

    /// Marks the interface ready and hands over what was kept, oldest first.
    pub fn set_ready(&mut self) -> (res: Vec<Protocol>)
        ensures
            (final(self).inbox(), res@) == ready_step(old(self).inbox()),
            final(self).connected == old(self).connected,
    {
        self.is_ready = true;
        let mut kept: Vec<Protocol> = Vec::new();
        std::mem::swap(&mut kept, &mut self.buffer);
        kept
    }

    /// Checks that `msg` can go out: it is handed back to be written to the
    /// socket if the connection is open, and refused with "Not connected"
    /// otherwise.
    pub fn send(&self, msg: Protocol) -> (res: Result<Protocol, String>)
        ensures
            self.connected ==> res == Ok::<Protocol, String>(msg),
            !self.connected ==> (res matches Err(e) && e@ == "Not connected"@),
    {
        if self.connected {
            Ok(msg)
        } else {
            Err(String::from_str("Not connected"))
        }
    }
}

/// Taking one message: handed over if ready, kept otherwise.
pub open spec fn receive_step(v: InboxView, msg: Protocol) -> (InboxView, Option<Protocol>) {
    if v.ready {
        (v, Some(msg))
    } else {
        (InboxView { pending: v.pending.push(msg), ..v }, None)
    }
}

/// Becoming ready: everything kept is handed over.
pub open spec fn ready_step(v: InboxView) -> (InboxView, Seq<Protocol>) {
    (InboxView { pending: Seq::empty(), ready: true }, v.pending)
}

/// Something that happens to the client's inbox.
pub enum InboxEvent {
    /// A message arrives from the hub.
    Arrive(Protocol),
    /// The interface reports that it is ready.
    Ready,
}

/// The messages handed over by a step, as a sequence.
pub open spec fn handed(o: Option<Protocol>) -> Seq<Protocol> {
    match o {
        Some(m) => seq![m],
        None => Seq::empty(),
    }
}

/// The inbox after `events`, and everything handed over along the way.
pub open spec fn run_inbox(v: InboxView, events: Seq<InboxEvent>) -> (InboxView, Seq<Protocol>)
    decreases events.len(),
{
    if events.len() == 0 {
        (v, Seq::empty())
    } else {
        let (v1, d1) = run_inbox(v, events.drop_last());
        match events.last() {
            InboxEvent::Arrive(m) => {
                let (v2, o) = receive_step(v1, m);
                (v2, d1 + handed(o))
            },
            InboxEvent::Ready => {
                let (v2, d) = ready_step(v1);
                (v2, d1 + d)
            },
        }
    }
}

/// The messages that arrive during `events`, in order.
pub open spec fn arrivals(events: Seq<InboxEvent>) -> Seq<Protocol>
    decreases events.len(),
{
    if events.len() == 0 {
        Seq::empty()
    } else {
        match events.last() {
            InboxEvent::Arrive(m) => arrivals(events.drop_last()).push(m),
            InboxEvent::Ready => arrivals(events.drop_last()),
        }
    }
}

/// No message is lost, duplicated or reordered: what has been handed over,
/// followed by what is still kept, is what was kept at the start followed by
/// what arrived since, in order. Once the interface has reported ready,
/// nothing is kept any more.
pub proof fn lemma_inbox_delivers_in_order(v: InboxView, events: Seq<InboxEvent>)
    requires
        v.ready ==> v.pending.len() == 0,
    ensures
        run_inbox(v, events).1 + run_inbox(v, events).0.pending == v.pending + arrivals(events),
        run_inbox(v, events).0.ready ==> run_inbox(v, events).0.pending.len() == 0,
        (v.ready || exists|i: int| 0 <= i < events.len() && events[i] is Ready) ==> run_inbox(
            v,
            events,
        ).0.ready,
    decreases events.len(),
{
    if events.len() > 0 {
        let prefix = events.drop_last();
        lemma_inbox_delivers_in_order(v, prefix);
        let (v1, d1) = run_inbox(v, prefix);
        match events.last() {
            InboxEvent::Arrive(m) => {
                if v1.ready {
                    assert(v1.pending =~= Seq::<Protocol>::empty());
                    assert(d1 + seq![m] + v1.pending =~= d1 + v1.pending + seq![m]);
                } else {
                    assert(d1 + Seq::empty() + v1.pending.push(m) =~= d1 + v1.pending + seq![m]);
                }
            },
            InboxEvent::Ready => {
                assert(d1 + v1.pending + Seq::<Protocol>::empty() =~= d1 + v1.pending);
            },
        }
        if v.ready || exists|i: int| 0 <= i < events.len() && events[i] is Ready {
            if !v.ready && !(events.last() is Ready) {
                let i = choose|i: int| 0 <= i < events.len() && events[i] is Ready;
                assert(prefix[i] is Ready);
            }
        }
    }
}

} // verus!
