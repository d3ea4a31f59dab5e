use vstd::prelude::*;

use crate::broadcaster::{others, BroadcastReport};
use crate::identity::ConnId;
use crate::registry::Registry;
use crate::text::{decode_message, lossy_utf8, trimmed};

verus! {

/// What one blocking read on a connection's socket produced. The read
/// itself happens outside this library; its result is handed in here.
pub enum ReadEvent {
    /// Bytes arrived. One read's bytes become one logical message,
    /// whatever newlines they embed.
    Data(Vec<u8>),
    /// Zero bytes were read: the peer closed the connection orderly.
    PeerClosed,
    /// The read failed: the connection is closing abnormally. The failure
    /// stays confined to this connection's worker.
    ReadFailed,
}

/// What the dispatcher decided for one read event: whether the worker
/// keeps reading, and the report of the broadcast it triggered, if any.
pub struct ReadOutcome {
    pub keep_reading: bool,
    pub report: Option<BroadcastReport>,
}

/// One step of a connection worker's loop: data is decoded and broadcast
/// to the other registered connections and the worker keeps reading, while
/// a close or a read error detaches the worker's own entry, exactly once,
/// and ends its loop. No event removes or adds any other connection.
pub fn handle_read(reg: &mut Registry, id: ConnId, event: ReadEvent) -> (r: ReadOutcome)
    requires
        old(reg).wf(),
    ensures
        final(reg).wf(),
        match event {
            ReadEvent::Data(bytes) => {
                &&& r.keep_reading
                &&& final(reg).ids() == old(reg).ids()
                &&& r.report is Some
                &&& r.report->Some_0.message@ == trimmed(lossy_utf8(bytes@))
                &&& r.report->Some_0.targets() == others(old(reg).ids(), id)
            },
            ReadEvent::PeerClosed | ReadEvent::ReadFailed => {
                &&& !r.keep_reading
                &&& r.report is None
                &&& !final(reg).ids().contains(id)
                &&& forall|x: ConnId|
                    x != id ==> (final(reg).ids().contains(x) <==> old(reg).ids().contains(x))
            },
        },
{
    match event {
        ReadEvent::Data(bytes) => {
            let message = decode_message(bytes.as_slice());
            let report = reg.broadcast(id, message.as_str());
            ReadOutcome { keep_reading: true, report: Some(report) }
        },
        ReadEvent::PeerClosed | ReadEvent::ReadFailed => {
            reg.detach(id);
            ReadOutcome { keep_reading: false, report: None }
        },
    }
}

} // verus!
