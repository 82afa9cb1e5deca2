//! The snapshot producer's per-tick step.
//!
//! Once per tick the application samples the metrics source (hostname,
//! wall-clock time, per-core utilization, memory totals) and hands the
//! resulting base snapshot here.  This step reads the live session count,
//! drains at most one pending message — oldest first — and assembles the
//! immutable snapshot the hub will distribute.  It always produces: with no
//! session registered it merely asks the caller to pace itself down, so
//! that stale writers still observe registry absence and clean up.

use vstd::prelude::*;

use crate::data::WsData;
use crate::inbox::InboxQueue;
use crate::registry::SessionRegistry;

verus! {

/// One tick: assembles the snapshot to distribute and reports whether the
/// producer should add its longer idle pause before the next tick.
///
/// The count and the drained message are two independent reads, not one
/// atomic transaction: a message may ride a count taken a moment earlier,
/// which is acceptable staleness.  A snapshot is produced for every input,
/// registered sessions or none.
pub fn producer_tick(registry: &SessionRegistry, inbox: &mut InboxQueue, sys: WsData) -> (r: (
    WsData,
    bool,
))
    requires
        registry@.wf(),
    ensures
        ({
            let (snap, idle) = r;
            &&& idle == (registry@.names.dom().len() == 0)
            &&& snap@.hostname == sys@.hostname
            &&& snap@.datetime == sys@.datetime
            &&& snap@.cpu_data == sys@.cpu_data
            &&& snap@.mem_data == sys@.mem_data
            &&& snap@.ws_count == registry@.names.dom().len()
            &&& old(inbox)@.len() > 0 ==> snap@.message == Some(old(inbox)@.last()@)
                && final(inbox)@ == old(inbox)@.drop_last()
            &&& old(inbox)@.len() == 0 ==> snap@.message is None && final(inbox)@ == old(inbox)@
        }),
{
    let count = registry.count();
    let message = inbox.pop_back();
    let idle = registry.is_empty();
    let mut snap = sys;
    snap.set_ws_count(count);
    snap.set_message(message);
    (snap, idle)
}

} // verus!
