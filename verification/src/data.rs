//! Data model: chat messages, memory totals, snapshots, and the inbound and
//! outbound frame shapes.
//!
//! A `WsData` is one immutable snapshot of the host built once per tick; a
//! `WsDataOut` is the per-recipient view of it, with the recipient's identity
//! stamped on and the message-visibility filter applied.  CPU utilization is
//! carried as hundredths of a percent so that every field is a plain integer.

use vstd::prelude::*;

verus! {

/// One chat message: sender id and display name, target id (0 means
/// broadcast to everyone), and the message body.
pub struct WsMessage {
    pub id: u32,
    pub name: String,
    pub to_id: u32,
    pub message: String,
}

/// Mathematical value of a `WsMessage`: strings become character sequences.
pub ghost struct WsMessageView {
    pub id: u32,
    pub name: Seq<char>,
    pub to_id: u32,
    pub message: Seq<char>,
}

impl View for WsMessage {
    type V = WsMessageView;

    open spec fn view(&self) -> WsMessageView {
        WsMessageView {
            id: self.id,
            name: self.name@,
            to_id: self.to_id,
            message: self.message@,
        }
    }
}

impl Clone for WsMessage {
    fn clone(&self) -> (r: Self)
        ensures
            r == *self,
    {
        WsMessage {
            id: self.id,
            name: self.name.clone(),
            to_id: self.to_id,
            message: self.message.clone(),
        }
    }
}

/// Memory totals of one snapshot, in bytes.
#[derive(Clone, Copy, Debug, PartialEq, Eq, Structural)]
pub struct MemoryData {
    pub total: u64,
    pub free: u64,
    pub available: u64,
    pub used: u64,
}

impl MemoryData {
    pub fn new(total: u64, free: u64, available: u64, used: u64) -> (r: Self)
        ensures
            r.total == total,
            r.free == free,
            r.available == available,
            r.used == used,
    {
        MemoryData { total, free, available, used }
    }
}

/// One inbound frame from a client: the client's claimed id, its display
/// name, an optional target id for a message (0 means broadcast), and an
/// optional message body.
pub struct WsDataIn {
    pub id: u32,
    pub name: String,
    pub to_id: u32,
    pub message: Option<String>,
}

/// One immutable snapshot, built once per tick and shared with every
/// session: host identity, sample time, live session count, per-core CPU
/// utilization in hundredths of a percent, memory totals, and at most one
/// pending chat message.
pub struct WsData {
    pub hostname: String,
    pub datetime: String,
    pub ws_count: u32,
    pub cpu_data: Vec<(u32, u32)>,
    pub mem_data: MemoryData,
    pub message: Option<WsMessage>,
}

/// A snapshot is also called by its role.
pub type Snapshot = WsData;

/// Mathematical value of a `WsData`.
pub ghost struct WsDataView {
    pub hostname: Seq<char>,
    pub datetime: Seq<char>,
    pub ws_count: u32,
    pub cpu_data: Seq<(u32, u32)>,
    pub mem_data: MemoryData,
    pub message: Option<WsMessageView>,
}

impl View for WsData {
    type V = WsDataView;

    open spec fn view(&self) -> WsDataView {
        WsDataView {
            hostname: self.hostname@,
            datetime: self.datetime@,
            ws_count: self.ws_count,
            cpu_data: self.cpu_data@,
            mem_data: self.mem_data,
            message: match self.message {
                Some(m) => Some(m@),
                None => None,
            },
        }
    }
}

impl WsData {
    pub fn new(
        hostname: String,
        datetime: String,
        ws_count: u32,
        cpu_data: Vec<(u32, u32)>,
        mem_data: MemoryData,
        message: Option<WsMessage>,
    ) -> (r: Self)
        ensures
            r.hostname == hostname,
            r.datetime == datetime,
            r.ws_count == ws_count,
            r.cpu_data == cpu_data,
            r.mem_data == mem_data,
            r.message == message,
    {
        WsData { hostname, datetime, ws_count, cpu_data, mem_data, message }
    }

    /// Stamps the live session count onto the snapshot; no other field moves.
    pub fn set_ws_count(&mut self, n: u32)
        ensures
            final(self).ws_count == n,
            final(self).hostname == old(self).hostname,
            final(self).datetime == old(self).datetime,
            final(self).cpu_data == old(self).cpu_data,
            final(self).mem_data == old(self).mem_data,
            final(self).message == old(self).message,
    {
        self.ws_count = n;
    }

    /// Attaches (or clears) the snapshot's single chat message; no other
    /// field moves.
    pub fn set_message(&mut self, msg: Option<WsMessage>)
        ensures
            final(self).message == msg,
            final(self).hostname == old(self).hostname,
            final(self).datetime == old(self).datetime,
            final(self).ws_count == old(self).ws_count,
            final(self).cpu_data == old(self).cpu_data,
            final(self).mem_data == old(self).mem_data,
    {
        self.message = msg;
    }
}

impl Clone for WsData {
    fn clone(&self) -> (r: Self)
        ensures
            r@ == self@,
    {
        let message: Option<WsMessage> = match &self.message {
            Some(m) => Some(m.clone()),
            None => None,
        };
        WsData {
            hostname: self.hostname.clone(),
            datetime: self.datetime.clone(),
            ws_count: self.ws_count,
            cpu_data: copy_cpu_data(&self.cpu_data),
            mem_data: self.mem_data,
            message,
        }
    }
}

/// The message-visibility rule: a snapshot's attached message is shown to a
/// recipient only if it is a broadcast (`to_id == 0`), addressed to that
/// recipient, or sent by that recipient (a sender always sees its own
/// message echoed back).
pub open spec fn message_visible(msg: WsMessageView, recipient: u32) -> bool {
    msg.to_id == 0 || msg.to_id == recipient || msg.id == recipient
}

/// The message a recipient sees out of a snapshot's attached message:
/// the message itself when the visibility rule admits it, nothing otherwise.
pub open spec fn filtered_message(msg: Option<WsMessageView>, recipient: u32) -> Option<
    WsMessageView,
> {
    match msg {
        Some(m) => if message_visible(m, recipient) {
            Some(m)
        } else {
            None
        },
        None => None,
    }
}

/// The per-recipient view of one snapshot: the snapshot's fields plus the
/// recipient's id and current display name, with the message-visibility
/// filter applied.  Built fresh for one recipient each tick, never shared.
pub struct WsDataOut {
    pub hostname: String,
    pub datetime: String,
    pub ws_count: u32,
    pub ws_id: u32,
    pub ws_username: String,
    pub cpu_data: Vec<(u32, u32)>,
    pub mem_data: MemoryData,
    pub message: Option<WsMessage>,
}

/// Mathematical value of a `WsDataOut`.
pub ghost struct WsDataOutView {
    pub hostname: Seq<char>,
    pub datetime: Seq<char>,
    pub ws_count: u32,
    pub ws_id: u32,
    pub ws_username: Seq<char>,
    pub cpu_data: Seq<(u32, u32)>,
    pub mem_data: MemoryData,
    pub message: Option<WsMessageView>,
}

impl View for WsDataOut {
    type V = WsDataOutView;

    open spec fn view(&self) -> WsDataOutView {
        WsDataOutView {
            hostname: self.hostname@,
            datetime: self.datetime@,
            ws_count: self.ws_count,
            ws_id: self.ws_id,
            ws_username: self.ws_username@,
            cpu_data: self.cpu_data@,
            mem_data: self.mem_data,
            message: match self.message {
                Some(m) => Some(m@),
                None => None,
            },
        }
    }
}

/// The personalization of a snapshot for one recipient, as a value: identity
/// stamped on, message filtered by visibility.
pub open spec fn personalized(base: WsDataView, id: u32, username: Seq<char>) -> WsDataOutView {
    WsDataOutView {
        hostname: base.hostname,
        datetime: base.datetime,
        ws_count: base.ws_count,
        ws_id: id,
        ws_username: username,
        cpu_data: base.cpu_data,
        mem_data: base.mem_data,
        message: filtered_message(base.message, id),
    }
}

impl WsDataOut {
    /// Applies the message-visibility rule for the given recipient; identity
    /// fields are left blank for `new` to fill.
    fn from_with_message_filter(base: WsData, to_id: u32) -> (r: Self)
        ensures
            r@ == (WsDataOutView {
                ws_id: 0u32,
                ws_username: Seq::<char>::empty(),
                ..personalized(base@, to_id, Seq::<char>::empty())
            }),
    {
        let visible = match &base.message {
            Some(msg) => msg.to_id == 0 || msg.to_id == to_id || msg.id == to_id,
            None => false,
        };
        let message: Option<WsMessage> = if visible {
            base.message
        } else {
            None
        };
        WsDataOut {
            hostname: base.hostname,
            datetime: base.datetime,
            ws_count: base.ws_count,
            ws_id: 0,
            ws_username: String::new(),
            cpu_data: base.cpu_data,
            mem_data: base.mem_data,
            message,
        }
    }

    /// Builds the personalized snapshot for recipient `id` with display name
    /// `username`: every snapshot field carried over, identity stamped on,
    /// and the attached message kept exactly when the visibility rule admits
    /// it for this recipient.
    pub fn new(base: WsData, id: u32, username: String) -> (r: Self)
        ensures
            r@ == personalized(base@, id, username@),
    {
        let mut r = WsDataOut::from_with_message_filter(base, id);
        r.ws_id = id;
        r.ws_username = username;
        r
    }
}

/// Message visibility across recipients: a message addressed to a recipient
/// is present in that recipient's personalized snapshot; an unrelated third
/// recipient — neither addressee nor sender of a non-broadcast message —
/// never sees it; and the sender always sees its own message echoed back,
/// whatever the target.
pub proof fn lemma_message_visibility(
    base: WsDataView,
    m: WsMessageView,
    recipient_name: Seq<char>,
    sender_name: Seq<char>,
    third: u32,
    third_name: Seq<char>,
)
    requires
        base.message == Some(m),
        third != m.to_id,
        third != m.id,
        m.to_id != 0,
    ensures
        personalized(base, m.to_id, recipient_name).message == Some(m),
        personalized(base, m.id, sender_name).message == Some(m),
        personalized(base, third, third_name).message is None,
{
}

/// Copies a CPU utilization table element by element.
fn copy_cpu_data(v: &Vec<(u32, u32)>) -> (r: Vec<(u32, u32)>)
    ensures
        r@ == v@,
{
    let mut r: Vec<(u32, u32)> = Vec::new();
    let mut i: usize = 0;
    while i < v.len()
        invariant
            i <= v.len(),
            r@ == v@.subrange(0, i as int),
        decreases v.len() - i,
    {
        r.push(v[i]);
        i = i + 1;
        proof {
            assert(r@ =~= v@.subrange(0, i as int));
        }
    }
    proof {
        assert(r@ =~= v@);
    }
    r
}

} // verus!
