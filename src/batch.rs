use vstd::prelude::*;

use crate::error::SessionError;

verus! {

/// One captured frame, owned by the caller.
pub struct Packet {
    /// Capture timestamp, whole seconds.
    pub ts_sec: i64,
    /// Capture timestamp, microseconds within the second.
    pub ts_usec: i64,
    /// Number of bytes actually captured.
    pub caplen: u32,
    /// Length of the frame on the wire; exceeds `caplen` when truncated.
    pub origlen: u32,
    /// The captured bytes.
    pub data: Vec<u8>,
}

/// The mathematical value of a [`Packet`].
pub struct PacketModel {
    pub ts_sec: i64,
    pub ts_usec: i64,
    pub caplen: u32,
    pub origlen: u32,
    pub data: Seq<u8>,
}

impl View for Packet {
    type V = PacketModel;

    open spec fn view(&self) -> PacketModel {
        PacketModel {
            ts_sec: self.ts_sec,
            ts_usec: self.ts_usec,
            caplen: self.caplen,
            origlen: self.origlen,
            data: self.data@,
        }
    }
}

/// What a single read of the capture engine delivered.
pub enum ReadEvent {
    /// A frame arrived.
    Packet(Packet),
    /// The read timeout elapsed with no frame.
    Timeout,
    /// The read failed; the engine's cause.
    Failed(String),
}

/// The mathematical value of a [`ReadEvent`].
pub enum EventModel {
    Packet(PacketModel),
    Timeout,
    Failed(Seq<char>),
}

impl View for ReadEvent {
    type V = EventModel;

    open spec fn view(&self) -> EventModel {
        match self {
            ReadEvent::Packet(p) => EventModel::Packet(p@),
            ReadEvent::Timeout => EventModel::Timeout,
            ReadEvent::Failed(m) => EventModel::Failed(m@),
        }
    }
}

/// The reads end the batch: the last one delivered no packet.
pub open spec fn ends_batch(events: Seq<EventModel>) -> bool {
    events.len() > 0 && !(events.last() is Packet)
}

/// `events` is what one batch of at most `limit` reads can see: every read
/// but the last delivered a packet, and fewer than `limit` reads were made
/// only because the last one was a timeout or a failure.
pub open spec fn is_batch_run(events: Seq<EventModel>, limit: nat) -> bool {
    &&& events.len() <= limit
    &&& forall|i: int| 0 <= i < events.len() - 1 ==> (#[trigger] events[i]) is Packet
    &&& events.len() < limit ==> ends_batch(events)
}

/// How many of the reads delivered a packet to the batch.
pub open spec fn delivered_count(events: Seq<EventModel>) -> int {
    if ends_batch(events) {
        events.len() - 1
    } else {
        events.len() as int
    }
}

/// The packets that the reads delivered, in the order of delivery.
pub open spec fn delivered_packets(events: Seq<EventModel>) -> Seq<PacketModel> {
    events.take(delivered_count(events)).map_values(|e: EventModel| e->Packet_0)
}

/// The bytes of each packet that the reads delivered, in the order of delivery.
pub open spec fn delivered_payloads(events: Seq<EventModel>) -> Seq<Seq<u8>> {
    events.take(delivered_count(events)).map_values(|e: EventModel| e->Packet_0.data)
}

/// The batch fails: its last read was a hard failure.
pub open spec fn batch_fails(events: Seq<EventModel>) -> bool {
    events.len() > 0 && events.last() is Failed
}

/// The engine's cause of a failed batch.
pub open spec fn failure_cause(events: Seq<EventModel>) -> Seq<char> {
    events.last()->Failed_0
}

/// `e` is the capture error that carries `cause`.
pub open spec fn is_capture_error(e: SessionError, cause: Seq<char>) -> bool {
    e is Capture && e->Capture_0@ == cause
}

/// `r` is what a metadata batch over `events` returns: the failure of the
/// last read if it failed, else every delivered packet in order.
pub open spec fn meta_batch_result(r: Result<Vec<Packet>, SessionError>, events: Seq<EventModel>) -> bool {
    if batch_fails(events) {
        r is Err && is_capture_error(r->Err_0, failure_cause(events))
    } else {
        r is Ok && r->Ok_0@.map_values(|p: Packet| p@) == delivered_packets(events)
    }
}

/// `r` is what a byte batch over `events` returns: the failure of the last
/// read if it failed, else the bytes of every delivered packet in order.
pub open spec fn bytes_batch_result(r: Result<Vec<Vec<u8>>, SessionError>, events: Seq<EventModel>) -> bool {
    if batch_fails(events) {
        r is Err && is_capture_error(r->Err_0, failure_cause(events))
    } else {
        r is Ok && r->Ok_0@.map_values(|b: Vec<u8>| b@) == delivered_payloads(events)
    }
}

/// A batch of size zero makes no read and delivers an empty, successful batch.
pub proof fn lemma_zero_batch_reads_nothing(events: Seq<EventModel>)
    requires
        is_batch_run(events, 0),
    ensures
        events.len() == 0,
        !batch_fails(events),
        delivered_packets(events) == Seq::<PacketModel>::empty(),
        delivered_payloads(events) == Seq::<Seq<u8>>::empty(),
{
    assert(delivered_packets(events) =~= Seq::<PacketModel>::empty());
    assert(delivered_payloads(events) =~= Seq::<Seq<u8>>::empty());
}

/// A batch never delivers more packets than its size.
pub proof fn lemma_batch_within_limit(events: Seq<EventModel>, limit: nat)
    requires
        is_batch_run(events, limit),
    ensures
        delivered_packets(events).len() <= limit,
        delivered_payloads(events).len() <= limit,
{
}

/// When read `k` times out, the batch ends there and succeeds with exactly the
/// `k - 1` packets that the earlier reads delivered, in order.
pub proof fn lemma_timeout_keeps_earlier_packets(events: Seq<EventModel>, limit: nat, k: int)
    requires
        is_batch_run(events, limit),
        1 <= k <= events.len(),
        events[k - 1] is Timeout,
    ensures
        events.len() == k,
        !batch_fails(events),
        delivered_packets(events).len() == k - 1,
        forall|i: int| 0 <= i < k - 1 ==> #[trigger] delivered_packets(events)[i] == events[i]->Packet_0,
        forall|i: int| 0 <= i < k - 1 ==> events[i] is Packet,
{
    if k < events.len() {
        assert(events[k - 1] is Packet);
    }
}

/// When read `k` fails, the batch ends there and fails with that read's
/// cause: none of the packets read before it reach the caller.
pub proof fn lemma_failure_discards_batch(events: Seq<EventModel>, limit: nat, k: int)
    requires
        is_batch_run(events, limit),
        1 <= k <= events.len(),
        events[k - 1] is Failed,
    ensures
        events.len() == k,
        batch_fails(events),
        failure_cause(events) == events[k - 1]->Failed_0,
        forall|r: Result<Vec<Packet>, SessionError>| #[trigger] meta_batch_result(r, events) ==> r is Err,
        forall|r: Result<Vec<Vec<u8>>, SessionError>| #[trigger] bytes_batch_result(r, events) ==> r is Err,
{
    if k < events.len() {
        assert(events[k - 1] is Packet);
    }
}

/// Over the same reads, the byte batch and the metadata batch agree: both
/// succeed or both fail with the same cause, and on success they hold the
/// same packets in the same order.
pub proof fn lemma_bytes_and_meta_agree(
    events: Seq<EventModel>,
    meta: Result<Vec<Packet>, SessionError>,
    bytes: Result<Vec<Vec<u8>>, SessionError>,
)
    requires
        meta_batch_result(meta, events),
        bytes_batch_result(bytes, events),
    ensures
        meta is Ok <==> bytes is Ok,
        meta is Ok ==> bytes->Ok_0@.len() == meta->Ok_0@.len(),
        meta is Ok ==> forall|i: int| 0 <= i < bytes->Ok_0@.len() ==>
            (#[trigger] bytes->Ok_0@[i])@ == meta->Ok_0@[i].data@,
        meta is Err ==> meta->Err_0 is Capture && bytes->Err_0 is Capture
            && meta->Err_0->Capture_0@ == bytes->Err_0->Capture_0@,
{
    if meta is Ok {
        let b = bytes->Ok_0@;
        let m = meta->Ok_0@;
        assert(b.map_values(|v: Vec<u8>| v@).len() == delivered_payloads(events).len());
        assert(m.map_values(|p: Packet| p@).len() == delivered_packets(events).len());
        assert forall|i: int| 0 <= i < b.len() implies (#[trigger] b[i])@ == m[i].data@ by {
            assert(b.map_values(|v: Vec<u8>| v@)[i] == delivered_payloads(events)[i]);
            assert(m.map_values(|p: Packet| p@)[i] == delivered_packets(events)[i]);
        }
    }
}

/// The bytes of each packet, in order.
pub fn payloads(packets: Vec<Packet>) -> (r: Vec<Vec<u8>>)
    ensures
        r@.len() == packets@.len(),
        forall|i: int| 0 <= i < packets@.len() ==> (#[trigger] r@[i])@ == packets@[i].data@,
{
    let ghost all = packets@;
    let mut rest = packets;
    let mut out: Vec<Vec<u8>> = Vec::new();
    while rest.len() > 0
        invariant
            out@.len() + rest@.len() == all.len(),
            rest@ == all.subrange(out@.len() as int, all.len() as int),
            forall|i: int| 0 <= i < out@.len() ==> (#[trigger] out@[i])@ == all[i].data@,
        decreases rest.len(),
    {
        let p = rest.remove(0);
        out.push(p.data);
    }
    out
}

/// A batch being assembled, one read at a time.
///
/// The caller reads from the engine while `wants_more` holds and hands each
/// outcome to `absorb`; `finish` or `finish_meta` then gives the batch.
pub struct BatchRead {
    limit: usize,
    packets: Vec<Packet>,
    failure: Option<String>,
    stopped: bool,
    events: Ghost<Seq<EventModel>>,
}

impl BatchRead {
    /// The outcomes absorbed so far, in order.
    pub closed spec fn events(&self) -> Seq<EventModel> {
        self.events@
    }

    /// The most reads this batch makes.
    pub closed spec fn limit(&self) -> nat {
        self.limit as nat
    }

    pub closed spec fn wf(&self) -> bool {
        &&& self.events@.len() <= self.limit
        &&& forall|i: int| 0 <= i < self.events@.len() - 1 ==> (#[trigger] self.events@[i]) is Packet
        &&& self.stopped == ends_batch(self.events@)
        &&& self.packets@.len() == delivered_count(self.events@)
        &&& self.packets@.map_values(|p: Packet| p@) == delivered_packets(self.events@)
        &&& self.failure is Some == batch_fails(self.events@)
        &&& self.failure is Some ==> self.failure->Some_0@ == failure_cause(self.events@)
    }

    /// Another read is owed: fewer than `limit` reads were made and none ended the batch.
    pub open spec fn wants_more_spec(&self) -> bool {
        self.events().len() < self.limit() && !ends_batch(self.events())
    }

    /// A batch of at most `limit` reads, none made yet.
    pub fn new(limit: usize) -> (r: BatchRead)
        ensures
            r.wf(),
            r.limit() == limit,
            r.events() == Seq::<EventModel>::empty(),
    {
        let r = BatchRead {
            limit,
            packets: Vec::new(),
            failure: None,
            stopped: false,
            events: Ghost(Seq::empty()),
        };
        proof {
            assert(r.packets@.map_values(|p: Packet| p@) =~= delivered_packets(r.events@));
        }
        r
    }

    /// Whether the caller must read once more before finishing.
    pub fn wants_more(&self) -> (r: bool)
        requires
            self.wf(),
        ensures
            r == self.wants_more_spec(),
    {
        self.packets.len() < self.limit && !self.stopped
    }

    /// Records the outcome of one more read.
    ///
    /// A packet joins the batch; a timeout ends it as it stands; a failure
    /// ends it and marks it failed.
    pub fn absorb(&mut self, event: ReadEvent)
        requires
            old(self).wf(),
            old(self).wants_more_spec(),
        ensures
            final(self).wf(),
            final(self).limit() == old(self).limit(),
            final(self).events() == old(self).events().push(event@),
    {
        let ghost before = self.events@;
        let ghost after = before.push(event@);
        proof {
            assert(before.take(before.len() as int) =~= before);
            assert(after.take(before.len() as int) =~= before);
            assert(after.take(after.len() as int) =~= after);
        }
        match event {
            ReadEvent::Packet(p) => {
                self.packets.push(p);
            },
            ReadEvent::Timeout => {
                self.stopped = true;
            },
            ReadEvent::Failed(m) => {
                self.stopped = true;
                self.failure = Some(m);
            },
        }
        self.events = Ghost(after);
        proof {
            let got = self.packets@.map_values(|p: Packet| p@);
            let had = old(self).packets@.map_values(|p: Packet| p@);
            assert forall|i: int| 0 <= i < got.len() implies got[i] == delivered_packets(after)[i] by {
                if i < before.len() {
                    assert(had[i] == delivered_packets(before)[i]);
                }
            }
            assert(got =~= delivered_packets(after));
        }
    }

    /// The batch with each packet's timestamp and lengths: the delivered
    /// packets in order, or the capture error if the last read failed.
    pub fn finish_meta(self) -> (r: Result<Vec<Packet>, SessionError>)
        requires
            self.wf(),
            !self.wants_more_spec(),
        ensures
            is_batch_run(self.events(), self.limit()),
            meta_batch_result(r, self.events()),
    {
        match self.failure {
            Some(m) => Err(SessionError::Capture(m)),
            None => Ok(self.packets),
        }
    }

    /// The batch as raw bytes: the bytes of the delivered packets in order,
    /// or the capture error if the last read failed.
    pub fn finish(self) -> (r: Result<Vec<Vec<u8>>, SessionError>)
        requires
            self.wf(),
            !self.wants_more_spec(),
        ensures
            is_batch_run(self.events(), self.limit()),
            bytes_batch_result(r, self.events()),
    {
        let ghost events = self.events@;
        match self.finish_meta() {
            Err(e) => Err(e),
            Ok(packets) => {
                let ghost raw = packets@;
                let out = payloads(packets);
                proof {
                    let got = out@.map_values(|b: Vec<u8>| b@);
                    let metas = raw.map_values(|p: Packet| p@);
                    assert(metas.len() == raw.len());
                    assert(0 <= delivered_count(events) <= events.len());
                    assert(delivered_packets(events).len() == delivered_count(events));
                    assert(delivered_payloads(events).len() == delivered_count(events));
                    assert forall|i: int| 0 <= i < got.len() implies got[i] == delivered_payloads(events)[i] by {
                        assert(got[i] == out@[i]@);
                        assert(out@[i]@ == raw[i].data@);
                        assert(metas[i] == raw[i]@);
                        assert(metas[i] == delivered_packets(events)[i]);
                    }
                    assert(got =~= delivered_payloads(events));
                }
                Ok(out)
            },
        }
    }
}

} // verus!
