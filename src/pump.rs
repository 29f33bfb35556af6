use vstd::prelude::*;

verus! {

/// Size of the buffer that each read of a relay fills at most.
pub const CHUNK_SIZE: usize = 8192;

/// The bytes that a read placed at the front of its buffer.
pub open spec fn filled(buf: Seq<u8>, n: nat) -> Seq<u8> {
    buf.subrange(0, n as int)
}

/// The largest value a `u64` counter can show for a count of `n`.
pub open spec fn capped(n: nat) -> nat {
    if n < u64::MAX {
        n
    } else {
        u64::MAX as nat
    }
}

/// What one read of a byte source gave: `n` bytes at the front of `buf`
/// (zero bytes is the end of the stream), or an I/O failure.
#[derive(Debug)]
pub enum ReadEvent {
    Data { buf: Vec<u8>, n: usize },
    Failed,
}

impl ReadEvent {
    pub open spec fn valid(&self) -> bool {
        match self {
            ReadEvent::Data { buf, n } => *n <= buf.len(),
            ReadEvent::Failed => true,
        }
    }

    /// `None` for a failure, else the bytes that the read delivered.
    pub open spec fn outcome(&self) -> Option<Seq<u8>> {
        match self {
            ReadEvent::Data { buf, n } => Some(filled(buf@, *n as nat)),
            ReadEvent::Failed => None,
        }
    }
}

pub open spec fn outcomes(reads: Seq<ReadEvent>) -> Seq<Option<Seq<u8>>> {
    reads.map_values(|r: ReadEvent| r.outcome())
}

/// The bytes a stream delivers through a sequence of reads: everything up to
/// the first read of zero bytes or the first failure.
pub open spec fn stream_bytes(outs: Seq<Option<Seq<u8>>>) -> Seq<u8>
    decreases outs.len(),
{
    if outs.len() == 0 {
        Seq::empty()
    } else {
        match outs[0] {
            None => Seq::empty(),
            Some(b) => if b.len() == 0 {
                Seq::empty()
            } else {
                b + stream_bytes(outs.drop_first())
            },
        }
    }
}

/// Where one direction of a relay stands.
#[derive(PartialEq, Eq, Structural, Clone, Copy, Debug)]
pub enum PumpState {
    /// Waiting for the next read of the source.
    Reading,
    /// Waiting for the destination to take the bytes of the last read.
    Writing,
    /// The source ended and the end was passed on to the destination.
    Ended,
    /// A read or a write failed.
    Failed,
}

/// What a pump asks its driver to do next.
#[derive(Debug)]
pub enum PumpAction {
    /// Read the next chunk from the source.
    Read,
    /// Write all of these bytes to the destination.
    Write(Vec<u8>),
    /// Signal end of data on the destination (half-close), keeping the other
    /// direction open.
    SendEof,
    /// Nothing more to do in this direction.
    Stop,
}

/// The abstract state of a pump: its phase, every byte taken from the source
/// and every byte the destination has accepted, in order.
pub ghost struct PumpModel {
    pub state: PumpState,
    pub taken: Seq<u8>,
    pub delivered: Seq<u8>,
}

/// The abstract form of a `PumpAction`.
pub ghost enum Step {
    Read,
    Write(Seq<u8>),
    SendEof,
    Stop,
}

impl PumpModel {
    /// Delivered bytes are a prefix of the taken ones; outside a pending
    /// write, all taken bytes have been delivered.
    pub open spec fn wf(self) -> bool {
        &&& self.delivered.len() <= self.taken.len()
        &&& self.delivered == self.taken.subrange(0, self.delivered.len() as int)
        &&& (self.state == PumpState::Reading || self.state == PumpState::Ended)
            ==> self.delivered == self.taken
    }
}

pub open spec fn fresh_pump() -> PumpModel {
    PumpModel { state: PumpState::Reading, taken: Seq::empty(), delivered: Seq::empty() }
}

/// The transition on a read outcome (`None` is a failed read).
pub open spec fn pump_read(p: PumpModel, got: Option<Seq<u8>>) -> (PumpModel, Step) {
    if p.state != PumpState::Reading {
        (p, Step::Stop)
    } else {
        match got {
            None => (PumpModel { state: PumpState::Failed, ..p }, Step::Stop),
            Some(b) => if b.len() == 0 {
                (PumpModel { state: PumpState::Ended, ..p }, Step::SendEof)
            } else {
                (PumpModel { state: PumpState::Writing, taken: p.taken + b, ..p }, Step::Write(b))
            },
        }
    }
}

/// The transition on the outcome of a write to the destination.
pub open spec fn pump_written(p: PumpModel, ok: bool) -> (PumpModel, Step) {
    if p.state != PumpState::Writing {
        (p, Step::Stop)
    } else if ok {
        (PumpModel { state: PumpState::Reading, delivered: p.taken, ..p }, Step::Read)
    } else {
        (PumpModel { state: PumpState::Failed, ..p }, Step::Stop)
    }
}

/// One read followed, where the pump asks for it, by a successful write.
pub open spec fn pump_pass(p: PumpModel, got: Option<Seq<u8>>) -> PumpModel {
    let (q, _a) = pump_read(p, got);
    if q.state == PumpState::Writing {
        pump_written(q, true).0
    } else {
        q
    }
}

/// A pump fed the given read outcomes, with every write succeeding.
pub open spec fn pump_through(p: PumpModel, outs: Seq<Option<Seq<u8>>>) -> PumpModel
    decreases outs.len(),
{
    if outs.len() == 0 {
        p
    } else {
        pump_through(pump_pass(p, outs[0]), outs.drop_first())
    }
}

/// One direction of a relay: moves bytes from a source to a destination, one
/// bounded read at a time, until the source ends or either side fails.
pub struct Pump {
    pub state: PumpState,
    /// Bytes the destination has accepted, for diagnostics (saturating).
    pub transferred: u64,
    /// Length of the write in flight, while `Writing`.
    pub pending: usize,
    /// Every byte taken from the source, in order.
    pub taken: Ghost<Seq<u8>>,
    /// Every byte the destination has accepted, in order.
    pub delivered: Ghost<Seq<u8>>,
}

impl View for PumpAction {
    type V = Step;

    open spec fn view(&self) -> Step {
        match self {
            PumpAction::Read => Step::Read,
            PumpAction::Write(v) => Step::Write(v@),
            PumpAction::SendEof => Step::SendEof,
            PumpAction::Stop => Step::Stop,
        }
    }
}

impl View for Pump {
    type V = PumpModel;

    open spec fn view(&self) -> PumpModel {
        PumpModel { state: self.state, taken: self.taken@, delivered: self.delivered@ }
    }
}

/// Copies the bytes that a read placed at the front of `buf`.
fn take_filled(buf: &Vec<u8>, n: usize) -> (r: Vec<u8>)
    requires
        n <= buf.len(),
    ensures
        r@ == filled(buf@, n as nat),
{
    let mut r: Vec<u8> = Vec::new();
    let mut i: usize = 0;
    while i < n
        invariant
            i <= n <= buf.len(),
            r@ == filled(buf@, i as nat),
        decreases n - i,
    {
        r.push(buf[i]);
        i = i + 1;
        assert(filled(buf@, i as nat) == filled(buf@, (i - 1) as nat).push(buf@[i - 1]));
    }
    r
}

impl Pump {
    pub open spec fn wf(&self) -> bool {
        &&& self@.wf()
        &&& self.transferred as nat == capped(self.delivered@.len())
        &&& self.state == PumpState::Writing ==> {
            &&& self.pending > 0
            &&& self.delivered@.len() + self.pending == self.taken@.len()
        }
    }

    pub fn new() -> (p: Pump)
        ensures
            p.wf(),
            p@ == fresh_pump(),
            p.transferred == 0,
    {
        assert(Seq::<u8>::empty().subrange(0, 0) =~= Seq::<u8>::empty());
        Pump {
            state: PumpState::Reading,
            transferred: 0,
            pending: 0,
            taken: Ghost(Seq::empty()),
            delivered: Ghost(Seq::empty()),
        }
    }

    /// Whether the pump waits for a read of its source.
    pub fn wants_read(&self) -> (r: bool)
        ensures
            r == (self.state == PumpState::Reading),
    {
        self.state == PumpState::Reading
    }

    /// A read of the source put `n` bytes at the front of `buf`; zero bytes
    /// is the end of the source.
    pub fn on_read(&mut self, buf: &Vec<u8>, n: usize) -> (act: PumpAction)
        requires
            old(self).wf(),
            n <= buf.len(),
        ensures
            final(self).wf(),
            (final(self)@, act@) == pump_read(old(self)@, Some(filled(buf@, n as nat))),
            final(self).transferred == old(self).transferred,
    {
        if self.state != PumpState::Reading {
            return PumpAction::Stop;
        }
        if n == 0 {
            self.state = PumpState::Ended;
            PumpAction::SendEof
        } else {
            let bytes = take_filled(buf, n);
            let ghost before = self.taken@;
            self.taken = Ghost(self.taken@ + bytes@);
            self.state = PumpState::Writing;
            self.pending = n;
            assert(self.taken@.subrange(0, self.delivered@.len() as int) =~= before);
            PumpAction::Write(bytes)
        }
    }

    /// A read of the source failed.
    pub fn on_read_failed(&mut self) -> (act: PumpAction)
        requires
            old(self).wf(),
        ensures
            final(self).wf(),
            (final(self)@, act@) == pump_read(old(self)@, None),
            final(self).transferred == old(self).transferred,
    {
        if self.state == PumpState::Reading {
            self.state = PumpState::Failed;
        }
        PumpAction::Stop
    }

    /// The destination took all the bytes of the last `Write` (`ok`), or
    /// failed.
    pub fn on_written(&mut self, ok: bool) -> (act: PumpAction)
        requires
            old(self).wf(),
        ensures
            final(self).wf(),
            (final(self)@, act@) == pump_written(old(self)@, ok),
    {
        if self.state != PumpState::Writing {
            return PumpAction::Stop;
        }
        if ok {
            self.transferred = self.transferred.saturating_add(self.pending as u64);
            self.delivered = Ghost(self.taken@);
            self.state = PumpState::Reading;
            assert(self.taken@.subrange(0, self.taken@.len() as int) =~= self.taken@);
            PumpAction::Read
        } else {
            self.state = PumpState::Failed;
            PumpAction::Stop
        }
    }
}

/// Adds one read's worth of bytes to an accumulating buffer; tells whether
/// the stream may hold more (a read of zero bytes is the end of the stream).
pub fn read_buf_bytes(
    full_req_len: &mut usize,
    full_req_buf: &mut Vec<u8>,
    reader_buf_len: usize,
    reader_buf: Vec<u8>,
) -> (more: bool)
    requires
        reader_buf_len <= reader_buf.len(),
        *old(full_req_len) + reader_buf_len <= usize::MAX,
    ensures
        more == (reader_buf_len > 0),
        *final(full_req_len) == *old(full_req_len) + reader_buf_len,
        final(full_req_buf)@ == old(full_req_buf)@ + filled(reader_buf@, reader_buf_len as nat),
{
    let mut chunk = reader_buf;
    chunk.truncate(reader_buf_len);
    full_req_buf.append(&mut chunk);
    *full_req_len = *full_req_len + reader_buf_len;
    reader_buf_len > 0
}


/// A pump that has ended or failed stays as it is, whatever reads follow.
pub proof fn lemma_through_settled(p: PumpModel, outs: Seq<Option<Seq<u8>>>)
    requires
        p.state == PumpState::Ended || p.state == PumpState::Failed,
    ensures
        pump_through(p, outs) == p,
    decreases outs.len(),
{
    if outs.len() > 0 {
        lemma_through_settled(p, outs.drop_first());
    }
}

/// A pump waiting to read, fed reads with every write succeeding, delivers
/// exactly the bytes of the stream after what it had already delivered.
pub proof fn lemma_through_delivers(p: PumpModel, outs: Seq<Option<Seq<u8>>>)
    requires
        p.wf(),
        p.state == PumpState::Reading,
    ensures
        pump_through(p, outs).wf(),
        pump_through(p, outs).state != PumpState::Writing,
        pump_through(p, outs).delivered == p.delivered + stream_bytes(outs),
    decreases outs.len(),
{
    if outs.len() == 0 {
        assert(p.delivered + Seq::<u8>::empty() =~= p.delivered);
    } else {
        let q = pump_pass(p, outs[0]);
        match outs[0] {
            None => {
                lemma_through_settled(q, outs.drop_first());
                assert(p.delivered + Seq::<u8>::empty() =~= p.delivered);
            },
            Some(b) => {
                if b.len() == 0 {
                    lemma_through_settled(q, outs.drop_first());
                    assert(p.delivered + Seq::<u8>::empty() =~= p.delivered);
                } else {
                    assert((p.taken + b).subrange(0, (p.taken + b).len() as int) =~= p.taken + b);
                    lemma_through_delivers(q, outs.drop_first());
                    assert(p.delivered + b + stream_bytes(outs.drop_first()) =~= p.delivered + (b
                        + stream_bytes(outs.drop_first())));
                }
            },
        }
    }
}

/// The reads by which a stream hands over `pieces`, each a non-empty chunk,
/// and then its end.
pub open spec fn reads_of(pieces: Seq<Seq<u8>>) -> Seq<Option<Seq<u8>>> {
    pieces.map_values(|b: Seq<u8>| Some(b)).push(Some(Seq::empty()))
}

proof fn lemma_stream_of_pieces(pieces: Seq<Seq<u8>>)
    requires
        forall|i: int| 0 <= i < pieces.len() ==> #[trigger] pieces[i].len() > 0,
    ensures
        stream_bytes(reads_of(pieces)) == pieces.flatten(),
    decreases pieces.len(),
{
    if pieces.len() == 0 {
        assert(reads_of(pieces) =~= seq![Some(Seq::<u8>::empty())]);
    } else {
        let rest = pieces.drop_first();
        assert(reads_of(pieces).drop_first() =~= reads_of(rest));
        assert(pieces[0].len() > 0);
        assert forall|i: int| 0 <= i < rest.len() implies #[trigger] rest[i].len() > 0 by {
            assert(rest[i] == pieces[i + 1]);
        }
        lemma_stream_of_pieces(rest);
    }
}

/// Round trip: whatever the bytes a source sends and however its reads cut
/// them (chunks below, at or above the buffer size alike), a fresh pump whose
/// writes succeed delivers exactly those bytes, in order, and then passes the
/// end of the stream on.
pub proof fn lemma_round_trip(pieces: Seq<Seq<u8>>)
    requires
        forall|i: int| 0 <= i < pieces.len() ==> #[trigger] pieces[i].len() > 0,
    ensures
        pump_through(fresh_pump(), reads_of(pieces)).delivered == pieces.flatten(),
        pump_through(fresh_pump(), reads_of(pieces)).state == PumpState::Ended,
{
    let p = fresh_pump();
    assert(Seq::<u8>::empty().subrange(0, 0) =~= Seq::<u8>::empty());
    lemma_through_delivers(p, reads_of(pieces));
    lemma_stream_of_pieces(pieces);
    assert(Seq::<u8>::empty() + pieces.flatten() =~= pieces.flatten());
    lemma_round_trip_ends(p, pieces);
}

proof fn lemma_round_trip_ends(p: PumpModel, pieces: Seq<Seq<u8>>)
    requires
        p.wf(),
        p.state == PumpState::Reading,
        forall|i: int| 0 <= i < pieces.len() ==> #[trigger] pieces[i].len() > 0,
    ensures
        pump_through(p, reads_of(pieces)).state == PumpState::Ended,
    decreases pieces.len(),
{
    if pieces.len() == 0 {
        assert(reads_of(pieces) =~= seq![Some(Seq::<u8>::empty())]);
        let q = pump_pass(p, Some(Seq::<u8>::empty()));
        assert(reads_of(pieces).drop_first() =~= Seq::<Option<Seq<u8>>>::empty());
        assert(pump_through(p, reads_of(pieces)) == pump_through(q, reads_of(pieces).drop_first()));
    } else {
        let rest = pieces.drop_first();
        assert(reads_of(pieces).drop_first() =~= reads_of(rest));
        assert(pieces[0].len() > 0);
        assert forall|i: int| 0 <= i < rest.len() implies #[trigger] rest[i].len() > 0 by {
            assert(rest[i] == pieces[i + 1]);
        }
        let q = pump_pass(p, reads_of(pieces)[0]);
        assert((p.taken + pieces[0]).subrange(0, (p.taken + pieces[0]).len() as int) =~= p.taken
            + pieces[0]);
        lemma_round_trip_ends(q, rest);
    }
}

/// Reads a stream to its end: runs the given reads, in order, through a pump
/// whose writes all succeed, and returns the bytes that came out and their
/// count. Reading stops at the first read of zero bytes or the first failure,
/// never at a short read.
pub fn read_stream(reads: &Vec<ReadEvent>) -> (r: (Vec<u8>, usize))
    requires
        forall|i: int| 0 <= i < reads.len() ==> #[trigger] reads[i].valid(),
        stream_bytes(outcomes(reads@)).len() <= usize::MAX,
    ensures
        r.0@ == stream_bytes(outcomes(reads@)),
        r.0@ == pump_through(fresh_pump(), outcomes(reads@)).delivered,
        r.1 == r.0.len(),
{
    let ghost all = outcomes(reads@);
    let mut pump = Pump::new();
    let mut request_buffer: Vec<u8> = Vec::new();
    let mut request_len: usize = 0;
    let mut i: usize = 0;
    proof {
        assert(Seq::<u8>::empty().subrange(0, 0) =~= Seq::<u8>::empty());
        lemma_through_delivers(fresh_pump(), all);
        assert(Seq::<u8>::empty() + stream_bytes(all) =~= stream_bytes(all));
        assert(all.skip(0) =~= all);
    }
    while i < reads.len() && pump.wants_read()
        invariant
            all == outcomes(reads@),
            all.len() == reads.len(),
            i <= reads.len(),
            forall|k: int| 0 <= k < reads.len() ==> #[trigger] reads[k].valid(),
            pump.wf(),
            pump.state != PumpState::Writing,
            request_buffer@ == pump.delivered@,
            request_len == request_buffer.len(),
            pump_through(pump@, all.skip(i as int)) == pump_through(fresh_pump(), all),
            pump_through(fresh_pump(), all).delivered == stream_bytes(all),
            stream_bytes(all).len() <= usize::MAX,
        decreases reads.len() - i,
    {
        let ghost before = pump@;
        assert(all.skip(i as int).drop_first() =~= all.skip(i + 1));
        assert(all.skip(i as int)[0] == all[i as int]);
        assert(reads[i as int].valid());
        match &reads[i] {
            ReadEvent::Data { buf, n } => {
                let act = pump.on_read(buf, *n);
                match act {
                    PumpAction::Write(w) => {
                        pump.on_written(true);
                        proof {
                            lemma_through_delivers(pump@, all.skip(i + 1));
                            assert(filled(w@, w@.len()) =~= w@);
                        }
                        let _more = read_buf_bytes(&mut request_len, &mut request_buffer, w.len(), w);
                    },
                    _ => {},
                }
            },
            ReadEvent::Failed => {
                pump.on_read_failed();
            },
        }
        assert(pump@ == pump_pass(before, all[i as int]));
        i = i + 1;
    }
    proof {
        if pump.state != PumpState::Reading {
            lemma_through_settled(pump@, all.skip(i as int));
        } else {
            assert(all.skip(i as int) =~= Seq::<Option<Seq<u8>>>::empty());
        }
    }
    (request_buffer, request_len)
}

} // verus!
