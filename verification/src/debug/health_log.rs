//! Log buffer of fixed size that is flushed as health reports. Meant for
//! debugging.

use vstd::prelude::*;
use crate::strings::{hstring_from_str, hstring_units, utf16_units};
use crate::types::health::{HealthInformation, HealthState, SequenceNumber};

verus! {

/// Capacity of the log buffer in bytes.
pub const BUFF_SIZE: usize = 256;

/// The text that a lossy decoding of bytes as UTF-8 gives.
pub uninterp spec fn utf8_lossy_text(bytes: Seq<u8>) -> Seq<char>;

/// `String::from_utf8_lossy` decodes the bytes, with the replacement character
/// in place of what is no UTF-8.
#[verifier::external_body]
fn lossy_string(bytes: &[u8]) -> (text: String)
    ensures
        text@ == utf8_lossy_text(bytes@),
{
    String::from_utf8_lossy(bytes).into_owned()
}

/// One flushed buffer: the text of the whole buffer and its sequence number.
#[derive(Debug)]
pub struct Flushed {
    pub data: String,
    pub sequence_number: SequenceNumber,
}

/// Mathematical content of one flushed buffer.
pub ghost struct FlushedLog {
    pub text: Seq<char>,
    pub sequence_number: int,
}

/// Mathematical state of the log buffer.
pub ghost struct BuffState {
    /// The bytes of the buffer, used or not.
    pub bytes: Seq<u8>,
    /// The write offset.
    pub index: int,
    /// The sequence number of the next flush.
    pub seqno: int,
    /// What was flushed and not yet collected, oldest first.
    pub flushed: Seq<FlushedLog>,
}

impl BuffState {
    /// An empty buffer of zero bytes.
    pub open spec fn fresh() -> Self {
        BuffState {
            bytes: Seq::new(BUFF_SIZE as nat, |i: int| 0u8),
            index: 0,
            seqno: 0,
            flushed: Seq::empty(),
        }
    }

    /// The buffer has its fixed size and the offset lies within it.
    pub open spec fn wf(self) -> bool {
        &&& self.bytes.len() == BUFF_SIZE
        &&& 0 <= self.index <= BUFF_SIZE
        &&& 0 <= self.seqno
    }

    /// The number of free bytes.
    pub open spec fn remain(self) -> int {
        BUFF_SIZE - self.index
    }

    /// Whether no byte is free.
    pub open spec fn full(self) -> bool {
        self.index == BUFF_SIZE
    }

    /// The buffer with all bytes zero and the offset at the start.
    pub open spec fn reset(self) -> Self {
        BuffState { bytes: Seq::new(BUFF_SIZE as nat, |i: int| 0u8), index: 0, ..self }
    }

    /// The buffer after a flush: the whole buffer is queued under the current
    /// sequence number, which then grows by one, and the buffer is reset.
    pub open spec fn flush(self) -> Self {
        BuffState {
            bytes: Seq::new(BUFF_SIZE as nat, |i: int| 0u8),
            index: 0,
            seqno: self.seqno + 1,
            flushed: self.flushed.push(
                FlushedLog { text: utf8_lossy_text(self.bytes), sequence_number: self.seqno },
            ),
        }
    }

    /// The buffer in which the next write starts: a full one is flushed first.
    pub open spec fn make_room(self) -> Self {
        if self.full() {
            self.flush()
        } else {
            self
        }
    }

    /// The number of bytes that a write of `buf` accepts.
    pub open spec fn accepted(self, buf: Seq<u8>) -> int {
        if buf.len() <= self.make_room().remain() {
            buf.len() as int
        } else {
            self.make_room().remain()
        }
    }

    /// The buffer with the accepted bytes of `buf` behind the offset.
    pub open spec fn store(self, buf: Seq<u8>) -> Self {
        let start = self.make_room();
        let n = self.accepted(buf);
        BuffState {
            bytes: Seq::new(
                BUFF_SIZE as nat,
                |i: int|
                    if start.index <= i < start.index + n {
                        buf[i - start.index]
                    } else {
                        start.bytes[i]
                    },
            ),
            index: start.index + n,
            ..start
        }
    }

    /// The buffer after a write of `buf`: the bytes are stored, and a buffer
    /// that they fill is flushed at once.
    pub open spec fn write(self, buf: Seq<u8>) -> Self {
        if self.store(buf).full() {
            self.store(buf).flush()
        } else {
            self.store(buf)
        }
    }
}

/// Byte buffer of fixed capacity with a write offset and a sequence number.
/// What a flush emits is queued until `take_flushed` collects it.
pub struct FixedBuff {
    buff: [u8; BUFF_SIZE],
    index: usize,
    flushed: Vec<Flushed>,
    seqno: SequenceNumber,
}

/// The mathematical content of flushed buffers.
pub open spec fn flushed_logs(flushed: Seq<Flushed>) -> Seq<FlushedLog> {
    Seq::new(
        flushed.len(),
        |i: int| FlushedLog { text: flushed[i].data@, sequence_number: flushed[i].sequence_number as int },
    )
}

impl View for FixedBuff {
    type V = BuffState;

    closed spec fn view(&self) -> BuffState {
        BuffState {
            bytes: self.buff@,
            index: self.index as int,
            seqno: self.seqno as int,
            flushed: flushed_logs(self.flushed@),
        }
    }
}

impl FixedBuff {
    /// An empty buffer of zero bytes with sequence number 0.
    pub fn new() -> (b: Self)
        ensures
            b@ == BuffState::fresh(),
            b@.wf(),
    {
        let b = FixedBuff { buff: [0u8; BUFF_SIZE], index: 0, flushed: Vec::new(), seqno: 0 };
        assert(b@.bytes =~= BuffState::fresh().bytes);
        assert(b@.flushed =~= BuffState::fresh().flushed);
        b
    }

    /// Writes the bytes of `buf` that fit and tells how many those are; the
    /// caller offers the rest again. A buffer that is full when the write
    /// starts is flushed first, and one that the write fills is flushed at
    /// once, so that at least one byte is accepted.
    pub fn write(&mut self, buf: &[u8]) -> (n: usize)
        requires
            old(self)@.wf(),
            buf@.len() > 0,
            old(self)@.seqno + 2 <= i64::MAX,
        ensures
            final(self)@ == old(self)@.write(buf@),
            n == old(self)@.accepted(buf@),
            0 < n <= buf@.len(),
            final(self)@.wf(),
            !final(self)@.full(),
    {
        if self.full() {
            self.flush();
        }
        let ghost start = self@;
        let room = self.remain();
        let n = if buf.len() <= room { buf.len() } else { room };
        let mut i: usize = 0;
        while i < n
            invariant
                i <= n <= buf@.len(),
                self.index + n <= BUFF_SIZE,
                self.buff@.len() == BUFF_SIZE,
                self.index == start.index,
                self.seqno == start.seqno,
                self@.flushed == start.flushed,
                forall|k: int| 0 <= k < BUFF_SIZE ==> self.buff@[k] == (if start.index <= k
                    < start.index + i {
                    buf@[k - start.index]
                } else {
                    start.bytes[k]
                }),
            decreases n - i,
        {
            self.buff.set(self.index + i, buf[i]);
            i += 1;
        }
        self.index += n;
        assert(self@.bytes =~= old(self)@.store(buf@).bytes);
        assert(self@ == old(self)@.store(buf@));
        if self.full() {
            self.flush();
        }
        n
    }

    /// The number of free bytes.
    pub fn remain(&self) -> (n: usize)
        requires
            self@.wf(),
        ensures
            n == self@.remain(),
    {
        BUFF_SIZE - self.index
    }

    /// Whether no byte is free.
    pub fn full(&self) -> (b: bool)
        requires
            self@.wf(),
        ensures
            b == self@.full(),
    {
        self.index == BUFF_SIZE
    }

    /// Zeroes the buffer and moves the offset to the start.
    pub fn reset(&mut self)
        requires
            old(self)@.wf(),
        ensures
            final(self)@ == old(self)@.reset(),
            final(self)@.wf(),
    {
        let mut i: usize = 0;
        while i < BUFF_SIZE
            invariant
                i <= BUFF_SIZE,
                self.buff@.len() == BUFF_SIZE,
                self.index == old(self).index,
                self.seqno == old(self).seqno,
                self.flushed == old(self).flushed,
                forall|k: int| 0 <= k < i ==> self.buff@[k] == 0u8,
            decreases BUFF_SIZE - i,
        {
            self.buff.set(i, 0u8);
            i += 1;
        }
        self.index = 0;
        assert(self@.bytes =~= old(self)@.reset().bytes);
    }

    /// Queues the whole buffer, decoded as text, under the current sequence
    /// number; then resets the buffer and moves on to the next number.
    pub fn flush(&mut self)
        requires
            old(self)@.wf(),
            old(self)@.seqno < i64::MAX,
        ensures
            final(self)@ == old(self)@.flush(),
            final(self)@.wf(),
    {
        let data = lossy_string(self.buff.as_slice());
        self.flushed.push(Flushed { data, sequence_number: self.seqno });
        assert(self@.flushed =~= old(self)@.flush().flushed);
        let ghost queued = self@.flushed;
        self.reset();
        self.seqno += 1;
        assert(self@.flushed == queued);
    }

    /// The sequence number of the next flush.
    pub fn sequence_number(&self) -> (n: SequenceNumber)
        ensures
            n == self@.seqno,
    {
        self.seqno
    }

    /// Collects what was flushed since the last call, oldest first.
    pub fn take_flushed(&mut self) -> (out: Vec<Flushed>)
        ensures
            flushed_logs(out@) == old(self)@.flushed,
            final(self)@ == (BuffState { flushed: Seq::empty(), ..old(self)@ }),
    {
        let mut out: Vec<Flushed> = Vec::new();
        std::mem::swap(&mut self.flushed, &mut out);
        assert(self@.flushed =~= Seq::<FlushedLog>::empty());
        out
    }
}

/// Writer that turns the log into health reports.
pub struct LogAsHealth<C> {
    buff: FixedBuff,
    actctx: C,
}

impl<C> LogAsHealth<C> {
    /// The state of the buffer.
    pub closed spec fn buffer(&self) -> BuffState {
        self.buff@
    }

    /// The context through which the reports are sent.
    pub closed spec fn context(&self) -> C {
        self.actctx
    }

    /// A writer with an empty buffer that reports through `actctx`.
    pub fn new(actctx: C) -> (log: LogAsHealth<C>)
        ensures
            log.buffer() == BuffState::fresh(),
            log.buffer().wf(),
            log.context() == actctx,
    {
        LogAsHealth { buff: FixedBuff::new(), actctx }
    }

    /// The context through which the reports are sent.
    pub fn activation_context(&self) -> (actctx: &C)
        ensures
            *actctx == self.context(),
    {
        &self.actctx
    }

    /// The sequence number of the next flush.
    pub fn sequence_number(&self) -> (n: SequenceNumber)
        ensures
            n == self.buffer().seqno,
    {
        self.buff.sequence_number()
    }

    /// Writes the bytes of `buf` that fit into the buffer.
    pub fn write(&mut self, buf: &[u8]) -> (n: usize)
        requires
            old(self).buffer().wf(),
            buf@.len() > 0,
            old(self).buffer().seqno + 2 <= i64::MAX,
        ensures
            final(self).buffer() == old(self).buffer().write(buf@),
            final(self).context() == old(self).context(),
            n == old(self).buffer().accepted(buf@),
            final(self).buffer().wf(),
    {
        self.buff.write(buf)
    }

    /// Flushes the buffer, full or not.
    pub fn flush(&mut self)
        requires
            old(self).buffer().wf(),
            old(self).buffer().seqno < i64::MAX,
        ensures
            final(self).buffer() == old(self).buffer().flush(),
            final(self).context() == old(self).context(),
            final(self).buffer().wf(),
    {
        self.buff.flush()
    }

    /// Collects what was flushed since the last call, oldest first.
    pub fn take_flushed(&mut self) -> (out: Vec<Flushed>)
        ensures
            flushed_logs(out@) == old(self).buffer().flushed,
            final(self).buffer() == (BuffState { flushed: Seq::empty(), ..old(self).buffer() }),
            final(self).context() == old(self).context(),
    {
        self.buff.take_flushed()
    }

    /// The health report for one flushed buffer: the text is the description,
    /// the report is healthy, lives for 300 seconds and is removed afterwards.
    pub fn report_flush_fn(data: &str, sqno: SequenceNumber) -> (report: HealthInformation)
        requires
            4 * data@.len() <= u32::MAX,
        ensures
            hstring_units(report.source_id) == utf16_units("my_log_source"@),
            hstring_units(report.property) == utf16_units("my_log_property"@),
            report.time_to_live_seconds == 300,
            report.state == HealthState::Healthy,
            hstring_units(report.description) == utf16_units(data@),
            report.sequence_number == sqno,
            report.remove_when_expired,
    {
        proof {
            reveal_strlit("my_log_source");
            reveal_strlit("my_log_property");
        }
        HealthInformation {
            source_id: hstring_from_str("my_log_source"),
            property: hstring_from_str("my_log_property"),
            time_to_live_seconds: 300,
            state: HealthState::Healthy,
            description: hstring_from_str(data),
            sequence_number: sqno,
            remove_when_expired: true,
        }
    }
}

/// The offset of a well-formed buffer stays within the buffer, and between
/// writes the buffer is never full.
pub proof fn lemma_buffer_keeps_wf(s: BuffState, buf: Seq<u8>)
    requires
        s.wf(),
        buf.len() > 0,
    ensures
        BuffState::fresh().wf(),
        s.reset().wf(),
        s.flush().wf(),
        s.write(buf).wf(),
        !s.write(buf).full(),
        0 < s.accepted(buf) <= buf.len(),
{
}

/// A flush moves the offset to the start and the sequence number one up;
/// no transition lets the sequence number fall.
pub proof fn lemma_sequence_numbers_grow(s: BuffState, buf: Seq<u8>)
    requires
        s.wf(),
    ensures
        s.flush().index == 0,
        s.flush().seqno == s.seqno + 1,
        s.reset().seqno == s.seqno,
        s.write(buf).seqno >= s.seqno,
        s.flush().flushed.last().sequence_number == s.seqno,
{
}

} // verus!
