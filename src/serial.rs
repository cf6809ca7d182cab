use vstd::prelude::*;
use crate::context::{Interrupts, Shared};

verus! {

/// Size of the line buffer, prefix included.
pub const CAPACITY: usize = 1024;

/// Length of the prefix that begins every transmitted line.
pub const PREFIX_LEN: usize = 10;

/// Line terminator.
pub const LF: u8 = 10;

/// Payload bytes that fit in a line before it is flushed without a
/// terminator: the last slot of the buffer is kept free.
pub const PAYLOAD_MAX: usize = 1013;

/// The prefix `"Received: "`.
pub open spec fn prefix() -> Seq<u8> {
    seq![82u8, 101u8, 99u8, 101u8, 105u8, 118u8, 101u8, 100u8, 58u8, 32u8]
}

/// A receive error reported by the serial port.
#[derive(Clone, Copy, Debug, PartialEq, Eq, Structural)]
pub enum ReadError {
    Framing,
    Noise,
    Overrun,
    Parity,
    /// An error of a kind not named above.
    Other,
}

/// Whether a line that has grown to `line` must be transmitted now.
pub open spec fn must_flush(line: Seq<u8>) -> bool {
    line.last() == LF || line.len() >= PAYLOAD_MAX
}

/// A fixed buffer that starts with the prefix, followed by the bytes of
/// the line received so far.
pub struct LineBuffer {
    buffer: [u8; 1024],
    pos: usize,
}

impl LineBuffer {
    /// The whole storage, prefix and reserved last slot included.
    pub closed spec fn bytes(&self) -> Seq<u8> {
        self.buffer@
    }

    /// The write position.
    pub closed spec fn position(&self) -> nat {
        self.pos as nat
    }

    /// The bytes of the current line, after the prefix.
    pub open spec fn pending(&self) -> Seq<u8> {
        self.bytes().subrange(PREFIX_LEN as int, self.position() as int)
    }

    pub open spec fn wf(&self) -> bool {
        &&& self.bytes().len() == CAPACITY
        &&& PREFIX_LEN <= self.position() < CAPACITY - 1
        &&& self.bytes().subrange(0, PREFIX_LEN as int) == prefix()
    }

    /// An empty line: the prefix, then zeros.
    pub fn new() -> (r: LineBuffer)
        ensures
            r.wf(),
            r.pending() == Seq::<u8>::empty(),
    {
        let mut buffer = [0u8; 1024];
        buffer[0] = 82u8;
        buffer[1] = 101u8;
        buffer[2] = 99u8;
        buffer[3] = 101u8;
        buffer[4] = 105u8;
        buffer[5] = 118u8;
        buffer[6] = 101u8;
        buffer[7] = 100u8;
        buffer[8] = 58u8;
        buffer[9] = 32u8;
        assert(buffer@.subrange(0, PREFIX_LEN as int) =~= prefix());
        LineBuffer { buffer, pos: PREFIX_LEN }
    }

    pub fn pos(&self) -> (r: usize)
        ensures
            r == self.position(),
    {
        self.pos
    }

    /// Hands out the prefix and the line received so far, and starts a new
    /// line; the prefix stays in place.
    pub fn flush(&mut self) -> (r: &[u8])
        requires
            old(self).bytes().len() == CAPACITY,
            PREFIX_LEN <= old(self).position() <= CAPACITY - 1,
            old(self).bytes().subrange(0, PREFIX_LEN as int) == prefix(),
        ensures
            final(self).wf(),
            final(self).pending() == Seq::<u8>::empty(),
            final(self).bytes() == old(self).bytes(),
            r@ == prefix() + old(self).pending(),
    {
        let end = self.pos;
        assert(self.buffer@.subrange(0, end as int) =~= self.buffer@.subrange(
            0,
            PREFIX_LEN as int,
        ) + self.pending());
        self.pos = PREFIX_LEN;
        vstd::slice::slice_subrange(self.buffer.as_slice(), 0, end)
    }

    /// Stores one received byte. A terminator, or a line that has reached
    /// the payload limit, is handed out with the prefix and a new line
    /// begins. Neither the prefix nor the reserved last slot is written.
    pub fn on_byte(&mut self, w: u8) -> (r: Option<&[u8]>)
        requires
            old(self).wf(),
        ensures
            final(self).wf(),
            final(self).bytes().subrange(0, PREFIX_LEN as int) == old(self).bytes().subrange(
                0,
                PREFIX_LEN as int,
            ),
            final(self).bytes() == old(self).bytes().update(old(self).position() as int, w),
            final(self).bytes()[CAPACITY - 1] == old(self).bytes()[CAPACITY - 1],
            match r {
                Some(out) => must_flush(old(self).pending().push(w)) && out@ == prefix() + old(
                    self,
                ).pending().push(w) && final(self).pending() == Seq::<u8>::empty(),
                None => !must_flush(old(self).pending().push(w)) && final(self).pending() == old(
                    self,
                ).pending().push(w),
            },
    {
        let ghost line = self.pending().push(w);
        self.buffer[self.pos] = w;
        self.pos = self.pos + 1;
        assert(self.pending() =~= line);
        assert(self.buffer@.subrange(0, PREFIX_LEN as int) =~= old(self).buffer@.subrange(
            0,
            PREFIX_LEN as int,
        ));
        if w == LF || self.pos >= CAPACITY - 1 {
            Some(self.flush())
        } else {
            None
        }
    }

    /// The receive path: a byte that was read is stored as `on_byte` says;
    /// a read error leaves the line as it was.
    pub fn on_ready_read(&mut self, read: Result<u8, ReadError>) -> (r: Option<&[u8]>)
        requires
            old(self).wf(),
        ensures
            final(self).wf(),
            final(self).bytes()[CAPACITY - 1] == old(self).bytes()[CAPACITY - 1],
            match read {
                Ok(w) => final(self).bytes() == old(self).bytes().update(
                    old(self).position() as int,
                    w,
                ) && match r {
                    Some(out) => must_flush(old(self).pending().push(w)) && out@ == prefix() + old(
                        self,
                    ).pending().push(w) && final(self).pending() == Seq::<u8>::empty(),
                    None => !must_flush(old(self).pending().push(w)) && final(self).pending()
                        == old(self).pending().push(w),
                },
                Err(_) => {
                    &&& r is None
                    &&& final(self).bytes() == old(self).bytes()
                    &&& final(self).position() == old(self).position()
                },
            },
    {
        match read {
            Ok(w) => self.on_byte(w),
            Err(_) => None,
        }
    }
}

/// The receive interrupt. `ready` is `None` when the receiver holds no
/// byte (a spurious wakeup), else the outcome of the one read that the
/// interrupt made. Inside a critical section the published line buffer
/// takes the outcome; what it returns is to be transmitted. Before
/// publication, or without a byte, nothing changes.
pub fn usart1<'a>(
    irq: &mut Interrupts,
    shared: &'a mut Shared<LineBuffer>,
    ready: Option<Result<u8, ReadError>>,
) -> (r: Option<&'a [u8]>)
    requires
        match old(shared).content() {
            Some(b) => b.wf(),
            None => true,
        },
    ensures
        final(irq).is_masked() == old(irq).is_masked(),
        match old(shared).content() {
            None => r is None && final(shared).content() is None,
            Some(b0) => match final(shared).content() {
                None => false,
                Some(b1) => b1.wf() && b1.bytes().subrange(0, PREFIX_LEN as int) == prefix()
                    && b1.bytes()[CAPACITY - 1] == b0.bytes()[CAPACITY - 1] && match ready {
                    Some(Ok(w)) => b1.bytes() == b0.bytes().update(b0.position() as int, w)
                        && match r {
                        Some(out) => must_flush(b0.pending().push(w)) && out@ == prefix()
                            + b0.pending().push(w) && b1.pending() == Seq::<u8>::empty(),
                        None => !must_flush(b0.pending().push(w)) && b1.pending()
                            == b0.pending().push(w),
                    },
                    _ => {
                        &&& r is None
                        &&& b1.bytes() == b0.bytes()
                        &&& b1.position() == b0.position()
                    },
                },
            },
        },
{
    let cs = irq.acquire();
    let r = match shared.live_mut(irq) {
        Some(b) => match ready {
            Some(read) => b.on_ready_read(read),
            None => None,
        },
        None => None,
    };
    irq.release(cs);
    r
}

/// What the blocking echo does after one read.
#[derive(Debug)]
pub enum EchoStep<'a> {
    /// Read the next byte.
    Continue,
    /// Transmit these bytes, pulse the activity LED, and start a new line.
    Transmit(&'a [u8]),
    /// An error that the echo does not tolerate: stop.
    Halt(ReadError),
}

/// The blocking serial echo: at the top of each line one read is consumed
/// and discarded, which clears a stale overrun; after that bytes go to
/// the line buffer until it is flushed.
pub struct BlockingEcho {
    line: LineBuffer,
    at_line_start: bool,
}

impl BlockingEcho {
    pub closed spec fn buffer(&self) -> LineBuffer {
        self.line
    }

    pub closed spec fn awaiting_first(&self) -> bool {
        self.at_line_start
    }

    pub open spec fn wf(&self) -> bool {
        self.buffer().wf()
    }

    pub fn new() -> (r: BlockingEcho)
        ensures
            r.wf(),
            r.awaiting_first(),
            r.buffer().pending() == Seq::<u8>::empty(),
    {
        BlockingEcho { line: LineBuffer::new(), at_line_start: true }
    }

    pub fn line(&self) -> (r: &LineBuffer)
        ensures
            *r == self.buffer(),
    {
        &self.line
    }

    /// Takes the outcome of one blocking read.
    pub fn on_read(&mut self, read: Result<u8, ReadError>) -> (r: EchoStep<'_>)
        requires
            old(self).wf(),
        ensures
            final(self).wf(),
            old(self).awaiting_first() ==> match read {
                Ok(_) | Err(ReadError::Overrun) => r is Continue && !final(self).awaiting_first()
                    && final(self).buffer() == old(self).buffer(),
                Err(e) => r == EchoStep::Halt(e) && final(self).buffer() == old(self).buffer(),
            },
            !old(self).awaiting_first() ==> match read {
                Ok(w) => match r {
                    EchoStep::Transmit(out) => {
                        &&& must_flush(old(self).buffer().pending().push(w))
                        &&& out@ == prefix() + old(self).buffer().pending().push(w)
                        &&& final(self).buffer().pending() == Seq::<u8>::empty()
                        &&& final(self).awaiting_first()
                    },
                    EchoStep::Continue => !must_flush(old(self).buffer().pending().push(w))
                        && final(self).buffer().pending() == old(self).buffer().pending().push(w)
                        && !final(self).awaiting_first(),
                    EchoStep::Halt(_) => false,
                },
                Err(e) => r == EchoStep::Halt(e) && final(self).buffer() == old(self).buffer(),
            },
    {
        if self.at_line_start {
            match read {
                Ok(_) => {
                    self.at_line_start = false;
                    EchoStep::Continue
                },
                Err(ReadError::Overrun) => {
                    self.at_line_start = false;
                    EchoStep::Continue
                },
                Err(e) => EchoStep::Halt(e),
            }
        } else {
            match read {
                Ok(w) => match self.line.on_byte(w) {
                    Some(out) => {
                        self.at_line_start = true;
                        EchoStep::Transmit(out)
                    },
                    None => EchoStep::Continue,
                },
                Err(e) => EchoStep::Halt(e),
            }
        }
    }
}

} // verus!
