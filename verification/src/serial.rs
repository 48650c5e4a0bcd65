use vstd::prelude::*;

use crate::parse::line_effect_spec;
use crate::parse::execute_line;
use crate::state::RuntimeState;
use crate::state::StateView;

verus! {

/// Capacity of the line buffer that accumulates one command between
/// terminators; bytes beyond it are dropped silently until the next
/// terminator.
pub const LINE_CAP: usize = 64;

/// A line terminator: newline or carriage return.
pub open spec fn is_terminator(b: u8) -> bool {
    b == 0x0a || b == 0x0d
}

/// The buffer contents after one non-terminator byte: appended while there
/// is room, dropped once the buffer is full.
pub open spec fn buffer_push_spec(s: Seq<u8>, b: u8) -> Seq<u8> {
    if s.len() < LINE_CAP {
        s.push(b)
    } else {
        s
    }
}

/// Bounded buffer accumulating one serial command line at a time.
pub struct LineBuffer {
    pub bytes: Vec<u8>,
}

impl LineBuffer {
    /// The buffer never grows past its capacity.
    pub open spec fn wf(self) -> bool {
        self.bytes@.len() <= LINE_CAP
    }

    /// An empty buffer.
    pub fn new() -> (r: LineBuffer)
        ensures
            r.wf(),
            r.bytes@ == Seq::<u8>::empty(),
    {
        let r = LineBuffer { bytes: Vec::new() };
        proof {
            assert(r.bytes@ =~= Seq::<u8>::empty());
        }
        r
    }

    /// Take in one byte. Returns true on a terminator, leaving the
    /// completed line in place for the caller to read and then clear;
    /// otherwise the byte is kept while there is room and dropped once the
    /// buffer is full.
    pub fn push_byte(&mut self, b: u8) -> (complete: bool)
        requires
            old(self).wf(),
        ensures
            final(self).wf(),
            complete == is_terminator(b),
            complete ==> final(self).bytes@ == old(self).bytes@,
            !complete ==> final(self).bytes@ == buffer_push_spec(old(self).bytes@, b),
    {
        if b == 0x0a || b == 0x0d {
            true
        } else {
            if self.bytes.len() < LINE_CAP {
                self.bytes.push(b);
            }
            false
        }
    }

    /// Drop the accumulated line.
    pub fn clear(&mut self)
        ensures
            final(self).wf(),
            final(self).bytes@ == Seq::<u8>::empty(),
    {
        self.bytes.clear();
        proof {
            assert(self.bytes@ =~= Seq::<u8>::empty());
        }
    }
}

/// The state and buffer after one serial byte: a terminator applies the
/// accumulated line as a command and empties the buffer; any other byte
/// only accumulates.
pub open spec fn serial_byte_spec(st: StateView, buf: Seq<u8>, b: u8) -> (StateView, Seq<u8>) {
    if is_terminator(b) {
        (line_effect_spec(st, buf), Seq::empty())
    } else {
        (st, buffer_push_spec(buf, b))
    }
}

/// The state and buffer after a whole chunk of serial bytes, applied in
/// order.
pub open spec fn serial_fold_spec(st: StateView, buf: Seq<u8>, input: Seq<u8>) -> (
    StateView,
    Seq<u8>,
)
    decreases input.len(),
{
    if input.len() == 0 {
        (st, buf)
    } else {
        let prev = serial_fold_spec(st, buf, input.drop_last());
        serial_byte_spec(prev.0, prev.1, input.last())
    }
}

/// Feed one serial byte into the parser.
pub fn serial_byte(state: &mut RuntimeState, buf: &mut LineBuffer, b: u8)
    requires
        old(state)@.wf(),
        old(buf).wf(),
    ensures
        final(state)@.wf(),
        final(buf).wf(),
        (final(state)@, final(buf).bytes@) == serial_byte_spec(old(state)@, old(buf).bytes@, b),
{
    let complete = buf.push_byte(b);
    if complete {
        execute_line(state, &buf.bytes);
        buf.clear();
    }
}

/// Feed a whole chunk of serial bytes into the parser, in order. Reading
/// zero bytes in a tick is a normal outcome: the empty chunk changes
/// nothing.
pub fn serial_input(state: &mut RuntimeState, buf: &mut LineBuffer, input: &Vec<u8>)
    requires
        old(state)@.wf(),
        old(buf).wf(),
    ensures
        final(state)@.wf(),
        final(buf).wf(),
        (final(state)@, final(buf).bytes@) == serial_fold_spec(
            old(state)@,
            old(buf).bytes@,
            input@,
        ),
{
    let mut i: usize = 0;
    while i < input.len()
        invariant
            i <= input@.len(),
            state@.wf(),
            buf.wf(),
            (state@, buf.bytes@) == serial_fold_spec(
                old(state)@,
                old(buf).bytes@,
                input@.take(i as int),
            ),
        decreases input@.len() - i,
    {
        proof {
            assert(input@.take(i + 1 as int).drop_last() =~= input@.take(i as int));
            assert(input@.take(i + 1 as int).last() == input@[i as int]);
        }
        serial_byte(state, buf, input[i]);
        i = i + 1;
    }
    proof {
        assert(input@.take(input@.len() as int) =~= input@);
    }
}

} // verus!
