use vstd::prelude::*;

use crate::layers::Status;
use crate::led::Rgb;
use crate::state::MSG_CAP;
use crate::state::RuntimeState;
use crate::state::StateView;
use crate::state::is_printable;
use crate::state::unset_overrides;
use crate::state::zero_overrides;

verus! {

/// A decimal digit byte.
pub open spec fn is_dec_digit(b: u8) -> bool {
    0x30 <= b <= 0x39
}

/// A hexadecimal digit byte, either case.
pub open spec fn is_hex_digit(b: u8) -> bool {
    is_dec_digit(b) || 0x41 <= b <= 0x46 || 0x61 <= b <= 0x66
}

/// The value of a hexadecimal digit byte; zero on anything else.
pub open spec fn hex_val_spec(b: u8) -> u8 {
    if is_dec_digit(b) {
        (b - 0x30) as u8
    } else if 0x41 <= b <= 0x46 {
        (b - 0x37) as u8
    } else if 0x61 <= b <= 0x66 {
        (b - 0x57) as u8
    } else {
        0
    }
}

/// The value of one hexadecimal digit, or nothing on any other byte.
pub fn hex_val(b: u8) -> (r: Option<u8>)
    ensures
        r == (if is_hex_digit(b) {
            Some(hex_val_spec(b))
        } else {
            None::<u8>
        }),
{
    if 0x30 <= b && b <= 0x39 {
        Some(b - 0x30)
    } else if 0x41 <= b && b <= 0x46 {
        Some(b - 0x37)
    } else if 0x61 <= b && b <= 0x66 {
        Some(b - 0x57)
    } else {
        None
    }
}

/// The color written as six hexadecimal digits `RRGGBB`, or nothing if the
/// sequence is not exactly six hexadecimal digits.
pub open spec fn rgb_of_hex_spec(p: Seq<u8>) -> Option<Rgb> {
    if p.len() == 6 && (forall|i: int| 0 <= i < 6 ==> is_hex_digit(p[i])) {
        Some(
            Rgb {
                r: (16 * hex_val_spec(p[0]) + hex_val_spec(p[1])) as u8,
                g: (16 * hex_val_spec(p[2]) + hex_val_spec(p[3])) as u8,
                b: (16 * hex_val_spec(p[4]) + hex_val_spec(p[5])) as u8,
            },
        )
    } else {
        None
    }
}

/// The status named by a `STS:` payload: one of `IDLE`, `RUN`, `WAIT`,
/// `ERR`; any other payload names nothing.
pub open spec fn status_of_spec(p: Seq<u8>) -> Option<Status> {
    if p.len() == 4 && p[0] == 0x49 && p[1] == 0x44 && p[2] == 0x4c && p[3] == 0x45 {
        Some(Status::Idle)
    } else if p.len() == 3 && p[0] == 0x52 && p[1] == 0x55 && p[2] == 0x4e {
        Some(Status::Running)
    } else if p.len() == 4 && p[0] == 0x57 && p[1] == 0x41 && p[2] == 0x49 && p[3] == 0x54 {
        Some(Status::Waiting)
    } else if p.len() == 3 && p[0] == 0x45 && p[1] == 0x52 && p[2] == 0x52 {
        Some(Status::Error)
    } else {
        None
    }
}

/// The override written by an `RGB:` payload `<n>:<RRGGBB>`: the 0-based key
/// index and the color. The index is one or two decimal digits and 1-based
/// between 1 and 12; a malformed index or color yields nothing, so the
/// whole command has no effect.
pub open spec fn rgb_cmd_spec(p: Seq<u8>) -> Option<(int, Rgb)> {
    if p.len() == 8 && is_dec_digit(p[0]) && p[1] == 0x3a {
        let n = p[0] - 0x30;
        if 1 <= n <= 12 {
            match rgb_of_hex_spec(p.skip(2)) {
                Some(c) => Some(((n - 1) as int, c)),
                None => None,
            }
        } else {
            None
        }
    } else if p.len() == 9 && is_dec_digit(p[0]) && is_dec_digit(p[1]) && p[2] == 0x3a {
        let n = 10 * (p[0] - 0x30) + (p[1] - 0x30);
        if 1 <= n <= 12 {
            match rgb_of_hex_spec(p.skip(3)) {
                Some(c) => Some(((n - 1) as int, c)),
                None => None,
            }
        } else {
            None
        }
    } else {
        None
    }
}

/// The message stored by a `MSG:` payload: walk the payload in order, keep
/// printable ASCII bytes, drop every other byte silently, and stop keeping
/// bytes once `MSG_CAP` of them are stored.
pub open spec fn message_of_spec(p: Seq<u8>) -> Seq<u8>
    decreases p.len(),
{
    if p.len() == 0 {
        Seq::empty()
    } else {
        let kept = message_of_spec(p.drop_last());
        if is_printable(p.last()) && kept.len() < MSG_CAP {
            kept.push(p.last())
        } else {
            kept
        }
    }
}

/// The stored message is always at most `MSG_CAP` bytes of printable ASCII,
/// whatever the payload held.
pub proof fn lemma_message_of_wf(p: Seq<u8>)
    ensures
        message_of_spec(p).len() <= MSG_CAP,
        forall|i: int| 0 <= i < message_of_spec(p).len() ==> is_printable(message_of_spec(p)[i]),
    decreases p.len(),
{
    if p.len() > 0 {
        lemma_message_of_wf(p.drop_last());
    }
}

/// A line starts with the 4-byte command prefix `<a><b><c>:`.
pub open spec fn prefix_is(s: Seq<u8>, a: u8, b: u8, c: u8) -> bool {
    s.len() >= 4 && s[0] == a && s[1] == b && s[2] == c && s[3] == 0x3a
}

/// The effect of one terminated command line on the runtime state.
///
/// `MSG:` replaces the message with the filtered, truncated payload; `STS:`
/// sets the status when the payload names one and otherwise changes
/// nothing; `RGB:` sets one override when index and color are well formed
/// and otherwise changes nothing; `CLR:` clears the message only; `RST:`
/// clears the message, unsets every override and resets the status to
/// idle. A line shorter than four bytes, or with an unknown prefix, changes
/// nothing. The layer fields are never touched. Commands that change what
/// the display shows (message or status) mark it dirty.
pub open spec fn line_effect_spec(st: StateView, s: Seq<u8>) -> StateView {
    if prefix_is(s, 0x4d, 0x53, 0x47) {  // MSG:
        StateView { message: message_of_spec(s.skip(4)), dirty: true, ..st }
    } else if prefix_is(s, 0x53, 0x54, 0x53) {  // STS:
        match status_of_spec(s.skip(4)) {
            Some(x) => StateView { status: x, dirty: true, ..st },
            None => st,
        }
    } else if prefix_is(s, 0x52, 0x47, 0x42) {  // RGB:
        match rgb_cmd_spec(s.skip(4)) {
            Some(ic) => StateView { overrides: st.overrides.update(ic.0, ic.1), ..st },
            None => st,
        }
    } else if prefix_is(s, 0x43, 0x4c, 0x52) {  // CLR:
        StateView { message: Seq::empty(), dirty: true, ..st }
    } else if prefix_is(s, 0x52, 0x53, 0x54) {  // RST:
        StateView {
            message: Seq::empty(),
            status: Status::Idle,
            overrides: unset_overrides(),
            dirty: true,
            ..st
        }
    } else {
        st
    }
}

/// A reset always lands in the same place: empty message, every override
/// unset, idle status — whatever the prior state held.
pub proof fn lemma_reset_effect(st: StateView, s: Seq<u8>)
    requires
        prefix_is(s, 0x52, 0x53, 0x54),
    ensures
        line_effect_spec(st, s).message == Seq::<u8>::empty(),
        line_effect_spec(st, s).overrides == unset_overrides(),
        line_effect_spec(st, s).status == Status::Idle,
{
    assert(!prefix_is(s, 0x4d, 0x53, 0x47));
    assert(!prefix_is(s, 0x53, 0x54, 0x53));
    assert(!prefix_is(s, 0x52, 0x47, 0x42));
    assert(!prefix_is(s, 0x43, 0x4c, 0x52));
}

/// The message kept from a `MSG:` payload, as stored bytes.
fn collect_message(line: &Vec<u8>) -> (msg: Vec<u8>)
    requires
        line@.len() >= 4,
    ensures
        msg@ == message_of_spec(line@.skip(4)),
{
    let mut msg: Vec<u8> = Vec::new();
    let mut i: usize = 4;
    while i < line.len()
        invariant
            4 <= i <= line@.len(),
            msg@ == message_of_spec(line@.subrange(4, i as int)),
            msg@.len() <= MSG_CAP,
        decreases line@.len() - i,
    {
        let b = line[i];
        proof {
            assert(line@.subrange(4, i + 1 as int).drop_last() =~= line@.subrange(4, i as int));
            assert(line@.subrange(4, i + 1 as int).last() == line@[i as int]);
        }
        if 0x20 <= b && b <= 0x7e && msg.len() < MSG_CAP {
            msg.push(b);
        }
        i = i + 1;
    }
    proof {
        assert(line@.subrange(4, line@.len() as int) =~= line@.skip(4));
    }
    msg
}

/// The color parsed from six hexadecimal digits at `start`, reaching the
/// end of the line.
fn parse_hex6(line: &Vec<u8>, start: usize) -> (r: Option<Rgb>)
    requires
        start + 6 == line@.len(),
    ensures
        r == rgb_of_hex_spec(line@.skip(start as int)),
{
    let n: usize = line.len();
    proof {
        assert(start + 6 == n);
    }
    let d0 = hex_val(line[start]);
    let d1 = hex_val(line[start + 1]);
    let d2 = hex_val(line[start + 2]);
    let d3 = hex_val(line[start + 3]);
    let d4 = hex_val(line[start + 4]);
    let d5 = hex_val(line[start + 5]);
    proof {
        assert(line@.skip(start as int).len() == 6);
        assert(forall|i: int|
            0 <= i < 6 ==> line@.skip(start as int)[i] == line@[start + i]);
    }
    match (d0, d1, d2, d3, d4, d5) {
        (Some(v0), Some(v1), Some(v2), Some(v3), Some(v4), Some(v5)) => Some(
            Rgb { r: 16 * v0 + v1, g: 16 * v2 + v3, b: 16 * v4 + v5 },
        ),
        _ => None,
    }
}

/// Apply one terminated command line to the runtime state. Malformed lines
/// change nothing; no command ever fails or panics.
pub fn execute_line(state: &mut RuntimeState, line: &Vec<u8>)
    requires
        old(state)@.wf(),
    ensures
        final(state)@.wf(),
        final(state)@ == line_effect_spec(old(state)@, line@),
{
    if line.len() < 4 {
        return ;
    }
    let c0 = line[0];
    let c1 = line[1];
    let c2 = line[2];
    if line[3] != 0x3a {
        return ;
    }
    if c0 == 0x4d && c1 == 0x53 && c2 == 0x47 {
        // MSG:
        let msg = collect_message(line);
        proof {
            lemma_message_of_wf(line@.skip(4));
        }
        state.message = msg;
        state.dirty = true;
        proof {
            assert(state@ =~= line_effect_spec(old(state)@, line@));
        }
    } else if c0 == 0x53 && c1 == 0x54 && c2 == 0x53 {
        // STS:
        let n = line.len();
        let s: Option<Status> = if n == 8 && line[4] == 0x49 && line[5] == 0x44 && line[6] == 0x4c
            && line[7] == 0x45 {
            Some(Status::Idle)
        } else if n == 7 && line[4] == 0x52 && line[5] == 0x55 && line[6] == 0x4e {
            Some(Status::Running)
        } else if n == 8 && line[4] == 0x57 && line[5] == 0x41 && line[6] == 0x49 && line[7]
            == 0x54 {
            Some(Status::Waiting)
        } else if n == 7 && line[4] == 0x45 && line[5] == 0x52 && line[6] == 0x52 {
            Some(Status::Error)
        } else {
            None
        };
        proof {
            assert(s == status_of_spec(line@.skip(4)));
        }
        match s {
            Some(x) => {
                state.status = x;
                state.dirty = true;
            },
            None => {},
        }
        proof {
            assert(state@ =~= line_effect_spec(old(state)@, line@));
        }
    } else if c0 == 0x52 && c1 == 0x47 && c2 == 0x42 {
        // RGB:
        let n = line.len();
        let parsed: Option<(usize, Rgb)> = if n == 12 && 0x30 <= line[4] && line[4] <= 0x39
            && line[5] == 0x3a {
            let idx = line[4] - 0x30;
            if 1 <= idx && idx <= 12 {
                proof {
                    assert(line@.skip(4).skip(2) =~= line@.skip(6));
                }
                match parse_hex6(line, 6) {
                    Some(c) => Some((idx as usize - 1, c)),
                    None => None,
                }
            } else {
                None
            }
        } else if n == 13 && 0x30 <= line[4] && line[4] <= 0x39 && 0x30 <= line[5] && line[5]
            <= 0x39 && line[6] == 0x3a {
            let idx = 10 * (line[4] - 0x30) + (line[5] - 0x30);
            if 1 <= idx && idx <= 12 {
                proof {
                    assert(line@.skip(4).skip(3) =~= line@.skip(7));
                }
                match parse_hex6(line, 7) {
                    Some(c) => Some((idx as usize - 1, c)),
                    None => None,
                }
            } else {
                None
            }
        } else {
            None
        };
        proof {
            match parsed {
                Some(ic) => {
                    assert(rgb_cmd_spec(line@.skip(4)) == Some((ic.0 as int, ic.1)));
                },
                None => {
                    assert(rgb_cmd_spec(line@.skip(4)) is None);
                },
            }
        }
        match parsed {
            Some(ic) => {
                state.overrides.set(ic.0, ic.1);
            },
            None => {},
        }
        proof {
            assert(state@ =~= line_effect_spec(old(state)@, line@));
        }
    } else if c0 == 0x43 && c1 == 0x4c && c2 == 0x52 {
        // CLR:
        state.message = Vec::new();
        state.dirty = true;
        proof {
            assert(state@.message =~= Seq::<u8>::empty());
            assert(state@ =~= line_effect_spec(old(state)@, line@));
        }
    } else if c0 == 0x52 && c1 == 0x53 && c2 == 0x54 {
        // RST:
        state.message = Vec::new();
        state.overrides = zero_overrides();
        state.status = Status::Idle;
        state.dirty = true;
        proof {
            assert(state@.message =~= Seq::<u8>::empty());
            assert(state@ =~= line_effect_spec(old(state)@, line@));
        }
    }
}

} // verus!
