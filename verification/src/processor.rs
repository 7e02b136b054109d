use vstd::prelude::*;

use crate::screen::{
    Screen, ScreenV, spec_backspace, spec_carriage_return, spec_cursor_back, spec_cursor_down,
    spec_cursor_forward, spec_cursor_up, spec_enter_alt, spec_erase_line, spec_erase_screen,
    spec_exit_alt, spec_goto, spec_linefeed, spec_restore_cursor, spec_reverse_index,
    spec_save_cursor, spec_scroll_down, spec_scroll_up, spec_set_region, spec_sgr, spec_tab,
    spec_put_char,
};

verus! {

/// The decoder grammar's states. `CsiIgnore` consumes a malformed control
/// sequence up to its final byte without effect; `StIgnore` consumes a
/// string sequence (SOS/PM/APC) up to its terminator.
#[derive(Clone, Copy, PartialEq, Eq, Structural, Debug)]
pub enum PState {
    Ground,
    Escape,
    CsiEntry,
    CsiParam,
    CsiIntermediate,
    CsiIgnore,
    OscString,
    OscEsc,
    DcsEntry,
    DcsPassthrough,
    DcsEsc,
    StIgnore,
    StIgnoreEsc,
}

/// Model of the decoder's own state: the grammar state, the parameters
/// collected so far, and the pending partial multi-byte text decode.
#[verifier::ext_equal]
pub ghost struct ProcV {
    pub state: PState,
    pub params: Seq<u16>,
    pub cur: u16,
    pub cur_set: bool,
    pub private: bool,
    pub inter_seen: bool,
    pub utf8_rem: int,
    pub utf8_acc: int,
    pub utf8_min: int,
}

impl ProcV {
    /// Bounds that keep parameter and text accumulation overflow-free: the
    /// parameter list is capped, and the partial codepoint accumulator stays
    /// under the bound its remaining continuation bytes allow.
    pub open spec fn wf(self) -> bool {
        &&& self.params.len() <= 16
        &&& 0 <= self.utf8_rem <= 3
        &&& 0 <= self.utf8_acc
        &&& (self.utf8_rem == 3 ==> self.utf8_acc < 8)
        &&& (self.utf8_rem == 2 ==> self.utf8_acc < 512)
        &&& (self.utf8_rem == 1 ==> self.utf8_acc < 32768)
        &&& self.utf8_acc < 0x200000
        &&& 0 <= self.utf8_min < 0x20000
    }
}

/// The same decoder state back in `Ground`.
pub open spec fn spec_to_ground(p: ProcV) -> ProcV {
    ProcV { state: PState::Ground, ..p }
}

/// Entering a CSI sequence clears all collected parameters and markers.
pub open spec fn spec_to_csi_entry(p: ProcV) -> ProcV {
    ProcV {
        state: PState::CsiEntry,
        params: Seq::empty(),
        cur: 0,
        cur_set: false,
        private: false,
        inter_seen: false,
        ..p
    }
}

/// One more decimal digit of a parameter, saturating at the largest value.
pub open spec fn spec_sat10(cur: u16, d: u16) -> u16 {
    if cur as int * 10 + d as int <= 65535 {
        (cur as int * 10 + d as int) as u16
    } else {
        65535u16
    }
}

/// Appends a finished parameter; once the list is full, further parameters
/// are dropped.
pub open spec fn spec_push_param(params: Seq<u16>, v: u16) -> Seq<u16> {
    if params.len() < 16 {
        params.push(v)
    } else {
        params
    }
}

/// The `i`-th parameter, or `d` where it was omitted.
pub open spec fn spec_param_at(params: Seq<u16>, i: int, d: u16) -> u16 {
    if 0 <= i < params.len() {
        params[i]
    } else {
        d
    }
}

/// The `i`-th parameter read as a count: an omitted or zero count means one.
pub open spec fn spec_count_at(params: Seq<u16>, i: int) -> u16 {
    if 0 <= i < params.len() && params[i] != 0 {
        params[i]
    } else {
        1
    }
}

/// The decimal digits of `n` (non-negative), most significant first.
pub open spec fn spec_dec_repr(n: int) -> Seq<u8>
    decreases n,
{
    if n < 10 {
        seq![(0x30 + if n >= 0 { n } else { 0 }) as u8]
    } else {
        spec_dec_repr(n / 10).push((0x30 + n % 10) as u8)
    }
}

/// The cursor-position report: `ESC [ row ; col R`, one-based.
pub open spec fn spec_cpr(s: ScreenV) -> Seq<u8> {
    seq![0x1bu8, 0x5bu8] + spec_dec_repr(s.row + 1) + seq![0x3bu8] + spec_dec_repr(s.col + 1)
        + seq![0x52u8]
}

/// Effect of one private mode parameter: cursor visibility, line wrap, or
/// the alternate screen. Unknown modes have no effect.
pub open spec fn spec_mode_one(s: ScreenV, p: int, on: bool) -> ScreenV {
    if p == 25 {
        ScreenV { cursor_visible: on, ..s }
    } else if p == 7 {
        ScreenV { wrap: on, ..s }
    } else if p == 47 || p == 1049 {
        if on {
            spec_enter_alt(s)
        } else {
            spec_exit_alt(s)
        }
    } else {
        s
    }
}

/// Effect of a private mode parameter list, applied in order.
pub open spec fn spec_modes(s: ScreenV, params: Seq<u16>, on: bool) -> ScreenV
    decreases params.len(),
{
    if params.len() == 0 {
        s
    } else {
        spec_modes(spec_mode_one(s, params[0] as int, on), params.drop_first(), on)
    }
}

/// Effect of a complete CSI sequence on the screen, with its response
/// bytes. Sequences with intermediate bytes, and unrecognized final bytes,
/// are consumed without effect.
pub open spec fn spec_csi_dispatch(
    s: ScreenV,
    private: bool,
    inter_seen: bool,
    params: Seq<u16>,
    fb: u8,
) -> (ScreenV, Seq<u8>) {
    let n0 = spec_count_at(params, 0) as int;
    let n1 = spec_count_at(params, 1) as int;
    let r0 = spec_param_at(params, 0, 0) as int;
    if inter_seen {
        (s, Seq::empty())
    } else if private {
        if fb == 0x68 {
            (spec_modes(s, params, true), Seq::empty())
        } else if fb == 0x6c {
            (spec_modes(s, params, false), Seq::empty())
        } else {
            (s, Seq::empty())
        }
    } else if fb == 0x41 {
        (spec_cursor_up(s, n0), Seq::empty())
    } else if fb == 0x42 {
        (spec_cursor_down(s, n0), Seq::empty())
    } else if fb == 0x43 {
        (spec_cursor_forward(s, n0), Seq::empty())
    } else if fb == 0x44 {
        (spec_cursor_back(s, n0), Seq::empty())
    } else if fb == 0x45 {
        (spec_carriage_return(spec_cursor_down(s, n0)), Seq::empty())
    } else if fb == 0x46 {
        (spec_carriage_return(spec_cursor_up(s, n0)), Seq::empty())
    } else if fb == 0x47 {
        (spec_goto(s, s.row, n0 - 1), Seq::empty())
    } else if fb == 0x64 {
        (spec_goto(s, n0 - 1, s.col), Seq::empty())
    } else if fb == 0x48 || fb == 0x66 {
        (spec_goto(s, n0 - 1, n1 - 1), Seq::empty())
    } else if fb == 0x4a {
        (spec_erase_screen(s, r0), Seq::empty())
    } else if fb == 0x4b {
        (spec_erase_line(s, r0), Seq::empty())
    } else if fb == 0x6d {
        let ps = if params.len() == 0 {
            seq![0u16]
        } else {
            params
        };
        (ScreenV { pen: spec_sgr(s.pen, ps), ..s }, Seq::empty())
    } else if fb == 0x72 {
        let b1 = spec_param_at(params, 1, 0) as int;
        (spec_set_region(s, n0 - 1, if b1 == 0 { s.height } else { b1 }), Seq::empty())
    } else if fb == 0x53 {
        (spec_scroll_up(s, n0), Seq::empty())
    } else if fb == 0x54 {
        (spec_scroll_down(s, n0), Seq::empty())
    } else if fb == 0x73 {
        (spec_save_cursor(s), Seq::empty())
    } else if fb == 0x75 {
        (spec_restore_cursor(s), Seq::empty())
    } else if fb == 0x6e {
        if r0 == 6 {
            (s, spec_cpr(s))
        } else if r0 == 5 {
            (s, seq![0x1bu8, 0x5bu8, 0x30u8, 0x6eu8])
        } else {
            (s, Seq::empty())
        }
    } else if fb == 0x63 {
        if r0 == 0 {
            (s, seq![0x1bu8, 0x5bu8, 0x3fu8, 0x36u8, 0x63u8])
        } else {
            (s, Seq::empty())
        }
    } else {
        (s, Seq::empty())
    }
}

/// One byte in `Ground`: plain text (with incremental multi-byte decoding),
/// the simple control characters, or the start of an escape sequence. A
/// malformed text byte becomes the replacement character and is dropped.
pub open spec fn spec_step_ground(p: ProcV, s: ScreenV, b: u8) -> (ProcV, ScreenV, Seq<u8>) {
    if p.utf8_rem > 0 {
        if 0x80 <= b < 0xc0 {
            let acc2 = p.utf8_acc * 64 + (b as int) % 64;
            if p.utf8_rem == 1 {
                let cp = if acc2 >= p.utf8_min && !(0xd800 <= acc2 <= 0xdfff) && acc2 <= 0x10ffff {
                    acc2
                } else {
                    0xfffd
                };
                (
                    ProcV { utf8_rem: 0, utf8_acc: 0, utf8_min: 0, ..p },
                    spec_put_char(s, cp as u32),
                    Seq::empty(),
                )
            } else {
                (ProcV { utf8_rem: p.utf8_rem - 1, utf8_acc: acc2, ..p }, s, Seq::empty())
            }
        } else {
            (
                ProcV { utf8_rem: 0, utf8_acc: 0, utf8_min: 0, ..p },
                spec_put_char(s, 0xfffdu32),
                Seq::empty(),
            )
        }
    } else if b == 0x1b {
        (ProcV { state: PState::Escape, ..p }, s, Seq::empty())
    } else if b < 0x20 {
        if b == 0x08 {
            (p, spec_backspace(s), Seq::empty())
        } else if b == 0x09 {
            (p, spec_tab(s), Seq::empty())
        } else if b == 0x0a || b == 0x0b || b == 0x0c {
            (p, spec_linefeed(s), Seq::empty())
        } else if b == 0x0d {
            (p, spec_carriage_return(s), Seq::empty())
        } else {
            (p, s, Seq::empty())
        }
    } else if b < 0x7f {
        (p, spec_put_char(s, b as u32), Seq::empty())
    } else if b == 0x7f {
        (p, s, Seq::empty())
    } else if b < 0xc2 {
        (p, spec_put_char(s, 0xfffdu32), Seq::empty())
    } else if b < 0xe0 {
        (ProcV { utf8_rem: 1, utf8_acc: (b as int) % 32, utf8_min: 0x80, ..p }, s, Seq::empty())
    } else if b < 0xf0 {
        (ProcV { utf8_rem: 2, utf8_acc: (b as int) % 16, utf8_min: 0x800, ..p }, s, Seq::empty())
    } else if b < 0xf5 {
        (ProcV { utf8_rem: 3, utf8_acc: (b as int) % 8, utf8_min: 0x10000, ..p }, s, Seq::empty())
    } else {
        (p, spec_put_char(s, 0xfffdu32), Seq::empty())
    }
}

/// One byte after `ESC`: it introduces a control sequence, performs one of
/// the simple escape actions, or — unrecognized — is consumed without any
/// effect.
pub open spec fn spec_step_escape(p: ProcV, s: ScreenV, b: u8) -> (ProcV, ScreenV, Seq<u8>) {
    if b == 0x5b {
        (spec_to_csi_entry(p), s, Seq::empty())
    } else if b == 0x5d {
        (ProcV { state: PState::OscString, ..p }, s, Seq::empty())
    } else if b == 0x50 {
        (ProcV { state: PState::DcsEntry, ..p }, s, Seq::empty())
    } else if b == 0x58 || b == 0x5e || b == 0x5f {
        (ProcV { state: PState::StIgnore, ..p }, s, Seq::empty())
    } else if b == 0x1b {
        (ProcV { state: PState::Escape, ..p }, s, Seq::empty())
    } else if b == 0x37 {
        (spec_to_ground(p), spec_save_cursor(s), Seq::empty())
    } else if b == 0x38 {
        (spec_to_ground(p), spec_restore_cursor(s), Seq::empty())
    } else if b == 0x44 {
        (spec_to_ground(p), spec_linefeed(s), Seq::empty())
    } else if b == 0x4d {
        (spec_to_ground(p), spec_reverse_index(s), Seq::empty())
    } else {
        (spec_to_ground(p), s, Seq::empty())
    }
}

/// One byte while collecting a CSI sequence: digits and separators extend
/// the parameter list, a final byte dispatches it, and malformed input
/// switches to `CsiIgnore`, which consumes up to the final byte without
/// effect.
pub open spec fn spec_step_csi(p: ProcV, s: ScreenV, b: u8) -> (ProcV, ScreenV, Seq<u8>) {
    if b == 0x1b {
        (ProcV { state: PState::Escape, ..p }, s, Seq::empty())
    } else if b == 0x18 || b == 0x1a {
        (spec_to_ground(p), s, Seq::empty())
    } else if b < 0x20 || b == 0x7f {
        (p, s, Seq::empty())
    } else if 0x40 <= b <= 0x7e {
        if p.state == PState::CsiIgnore {
            (spec_to_ground(p), s, Seq::empty())
        } else {
            let ps = if p.cur_set || p.params.len() > 0 {
                spec_push_param(p.params, p.cur)
            } else {
                p.params
            };
            let d = spec_csi_dispatch(s, p.private, p.inter_seen, ps, b);
            (ProcV { state: PState::Ground, params: ps, ..p }, d.0, d.1)
        }
    } else if p.state == PState::CsiIgnore {
        (p, s, Seq::empty())
    } else if 0x30 <= b <= 0x39 {
        if p.state == PState::CsiIntermediate {
            (ProcV { state: PState::CsiIgnore, ..p }, s, Seq::empty())
        } else {
            (
                ProcV {
                    state: PState::CsiParam,
                    cur: spec_sat10(p.cur, (b - 0x30) as u16),
                    cur_set: true,
                    ..p
                },
                s,
                Seq::empty(),
            )
        }
    } else if b == 0x3b {
        if p.state == PState::CsiIntermediate {
            (ProcV { state: PState::CsiIgnore, ..p }, s, Seq::empty())
        } else {
            (
                ProcV {
                    state: PState::CsiParam,
                    params: spec_push_param(p.params, p.cur),
                    cur: 0,
                    cur_set: false,
                    ..p
                },
                s,
                Seq::empty(),
            )
        }
    } else if b == 0x3a {
        (ProcV { state: PState::CsiIgnore, ..p }, s, Seq::empty())
    } else if 0x3c <= b <= 0x3f {
        if p.state == PState::CsiEntry {
            (ProcV { state: PState::CsiParam, private: true, ..p }, s, Seq::empty())
        } else {
            (ProcV { state: PState::CsiIgnore, ..p }, s, Seq::empty())
        }
    } else {
        (ProcV { state: PState::CsiIntermediate, inter_seen: true, ..p }, s, Seq::empty())
    }
}

/// One byte of an OSC string: the payload is consumed and discarded until
/// `BEL` or `ST` terminates it.
pub open spec fn spec_step_osc(p: ProcV, s: ScreenV, b: u8) -> (ProcV, ScreenV, Seq<u8>) {
    if b == 0x07 {
        (spec_to_ground(p), s, Seq::empty())
    } else if b == 0x1b {
        (ProcV { state: PState::OscEsc, ..p }, s, Seq::empty())
    } else if b == 0x18 || b == 0x1a {
        (spec_to_ground(p), s, Seq::empty())
    } else {
        (p, s, Seq::empty())
    }
}

/// One byte after `ESC` inside a string sequence: `\` terminates the
/// string; anything else aborts it and is handled as after a bare `ESC`.
pub open spec fn spec_step_str_esc(p: ProcV, s: ScreenV, b: u8) -> (ProcV, ScreenV, Seq<u8>) {
    if b == 0x5c {
        (spec_to_ground(p), s, Seq::empty())
    } else {
        spec_step_escape(p, s, b)
    }
}

/// One byte of a device-control string's introduction: a final byte starts
/// the (discarded) passthrough payload.
pub open spec fn spec_step_dcs_entry(p: ProcV, s: ScreenV, b: u8) -> (ProcV, ScreenV, Seq<u8>) {
    if b == 0x1b {
        (ProcV { state: PState::DcsEsc, ..p }, s, Seq::empty())
    } else if b == 0x18 || b == 0x1a {
        (spec_to_ground(p), s, Seq::empty())
    } else if 0x40 <= b <= 0x7e {
        (ProcV { state: PState::DcsPassthrough, ..p }, s, Seq::empty())
    } else {
        (p, s, Seq::empty())
    }
}

/// One byte of a device-control string's payload, consumed and discarded.
pub open spec fn spec_step_dcs_pass(p: ProcV, s: ScreenV, b: u8) -> (ProcV, ScreenV, Seq<u8>) {
    if b == 0x1b {
        (ProcV { state: PState::DcsEsc, ..p }, s, Seq::empty())
    } else if b == 0x18 || b == 0x1a {
        (spec_to_ground(p), s, Seq::empty())
    } else {
        (p, s, Seq::empty())
    }
}

/// One byte of an ignored string sequence (SOS/PM/APC).
pub open spec fn spec_step_st_ignore(p: ProcV, s: ScreenV, b: u8) -> (ProcV, ScreenV, Seq<u8>) {
    if b == 0x1b {
        (ProcV { state: PState::StIgnoreEsc, ..p }, s, Seq::empty())
    } else if b == 0x18 || b == 0x1a {
        (spec_to_ground(p), s, Seq::empty())
    } else {
        (p, s, Seq::empty())
    }
}

/// One byte of input: the decoder's complete transition function. It yields
/// the next decoder state, the next screen, and the response bytes owed to
/// the attached process.
pub open spec fn spec_step(p: ProcV, s: ScreenV, b: u8) -> (ProcV, ScreenV, Seq<u8>) {
    match p.state {
        PState::Ground => spec_step_ground(p, s, b),
        PState::Escape => spec_step_escape(p, s, b),
        PState::CsiEntry => spec_step_csi(p, s, b),
        PState::CsiParam => spec_step_csi(p, s, b),
        PState::CsiIntermediate => spec_step_csi(p, s, b),
        PState::CsiIgnore => spec_step_csi(p, s, b),
        PState::OscString => spec_step_osc(p, s, b),
        PState::OscEsc => spec_step_str_esc(p, s, b),
        PState::DcsEntry => spec_step_dcs_entry(p, s, b),
        PState::DcsPassthrough => spec_step_dcs_pass(p, s, b),
        PState::DcsEsc => spec_step_str_esc(p, s, b),
        PState::StIgnore => spec_step_st_ignore(p, s, b),
        PState::StIgnoreEsc => spec_step_str_esc(p, s, b),
    }
}

/// A whole byte sequence folded through `spec_step`, with the responses of
/// every byte concatenated in order.
pub open spec fn spec_run(p: ProcV, s: ScreenV, bytes: Seq<u8>) -> (ProcV, ScreenV, Seq<u8>)
    decreases bytes.len(),
{
    if bytes.len() == 0 {
        (p, s, Seq::empty())
    } else {
        let first = spec_step(p, s, bytes[0]);
        let rest = spec_run(first.0, first.1, bytes.drop_first());
        (rest.0, rest.1, first.2 + rest.2)
    }
}

/// The decoder state at session start.
pub open spec fn spec_proc_new() -> ProcV {
    ProcV {
        state: PState::Ground,
        params: Seq::empty(),
        cur: 0,
        cur_set: false,
        private: false,
        inter_seen: false,
        utf8_rem: 0,
        utf8_acc: 0,
        utf8_min: 0,
    }
}

/// The byte-at-a-time escape-sequence decoder. It holds the grammar state,
/// the parameters collected so far, and the pending partial multi-byte text
/// decode; all sequence effects go to a `Screen` handed to `advance`.
pub struct Processor {
    pub state: PState,
    pub params: Vec<u16>,
    pub cur: u16,
    pub cur_set: bool,
    pub private: bool,
    pub inter_seen: bool,
    pub utf8_rem: u8,
    pub utf8_acc: u32,
    pub utf8_min: u32,
}

impl View for Processor {
    type V = ProcV;

    open spec fn view(&self) -> ProcV {
        ProcV {
            state: self.state,
            params: self.params@,
            cur: self.cur,
            cur_set: self.cur_set,
            private: self.private,
            inter_seen: self.inter_seen,
            utf8_rem: self.utf8_rem as int,
            utf8_acc: self.utf8_acc as int,
            utf8_min: self.utf8_min as int,
        }
    }
}

/// The `i`-th parameter, or `d` where it was omitted.
fn param_at(params: &Vec<u16>, i: usize, d: u16) -> (r: u16)
    ensures
        r == spec_param_at(params@, i as int, d),
{
    if i < params.len() {
        params[i]
    } else {
        d
    }
}

/// The `i`-th parameter read as a count.
fn count_at(params: &Vec<u16>, i: usize) -> (r: u16)
    ensures
        r == spec_count_at(params@, i as int),
{
    if i < params.len() && params[i] != 0 {
        params[i]
    } else {
        1
    }
}

/// Appends the decimal digits of `n` to `out`.
fn push_dec(out: &mut Vec<u8>, n: usize)
    ensures
        final(out)@ == old(out)@ + spec_dec_repr(n as int),
    decreases n,
{
    if n < 10 {
        out.push(0x30 + n as u8);
        proof {
            assert(out@ =~= old(out)@ + spec_dec_repr(n as int));
        }
    } else {
        push_dec(out, n / 10);
        out.push(0x30 + (n % 10) as u8);
        proof {
            assert(out@ =~= old(out)@ + spec_dec_repr(n as int));
        }
    }
}

/// Applies one private mode parameter to the screen.
fn mode_one(screen: &mut Screen, p: u16, on: bool)
    requires
        old(screen).wf(),
    ensures
        final(screen).wf(),
        final(screen)@ == spec_mode_one(old(screen)@, p as int, on),
{
    if p == 25 {
        screen.set_cursor_visible(on);
    } else if p == 7 {
        screen.set_wrap(on);
    } else if p == 47 || p == 1049 {
        if on {
            screen.enter_alt();
        } else {
            screen.exit_alt();
        }
    }
    proof {
        assert(screen@ =~~= spec_mode_one(old(screen)@, p as int, on));
    }
}

/// Applies a private mode parameter list in order.
fn apply_modes(screen: &mut Screen, params: &Vec<u16>, on: bool)
    requires
        old(screen).wf(),
    ensures
        final(screen).wf(),
        final(screen)@ == spec_modes(old(screen)@, params@, on),
{
    proof {
        assert(params@.skip(0) =~= params@);
    }
    let mut i: usize = 0;
    while i < params.len()
        invariant
            i <= params@.len(),
            screen.wf(),
            spec_modes(old(screen)@, params@, on) == spec_modes(screen@, params@.skip(i as int), on),
        decreases params@.len() - i,
    {
        mode_one(screen, params[i], on);
        i = i + 1;
        proof {
            assert(params@.skip(i - 1)[0] == params@[i - 1]);
            assert(params@.skip(i - 1).drop_first() =~= params@.skip(i as int));
        }
    }
    proof {
        assert(params@.skip(params@.len() as int) =~= Seq::<u16>::empty());
    }
}

/// Applies a complete CSI sequence to the screen and returns the response
/// bytes it owes.
fn csi_dispatch(screen: &mut Screen, private: bool, inter_seen: bool, params: &Vec<u16>, fb: u8)
    -> (out: Vec<u8>)
    requires
        old(screen).wf(),
    ensures
        final(screen).wf(),
        final(screen)@ == spec_csi_dispatch(old(screen)@, private, inter_seen, params@, fb).0,
        out@ == spec_csi_dispatch(old(screen)@, private, inter_seen, params@, fb).1,
{
    let mut out: Vec<u8> = Vec::new();
    if inter_seen {
        return out;
    }
    if private {
        if fb == 0x68 {
            apply_modes(screen, params, true);
        } else if fb == 0x6c {
            apply_modes(screen, params, false);
        }
        return out;
    }
    let n0 = count_at(params, 0);
    let n1 = count_at(params, 1);
    let r0 = param_at(params, 0, 0);
    if fb == 0x41 {
        screen.cursor_up(n0 as usize);
    } else if fb == 0x42 {
        screen.cursor_down(n0 as usize);
    } else if fb == 0x43 {
        screen.cursor_forward(n0 as usize);
    } else if fb == 0x44 {
        screen.cursor_back(n0 as usize);
    } else if fb == 0x45 {
        screen.cursor_down(n0 as usize);
        screen.carriage_return();
    } else if fb == 0x46 {
        screen.cursor_up(n0 as usize);
        screen.carriage_return();
    } else if fb == 0x47 {
        let r = screen.cursor_row;
        screen.goto(r, (n0 - 1) as usize);
    } else if fb == 0x64 {
        let c = screen.cursor_col;
        screen.goto((n0 - 1) as usize, c);
    } else if fb == 0x48 || fb == 0x66 {
        screen.goto((n0 - 1) as usize, (n1 - 1) as usize);
    } else if fb == 0x4a {
        screen.erase_screen(r0);
    } else if fb == 0x4b {
        screen.erase_line(r0);
    } else if fb == 0x6d {
        if params.len() == 0 {
            let mut one: Vec<u16> = Vec::new();
            one.push(0);
            screen.apply_sgr(&one);
            proof {
                assert(one@ =~= seq![0u16]);
            }
        } else {
            screen.apply_sgr(params);
        }
    } else if fb == 0x72 {
        let b1 = param_at(params, 1, 0);
        let bot = if b1 == 0 {
            screen.height
        } else {
            b1 as usize
        };
        screen.set_scroll_region((n0 - 1) as usize, bot);
    } else if fb == 0x53 {
        screen.scroll_up(n0 as usize);
    } else if fb == 0x54 {
        screen.scroll_down(n0 as usize);
    } else if fb == 0x73 {
        screen.save_cursor();
    } else if fb == 0x75 {
        screen.restore_cursor();
    } else if fb == 0x6e {
        if r0 == 6 {
            out.push(0x1b);
            out.push(0x5b);
            push_dec(&mut out, screen.cursor_row + 1);
            out.push(0x3b);
            push_dec(&mut out, screen.cursor_col + 1);
            out.push(0x52);
            proof {
                assert(out@ =~= spec_cpr(screen@));
            }
        } else if r0 == 5 {
            out.push(0x1b);
            out.push(0x5b);
            out.push(0x30);
            out.push(0x6e);
            proof {
                assert(out@ =~= seq![0x1bu8, 0x5bu8, 0x30u8, 0x6eu8]);
            }
        }
    } else if fb == 0x63 {
        if r0 == 0 {
            out.push(0x1b);
            out.push(0x5b);
            out.push(0x3f);
            out.push(0x36);
            out.push(0x63);
            proof {
                assert(out@ =~= seq![0x1bu8, 0x5bu8, 0x3fu8, 0x36u8, 0x63u8]);
            }
        }
    }
    out
}

impl Processor {
    /// Well-formedness of the decoder's accumulation bounds.
    pub open spec fn wf(&self) -> bool {
        self@.wf()
    }

    /// A fresh decoder in `Ground`.
    pub fn new() -> (p: Processor)
        ensures
            p@ == spec_proc_new(),
            p.wf(),
    {
        let p = Processor {
            state: PState::Ground,
            params: Vec::new(),
            cur: 0,
            cur_set: false,
            private: false,
            inter_seen: false,
            utf8_rem: 0,
            utf8_acc: 0,
            utf8_min: 0,
        };
        proof {
            assert(p@ =~~= spec_proc_new());
        }
        p
    }

    /// One byte in `Ground`.
    fn step_ground(&mut self, screen: &mut Screen, b: u8) -> (out: Vec<u8>)
        requires
            old(self).wf(),
            old(screen).wf(),
        ensures
            final(self).wf(),
            final(screen).wf(),
            final(self)@ == spec_step_ground(old(self)@, old(screen)@, b).0,
            final(screen)@ == spec_step_ground(old(self)@, old(screen)@, b).1,
            out@ == spec_step_ground(old(self)@, old(screen)@, b).2,
    {
        if self.utf8_rem > 0 {
            if 0x80 <= b && b < 0xc0 {
                let acc2: u32 = self.utf8_acc * 64 + (b % 64) as u32;
                if self.utf8_rem == 1 {
                    let cp: u32 = if acc2 >= self.utf8_min && !(0xd800 <= acc2 && acc2 <= 0xdfff)
                        && acc2 <= 0x10ffff {
                        acc2
                    } else {
                        0xfffd
                    };
                    self.utf8_rem = 0;
                    self.utf8_acc = 0;
                    self.utf8_min = 0;
                    screen.put_char(cp);
                } else {
                    self.utf8_rem = self.utf8_rem - 1;
                    self.utf8_acc = acc2;
                }
            } else {
                self.utf8_rem = 0;
                self.utf8_acc = 0;
                self.utf8_min = 0;
                screen.put_char(0xfffd);
            }
        } else if b == 0x1b {
            self.state = PState::Escape;
        } else if b < 0x20 {
            if b == 0x08 {
                screen.backspace();
            } else if b == 0x09 {
                screen.tab();
            } else if b == 0x0a || b == 0x0b || b == 0x0c {
                screen.linefeed();
            } else if b == 0x0d {
                screen.carriage_return();
            }
        } else if b < 0x7f {
            screen.put_char(b as u32);
        } else if b == 0x7f {
        } else if b < 0xc2 {
            screen.put_char(0xfffd);
        } else if b < 0xe0 {
            self.utf8_rem = 1;
            self.utf8_acc = (b % 32) as u32;
            self.utf8_min = 0x80;
        } else if b < 0xf0 {
            self.utf8_rem = 2;
            self.utf8_acc = (b % 16) as u32;
            self.utf8_min = 0x800;
        } else if b < 0xf5 {
            self.utf8_rem = 3;
            self.utf8_acc = (b % 8) as u32;
            self.utf8_min = 0x10000;
        } else {
            screen.put_char(0xfffd);
        }
        proof {
            assert(self@ =~~= spec_step_ground(old(self)@, old(screen)@, b).0);
            assert(screen@ =~~= spec_step_ground(old(self)@, old(screen)@, b).1);
        }
        Vec::new()
    }

    /// One byte after `ESC`.
    fn step_escape(&mut self, screen: &mut Screen, b: u8) -> (out: Vec<u8>)
        requires
            old(self).wf(),
            old(screen).wf(),
        ensures
            final(self).wf(),
            final(screen).wf(),
            final(self)@ == spec_step_escape(old(self)@, old(screen)@, b).0,
            final(screen)@ == spec_step_escape(old(self)@, old(screen)@, b).1,
            out@ == spec_step_escape(old(self)@, old(screen)@, b).2,
    {
        if b == 0x5b {
            self.state = PState::CsiEntry;
            self.params = Vec::new();
            self.cur = 0;
            self.cur_set = false;
            self.private = false;
            self.inter_seen = false;
        } else if b == 0x5d {
            self.state = PState::OscString;
        } else if b == 0x50 {
            self.state = PState::DcsEntry;
        } else if b == 0x58 || b == 0x5e || b == 0x5f {
            self.state = PState::StIgnore;
        } else if b == 0x1b {
            self.state = PState::Escape;
        } else if b == 0x37 {
            self.state = PState::Ground;
            screen.save_cursor();
        } else if b == 0x38 {
            self.state = PState::Ground;
            screen.restore_cursor();
        } else if b == 0x44 {
            self.state = PState::Ground;
            screen.linefeed();
        } else if b == 0x4d {
            self.state = PState::Ground;
            screen.reverse_index();
        } else {
            self.state = PState::Ground;
        }
        proof {
            assert(self@ =~~= spec_step_escape(old(self)@, old(screen)@, b).0);
            assert(screen@ =~~= spec_step_escape(old(self)@, old(screen)@, b).1);
        }
        Vec::new()
    }

    /// One byte while collecting a CSI sequence.
    fn step_csi(&mut self, screen: &mut Screen, b: u8) -> (out: Vec<u8>)
        requires
            old(self).wf(),
            old(screen).wf(),
        ensures
            final(self).wf(),
            final(screen).wf(),
            final(self)@ == spec_step_csi(old(self)@, old(screen)@, b).0,
            final(screen)@ == spec_step_csi(old(self)@, old(screen)@, b).1,
            out@ == spec_step_csi(old(self)@, old(screen)@, b).2,
    {
        if b == 0x1b {
            self.state = PState::Escape;
        } else if b == 0x18 || b == 0x1a {
            self.state = PState::Ground;
        } else if b < 0x20 || b == 0x7f {
        } else if 0x40 <= b && b <= 0x7e {
            if self.state == PState::CsiIgnore {
                self.state = PState::Ground;
            } else {
                if self.cur_set || self.params.len() > 0 {
                    if self.params.len() < 16 {
                        self.params.push(self.cur);
                    }
                }
                let out = csi_dispatch(screen, self.private, self.inter_seen, &self.params, b);
                self.state = PState::Ground;
                proof {
                    assert(self@ =~~= spec_step_csi(old(self)@, old(screen)@, b).0);
                }
                return out;
            }
        } else if self.state == PState::CsiIgnore {
        } else if 0x30 <= b && b <= 0x39 {
            if self.state == PState::CsiIntermediate {
                self.state = PState::CsiIgnore;
            } else {
                let v: u32 = self.cur as u32 * 10 + (b - 0x30) as u32;
                self.cur = if v > 65535 {
                    65535
                } else {
                    v as u16
                };
                self.cur_set = true;
                self.state = PState::CsiParam;
            }
        } else if b == 0x3b {
            if self.state == PState::CsiIntermediate {
                self.state = PState::CsiIgnore;
            } else {
                if self.params.len() < 16 {
                    self.params.push(self.cur);
                }
                self.cur = 0;
                self.cur_set = false;
                self.state = PState::CsiParam;
            }
        } else if b == 0x3a {
            self.state = PState::CsiIgnore;
        } else if 0x3c <= b && b <= 0x3f {
            if self.state == PState::CsiEntry {
                self.private = true;
                self.state = PState::CsiParam;
            } else {
                self.state = PState::CsiIgnore;
            }
        } else {
            self.inter_seen = true;
            self.state = PState::CsiIntermediate;
        }
        proof {
            assert(self@ =~~= spec_step_csi(old(self)@, old(screen)@, b).0);
            assert(screen@ =~~= spec_step_csi(old(self)@, old(screen)@, b).1);
        }
        Vec::new()
    }

    /// One byte of an OSC string.
    fn step_osc(&mut self, screen: &mut Screen, b: u8) -> (out: Vec<u8>)
        requires
            old(self).wf(),
            old(screen).wf(),
        ensures
            final(self).wf(),
            final(screen).wf(),
            final(self)@ == spec_step_osc(old(self)@, old(screen)@, b).0,
            final(screen)@ == spec_step_osc(old(self)@, old(screen)@, b).1,
            out@ == spec_step_osc(old(self)@, old(screen)@, b).2,
    {
        if b == 0x07 {
            self.state = PState::Ground;
        } else if b == 0x1b {
            self.state = PState::OscEsc;
        } else if b == 0x18 || b == 0x1a {
            self.state = PState::Ground;
        }
        proof {
            assert(self@ =~~= spec_step_osc(old(self)@, old(screen)@, b).0);
        }
        Vec::new()
    }

    /// One byte after `ESC` inside a string sequence.
    fn step_str_esc(&mut self, screen: &mut Screen, b: u8) -> (out: Vec<u8>)
        requires
            old(self).wf(),
            old(screen).wf(),
        ensures
            final(self).wf(),
            final(screen).wf(),
            final(self)@ == spec_step_str_esc(old(self)@, old(screen)@, b).0,
            final(screen)@ == spec_step_str_esc(old(self)@, old(screen)@, b).1,
            out@ == spec_step_str_esc(old(self)@, old(screen)@, b).2,
    {
        if b == 0x5c {
            self.state = PState::Ground;
            proof {
                assert(self@ =~~= spec_step_str_esc(old(self)@, old(screen)@, b).0);
            }
            Vec::new()
        } else {
            self.step_escape(screen, b)
        }
    }

    /// One byte of a device-control string's introduction.
    fn step_dcs_entry(&mut self, screen: &mut Screen, b: u8) -> (out: Vec<u8>)
        requires
            old(self).wf(),
            old(screen).wf(),
        ensures
            final(self).wf(),
            final(screen).wf(),
            final(self)@ == spec_step_dcs_entry(old(self)@, old(screen)@, b).0,
            final(screen)@ == spec_step_dcs_entry(old(self)@, old(screen)@, b).1,
            out@ == spec_step_dcs_entry(old(self)@, old(screen)@, b).2,
    {
        if b == 0x1b {
            self.state = PState::DcsEsc;
        } else if b == 0x18 || b == 0x1a {
            self.state = PState::Ground;
        } else if 0x40 <= b && b <= 0x7e {
            self.state = PState::DcsPassthrough;
        }
        proof {
            assert(self@ =~~= spec_step_dcs_entry(old(self)@, old(screen)@, b).0);
        }
        Vec::new()
    }

    /// One byte of a device-control string's payload.
    fn step_dcs_pass(&mut self, screen: &mut Screen, b: u8) -> (out: Vec<u8>)
        requires
            old(self).wf(),
            old(screen).wf(),
        ensures
            final(self).wf(),
            final(screen).wf(),
            final(self)@ == spec_step_dcs_pass(old(self)@, old(screen)@, b).0,
            final(screen)@ == spec_step_dcs_pass(old(self)@, old(screen)@, b).1,
            out@ == spec_step_dcs_pass(old(self)@, old(screen)@, b).2,
    {
        if b == 0x1b {
            self.state = PState::DcsEsc;
        } else if b == 0x18 || b == 0x1a {
            self.state = PState::Ground;
        }
        proof {
            assert(self@ =~~= spec_step_dcs_pass(old(self)@, old(screen)@, b).0);
        }
        Vec::new()
    }

    /// One byte of an ignored string sequence.
    fn step_st_ignore(&mut self, screen: &mut Screen, b: u8) -> (out: Vec<u8>)
        requires
            old(self).wf(),
            old(screen).wf(),
        ensures
            final(self).wf(),
            final(screen).wf(),
            final(self)@ == spec_step_st_ignore(old(self)@, old(screen)@, b).0,
            final(screen)@ == spec_step_st_ignore(old(self)@, old(screen)@, b).1,
            out@ == spec_step_st_ignore(old(self)@, old(screen)@, b).2,
    {
        if b == 0x1b {
            self.state = PState::StIgnoreEsc;
        } else if b == 0x18 || b == 0x1a {
            self.state = PState::Ground;
        }
        proof {
            assert(self@ =~~= spec_step_st_ignore(old(self)@, old(screen)@, b).0);
        }
        Vec::new()
    }

    /// Advances the decoder by one byte, mutating the screen and returning
    /// the response bytes owed to the attached process — exactly the
    /// transition `spec_step` describes.
    pub fn advance(&mut self, screen: &mut Screen, b: u8) -> (out: Vec<u8>)
        requires
            old(self).wf(),
            old(screen).wf(),
        ensures
            final(self).wf(),
            final(screen).wf(),
            final(self)@ == spec_step(old(self)@, old(screen)@, b).0,
            final(screen)@ == spec_step(old(self)@, old(screen)@, b).1,
            out@ == spec_step(old(self)@, old(screen)@, b).2,
    {
        match self.state {
            PState::Ground => self.step_ground(screen, b),
            PState::Escape => self.step_escape(screen, b),
            PState::CsiEntry => self.step_csi(screen, b),
            PState::CsiParam => self.step_csi(screen, b),
            PState::CsiIntermediate => self.step_csi(screen, b),
            PState::CsiIgnore => self.step_csi(screen, b),
            PState::OscString => self.step_osc(screen, b),
            PState::OscEsc => self.step_str_esc(screen, b),
            PState::DcsEntry => self.step_dcs_entry(screen, b),
            PState::DcsPassthrough => self.step_dcs_pass(screen, b),
            PState::DcsEsc => self.step_str_esc(screen, b),
            PState::StIgnore => self.step_st_ignore(screen, b),
            PState::StIgnoreEsc => self.step_str_esc(screen, b),
        }
    }

    /// Feeds a whole buffer byte by byte, concatenating all response bytes.
    /// Buffer boundaries are hand-off artifacts only: the decoder state
    /// carries across calls.
    pub fn process_bytes(&mut self, screen: &mut Screen, bytes: &[u8]) -> (out: Vec<u8>)
        requires
            old(self).wf(),
            old(screen).wf(),
        ensures
            final(self).wf(),
            final(screen).wf(),
            final(self)@ == spec_run(old(self)@, old(screen)@, bytes@).0,
            final(screen)@ == spec_run(old(self)@, old(screen)@, bytes@).1,
            out@ == spec_run(old(self)@, old(screen)@, bytes@).2,
    {
        let mut out: Vec<u8> = Vec::new();
        let mut i: usize = 0;
        proof {
            assert(bytes@.skip(0) =~= bytes@);
        }
        while i < bytes.len()
            invariant
                i <= bytes@.len(),
                self.wf(),
                screen.wf(),
                spec_run(old(self)@, old(screen)@, bytes@).0
                    == spec_run(self@, screen@, bytes@.skip(i as int)).0,
                spec_run(old(self)@, old(screen)@, bytes@).1
                    == spec_run(self@, screen@, bytes@.skip(i as int)).1,
                spec_run(old(self)@, old(screen)@, bytes@).2
                    == out@ + spec_run(self@, screen@, bytes@.skip(i as int)).2,
            decreases bytes@.len() - i,
        {
            let ghost pre_p = self@;
            let ghost pre_s = screen@;
            let ghost pre_out = out@;
            let mut resp = self.advance(screen, bytes[i]);
            out.append(&mut resp);
            i = i + 1;
            proof {
                assert(bytes@.skip(i - 1)[0] == bytes@[i - 1]);
                assert(bytes@.skip(i - 1).drop_first() =~= bytes@.skip(i as int));
                assert(spec_run(pre_p, pre_s, bytes@.skip(i - 1)).2
                    == spec_step(pre_p, pre_s, bytes@[i - 1]).2
                        + spec_run(self@, screen@, bytes@.skip(i as int)).2);
                assert(pre_out + spec_run(pre_p, pre_s, bytes@.skip(i - 1)).2
                    =~= out@ + spec_run(self@, screen@, bytes@.skip(i as int)).2);
            }
        }
        proof {
            assert(bytes@.skip(bytes@.len() as int) =~= Seq::<u8>::empty());
            assert(out@ + spec_run(self@, screen@, Seq::<u8>::empty()).2 =~= out@);
        }
        out
    }
}

} // verus!
