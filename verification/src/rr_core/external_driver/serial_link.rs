//! What a serial link thread sends: the frame of a packet, and the smoothing
//! that moves the sent values toward the requested ones step by step.
use vstd::prelude::*;
use vstd::string::*;
use crate::interface::Packet;
use crate::text::{int_text, push_int};

verus! {

/// The value put on the wire for a packet value: a tenth of it, rounded toward
/// zero, plus ten.
pub open spec fn wire_value(v: int) -> int {
    (if v >= 0 { v / 10 } else { -((-v) / 10) }) + 10
}

/// The frame written to the port for a packet: `s`, the wire values of x, y,
/// ro and m1 (and m2 unless the small packet is in use) separated by commas,
/// then `e`.
pub open spec fn frame_text(p: Packet, small_packet: bool) -> Seq<char> {
    let head = seq!['s'] + int_text(wire_value(p.x as int)) + seq![','] + int_text(
        wire_value(p.y as int),
    ) + seq![','] + int_text(wire_value(p.ro as int)) + seq![','] + int_text(
        wire_value(p.m1 as int),
    );
    if small_packet {
        head + seq!['e']
    } else {
        head + seq![','] + int_text(wire_value(p.m2 as int)) + seq!['e']
    }
}

fn wire(v: i32) -> (w: i32)
    ensures
        w == wire_value(v as int),
{
    v / 10 + 10
}

/// The frame that carries `packet` over the serial line.
pub fn serial_frame(packet: &Packet, small_packet: bool) -> (frame: String)
    ensures
        frame@ == frame_text(*packet, small_packet),
{
    let mut frame = String::from_str("s");
    push_int(&mut frame, wire(packet.x) as i64);
    frame.append(",");
    push_int(&mut frame, wire(packet.y) as i64);
    frame.append(",");
    push_int(&mut frame, wire(packet.ro) as i64);
    frame.append(",");
    push_int(&mut frame, wire(packet.m1) as i64);
    if !small_packet {
        frame.append(",");
        push_int(&mut frame, wire(packet.m2) as i64);
    }
    frame.append("e");
    proof {
        reveal_strlit("s");
        reveal_strlit(",");
        reveal_strlit("e");
        assert(frame@ =~= frame_text(*packet, small_packet));
    }
    frame
}

/// The packet a plain link sends: the one received, or ten on every value when
/// nothing could be received.
pub open spec fn plain_packet(received: Option<Packet>) -> Packet {
    match received {
        Some(p) => p,
        None => Packet { x: 10, y: 10, ro: 10, m1: 10, m2: 10 },
    }
}

/// One round of a plain link: the frame to write for what was received.
pub fn plain_step(received: Option<Packet>, small_packet: bool) -> (frame: String)
    ensures
        frame@ == frame_text(plain_packet(received), small_packet),
{
    let packet = match received {
        Some(p) => p,
        None => Packet { x: 10, y: 10, ro: 10, m1: 10, m2: 10 },
    };
    serial_frame(&packet, small_packet)
}

/// The packet a smoothing link aims at: the one received, or zero on every
/// value when nothing could be received.
pub open spec fn smooth_target(received: Option<Packet>) -> Packet {
    match received {
        Some(p) => p,
        None => Packet { x: 0, y: 0, ro: 0, m1: 0, m2: 0 },
    }
}

/// One axis of a smoothing step: `send` moves by `gain` in the direction in
/// which `target` lies from `history`, and stays when they are equal.
pub open spec fn smooth_axis(send: int, history: int, target: int, gain: int) -> int {
    if target - history > 0 {
        send + gain
    } else if target - history < 0 {
        send - gain
    } else {
        send
    }
}

/// Whether one axis of a smoothing step stays within `i32`.
pub open spec fn axis_in_range(send: i32, history: i32, target: i32, gain: i32) -> bool {
    &&& i32::MIN <= target - history <= i32::MAX
    &&& i32::MIN <= smooth_axis(send as int, history as int, target as int, gain as int)
        <= i32::MAX
}

/// The packet sent after one smoothing step.
pub open spec fn smoothed(send: Packet, history: Packet, target: Packet, gain: i32) -> Packet {
    Packet {
        x: smooth_axis(send.x as int, history.x as int, target.x as int, gain as int) as i32,
        y: smooth_axis(send.y as int, history.y as int, target.y as int, gain as int) as i32,
        ro: smooth_axis(send.ro as int, history.ro as int, target.ro as int, gain as int) as i32,
        m1: smooth_axis(send.m1 as int, history.m1 as int, target.m1 as int, gain as int) as i32,
        m2: smooth_axis(send.m2 as int, history.m2 as int, target.m2 as int, gain as int) as i32,
    }
}

/// Whether a whole smoothing step stays within `i32`.
pub open spec fn step_in_range(send: Packet, history: Packet, target: Packet, gain: i32) -> bool {
    &&& axis_in_range(send.x, history.x, target.x, gain)
    &&& axis_in_range(send.y, history.y, target.y, gain)
    &&& axis_in_range(send.ro, history.ro, target.ro, gain)
    &&& axis_in_range(send.m1, history.m1, target.m1, gain)
    &&& axis_in_range(send.m2, history.m2, target.m2, gain)
}

fn step_axis(send: i32, history: i32, target: i32, gain: i32) -> (next: i32)
    requires
        axis_in_range(send, history, target, gain),
    ensures
        next == smooth_axis(send as int, history as int, target as int, gain as int),
{
    let diff = target - history;
    if diff > 0 {
        send + gain
    } else if diff < 0 {
        send - gain
    } else {
        send
    }
}

fn axis_fits(send: i32, history: i32, target: i32, gain: i32) -> (fits: bool)
    ensures
        fits == axis_in_range(send, history, target, gain),
{
    let diff: i64 = target as i64 - history as i64;
    if diff < i32::MIN as i64 || diff > i32::MAX as i64 {
        return false;
    }
    let next: i64 = if diff > 0 {
        send as i64 + gain as i64
    } else if diff < 0 {
        send as i64 - gain as i64
    } else {
        send as i64
    };
    i32::MIN as i64 <= next && next <= i32::MAX as i64
}

/// The state of a smoothing link: the packet last sent, and the one the next
/// step measures the direction from.
pub struct SmoothLink {
    pub send: Packet,
    pub history: Packet,
}

impl SmoothLink {
    /// A link that starts from a hundred on every value.
    pub fn new() -> (link: SmoothLink)
        ensures
            link.send == (Packet { x: 100, y: 100, ro: 100, m1: 100, m2: 100 }),
            link.history == link.send,
    {
        let start = Packet { x: 100, y: 100, ro: 100, m1: 100, m2: 100 };
        SmoothLink { send: start, history: start }
    }

    /// One round of a smoothing link: moves the sent packet one step toward
    /// what was received, returns the frame to write for it, and remembers it.
    pub fn step(&mut self, received: Option<Packet>, smooth_value: i32, small_packet: bool) -> (frame: String)
        requires
            step_in_range(old(self).send, old(self).history, smooth_target(received), smooth_value),
        ensures
            final(self).send == smoothed(old(self).send, old(self).history, smooth_target(received), smooth_value),
            final(self).history == final(self).send,
            frame@ == frame_text(final(self).send, small_packet),
    {
        let target = match received {
            Some(p) => p,
            None => Packet { x: 0, y: 0, ro: 0, m1: 0, m2: 0 },
        };
        let send = Packet {
            x: step_axis(self.send.x, self.history.x, target.x, smooth_value),
            y: step_axis(self.send.y, self.history.y, target.y, smooth_value),
            ro: step_axis(self.send.ro, self.history.ro, target.ro, smooth_value),
            m1: step_axis(self.send.m1, self.history.m1, target.m1, smooth_value),
            m2: step_axis(self.send.m2, self.history.m2, target.m2, smooth_value),
        };
        let frame = serial_frame(&send, small_packet);
        self.send = send;
        self.history = send;
        frame
    }

    /// One round of a smoothing link when every value stays within `i32`, as
    /// [`SmoothLink::step`]; `None`, with the link unchanged, when one would not.
    pub fn try_step(&mut self, received: Option<Packet>, smooth_value: i32, small_packet: bool) -> (frame: Option<String>)
        ensures
            frame is None <==> !step_in_range(old(self).send, old(self).history, smooth_target(received), smooth_value),
            frame is None ==> *final(self) == *old(self),
            frame matches Some(f) ==> {
                &&& final(self).send == smoothed(old(self).send, old(self).history, smooth_target(received), smooth_value)
                &&& final(self).history == final(self).send
                &&& f@ == frame_text(final(self).send, small_packet)
            },
    {
        let target = match received {
            Some(p) => p,
            None => Packet { x: 0, y: 0, ro: 0, m1: 0, m2: 0 },
        };
        let fits = axis_fits(self.send.x, self.history.x, target.x, smooth_value)
            && axis_fits(self.send.y, self.history.y, target.y, smooth_value)
            && axis_fits(self.send.ro, self.history.ro, target.ro, smooth_value)
            && axis_fits(self.send.m1, self.history.m1, target.m1, smooth_value)
            && axis_fits(self.send.m2, self.history.m2, target.m2, smooth_value);
        if fits {
            Some(self.step(received, smooth_value, small_packet))
        } else {
            None
        }
    }
}

/// One axis after `n` smoothing rounds toward a fixed `target`, starting from
/// `cur`, each round measuring the direction from the value last sent.
pub open spec fn settle_axis(cur: int, target: int, gain: int, n: nat) -> int
    decreases n,
{
    if n == 0 {
        cur
    } else {
        settle_axis(smooth_axis(cur, cur, target, gain), target, gain, (n - 1) as nat)
    }
}

/// Law: with a positive gain, as long as the target is not passed, every round
/// brings an axis exactly `gain` closer to a fixed target.
pub proof fn smoothing_approaches_target(cur: int, target: int, gain: int, n: nat)
    requires
        gain > 0,
        n * gain <= (if target >= cur { target - cur } else { cur - target }),
    ensures
        settle_axis(cur, target, gain, n) == (if target >= cur {
            cur + n * gain
        } else {
            cur - n * gain
        }),
    decreases n,
{
    if n > 0 {
        let m = (n - 1) as nat;
        assert(n * gain == m * gain + gain) by (nonlinear_arith)
            requires
                m == n - 1,
        ;
        assert(m * gain >= 0) by (nonlinear_arith)
            requires
                gain > 0,
        ;
        let next = smooth_axis(cur, cur, target, gain);
        assert(target != cur);
        if target > cur {
            assert(next == cur + gain);
        } else {
            assert(next == cur - gain);
        }
        smoothing_approaches_target(next, target, gain, m);
    } else {
        assert(n * gain == 0) by (nonlinear_arith)
            requires
                n == 0,
        ;
    }
}

/// Law: an axis that has reached its target stays there, round after round.
pub proof fn smoothing_holds_at_target(target: int, gain: int, n: nat)
    ensures
        settle_axis(target, target, gain, n) == target,
    decreases n,
{
    if n > 0 {
        smoothing_holds_at_target(target, gain, (n - 1) as nat);
    }
}

proof fn settle_axis_split(cur: int, target: int, gain: int, a: nat, b: nat)
    ensures
        settle_axis(cur, target, gain, a + b) == settle_axis(
            settle_axis(cur, target, gain, a),
            target,
            gain,
            b,
        ),
    decreases a,
{
    if a > 0 {
        settle_axis_split(smooth_axis(cur, cur, target, gain), target, gain, (a - 1) as nat, b);
        assert((a + b - 1) as nat == ((a - 1) as nat + b) as nat);
    }
}

/// Law: with a gain of one, an axis reaches a fixed target after as many
/// rounds as it is away from it, and never leaves it afterwards.
pub proof fn unit_gain_settles(cur: int, target: int, extra: nat)
    ensures
        settle_axis(
            cur,
            target,
            1,
            (if target >= cur { target - cur } else { cur - target }) as nat + extra,
        ) == target,
{
    let k = (if target >= cur { target - cur } else { cur - target }) as nat;
    smoothing_approaches_target(cur, target, 1, k);
    settle_axis_split(cur, target, 1, k, extra);
    smoothing_holds_at_target(target, 1, extra);
}

/// Law: the value on the wire is a tenth of the packet value rounded toward
/// zero, plus ten.
pub proof fn wire_value_is_tenth_toward_zero(v: int)
    ensures
        v >= 0 ==> 10 * (wire_value(v) - 10) <= v < 10 * (wire_value(v) - 10) + 10,
        v < 0 ==> 10 * (wire_value(v) - 10) - 10 < v <= 10 * (wire_value(v) - 10),
{
}

/// Law: the small frame carries x, y, ro and m1 in that order, and the full
/// frame is the small one with `,` and the wire value of m2 before its `e`.
pub proof fn small_frame_is_full_frame_without_m2(p: Packet)
    ensures
        frame_text(p, true) == seq!['s'] + int_text(wire_value(p.x as int)) + seq![',']
            + int_text(wire_value(p.y as int)) + seq![','] + int_text(wire_value(p.ro as int))
            + seq![','] + int_text(wire_value(p.m1 as int)) + seq!['e'],
        frame_text(p, false) == frame_text(p, true).drop_last() + seq![','] + int_text(
            wire_value(p.m2 as int),
        ) + seq!['e'],
{
    assert(frame_text(p, false) =~= frame_text(p, true).drop_last() + seq![','] + int_text(
        wire_value(p.m2 as int),
    ) + seq!['e']);
}

/// Law: a link sends a received packet as it is; only when nothing was
/// received does a plain link fall back to ten and a smoothing link aim at zero.
pub proof fn links_take_received_packet(p: Packet)
    ensures
        plain_packet(Some(p)) == p,
        plain_packet(None) == (Packet { x: 10, y: 10, ro: 10, m1: 10, m2: 10 }),
        smooth_target(Some(p)) == p,
        smooth_target(None) == (Packet { x: 0, y: 0, ro: 0, m1: 0, m2: 0 }),
{
}

/// Law: in one smoothing step every value moves by exactly the gain toward
/// the target as seen from the history, however near or far the target is,
/// and stays where the target equals the history.
pub proof fn smoothing_moves_by_gain(send: Packet, history: Packet, target: Packet, gain: i32)
    requires
        step_in_range(send, history, target, gain),
    ensures
        ({
            let n = smoothed(send, history, target, gain);
            &&& (target.x > history.x ==> n.x == send.x + gain)
            &&& (target.x < history.x ==> n.x == send.x - gain)
            &&& (target.x == history.x ==> n.x == send.x)
            &&& (target.y > history.y ==> n.y == send.y + gain)
            &&& (target.y < history.y ==> n.y == send.y - gain)
            &&& (target.y == history.y ==> n.y == send.y)
            &&& (target.ro > history.ro ==> n.ro == send.ro + gain)
            &&& (target.ro < history.ro ==> n.ro == send.ro - gain)
            &&& (target.ro == history.ro ==> n.ro == send.ro)
            &&& (target.m1 > history.m1 ==> n.m1 == send.m1 + gain)
            &&& (target.m1 < history.m1 ==> n.m1 == send.m1 - gain)
            &&& (target.m1 == history.m1 ==> n.m1 == send.m1)
            &&& (target.m2 > history.m2 ==> n.m2 == send.m2 + gain)
            &&& (target.m2 < history.m2 ==> n.m2 == send.m2 - gain)
            &&& (target.m2 == history.m2 ==> n.m2 == send.m2)
        }),
{
}

} // verus!
