use vstd::prelude::*;

verus! {

// Angles are held in microradians. The mouse sensitivity is held in units of
// 1e-8, and mouse motion in thousandths of a device count: the turn for a
// motion of `d` thousandths in a window whose smaller side has `scale` pixels
// is `sensitivity * 1e-8 * d * 1e-3 * scale` degrees.

/// Largest pitch magnitude, in microradians (1.54 rad, about 88 degrees).
pub const PITCH_LIMIT: i64 = 1_540_000;

/// Pi, scaled by 1e9 and rounded.
pub const PI_NANO: u128 = 3_141_592_654;

/// Divisor that takes `sensitivity * d * scale * PI_NANO` to microradians:
/// 180 degrees per pi, times 1e8 sensitivity units, times 1e3 thousandths of a
/// count, times 1e9 / 1e6 for the scaling of `PI_NANO` against the
/// microradian.
pub const TURN_DEN: u128 = 18_000_000_000_000_000;

/// A bound on the magnitude of any one turn (2^80 microradians).
pub const TURN_BOUND: i128 = 0x1_0000_0000_0000_0000_0000;

/// Largest yaw magnitude that a read of the motion log starts from (2^126
/// microradians): the yaw is unbounded, but must fit its integer type.
pub const YAW_LIMIT: i128 = 0x4000_0000_0000_0000_0000_0000_0000_0000;

/// Most motion events that one read of the log takes in.
pub const MAX_NEW_EVENTS: usize = 2_147_483_648;

/// A relative mouse motion, in thousandths of a device count.
#[derive(Clone, Copy, Debug, PartialEq, Eq, Structural)]
pub struct MotionDelta {
    pub dx: i32,
    pub dy: i32,
}

pub open spec fn abs(x: int) -> nat {
    if x < 0 {
        (-x) as nat
    } else {
        x as nat
    }
}

pub open spec fn clamp_pitch(p: int) -> int {
    if p < -PITCH_LIMIT {
        -PITCH_LIMIT as int
    } else if p > PITCH_LIMIT {
        PITCH_LIMIT as int
    } else {
        p
    }
}

/// The turn, in microradians, for a motion of `d` thousandths of a count;
/// rounded toward zero, so that opposite motions give opposite turns.
pub open spec fn turn_of(sensitivity: nat, d: int, scale: nat) -> int {
    let mag = (sensitivity * abs(d) * scale * PI_NANO) / (TURN_DEN as int);
    if d < 0 {
        -mag
    } else {
        mag
    }
}

pub open spec fn pitch_ok(p: int) -> bool {
    -PITCH_LIMIT <= p <= PITCH_LIMIT
}

/// The orientation `(pitch, yaw)` after one motion event: both angles go down
/// by the event's turn, and the pitch is clamped. While the cursor is free the
/// motion is read but does not turn the camera.
pub open spec fn look_step(o: (int, int), m: MotionDelta, grabbed: bool, sensitivity: nat, scale: nat) -> (int, int) {
    if grabbed {
        (
            clamp_pitch(o.0 - turn_of(sensitivity, m.dy as int, scale)),
            o.1 - turn_of(sensitivity, m.dx as int, scale),
        )
    } else {
        (clamp_pitch(o.0), o.1)
    }
}

/// The orientation after the motion events `ms`, taken in order.
pub open spec fn looked(o: (int, int), ms: Seq<MotionDelta>, grabbed: bool, sensitivity: nat, scale: nat) -> (int, int)
    decreases ms.len(),
{
    if ms.len() == 0 {
        o
    } else {
        look_step(looked(o, ms.drop_last(), grabbed, sensitivity, scale), ms.last(), grabbed, sensitivity, scale)
    }
}

/// Pitch clamped to `[-PITCH_LIMIT, PITCH_LIMIT]`.
pub fn clamp(p: i128) -> (r: i64)
    ensures
        r == clamp_pitch(p as int),
{
    if p < -(PITCH_LIMIT as i128) {
        -PITCH_LIMIT
    } else if p > PITCH_LIMIT as i128 {
        PITCH_LIMIT
    } else {
        p as i64
    }
}

/// The turn, in microradians, for a motion of `d` thousandths of a count,
/// with the given sensitivity and window scale.
pub fn turn(sensitivity: u32, d: i32, scale: u32) -> (r: i128)
    ensures
        r == turn_of(sensitivity as nat, d as int, scale as nat),
        -TURN_BOUND < r < TURN_BOUND,
{
    let mag: u32 = if d < 0 {
        (-(d as i64)) as u32
    } else {
        d as u32
    };
    let s = sensitivity as u128;
    let m = mag as u128;
    let w = scale as u128;
    proof {
        assert(s * m <= 0xffff_ffff * 0x8000_0000) by (nonlinear_arith)
            requires
                s <= 0xffff_ffff,
                m <= 0x8000_0000,
        ;
        assert(s * m * w <= 0xffff_ffff * 0x8000_0000 * 0xffff_ffff) by (nonlinear_arith)
            requires
                s * m <= 0xffff_ffff * 0x8000_0000,
                w <= 0xffff_ffff,
        ;
        assert(s * m * w * PI_NANO <= 0xffff_ffff * 0x8000_0000 * 0xffff_ffff * PI_NANO) by (nonlinear_arith)
            requires
                s * m * w <= 0xffff_ffff * 0x8000_0000 * 0xffff_ffff,
        ;
    }
    let product = s * m * w * PI_NANO;
    let q = product / TURN_DEN;
    assert(q < 0x1_0000_0000_0000_0000_0000) by (nonlinear_arith)
        requires
            q == product / TURN_DEN,
            product <= 0xffff_ffff * 0x8000_0000 * 0xffff_ffff * PI_NANO,
    ;
    assert(abs(d as int) == m);
    if d < 0 {
        -(q as i128)
    } else {
        q as i128
    }
}

/// The camera's orientation and how far it has read the log of motion events.
pub struct InputState {
    /// Index of the first motion event not read yet.
    pub reader_motion: usize,
    /// Pitch in microradians.
    pub pitch: i64,
    /// Yaw in microradians.
    pub yaw: i128,
}

impl InputState {
    pub open spec fn wf(&self) -> bool {
        pitch_ok(self.pitch as int)
    }

    pub open spec fn orientation(&self) -> (int, int) {
        (self.pitch as int, self.yaw as int)
    }

    /// A camera that looks level along its initial heading and has read no
    /// events.
    pub fn new() -> (s: Self)
        ensures
            s.wf(),
            s.reader_motion == 0,
            s.pitch == 0,
            s.yaw == 0,
    {
        InputState { reader_motion: 0, pitch: 0, yaw: 0 }
    }

    /// Applies one motion event.
    pub fn apply(&mut self, m: MotionDelta, grabbed: bool, sensitivity: u32, scale: u32)
        requires
            old(self).wf(),
            -YAW_LIMIT - 0x1_0000_0000_0000_0000_0000_0000_0000 <= old(self).yaw
                <= YAW_LIMIT + 0x1_0000_0000_0000_0000_0000_0000_0000,
        ensures
            final(self).wf(),
            final(self).reader_motion == old(self).reader_motion,
            old(self).yaw - TURN_BOUND < final(self).yaw < old(self).yaw + TURN_BOUND,
            final(self).orientation() == look_step(
                old(self).orientation(),
                m,
                grabbed,
                sensitivity as nat,
                scale as nat,
            ),
    {
        if grabbed {
            let tp = turn(sensitivity, m.dy, scale);
            let ty = turn(sensitivity, m.dx, scale);
            self.pitch = clamp(self.pitch as i128 - tp);
            self.yaw = self.yaw - ty;
        } else {
            self.pitch = clamp(self.pitch as i128);
        }
    }
}

/// Reads every motion event of `log` that was not read yet, in order, and
/// turns the camera by each while the cursor is grabbed. Returns whether any
/// event was read, that is whether the camera's rotation is to be rewritten.
pub fn player_look(state: &mut InputState, log: &Vec<MotionDelta>, grabbed: bool, sensitivity: u32, scale: u32) -> (read: bool)
    requires
        old(state).wf(),
        old(state).reader_motion <= log.len(),
        log.len() - old(state).reader_motion <= MAX_NEW_EVENTS,
        -YAW_LIMIT <= old(state).yaw <= YAW_LIMIT,
    ensures
        final(state).wf(),
        final(state).reader_motion == log.len(),
        final(state).orientation() == looked(
            old(state).orientation(),
            log@.subrange(old(state).reader_motion as int, log.len() as int),
            grabbed,
            sensitivity as nat,
            scale as nat,
        ),
        read == (old(state).reader_motion < log.len()),
{
    let start = state.reader_motion;
    let ghost o0 = state.orientation();
    let mut i: usize = start;
    while i < log.len()
        invariant
            start <= i <= log.len(),
            state.wf(),
            state.reader_motion == start,
            -YAW_LIMIT - (i - start) * TURN_BOUND <= state.yaw <= YAW_LIMIT + (i - start) * TURN_BOUND,
            log.len() - start <= MAX_NEW_EVENTS,
            state.orientation() == looked(o0, log@.subrange(start as int, i as int), grabbed, sensitivity as nat, scale as nat),
        decreases log.len() - i,
    {
        assert((i - start) * TURN_BOUND <= MAX_NEW_EVENTS * TURN_BOUND) by (nonlinear_arith)
            requires
                0 <= i - start <= MAX_NEW_EVENTS,
        ;
        state.apply(log[i], grabbed, sensitivity, scale);
        proof {
            let s = log@.subrange(start as int, i + 1);
            assert(s.drop_last() =~= log@.subrange(start as int, i as int));
            assert(s.last() == log@[i as int]);
        }
        i = i + 1;
    }
    state.reader_motion = log.len();
    start < log.len()
}

/// However many motion events arrive, the pitch stays within
/// `[-PITCH_LIMIT, PITCH_LIMIT]`.
pub proof fn lemma_pitch_stays_clamped(o: (int, int), ms: Seq<MotionDelta>, grabbed: bool, sensitivity: nat, scale: nat)
    requires
        pitch_ok(o.0),
    ensures
        pitch_ok(looked(o, ms, grabbed, sensitivity, scale).0),
    decreases ms.len(),
{
    if ms.len() > 0 {
        lemma_pitch_stays_clamped(o, ms.drop_last(), grabbed, sensitivity, scale);
    }
}

/// While the cursor is free, motion events leave pitch and yaw as they were.
pub proof fn lemma_free_cursor_keeps_orientation(o: (int, int), ms: Seq<MotionDelta>, sensitivity: nat, scale: nat)
    requires
        pitch_ok(o.0),
    ensures
        looked(o, ms, false, sensitivity, scale) == o,
    decreases ms.len(),
{
    if ms.len() > 0 {
        lemma_free_cursor_keeps_orientation(o, ms.drop_last(), sensitivity, scale);
    }
}

} // verus!
