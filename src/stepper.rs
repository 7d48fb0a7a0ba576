use vstd::prelude::*;

verus! {

/// Ticks per second of the planner's time base: every delay is counted in microseconds.
pub const TICK_HZ: u64 = 1_000_000;

/// Why a plan could not be made.
#[derive(Debug, Clone, Copy, PartialEq, Eq, Structural)]
pub enum StepperError {
    /// The target lies beyond the travel limit.
    MoveOutOfBounds,
    /// The position is not known yet: the motor has not been homed.
    NotHomed,
}

/// Sense of rotation of the motor, relative to the home endstop.
#[derive(Debug, Clone, Copy, PartialEq, Eq, Structural)]
pub enum Direction {
    ToHome,
    AwayFromHome,
}

impl Direction {
    /// The other direction.
    pub fn opposite(self) -> (r: Direction)
        ensures
            r == self.flip(),
    {
        match self {
            Direction::ToHome => Direction::AwayFromHome,
            Direction::AwayFromHome => Direction::ToHome,
        }
    }

    pub open spec fn flip(self) -> Direction {
        match self {
            Direction::ToHome => Direction::AwayFromHome,
            Direction::AwayFromHome => Direction::ToHome,
        }
    }
}

/// The largest value of a `u64`, as an integer.
pub open spec fn u64_max() -> int {
    0xffff_ffff_ffff_ffffint
}

/// `x`, saturated at the top of the `u64` range.
pub open spec fn sat_u64(x: int) -> int {
    if x > u64_max() {
        u64_max()
    } else {
        x
    }
}

/// Delay of one period of a frequency of `hz`, rounded to the nearest tick and at least one tick.
pub open spec fn delay_of_hz(hz: int) -> int {
    if hz >= TICK_HZ {
        1
    } else {
        (TICK_HZ + hz / 2) / hz
    }
}

/// Integer square root: the largest `r` with `r * r <= n`.
pub open spec fn isqrt(n: nat) -> nat
    decreases n,
{
    if n == 0 {
        0
    } else {
        let r = isqrt((n - 1) as nat);
        if (r + 1) * (r + 1) <= n {
            r + 1
        } else {
            r
        }
    }
}

/// Delay between two steps at cruise speed.
pub open spec fn cruise_delay_of(max_speed: int) -> int {
    delay_of_hz(max_speed)
}

/// Fixed-point divisor of the ramp recurrence: `TICK_HZ² / max_accel`.
pub open spec fn accel_divisor_of(max_accel: int) -> int {
    (TICK_HZ * TICK_HZ) / max_accel
}

/// Delay of the first accelerating step from rest: `TICK_HZ / isqrt(start_vel² + 2·max_accel)`.
pub open spec fn initial_delay_of(start_vel: int, max_accel: int) -> int {
    TICK_HZ as int / isqrt((start_vel * start_vel + 2 * max_accel) as nat) as int
}

/// Steps needed to brake from `max_speed` to `start_vel`: `(max_speed² − start_vel²) / (2·max_accel)`,
/// and zero where the start speed is the larger.
pub open spec fn max_stopping_distance_of(max_speed: int, start_vel: int, max_accel: int) -> int {
    if max_speed * max_speed <= start_vel * start_vel {
        0
    } else {
        (max_speed * max_speed - start_vel * start_vel) / (2 * max_accel)
    }
}

/// Delay of a constant-speed move at the start speed (homing and jogging).
pub open spec fn start_delay_of(start_vel: int) -> int {
    TICK_HZ as int / start_vel
}

/// What a [`Stepper`] holds, configuration and derived constants alike.
pub struct StepperView {
    pub travel_limit: u32,
    pub max_speed: u32,
    pub max_accel: u32,
    pub start_vel: u32,
    pub dir_to_home: Direction,
    pub pos: Option<u32>,
    pub max_stopping_distance: u64,
    pub cruise_delay: u64,
    pub accel_divisor: u64,
    pub initial_delay: u64,
}

impl StepperView {
    /// The configuration is valid and every derived constant agrees with it.
    pub open spec fn wf(self) -> bool {
        &&& self.travel_limit > 0
        &&& self.max_speed > 0
        &&& self.max_accel > 0
        &&& self.start_vel > 0
        &&& self.max_stopping_distance == max_stopping_distance_of(
            self.max_speed as int,
            self.start_vel as int,
            self.max_accel as int,
        )
        &&& self.cruise_delay == cruise_delay_of(self.max_speed as int)
        &&& self.accel_divisor == accel_divisor_of(self.max_accel as int)
        &&& self.initial_delay == initial_delay_of(self.start_vel as int, self.max_accel as int)
    }

    /// The velocity envelope is not empty: cruising is no slower than the first step.
    pub open spec fn envelope_ok(self) -> bool {
        self.cruise_delay <= self.initial_delay
    }

    /// Same configuration, any position.
    pub open spec fn same_config(self, o: StepperView) -> bool {
        &&& self.travel_limit == o.travel_limit
        &&& self.max_speed == o.max_speed
        &&& self.max_accel == o.max_accel
        &&& self.start_vel == o.start_vel
        &&& self.dir_to_home == o.dir_to_home
        &&& self.max_stopping_distance == o.max_stopping_distance
        &&& self.cruise_delay == o.cruise_delay
        &&& self.accel_divisor == o.accel_divisor
        &&& self.initial_delay == o.initial_delay
    }

    /// The position after one step in `dir`: down towards home in `dir_to_home`, up otherwise,
    /// saturating at both ends of the `u32` range.
    pub open spec fn stepped(self, dir: Direction) -> StepperView {
        StepperView {
            pos: match self.pos {
                Some(p) => Some(
                    if dir == self.dir_to_home {
                        if p == 0 {
                            0u32
                        } else {
                            (p - 1) as u32
                        }
                    } else {
                        if p == u32::MAX {
                            u32::MAX
                        } else {
                            (p + 1) as u32
                        }
                    },
                ),
                None => None,
            },
            ..self
        }
    }

    pub open spec fn with_pos(self, pos: Option<u32>) -> StepperView {
        StepperView { pos, ..self }
    }

    /// The ramp divisor of a valid configuration is positive.
    pub proof fn lemma_divisor_positive(self)
        requires
            self.wf(),
        ensures
            self.accel_divisor > 0,
    {
        let a = self.max_accel as int;
        assert(1_000_000_000_000int / a > 0) by (nonlinear_arith)
            requires
                0 < a <= 0xffff_ffffint,
        ;
    }
}

/// Relies on `u64::isqrt`: the square root, rounded down.
#[verifier::external_body]
fn sqrt_floor(n: u64) -> (r: u64)
    ensures
        r * r <= n,
        n < (r + 1) * (r + 1),
{
    n.isqrt()
}

/// Every `r` with `r² <= n < (r + 1)²` is `isqrt(n)`.
pub proof fn lemma_isqrt(n: nat, r: nat)
    requires
        r * r <= n,
        n < (r + 1) * (r + 1),
    ensures
        isqrt(n) == r,
{
    lemma_isqrt_bounds(n);
    let s = isqrt(n);
    if s < r {
        assert((s + 1) * (s + 1) <= r * r) by (nonlinear_arith)
            requires
                s + 1 <= r,
        ;
    } else if s > r {
        assert((r + 1) * (r + 1) <= s * s) by (nonlinear_arith)
            requires
                r + 1 <= s,
        ;
    }
}

/// `isqrt(n)` is the square root of `n`, rounded down.
pub proof fn lemma_isqrt_bounds(n: nat)
    ensures
        isqrt(n) * isqrt(n) <= n,
        n < (isqrt(n) + 1) * (isqrt(n) + 1),
    decreases n,
{
    if n == 0 {
        assert(isqrt(0) == 0);
        let z = isqrt(n);
        assert((z + 1) * (z + 1) == 1) by (nonlinear_arith)
            requires
                z == 0,
        ;
    } else {
        lemma_isqrt_bounds((n - 1) as nat);
        let r = isqrt((n - 1) as nat);
        if (r + 1) * (r + 1) > n {
            assert(isqrt(n) == r);
            assert(n < (isqrt(n) + 1) * (isqrt(n) + 1));
        } else {
            assert(isqrt(n) == r + 1);
            assert((r + 1) * (r + 1) == n);
            assert(n < (r + 2) * (r + 2)) by (nonlinear_arith)
                requires
                    (r + 1) * (r + 1) == n,
            ;
            assert(n < (isqrt(n) + 1) * (isqrt(n) + 1));
        }
    }
}

fn compute_cruise_delay(max_speed: u32) -> (r: u64)
    requires
        max_speed > 0,
    ensures
        r == cruise_delay_of(max_speed as int),
{
    let hz = max_speed as u64;
    if hz >= TICK_HZ {
        1
    } else {
        (TICK_HZ + hz / 2) / hz
    }
}

fn compute_accel_divisor(max_accel: u32) -> (r: u64)
    requires
        max_accel > 0,
    ensures
        r == accel_divisor_of(max_accel as int),
        r > 0,
{
    assert(TICK_HZ * TICK_HZ == 1_000_000_000_000u64);
    let r = (TICK_HZ * TICK_HZ) / max_accel as u64;
    assert(r > 0) by (nonlinear_arith)
        requires
            r == 1_000_000_000_000u64 / (max_accel as u64),
            max_accel <= u32::MAX,
            max_accel > 0,
    ;
    r
}

fn compute_initial_delay(start_vel: u32, max_accel: u32) -> (r: u64)
    requires
        max_accel > 0,
    ensures
        r == initial_delay_of(start_vel as int, max_accel as int),
{
    let sv = start_vel as u64;
    let a = max_accel as u64;
    assert(sv * sv <= 0xffff_fffe_0000_0001u64) by (nonlinear_arith)
        requires
            sv <= 0xffff_ffffu64,
    ;
    let n = sv * sv + 2 * a;
    let root = sqrt_floor(n);
    proof {
        lemma_isqrt(n as nat, root as nat);
    }
    assert(root > 0) by (nonlinear_arith)
        requires
            n < (root + 1) * (root + 1),
            n >= 2,
    ;
    TICK_HZ / root
}

fn compute_max_stopping_distance(max_speed: u32, start_vel: u32, max_accel: u32) -> (r: u64)
    requires
        max_accel > 0,
    ensures
        r == max_stopping_distance_of(max_speed as int, start_vel as int, max_accel as int),
{
    let ms = max_speed as u64;
    let sv = start_vel as u64;
    assert(ms * ms <= 0xffff_fffe_0000_0001u64) by (nonlinear_arith)
        requires
            ms <= 0xffff_ffffu64,
    ;
    assert(sv * sv <= 0xffff_fffe_0000_0001u64) by (nonlinear_arith)
        requires
            sv <= 0xffff_ffffu64,
    ;
    let ms2 = ms * ms;
    let sv2 = sv * sv;
    if ms2 <= sv2 {
        0
    } else {
        (ms2 - sv2) / (2 * max_accel as u64)
    }
}

/// Trapezoidal step planner.
///
/// It moves nothing by itself: it hands out step plans, whose `next` gives the delay in ticks
/// from one step pulse to the next, and it keeps track of the position they reach.
pub struct Stepper {
    travel_limit: u32,
    max_speed: u32,
    max_accel: u32,
    start_vel: u32,
    dir_to_home: Direction,
    current_pos: Option<u32>,
    max_stopping_distance: u64,
    cruise_delay: u64,
    accel_divisor: u64,
    initial_delay: u64,
}

impl View for Stepper {
    type V = StepperView;

    closed spec fn view(&self) -> StepperView {
        StepperView {
            travel_limit: self.travel_limit,
            max_speed: self.max_speed,
            max_accel: self.max_accel,
            start_vel: self.start_vel,
            dir_to_home: self.dir_to_home,
            pos: self.current_pos,
            max_stopping_distance: self.max_stopping_distance,
            cruise_delay: self.cruise_delay,
            accel_divisor: self.accel_divisor,
            initial_delay: self.initial_delay,
        }
    }
}

impl Stepper {
    /// A planner for a motor whose travel ends `travel_limit` steps from home, with a top speed
    /// of `max_speed` steps/s, an acceleration of at most `max_accel` steps/s², a start and stop
    /// speed of `start_vel` steps/s, and `dir_to_home` as the direction that leads home.
    /// The position is unknown until the first homing move ends.
    pub fn new(
        travel_limit: u32,
        max_speed: u32,
        max_accel: u32,
        start_vel: u32,
        dir_to_home: Direction,
    ) -> (r: Stepper)
        requires
            travel_limit > 0,
            max_speed > 0,
            max_accel > 0,
            start_vel > 0,
        ensures
            r@.wf(),
            r@.travel_limit == travel_limit,
            r@.max_speed == max_speed,
            r@.max_accel == max_accel,
            r@.start_vel == start_vel,
            r@.dir_to_home == dir_to_home,
            r@.pos is None,
    {
        Stepper {
            travel_limit,
            max_speed,
            max_accel,
            start_vel,
            dir_to_home,
            current_pos: None,
            max_stopping_distance: compute_max_stopping_distance(max_speed, start_vel, max_accel),
            cruise_delay: compute_cruise_delay(max_speed),
            accel_divisor: compute_accel_divisor(max_accel),
            initial_delay: compute_initial_delay(start_vel, max_accel),
        }
    }

    /// The travel limit in steps.
    pub fn travel_limit(&self) -> (r: u32)
        ensures
            r == self@.travel_limit,
    {
        self.travel_limit
    }

    /// Sets the travel limit in steps.
    pub fn set_travel_limit(&mut self, travel_limit: u32)
        requires
            old(self)@.wf(),
            travel_limit > 0,
        ensures
            final(self)@ == (StepperView { travel_limit, ..old(self)@ }),
            final(self)@.wf(),
    {
        self.travel_limit = travel_limit;
    }

    /// The top speed in steps/s.
    pub fn max_speed(&self) -> (r: u32)
        ensures
            r == self@.max_speed,
    {
        self.max_speed
    }

    /// Sets the top speed in steps/s, with the constants that follow from it.
    pub fn set_max_speed(&mut self, max_speed: u32)
        requires
            old(self)@.wf(),
            max_speed > 0,
        ensures
            final(self)@.wf(),
            final(self)@.max_speed == max_speed,
            final(self)@ == (StepperView {
                max_speed,
                max_stopping_distance: final(self)@.max_stopping_distance,
                cruise_delay: final(self)@.cruise_delay,
                ..old(self)@
            }),
    {
        self.max_speed = max_speed;
        self.max_stopping_distance = compute_max_stopping_distance(
            max_speed,
            self.start_vel,
            self.max_accel,
        );
        self.cruise_delay = compute_cruise_delay(max_speed);
    }

    /// The acceleration bound in steps/s².
    pub fn max_accel(&self) -> (r: u32)
        ensures
            r == self@.max_accel,
    {
        self.max_accel
    }

    /// Sets the acceleration bound in steps/s², with the constants that follow from it.
    pub fn set_max_accel(&mut self, max_accel: u32)
        requires
            old(self)@.wf(),
            max_accel > 0,
        ensures
            final(self)@.wf(),
            final(self)@.max_accel == max_accel,
            final(self)@ == (StepperView {
                max_accel,
                max_stopping_distance: final(self)@.max_stopping_distance,
                accel_divisor: final(self)@.accel_divisor,
                initial_delay: final(self)@.initial_delay,
                ..old(self)@
            }),
    {
        self.max_accel = max_accel;
        self.max_stopping_distance = compute_max_stopping_distance(
            self.max_speed,
            self.start_vel,
            max_accel,
        );
        self.accel_divisor = compute_accel_divisor(max_accel);
        self.initial_delay = compute_initial_delay(self.start_vel, max_accel);
    }

    /// The start and stop speed in steps/s.
    pub fn start_vel(&self) -> (r: u32)
        ensures
            r == self@.start_vel,
    {
        self.start_vel
    }

    /// Sets the start and stop speed in steps/s, with the constants that follow from it.
    pub fn set_start_vel(&mut self, start_vel: u32)
        requires
            old(self)@.wf(),
            start_vel > 0,
        ensures
            final(self)@.wf(),
            final(self)@.start_vel == start_vel,
            final(self)@ == (StepperView {
                start_vel,
                max_stopping_distance: final(self)@.max_stopping_distance,
                initial_delay: final(self)@.initial_delay,
                ..old(self)@
            }),
    {
        self.start_vel = start_vel;
        self.max_stopping_distance = compute_max_stopping_distance(
            self.max_speed,
            start_vel,
            self.max_accel,
        );
        self.initial_delay = compute_initial_delay(start_vel, self.max_accel);
    }

    /// The direction that leads home.
    pub fn dir_to_home(&self) -> (r: Direction)
        ensures
            r == self@.dir_to_home,
    {
        self.dir_to_home
    }

    /// The position in steps from home, or `None` before the first homing.
    pub fn pos(&self) -> (r: Option<u32>)
        ensures
            r == self@.pos,
    {
        self.current_pos
    }

    /// The delay between two steps at cruise speed.
    pub fn cruise_delay(&self) -> (r: u64)
        ensures
            r == self@.cruise_delay,
    {
        self.cruise_delay
    }

    /// The delay of the first step of a planned move.
    pub fn initial_delay(&self) -> (r: u64)
        ensures
            r == self@.initial_delay,
    {
        self.initial_delay
    }

    fn update_pos_one_step(&mut self, dir: Direction)
        ensures
            final(self)@ == old(self)@.stepped(dir),
    {
        if let Some(p) = self.current_pos {
            let next = if dir == self.dir_to_home {
                p.saturating_sub(1)
            } else {
                p.saturating_add(1)
            };
            self.current_pos = Some(next);
        }
    }
}


/// Phase of a planned move.
#[derive(Debug, Clone, Copy, PartialEq, Eq, Structural)]
pub enum Phase {
    Accelerate,
    Cruise,
    Decelerate,
}

/// What a [`PlannedMove`] holds.
pub struct PlanState {
    pub phase: Phase,
    /// The delay emitted last, in ticks.
    pub prev_delay: u64,
    pub dir: Direction,
    /// Once no more than this many steps remain, the move brakes.
    pub stopping_distance: u64,
    /// Steps still to emit.
    pub steps_to_travel: u32,
    /// Fixed-point carry of the ramp recurrence.
    pub rem: u64,
}

impl PlanState {
    /// A cruising plan emits exactly the cruise delay of `v`.
    pub open spec fn inv(self, v: StepperView) -> bool {
        self.phase == Phase::Cruise ==> self.prev_delay == v.cruise_delay
    }
}

/// `x` held within the velocity envelope of `v`: no shorter than the cruise delay, then no longer
/// than the initial delay.
pub open spec fn clamp_delay(v: StepperView, x: int) -> u64 {
    let lo = if x < v.cruise_delay {
        v.cruise_delay as int
    } else {
        x
    };
    (if lo > v.initial_delay {
        v.initial_delay as int
    } else {
        lo
    }) as u64
}

/// Dividend of the ramp recurrence, `p³ + rem`, saturated at the top of the `u64` range.
pub open spec fn ramp_dividend(p: u64, rem: u64) -> int {
    sat_u64(sat_u64(p * p * p) + rem)
}

/// The plan of a move from the position of `v` to `target`, before its first step.
pub open spec fn plan_start(v: StepperView, target: u32) -> PlanState {
    let p = v.pos->Some_0;
    let distance: int = if p < target {
        target - p
    } else {
        p - target
    };
    let half = (distance + 1) / 2;
    PlanState {
        phase: Phase::Accelerate,
        prev_delay: u64::MAX,
        dir: if p < target {
            v.dir_to_home.flip()
        } else {
            v.dir_to_home
        },
        stopping_distance: ((if v.max_stopping_distance < half {
            v.max_stopping_distance as int
        } else {
            half
        }) + 2) as u64,
        steps_to_travel: distance as u32,
        rem: 0,
    }
}

/// One poll of a planned move: the delay it emits, if any, the planner after it, and the plan
/// after it.
pub open spec fn plan_next(v: StepperView, m: PlanState) -> (Option<u64>, StepperView, PlanState) {
    if m.steps_to_travel == 0 {
        (None, v, m)
    } else {
        let steps = (m.steps_to_travel - 1) as u32;
        let braking = steps <= m.stopping_distance;
        let v2 = v.stepped(m.dir);
        let p = m.prev_delay;
        match m.phase {
            Phase::Cruise => {
                let m2 = PlanState {
                    phase: if braking {
                        Phase::Decelerate
                    } else {
                        Phase::Cruise
                    },
                    rem: if braking {
                        0
                    } else {
                        m.rem
                    },
                    steps_to_travel: steps,
                    ..m
                };
                (Some(p), v2, m2)
            },
            Phase::Accelerate => {
                let dividend = ramp_dividend(
                    p,
                    if braking {
                        0
                    } else {
                        m.rem
                    },
                );
                let diff = dividend / (v.accel_divisor as int);
                let d = clamp_delay(
                    v,
                    if diff > p {
                        0
                    } else {
                        p - diff
                    },
                );
                let m2 = PlanState {
                    phase: if d == v.cruise_delay {
                        Phase::Cruise
                    } else if braking {
                        Phase::Decelerate
                    } else {
                        Phase::Accelerate
                    },
                    prev_delay: d,
                    rem: (dividend % (v.accel_divisor as int)) as u64,
                    steps_to_travel: steps,
                    ..m
                };
                (Some(d), v2, m2)
            },
            Phase::Decelerate => {
                let dividend = ramp_dividend(p, m.rem);
                let diff = dividend / (v.accel_divisor as int);
                let d = clamp_delay(v, sat_u64(p + diff));
                let m2 = PlanState {
                    prev_delay: d,
                    rem: (dividend % (v.accel_divisor as int)) as u64,
                    steps_to_travel: steps,
                    ..m
                };
                (Some(d), v2, m2)
            },
        }
    }
}

/// The planner and the plan after `n` polls of a planned move that each emitted a delay, or
/// `None` where one of them ended the move.
pub open spec fn run_plan(v: StepperView, m: PlanState, n: nat) -> Option<(StepperView, PlanState)>
    decreases n,
{
    if n == 0 {
        Some((v, m))
    } else {
        match run_plan(v, m, (n - 1) as nat) {
            Some((v1, m1)) => {
                let (r, v2, m2) = plan_next(v1, m1);
                if r is Some {
                    Some((v2, m2))
                } else {
                    None
                }
            },
            None => None,
        }
    }
}

/// `p³`, saturated at the top of the `u64` range.
fn cube_saturating(p: u64) -> (r: u64)
    ensures
        r == sat_u64(p * p * p),
{
    match p.checked_mul(p) {
        Some(p2) => match p2.checked_mul(p) {
            Some(p3) => p3,
            None => u64::MAX,
        },
        None => {
            assert(p * p * p >= p * p) by (nonlinear_arith)
                requires
                    p * p > u64_max(),
            ;
            u64::MAX
        },
    }
}

fn clamp_to_envelope(stepper: &Stepper, x: u64) -> (r: u64)
    ensures
        r == clamp_delay(stepper@, x as int),
{
    let lo = if x < stepper.cruise_delay {
        stepper.cruise_delay
    } else {
        x
    };
    if lo > stepper.initial_delay {
        stepper.initial_delay
    } else {
        lo
    }
}

/// The delays of a planned move: a trapezoidal ramp up from the initial delay, a cruise at the
/// cruise delay, and a ramp down.
pub struct PlannedMove {
    phase: Phase,
    prev_delay: u64,
    dir: Direction,
    stopping_distance: u64,
    steps_to_travel: u32,
    rem: u64,
}

impl View for PlannedMove {
    type V = PlanState;

    closed spec fn view(&self) -> PlanState {
        PlanState {
            phase: self.phase,
            prev_delay: self.prev_delay,
            dir: self.dir,
            stopping_distance: self.stopping_distance,
            steps_to_travel: self.steps_to_travel,
            rem: self.rem,
        }
    }
}

impl PlannedMove {
    /// The delay in ticks before the next step, after which `stepper`'s position has moved by
    /// that step; `None` once the target is reached.
    pub fn next(&mut self, stepper: &mut Stepper) -> (r: Option<u64>)
        requires
            old(stepper)@.wf(),
        ensures
            (r, final(stepper)@, final(self)@) == plan_next(old(stepper)@, old(self)@),
            old(self)@.inv(old(stepper)@) ==> final(self)@.inv(final(stepper)@),
            old(self)@.inv(old(stepper)@) && old(stepper)@.envelope_ok() ==> (r matches Some(d)
                ==> old(stepper)@.cruise_delay <= d <= old(stepper)@.initial_delay),
    {
        if self.steps_to_travel == 0 {
            return None;
        }
        proof {
            stepper@.lemma_divisor_positive();
        }
        self.steps_to_travel = self.steps_to_travel - 1;
        stepper.update_pos_one_step(self.dir);
        let braking = self.steps_to_travel as u64 <= self.stopping_distance;
        match self.phase {
            Phase::Cruise => {
                if braking {
                    self.phase = Phase::Decelerate;
                    self.rem = 0;
                }
                Some(self.prev_delay)
            },
            Phase::Accelerate => {
                if braking {
                    self.rem = 0;
                }
                let p = self.prev_delay;
                let dividend = cube_saturating(p).saturating_add(self.rem);
                let diff = dividend / stepper.accel_divisor;
                self.rem = dividend % stepper.accel_divisor;
                let d = clamp_to_envelope(stepper, p.saturating_sub(diff));
                self.prev_delay = d;
                self.phase = if d == stepper.cruise_delay {
                    Phase::Cruise
                } else if braking {
                    Phase::Decelerate
                } else {
                    Phase::Accelerate
                };
                Some(d)
            },
            Phase::Decelerate => {
                let p = self.prev_delay;
                let dividend = cube_saturating(p).saturating_add(self.rem);
                let diff = dividend / stepper.accel_divisor;
                self.rem = dividend % stepper.accel_divisor;
                let d = clamp_to_envelope(stepper, p.saturating_add(diff));
                self.prev_delay = d;
                Some(d)
            },
        }
    }
}

/// A move towards home at the start speed, which goes on until the endstop is reached; the
/// position becomes 0 there and the move is over for good.
pub struct HomingMove {
    delay: u64,
    steps_moved: u32,
    finished: bool,
}

impl HomingMove {
    pub closed spec fn spec_delay(&self) -> u64 {
        self.delay
    }

    pub closed spec fn spec_steps_moved(&self) -> u32 {
        self.steps_moved
    }

    /// The move has ended.
    pub closed spec fn spec_finished(&self) -> bool {
        self.finished
    }

    /// The steps emitted so far.
    pub fn steps_moved(&self) -> (r: u32)
        ensures
            r == self.spec_steps_moved(),
    {
        self.steps_moved
    }

    /// Polls the move with what the endstop reads before the next step: once it is reached, the
    /// move ends and `stepper`'s position becomes 0; until then, the delay before the next step,
    /// with the position left as it was. An ended move stays ended.
    pub fn next(&mut self, stepper: &mut Stepper, endstop_reached: bool) -> (r: Option<u64>)
        ensures
            old(self).spec_finished() ==> {
                &&& r is None
                &&& final(stepper)@ == old(stepper)@
                &&& *final(self) == *old(self)
            },
            !old(self).spec_finished() && endstop_reached ==> {
                &&& r is None
                &&& final(stepper)@ == old(stepper)@.with_pos(Some(0u32))
                &&& final(self).spec_steps_moved() == old(self).spec_steps_moved()
                &&& final(self).spec_finished()
            },
            !old(self).spec_finished() && !endstop_reached ==> {
                &&& r == Some(old(self).spec_delay())
                &&& final(stepper)@ == old(stepper)@
                &&& final(self).spec_steps_moved() == if old(self).spec_steps_moved() == u32::MAX {
                    u32::MAX as int
                } else {
                    old(self).spec_steps_moved() + 1
                }
                &&& !final(self).spec_finished()
            },
            final(self).spec_delay() == old(self).spec_delay(),
    {
        if self.finished {
            None
        } else if endstop_reached {
            stepper.current_pos = Some(0);
            self.finished = true;
            None
        } else {
            self.steps_moved = self.steps_moved.saturating_add(1);
            Some(self.delay)
        }
    }
}

/// A move at the start speed in one direction, which goes on while the operator asks for it
/// and is over for good once told to stop. The travel limit does not stop it.
pub struct ContinuousJog {
    delay: u64,
    dir: Direction,
    finished: bool,
}

impl ContinuousJog {
    pub closed spec fn spec_delay(&self) -> u64 {
        self.delay
    }

    pub closed spec fn spec_dir(&self) -> Direction {
        self.dir
    }

    /// The jog has ended.
    pub closed spec fn spec_finished(&self) -> bool {
        self.finished
    }

    /// Polls the jog with whether it is to go on: if so, `stepper`'s position moves by one step
    /// and the delay before that step is returned; if not, the jog ends. An ended jog stays
    /// ended.
    pub fn next(&mut self, stepper: &mut Stepper, keep_going: bool) -> (r: Option<u64>)
        ensures
            !old(self).spec_finished() && keep_going ==> {
                &&& r == Some(old(self).spec_delay())
                &&& final(stepper)@ == old(stepper)@.stepped(old(self).spec_dir())
                &&& *final(self) == *old(self)
            },
            old(self).spec_finished() || !keep_going ==> {
                &&& r is None
                &&& final(stepper)@ == old(stepper)@
                &&& final(self).spec_finished()
                &&& final(self).spec_delay() == old(self).spec_delay()
                &&& final(self).spec_dir() == old(self).spec_dir()
            },
    {
        if self.finished || !keep_going {
            self.finished = true;
            None
        } else {
            stepper.update_pos_one_step(self.dir);
            Some(self.delay)
        }
    }
}

/// The planner after `n` steps in `dir`.
pub open spec fn stepped_n(v: StepperView, dir: Direction, n: nat) -> StepperView
    decreases n,
{
    if n == 0 {
        v
    } else {
        stepped_n(v, dir, (n - 1) as nat).stepped(dir)
    }
}

/// A jog from a known position that goes on for `k` polls moves it `k` steps: up away from
/// home, down towards it, as long as it stays within the `u32` range.
pub proof fn lemma_jog_steps(v: StepperView, dir: Direction, k: nat)
    requires
        v.pos is Some,
        dir == v.dir_to_home ==> k <= v.pos->Some_0,
        dir != v.dir_to_home ==> v.pos->Some_0 + k <= u32::MAX,
    ensures
        stepped_n(v, dir, k) == v.with_pos(
            Some(
                (if dir == v.dir_to_home {
                    v.pos->Some_0 - k
                } else {
                    v.pos->Some_0 + k
                }) as u32,
            ),
        ),
    decreases k,
{
    if k > 0 {
        lemma_jog_steps(v, dir, (k - 1) as nat);
    }
}

impl Stepper {
    fn start_delay(&self) -> (r: u64)
        requires
            self@.wf(),
        ensures
            r == start_delay_of(self@.start_vel as int),
    {
        TICK_HZ / self.start_vel as u64
    }

    /// A homing move, and the direction the motor turns in it: the direction that leads home.
    pub fn homing_move(&self) -> (r: (HomingMove, Direction))
        requires
            self@.wf(),
        ensures
            r.0.spec_delay() == start_delay_of(self@.start_vel as int),
            r.0.spec_steps_moved() == 0,
            !r.0.spec_finished(),
            r.1 == self@.dir_to_home,
    {
        (HomingMove { delay: self.start_delay(), steps_moved: 0, finished: false }, self.dir_to_home)
    }

    /// A planned move to `target`, and the direction the motor turns in it.
    /// It fails with `NotHomed` while the position is unknown, and with `MoveOutOfBounds` where
    /// `target` lies beyond the travel limit.
    pub fn planned_move(&self, target: u32) -> (r: Result<(PlannedMove, Direction), StepperError>)
        requires
            self@.wf(),
        ensures
            self@.pos is None ==> r == Err::<(PlannedMove, Direction), _>(StepperError::NotHomed),
            self@.pos is Some && target > self@.travel_limit ==> r == Err::<
                (PlannedMove, Direction),
                _,
            >(StepperError::MoveOutOfBounds),
            self@.pos is Some && target <= self@.travel_limit ==> (r matches Ok((m, dir)) && m@
                == plan_start(self@, target) && dir == m@.dir),
            r matches Ok((m, _)) ==> m@.inv(self@),
    {
        match self.current_pos {
            None => Err(StepperError::NotHomed),
            Some(current_pos) => {
                if target > self.travel_limit {
                    return Err(StepperError::MoveOutOfBounds);
                }
                let distance: u32 = if current_pos < target {
                    target - current_pos
                } else {
                    current_pos - target
                };
                let half = (distance as u64 + 1) / 2;
                let stopping_distance = if self.max_stopping_distance < half {
                    self.max_stopping_distance
                } else {
                    half
                } + 2;
                let dir = if current_pos < target {
                    self.dir_to_home.opposite()
                } else {
                    self.dir_to_home
                };
                let m = PlannedMove {
                    phase: Phase::Accelerate,
                    prev_delay: u64::MAX,
                    dir,
                    stopping_distance,
                    steps_to_travel: distance,
                    rem: 0,
                };
                Ok((m, dir))
            },
        }
    }

    /// A jog in `dir`, and the direction the motor turns in it (`dir` itself).
    /// It fails with `NotHomed` while the position is unknown.
    pub fn continuous_jog(&self, dir: Direction) -> (r: Result<(ContinuousJog, Direction), StepperError>)
        requires
            self@.wf(),
        ensures
            self@.pos is None ==> r == Err::<(ContinuousJog, Direction), _>(StepperError::NotHomed),
            self@.pos is Some ==> (r matches Ok((j, d)) && d == dir && j.spec_dir() == dir
                && j.spec_delay() == start_delay_of(self@.start_vel as int) && !j.spec_finished()),
    {
        match self.current_pos {
            Some(_) => Ok((ContinuousJog { delay: self.start_delay(), dir, finished: false }, dir)),
            None => Err(StepperError::NotHomed),
        }
    }
}

/// Position `k` steps into a move from `p` towards `target`.
pub open spec fn pos_after(p: u32, target: u32, k: nat) -> u32 {
    if p < target {
        (p + k) as u32
    } else {
        (p - k) as u32
    }
}

/// Number of steps between `p` and `target`.
pub open spec fn distance(p: u32, target: u32) -> nat {
    if p < target {
        (target - p) as nat
    } else {
        (p - target) as nat
    }
}

/// One poll keeps the configuration and its validity, keeps a cruising plan at the cruise delay,
/// and emits a delay within the velocity envelope.
pub proof fn lemma_plan_next_keeps(v: StepperView, m: PlanState)
    requires
        v.wf(),
    ensures
        plan_next(v, m).1.same_config(v),
        plan_next(v, m).1.wf(),
        m.inv(v) ==> plan_next(v, m).2.inv(plan_next(v, m).1),
        m.inv(v) && v.envelope_ok() ==> (plan_next(v, m).0 matches Some(d) ==> v.cruise_delay <= d
            <= v.initial_delay),
{
}

proof fn lemma_run_plan_progress(v: StepperView, target: u32, k: nat)
    requires
        v.wf(),
        v.pos is Some,
        target <= v.travel_limit,
        k <= distance(v.pos->Some_0, target),
    ensures
        run_plan(v, plan_start(v, target), k) matches Some((vk, mk)) && vk == v.with_pos(
            Some(pos_after(v.pos->Some_0, target, k)),
        ) && mk.steps_to_travel == distance(v.pos->Some_0, target) - k && mk.dir == plan_start(
            v,
            target,
        ).dir && mk.stopping_distance == plan_start(v, target).stopping_distance,
    decreases k,
{
    if k > 0 {
        lemma_run_plan_progress(v, target, (k - 1) as nat);
    }
}

/// A planned move to a target within the travel limit emits exactly as many delays as there are
/// steps between the position and the target, and ends with the position at the target.
pub proof fn lemma_planned_move_reaches_target(v: StepperView, target: u32)
    requires
        v.wf(),
        v.pos is Some,
        target <= v.travel_limit,
    ensures
        run_plan(v, plan_start(v, target), distance(v.pos->Some_0, target)) matches Some((vn, mn))
            && vn == v.with_pos(Some(target)) && plan_next(vn, mn).0 is None,
{
    lemma_run_plan_progress(v, target, distance(v.pos->Some_0, target));
}

proof fn lemma_run_plan_keeps(v: StepperView, m: PlanState, n: nat)
    requires
        v.wf(),
        m.inv(v),
    ensures
        run_plan(v, m, n) matches Some((vn, mn)) ==> vn.same_config(v) && vn.wf() && mn.inv(vn),
    decreases n,
{
    if n > 0 {
        lemma_run_plan_keeps(v, m, (n - 1) as nat);
        if let Some((v1, m1)) = run_plan(v, m, (n - 1) as nat) {
            lemma_plan_next_keeps(v1, m1);
        }
    }
}

/// Every delay that a planned move emits lies within the velocity envelope: no shorter than the
/// cruise delay and no longer than the initial delay.
pub proof fn lemma_planned_move_envelope(v: StepperView, target: u32, n: nat)
    requires
        v.wf(),
        v.envelope_ok(),
        v.pos is Some,
        target <= v.travel_limit,
    ensures
        run_plan(v, plan_start(v, target), n) matches Some((vn, mn)) ==> (plan_next(vn, mn).0 matches Some(
            d,
        ) ==> v.cruise_delay <= d <= v.initial_delay),
{
    lemma_run_plan_keeps(v, plan_start(v, target), n);
    if let Some((vn, mn)) = run_plan(v, plan_start(v, target), n) {
        lemma_plan_next_keeps(vn, mn);
    }
}

} // verus!
