use vstd::prelude::*;

use crate::direction::{pinch_dir, swipe_dir, PinchDir, SwipeDir, FIXED_ONE};

verus! {

/// A swipe binding; while a swipe is in progress, also its state.
#[derive(Debug, Clone, PartialEq, Eq)]
pub struct Swipe {
    pub direction: SwipeDir,
    pub fingers: i32,
    pub update: Option<String>,
    pub start: Option<String>,
    pub end: Option<String>,
    pub acceleration: Option<i8>,
    pub mouse_up_delay: Option<i64>,
}

/// A pinch binding; while a pinch is in progress, also its state.
#[derive(Debug, Clone, PartialEq, Eq)]
pub struct Pinch {
    pub fingers: i32,
    pub direction: PinchDir,
    pub update: Option<String>,
    pub start: Option<String>,
    pub end: Option<String>,
}

/// A hold binding; while a hold is in progress, also its state.
#[derive(Debug, Clone, PartialEq, Eq)]
pub struct Hold {
    pub fingers: i32,
    pub action: Option<String>,
}

#[derive(Debug, Clone, PartialEq, Eq)]
pub enum Gesture {
    Swipe(Swipe),
    Pinch(Pinch),
    Hold(Hold),
    Idle,
}

/// The binding table: every binding that matches a gesture fires, in this order.
#[derive(Debug, Clone, PartialEq, Eq)]
pub struct Config {
    pub gestures: Vec<Gesture>,
}

/// Events of a swipe; `dx` and `dy` in fixed-point units.
#[derive(Debug, Clone, Copy, PartialEq, Eq, Structural)]
pub enum SwipeEvent {
    Begin { fingers: i32 },
    Update { dx: i64, dy: i64 },
    End { cancelled: bool },
}

/// Events of a pinch; `scale` and `angle_delta` in fixed-point units.
#[derive(Debug, Clone, Copy, PartialEq, Eq, Structural)]
pub enum PinchEvent {
    Begin { fingers: i32 },
    Update { scale: i64, angle_delta: i64 },
    End,
}

#[derive(Debug, Clone, Copy, PartialEq, Eq, Structural)]
pub enum HoldEvent {
    Begin { fingers: i32 },
    End,
}

#[derive(Debug, Clone, Copy, PartialEq, Eq, Structural)]
pub enum GestureEvent {
    Swipe(SwipeEvent),
    Pinch(PinchEvent),
    Hold(HoldEvent),
}

/// A point of a gesture at which the binding table is scanned, with the
/// in-progress gesture's finger count and direction.
#[derive(Debug, Clone, Copy, PartialEq, Eq, Structural)]
pub enum Phase {
    SwipeBegin { fingers: i32 },
    SwipeUpdate { fingers: i32, direction: SwipeDir, dx: i64, dy: i64 },
    SwipeEnd { fingers: i32, direction: SwipeDir },
    PinchBegin { fingers: i32 },
    PinchUpdate { fingers: i32, direction: PinchDir, scale: i64, angle_delta: i64 },
    PinchEnd { fingers: i32, direction: PinchDir },
    HoldEnd { fingers: i32 },
}

/// A side effect that a matched binding asks for.
#[derive(Debug, Clone, PartialEq, Eq)]
pub enum Action {
    /// Run a command template with the four placeholders, in fixed-point units.
    Exec { command: String, dx: i64, dy: i64, angle_delta: i64, scale: i64 },
    /// Press a pointer button.
    MouseDown { button: u8 },
    /// Move the pointer by whole pixels.
    MouseMove { dx: i32, dy: i32 },
    /// Release a pointer button after `delay`.
    MouseUp { button: u8, delay: i64 },
}

pub open spec fn swipe_matches(binding: SwipeDir, dir: SwipeDir) -> bool {
    binding == dir || binding == SwipeDir::Any
}

pub open spec fn pinch_matches(binding: PinchDir, dir: PinchDir) -> bool {
    binding == dir || binding == PinchDir::Any
}

/// The swipe binding drives the pointer directly instead of running commands.
pub open spec fn fast_path(b: Swipe, is_xorg: bool) -> bool {
    is_xorg && b.acceleration.is_some() && b.mouse_up_delay.is_some() && b.direction
        == SwipeDir::Any
}

/// The command of an action slot, if it is set.
pub open spec fn command(slot: Option<String>, dx: i64, dy: i64, angle_delta: i64, scale: i64) -> Seq<
    Action,
> {
    match slot {
        Some(c) => seq![Action::Exec { command: c, dx, dy, angle_delta, scale }],
        None => seq![],
    }
}

/// Integer division rounding toward zero, for a positive divisor.
pub open spec fn trunc_div(a: int, b: int) -> int {
    if a < 0 {
        -((-a) / b)
    } else {
        a / b
    }
}

pub open spec fn clamp_i32(v: int) -> int {
    if v < i32::MIN {
        i32::MIN as int
    } else if v > i32::MAX {
        i32::MAX as int
    } else {
        v
    }
}

/// Whole pixels of pointer motion for a displacement `d` (fixed-point) with
/// the given acceleration: `d * acceleration / 10`, truncated and saturated.
pub open spec fn pointer_step(d: int, acceleration: int) -> int {
    clamp_i32(trunc_div(d * acceleration, 10 * FIXED_ONE))
}

pub open spec fn swipe_binding_actions(b: Swipe, phase: Phase, is_xorg: bool) -> Seq<Action> {
    match phase {
        Phase::SwipeBegin { fingers } => {
            if b.fingers != fingers {
                seq![]
            } else if fast_path(b, is_xorg) {
                seq![Action::MouseDown { button: 1 }]
            } else if swipe_matches(b.direction, SwipeDir::Any) {
                command(b.start, 0, 0, 0, 0)
            } else {
                seq![]
            }
        },
        Phase::SwipeUpdate { fingers, direction, dx, dy } => {
            if b.fingers != fingers {
                seq![]
            } else if fast_path(b, is_xorg) {
                seq![
                    Action::MouseMove {
                        dx: pointer_step(dx as int, b.acceleration.unwrap() as int) as i32,
                        dy: pointer_step(dy as int, b.acceleration.unwrap() as int) as i32,
                    },
                ]
            } else if swipe_matches(b.direction, direction) {
                command(b.update, dx, dy, 0, 0)
            } else {
                seq![]
            }
        },
        Phase::SwipeEnd { fingers, direction } => {
            if b.fingers != fingers {
                seq![]
            } else if fast_path(b, is_xorg) {
                seq![Action::MouseUp { button: 1, delay: b.mouse_up_delay.unwrap() }]
            } else if swipe_matches(b.direction, direction) {
                command(b.end, 0, 0, 0, 0)
            } else {
                seq![]
            }
        },
        _ => seq![],
    }
}

pub open spec fn pinch_binding_actions(b: Pinch, phase: Phase) -> Seq<Action> {
    match phase {
        Phase::PinchBegin { fingers } => {
            if b.fingers == fingers && pinch_matches(b.direction, PinchDir::Any) {
                command(b.start, 0, 0, 0, 0)
            } else {
                seq![]
            }
        },
        Phase::PinchUpdate { fingers, direction, scale, angle_delta } => {
            if b.fingers == fingers && pinch_matches(b.direction, direction) {
                command(b.update, 0, 0, angle_delta, scale)
            } else {
                seq![]
            }
        },
        Phase::PinchEnd { fingers, direction } => {
            if b.fingers == fingers && pinch_matches(b.direction, direction) {
                command(b.end, 0, 0, 0, 0)
            } else {
                seq![]
            }
        },
        _ => seq![],
    }
}

pub open spec fn hold_binding_actions(b: Hold, phase: Phase) -> Seq<Action> {
    match phase {
        Phase::HoldEnd { fingers } => {
            if b.fingers == fingers {
                command(b.action, 0, 0, 0, 0)
            } else {
                seq![]
            }
        },
        _ => seq![],
    }
}

/// What one binding asks for at a phase: nothing unless it is of the phase's
/// kind, has its finger count, and its direction matches.
pub open spec fn binding_actions(g: Gesture, phase: Phase, is_xorg: bool) -> Seq<Action> {
    match g {
        Gesture::Swipe(b) => swipe_binding_actions(b, phase, is_xorg),
        Gesture::Pinch(b) => pinch_binding_actions(b, phase),
        Gesture::Hold(b) => hold_binding_actions(b, phase),
        Gesture::Idle => seq![],
    }
}

/// The actions of a whole table: those of each binding, in table order.
pub open spec fn actions(table: Seq<Gesture>, phase: Phase, is_xorg: bool) -> Seq<Action>
    decreases table.len(),
{
    if table.len() == 0 {
        seq![]
    } else {
        actions(table.drop_last(), phase, is_xorg) + binding_actions(table.last(), phase, is_xorg)
    }
}

fn push_command(
    r: &mut Vec<Action>,
    slot: &Option<String>,
    dx: i64,
    dy: i64,
    angle_delta: i64,
    scale: i64,
)
    ensures
        final(r)@ == old(r)@ + command(*slot, dx, dy, angle_delta, scale),
{
    match slot {
        Some(c) => {
            r.push(Action::Exec { command: c.clone(), dx, dy, angle_delta, scale });
        },
        None => {},
    }
    assert(final(r)@ =~= old(r)@ + command(*slot, dx, dy, angle_delta, scale));
}

fn pointer_step_exec(d: i64, acceleration: i8) -> (r: i32)
    ensures
        r as int == pointer_step(d as int, acceleration as int),
{
    assert(-0x8000_0000_0000_0000_0000i128 <= (d as int) * (acceleration as int)
        <= 0x8000_0000_0000_0000_0000i128) by (nonlinear_arith)
        requires
            -0x8000_0000_0000_0000 <= d <= 0x7fff_ffff_ffff_ffff,
            -128 <= acceleration <= 127,
    ;
    let p: i128 = d as i128 * acceleration as i128;
    let m: u128 = if p < 0 {
        (-p) as u128
    } else {
        p as u128
    };
    let q: u128 = m / 10_000_000;
    if p < 0 {
        if q > 0x8000_0000 {
            i32::MIN
        } else {
            (-(q as i64)) as i32
        }
    } else {
        if q > 0x7fff_ffff {
            i32::MAX
        } else {
            q as i32
        }
    }
}

fn swipe_binding_actions_exec(b: &Swipe, phase: &Phase, is_xorg: bool) -> (r: Vec<Action>)
    ensures
        r@ == swipe_binding_actions(*b, *phase, is_xorg),
{
    let mut r: Vec<Action> = Vec::new();
    let fast = is_xorg && b.acceleration.is_some() && b.mouse_up_delay.is_some() && b.direction
        == SwipeDir::Any;
    match phase {
        Phase::SwipeBegin { fingers } => {
            if b.fingers == *fingers {
                if fast {
                    r.push(Action::MouseDown { button: 1 });
                } else if b.direction == SwipeDir::Any {
                    push_command(&mut r, &b.start, 0, 0, 0, 0);
                }
            }
        },
        Phase::SwipeUpdate { fingers, direction, dx, dy } => {
            if b.fingers == *fingers {
                match (b.acceleration, fast) {
                    (Some(acceleration), true) => {
                        let x = pointer_step_exec(*dx, acceleration);
                        let y = pointer_step_exec(*dy, acceleration);
                        r.push(Action::MouseMove { dx: x, dy: y });
                    },
                    _ => {
                        if b.direction == *direction || b.direction == SwipeDir::Any {
                            push_command(&mut r, &b.update, *dx, *dy, 0, 0);
                        }
                    },
                }
            }
        },
        Phase::SwipeEnd { fingers, direction } => {
            if b.fingers == *fingers {
                match (b.mouse_up_delay, fast) {
                    (Some(delay), true) => {
                        r.push(Action::MouseUp { button: 1, delay });
                    },
                    _ => {
                        if b.direction == *direction || b.direction == SwipeDir::Any {
                            push_command(&mut r, &b.end, 0, 0, 0, 0);
                        }
                    },
                }
            }
        },
        _ => {},
    }
    assert(r@ =~= swipe_binding_actions(*b, *phase, is_xorg));
    r
}

fn pinch_binding_actions_exec(b: &Pinch, phase: &Phase) -> (r: Vec<Action>)
    ensures
        r@ == pinch_binding_actions(*b, *phase),
{
    let mut r: Vec<Action> = Vec::new();
    match phase {
        Phase::PinchBegin { fingers } => {
            if b.fingers == *fingers && b.direction == PinchDir::Any {
                push_command(&mut r, &b.start, 0, 0, 0, 0);
            }
        },
        Phase::PinchUpdate { fingers, direction, scale, angle_delta } => {
            if b.fingers == *fingers && (b.direction == *direction || b.direction
                == PinchDir::Any) {
                push_command(&mut r, &b.update, 0, 0, *angle_delta, *scale);
            }
        },
        Phase::PinchEnd { fingers, direction } => {
            if b.fingers == *fingers && (b.direction == *direction || b.direction
                == PinchDir::Any) {
                push_command(&mut r, &b.end, 0, 0, 0, 0);
            }
        },
        _ => {},
    }
    assert(r@ =~= pinch_binding_actions(*b, *phase));
    r
}

fn hold_binding_actions_exec(b: &Hold, phase: &Phase) -> (r: Vec<Action>)
    ensures
        r@ == hold_binding_actions(*b, *phase),
{
    let mut r: Vec<Action> = Vec::new();
    match phase {
        Phase::HoldEnd { fingers } => {
            if b.fingers == *fingers {
                push_command(&mut r, &b.action, 0, 0, 0, 0);
            }
        },
        _ => {},
    }
    assert(r@ =~= hold_binding_actions(*b, *phase));
    r
}

/// The actions that one binding asks for at `phase`.
pub fn binding_actions_of(g: &Gesture, phase: &Phase, is_xorg: bool) -> (r: Vec<Action>)
    ensures
        r@ == binding_actions(*g, *phase, is_xorg),
{
    match g {
        Gesture::Swipe(b) => swipe_binding_actions_exec(b, phase, is_xorg),
        Gesture::Pinch(b) => pinch_binding_actions_exec(b, phase),
        Gesture::Hold(b) => hold_binding_actions_exec(b, phase),
        Gesture::Idle => Vec::new(),
    }
}

impl Config {
    /// Scans the whole table once and collects the actions of every binding
    /// that matches `phase`, in table order.
    pub fn dispatch(&self, phase: &Phase, is_xorg: bool) -> (r: Vec<Action>)
        ensures
            r@ == actions(self.gestures@, *phase, is_xorg),
    {
        let mut r: Vec<Action> = Vec::new();
        let mut i: usize = 0;
        while i < self.gestures.len()
            invariant
                i <= self.gestures@.len(),
                r@ == actions(self.gestures@.subrange(0, i as int), *phase, is_xorg),
            decreases self.gestures@.len() - i,
        {
            let mut a = binding_actions_of(&self.gestures[i], phase, is_xorg);
            assert(self.gestures@.subrange(0, i + 1).drop_last() =~= self.gestures@.subrange(
                0,
                i as int,
            ));
            r.append(&mut a);
            i = i + 1;
        }
        assert(self.gestures@.subrange(0, self.gestures@.len() as int) =~= self.gestures@);
        r
    }
}

/// Dispatch never stops at a first match: the actions of a table made of two
/// parts are those of the first part followed by those of the second.
pub proof fn lemma_dispatch_concat(a: Seq<Gesture>, b: Seq<Gesture>, phase: Phase, is_xorg: bool)
    ensures
        actions(a + b, phase, is_xorg) == actions(a, phase, is_xorg) + actions(b, phase, is_xorg),
    decreases b.len(),
{
    if b.len() == 0 {
        assert(a + b =~= a);
        assert(actions(a, phase, is_xorg) + actions(b, phase, is_xorg) =~= actions(a, phase, is_xorg));
    } else {
        lemma_dispatch_concat(a, b.drop_last(), phase, is_xorg);
        assert((a + b).drop_last() =~= a + b.drop_last());
        assert((a + b).last() == b.last());
        assert(actions(a + b, phase, is_xorg) =~= actions(a, phase, is_xorg) + actions(
            b,
            phase,
            is_xorg,
        ));
    }
}

/// Of two bindings, both fire: each contributes its own actions once, the
/// first binding's before the second's.
pub proof fn lemma_both_bindings_fire(first: Gesture, second: Gesture, phase: Phase, is_xorg: bool)
    ensures
        actions(seq![first, second], phase, is_xorg) == binding_actions(first, phase, is_xorg)
            + binding_actions(second, phase, is_xorg),
{
    let t = seq![first, second];
    assert(t.drop_last() =~= seq![first]);
    assert(seq![first].drop_last() =~= Seq::<Gesture>::empty());
    assert(t.last() == second);
    assert(actions(t, phase, is_xorg) == actions(seq![first], phase, is_xorg) + binding_actions(
        second,
        phase,
        is_xorg,
    ));
    assert(actions(seq![first], phase, is_xorg) == actions(Seq::<Gesture>::empty(), phase, is_xorg)
        + binding_actions(first, phase, is_xorg));
    assert(actions(Seq::<Gesture>::empty(), phase, is_xorg) + binding_actions(first, phase, is_xorg)
        =~= binding_actions(first, phase, is_xorg));
}

/// A binding whose direction is `Any` matches every direction of its kind; a
/// binding with a specific direction matches no other specific direction.
pub proof fn lemma_wildcard_direction(binding: SwipeDir, dir: SwipeDir, pinch_binding: PinchDir, pinch: PinchDir)
    ensures
        swipe_matches(SwipeDir::Any, dir),
        pinch_matches(PinchDir::Any, pinch),
        binding != SwipeDir::Any && dir != SwipeDir::Any && binding != dir ==> !swipe_matches(
            binding,
            dir,
        ),
        pinch_binding != PinchDir::Any && pinch != PinchDir::Any && pinch_binding != pinch
            ==> !pinch_matches(pinch_binding, pinch),
{
}

/// At a swipe update, a command binding for `Any` with the right finger count
/// runs its update command whatever the classified direction; one for a
/// specific direction runs nothing on another specific direction.
pub proof fn lemma_swipe_update_wildcard(b: Swipe, direction: SwipeDir, dx: i64, dy: i64, is_xorg: bool)
    requires
        !fast_path(b, is_xorg),
    ensures
        b.direction == SwipeDir::Any ==> binding_actions(
            Gesture::Swipe(b),
            Phase::SwipeUpdate { fingers: b.fingers, direction, dx, dy },
            is_xorg,
        ) == command(b.update, dx, dy, 0, 0),
        b.direction != SwipeDir::Any && direction != SwipeDir::Any && b.direction != direction
            ==> binding_actions(
            Gesture::Swipe(b),
            Phase::SwipeUpdate { fingers: b.fingers, direction, dx, dy },
            is_xorg,
        ) == Seq::<Action>::empty(),
{
}

/// At a pinch update, a binding for `Any` with the right finger count runs its
/// update command whatever the classified direction; one for a specific
/// direction runs nothing on another specific direction.
pub proof fn lemma_pinch_update_wildcard(b: Pinch, direction: PinchDir, scale: i64, angle_delta: i64, is_xorg: bool)
    ensures
        b.direction == PinchDir::Any ==> binding_actions(
            Gesture::Pinch(b),
            Phase::PinchUpdate { fingers: b.fingers, direction, scale, angle_delta },
            is_xorg,
        ) == command(b.update, 0, 0, angle_delta, scale),
        b.direction != PinchDir::Any && direction != PinchDir::Any && b.direction != direction
            ==> binding_actions(
            Gesture::Pinch(b),
            Phase::PinchUpdate { fingers: b.fingers, direction, scale, angle_delta },
            is_xorg,
        ) == Seq::<Action>::empty(),
{
}

} // verus!
