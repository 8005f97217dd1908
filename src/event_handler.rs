use vstd::prelude::*;

use crate::direction::{pinch_dir, swipe_dir, PinchDir, SwipeDir};
use crate::gestures::{
    actions, Action, Config, Gesture, GestureEvent, Hold, HoldEvent, Phase, Pinch, PinchEvent,
    Swipe, SwipeEvent,
};

verus! {

/// Why a new binding table could not be had; the active one stays.
#[derive(Debug, Clone, PartialEq, Eq)]
pub struct ConfigError {
    pub message: String,
}

/// The gesture in progress and the binding table it is dispatched against.
#[derive(Debug)]
pub struct EventHandler {
    config: Config,
    event: Gesture,
}

/// State of a swipe that is in progress: its finger count and last direction.
pub open spec fn swipe_state(fingers: i32, direction: SwipeDir) -> Gesture {
    Gesture::Swipe(
        Swipe {
            direction,
            fingers,
            update: None,
            start: None,
            end: None,
            acceleration: None,
            mouse_up_delay: None,
        },
    )
}

/// State of a pinch that is in progress: its finger count and last direction.
pub open spec fn pinch_state(fingers: i32, direction: PinchDir) -> Gesture {
    Gesture::Pinch(Pinch { fingers, direction, update: None, start: None, end: None })
}

/// State of a hold that is in progress.
pub open spec fn hold_state(fingers: i32) -> Gesture {
    Gesture::Hold(Hold { fingers, action: None })
}

/// The gesture in progress after `ev`: a begin starts its kind afresh, an
/// update of the kind in progress reclassifies it, an end of it returns to
/// `Idle`; an update or end of another kind changes nothing.
pub open spec fn next_state(state: Gesture, ev: GestureEvent) -> Gesture {
    match ev {
        GestureEvent::Swipe(SwipeEvent::Begin { fingers }) => swipe_state(fingers, SwipeDir::Any),
        GestureEvent::Pinch(PinchEvent::Begin { fingers }) => pinch_state(fingers, PinchDir::Any),
        GestureEvent::Hold(HoldEvent::Begin { fingers }) => hold_state(fingers),
        GestureEvent::Swipe(SwipeEvent::Update { dx, dy }) => match state {
            Gesture::Swipe(s) => swipe_state(s.fingers, swipe_dir(dx as int, dy as int)),
            _ => state,
        },
        GestureEvent::Pinch(PinchEvent::Update { scale, angle_delta }) => match state {
            Gesture::Pinch(s) => pinch_state(s.fingers, pinch_dir(scale as int, angle_delta as int)),
            _ => state,
        },
        GestureEvent::Swipe(SwipeEvent::End { .. }) => match state {
            Gesture::Swipe(_) => Gesture::Idle,
            _ => state,
        },
        GestureEvent::Pinch(PinchEvent::End) => match state {
            Gesture::Pinch(_) => Gesture::Idle,
            _ => state,
        },
        GestureEvent::Hold(HoldEvent::End) => match state {
            Gesture::Hold(_) => Gesture::Idle,
            _ => state,
        },
    }
}

/// The phase at which `ev` scans the binding table, if any: hold begins, a
/// cancelled swipe end, and updates or ends of a gesture not in progress scan
/// nothing.
pub open spec fn phase_of(state: Gesture, ev: GestureEvent) -> Option<Phase> {
    match ev {
        GestureEvent::Swipe(SwipeEvent::Begin { fingers }) => Some(Phase::SwipeBegin { fingers }),
        GestureEvent::Pinch(PinchEvent::Begin { fingers }) => Some(Phase::PinchBegin { fingers }),
        GestureEvent::Hold(HoldEvent::Begin { .. }) => None,
        GestureEvent::Swipe(SwipeEvent::Update { dx, dy }) => match state {
            Gesture::Swipe(s) => Some(
                Phase::SwipeUpdate {
                    fingers: s.fingers,
                    direction: swipe_dir(dx as int, dy as int),
                    dx,
                    dy,
                },
            ),
            _ => None,
        },
        GestureEvent::Pinch(PinchEvent::Update { scale, angle_delta }) => match state {
            Gesture::Pinch(s) => Some(
                Phase::PinchUpdate {
                    fingers: s.fingers,
                    direction: pinch_dir(scale as int, angle_delta as int),
                    scale,
                    angle_delta,
                },
            ),
            _ => None,
        },
        GestureEvent::Swipe(SwipeEvent::End { cancelled }) => match state {
            Gesture::Swipe(s) => if cancelled {
                None
            } else {
                Some(Phase::SwipeEnd { fingers: s.fingers, direction: s.direction })
            },
            _ => None,
        },
        GestureEvent::Pinch(PinchEvent::End) => match state {
            Gesture::Pinch(s) => Some(Phase::PinchEnd { fingers: s.fingers, direction: s.direction }),
            _ => None,
        },
        GestureEvent::Hold(HoldEvent::End) => match state {
            Gesture::Hold(s) => Some(Phase::HoldEnd { fingers: s.fingers }),
            _ => None,
        },
    }
}

/// The actions that `ev` triggers in `state` against the binding table `table`.
pub open spec fn step_actions(table: Seq<Gesture>, state: Gesture, ev: GestureEvent, is_xorg: bool) -> Seq<
    Action,
> {
    match phase_of(state, ev) {
        Some(phase) => actions(table, phase, is_xorg),
        None => seq![],
    }
}

impl EventHandler {
    /// The binding table that events are dispatched against.
    pub closed spec fn bindings(&self) -> Seq<Gesture> {
        self.config.gestures@
    }

    /// The gesture in progress.
    pub closed spec fn current(&self) -> Gesture {
        self.event
    }

    /// The handler after a reload from `source`: a table that was had replaces
    /// the active one, a failure leaves the handler as it is.
    pub closed spec fn reloaded(&self, source: Result<Config, ConfigError>) -> EventHandler {
        match source {
            Ok(config) => EventHandler { config, event: self.event },
            Err(_) => *self,
        }
    }

    pub fn new(config: Config) -> (r: Self)
        ensures
            r.bindings() == config.gestures@,
            r.current() == Gesture::Idle,
    {
        Self { config, event: Gesture::Idle }
    }

    /// The gesture in progress.
    pub fn state(&self) -> (r: &Gesture)
        ensures
            *r == self.current(),
    {
        &self.event
    }

    /// The active binding table.
    pub fn config(&self) -> (r: &Config)
        ensures
            r.gestures@ == self.bindings(),
    {
        &self.config
    }

    /// Replaces the binding table with `source` when it holds one; otherwise
    /// keeps the active table and hands the failure back.
    pub fn reload(&mut self, source: Result<Config, ConfigError>) -> (r: Result<(), ConfigError>)
        ensures
            *final(self) == old(self).reloaded(source),
            r == (match source {
                Ok(_) => Ok::<(), ConfigError>(()),
                Err(e) => Err(e),
            }),
    {
        match source {
            Ok(config) => {
                self.config = config;
                Ok(())
            },
            Err(e) => Err(e),
        }
    }

    /// Feeds one event to the state machine and returns, in table order, the
    /// actions of every binding that it matches.
    pub fn handle_event(&mut self, event: GestureEvent, is_xorg: bool) -> (r: Vec<Action>)
        ensures
            final(self).bindings() == old(self).bindings(),
            final(self).current() == next_state(old(self).current(), event),
            r@ == step_actions(old(self).bindings(), old(self).current(), event, is_xorg),
    {
        match event {
            GestureEvent::Swipe(e) => self.handle_swipe_event(e, is_xorg),
            GestureEvent::Pinch(e) => self.handle_pinch_event(e, is_xorg),
            GestureEvent::Hold(e) => self.handle_hold_event(e, is_xorg),
        }
    }

    fn handle_hold_event(&mut self, event: HoldEvent, is_xorg: bool) -> (r: Vec<Action>)
        ensures
            final(self).bindings() == old(self).bindings(),
            final(self).current() == next_state(old(self).current(), GestureEvent::Hold(event)),
            r@ == step_actions(
                old(self).bindings(),
                old(self).current(),
                GestureEvent::Hold(event),
                is_xorg,
            ),
    {
        match event {
            HoldEvent::Begin { fingers } => {
                self.event = Gesture::Hold(Hold { fingers, action: None });
                Vec::new()
            },
            HoldEvent::End => {
                let fingers = match &self.event {
                    Gesture::Hold(s) => s.fingers,
                    _ => {
                        return Vec::new();
                    },
                };
                let r = self.config.dispatch(&Phase::HoldEnd { fingers }, is_xorg);
                self.event = Gesture::Idle;
                r
            },
        }
    }

    fn handle_pinch_event(&mut self, event: PinchEvent, is_xorg: bool) -> (r: Vec<Action>)
        ensures
            final(self).bindings() == old(self).bindings(),
            final(self).current() == next_state(old(self).current(), GestureEvent::Pinch(event)),
            r@ == step_actions(
                old(self).bindings(),
                old(self).current(),
                GestureEvent::Pinch(event),
                is_xorg,
            ),
    {
        match event {
            PinchEvent::Begin { fingers } => {
                self.event = Gesture::Pinch(
                    Pinch { fingers, direction: PinchDir::Any, update: None, start: None, end: None },
                );
                self.config.dispatch(&Phase::PinchBegin { fingers }, is_xorg)
            },
            PinchEvent::Update { scale, angle_delta } => {
                let fingers = match &self.event {
                    Gesture::Pinch(s) => s.fingers,
                    _ => {
                        return Vec::new();
                    },
                };
                let direction = PinchDir::dir(scale, angle_delta);
                let r = self.config.dispatch(
                    &Phase::PinchUpdate { fingers, direction, scale, angle_delta },
                    is_xorg,
                );
                self.event = Gesture::Pinch(
                    Pinch { fingers, direction, update: None, start: None, end: None },
                );
                r
            },
            PinchEvent::End => {
                let (fingers, direction) = match &self.event {
                    Gesture::Pinch(s) => (s.fingers, s.direction),
                    _ => {
                        return Vec::new();
                    },
                };
                let r = self.config.dispatch(&Phase::PinchEnd { fingers, direction }, is_xorg);
                self.event = Gesture::Idle;
                r
            },
        }
    }

    fn handle_swipe_event(&mut self, event: SwipeEvent, is_xorg: bool) -> (r: Vec<Action>)
        ensures
            final(self).bindings() == old(self).bindings(),
            final(self).current() == next_state(old(self).current(), GestureEvent::Swipe(event)),
            r@ == step_actions(
                old(self).bindings(),
                old(self).current(),
                GestureEvent::Swipe(event),
                is_xorg,
            ),
    {
        match event {
            SwipeEvent::Begin { fingers } => {
                self.event = Gesture::Swipe(
                    Swipe {
                        direction: SwipeDir::Any,
                        fingers,
                        update: None,
                        start: None,
                        end: None,
                        acceleration: None,
                        mouse_up_delay: None,
                    },
                );
                self.config.dispatch(&Phase::SwipeBegin { fingers }, is_xorg)
            },
            SwipeEvent::Update { dx, dy } => {
                let fingers = match &self.event {
                    Gesture::Swipe(s) => s.fingers,
                    _ => {
                        return Vec::new();
                    },
                };
                let direction = SwipeDir::dir(dx, dy);
                let r = self.config.dispatch(
                    &Phase::SwipeUpdate { fingers, direction, dx, dy },
                    is_xorg,
                );
                self.event = Gesture::Swipe(
                    Swipe {
                        direction,
                        fingers,
                        update: None,
                        start: None,
                        end: None,
                        acceleration: None,
                        mouse_up_delay: None,
                    },
                );
                r
            },
            SwipeEvent::End { cancelled } => {
                let (fingers, direction) = match &self.event {
                    Gesture::Swipe(s) => (s.fingers, s.direction),
                    _ => {
                        return Vec::new();
                    },
                };
                let r = if cancelled {
                    Vec::new()
                } else {
                    self.config.dispatch(&Phase::SwipeEnd { fingers, direction }, is_xorg)
                };
                self.event = Gesture::Idle;
                r
            },
        }
    }
}

/// A reload that yields a table makes it the one that the very next event is
/// dispatched against, with the gesture in progress left as it was.
pub proof fn lemma_reload_visible_to_next_event(
    h: EventHandler,
    config: Config,
    ev: GestureEvent,
    is_xorg: bool,
)
    ensures
        h.reloaded(Ok(config)).bindings() == config.gestures@,
        h.reloaded(Ok(config)).current() == h.current(),
        step_actions(
            h.reloaded(Ok(config)).bindings(),
            h.reloaded(Ok(config)).current(),
            ev,
            is_xorg,
        ) == step_actions(config.gestures@, h.current(), ev, is_xorg),
{
}

/// A reload that fails leaves the handler, its binding table included, exactly
/// as it was.
pub proof fn lemma_failed_reload_keeps_table(h: EventHandler, e: ConfigError)
    ensures
        h.reloaded(Err(e)) == h,
        h.reloaded(Err(e)).bindings() == h.bindings(),
{
}

} // verus!
