use vstd::prelude::*;

use crate::bindings::{template_of, template_text, Gesture, FIXED_ONE};
use crate::direction::{direction_of, Direction, InOut};

verus! {

/// Phases of a hold gesture, as the touchpad reports them.
#[derive(Debug, Clone, Copy, PartialEq, Eq, Structural)]
pub enum HoldEvent {
    Begin { fingers: i32 },
    End,
}

/// Phases of a pinch gesture; `scale` is fixed-point (`FIXED_ONE` is 1.0).
#[derive(Debug, Clone, Copy, PartialEq, Eq, Structural)]
pub enum PinchEvent {
    Begin { fingers: i32 },
    Update { scale: i64 },
    End,
}

/// Phases of a swipe gesture; the motion is fixed-point (`FIXED_ONE` is 1.0).
#[derive(Debug, Clone, Copy, PartialEq, Eq, Structural)]
pub enum SwipeEvent {
    Begin { fingers: i32 },
    Update { dx: i64, dy: i64 },
    End { cancelled: bool },
}

/// An event read from the touchpad. Everything that is not a hold, pinch or
/// swipe (rotation, device notifications) is `Other` and is ignored.
#[derive(Debug, Clone, Copy, PartialEq, Eq, Structural)]
pub enum TouchEvent {
    Hold(HoldEvent),
    Pinch(PinchEvent),
    Swipe(SwipeEvent),
    Other,
}

/// The gesture in progress, as far as dispatch needs it: its kind, finger
/// count and last observed direction.
#[derive(Debug, Clone, Copy, PartialEq, Eq, Structural)]
pub enum LiveGesture {
    Idle,
    Swipe { direction: Direction, fingers: i32 },
    Pinch { direction: InOut, fingers: i32 },
    Hold { fingers: i32 },
}

/// The pointer button that drag emulation presses.
pub const DRAG_BUTTON: i32 = 1;

/// A reaction for the caller to carry out, in order.
#[derive(Debug, Clone, PartialEq, Eq)]
#[allow(inconsistent_fields)]
pub enum Action {
    /// Run a command template with the three fixed-point parameters.
    Exec { template: String, dx: i64, dy: i64, scale: i64 },
    /// Press a pointer button.
    MouseDown { button: i32 },
    /// Move the pointer by whole pixels.
    MoveRelative { dx: i32, dy: i32 },
    /// Release a pointer button after `delay_ms` milliseconds.
    MouseUpDelay { button: i32, delay_ms: i64 },
}

/// What an `Action` stands for, with the command template as its characters.
#[allow(inconsistent_fields)]
pub enum ActionView {
    Exec { template: Seq<char>, dx: i64, dy: i64, scale: i64 },
    MouseDown { button: i32 },
    MoveRelative { dx: i32, dy: i32 },
    MouseUpDelay { button: i32, delay_ms: i64 },
}

impl View for Action {
    type V = ActionView;

    open spec fn view(&self) -> ActionView {
        match self {
            Action::Exec { template, dx, dy, scale } => ActionView::Exec {
                template: template@,
                dx: *dx,
                dy: *dy,
                scale: *scale,
            },
            Action::MouseDown { button } => ActionView::MouseDown { button: *button },
            Action::MoveRelative { dx, dy } => ActionView::MoveRelative { dx: *dx, dy: *dy },
            Action::MouseUpDelay { button, delay_ms } => ActionView::MouseUpDelay {
                button: *button,
                delay_ms: *delay_ms,
            },
        }
    }
}

pub open spec fn views(s: Seq<Action>) -> Seq<ActionView> {
    s.map_values(|a: Action| a@)
}

pub open spec fn run(template: Seq<char>, dx: i64, dy: i64, scale: i64) -> Seq<ActionView> {
    seq![ActionView::Exec { template, dx, dy, scale }]
}

/// A pinch filter admits the direction `d` when it is `d` or the wildcard.
pub open spec fn pinch_admits(filter: InOut, d: InOut) -> bool {
    filter == d || filter == InOut::Any
}

/// A pinch whose scale has grown past 1.0 goes out, any other goes in.
pub open spec fn pinch_direction(scale: i64) -> InOut {
    if scale > FIXED_ONE {
        InOut::Out
    } else {
        InOut::In
    }
}

pub open spec fn clamp_i32(q: int) -> i32 {
    if q > i32::MAX {
        i32::MAX
    } else if q < i32::MIN {
        i32::MIN
    } else {
        q as i32
    }
}

/// Whole pixels that the pointer moves for motion `d` at acceleration `acc`
/// (both fixed-point): the product truncated toward zero, saturated to `i32`.
pub open spec fn pointer_offset(d: int, acc: int) -> i32 {
    let p = d * acc;
    let unit = FIXED_ONE * FIXED_ONE;
    clamp_i32(if p >= 0 { p / unit } else { -((-p) / unit) })
}

/// What the binding `b` contributes when `ev` arrives while `live` is the
/// gesture in progress.
pub open spec fn reaction(b: Gesture, live: LiveGesture, ev: TouchEvent) -> Seq<ActionView> {
    match (ev, b) {
        (TouchEvent::Hold(HoldEvent::End), Gesture::Hold(h)) => match live {
            LiveGesture::Hold { fingers } => if h.fingers == fingers {
                run(h.action@, 0, 0, 0)
            } else {
                Seq::empty()
            },
            _ => Seq::empty(),
        },
        (TouchEvent::Pinch(PinchEvent::Begin { fingers }), Gesture::Pinch(j)) => {
            if pinch_admits(j.direction, InOut::Any) && j.fingers == fingers {
                run(template_of(j.start), 0, 0, 0)
            } else {
                Seq::empty()
            }
        },
        (TouchEvent::Pinch(PinchEvent::Update { scale }), Gesture::Pinch(j)) => match live {
            LiveGesture::Pinch { fingers, .. } => if pinch_admits(
                j.direction,
                pinch_direction(scale),
            ) && j.fingers == fingers {
                run(template_of(j.update), 0, 0, scale)
            } else {
                Seq::empty()
            },
            _ => Seq::empty(),
        },
        (TouchEvent::Pinch(PinchEvent::End), Gesture::Pinch(j)) => match live {
            LiveGesture::Pinch { direction, fingers } => if pinch_admits(j.direction, direction)
                && j.fingers == fingers {
                run(template_of(j.end), 0, 0, 0)
            } else {
                Seq::empty()
            },
            _ => Seq::empty(),
        },
        (TouchEvent::Swipe(SwipeEvent::Begin { fingers }), Gesture::Swipe(j)) => {
            if j.fingers != fingers {
                Seq::empty()
            } else if j.direction == Direction::Any {
                seq![ActionView::MouseDown { button: DRAG_BUTTON }]
            } else {
                // the gesture has not moved yet: its direction is `Any`
                Seq::empty()
            }
        },
        (TouchEvent::Swipe(SwipeEvent::Update { dx, dy }), Gesture::Swipe(j)) => match live {
            LiveGesture::Swipe { fingers, .. } => if j.fingers != fingers {
                Seq::empty()
            } else if j.direction == Direction::Any {
                seq![
                    ActionView::MoveRelative {
                        dx: pointer_offset(dx as int, j.acceleration as int),
                        dy: pointer_offset(dy as int, j.acceleration as int),
                    },
                ]
            } else if j.direction == direction_of(dx as int, dy as int) {
                run(template_of(j.update), dx, dy, 0)
            } else {
                Seq::empty()
            },
            _ => Seq::empty(),
        },
        (TouchEvent::Swipe(SwipeEvent::End { cancelled }), Gesture::Swipe(j)) => match live {
            LiveGesture::Swipe { direction, fingers } => if cancelled || j.fingers != fingers {
                Seq::empty()
            } else if j.direction == Direction::Any {
                seq![
                    ActionView::MouseUpDelay { button: DRAG_BUTTON, delay_ms: j.mouse_up_delay },
                ]
            } else if j.direction == direction {
                run(template_of(j.end), 0, 0, 0)
            } else {
                Seq::empty()
            },
            _ => Seq::empty(),
        },
        _ => Seq::empty(),
    }
}

/// The reactions of all bindings, in configuration order: every binding that
/// matches fires.
pub open spec fn reactions(bs: Seq<Gesture>, live: LiveGesture, ev: TouchEvent) -> Seq<
    ActionView,
>
    decreases bs.len(),
{
    if bs.len() == 0 {
        Seq::empty()
    } else {
        reactions(bs.drop_last(), live, ev) + reaction(bs.last(), live, ev)
    }
}

/// The gesture in progress after `ev`. A begin always replaces it; an update
/// of the same kind records the new direction; an end leaves it as it was.
pub open spec fn next_live(live: LiveGesture, ev: TouchEvent) -> LiveGesture {
    match ev {
        TouchEvent::Hold(HoldEvent::Begin { fingers }) => LiveGesture::Hold { fingers },
        TouchEvent::Pinch(PinchEvent::Begin { fingers }) => LiveGesture::Pinch {
            direction: InOut::Any,
            fingers,
        },
        TouchEvent::Pinch(PinchEvent::Update { scale }) => match live {
            LiveGesture::Pinch { fingers, .. } => LiveGesture::Pinch {
                direction: pinch_direction(scale),
                fingers,
            },
            _ => live,
        },
        TouchEvent::Swipe(SwipeEvent::Begin { fingers }) => LiveGesture::Swipe {
            direction: Direction::Any,
            fingers,
        },
        TouchEvent::Swipe(SwipeEvent::Update { dx, dy }) => match live {
            LiveGesture::Swipe { fingers, .. } => LiveGesture::Swipe {
                direction: direction_of(dx as int, dy as int),
                fingers,
            },
            _ => live,
        },
        _ => live,
    }
}

fn pointer_offset_exec(d: i64, acc: i64) -> (r: i32)
    ensures
        r == pointer_offset(d as int, acc as int),
{
    proof {
        let di = d as int;
        let ai = acc as int;
        assert(-0x4000_0000_0000_0000_0000_0000_0000_0000 <= di * ai <= 0x4000_0000_0000_0000_0000_0000_0000_0000) by (nonlinear_arith)
        requires
            -0x8000_0000_0000_0000 <= di <= 0x7fff_ffff_ffff_ffff,
            -0x8000_0000_0000_0000 <= ai <= 0x7fff_ffff_ffff_ffff,
        ;
    }
    let p: i128 = (d as i128) * (acc as i128);
    let unit: i128 = 1_000_000_000_000;
    let q: i128 = if p >= 0 {
        p / unit
    } else {
        -((-p) / unit)
    };
    if q > i32::MAX as i128 {
        i32::MAX
    } else if q < i32::MIN as i128 {
        i32::MIN
    } else {
        q as i32
    }
}

fn pinch_direction_exec(scale: i64) -> (r: InOut)
    ensures
        r == pinch_direction(scale),
{
    if scale > FIXED_ONE {
        InOut::Out
    } else {
        InOut::In
    }
}

fn pinch_admits_exec(filter: InOut, d: InOut) -> (r: bool)
    ensures
        r == pinch_admits(filter, d),
{
    filter == d || filter == InOut::Any
}

fn exec_action(template: &Option<String>, dx: i64, dy: i64, scale: i64) -> (r: Action)
    ensures
        seq![r@] == run(template_of(*template), dx, dy, scale),
{
    Action::Exec { template: template_text(template), dx, dy, scale }
}

/// Appends to `out` what the binding `b` contributes when `ev` arrives while
/// `live` is the gesture in progress.
fn react(b: &Gesture, live: LiveGesture, ev: TouchEvent, out: &mut Vec<Action>)
    ensures
        views(final(out)@) == views(old(out)@) + reaction(*b, live, ev),
{
    let ghost before = out@;
    match (ev, b) {
        (TouchEvent::Hold(HoldEvent::End), Gesture::Hold(h)) => {
            if let LiveGesture::Hold { fingers } = live {
                if h.fingers == fingers {
                    out.push(Action::Exec { template: h.action.clone(), dx: 0, dy: 0, scale: 0 });
                }
            }
        },
        (TouchEvent::Pinch(PinchEvent::Begin { fingers }), Gesture::Pinch(j)) => {
            if pinch_admits_exec(j.direction, InOut::Any) && j.fingers == fingers {
                out.push(exec_action(&j.start, 0, 0, 0));
            }
        },
        (TouchEvent::Pinch(PinchEvent::Update { scale }), Gesture::Pinch(j)) => {
            if let LiveGesture::Pinch { fingers, .. } = live {
                if pinch_admits_exec(j.direction, pinch_direction_exec(scale)) && j.fingers
                    == fingers {
                    out.push(exec_action(&j.update, 0, 0, scale));
                }
            }
        },
        (TouchEvent::Pinch(PinchEvent::End), Gesture::Pinch(j)) => {
            if let LiveGesture::Pinch { direction, fingers } = live {
                if pinch_admits_exec(j.direction, direction) && j.fingers == fingers {
                    out.push(exec_action(&j.end, 0, 0, 0));
                }
            }
        },
        (TouchEvent::Swipe(SwipeEvent::Begin { fingers }), Gesture::Swipe(j)) => {
            if j.fingers == fingers && j.direction == Direction::Any {
                out.push(Action::MouseDown { button: DRAG_BUTTON });
            }
        },
        (TouchEvent::Swipe(SwipeEvent::Update { dx, dy }), Gesture::Swipe(j)) => {
            if let LiveGesture::Swipe { fingers, .. } = live {
                if j.fingers == fingers {
                    if j.direction == Direction::Any {
                        out.push(
                            Action::MoveRelative {
                                dx: pointer_offset_exec(dx, j.acceleration),
                                dy: pointer_offset_exec(dy, j.acceleration),
                            },
                        );
                    } else if j.direction == Direction::dir(dx, dy) {
                        out.push(exec_action(&j.update, dx, dy, 0));
                    }
                }
            }
        },
        (TouchEvent::Swipe(SwipeEvent::End { cancelled }), Gesture::Swipe(j)) => {
            if let LiveGesture::Swipe { direction, fingers } = live {
                if !cancelled && j.fingers == fingers {
                    if j.direction == Direction::Any {
                        out.push(
                            Action::MouseUpDelay { button: DRAG_BUTTON, delay_ms: j.mouse_up_delay },
                        );
                    } else if j.direction == direction {
                        out.push(exec_action(&j.end, 0, 0, 0));
                    }
                }
            }
        },
        _ => {},
    }
    assert(views(out@) =~= views(before) + reaction(*b, live, ev));
}

/// The reactions of every binding of `config`, in order.
fn react_all(config: &Vec<Gesture>, live: LiveGesture, ev: TouchEvent) -> (r: Vec<Action>)
    ensures
        views(r@) == reactions(config@, live, ev),
{
    let mut out: Vec<Action> = Vec::new();
    let mut i: usize = 0;
    while i < config.len()
        invariant
            i <= config.len(),
            views(out@) == reactions(config@.take(i as int), live, ev),
        decreases config.len() - i,
    {
        proof {
            assert(config@.take(i as int + 1).drop_last() =~= config@.take(i as int));
        }
        react(&config[i], live, ev, &mut out);
        i = i + 1;
    }
    assert(config@.take(i as int) =~= config@);
    out
}

/// The dispatch engine: the configured bindings, read-only once built, and the
/// single gesture in progress.
pub struct EventHandler {
    pub config: Vec<Gesture>,
    pub event: LiveGesture,
}

impl EventHandler {
    pub fn new(config: Vec<Gesture>) -> (r: EventHandler)
        ensures
            r.config@ == config@,
            r.event == LiveGesture::Idle,
    {
        EventHandler { config, event: LiveGesture::Idle }
    }

    /// Handles one touchpad event: returns the reactions of every binding that
    /// matches it, in configuration order, and updates the gesture in progress.
    pub fn handle_event(&mut self, ev: TouchEvent) -> (r: Vec<Action>)
        ensures
            final(self).config@ == old(self).config@,
            final(self).event == next_live(old(self).event, ev),
            views(r@) == reactions(old(self).config@, old(self).event, ev),
    {
        match ev {
            TouchEvent::Hold(e) => self.handle_hold_event(e),
            TouchEvent::Pinch(e) => self.handle_pinch_event(e),
            TouchEvent::Swipe(e) => self.handle_swipe_event(e),
            TouchEvent::Other => {
                assert(reactions(self.config@, self.event, ev) =~= Seq::empty()) by {
                    lemma_reactions_other(self.config@, self.event);
                }
                Vec::new()
            },
        }
    }

    /// A begin records the finger count; an end runs the action of every hold
    /// binding with that finger count.
    pub fn handle_hold_event(&mut self, e: HoldEvent) -> (r: Vec<Action>)
        ensures
            final(self).config@ == old(self).config@,
            final(self).event == next_live(old(self).event, TouchEvent::Hold(e)),
            views(r@) == reactions(old(self).config@, old(self).event, TouchEvent::Hold(e)),
    {
        let r = react_all(&self.config, self.event, TouchEvent::Hold(e));
        match e {
            HoldEvent::Begin { fingers } => {
                self.event = LiveGesture::Hold { fingers };
            },
            HoldEvent::End => {},
        }
        r
    }

    /// A begin starts a pinch with no direction yet; an update records whether
    /// it goes in or out; every phase runs the matching pinch bindings.
    pub fn handle_pinch_event(&mut self, e: PinchEvent) -> (r: Vec<Action>)
        ensures
            final(self).config@ == old(self).config@,
            final(self).event == next_live(old(self).event, TouchEvent::Pinch(e)),
            views(r@) == reactions(old(self).config@, old(self).event, TouchEvent::Pinch(e)),
    {
        let r = react_all(&self.config, self.event, TouchEvent::Pinch(e));
        match e {
            PinchEvent::Begin { fingers } => {
                self.event = LiveGesture::Pinch { direction: InOut::Any, fingers };
            },
            PinchEvent::Update { scale } => {
                if let LiveGesture::Pinch { fingers, .. } = self.event {
                    self.event = LiveGesture::Pinch {
                        direction: pinch_direction_exec(scale),
                        fingers,
                    };
                }
            },
            PinchEvent::End => {},
        }
        r
    }

    /// A begin starts a swipe with no direction yet; an update records the
    /// compass direction of its motion; an end that was not cancelled runs the
    /// matching swipe bindings. Wildcard bindings drag the pointer instead.
    pub fn handle_swipe_event(&mut self, e: SwipeEvent) -> (r: Vec<Action>)
        ensures
            final(self).config@ == old(self).config@,
            final(self).event == next_live(old(self).event, TouchEvent::Swipe(e)),
            views(r@) == reactions(old(self).config@, old(self).event, TouchEvent::Swipe(e)),
    {
        let r = react_all(&self.config, self.event, TouchEvent::Swipe(e));
        match e {
            SwipeEvent::Begin { fingers } => {
                self.event = LiveGesture::Swipe { direction: Direction::Any, fingers };
            },
            SwipeEvent::Update { dx, dy } => {
                if let LiveGesture::Swipe { fingers, .. } = self.event {
                    self.event = LiveGesture::Swipe { direction: Direction::dir(dx, dy), fingers };
                }
            },
            SwipeEvent::End { .. } => {},
        }
        r
    }
}

proof fn lemma_reactions_other(bs: Seq<Gesture>, live: LiveGesture)
    ensures
        reactions(bs, live, TouchEvent::Other) =~= Seq::<ActionView>::empty(),
    decreases bs.len(),
{
    if bs.len() > 0 {
        lemma_reactions_other(bs.drop_last(), live);
    }
}

/// A swipe that ends cancelled fires no binding, whatever the configuration
/// and the gesture in progress.
pub proof fn lemma_cancelled_swipe_end_is_silent(bs: Seq<Gesture>, live: LiveGesture)
    ensures
        reactions(bs, live, TouchEvent::Swipe(SwipeEvent::End { cancelled: true }))
            =~= Seq::<ActionView>::empty(),
    decreases bs.len(),
{
    if bs.len() > 0 {
        lemma_cancelled_swipe_end_is_silent(bs.drop_last(), live);
    }
}

} // verus!
