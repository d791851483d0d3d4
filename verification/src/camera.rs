//! What the viewer does on each input event.
//!
//! The render loop owns a window and a camera and hands every event of a
//! frame, in the order of arrival, to a `CameraController`. The controller
//! keeps the two facts that outlast an event, whether the left button is held
//! and whether the meshes turn by themselves, and answers with the movement
//! that the loop has to carry out. The amounts of a movement (the pointer's
//! delta, the configured speeds) stay with the loop.

use vstd::prelude::*;

verus! {

/// State of a key or button click.
#[derive(Debug, Clone, Copy, PartialEq, Eq, Structural)]
pub enum ButtonState {
    Pressed,
    Released,
}

/// Type of mouse button.
#[derive(Debug, Clone, Copy, PartialEq, Eq, Structural)]
pub enum MouseButton {
    Left,
    Right,
    Middle,
}

/// The keys that the viewer reacts to, and one variant for every other key.
#[derive(Debug, Clone, Copy, PartialEq, Eq, Structural)]
pub enum Key {
    ArrowDown,
    ArrowLeft,
    ArrowRight,
    ArrowUp,
    PageUp,
    PageDown,
    W,
    A,
    S,
    D,
    R,
    F,
    P,
    Other,
}

/// An input event, without the amounts that come with it.
#[derive(Debug, Clone, Copy, PartialEq, Eq, Structural)]
pub enum InputEvent {
    MouseClick { state: ButtonState, button: MouseButton },
    MouseMotion,
    MouseWheel,
    Key { state: ButtonState, kind: Key },
    Other,
}

/// A world axis.
#[derive(Debug, Clone, Copy, PartialEq, Eq, Structural)]
pub enum Axis {
    X,
    Y,
    Z,
}

/// The two directions across the view.
#[derive(Debug, Clone, Copy, PartialEq, Eq, Structural)]
pub enum PanAxis {
    Horizontal,
    Vertical,
}

/// The direction of a movement along an axis.
#[derive(Debug, Clone, Copy, PartialEq, Eq, Structural)]
pub enum Sign {
    Positive,
    Negative,
}

/// The movement that an event asks of the camera.
#[derive(Debug, Clone, Copy, PartialEq, Eq, Structural)]
pub enum CameraAction {
    /// The camera stays.
    Nothing,
    /// Rotate the eye around the target, by the pointer's delta times the
    /// rotate speed.
    Orbit,
    /// Move the eye along the view direction, by the wheel's delta.
    ZoomByWheel,
    /// Move the eye along the view direction, by the keyboard zoom speed.
    ZoomByKey(Sign),
    /// Shift eye and target together across the view, by the pan speed.
    Pan(PanAxis, Sign),
    /// Move eye and target along a world axis, by the fixed step.
    Translate(Axis, Sign),
}

/// The movement that a pressed key asks for.
pub open spec fn key_action(kind: Key) -> CameraAction {
    match kind {
        Key::W => CameraAction::Translate(Axis::X, Sign::Positive),
        Key::S => CameraAction::Translate(Axis::X, Sign::Negative),
        Key::A => CameraAction::Translate(Axis::Y, Sign::Positive),
        Key::D => CameraAction::Translate(Axis::Y, Sign::Negative),
        Key::R => CameraAction::Translate(Axis::Z, Sign::Positive),
        Key::F => CameraAction::Translate(Axis::Z, Sign::Negative),
        Key::ArrowLeft => CameraAction::Pan(PanAxis::Horizontal, Sign::Positive),
        Key::ArrowRight => CameraAction::Pan(PanAxis::Horizontal, Sign::Negative),
        Key::ArrowUp => CameraAction::Pan(PanAxis::Vertical, Sign::Positive),
        Key::ArrowDown => CameraAction::Pan(PanAxis::Vertical, Sign::Negative),
        Key::PageUp => CameraAction::ZoomByKey(Sign::Positive),
        Key::PageDown => CameraAction::ZoomByKey(Sign::Negative),
        Key::P => CameraAction::Nothing,
        Key::Other => CameraAction::Nothing,
    }
}

/// What outlasts an event: whether the pointer orbits the camera, and
/// whether the meshes turn by themselves.
#[derive(Debug, Clone, Copy, PartialEq, Eq, Structural)]
pub struct CameraController {
    /// The left button is held: its last click was a press.
    pub rotating: bool,
    /// The meshes turn with time. The key `P` toggles it.
    pub auto_rotate: bool,
}

impl CameraController {
    /// The controller after an event.
    pub open spec fn next(self, event: InputEvent) -> CameraController {
        match event {
            InputEvent::MouseClick { state, button } => CameraController {
                rotating: if button == MouseButton::Left {
                    state == ButtonState::Pressed
                } else {
                    self.rotating
                },
                auto_rotate: self.auto_rotate,
            },
            InputEvent::Key { state, kind } => CameraController {
                rotating: self.rotating,
                auto_rotate: if kind == Key::P && state == ButtonState::Pressed {
                    !self.auto_rotate
                } else {
                    self.auto_rotate
                },
            },
            _ => self,
        }
    }

    /// The movement that an event asks for.
    pub open spec fn action(self, event: InputEvent) -> CameraAction {
        match event {
            InputEvent::MouseMotion => if self.rotating {
                CameraAction::Orbit
            } else {
                CameraAction::Nothing
            },
            InputEvent::MouseWheel => CameraAction::ZoomByWheel,
            InputEvent::Key { state, kind } => if state == ButtonState::Pressed {
                key_action(kind)
            } else {
                CameraAction::Nothing
            },
            _ => CameraAction::Nothing,
        }
    }

    /// The controller after a run of events, taken in their order.
    pub open spec fn after(self, events: Seq<InputEvent>) -> CameraController
        decreases events.len(),
    {
        if events.len() == 0 {
            self
        } else {
            self.after(events.drop_last()).next(events.last())
        }
    }

    /// The movements that a run of events asks for, one for each event: each
    /// is decided by the controller as the events before it left it.
    pub open spec fn actions(self, events: Seq<InputEvent>) -> Seq<CameraAction> {
        Seq::new(events.len(), |i: int| self.after(events.take(i)).action(events[i]))
    }

    /// The controller at the start: the pointer does not orbit, the meshes
    /// turn.
    pub fn new() -> (controller: CameraController)
        ensures
            controller == (CameraController { rotating: false, auto_rotate: true }),
    {
        CameraController { rotating: false, auto_rotate: true }
    }

    /// Takes one event: updates the controller and returns the movement to
    /// carry out.
    pub fn handle(&mut self, event: InputEvent) -> (action: CameraAction)
        ensures
            *final(self) == old(self).next(event),
            action == old(self).action(event),
    {
        match event {
            InputEvent::MouseClick { state, button } => {
                match button {
                    MouseButton::Left => {
                        self.rotating = match state {
                            ButtonState::Pressed => true,
                            ButtonState::Released => false,
                        };
                    },
                    _ => {},
                }
                CameraAction::Nothing
            },
            InputEvent::MouseMotion => {
                if self.rotating {
                    CameraAction::Orbit
                } else {
                    CameraAction::Nothing
                }
            },
            InputEvent::MouseWheel => CameraAction::ZoomByWheel,
            InputEvent::Key { state, kind } => {
                match state {
                    ButtonState::Released => CameraAction::Nothing,
                    ButtonState::Pressed => match kind {
                        Key::P => {
                            self.auto_rotate = !self.auto_rotate;
                            CameraAction::Nothing
                        },
                        Key::W => CameraAction::Translate(Axis::X, Sign::Positive),
                        Key::S => CameraAction::Translate(Axis::X, Sign::Negative),
                        Key::A => CameraAction::Translate(Axis::Y, Sign::Positive),
                        Key::D => CameraAction::Translate(Axis::Y, Sign::Negative),
                        Key::R => CameraAction::Translate(Axis::Z, Sign::Positive),
                        Key::F => CameraAction::Translate(Axis::Z, Sign::Negative),
                        Key::ArrowLeft => CameraAction::Pan(PanAxis::Horizontal, Sign::Positive),
                        Key::ArrowRight => CameraAction::Pan(PanAxis::Horizontal, Sign::Negative),
                        Key::ArrowUp => CameraAction::Pan(PanAxis::Vertical, Sign::Positive),
                        Key::ArrowDown => CameraAction::Pan(PanAxis::Vertical, Sign::Negative),
                        Key::PageUp => CameraAction::ZoomByKey(Sign::Positive),
                        Key::PageDown => CameraAction::ZoomByKey(Sign::Negative),
                        Key::Other => CameraAction::Nothing,
                    },
                }
            },
            InputEvent::Other => CameraAction::Nothing,
        }
    }

    /// Takes the events of a frame in the order of their arrival and returns
    /// the movements to carry out, in the same order.
    pub fn handle_all(&mut self, events: &Vec<InputEvent>) -> (actions: Vec<CameraAction>)
        ensures
            *final(self) == old(self).after(events@),
            actions@ == old(self).actions(events@),
    {
        let mut actions: Vec<CameraAction> = Vec::new();
        let mut i: usize = 0;
        while i < events.len()
            invariant
                i <= events@.len(),
                *self == old(self).after(events@.take(i as int)),
                actions@.len() == i,
                forall|k: int|
                    0 <= k < i ==> actions@[k] == #[trigger] old(self).after(
                        events@.take(k),
                    ).action(events@[k]),
            decreases events@.len() - i,
        {
            let action = self.handle(events[i]);
            actions.push(action);
            proof {
                assert(events@.take(i + 1).drop_last() == events@.take(i as int));
                assert(events@.take(i + 1).last() == events@[i as int]);
            }
            i = i + 1;
        }
        proof {
            assert(events@.take(i as int) == events@);
            assert(actions@ =~= old(self).actions(events@));
        }
        actions
    }
}

/// Two frames in a row bring the controller where one frame with all their
/// events brings it: only the order of arrival counts.
pub proof fn lemma_after_concat(
    start: CameraController,
    first: Seq<InputEvent>,
    second: Seq<InputEvent>,
)
    ensures
        start.after(first + second) == start.after(first).after(second),
    decreases second.len(),
{
    if second.len() == 0 {
        assert(first + second == first);
    } else {
        lemma_after_concat(start, first, second.drop_last());
        assert((first + second).drop_last() == first + second.drop_last());
        assert((first + second).last() == second.last());
    }
}

/// The movements of two frames in a row are the movements of one frame with
/// all their events.
pub proof fn lemma_actions_concat(
    start: CameraController,
    first: Seq<InputEvent>,
    second: Seq<InputEvent>,
)
    ensures
        start.actions(first + second) == start.actions(first) + start.after(first).actions(
            second,
        ),
{
    let all = first + second;
    let split = start.actions(first) + start.after(first).actions(second);
    assert(start.actions(all).len() == split.len());
    assert forall|i: int| 0 <= i < all.len() implies start.actions(all)[i] == split[i] by {
        if i < first.len() {
            assert(all.take(i) == first.take(i));
        } else {
            let k = i - first.len();
            assert(all.take(i) == first + second.take(k));
            lemma_after_concat(start, first, second.take(k));
        }
    }
    assert(start.actions(all) =~= split);
}

/// Whether an event is a click of the left button, press or release.
pub open spec fn is_left_click(event: InputEvent) -> bool {
    event matches InputEvent::MouseClick { button, .. } && button == MouseButton::Left
}

/// The pointer orbits the camera exactly while the left button is held: a
/// motion asks for an orbit if and only if the last click of the left button
/// before it was a press. Clicks of the other buttons change nothing.
pub proof fn lemma_orbit_while_held(start: CameraController, events: Seq<InputEvent>, click: int)
    requires
        0 <= click < events.len(),
        is_left_click(events[click]),
        forall|k: int| click < k < events.len() ==> !is_left_click(#[trigger] events[k]),
    ensures
        start.after(events).rotating <==> events[click] == (InputEvent::MouseClick {
            state: ButtonState::Pressed,
            button: MouseButton::Left,
        }),
        start.after(events).action(InputEvent::MouseMotion) == CameraAction::Orbit
            <==> events[click] == (InputEvent::MouseClick {
            state: ButtonState::Pressed,
            button: MouseButton::Left,
        }),
    decreases events.len(),
{
    if click == events.len() - 1 {
    } else {
        let earlier = events.drop_last();
        assert(earlier[click] == events[click]);
        assert forall|k: int| click < k < earlier.len() implies !is_left_click(
            #[trigger] earlier[k],
        ) by {
            assert(earlier[k] == events[k]);
        }
        lemma_orbit_while_held(start, earlier, click);
        assert(!is_left_click(events[events.len() - 1]));
    }
}

/// Without a click of the left button the orbit goes on, or stays off, as
/// it was.
pub proof fn lemma_orbit_unchanged(start: CameraController, events: Seq<InputEvent>)
    requires
        forall|k: int| 0 <= k < events.len() ==> !is_left_click(#[trigger] events[k]),
    ensures
        start.after(events).rotating == start.rotating,
    decreases events.len(),
{
    if events.len() > 0 {
        let earlier = events.drop_last();
        assert forall|k: int| 0 <= k < earlier.len() implies !is_left_click(
            #[trigger] earlier[k],
        ) by {
            assert(earlier[k] == events[k]);
        }
        lemma_orbit_unchanged(start, earlier);
        assert(!is_left_click(events[events.len() - 1]));
    }
}

/// Pressing `P` twice leaves the controller as it was.
pub proof fn lemma_toggle_twice(start: CameraController)
    ensures
        start.next(InputEvent::Key { state: ButtonState::Pressed, kind: Key::P }).next(
            InputEvent::Key { state: ButtonState::Pressed, kind: Key::P },
        ) == start,
{
}

} // verus!
