use vstd::prelude::*;

verus! {

/// Either negative or positive axis direction.
#[derive(Debug, Clone, Copy, Hash, PartialEq, Eq, Structural)]
pub enum AxisDirection {
    /// Left, up
    Neg,
    /// Right, down
    Pos,
}

impl AxisDirection {
    /// The sign of this direction: -1 for `Neg`, 1 for `Pos`.
    pub fn sign(self) -> (s: i32)
        ensures
            s == (match self {
                AxisDirection::Neg => -1i32,
                AxisDirection::Pos => 1i32,
            }),
    {
        match self {
            AxisDirection::Neg => -1,
            AxisDirection::Pos => 1,
        }
    }

    /// The opposite direction.
    pub open spec fn opposite(self) -> AxisDirection {
        match self {
            AxisDirection::Neg => AxisDirection::Pos,
            AxisDirection::Pos => AxisDirection::Neg,
        }
    }
}

/// An axis of a joystick, on any controller.
#[derive(Debug, Clone, Copy, Hash, PartialEq, Eq, Structural)]
pub enum AnyAxis {
    LeftStickX,
    LeftStickY,
    LeftZ,
    RightStickX,
    RightStickY,
    RightZ,
    DPadX,
    DPadY,
    Unknown,
}

/// A button of a controller, on any controller.
#[derive(Debug, Clone, Copy, Hash, PartialEq, Eq, Structural)]
pub enum PadButton {
    South,
    East,
    North,
    West,
    C,
    Z,
    LeftTrigger,
    LeftTrigger2,
    RightTrigger,
    RightTrigger2,
    Select,
    Start,
    Mode,
    LeftThumb,
    RightThumb,
    DPadUp,
    DPadDown,
    DPadLeft,
    DPadRight,
    Unknown,
}

/// How many controller buttons are polled each frame.
pub const POLLED_BUTTON_COUNT: usize = 19;

/// How many controller axes are polled each frame.
pub const POLLED_AXIS_COUNT: usize = 8;

/// The `i`-th of the buttons polled on each controller every frame.
pub open spec fn spec_polled_button(i: int) -> PadButton {
    if i == 0 {
        PadButton::South
    } else if i == 1 {
        PadButton::East
    } else if i == 2 {
        PadButton::North
    } else if i == 3 {
        PadButton::West
    } else if i == 4 {
        PadButton::C
    } else if i == 5 {
        PadButton::Z
    } else if i == 6 {
        PadButton::LeftTrigger
    } else if i == 7 {
        PadButton::LeftTrigger2
    } else if i == 8 {
        PadButton::RightTrigger
    } else if i == 9 {
        PadButton::RightTrigger2
    } else if i == 10 {
        PadButton::Select
    } else if i == 11 {
        PadButton::Start
    } else if i == 12 {
        PadButton::Mode
    } else if i == 13 {
        PadButton::LeftThumb
    } else if i == 14 {
        PadButton::RightThumb
    } else if i == 15 {
        PadButton::DPadUp
    } else if i == 16 {
        PadButton::DPadDown
    } else if i == 17 {
        PadButton::DPadLeft
    } else {
        PadButton::DPadRight
    }
}

/// The `i`-th of the buttons polled on each controller every frame.
pub fn polled_button(i: usize) -> (b: PadButton)
    requires
        i < POLLED_BUTTON_COUNT,
    ensures
        b == spec_polled_button(i as int),
{
    match i {
        0 => PadButton::South,
        1 => PadButton::East,
        2 => PadButton::North,
        3 => PadButton::West,
        4 => PadButton::C,
        5 => PadButton::Z,
        6 => PadButton::LeftTrigger,
        7 => PadButton::LeftTrigger2,
        8 => PadButton::RightTrigger,
        9 => PadButton::RightTrigger2,
        10 => PadButton::Select,
        11 => PadButton::Start,
        12 => PadButton::Mode,
        13 => PadButton::LeftThumb,
        14 => PadButton::RightThumb,
        15 => PadButton::DPadUp,
        16 => PadButton::DPadDown,
        17 => PadButton::DPadLeft,
        _ => PadButton::DPadRight,
    }
}

/// The `i`-th of the axes polled on each controller every frame.
pub open spec fn spec_polled_axis(i: int) -> AnyAxis {
    if i == 0 {
        AnyAxis::LeftStickX
    } else if i == 1 {
        AnyAxis::LeftStickY
    } else if i == 2 {
        AnyAxis::LeftZ
    } else if i == 3 {
        AnyAxis::RightStickX
    } else if i == 4 {
        AnyAxis::RightStickY
    } else if i == 5 {
        AnyAxis::RightZ
    } else if i == 6 {
        AnyAxis::DPadX
    } else {
        AnyAxis::DPadY
    }
}

/// The `i`-th of the axes polled on each controller every frame.
pub fn polled_axis(i: usize) -> (a: AnyAxis)
    requires
        i < POLLED_AXIS_COUNT,
    ensures
        a == spec_polled_axis(i as int),
{
    match i {
        0 => AnyAxis::LeftStickX,
        1 => AnyAxis::LeftStickY,
        2 => AnyAxis::LeftZ,
        3 => AnyAxis::RightStickX,
        4 => AnyAxis::RightStickY,
        5 => AnyAxis::RightZ,
        6 => AnyAxis::DPadX,
        _ => AnyAxis::DPadY,
    }
}

/// Whether `a` is among the axes polled on each controller every frame.
pub open spec fn is_polled_axis(a: AnyAxis) -> bool {
    exists|i: int| 0 <= i < POLLED_AXIS_COUNT && #[trigger] spec_polled_axis(i) == a
}

/// Every known axis is polled, each exactly once: the polled axes are
/// pairwise distinct, none is `Unknown`, and every other axis is among them.
pub proof fn lemma_polled_axes_cover_each_once()
    ensures
        forall|i: int, j: int|
            0 <= i < POLLED_AXIS_COUNT && 0 <= j < POLLED_AXIS_COUNT && i != j
                ==> #[trigger] spec_polled_axis(i) != #[trigger] spec_polled_axis(j),
        forall|a: AnyAxis| #[trigger] is_polled_axis(a) <==> a != AnyAxis::Unknown,
{
    assert forall|i: int| 0 <= i < POLLED_AXIS_COUNT implies
        axis_polling_place(#[trigger] spec_polled_axis(i)) == i by {}
    assert forall|a: AnyAxis| #[trigger] is_polled_axis(a) <==> a != AnyAxis::Unknown by {
        if a != AnyAxis::Unknown {
            assert(spec_polled_axis(axis_polling_place(a)) == a);
        }
    }
}

/// The place of an axis in the polling order (`POLLED_AXIS_COUNT` for
/// `Unknown`, which is never polled).
spec fn axis_polling_place(a: AnyAxis) -> int {
    match a {
        AnyAxis::LeftStickX => 0,
        AnyAxis::LeftStickY => 1,
        AnyAxis::LeftZ => 2,
        AnyAxis::RightStickX => 3,
        AnyAxis::RightStickY => 4,
        AnyAxis::RightZ => 5,
        AnyAxis::DPadX => 6,
        AnyAxis::DPadY => 7,
        AnyAxis::Unknown => 8,
    }
}

/// The place of a button in the polling order (`POLLED_BUTTON_COUNT` for
/// `Unknown`, which is never polled).
spec fn polling_place(b: PadButton) -> int {
    match b {
        PadButton::South => 0,
        PadButton::East => 1,
        PadButton::North => 2,
        PadButton::West => 3,
        PadButton::C => 4,
        PadButton::Z => 5,
        PadButton::LeftTrigger => 6,
        PadButton::LeftTrigger2 => 7,
        PadButton::RightTrigger => 8,
        PadButton::RightTrigger2 => 9,
        PadButton::Select => 10,
        PadButton::Start => 11,
        PadButton::Mode => 12,
        PadButton::LeftThumb => 13,
        PadButton::RightThumb => 14,
        PadButton::DPadUp => 15,
        PadButton::DPadDown => 16,
        PadButton::DPadLeft => 17,
        PadButton::DPadRight => 18,
        PadButton::Unknown => 19,
    }
}

/// Whether `b` is among the buttons polled on each controller every frame.
pub open spec fn is_polled(b: PadButton) -> bool {
    exists|i: int| 0 <= i < POLLED_BUTTON_COUNT && #[trigger] spec_polled_button(i) == b
}

/// Every known button is polled, each exactly once: the polled buttons are
/// pairwise distinct, none is `Unknown`, and every other button is among them.
pub proof fn lemma_polled_buttons_cover_each_once()
    ensures
        forall|i: int, j: int|
            0 <= i < POLLED_BUTTON_COUNT && 0 <= j < POLLED_BUTTON_COUNT && i != j
                ==> #[trigger] spec_polled_button(i) != #[trigger] spec_polled_button(j),
        forall|i: int| 0 <= i < POLLED_BUTTON_COUNT ==> #[trigger] spec_polled_button(i) != PadButton::Unknown,
        forall|b: PadButton| #[trigger] is_polled(b) <==> b != PadButton::Unknown,
{
    assert forall|i: int| 0 <= i < POLLED_BUTTON_COUNT implies
        polling_place(#[trigger] spec_polled_button(i)) == i by {}
    assert forall|b: PadButton| #[trigger] is_polled(b) <==> b != PadButton::Unknown by {
        if b != PadButton::Unknown {
            assert(spec_polled_button(polling_place(b)) == b);
        }
    }
}

/// A controller reporting the `i`-th polled button as pressed has that
/// button pressed in the next frame, and no other button of it changes on
/// that report alone: in particular D-pad down reported at its place reads
/// as D-pad down, not as another button.
pub proof fn lemma_reported_button_is_that_button(pad: PadSnapshot, i: int, b: ControllerButton)
    requires
        0 <= i < POLLED_BUTTON_COUNT,
        i < pad.pressed@.len(),
        forall|j: int| 0 <= j < pad.pressed@.len() ==> (#[trigger] pad.pressed@[j] <==> j == i),
        b.on.id == pad.id,
    ensures
        reported_pressed(seq![pad], b) <==> b.button == spec_polled_button(i),
{
    lemma_polled_buttons_cover_each_once();
    let pads = seq![pad];
    if b.button == spec_polled_button(i) {
        assert(pad.pressed@[i]);
        assert(pad_reports(pads[0], b, POLLED_BUTTON_COUNT as int));
    }
    if reported_pressed(pads, b) {
        let p = choose|p: int| 0 <= p < pads.len() && #[trigger] pad_reports(pads[p], b, POLLED_BUTTON_COUNT as int);
        assert(p == 0);
        let j = choose|j: int|
            0 <= j < POLLED_BUTTON_COUNT && j < POLLED_BUTTON_COUNT && j < pad.pressed@.len() && #[trigger] pad.pressed@[j]
                && b.button == spec_polled_button(j) && b.on.id == pad.id;
        assert(j == i);
    }
}

/// One of the controllers which is currently connected to the device.
#[derive(Debug, Clone, Copy, Hash, PartialEq, Eq, Structural)]
pub struct Controller {
    /// The device's number for this controller.
    pub id: usize,
}

/// A button on a specific controller, which may only be pressed or not pressed.
#[derive(Debug, Clone, Copy, Hash, PartialEq, Eq, Structural)]
pub struct ControllerButton {
    pub button: PadButton,
    pub on: Controller,
}

/// An axis of a joystick on a specific controller, in any direction.
#[derive(Debug, Clone, Copy, Hash, PartialEq, Eq, Structural)]
pub struct ControllerAxis {
    pub axis: AnyAxis,
    pub direction: AxisDirection,
    pub on: Controller,
}

impl ControllerAxis {
    pub fn new(on: Controller, axis: AnyAxis, direction: AxisDirection) -> (a: Self)
        ensures
            a == (ControllerAxis { axis, direction, on }),
    {
        Self { axis, direction, on }
    }

    /// The same axis on the same controller, in the opposite direction.
    pub open spec fn inverted(self) -> ControllerAxis {
        ControllerAxis { direction: self.direction.opposite(), ..self }
    }

    /// Reverse the direction of this axis.
    pub fn inverse(self) -> (r: Self)
        ensures
            r == self.inverted(),
    {
        let mut out = self;
        match self.direction {
            AxisDirection::Neg => out.direction = AxisDirection::Pos,
            AxisDirection::Pos => out.direction = AxisDirection::Neg,
        }
        out
    }
}

/// Reversing the direction of an axis changes it, and reversing it twice
/// gives the axis back.
pub proof fn lemma_inverse_involution(a: ControllerAxis)
    ensures
        a.inverted() != a,
        a.inverted().inverted() == a,
{
}

/// What one controller reported in one frame: for each polled button, in
/// the order of [`polled_button`], whether it is pressed.
pub struct PadSnapshot {
    pub id: usize,
    pub pressed: Vec<bool>,
}

/// Whether `pad` reports `b` as pressed among its first `upto` polled buttons.
pub open spec fn pad_reports(pad: PadSnapshot, b: ControllerButton, upto: int) -> bool {
    exists|j: int|
        0 <= j < upto && j < POLLED_BUTTON_COUNT && j < pad.pressed@.len() && #[trigger] pad.pressed@[j]
            && b.button == spec_polled_button(j) && b.on.id == pad.id
}

/// Whether `b` is among the buttons that `pads` report as pressed.
pub open spec fn reported_pressed(pads: Seq<PadSnapshot>, b: ControllerButton) -> bool {
    exists|p: int| 0 <= p < pads.len() && #[trigger] pad_reports(pads[p], b, POLLED_BUTTON_COUNT as int)
}

proof fn lemma_pad_reports_step(pad: PadSnapshot, b: ControllerButton, i: int)
    requires
        0 <= i,
    ensures
        pad_reports(pad, b, i + 1) == (pad_reports(pad, b, i) || (i < POLLED_BUTTON_COUNT
            && i < pad.pressed@.len() && pad.pressed@[i] && b.button == spec_polled_button(i)
            && b.on.id == pad.id)),
{
    if pad_reports(pad, b, i + 1) {
        let j = choose|j: int|
            0 <= j < i + 1 && j < POLLED_BUTTON_COUNT && j < pad.pressed@.len() && #[trigger] pad.pressed@[j]
                && b.button == spec_polled_button(j) && b.on.id == pad.id;
        if j < i {
            assert(pad_reports(pad, b, i));
        }
    }
    if pad_reports(pad, b, i) {
        let j = choose|j: int|
            0 <= j < i && j < POLLED_BUTTON_COUNT && j < pad.pressed@.len() && #[trigger] pad.pressed@[j]
                && b.button == spec_polled_button(j) && b.on.id == pad.id;
        assert(pad_reports(pad, b, i + 1));
    }
}

proof fn lemma_pad_reports_bound(pad: PadSnapshot, b: ControllerButton, m: int)
    requires
        m == (if pad.pressed@.len() < POLLED_BUTTON_COUNT { pad.pressed@.len() as int } else { POLLED_BUTTON_COUNT as int }),
    ensures
        pad_reports(pad, b, m) == pad_reports(pad, b, POLLED_BUTTON_COUNT as int),
{
    if pad_reports(pad, b, m) {
        let j = choose|j: int|
            0 <= j < m && j < POLLED_BUTTON_COUNT && j < pad.pressed@.len() && #[trigger] pad.pressed@[j]
                && b.button == spec_polled_button(j) && b.on.id == pad.id;
        assert(pad_reports(pad, b, POLLED_BUTTON_COUNT as int));
    }
    if pad_reports(pad, b, POLLED_BUTTON_COUNT as int) {
        let j = choose|j: int|
            0 <= j < POLLED_BUTTON_COUNT && j < POLLED_BUTTON_COUNT && j < pad.pressed@.len() && #[trigger] pad.pressed@[j]
                && b.button == spec_polled_button(j) && b.on.id == pad.id;
        assert(pad_reports(pad, b, m));
    }
}

proof fn lemma_reported_take_step(pads: Seq<PadSnapshot>, b: ControllerButton, p: int)
    requires
        0 <= p < pads.len(),
    ensures
        reported_pressed(pads.take(p + 1), b) == (reported_pressed(pads.take(p), b)
            || pad_reports(pads[p], b, POLLED_BUTTON_COUNT as int)),
{
    let front = pads.take(p);
    let next = pads.take(p + 1);
    if reported_pressed(next, b) {
        let q = choose|q: int| 0 <= q < next.len() && #[trigger] pad_reports(next[q], b, POLLED_BUTTON_COUNT as int);
        if q < p {
            assert(front[q] == next[q]);
            assert(reported_pressed(front, b));
        }
    }
    if reported_pressed(front, b) {
        let q = choose|q: int| 0 <= q < front.len() && #[trigger] pad_reports(front[q], b, POLLED_BUTTON_COUNT as int);
        assert(front[q] == next[q]);
        assert(reported_pressed(next, b));
    }
    if pad_reports(pads[p], b, POLLED_BUTTON_COUNT as int) {
        assert(next[p] == pads[p]);
        assert(reported_pressed(next, b));
    }
}

/// The controller buttons held in the previous frame and in this one, and the
/// controllers connected in this one.
pub struct ButtonStates {
    prev: Vec<ControllerButton>,
    current: Vec<ControllerButton>,
    controllers: Vec<Controller>,
}

impl ButtonStates {
    /// Whether `b` was held in the previous frame.
    pub closed spec fn held_before(&self, b: ControllerButton) -> bool {
        self.prev@.contains(b)
    }

    /// Whether `b` is held in this frame.
    pub closed spec fn held_now(&self, b: ControllerButton) -> bool {
        self.current@.contains(b)
    }

    /// The controllers connected in this frame, in the order the device lists them.
    pub closed spec fn connected(&self) -> Seq<Controller> {
        self.controllers@
    }

    /// A button is pressed when it is held in this frame.
    pub open spec fn is_pressed(&self, b: ControllerButton) -> bool {
        self.held_now(b)
    }

    /// A button is released when it is not pressed.
    pub open spec fn is_released(&self, b: ControllerButton) -> bool {
        !self.is_pressed(b)
    }

    /// A button is just pressed when it wasn't held last frame, and now is.
    pub open spec fn is_just_pressed(&self, b: ControllerButton) -> bool {
        !self.held_before(b) && self.held_now(b)
    }

    /// A button is just released when it was held last frame, and now isn't.
    pub open spec fn is_just_released(&self, b: ControllerButton) -> bool {
        self.held_before(b) && !self.held_now(b)
    }

    /// `next` is the frame that follows this one when the controllers report `pads`.
    pub open spec fn is_next_frame(&self, pads: Seq<PadSnapshot>, next: ButtonStates) -> bool {
        &&& next.connected() == pads.map_values(|p: PadSnapshot| Controller { id: p.id })
        &&& forall|b: ControllerButton| #[trigger] next.held_before(b) == self.held_now(b)
        &&& forall|b: ControllerButton| #[trigger] next.held_now(b) == reported_pressed(pads, b)
    }

    /// No controller connected and no button held, now or before.
    pub fn new() -> (s: Self)
        ensures
            s.connected() == Seq::<Controller>::empty(),
            forall|b: ControllerButton| !s.held_before(b) && !s.held_now(b),
    {
        ButtonStates { prev: Vec::new(), current: Vec::new(), controllers: Vec::new() }
    }

    /// The states of the next frame, from what the controllers report in it:
    /// what is held now becomes what was held before, the reported buttons
    /// become what is held now, and the reporting controllers become the
    /// connected ones, in order.
    pub fn next_frame(&self, pads: &Vec<PadSnapshot>) -> (s: Self)
        ensures
            self.is_next_frame(pads@, s),
    {
        let mut controllers: Vec<Controller> = Vec::new();
        let mut current: Vec<ControllerButton> = Vec::new();
        let n = pads.len();
        for p in 0..n
            invariant
                n == pads@.len(),
                controllers@ == pads@.take(p as int).map_values(|q: PadSnapshot| Controller { id: q.id }),
                forall|b: ControllerButton| #[trigger] current@.contains(b) == reported_pressed(pads@.take(p as int), b),
        {
            let pad = &pads[p];
            let controller = Controller { id: pad.id };
            proof {
                assert(pads@.take(p + 1).map_values(|q: PadSnapshot| Controller { id: q.id }) =~=
                    pads@.take(p as int).map_values(|q: PadSnapshot| Controller { id: q.id }).push(controller));
            }
            controllers.push(controller);
            let m = if pad.pressed.len() < POLLED_BUTTON_COUNT { pad.pressed.len() } else { POLLED_BUTTON_COUNT };
            for i in 0..m
                invariant
                    n == pads@.len(),
                    p < n,
                    *pad == pads@[p as int],
                    controller.id == pad.id,
                    m <= pad.pressed@.len(),
                    m <= POLLED_BUTTON_COUNT,
                    forall|b: ControllerButton| #[trigger] current@.contains(b) == (
                        reported_pressed(pads@.take(p as int), b) || pad_reports(*pad, b, i as int)),
            {
                let ghost before = current@;
                if pad.pressed[i] {
                    let b = ControllerButton { button: polled_button(i), on: controller };
                    current.push(b);
                }
                proof {
                    assert forall|b: ControllerButton| #[trigger] current@.contains(b) == (
                        reported_pressed(pads@.take(p as int), b) || pad_reports(*pad, b, i + 1)) by {
                        lemma_pad_reports_step(*pad, b, i as int);
                        if pad.pressed@[i as int] {
                            assert(current@ == before.push(ControllerButton { button: spec_polled_button(i as int), on: controller }));
                            vstd::seq_lib::lemma_seq_contains_after_push(before, ControllerButton { button: spec_polled_button(i as int), on: controller }, b);
                        }
                    }
                }
            }
            proof {
                assert forall|b: ControllerButton| #[trigger] current@.contains(b) == reported_pressed(pads@.take(p + 1), b) by {
                    lemma_pad_reports_bound(*pad, b, m as int);
                    lemma_reported_take_step(pads@, b, p as int);
                }
            }
        }
        proof {
            assert(pads@.take(n as int) =~= pads@);
        }
        ButtonStates { prev: self.current.clone(), current, controllers }
    }

    /// Get a list of all the currently connected [`Controller`]s.
    pub fn controllers(&self) -> (r: &[Controller])
        ensures
            r@ == self.connected(),
    {
        self.controllers.as_slice()
    }

    /// Check if a controller button is currently pressed.
    pub fn button_pressed(&self, b: ControllerButton) -> (r: bool)
        ensures
            r == self.is_pressed(b),
    {
        contains_button(&self.current, b)
    }

    /// Check if a controller button is currently not pressed.
    ///
    /// This function is equal to the inverse of [`ButtonStates::button_pressed`].
    pub fn button_released(&self, b: ControllerButton) -> (r: bool)
        ensures
            r == self.is_released(b),
    {
        !self.button_pressed(b)
    }

    /// Check if a controller button wasn't pressed last frame, and now is.
    pub fn button_just_pressed(&self, b: ControllerButton) -> (r: bool)
        ensures
            r == self.is_just_pressed(b),
    {
        !contains_button(&self.prev, b) && contains_button(&self.current, b)
    }

    /// Check if a controller button was pressed last frame, and now isn't.
    pub fn button_just_released(&self, b: ControllerButton) -> (r: bool)
        ensures
            r == self.is_just_released(b),
    {
        contains_button(&self.prev, b) && !contains_button(&self.current, b)
    }
}

/// Whether `b` occurs in `v`.
fn contains_button(v: &Vec<ControllerButton>, b: ControllerButton) -> (r: bool)
    ensures
        r == v@.contains(b),
{
    let n = v.len();
    for i in 0..n
        invariant
            n == v@.len(),
            forall|j: int| 0 <= j < i ==> v@[j] != b,
    {
        if v[i] == b {
            return true;
        }
    }
    false
}

/// A released button is exactly one that is not pressed.
pub proof fn lemma_released_is_not_pressed(s: ButtonStates, b: ControllerButton)
    ensures
        s.is_released(b) == !s.is_pressed(b),
{
}

/// A just-pressed button is pressed, a just-released one is released, and no
/// button is both just pressed and just released.
pub proof fn lemma_edges_consistent(s: ButtonStates, b: ControllerButton)
    ensures
        s.is_just_pressed(b) ==> s.is_pressed(b),
        s.is_just_released(b) ==> s.is_released(b),
        !(s.is_just_pressed(b) && s.is_just_released(b)),
{
}

/// In the next frame, a button is just pressed exactly when it is released
/// now and reported pressed then, and just released exactly when it is
/// pressed now and not reported then.
pub proof fn lemma_next_frame_edges(s: ButtonStates, pads: Seq<PadSnapshot>, t: ButtonStates, b: ControllerButton)
    requires
        s.is_next_frame(pads, t),
    ensures
        t.is_just_pressed(b) == (s.is_released(b) && reported_pressed(pads, b)),
        t.is_just_released(b) == (s.is_pressed(b) && !reported_pressed(pads, b)),
        t.is_pressed(b) == reported_pressed(pads, b),
{
    assert(t.held_before(b) == s.held_now(b));
    assert(t.held_now(b) == reported_pressed(pads, b));
}

/// When the controllers report the same buttons two frames running, nothing
/// is just pressed or just released in the second of them.
pub proof fn lemma_steady_input_no_edges(
    s: ButtonStates,
    pads: Seq<PadSnapshot>,
    t: ButtonStates,
    u: ButtonStates,
    b: ControllerButton,
)
    requires
        s.is_next_frame(pads, t),
        t.is_next_frame(pads, u),
    ensures
        !u.is_just_pressed(b),
        !u.is_just_released(b),
{
    lemma_next_frame_edges(s, pads, t, b);
    lemma_next_frame_edges(t, pads, u, b);
}

} // verus!
