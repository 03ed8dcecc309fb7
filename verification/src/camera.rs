//! The camera: four settled viewpoints, and an animated quarter turn between them.
//!
//! A turn remaps the viewpoint at once and sets the phase one full quarter
//! turn away from rest; ticks then let the phase decay to zero. Only one turn
//! animates at a time. A request made during a turn is queued if it asks for
//! the direction of that turn and ignored if it asks for the other one; the
//! queue holds one request, which starts in the tick that ends the turn.

use vstd::prelude::*;

verus! {

/// Phase units in one quarter turn.
pub const PHASE_FULL: i32 = 1000;

/// Phase units by which a turn advances in one millisecond: a quarter turn
/// takes half a second.
pub const PHASE_PER_MS: i32 = 2;

/// The compass point from which the camera looks at the world.
#[derive(Copy, Clone, Debug, PartialEq, Eq, Structural)]
pub enum Perspective {
    N,
    E,
    S,
    W,
}

/// The direction of a quarter turn.
#[derive(Copy, Clone, Debug, PartialEq, Eq, Structural)]
pub enum Direction {
    Left,
    Right,
}

/// What the camera is doing: resting, or animating a turn.
#[derive(Copy, Clone, Debug, PartialEq, Eq, Structural)]
pub enum CameraState {
    Stopped,
    MovingL,
    MovingR,
}

impl Direction {
    /// The direction that undoes this one.
    pub open spec fn opposite(self) -> Direction {
        match self {
            Direction::Left => Direction::Right,
            Direction::Right => Direction::Left,
        }
    }

    /// The phase at which a turn in this direction starts.
    pub open spec fn start_phase(self) -> int {
        match self {
            Direction::Left => -(PHASE_FULL as int),
            Direction::Right => PHASE_FULL as int,
        }
    }
}

impl Perspective {
    /// The viewpoint one quarter turn away in the given direction.
    pub open spec fn turned(self, dir: Direction) -> Perspective {
        match dir {
            Direction::Left => match self {
                Perspective::S => Perspective::W,
                Perspective::W => Perspective::N,
                Perspective::N => Perspective::E,
                Perspective::E => Perspective::S,
            },
            Direction::Right => match self {
                Perspective::S => Perspective::E,
                Perspective::E => Perspective::N,
                Perspective::N => Perspective::W,
                Perspective::W => Perspective::S,
            },
        }
    }

    /// The angle about the vertical axis at which this viewpoint rests, in
    /// degrees, counted clockwise as seen from above.
    pub open spec fn base_degrees(self) -> int {
        match self {
            Perspective::S => 0,
            Perspective::E => 90,
            Perspective::N => 180,
            Perspective::W => 270,
        }
    }

    /// The number of right turns that lead from the south to this viewpoint.
    pub open spec fn quarter(self) -> int {
        match self {
            Perspective::S => 0,
            Perspective::E => 1,
            Perspective::N => 2,
            Perspective::W => 3,
        }
    }

    /// Whether sideways movement seen from here runs along the x axis.
    pub open spec fn along_x(self) -> bool {
        self == Perspective::S || self == Perspective::N
    }

    pub fn turn(self, dir: Direction) -> (r: Perspective)
        ensures
            r == self.turned(dir),
    {
        match dir {
            Direction::Left => match self {
                Perspective::S => Perspective::W,
                Perspective::W => Perspective::N,
                Perspective::N => Perspective::E,
                Perspective::E => Perspective::S,
            },
            Direction::Right => match self {
                Perspective::S => Perspective::E,
                Perspective::E => Perspective::N,
                Perspective::N => Perspective::W,
                Perspective::W => Perspective::S,
            },
        }
    }
}

impl CameraState {
    /// The state that animates the given turn, or rest for none.
    pub open spec fn of(turning: Option<Direction>) -> CameraState {
        match turning {
            None => CameraState::Stopped,
            Some(Direction::Left) => CameraState::MovingL,
            Some(Direction::Right) => CameraState::MovingR,
        }
    }

    /// The turn that this state animates.
    pub open spec fn turning(self) -> Option<Direction> {
        match self {
            CameraState::Stopped => None,
            CameraState::MovingL => Some(Direction::Left),
            CameraState::MovingR => Some(Direction::Right),
        }
    }
}

/// What can happen to a camera: a request to turn, or the passing of some
/// milliseconds.
pub enum CameraEvent {
    Rotate(Direction),
    Tick(nat),
}

/// The camera as contracts see it.
pub struct CameraView {
    /// The viewpoint that the camera rests at, or is turning towards.
    pub facing: Perspective,
    /// The turn that is animating.
    pub turning: Option<Direction>,
    /// The turn that starts when the animating one ends.
    pub queued: Option<Direction>,
    /// How far the camera still is from `facing`, in thousandths of a quarter
    /// turn: negative during a left turn, positive during a right turn.
    pub phase: int,
    /// The base-two logarithm of the scale, in thousandths.
    pub zoom: int,
}

impl CameraView {
    /// A resting camera has phase zero; a turning one is at most a quarter
    /// turn from rest, on its own side; only a turning camera has a queue,
    /// and the queue repeats the turn.
    pub open spec fn wf(self) -> bool {
        &&& self.turning is None <==> self.phase == 0
        &&& self.turning == Some(Direction::Left) ==> -(PHASE_FULL as int) <= self.phase < 0
        &&& self.turning == Some(Direction::Right) ==> 0 < self.phase <= PHASE_FULL as int
        &&& self.queued is Some ==> self.queued == self.turning
    }

    pub open spec fn settled(facing: Perspective, zoom: int) -> CameraView {
        CameraView { facing, turning: None, queued: None, phase: 0, zoom }
    }

    /// The camera as it starts a turn from `self.facing`.
    pub open spec fn begin(self, dir: Direction) -> CameraView {
        CameraView {
            facing: self.facing.turned(dir),
            turning: Some(dir),
            queued: None,
            phase: dir.start_phase(),
            zoom: self.zoom,
        }
    }

    /// The camera after a request to turn.
    pub open spec fn rotate(self, dir: Direction) -> CameraView {
        match self.turning {
            None => self.begin(dir),
            Some(d) => if d == dir {
                CameraView { queued: Some(dir), ..self }
            } else {
                self
            },
        }
    }

    /// The phase after `delta` milliseconds of the turn `dir`, before it is
    /// known whether the turn has ended.
    pub open spec fn advanced_phase(self, dir: Direction, delta: nat) -> int {
        match dir {
            Direction::Left => self.phase + PHASE_PER_MS * delta,
            Direction::Right => self.phase - PHASE_PER_MS * delta,
        }
    }

    /// Whether the animating turn ends within `delta` milliseconds.
    pub open spec fn completes(self, delta: nat) -> bool {
        match self.turning {
            None => false,
            Some(Direction::Left) => self.advanced_phase(Direction::Left, delta) >= 0,
            Some(Direction::Right) => self.advanced_phase(Direction::Right, delta) <= 0,
        }
    }

    /// The camera after `delta` milliseconds.
    pub open spec fn tick(self, delta: nat) -> CameraView {
        match self.turning {
            None => self,
            Some(d) => if self.completes(delta) {
                match self.queued {
                    Some(q) => self.begin(q),
                    None => CameraView::settled(self.facing, self.zoom),
                }
            } else {
                CameraView { phase: self.advanced_phase(d, delta), ..self }
            },
        }
    }

    /// The camera after an event.
    pub open spec fn after(self, event: CameraEvent) -> CameraView {
        match event {
            CameraEvent::Rotate(dir) => self.rotate(dir),
            CameraEvent::Tick(delta) => self.tick(delta),
        }
    }

    /// The turn whose animation the event starts, if it starts one: a
    /// request does when the camera rests, a tick does when it ends a turn
    /// behind which another is queued.
    pub open spec fn started_by(self, event: CameraEvent) -> Option<Direction> {
        match event {
            CameraEvent::Rotate(dir) => if self.turning is None {
                Some(dir)
            } else {
                None
            },
            CameraEvent::Tick(delta) => if self.completes(delta) {
                self.queued
            } else {
                None
            },
        }
    }

    /// The camera after a sequence of events.
    pub open spec fn after_all(self, events: Seq<CameraEvent>) -> CameraView
        decreases events.len(),
    {
        if events.len() == 0 {
            self
        } else {
            self.after_all(events.drop_last()).after(events.last())
        }
    }

    /// The number of animations to the right that the events start, less
    /// the number of those to the left.
    pub open spec fn net_turns(self, events: Seq<CameraEvent>) -> int
        decreases events.len(),
    {
        if events.len() == 0 {
            0
        } else {
            let before = self.after_all(events.drop_last());
            self.net_turns(events.drop_last()) + match before.started_by(events.last()) {
                Some(Direction::Right) => 1int,
                Some(Direction::Left) => -1int,
                None => 0int,
            }
        }
    }

    /// The camera with its zoom changed by `diff`, as far as `i32` reaches.
    pub open spec fn zoomed(self, diff: int) -> CameraView {
        let zoom = self.zoom + diff;
        CameraView {
            zoom: if zoom < i32::MIN {
                i32::MIN as int
            } else if zoom > i32::MAX {
                i32::MAX as int
            } else {
                zoom
            },
            ..self
        }
    }

    /// The angle by which the world is turned about the vertical axis to
    /// be seen from the camera, in thousandths of a degree and counted
    /// counter-clockwise: the full circle less the angle at which the
    /// viewpoint rests, and a quarter turn for each full phase.
    pub open spec fn angle(self) -> int {
        (360 - self.facing.base_degrees()) % 360 * 1000 + self.phase * 90
    }
}

pub struct Camera {
    perspective: Perspective,
    zoom: i32,
    state: CameraState,
    queued: Option<Direction>,
    phase: i32,
}

impl View for Camera {
    type V = CameraView;

    closed spec fn view(&self) -> CameraView {
        CameraView {
            facing: self.perspective,
            turning: self.state.turning(),
            queued: self.queued,
            phase: self.phase as int,
            zoom: self.zoom as int,
        }
    }
}

impl Camera {
    #[verifier::type_invariant]
    spec fn inv(self) -> bool {
        self@.wf()
    }

    /// A resting camera at the given viewpoint, at scale one.
    pub fn new(perspective: Perspective) -> (r: Camera)
        ensures
            r@ == CameraView::settled(perspective, 0),
    {
        Camera { perspective, zoom: 0, state: CameraState::Stopped, queued: None, phase: 0 }
    }

    pub fn perspective(&self) -> (r: Perspective)
        ensures
            r == self@.facing,
    {
        self.perspective
    }

    pub fn state(&self) -> (r: CameraState)
        ensures
            r == CameraState::of(self@.turning),
            self@.wf(),
    {
        proof {
            use_type_invariant(self);
        }
        self.state
    }

    /// The turn that is animating, if any.
    pub fn direction(&self) -> (r: Option<Direction>)
        ensures
            r == self@.turning,
            self@.wf(),
    {
        proof {
            use_type_invariant(self);
        }
        match self.state {
            CameraState::Stopped => None,
            CameraState::MovingL => Some(Direction::Left),
            CameraState::MovingR => Some(Direction::Right),
        }
    }

    /// The turn that waits for the animating one to end, if any.
    pub fn queued(&self) -> (r: Option<Direction>)
        ensures
            r == self@.queued,
            self@.wf(),
    {
        proof {
            use_type_invariant(self);
        }
        self.queued
    }

    pub fn is_rotating(&self) -> (r: bool)
        ensures
            r == (self@.turning is Some),
            r == (self@.phase != 0),
            self@.wf(),
    {
        proof {
            use_type_invariant(self);
        }
        match self.state {
            CameraState::Stopped => false,
            _ => true,
        }
    }

    /// Starts the animation of a turn from the viewpoint that the camera
    /// has: the viewpoint is remapped and the phase is a full quarter turn.
    fn begin_turn(&mut self, dir: Direction)
        ensures
            final(self)@ == old(self)@.begin(dir),
    {
        *self = Camera {
            perspective: self.perspective.turn(dir),
            zoom: self.zoom,
            state: match dir {
                Direction::Left => CameraState::MovingL,
                Direction::Right => CameraState::MovingR,
            },
            queued: None,
            phase: match dir {
                Direction::Left => -PHASE_FULL,
                Direction::Right => PHASE_FULL,
            },
        };
    }

    /// Requests a quarter turn.
    pub fn rotate(&mut self, dir: Direction)
        ensures
            final(self)@ == old(self)@.rotate(dir),
            final(self)@.wf(),
    {
        proof {
            use_type_invariant(&*self);
        }
        match self.state {
            CameraState::Stopped => {
                self.begin_turn(dir);
            },
            CameraState::MovingL => {
                if let Direction::Left = dir {
                    self.queued = Some(Direction::Left);
                }
            },
            CameraState::MovingR => {
                if let Direction::Right = dir {
                    self.queued = Some(Direction::Right);
                }
            },
        }
    }

    pub fn move_left(&mut self)
        ensures
            final(self)@ == old(self)@.rotate(Direction::Left),
            final(self)@.wf(),
    {
        self.rotate(Direction::Left)
    }

    pub fn move_right(&mut self)
        ensures
            final(self)@ == old(self)@.rotate(Direction::Right),
            final(self)@.wf(),
    {
        self.rotate(Direction::Right)
    }

    /// Advances the animation by `delta` milliseconds.
    pub fn tick(&mut self, delta: u32)
        ensures
            final(self)@ == old(self)@.tick(delta as nat),
            final(self)@.wf(),
    {
        proof {
            use_type_invariant(&*self);
        }
        assert(PHASE_PER_MS == 2);
        let step: i64 = 2 * (delta as i64);
        match self.state {
            CameraState::Stopped => {},
            CameraState::MovingL => {
                let phase: i64 = (self.phase as i64) + step;
                if phase >= 0 {
                    self.finish_turn();
                } else {
                    self.phase = phase as i32;
                }
            },
            CameraState::MovingR => {
                let phase: i64 = (self.phase as i64) - step;
                if phase <= 0 {
                    self.finish_turn();
                } else {
                    self.phase = phase as i32;
                }
            },
        }
    }

    /// Ends the animating turn: starts the queued one, or comes to rest.
    fn finish_turn(&mut self)
        ensures
            final(self)@ == match old(self)@.queued {
                Some(q) => old(self)@.begin(q),
                None => CameraView::settled(old(self)@.facing, old(self)@.zoom),
            },
    {
        match self.queued {
            Some(q) => {
                self.begin_turn(q);
            },
            None => {
                *self = Camera {
                    perspective: self.perspective,
                    zoom: self.zoom,
                    state: CameraState::Stopped,
                    queued: None,
                    phase: 0,
                };
            },
        }
    }

    /// The angle by which the world is turned about the vertical axis to
    /// be seen from the camera, in thousandths of a degree and counted
    /// counter-clockwise.
    pub fn angle(&self) -> (r: i32)
        ensures
            r == self@.angle(),
            self@.wf(),
    {
        proof {
            use_type_invariant(self);
        }
        let base: i32 = match self.perspective {
            Perspective::S => 0,
            Perspective::W => 90_000,
            Perspective::N => 180_000,
            Perspective::E => 270_000,
        };
        base + self.phase * 90
    }

    /// The base-two logarithm of the scale, in thousandths.
    pub fn zoom(&self) -> (r: i32)
        ensures
            r == self@.zoom,
    {
        self.zoom
    }

    pub fn set_zoom(&mut self, zoom: i32)
        ensures
            final(self)@ == (CameraView { zoom: zoom as int, ..old(self)@ }),
    {
        proof {
            use_type_invariant(&*self);
        }
        self.zoom = zoom;
    }

    /// Changes the zoom by `diff`; it stays at the end of the range of
    /// `i32` that it would leave.
    pub fn zoom_by(&mut self, diff: i32)
        ensures
            final(self)@ == old(self)@.zoomed(diff as int),
    {
        proof {
            use_type_invariant(&*self);
        }
        let zoom: i64 = (self.zoom as i64) + (diff as i64);
        self.zoom = if zoom < i32::MIN as i64 {
            i32::MIN
        } else if zoom > i32::MAX as i64 {
            i32::MAX
        } else {
            zoom as i32
        };
    }
}

/// Four quarter turns in one direction lead back to the viewpoint they
/// started from, and no fewer do.
pub proof fn lemma_four_turns_close_the_cycle(p: Perspective, dir: Direction)
    ensures
        p.turned(dir).turned(dir).turned(dir).turned(dir) == p,
        p.turned(dir) != p,
        p.turned(dir).turned(dir) != p,
        p.turned(dir).turned(dir).turned(dir) != p,
{
}

/// A left turn and a right turn undo each other, in either order.
pub proof fn lemma_opposite_turns_cancel(p: Perspective, dir: Direction)
    ensures
        p.turned(dir).turned(dir.opposite()) == p,
        p.turned(dir.opposite()).turned(dir) == p,
{
}

/// A request to turn changes the viewpoint by exactly one quarter turn when
/// the camera rests, and not at all while a turn animates.
pub proof fn lemma_rotate_steps_once(c: CameraView, dir: Direction)
    requires
        c.wf(),
    ensures
        c.rotate(dir).wf(),
        c.turning is None ==> c.rotate(dir).facing == c.facing.turned(dir),
        c.turning is Some ==> c.rotate(dir).facing == c.facing,
        c.turning is Some ==> c.rotate(dir).turning == c.turning && c.rotate(dir).phase
            == c.phase,
{
}

/// A tick changes the viewpoint only when it ends a turn behind which
/// another is queued, and then by exactly one quarter turn, in the direction
/// of the turn that ended.
pub proof fn lemma_tick_steps_at_most_once(c: CameraView, delta: nat)
    requires
        c.wf(),
    ensures
        c.tick(delta).wf(),
        c.completes(delta) && c.queued is Some ==> c.tick(delta).facing == c.facing.turned(
            c.turning->0,
        ),
        !(c.completes(delta) && c.queued is Some) ==> c.tick(delta).facing == c.facing,
        c.tick(delta).turning is None <==> c.turning is None || (c.completes(delta) && c.queued is None),
{
}

/// From rest, a turn that is given the time of a full animation ends at rest
/// one quarter turn away; four of them end where the first began.
pub proof fn lemma_four_completed_turns_return(c: CameraView, dir: Direction, delta: nat)
    requires
        c.wf(),
        c.turning is None,
        PHASE_PER_MS * delta >= PHASE_FULL,
    ensures
        c.rotate(dir).tick(delta) == CameraView::settled(c.facing.turned(dir), c.zoom),
        c.rotate(dir).tick(delta).rotate(dir).tick(delta).rotate(dir).tick(delta).rotate(dir).tick(
            delta,
        ) == c,
        c.rotate(dir).tick(delta).rotate(dir.opposite()).tick(delta) == c,
{
    lemma_four_turns_close_the_cycle(c.facing, dir);
    lemma_opposite_turns_cancel(c.facing, dir);
}

/// An event turns the viewpoint by one quarter turn if it starts an
/// animation, in the direction of that animation, and leaves it otherwise.
pub proof fn lemma_one_step_per_animation(c: CameraView, event: CameraEvent)
    requires
        c.wf(),
    ensures
        c.after(event).wf(),
        match c.started_by(event) {
            Some(dir) => c.after(event).facing == c.facing.turned(dir) && c.after(event).turning
                == Some(dir) && c.after(event).phase == dir.start_phase(),
            None => c.after(event).facing == c.facing,
        },
{
}

/// Whatever the requests and the ticks, the viewpoint at the end is the one
/// at the start turned once for each animation that was started: the
/// viewpoints are counted to the right from the south, modulo four.
pub proof fn lemma_viewpoint_counts_animations(c: CameraView, events: Seq<CameraEvent>)
    requires
        c.wf(),
    ensures
        c.after_all(events).wf(),
        c.after_all(events).facing.quarter() == (c.facing.quarter() + c.net_turns(events)) % 4,
        c.after_all(events).zoom == c.zoom,
    decreases events.len(),
{
    if events.len() > 0 {
        lemma_viewpoint_counts_animations(c, events.drop_last());
        lemma_one_step_per_animation(c.after_all(events.drop_last()), events.last());
    }
}

/// The angle at which a viewpoint rests grows by ninety degrees with each
/// right turn, up to a full circle.
pub proof fn lemma_rest_angles_follow_the_cycle(p: Perspective)
    ensures
        p.base_degrees() == 90 * p.quarter(),
        p.turned(Direction::Right).quarter() == (p.quarter() + 1) % 4,
        p.turned(Direction::Left).quarter() == (p.quarter() - 1) % 4,
{
}

/// A turn is smooth. It starts at the angle at which the camera rested,
/// up to full circles; while it animates, the angle is within a quarter
/// turn of the angle at which it will rest; and a queued turn starts at the
/// angle at which the turn before it came to rest.
pub proof fn lemma_turn_is_smooth(c: CameraView, dir: Direction, delta: nat)
    requires
        c.wf(),
    ensures
        c.turning is None ==> (c.rotate(dir).angle() - c.angle()) % 360_000 == 0,
        c.angle() - CameraView::settled(c.facing, c.zoom).angle() == c.phase * 90,
        -90_000 <= c.phase * 90 <= 90_000,
        c.completes(delta) && c.queued is Some ==> (c.tick(delta).angle() - CameraView::settled(
            c.facing,
            c.zoom,
        ).angle()) % 360_000 == 0,
        c.completes(delta) && c.queued is None ==> c.tick(delta).angle() == CameraView::settled(
            c.facing,
            c.zoom,
        ).angle(),
{
}

/// Zooming by an amount and then by its negative restores the camera, and
/// with it the angle and the zoom from which a view of the world is drawn,
/// as long as the zoom in between is within the range of `i32`.
pub proof fn lemma_zoom_round_trip(c: CameraView, x: int)
    requires
        i32::MIN <= c.zoom <= i32::MAX,
        i32::MIN <= c.zoom + x <= i32::MAX,
    ensures
        c.zoomed(x).zoomed(-x) == c,
        c.zoomed(x).angle() == c.angle(),
{
}

/// A tick moves the phase towards zero and never past it. The one tick
/// that moves it away is the one that ends a turn behind which another is
/// queued: that turn starts at once, a full quarter turn from rest.
pub proof fn lemma_phase_decays(c: CameraView, delta: nat)
    requires
        c.wf(),
    ensures
        c.completes(delta) && c.queued is Some ==> c.tick(delta).phase
            == c.queued->0.start_phase(),
        c.completes(delta) && c.queued is None ==> c.tick(delta).phase == 0,
        !c.completes(delta) ==> c.tick(delta).turning == c.turning && c.tick(delta).queued
            == c.queued,
        !(c.completes(delta) && c.queued is Some) ==> {
            &&& c.phase <= 0 ==> c.phase <= c.tick(delta).phase <= 0
            &&& c.phase >= 0 ==> 0 <= c.tick(delta).phase <= c.phase
        },
{
}

} // verus!
