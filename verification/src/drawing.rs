//! The mouse gesture that shoots an arrow. Pressing the left button at an
//! origin starts nocking; the pointer trail is recorded; once the pointer has
//! moved farther than `NOCK_DISTANCE` from the origin the arrow is nocked, and
//! once it starts coming back toward the origin the bow is being drawn from the
//! turnaround point. Releasing the button while drawing, with at least one
//! point recorded after the turnaround, shoots.

use vstd::prelude::*;

verus! {

/// A pointer position in window pixels.
#[derive(Copy, Clone, Debug, PartialEq, Eq, Structural)]
pub struct Point {
    pub x: i32,
    pub y: i32,
}

/// The squared Euclidean distance of two points.
pub open spec fn dist2(a: Point, b: Point) -> int {
    (a.x - b.x) * (a.x - b.x) + (a.y - b.y) * (a.y - b.y)
}

/// How far (in pixels) the pointer must leave the origin to nock the arrow.
pub const NOCK_DISTANCE: i128 = 50;

/// The squared distance of two points, computed exactly.
pub fn squared_distance(a: Point, b: Point) -> (r: i128)
    ensures
        r == dist2(a, b),
{
    let dx: i128 = a.x as i128 - b.x as i128;
    let dy: i128 = a.y as i128 - b.y as i128;
    assert(0 <= dx * dx <= 0x1_0000_0000 * 0x1_0000_0000) by (nonlinear_arith)
        requires
            -0x1_0000_0000 <= dx <= 0x1_0000_0000,
    ;
    assert(0 <= dy * dy <= 0x1_0000_0000 * 0x1_0000_0000) by (nonlinear_arith)
        requires
            -0x1_0000_0000 <= dy <= 0x1_0000_0000,
    ;
    dx * dx + dy * dy
}

/// Where the gesture stands.
#[derive(Copy, Clone, Debug, PartialEq, Eq, Structural)]
pub enum DrawState {
    /// The button is up.
    NotHolding,
    /// The button went down at the origin; the flag tells whether the arrow
    /// has been nocked (the click sound played).
    Nocking(Point, bool),
    /// The bow is being drawn from the origin; the index names the recorded
    /// point where the pointer turned back.
    Drawing(Point, usize),
}

/// What a pointer move asks the game to play.
#[derive(Copy, Clone, Debug, PartialEq, Eq, Structural)]
pub enum MotionCue {
    /// Nothing to play.
    Silent,
    /// The arrow has just been nocked.
    Nock,
    /// The bow is being drawn from `nock`, the turnaround point, with the
    /// gesture started at `origin`.
    Draw { origin: Point, nock: Point },
}

/// An arrow leaving the bow: the gesture's origin, its turnaround point and
/// that point's index, and how many points the trail held.
#[derive(Copy, Clone, Debug, PartialEq, Eq, Structural)]
pub struct Release {
    pub origin: Point,
    pub nock: Point,
    pub turnaround: usize,
    pub point_count: usize,
}

/// What the trail overlay shows.
#[derive(Copy, Clone, Debug, PartialEq, Eq, Structural)]
pub enum Overlay {
    /// Nothing.
    Hidden,
    /// The whole trail, while nocking.
    Trail,
    /// The trail split at the turnaround index, while drawing.
    Split(usize),
}

/// A gesture state and its trail fit together: while drawing, the turnaround
/// index names a recorded point that is not the last one, and that point lies
/// farther than `NOCK_DISTANCE` from the origin.
pub open spec fn gesture_wf(state: DrawState, trail: Seq<Point>) -> bool {
    match state {
        DrawState::Drawing(origin, t) => {
            &&& t + 1 < trail.len()
            &&& dist2(origin, trail[t as int]) > NOCK_DISTANCE * NOCK_DISTANCE
        },
        _ => true,
    }
}

/// The gesture state, trail and cue after the pointer moves to `pt`.
pub open spec fn motion_step(state: DrawState, trail: Seq<Point>, pt: Point) -> (DrawState, Seq<Point>, MotionCue) {
    match state {
        DrawState::NotHolding => (state, trail, MotionCue::Silent),
        DrawState::Nocking(origin, clicked) => {
            if trail.len() > 0 && dist2(origin, trail.last()) > NOCK_DISTANCE * NOCK_DISTANCE {
                let cue = if clicked { MotionCue::Silent } else { MotionCue::Nock };
                let next = if dist2(origin, trail.last()) > dist2(origin, pt) {
                    DrawState::Drawing(origin, (trail.len() - 1) as usize)
                } else {
                    DrawState::Nocking(origin, true)
                };
                (next, trail.push(pt), cue)
            } else {
                (state, trail.push(pt), MotionCue::Silent)
            }
        },
        DrawState::Drawing(origin, t) => (state, trail.push(pt), MotionCue::Draw { origin, nock: trail[t as int] }),
    }
}

/// What releasing the button shoots, if anything.
pub open spec fn release_of(state: DrawState, trail: Seq<Point>) -> Option<Release> {
    match state {
        DrawState::Drawing(origin, t) => if t + 1 < trail.len() {
            Some(Release { origin, nock: trail[t as int], turnaround: t, point_count: trail.len() as usize })
        } else {
            None
        },
        _ => None,
    }
}

/// The squared distance is the Euclidean one: it vanishes from a point to
/// itself, is symmetric, does not change when both points are moved by the
/// same offset, and along one axis it is the square of the coordinate gap.
pub proof fn lemma_dist2_euclidean(a: Point, b: Point, dx: i32, dy: i32)
    ensures
        dist2(a, a) == 0,
        dist2(a, b) == dist2(b, a),
        dist2(a, b) >= 0,
        a.y == b.y ==> dist2(a, b) == (b.x - a.x) * (b.x - a.x),
        a.x == b.x ==> dist2(a, b) == (b.y - a.y) * (b.y - a.y),
        ({
            let a2 = Point { x: (a.x + dx) as i32, y: (a.y + dy) as i32 };
            let b2 = Point { x: (b.x + dx) as i32, y: (b.y + dy) as i32 };
            (i32::MIN <= a.x + dx <= i32::MAX && i32::MIN <= a.y + dy <= i32::MAX
                && i32::MIN <= b.x + dx <= i32::MAX && i32::MIN <= b.y + dy <= i32::MAX)
                ==> dist2(a2, b2) == dist2(a, b)
        }),
{
    assert((a.x - b.x) * (a.x - b.x) == (b.x - a.x) * (b.x - a.x)) by (nonlinear_arith);
    assert((a.y - b.y) * (a.y - b.y) == (b.y - a.y) * (b.y - a.y)) by (nonlinear_arith);
    assert((a.x - b.x) * (a.x - b.x) >= 0) by (nonlinear_arith);
    assert((a.y - b.y) * (a.y - b.y) >= 0) by (nonlinear_arith);
}

/// A move while nocking nocks the arrow only when the last recorded point
/// lies farther than `NOCK_DISTANCE` (Euclidean) from the origin, and it
/// starts drawing only when the new point is closer to the origin than that
/// last point. In particular, as long as every recorded point lies within
/// `NOCK_DISTANCE` of the origin, nothing happens but recording.
pub proof fn lemma_motion_nocks_only_far_away(origin: Point, clicked: bool, trail: Seq<Point>, pt: Point)
    requires
        trail.len() <= usize::MAX,
    ensures
        ({
            let (next, new_trail, cue) = motion_step(DrawState::Nocking(origin, clicked), trail, pt);
            let far = trail.len() > 0 && (trail.last().x - origin.x) * (trail.last().x - origin.x)
                + (trail.last().y - origin.y) * (trail.last().y - origin.y) > 50 * 50;
            &&& new_trail == trail.push(pt)
            &&& cue == (if far && !clicked { MotionCue::Nock } else { MotionCue::Silent })
            &&& !far ==> next == DrawState::Nocking(origin, clicked)
            &&& far ==> (next is Drawing || next == DrawState::Nocking(origin, true))
            &&& next matches DrawState::Drawing(o, t) ==> {
                &&& o == origin
                &&& t == trail.len() - 1
                &&& (pt.x - origin.x) * (pt.x - origin.x) + (pt.y - origin.y) * (pt.y - origin.y)
                    < (trail.last().x - origin.x) * (trail.last().x - origin.x)
                    + (trail.last().y - origin.y) * (trail.last().y - origin.y)
            }
        }),
{
    if trail.len() > 0 {
        lemma_dist2_euclidean(origin, trail.last(), 0, 0);
        lemma_dist2_euclidean(origin, pt, 0, 0);
    }
}

/// Releasing the button shoots only from a drawn bow: a shot carries the
/// drawing's origin and turnaround index, the turnaround point as its nock,
/// and the number of recorded points. Every other state shoots nothing, and a
/// well-formed drawn bow always shoots.
pub proof fn lemma_release_only_when_drawing(state: DrawState, trail: Seq<Point>)
    requires
        trail.len() <= usize::MAX,
    ensures
        release_of(state, trail) matches Some(shot) ==> {
            &&& state == DrawState::Drawing(shot.origin, shot.turnaround)
            &&& shot.turnaround < trail.len()
            &&& shot.nock == trail[shot.turnaround as int]
            &&& shot.point_count == trail.len()
        },
        !(state is Drawing) ==> release_of(state, trail) is None,
        state is Drawing && gesture_wf(state, trail) ==> release_of(state, trail) is Some,
{
}

/// A pointer move never loses a recorded point: while the button is held the
/// trail grows by exactly the new position, and otherwise nothing changes.
pub proof fn lemma_motion_extends_trail(state: DrawState, trail: Seq<Point>, pt: Point)
    ensures
        motion_step(state, trail, pt).1 == (if state is NotHolding {
            trail
        } else {
            trail.push(pt)
        }),
        state is NotHolding ==> motion_step(state, trail, pt) == (state, trail, MotionCue::Silent),
{
}

/// A gesture can only be drawing after the pointer went farther than
/// `NOCK_DISTANCE` from the origin and then came back closer: a move that
/// enters the drawing state turns back at the last recorded point.
pub proof fn lemma_drawing_starts_at_turnaround(state: DrawState, trail: Seq<Point>, pt: Point)
    requires
        !(state is Drawing),
        trail.len() <= usize::MAX,
    ensures
        motion_step(state, trail, pt).0 matches DrawState::Drawing(origin, t) ==> {
            &&& state matches DrawState::Nocking(o, _) && o == origin
            &&& t == trail.len() - 1
            &&& dist2(origin, trail[t as int]) > NOCK_DISTANCE * NOCK_DISTANCE
            &&& dist2(origin, trail[t as int]) > dist2(origin, pt)
        },
{
}

/// The gesture: its state and the recorded pointer trail.
pub struct BowDraw {
    draw_state: DrawState,
    mouse_pts: Vec<Point>,
}

impl BowDraw {
    /// The gesture state.
    pub closed spec fn gesture(self) -> DrawState {
        self.draw_state
    }

    /// The recorded pointer trail, oldest first.
    pub closed spec fn trail(self) -> Seq<Point> {
        self.mouse_pts@
    }

    /// The state and the trail fit together.
    pub open spec fn wf(self) -> bool {
        gesture_wf(self.gesture(), self.trail())
    }

    /// No gesture in progress.
    pub fn new() -> (r: Self)
        ensures
            r.wf(),
            r.gesture() == DrawState::NotHolding,
            r.trail() == Seq::<Point>::empty(),
    {
        BowDraw { draw_state: DrawState::NotHolding, mouse_pts: Vec::new() }
    }

    /// The gesture state.
    pub fn draw_state(&self) -> (r: DrawState)
        ensures
            r == self.gesture(),
    {
        self.draw_state
    }

    /// The recorded pointer trail.
    pub fn mouse_pts(&self) -> (r: &Vec<Point>)
        ensures
            r@ == self.trail(),
    {
        &self.mouse_pts
    }

    /// The left button went down at `origin`: nocking starts there. The trail
    /// is kept.
    pub fn press(&mut self, origin: Point)
        requires
            old(self).wf(),
        ensures
            final(self).wf(),
            final(self).gesture() == DrawState::Nocking(origin, false),
            final(self).trail() == old(self).trail(),
    {
        self.draw_state = DrawState::Nocking(origin, false);
    }

    /// The pointer moved to `pt`.
    pub fn motion(&mut self, pt: Point) -> (cue: MotionCue)
        requires
            old(self).wf(),
        ensures
            final(self).wf(),
            (final(self).gesture(), final(self).trail(), cue) == motion_step(old(self).gesture(), old(self).trail(), pt),
    {
        match self.draw_state {
            DrawState::NotHolding => MotionCue::Silent,
            DrawState::Nocking(origin, clicked) => {
                let mut cue = MotionCue::Silent;
                if self.mouse_pts.len() > 0 {
                    let pt_index = self.mouse_pts.len() - 1;
                    let prev_pt = self.mouse_pts[pt_index];
                    let p_dist = squared_distance(origin, prev_pt);
                    if p_dist > NOCK_DISTANCE * NOCK_DISTANCE {
                        if !clicked {
                            self.draw_state = DrawState::Nocking(origin, true);
                            cue = MotionCue::Nock;
                        }
                        if p_dist > squared_distance(origin, pt) {
                            self.draw_state = DrawState::Drawing(origin, pt_index);
                        }
                    }
                }
                self.mouse_pts.push(pt);
                cue
            },
            DrawState::Drawing(origin, turnaround_index) => {
                let nock = self.mouse_pts[turnaround_index];
                self.mouse_pts.push(pt);
                MotionCue::Draw { origin, nock }
            },
        }
    }

    /// The left button came up: the gesture ends and the trail is cleared.
    /// An arrow leaves the bow if the bow was being drawn and at least one
    /// point was recorded after the turnaround.
    pub fn release(&mut self) -> (r: Option<Release>)
        requires
            old(self).wf(),
        ensures
            final(self).wf(),
            r == release_of(old(self).gesture(), old(self).trail()),
            r matches Some(shot) ==> dist2(shot.origin, shot.nock) > NOCK_DISTANCE * NOCK_DISTANCE,
            old(self).gesture() is Drawing ==> r is Some,
            final(self).gesture() == DrawState::NotHolding,
            final(self).trail() == Seq::<Point>::empty(),
    {
        let mut shot = None;
        if let DrawState::Drawing(origin, turnaround_index) = self.draw_state {
            if turnaround_index < self.mouse_pts.len() - 1 {
                shot = Some(Release {
                    origin,
                    nock: self.mouse_pts[turnaround_index],
                    turnaround: turnaround_index,
                    point_count: self.mouse_pts.len(),
                });
            }
        }
        self.draw_state = DrawState::NotHolding;
        self.mouse_pts.clear();
        shot
    }

    /// The recorded point at `index`, if there is one.
    pub fn draw_point_abs(&self, index: usize) -> (r: Option<Point>)
        ensures
            r == (if index < self.trail().len() {
                Some(self.trail()[index as int])
            } else {
                None
            }),
    {
        if index < self.mouse_pts.len() {
            Some(self.mouse_pts[index])
        } else {
            None
        }
    }

    /// What the trail overlay shows: nothing until two points are recorded,
    /// then the whole trail while nocking, or the trail split at the
    /// turnaround while drawing (which needs a point before the turnaround).
    pub fn overlay(&self) -> (r: Overlay)
        requires
            self.trail().len() > 1 ==> match self.gesture() {
                DrawState::Drawing(_, t) => t >= 1,
                _ => true,
            },
        ensures
            r == (if self.trail().len() > 1 {
                match self.gesture() {
                    DrawState::NotHolding => Overlay::Hidden,
                    DrawState::Nocking(_, _) => Overlay::Trail,
                    DrawState::Drawing(_, t) => Overlay::Split(t),
                }
            } else {
                Overlay::Hidden
            }),
    {
        if self.mouse_pts.len() > 1 {
            match self.draw_state {
                DrawState::NotHolding => Overlay::Hidden,
                DrawState::Nocking(_, _) => Overlay::Trail,
                DrawState::Drawing(_, turnaround_index) => Overlay::Split(turnaround_index),
            }
        } else {
            Overlay::Hidden
        }
    }
}

} // verus!
