//! Anchor tables: for each animation state, facing and frame, the points on
//! the body sprite where equipment is attached. Only the right and down
//! facings need to be authored; the left facing is derived by mirroring.

use vstd::prelude::*;

use crate::animation::{AnimDirection, AnimState};
use crate::search::{first_index, lemma_first_index, lemma_first_index_push, lemma_first_index_update};

verus! {

/// A named attachment point on the body sprite.
#[derive(Debug, Clone, Copy, PartialEq, Eq, Structural, Hash)]
pub enum AnchorType {
    Head,
    Body,
    RightHand,
    LeftHand,
    Back,
    Feet,
    EffectCenter,
}

/// Every anchor type, in declaration order.
pub open spec fn all_anchors_spec() -> Seq<AnchorType> {
    seq![
        AnchorType::Head,
        AnchorType::Body,
        AnchorType::RightHand,
        AnchorType::LeftHand,
        AnchorType::Back,
        AnchorType::Feet,
        AnchorType::EffectCenter,
    ]
}

/// The anchor a point moves to when the frame is mirrored: the hands swap,
/// every other anchor stays where it is.
pub open spec fn mirror_partner(t: AnchorType) -> AnchorType {
    match t {
        AnchorType::RightHand => AnchorType::LeftHand,
        AnchorType::LeftHand => AnchorType::RightHand,
        other => other,
    }
}

impl AnchorType {
    /// All anchor types.
    pub fn all() -> (r: Vec<AnchorType>)
        ensures
            r@ == all_anchors_spec(),
    {
        let r = vec![
            AnchorType::Head,
            AnchorType::Body,
            AnchorType::RightHand,
            AnchorType::LeftHand,
            AnchorType::Back,
            AnchorType::Feet,
            AnchorType::EffectCenter,
        ];
        assert(r@ =~= all_anchors_spec());
        r
    }
}

/// A point in frame-local pixel space, origin at the top-left corner.
#[derive(Debug, Clone, Copy, PartialEq, Eq, Structural, Default)]
pub struct Point2D {
    pub x: i32,
    pub y: i32,
}

/// Whether `v` is a representable coordinate.
pub open spec fn fits_i32(v: int) -> bool {
    i32::MIN <= v <= i32::MAX
}

/// The horizontal reflection of `p` inside a frame of width `w`.
pub open spec fn mirror_point(p: Point2D, w: int) -> Point2D {
    Point2D { x: (w - p.x) as i32, y: p.y }
}

/// `mirror_point` lifted to an optional point.
pub open spec fn mirror_opt(p: Option<Point2D>, w: int) -> Option<Point2D> {
    match p {
        Some(q) => Some(mirror_point(q, w)),
        None => None,
    }
}

/// An absent point, or one whose reflection in width `w` is representable.
pub open spec fn opt_can_mirror(p: Option<Point2D>, w: int) -> bool {
    match p {
        Some(q) => fits_i32(w - q.x),
        None => true,
    }
}

impl Point2D {
    pub fn new(x: i32, y: i32) -> (r: Point2D)
        ensures
            r == (Point2D { x, y }),
    {
        Point2D { x, y }
    }

    /// Reflects the point horizontally inside a frame of the given width.
    pub fn mirror(&self, frame_width: i32) -> (r: Point2D)
        requires
            fits_i32(frame_width - self.x),
        ensures
            r == mirror_point(*self, frame_width as int),
    {
        Point2D { x: frame_width - self.x, y: self.y }
    }
}

/// The anchor points of one frame, with the equipment tilt in degrees and a
/// fine depth adjustment within a layer.
#[derive(Debug, Clone, Copy, PartialEq, Eq, Structural, Default)]
pub struct FrameAnchors {
    pub head: Option<Point2D>,
    pub body: Option<Point2D>,
    pub right_hand: Option<Point2D>,
    pub left_hand: Option<Point2D>,
    pub back: Option<Point2D>,
    pub feet: Option<Point2D>,
    pub effect_center: Option<Point2D>,
    pub rotation: i32,
    pub z_offset: i32,
}

impl FrameAnchors {
    /// The point stored for an anchor type.
    pub open spec fn point(self, t: AnchorType) -> Option<Point2D> {
        match t {
            AnchorType::Head => self.head,
            AnchorType::Body => self.body,
            AnchorType::RightHand => self.right_hand,
            AnchorType::LeftHand => self.left_hand,
            AnchorType::Back => self.back,
            AnchorType::Feet => self.feet,
            AnchorType::EffectCenter => self.effect_center,
        }
    }

    /// The same frame with the point of one anchor type replaced.
    pub open spec fn with_point(self, t: AnchorType, p: Option<Point2D>) -> FrameAnchors {
        match t {
            AnchorType::Head => FrameAnchors { head: p, ..self },
            AnchorType::Body => FrameAnchors { body: p, ..self },
            AnchorType::RightHand => FrameAnchors { right_hand: p, ..self },
            AnchorType::LeftHand => FrameAnchors { left_hand: p, ..self },
            AnchorType::Back => FrameAnchors { back: p, ..self },
            AnchorType::Feet => FrameAnchors { feet: p, ..self },
            AnchorType::EffectCenter => FrameAnchors { effect_center: p, ..self },
        }
    }

    /// A frame with no anchors, no tilt and no depth adjustment.
    pub open spec fn empty() -> FrameAnchors {
        FrameAnchors {
            head: None,
            body: None,
            right_hand: None,
            left_hand: None,
            back: None,
            feet: None,
            effect_center: None,
            rotation: 0,
            z_offset: 0,
        }
    }

    /// Whether every coordinate and the tilt of this frame can be mirrored
    /// in width `w` without leaving the range of `i32`.
    pub open spec fn can_mirror(self, w: int) -> bool {
        &&& opt_can_mirror(self.head, w)
        &&& opt_can_mirror(self.body, w)
        &&& opt_can_mirror(self.right_hand, w)
        &&& opt_can_mirror(self.left_hand, w)
        &&& opt_can_mirror(self.back, w)
        &&& opt_can_mirror(self.feet, w)
        &&& opt_can_mirror(self.effect_center, w)
        &&& self.rotation != i32::MIN
    }

    /// The frame as seen in a mirror of width `w`: hands swap, every x is
    /// reflected, the tilt changes sign and the depth is kept.
    pub open spec fn mirror_spec(self, w: int) -> FrameAnchors {
        FrameAnchors {
            head: mirror_opt(self.head, w),
            body: mirror_opt(self.body, w),
            right_hand: mirror_opt(self.left_hand, w),
            left_hand: mirror_opt(self.right_hand, w),
            back: mirror_opt(self.back, w),
            feet: mirror_opt(self.feet, w),
            effect_center: mirror_opt(self.effect_center, w),
            rotation: (-self.rotation) as i32,
            z_offset: self.z_offset,
        }
    }

    pub fn new() -> (r: FrameAnchors)
        ensures
            r == FrameAnchors::empty(),
    {
        FrameAnchors {
            head: None,
            body: None,
            right_hand: None,
            left_hand: None,
            back: None,
            feet: None,
            effect_center: None,
            rotation: 0,
            z_offset: 0,
        }
    }

    /// Sets the point of one anchor type, replacing any earlier one.
    pub fn with_anchor(self, anchor_type: AnchorType, x: i32, y: i32) -> (r: FrameAnchors)
        ensures
            r == self.with_point(anchor_type, Some(Point2D { x, y })),
    {
        let mut r = self;
        let p = Some(Point2D::new(x, y));
        match anchor_type {
            AnchorType::Head => r.head = p,
            AnchorType::Body => r.body = p,
            AnchorType::RightHand => r.right_hand = p,
            AnchorType::LeftHand => r.left_hand = p,
            AnchorType::Back => r.back = p,
            AnchorType::Feet => r.feet = p,
            AnchorType::EffectCenter => r.effect_center = p,
        }
        r
    }

    /// The point of one anchor type, if the frame defines it.
    pub fn get(&self, anchor_type: AnchorType) -> (r: Option<Point2D>)
        ensures
            r == self.point(anchor_type),
    {
        match anchor_type {
            AnchorType::Head => self.head,
            AnchorType::Body => self.body,
            AnchorType::RightHand => self.right_hand,
            AnchorType::LeftHand => self.left_hand,
            AnchorType::Back => self.back,
            AnchorType::Feet => self.feet,
            AnchorType::EffectCenter => self.effect_center,
        }
    }

    /// Whether `mirrored(frame_width)` may be called on this frame.
    pub fn mirrorable(&self, frame_width: i32) -> (r: bool)
        ensures
            r == self.can_mirror(frame_width as int),
    {
        opt_mirrorable(self.head, frame_width) && opt_mirrorable(self.body, frame_width)
            && opt_mirrorable(self.right_hand, frame_width) && opt_mirrorable(
            self.left_hand,
            frame_width,
        ) && opt_mirrorable(self.back, frame_width) && opt_mirrorable(self.feet, frame_width)
            && opt_mirrorable(self.effect_center, frame_width) && self.rotation != i32::MIN
    }

    /// The frame seen facing the other way in a frame of the given width.
    pub fn mirrored(&self, frame_width: i32) -> (r: FrameAnchors)
        requires
            self.can_mirror(frame_width as int),
        ensures
            r == self.mirror_spec(frame_width as int),
            r.can_mirror(frame_width as int),
    {
        FrameAnchors {
            head: opt_mirror(self.head, frame_width),
            body: opt_mirror(self.body, frame_width),
            right_hand: opt_mirror(self.left_hand, frame_width),
            left_hand: opt_mirror(self.right_hand, frame_width),
            back: opt_mirror(self.back, frame_width),
            feet: opt_mirror(self.feet, frame_width),
            effect_center: opt_mirror(self.effect_center, frame_width),
            rotation: -self.rotation,
            z_offset: self.z_offset,
        }
    }
}

fn opt_mirrorable(p: Option<Point2D>, frame_width: i32) -> (r: bool)
    ensures
        r == opt_can_mirror(p, frame_width as int),
{
    match p {
        Some(q) => {
            let d = frame_width as i64 - q.x as i64;
            i32::MIN as i64 <= d && d <= i32::MAX as i64
        },
        None => true,
    }
}

fn opt_mirror(p: Option<Point2D>, frame_width: i32) -> (r: Option<Point2D>)
    requires
        opt_can_mirror(p, frame_width as int),
    ensures
        r == mirror_opt(p, frame_width as int),
        opt_can_mirror(r, frame_width as int),
{
    match p {
        Some(q) => Some(q.mirror(frame_width)),
        None => None,
    }
}

/// Mirroring a frame twice in the same width gives the frame back: every
/// point, the tilt and the depth are restored exactly.
pub proof fn lemma_mirror_involutive(f: FrameAnchors, w: int)
    requires
        f.can_mirror(w),
    ensures
        f.mirror_spec(w).can_mirror(w),
        f.mirror_spec(w).mirror_spec(w) == f,
{
    assert(f.mirror_spec(w).mirror_spec(w) =~= f);
}

/// Mirroring moves each anchor to its partner: the new right hand is the
/// reflection of the old left hand and the other way round, and every
/// other anchor is reflected in place.
pub proof fn lemma_mirror_swaps_hands(f: FrameAnchors, w: int)
    ensures
        forall|t: AnchorType| #[trigger] f.mirror_spec(w).point(t) == mirror_opt(f.point(mirror_partner(t)), w),
        f.mirror_spec(w).point(AnchorType::RightHand) == mirror_opt(f.point(AnchorType::LeftHand), w),
        f.mirror_spec(w).point(AnchorType::LeftHand) == mirror_opt(f.point(AnchorType::RightHand), w),
{
    assert forall|t: AnchorType| #[trigger] f.mirror_spec(w).point(t) == mirror_opt(f.point(mirror_partner(t)), w) by {
        match t {
            AnchorType::Head => {},
            AnchorType::Body => {},
            AnchorType::RightHand => {},
            AnchorType::LeftHand => {},
            AnchorType::Back => {},
            AnchorType::Feet => {},
            AnchorType::EffectCenter => {},
        }
    }
}

/// One authored sequence: the anchors of every frame of one animation state
/// seen from one facing.
#[derive(Debug, Clone)]
pub struct AnimationAnchors {
    pub state: AnimState,
    pub direction: AnimDirection,
    pub frames: Vec<FrameAnchors>,
}

impl AnimationAnchors {
    /// A sequence of `frame_count` empty frames.
    pub fn new(state: AnimState, direction: AnimDirection, frame_count: usize) -> (r: AnimationAnchors)
        ensures
            r.state == state,
            r.direction == direction,
            r.frames@ == Seq::new(frame_count as nat, |i: int| FrameAnchors::empty()),
    {
        let mut frames: Vec<FrameAnchors> = Vec::new();
        let mut i: usize = 0;
        while i < frame_count
            invariant
                i <= frame_count,
                frames@ =~= Seq::new(i as nat, |j: int| FrameAnchors::empty()),
            decreases frame_count - i,
        {
            frames.push(FrameAnchors::new());
            i += 1;
        }
        AnimationAnchors { state, direction, frames }
    }

    /// The anchors of one frame, if the sequence is that long.
    pub fn get_frame(&self, frame_index: usize) -> (r: Option<&FrameAnchors>)
        ensures
            match r {
                Some(f) => frame_index < self.frames@.len() && *f == self.frames@[frame_index as int],
                None => frame_index >= self.frames@.len(),
            },
    {
        if frame_index < self.frames.len() {
            Some(&self.frames[frame_index])
        } else {
            None
        }
    }

    /// One anchor point of one frame, if both exist.
    pub fn get_anchor(&self, frame_index: usize, anchor_type: AnchorType) -> (r: Option<Point2D>)
        ensures
            r == (if frame_index < self.frames@.len() {
                self.frames@[frame_index as int].point(anchor_type)
            } else {
                None
            }),
    {
        match self.get_frame(frame_index) {
            Some(f) => f.get(anchor_type),
            None => None,
        }
    }
}

/// Selects the sequences stored for one state and facing.
pub open spec fn anim_key(s: AnimState, d: AnimDirection) -> spec_fn(AnimationAnchors) -> bool {
    |a: AnimationAnchors| a.state == s && a.direction == d
}

/// The facing whose authored data is mirrored when `d` has none.
pub open spec fn mirror_direction(d: AnimDirection) -> Option<AnimDirection> {
    match d {
        AnimDirection::Left => Some(AnimDirection::Right),
        AnimDirection::Right => Some(AnimDirection::Left),
        _ => None,
    }
}

/// Frame `i` of an optional sequence.
pub open spec fn frame_of(a: Option<AnimationAnchors>, i: int) -> Option<FrameAnchors> {
    match a {
        Some(a) => if 0 <= i < a.frames@.len() {
            Some(a.frames@[i])
        } else {
            None
        },
        None => None,
    }
}

/// The anchor table of one character archetype.
#[derive(Debug, Clone)]
pub struct CharacterAnchors {
    pub character_id: String,
    pub frame_width: i32,
    pub frame_height: i32,
    pub animations: Vec<AnimationAnchors>,
}

impl CharacterAnchors {
    /// The sequence stored for a state and facing; when several are stored,
    /// the first one counts.
    pub open spec fn animation(self, s: AnimState, d: AnimDirection) -> Option<AnimationAnchors> {
        let k = first_index(self.animations@, anim_key(s, d));
        if 0 <= k < self.animations@.len() {
            Some(self.animations@[k])
        } else {
            None
        }
    }

    /// What a lookup of frame `i` of state `s` facing `d` yields: the stored
    /// frame; failing a stored sequence for `d`, the mirror of the frame
    /// stored for the opposite side facing, provided its mirror image is
    /// representable; otherwise nothing.
    pub open spec fn anchors_spec(self, s: AnimState, d: AnimDirection, i: int) -> Option<FrameAnchors> {
        if self.animation(s, d) is Some {
            frame_of(self.animation(s, d), i)
        } else {
            match mirror_direction(d) {
                Some(m) => match frame_of(self.animation(s, m), i) {
                    Some(f) => if f.can_mirror(self.frame_width as int) {
                        Some(f.mirror_spec(self.frame_width as int))
                    } else {
                        None
                    },
                    None => None,
                },
                None => None,
            }
        }
    }

    /// An empty table.
    pub fn new(character_id: &str, frame_width: i32, frame_height: i32) -> (r: CharacterAnchors)
        ensures
            r.character_id@ == character_id@,
            r.frame_width == frame_width,
            r.frame_height == frame_height,
            r.animations@.len() == 0,
    {
        CharacterAnchors {
            character_id: character_id.to_string(),
            frame_width,
            frame_height,
            animations: Vec::new(),
        }
    }

    fn find_animation(&self, state: AnimState, direction: AnimDirection) -> (r: Option<usize>)
        ensures
            match r {
                Some(k) => k == first_index(self.animations@, anim_key(state, direction)) && k
                    < self.animations@.len(),
                None => first_index(self.animations@, anim_key(state, direction)) == -1,
            },
    {
        let ghost p = anim_key(state, direction);
        let mut i: usize = 0;
        while i < self.animations.len()
            invariant
                i <= self.animations@.len(),
                p == anim_key(state, direction),
                first_index(self.animations@, p) == crate::search::first_index_from(
                    self.animations@,
                    p,
                    i as int,
                ),
            decreases self.animations@.len() - i,
        {
            let hit = self.animations[i].state == state && self.animations[i].direction == direction;
            assert(hit == p(self.animations@[i as int]));
            if hit {
                return Some(i);
            }
            i += 1;
        }
        None
    }

    /// Stores a sequence under its state and facing, replacing the one
    /// stored there before.
    pub fn add_animation(&mut self, animation: AnimationAnchors)
        ensures
            final(self).character_id == old(self).character_id,
            final(self).frame_width == old(self).frame_width,
            final(self).frame_height == old(self).frame_height,
            forall|s: AnimState, d: AnimDirection| #[trigger]
                final(self).animation(s, d) == if s == animation.state && d == animation.direction {
                    Some(animation)
                } else {
                    old(self).animation(s, d)
                },
    {
        let ghost old_anims = self.animations@;
        let ghost q = anim_key(animation.state, animation.direction);
        proof {
            lemma_first_index(old_anims, q);
        }
        match self.find_animation(animation.state, animation.direction) {
            Some(k) => {
                self.animations.set(k, animation);
                assert forall|s: AnimState, d: AnimDirection| #[trigger]
                    self.animation(s, d) == if s == animation.state && d == animation.direction {
                        Some(animation)
                    } else {
                        old(self).animation(s, d)
                    } by {
                    let p = anim_key(s, d);
                    lemma_first_index(old_anims, p);
                    lemma_first_index_update(old_anims, p, k as int, animation);
                }
            },
            None => {
                self.animations.push(animation);
                assert forall|s: AnimState, d: AnimDirection| #[trigger]
                    self.animation(s, d) == if s == animation.state && d == animation.direction {
                        Some(animation)
                    } else {
                        old(self).animation(s, d)
                    } by {
                    let p = anim_key(s, d);
                    lemma_first_index(old_anims, p);
                    lemma_first_index_push(old_anims, p, animation);
                }
            },
        }
    }

    /// The anchors of frame `frame_index` of `state` facing `direction`,
    /// mirroring the opposite side facing when only that one is stored.
    /// A frame index past the sequence, a state and facing with nothing to
    /// mirror from, or a mirror image whose coordinates leave `i32` all
    /// yield `None`.
    pub fn get_anchors(&self, state: AnimState, direction: AnimDirection, frame_index: usize) -> (r:
        Option<FrameAnchors>)
        ensures
            r == self.anchors_spec(state, direction, frame_index as int),
    {
        proof {
            lemma_first_index(self.animations@, anim_key(state, direction));
        }
        if let Some(k) = self.find_animation(state, direction) {
            return match self.animations[k].get_frame(frame_index) {
                Some(f) => Some(*f),
                None => None,
            };
        }
        let mirror_dir = match direction {
            AnimDirection::Left => Some(AnimDirection::Right),
            AnimDirection::Right => Some(AnimDirection::Left),
            _ => None,
        };
        if let Some(m) = mirror_dir {
            proof {
                lemma_first_index(self.animations@, anim_key(state, m));
            }
            if let Some(k) = self.find_animation(state, m) {
                if let Some(f) = self.animations[k].get_frame(frame_index) {
                    if f.mirrorable(self.frame_width) {
                        return Some(f.mirrored(self.frame_width));
                    }
                }
            }
        }
        None
    }
}

/// Width of the default character frame in pixels.
pub const DEFAULT_FRAME_WIDTH: i32 = 48;

/// Height of the default character frame in pixels.
pub const DEFAULT_FRAME_HEIGHT: i32 = 64;

/// Number of frames of every default sequence.
pub const DEFAULT_FRAME_COUNT: usize = 4;

/// The resting anchors of the default 48x64 character.
pub open spec fn default_frame_spec() -> FrameAnchors {
    FrameAnchors {
        head: Some(Point2D { x: 24, y: 8 }),
        body: Some(Point2D { x: 24, y: 32 }),
        right_hand: Some(Point2D { x: 38, y: 36 }),
        left_hand: Some(Point2D { x: 10, y: 36 }),
        back: Some(Point2D { x: 24, y: 28 }),
        feet: Some(Point2D { x: 24, y: 62 }),
        effect_center: Some(Point2D { x: 24, y: 32 }),
        rotation: 0,
        z_offset: 0,
    }
}

/// Weapon tilt of the default attack swing, per frame.
pub open spec fn attack_rotation(i: int) -> int {
    if i == 0 {
        -30
    } else if i == 2 {
        45
    } else if i == 3 {
        30
    } else {
        0
    }
}

/// How far the right hand moves during the default attack swing, per frame.
pub open spec fn attack_hand_offset(i: int) -> (int, int) {
    if i == 0 {
        (2, 0)
    } else if i == 1 {
        (4, -4)
    } else if i == 2 {
        (6, -2)
    } else if i == 3 {
        (3, 2)
    } else {
        (0, 0)
    }
}

/// Frame `i` of the default sequence of state `s`: the resting anchors,
/// except that an attack tilts the weapon and moves the right hand.
pub open spec fn default_frame_at(s: AnimState, i: int) -> FrameAnchors {
    if s == AnimState::Attack {
        FrameAnchors {
            right_hand: Some(
                Point2D {
                    x: (38 + attack_hand_offset(i).0) as i32,
                    y: (36 + attack_hand_offset(i).1) as i32,
                },
            ),
            rotation: attack_rotation(i) as i32,
            ..default_frame_spec()
        }
    } else {
        default_frame_spec()
    }
}

/// The frames of the default sequence of state `s`.
pub open spec fn default_frames(s: AnimState) -> Seq<FrameAnchors> {
    Seq::new(DEFAULT_FRAME_COUNT as nat, |i: int| default_frame_at(s, i))
}

/// Whether the default table authors state `s` facing `d`: every state,
/// every facing but left, which is mirrored from right.
pub open spec fn default_authored(d: AnimDirection) -> bool {
    d != AnimDirection::Left
}

/// Position of a state in `basic_states_spec`.
pub open spec fn state_index(s: AnimState) -> int {
    match s {
        AnimState::Idle => 0,
        AnimState::Walk => 1,
        AnimState::Attack => 2,
        AnimState::Hit => 3,
        AnimState::Die => 4,
    }
}

/// Position of a facing in `all_directions_spec`.
pub open spec fn direction_index(d: AnimDirection) -> int {
    match d {
        AnimDirection::Down => 0,
        AnimDirection::Left => 1,
        AnimDirection::Right => 2,
        AnimDirection::Up => 3,
    }
}

fn default_frame(state: AnimState, i: usize) -> (r: FrameAnchors)
    requires
        i < DEFAULT_FRAME_COUNT,
    ensures
        r == default_frame_at(state, i as int),
{
    let mut frame = FrameAnchors::new().with_anchor(AnchorType::Head, 24, 8).with_anchor(
        AnchorType::Body,
        24,
        32,
    ).with_anchor(AnchorType::RightHand, 38, 36).with_anchor(AnchorType::LeftHand, 10, 36).with_anchor(
        AnchorType::Back,
        24,
        28,
    ).with_anchor(AnchorType::Feet, 24, 62).with_anchor(AnchorType::EffectCenter, 24, 32);
    if state == AnimState::Attack {
        frame.rotation = match i {
            0 => -30,
            1 => 0,
            2 => 45,
            3 => 30,
            _ => 0,
        };
        let hand_offset: (i32, i32) = match i {
            0 => (2, 0),
            1 => (4, -4),
            2 => (6, -2),
            3 => (3, 2),
            _ => (0, 0),
        };
        if let Some(hand) = frame.right_hand {
            frame.right_hand = Some(Point2D::new(hand.x + hand_offset.0, hand.y + hand_offset.1));
        }
    }
    frame
}

fn default_animation(state: AnimState, direction: AnimDirection) -> (r: AnimationAnchors)
    ensures
        r.state == state,
        r.direction == direction,
        r.frames@ == default_frames(state),
{
    let mut anim = AnimationAnchors::new(state, direction, DEFAULT_FRAME_COUNT);
    let mut i: usize = 0;
    while i < DEFAULT_FRAME_COUNT
        invariant
            i <= DEFAULT_FRAME_COUNT,
            anim.state == state,
            anim.direction == direction,
            anim.frames@.len() == DEFAULT_FRAME_COUNT,
            forall|j: int| 0 <= j < i ==> anim.frames@[j] == default_frame_at(state, j),
        decreases DEFAULT_FRAME_COUNT - i,
    {
        anim.frames.set(i, default_frame(state, i));
        i += 1;
    }
    assert(anim.frames@ =~= default_frames(state));
    anim
}

impl CharacterAnchors {
    /// The default anchor table of a 48x64 character: every basic state is
    /// authored facing down, right and up with four frames, and the left
    /// facing is left to mirroring.
    pub fn default_character(character_id: &str) -> (r: CharacterAnchors)
        ensures
            r.character_id@ == character_id@,
            r.frame_width == DEFAULT_FRAME_WIDTH,
            r.frame_height == DEFAULT_FRAME_HEIGHT,
            forall|s: AnimState, d: AnimDirection| #[trigger] r.animation(s, d) is Some
                <==> default_authored(d),
            forall|s: AnimState, d: AnimDirection|
                default_authored(d) ==> (#[trigger] r.animation(s, d))->Some_0.frames@
                    == default_frames(s),
    {
        let mut anchors = CharacterAnchors::new(character_id, DEFAULT_FRAME_WIDTH, DEFAULT_FRAME_HEIGHT);
        let states = AnimState::basic_states();
        let directions = AnimDirection::all();
        let mut si: usize = 0;
        while si < states.len()
            invariant
                si <= states@.len(),
                states@ == crate::animation::basic_states_spec(),
                directions@ == crate::animation::all_directions_spec(),
                anchors.character_id@ == character_id@,
                anchors.frame_width == DEFAULT_FRAME_WIDTH,
                anchors.frame_height == DEFAULT_FRAME_HEIGHT,
                forall|s: AnimState, d: AnimDirection| #[trigger]
                    anchors.animation(s, d) is Some <==> (default_authored(d) && state_index(s)
                        < si),
                forall|s: AnimState, d: AnimDirection|
                    default_authored(d) && state_index(s) < si ==> (#[trigger] anchors.animation(
                        s,
                        d,
                    ))->Some_0.frames@ == default_frames(s),
            decreases states@.len() - si,
        {
            let state = states[si];
            assert(state_index(state) == si);
            let mut di: usize = 0;
            while di < directions.len()
                invariant
                    si < states@.len(),
                    di <= directions@.len(),
                    state == states@[si as int],
                    state_index(state) == si,
                    directions@ == crate::animation::all_directions_spec(),
                    anchors.character_id@ == character_id@,
                    anchors.frame_width == DEFAULT_FRAME_WIDTH,
                    anchors.frame_height == DEFAULT_FRAME_HEIGHT,
                    forall|s: AnimState, d: AnimDirection| #[trigger]
                        anchors.animation(s, d) is Some <==> (default_authored(d) && (state_index(s)
                            < si || (state_index(s) == si && direction_index(d) < di))),
                    forall|s: AnimState, d: AnimDirection|
                        default_authored(d) && (state_index(s) < si || (state_index(s) == si
                            && direction_index(d) < di)) ==> (#[trigger] anchors.animation(
                            s,
                            d,
                        ))->Some_0.frames@ == default_frames(s),
                decreases directions@.len() - di,
            {
                let direction = directions[di];
                assert(direction_index(direction) == di);
                if direction != AnimDirection::Left {
                    anchors.add_animation(default_animation(state, direction));
                }
                di += 1;
            }
            si += 1;
        }
        anchors
    }
}

/// Where and how one equipment sprite is drawn this frame.
#[derive(Debug, Clone)]
pub struct EquipmentRenderInfo {
    /// Sprite to draw; left empty here and filled in by the caller from the
    /// layer stack.
    pub sprite_path: String,
    /// Position in world coordinates.
    pub position: Point2D,
    /// Tilt in degrees.
    pub rotation: i32,
    pub z_order: i32,
    pub flip_x: bool,
}

/// Half of `v`, rounded toward zero.
pub open spec fn half_toward_zero(v: int) -> int {
    if v >= 0 {
        v / 2
    } else {
        -((-v) / 2)
    }
}

/// The world position of a frame-local anchor point: frames are placed with
/// their bottom-center on the character's world position.
pub open spec fn world_position(pos: Point2D, anchor: Point2D, w: int, h: int) -> (int, int) {
    (pos.x + anchor.x - half_toward_zero(w), pos.y + anchor.y - h)
}

/// A draw instruction without its sprite: position, tilt, depth and flip.
pub struct Placement {
    pub position: Point2D,
    pub rotation: i32,
    pub z_order: i32,
    pub flip_x: bool,
}

/// Selects the tables registered for one archetype.
pub open spec fn id_key(id: Seq<char>) -> spec_fn(CharacterAnchors) -> bool {
    |c: CharacterAnchors| c.character_id@ == id
}

/// The registry of anchor tables, one per character archetype.
pub struct EquipmentRenderer {
    character_anchors: Vec<CharacterAnchors>,
}

impl EquipmentRenderer {
    /// The table registered under `id`; when several are, the first counts.
    pub closed spec fn table(self, id: Seq<char>) -> Option<CharacterAnchors> {
        let k = first_index(self.character_anchors@, id_key(id));
        if 0 <= k < self.character_anchors@.len() {
            Some(self.character_anchors@[k])
        } else {
            None
        }
    }

    /// The placement of anchor `t` of frame `i` of state `s` facing `d` for
    /// the archetype `id` standing at `pos`, if the archetype is registered,
    /// the frame resolves, the anchor is defined and the world position is
    /// representable.
    pub open spec fn placement_spec(
        self,
        id: Seq<char>,
        pos: Point2D,
        s: AnimState,
        d: AnimDirection,
        i: int,
        t: AnchorType,
    ) -> Option<Placement> {
        match self.table(id) {
            Some(c) => match c.anchors_spec(s, d, i) {
                Some(f) => match f.point(t) {
                    Some(a) => {
                        let wp = world_position(pos, a, c.frame_width as int, c.frame_height as int);
                        if fits_i32(wp.0) && fits_i32(wp.1) {
                            Some(
                                Placement {
                                    position: Point2D { x: wp.0 as i32, y: wp.1 as i32 },
                                    rotation: f.rotation,
                                    z_order: f.z_offset,
                                    flip_x: d == AnimDirection::Left,
                                },
                            )
                        } else {
                            None
                        }
                    },
                    None => None,
                },
                None => None,
            },
            None => None,
        }
    }

    /// An empty registry.
    pub fn new() -> (r: EquipmentRenderer)
        ensures
            forall|id: Seq<char>| #[trigger] r.table(id) is None,
    {
        EquipmentRenderer { character_anchors: Vec::new() }
    }

    fn find_character(&self, character_id: &String) -> (r: Option<usize>)
        ensures
            match r {
                Some(k) => k == first_index(self.character_anchors@, id_key(character_id@)) && k
                    < self.character_anchors@.len(),
                None => first_index(self.character_anchors@, id_key(character_id@)) == -1,
            },
    {
        let ghost p = id_key(character_id@);
        let mut i: usize = 0;
        while i < self.character_anchors.len()
            invariant
                i <= self.character_anchors@.len(),
                p == id_key(character_id@),
                first_index(self.character_anchors@, p) == crate::search::first_index_from(
                    self.character_anchors@,
                    p,
                    i as int,
                ),
            decreases self.character_anchors@.len() - i,
        {
            let hit = self.character_anchors[i].character_id == *character_id;
            assert(hit == p(self.character_anchors@[i as int]));
            if hit {
                return Some(i);
            }
            i += 1;
        }
        None
    }

    /// Registers a table under its archetype id, replacing the one
    /// registered there before.
    pub fn register_character(&mut self, anchors: CharacterAnchors)
        ensures
            forall|id: Seq<char>| #[trigger]
                final(self).table(id) == if id == anchors.character_id@ {
                    Some(anchors)
                } else {
                    old(self).table(id)
                },
    {
        let ghost old_tables = self.character_anchors@;
        let ghost q = id_key(anchors.character_id@);
        proof {
            lemma_first_index(old_tables, q);
        }
        match self.find_character(&anchors.character_id) {
            Some(k) => {
                let ghost a = anchors;
                self.character_anchors.set(k, anchors);
                assert forall|id: Seq<char>| #[trigger]
                    self.table(id) == if id == a.character_id@ {
                        Some(a)
                    } else {
                        old(self).table(id)
                    } by {
                    let p = id_key(id);
                    lemma_first_index(old_tables, p);
                    lemma_first_index_update(old_tables, p, k as int, a);
                }
            },
            None => {
                let ghost a = anchors;
                self.character_anchors.push(anchors);
                assert forall|id: Seq<char>| #[trigger]
                    self.table(id) == if id == a.character_id@ {
                        Some(a)
                    } else {
                        old(self).table(id)
                    } by {
                    let p = id_key(id);
                    lemma_first_index(old_tables, p);
                    lemma_first_index_push(old_tables, p, a);
                }
            },
        }
    }

    /// Where to draw the equipment attached at `anchor_type` on a character
    /// of archetype `character_id` standing at `character_world_pos`.
    pub fn calculate_equipment_position(
        &self,
        character_id: &str,
        character_world_pos: Point2D,
        state: AnimState,
        direction: AnimDirection,
        frame_index: usize,
        anchor_type: AnchorType,
    ) -> (r: Option<EquipmentRenderInfo>)
        ensures
            match r {
                Some(info) => {
                    let p = self.placement_spec(
                        character_id@,
                        character_world_pos,
                        state,
                        direction,
                        frame_index as int,
                        anchor_type,
                    );
                    &&& p is Some
                    &&& info.sprite_path@.len() == 0
                    &&& info.position == p->Some_0.position
                    &&& info.rotation == p->Some_0.rotation
                    &&& info.z_order == p->Some_0.z_order
                    &&& info.flip_x == p->Some_0.flip_x
                },
                None => self.placement_spec(
                    character_id@,
                    character_world_pos,
                    state,
                    direction,
                    frame_index as int,
                    anchor_type,
                ) is None,
            },
    {
        let key = character_id.to_string();
        proof {
            lemma_first_index(self.character_anchors@, id_key(character_id@));
        }
        let k = match self.find_character(&key) {
            Some(k) => k,
            None => return None,
        };
        let anchors = &self.character_anchors[k];
        let frame_anchors = match anchors.get_anchors(state, direction, frame_index) {
            Some(f) => f,
            None => return None,
        };
        let anchor_point = match frame_anchors.get(anchor_type) {
            Some(a) => a,
            None => return None,
        };
        let needs_flip = direction == AnimDirection::Left;
        let half_width: i64 = if anchors.frame_width >= 0 {
            anchors.frame_width as i64 / 2
        } else {
            -((-(anchors.frame_width as i64)) / 2)
        };
        let world_x = character_world_pos.x as i64 + anchor_point.x as i64 - half_width;
        let world_y = character_world_pos.y as i64 + anchor_point.y as i64 - anchors.frame_height as i64;
        if world_x < i32::MIN as i64 || world_x > i32::MAX as i64 || world_y < i32::MIN as i64
            || world_y > i32::MAX as i64 {
            return None;
        }
        Some(
            EquipmentRenderInfo {
                sprite_path: String::new(),
                position: Point2D::new(world_x as i32, world_y as i32),
                rotation: frame_anchors.rotation,
                z_order: frame_anchors.z_offset,
                flip_x: needs_flip,
            },
        )
    }
}

/// A state stored facing right but not facing left is looked up facing left
/// as the mirror of the right frame: the hands trade places, x is reflected
/// in the frame width and the tilt changes sign. This holds whenever that
/// mirror image is representable in `i32`; otherwise the lookup yields
/// nothing.
pub proof fn lemma_left_mirrors_right(c: CharacterAnchors, s: AnimState, i: int)
    requires
        c.animation(s, AnimDirection::Left) is None,
        frame_of(c.animation(s, AnimDirection::Right), i) is Some,
        frame_of(c.animation(s, AnimDirection::Right), i)->Some_0.can_mirror(c.frame_width as int),
    ensures
        ({
            let f = frame_of(c.animation(s, AnimDirection::Right), i)->Some_0;
            let w = c.frame_width as int;
            let g = c.anchors_spec(s, AnimDirection::Left, i);
            &&& g == Some(f.mirror_spec(w))
            &&& g->Some_0.point(AnchorType::RightHand) == mirror_opt(f.point(AnchorType::LeftHand), w)
            &&& g->Some_0.point(AnchorType::LeftHand) == mirror_opt(f.point(AnchorType::RightHand), w)
            &&& g->Some_0.rotation == -f.rotation
        }),
{
    let f = frame_of(c.animation(s, AnimDirection::Right), i)->Some_0;
    lemma_mirror_swaps_hands(f, c.frame_width as int);
}

/// A state and facing with no stored sequence, and no stored opposite side
/// facing to mirror from, yields nothing.
pub proof fn lemma_unregistered_yields_none(c: CharacterAnchors, s: AnimState, d: AnimDirection, i: int)
    requires
        c.animation(s, d) is None,
        mirror_direction(d) is None || c.animation(s, mirror_direction(d)->Some_0) is None,
    ensures
        c.anchors_spec(s, d, i) is None,
{
}

impl Default for EquipmentRenderer {
    fn default() -> (r: EquipmentRenderer)
        ensures
            forall|id: Seq<char>| #[trigger] r.table(id) is None,
    {
        EquipmentRenderer::new()
    }
}

} // verus!
