//! Frame clock and animation state machine of one rendered entity.

use vstd::prelude::*;

use crate::models::Direction;

verus! {

/// Logical animation state of an entity.
#[derive(Debug, Clone, Copy, PartialEq, Eq, Structural, Hash, Default)]
pub enum AnimState {
    #[default]
    Idle,
    Walk,
    Attack,
    Hit,
    Die,
}

/// Facing of a four-directional sprite.
#[derive(Debug, Clone, Copy, PartialEq, Eq, Structural, Hash, Default)]
pub enum AnimDirection {
    #[default]
    Down,
    Left,
    Right,
    Up,
}

/// Sheet row of a state; `Die` shares the row of `Hit`.
pub open spec fn row_of(s: AnimState) -> int {
    match s {
        AnimState::Idle => 0,
        AnimState::Walk => 1,
        AnimState::Attack => 2,
        AnimState::Hit => 3,
        AnimState::Die => 3,
    }
}

/// Idle and walk cycles repeat; attack, hit and death play once.
pub open spec fn loops(s: AnimState) -> bool {
    match s {
        AnimState::Idle | AnimState::Walk => true,
        _ => false,
    }
}

/// The states for which default anchor tables are authored.
pub open spec fn basic_states_spec() -> Seq<AnimState> {
    seq![AnimState::Idle, AnimState::Walk, AnimState::Attack, AnimState::Hit, AnimState::Die]
}

/// The four facings.
pub open spec fn all_directions_spec() -> Seq<AnimDirection> {
    seq![AnimDirection::Down, AnimDirection::Left, AnimDirection::Right, AnimDirection::Up]
}

impl AnimState {
    /// Row of this state in a standard sprite sheet.
    pub fn row_index(&self) -> (r: usize)
        ensures
            r == row_of(*self),
    {
        match self {
            AnimState::Idle => 0,
            AnimState::Walk => 1,
            AnimState::Attack => 2,
            AnimState::Hit => 3,
            AnimState::Die => 3,
        }
    }

    /// Whether this state's animation repeats.
    pub fn is_looping(&self) -> (r: bool)
        ensures
            r == loops(*self),
    {
        !matches!(self, AnimState::Attack | AnimState::Hit | AnimState::Die)
    }

    /// The states that carry authored anchor data.
    pub fn basic_states() -> (r: Vec<AnimState>)
        ensures
            r@ == basic_states_spec(),
    {
        let r = vec![AnimState::Idle, AnimState::Walk, AnimState::Attack, AnimState::Hit, AnimState::Die];
        assert(r@ =~= basic_states_spec());
        r
    }
}

impl AnimDirection {
    /// All four facings.
    pub fn all() -> (r: Vec<AnimDirection>)
        ensures
            r@ == all_directions_spec(),
    {
        let r = vec![AnimDirection::Down, AnimDirection::Left, AnimDirection::Right, AnimDirection::Up];
        assert(r@ =~= all_directions_spec());
        r
    }
}

/// Nanoseconds in one second.
pub const NANOS_PER_SECOND: u64 = 1_000_000_000;

/// Layout and playback speed of a sprite sheet: a grid of `columns` by
/// `rows` frames of `frame_width` by `frame_height` pixels, played at `fps`
/// frames per second.
#[derive(Debug, Clone, Copy, PartialEq, Eq, Structural)]
pub struct AnimationConfig {
    pub columns: usize,
    pub rows: usize,
    pub frame_width: u32,
    pub frame_height: u32,
    pub fps: u32,
}

/// The standard sheet: 4x4 frames of 48x64 pixels at 8 frames per second.
pub open spec fn standard_config() -> AnimationConfig {
    AnimationConfig { columns: 4, rows: 4, frame_width: 48, frame_height: 64, fps: 8 }
}

impl Default for AnimationConfig {
    fn default() -> (r: AnimationConfig)
        ensures
            r == standard_config(),
    {
        AnimationConfig { columns: 4, rows: 4, frame_width: 48, frame_height: 64, fps: 8 }
    }
}

/// Sheet layouts of player characters.
pub struct CharacterAnimations;

impl CharacterAnimations {
    /// Every character class shares the standard layout.
    pub fn get_config(_class: &str) -> (r: AnimationConfig)
        ensures
            r == standard_config(),
    {
        AnimationConfig { columns: 4, rows: 4, frame_width: 48, frame_height: 64, fps: 8 }
    }
}

/// Size class of a monster sprite.
#[derive(Debug, Clone, Copy, PartialEq, Eq, Structural, Hash)]
pub enum SpriteSize {
    Small,
    Medium,
    Large,
    Boss,
}

/// Sheet layout of each monster size class: always 4x4 frames; larger
/// monsters have larger frames and play more slowly.
pub open spec fn monster_config(size: SpriteSize) -> AnimationConfig {
    match size {
        SpriteSize::Small => AnimationConfig { columns: 4, rows: 4, frame_width: 32, frame_height: 32, fps: 8 },
        SpriteSize::Medium => AnimationConfig { columns: 4, rows: 4, frame_width: 48, frame_height: 48, fps: 8 },
        SpriteSize::Large => AnimationConfig { columns: 4, rows: 4, frame_width: 64, frame_height: 64, fps: 6 },
        SpriteSize::Boss => AnimationConfig {
            columns: 4,
            rows: 4,
            frame_width: 128,
            frame_height: 128,
            fps: 6,
        },
    }
}

/// Sheet layouts of monsters.
pub struct MonsterAnimations;

impl MonsterAnimations {
    pub fn get_config(sprite_size: &SpriteSize) -> (r: AnimationConfig)
        ensures
            r == monster_config(*sprite_size),
    {
        match sprite_size {
            SpriteSize::Small => AnimationConfig {
                columns: 4,
                rows: 4,
                frame_width: 32,
                frame_height: 32,
                fps: 8,
            },
            SpriteSize::Medium => AnimationConfig {
                columns: 4,
                rows: 4,
                frame_width: 48,
                frame_height: 48,
                fps: 8,
            },
            SpriteSize::Large => AnimationConfig {
                columns: 4,
                rows: 4,
                frame_width: 64,
                frame_height: 64,
                fps: 6,
            },
            SpriteSize::Boss => AnimationConfig {
                columns: 4,
                rows: 4,
                frame_width: 128,
                frame_height: 128,
                fps: 6,
            },
        }
    }
}

/// A repeating countdown of one frame interval, in nanoseconds.
#[derive(Debug, Clone, Copy, PartialEq, Eq, Structural)]
pub struct FrameTimer {
    pub duration_ns: u64,
    pub elapsed_ns: u64,
}

impl FrameTimer {
    pub open spec fn wf(self) -> bool {
        0 < self.duration_ns && self.elapsed_ns < self.duration_ns
    }

    /// A timer of one frame at `fps` frames per second.
    pub fn from_fps(fps: u32) -> (r: FrameTimer)
        requires
            0 < fps <= NANOS_PER_SECOND,
        ensures
            r.wf(),
            r.duration_ns == NANOS_PER_SECOND as int / (fps as int),
            r.elapsed_ns == 0,
    {
        proof {
            vstd::arithmetic::div_mod::lemma_div_is_ordered_by_denominator(
                NANOS_PER_SECOND as int,
                fps as int,
                NANOS_PER_SECOND as int,
            );
            vstd::arithmetic::div_mod::lemma_div_basics(NANOS_PER_SECOND as int);
        }
        FrameTimer { duration_ns: NANOS_PER_SECOND / (fps as u64), elapsed_ns: 0 }
    }

    /// Lets `delta_ns` pass; reports whether an interval ended, keeping the
    /// time past its end.
    pub fn tick(&mut self, delta_ns: u64) -> (finished: bool)
        requires
            old(self).wf(),
        ensures
            final(self).wf(),
            final(self).duration_ns == old(self).duration_ns,
            final(self).elapsed_ns == (old(self).elapsed_ns + delta_ns) % (old(self).duration_ns as int),
            finished == (old(self).elapsed_ns + delta_ns >= old(self).duration_ns),
    {
        let d = self.duration_ns;
        let e = self.elapsed_ns;
        let finished = delta_ns >= d - e;
        let r = delta_ns % d;
        let next = if r >= d - e {
            r - (d - e)
        } else {
            e + r
        };
        proof {
            let q = delta_ns as int / d as int;
            vstd::arithmetic::div_mod::lemma_fundamental_div_mod(delta_ns as int, d as int);
            let total = e as int + delta_ns as int;
            assert(total == d * q + (e + r));
            if r >= d - e {
                assert(total == d * (q + 1) + next) by (nonlinear_arith)
                    requires
                        total == d * q + (e + r),
                        next == e + r - d,
                ;
                vstd::arithmetic::div_mod::lemma_mod_multiples_vanish(q + 1, next as int, d as int);
            } else {
                vstd::arithmetic::div_mod::lemma_mod_multiples_vanish(q, next as int, d as int);
            }
            vstd::arithmetic::div_mod::lemma_small_mod(next as nat, d as nat);
        }
        self.elapsed_ns = next;
        finished
    }

    /// Restarts the current interval.
    pub fn reset(&mut self)
        ensures
            *final(self) == (FrameTimer { elapsed_ns: 0, ..*old(self) }),
    {
        self.elapsed_ns = 0;
    }
}

/// Source rectangle of a frame inside the sprite sheet, in pixels.
#[derive(Debug, Clone, Copy, PartialEq, Eq, Structural)]
pub struct FrameRect {
    pub min_x: u64,
    pub min_y: u64,
    pub max_x: u64,
    pub max_y: u64,
}

/// Animation state of one rendered entity: what it is doing, where it
/// faces, and how far the current animation has played.
#[derive(Debug, Clone, Copy, PartialEq, Eq, Structural)]
pub struct Animator {
    pub state: AnimState,
    pub direction: AnimDirection,
    pub current_frame: usize,
    pub timer: FrameTimer,
    pub frame_count: usize,
    pub playing: bool,
    pub looping: bool,
    pub config: AnimationConfig,
}

/// Whether a sheet layout can drive an animator: a positive number of
/// columns and frame rate, a frame interval of at least a nanosecond, and
/// sprite indices and pixel rectangles that fit the machine's integers.
pub open spec fn config_ok(config: AnimationConfig) -> bool {
    &&& 0 < config.columns
    &&& 0 < config.fps <= NANOS_PER_SECOND
    &&& 5 * config.columns <= usize::MAX
    &&& config.columns * config.frame_width <= u64::MAX
}

/// The smaller of two integers.
pub open spec fn min_int(a: int, b: int) -> int {
    if a <= b {
        a
    } else {
        b
    }
}

impl Animator {
    /// The invariant every animator keeps.
    pub open spec fn wf(self) -> bool {
        &&& config_ok(self.config)
        &&& 0 < self.frame_count <= self.config.columns
        &&& self.current_frame < self.frame_count
        &&& self.looping == loops(self.state)
        &&& !self.playing ==> !self.looping && self.current_frame == self.frame_count - 1
        &&& self.timer.wf()
    }

    /// The animator after one frame interval: a looping animation counts
    /// up and wraps to the first frame; a one-shot animation counts up and
    /// stops playing on the call that brings it to its last frame.
    pub open spec fn advance_spec(self) -> Animator {
        if !self.playing {
            self
        } else if self.looping {
            if self.current_frame + 1 < self.frame_count {
                Animator { current_frame: (self.current_frame + 1) as usize, ..self }
            } else {
                Animator { current_frame: 0, ..self }
            }
        } else if self.current_frame + 1 < self.frame_count - 1 {
            Animator { current_frame: (self.current_frame + 1) as usize, ..self }
        } else {
            Animator { current_frame: (self.frame_count - 1) as usize, playing: false, ..self }
        }
    }

    /// The animator after `n` frame intervals.
    pub open spec fn advance_n(self, n: nat) -> Animator
        decreases n,
    {
        if n == 0 {
            self
        } else {
            self.advance_n((n - 1) as nat).advance_spec()
        }
    }

    /// A fresh animator idling facing down, with one frame per sheet column.
    pub fn new(config: AnimationConfig) -> (r: Animator)
        requires
            config_ok(config),
        ensures
            r.wf(),
            r.state == AnimState::Idle,
            r.direction == AnimDirection::Down,
            r.current_frame == 0,
            r.frame_count == config.columns,
            r.playing,
            r.looping,
            r.config == config,
            r.timer.duration_ns == NANOS_PER_SECOND as int / (config.fps as int),
            r.timer.elapsed_ns == 0,
    {
        Animator {
            state: AnimState::Idle,
            direction: AnimDirection::Down,
            current_frame: 0,
            timer: FrameTimer::from_fps(config.fps),
            frame_count: config.columns,
            playing: true,
            looping: true,
            config,
        }
    }

    /// Switches to another state, restarting its animation from the first
    /// frame; a no-op when the state does not change.
    pub fn set_state(&mut self, state: AnimState)
        requires
            old(self).wf(),
        ensures
            final(self).wf(),
            old(self).state == state ==> *final(self) == *old(self),
            old(self).state != state ==> *final(self) == (Animator {
                state,
                current_frame: 0,
                timer: FrameTimer { elapsed_ns: 0, ..old(self).timer },
                playing: true,
                looping: loops(state),
                ..*old(self)
            }),
    {
        if self.state != state {
            self.state = state;
            self.current_frame = 0;
            self.timer.reset();
            self.playing = true;
            self.looping = state.is_looping();
        }
    }

    /// Turns to face another way; the animation goes on.
    pub fn set_direction(&mut self, direction: AnimDirection)
        requires
            old(self).wf(),
        ensures
            final(self).wf(),
            *final(self) == (Animator { direction, ..*old(self) }),
    {
        self.direction = direction;
    }

    /// Index of the current frame in a sheet of `columns` frames per row.
    pub fn sprite_index(&self) -> (r: usize)
        requires
            self.wf(),
        ensures
            r == row_of(self.state) * self.config.columns + min_int(
                self.current_frame as int,
                self.frame_count - 1,
            ),
    {
        let row = self.state.row_index();
        let last = self.frame_count - 1;
        let col = if self.current_frame < last {
            self.current_frame
        } else {
            last
        };
        proof {
            assert(row * self.config.columns <= 3 * self.config.columns) by (nonlinear_arith)
                requires
                    row <= 3,
            ;
        }
        row * self.config.columns + col
    }

    /// Moves to the next frame: a looping animation wraps to the first frame;
    /// any other stops playing as soon as it shows its last frame.
    pub fn advance(&mut self)
        requires
            old(self).wf(),
        ensures
            final(self).wf(),
            *final(self) == old(self).advance_spec(),
    {
        if !self.playing {
            return;
        }
        if self.looping {
            self.current_frame += 1;
            if self.current_frame >= self.frame_count {
                self.current_frame = 0;
            }
        } else if self.current_frame + 1 < self.frame_count - 1 {
            self.current_frame += 1;
        } else {
            self.current_frame = self.frame_count - 1;
            self.playing = false;
        }
    }

    /// Whether a one-shot animation has played to its end.
    pub fn is_finished(&self) -> (r: bool)
        ensures
            r == (!self.looping && !self.playing),
    {
        !self.looping && !self.playing
    }

    /// Lets `delta_ns` nanoseconds pass: a stopped animation ignores them;
    /// otherwise, when a frame interval ends, the animation advances one
    /// frame. Reports whether it advanced.
    pub fn tick(&mut self, delta_ns: u64) -> (advanced: bool)
        requires
            old(self).wf(),
        ensures
            final(self).wf(),
            !old(self).playing ==> *final(self) == *old(self) && !advanced,
            old(self).playing ==> {
                let fired = old(self).timer.elapsed_ns + delta_ns >= old(self).timer.duration_ns;
                let timer = FrameTimer {
                    elapsed_ns: ((old(self).timer.elapsed_ns + delta_ns) % (
                    old(self).timer.duration_ns as int)) as u64,
                    ..old(self).timer
                };
                let ticked = Animator { timer, ..*old(self) };
                &&& advanced == fired
                &&& *final(self) == if fired {
                    ticked.advance_spec()
                } else {
                    ticked
                }
            },
    {
        if !self.playing {
            return false;
        }
        let fired = self.timer.tick(delta_ns);
        if fired {
            self.advance();
        }
        fired
    }

    /// Pixel rectangle of the current frame in the sheet: column
    /// `current_frame % columns`, row of the current state.
    pub fn frame_rect(&self) -> (r: FrameRect)
        requires
            self.wf(),
        ensures
            ({
                let col = self.current_frame as int % self.config.columns as int;
                let row = row_of(self.state);
                let w = self.config.frame_width as int;
                let h = self.config.frame_height as int;
                r == FrameRect {
                    min_x: (col * w) as u64,
                    min_y: (row * h) as u64,
                    max_x: ((col + 1) * w) as u64,
                    max_y: ((row + 1) * h) as u64,
                }
            }),
    {
        let col = (self.current_frame % self.config.columns) as u64;
        let row = self.state.row_index() as u64;
        let w = self.config.frame_width as u64;
        let h = self.config.frame_height as u64;
        let columns = self.config.columns as u64;
        proof {
            assert((col + 1) * w <= columns * w) by (nonlinear_arith)
                requires
                    col + 1 <= columns,
            ;
            assert(col * w <= (col + 1) * w) by (nonlinear_arith);
            assert((row + 1) * h <= 4 * 0x1_0000_0000u64) by (nonlinear_arith)
                requires
                    row <= 3,
                    h < 0x1_0000_0000u64,
            ;
            assert(row * h <= (row + 1) * h) by (nonlinear_arith);
        }
        FrameRect { min_x: col * w, min_y: row * h, max_x: (col + 1) * w, max_y: (row + 1) * h }
    }
}

/// One step of counting modulo `m`.
proof fn lemma_mod_step(x: int, m: int)
    requires
        0 <= x,
        0 < m,
    ensures
        (x + 1) % m == if x % m + 1 < m {
            x % m + 1
        } else {
            0
        },
{
    let q = x / m;
    let r = x % m;
    vstd::arithmetic::div_mod::lemma_fundamental_div_mod(x, m);
    if r + 1 < m {
        vstd::arithmetic::div_mod::lemma_mod_multiples_vanish(q, r + 1, m);
        vstd::arithmetic::div_mod::lemma_small_mod((r + 1) as nat, m as nat);
    } else {
        assert(x + 1 == m * (q + 1) + 0) by (nonlinear_arith)
            requires
                x == m * q + r,
                r + 1 == m,
        ;
        vstd::arithmetic::div_mod::lemma_mod_multiples_vanish(q + 1, 0, m);
        vstd::arithmetic::div_mod::lemma_small_mod(0, m as nat);
    }
}

/// `n` advances of a looping animation count its frame up modulo the
/// frame count and change nothing else.
pub proof fn lemma_loop_advance_n(a: Animator, n: nat)
    requires
        a.wf(),
        a.looping,
    ensures
        a.advance_n(n) == (Animator {
            current_frame: ((a.current_frame + n) % (a.frame_count as int)) as usize,
            ..a
        }),
        a.advance_n(n).wf(),
    decreases n,
{
    let fc = a.frame_count as int;
    if n == 0 {
        vstd::arithmetic::div_mod::lemma_small_mod(a.current_frame as nat, fc as nat);
    } else {
        lemma_loop_advance_n(a, (n - 1) as nat);
        lemma_mod_step(a.current_frame + n - 1, fc);
    }
}

/// A looping animation advanced exactly `frame_count` times is back where
/// it started.
pub proof fn lemma_loop_returns_to_start(a: Animator)
    requires
        a.wf(),
        a.looping,
    ensures
        a.advance_n(a.frame_count as nat) == a,
{
    lemma_loop_advance_n(a, a.frame_count as nat);
    let fc = a.frame_count as int;
    vstd::arithmetic::div_mod::lemma_mod_multiples_vanish(1, a.current_frame as int, fc);
    vstd::arithmetic::div_mod::lemma_small_mod(a.current_frame as nat, fc as nat);
}

/// While a one-shot animation is short of its last frame, each advance
/// moves one frame on and it keeps playing.
pub proof fn lemma_one_shot_advance_n(a: Animator, n: nat)
    requires
        a.wf(),
        !a.looping,
        a.playing,
        a.current_frame + n < a.frame_count - 1,
    ensures
        a.advance_n(n) == (Animator { current_frame: (a.current_frame + n) as usize, ..a }),
    decreases n,
{
    if n > 0 {
        lemma_one_shot_advance_n(a, (n - 1) as nat);
    }
}

/// A one-shot animation of at least two frames, started on its first frame,
/// shows its last frame after `frame_count - 1` advances and has stopped
/// there, finished; every later advance changes nothing.
pub proof fn lemma_one_shot_stops_on_last_frame(a: Animator, extra: nat)
    requires
        a.wf(),
        !a.looping,
        a.playing,
        a.current_frame == 0,
        a.frame_count >= 2,
    ensures
        a.advance_n((a.frame_count - 1) as nat) == (Animator {
            current_frame: (a.frame_count - 1) as usize,
            playing: false,
            ..a
        }),
        a.advance_n((a.frame_count - 1) as nat).current_frame == a.frame_count - 1,
        !a.advance_n((a.frame_count - 1) as nat).playing,
        !a.advance_n((a.frame_count - 1) as nat).looping,
        a.advance_n((a.frame_count - 1) as nat + extra) == a.advance_n((a.frame_count - 1) as nat),
    decreases extra,
{
    let fc = a.frame_count;
    lemma_one_shot_advance_n(a, (fc - 2) as nat);
    assert(a.advance_n((fc - 1) as nat) == a.advance_n((fc - 2) as nat).advance_spec());
    if extra > 0 {
        lemma_one_shot_stops_on_last_frame(a, (extra - 1) as nat);
        assert(a.advance_n((fc - 1) as nat + extra) == a.advance_n(
            ((fc - 1) as nat + extra - 1) as nat,
        ).advance_spec());
    }
}

/// The sprite facing of a movement direction.
pub open spec fn facing_of(d: Direction) -> AnimDirection {
    match d {
        Direction::Down => AnimDirection::Down,
        Direction::Left => AnimDirection::Left,
        Direction::Right => AnimDirection::Right,
        Direction::Up => AnimDirection::Up,
    }
}

impl From<Direction> for AnimDirection {
    fn from(dir: Direction) -> (r: AnimDirection) {
        match dir {
            Direction::Down => AnimDirection::Down,
            Direction::Left => AnimDirection::Left,
            Direction::Right => AnimDirection::Right,
            Direction::Up => AnimDirection::Up,
        }
    }
}

impl vstd::std_specs::convert::FromSpecImpl<Direction> for AnimDirection {
    open spec fn obeys_from_spec() -> bool {
        true
    }

    open spec fn from_spec(dir: Direction) -> AnimDirection {
        facing_of(dir)
    }
}

impl Default for Animator {
    /// An idle animator facing down on the standard sheet.
    fn default() -> (r: Animator)
        ensures
            r.wf(),
            r.state == AnimState::Idle,
            r.direction == AnimDirection::Down,
            r.current_frame == 0,
            r.frame_count == 4,
            r.playing,
            r.looping,
            r.config == standard_config(),
            r.timer.duration_ns == NANOS_PER_SECOND as int / 8,
            r.timer.elapsed_ns == 0,
    {
        Animator::new(AnimationConfig::default())
    }
}

} // verus!
