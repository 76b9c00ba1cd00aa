use crate::rect::Rect;
use std::time::Instant;
use vstd::arithmetic::div_mod::lemma_add_mod_noop_right;
use vstd::arithmetic::div_mod::lemma_small_mod;
use vstd::prelude::*;

verus! {

/// A looping sequence of frames cut from one sprite sheet.
///
/// The frames are windows into the texture registered under `texture_idx`.
/// One of them is current; it gives way to the next one, and the last to the
/// first, once at least `frame_duration` nanoseconds have gone by since the
/// previous change.
pub struct Animation {
    frames: Vec<Rect>,
    current_frame: usize,
    frame_duration: u128,
    last_instant: Instant,
    texture_idx: usize,
}

/// The mathematical content of an [`Animation`].
#[verifier::ext_equal]
pub struct AnimationView {
    /// The frames, in playing order.
    pub frames: Seq<Rect>,
    /// The index of the frame that is shown now.
    pub current_frame: nat,
    /// How long one frame stays, in nanoseconds.
    pub frame_duration: nat,
    /// The clock reading taken when the current frame came up.
    pub last_transition: Instant,
    /// The index of the sprite sheet in the texture registry.
    pub texture_index: nat,
}

/// What an animation learns at one step: how many nanoseconds went by since
/// its last change of frame, and what the clock shows now.
pub struct Tick {
    /// The nanoseconds since the last change of frame.
    pub elapsed: nat,
    /// The clock reading at this step.
    pub now: Instant,
}

impl AnimationView {
    /// The animation as it is right after construction at `now`.
    pub open spec fn starting(
        frames: Seq<Rect>,
        frame_duration: nat,
        texture_index: nat,
        now: Instant,
    ) -> AnimationView {
        AnimationView {
            frames,
            current_frame: 0,
            frame_duration,
            last_transition: now,
            texture_index,
        }
    }

    /// The current frame exists. An animation without frames is never
    /// well formed.
    pub open spec fn wf(self) -> bool {
        self.current_frame < self.frames.len()
    }

    /// Whether a frame that has been up for `elapsed` nanoseconds has to go.
    pub open spec fn due(self, elapsed: nat) -> bool {
        elapsed >= self.frame_duration
    }

    /// The window of the sprite sheet that is shown now.
    pub open spec fn current_rect(self) -> Rect
        recommends
            self.wf(),
    {
        self.frames[self.current_frame as int]
    }

    /// Whether `next` can be this animation one step by the clock later:
    /// either the animation moved one frame on at the time that `next`
    /// records, or nothing moved. A frame that lasts no time at all is
    /// always due, so such an animation cannot stay.
    pub open spec fn stepped_to(self, next: AnimationView) -> bool {
        ||| next == self.next_frame(next.last_transition)
        ||| next == self && self.frame_duration > 0
    }

    /// The animation one frame further, the change being made at `now`.
    pub open spec fn next_frame(self, now: Instant) -> AnimationView
        recommends
            self.wf(),
    {
        AnimationView {
            current_frame: (self.current_frame + 1) % self.frames.len(),
            last_transition: now,
            ..self
        }
    }

    /// One step: a due frame gives way to the next, anything else stays.
    pub open spec fn advance_after(self, elapsed: nat, now: Instant) -> AnimationView {
        if self.due(elapsed) {
            self.next_frame(now)
        } else {
            self
        }
    }

    /// The animation after the steps `ticks`, taken in order.
    pub open spec fn advance_through(self, ticks: Seq<Tick>) -> AnimationView
        decreases ticks.len(),
    {
        if ticks.len() == 0 {
            self
        } else {
            self.advance_through(ticks.drop_last()).advance_after(
                ticks.last().elapsed,
                ticks.last().now,
            )
        }
    }

    /// How many of the steps `ticks` find the frame due.
    pub open spec fn due_count(self, ticks: Seq<Tick>) -> nat
        decreases ticks.len(),
    {
        if ticks.len() == 0 {
            0
        } else {
            self.due_count(ticks.drop_last()) + if self.due(ticks.last().elapsed) {
                1nat
            } else {
                0nat
            }
        }
    }
}

impl View for Animation {
    type V = AnimationView;

    closed spec fn view(&self) -> AnimationView {
        AnimationView {
            frames: self.frames@,
            current_frame: self.current_frame as nat,
            frame_duration: self.frame_duration as nat,
            last_transition: self.last_instant,
            texture_index: self.texture_idx as nat,
        }
    }
}

impl Animation {
    /// The current frame exists; see [`AnimationView::wf`].
    pub open spec fn wf(&self) -> bool {
        self@.wf()
    }

    /// An animation over `frames` that starts at the first of them, with the
    /// clock read at the moment of the call.
    ///
    /// Everything but the clock reading is fixed by the arguments. The
    /// result is well formed exactly when there is at least one frame.
    pub fn new(frames: Vec<Rect>, frame_duration: u128, texture_idx: usize) -> (animation: Self)
        ensures
            animation@ == AnimationView::starting(
                frames@,
                frame_duration as nat,
                texture_idx as nat,
                animation@.last_transition,
            ),
            animation.wf() <==> frames@.len() > 0,
    {
        Self {
            frames,
            current_frame: 0,
            frame_duration,
            last_instant: Instant::now(),
            texture_idx,
        }
    }

    /// Takes one step with a given reading of time: if `elapsed` nanoseconds
    /// reach the frame duration, the next frame comes up (the first one after
    /// the last) and `now` is recorded as the time of the change; otherwise
    /// nothing changes.
    pub fn advance_after(&mut self, elapsed: u128, now: Instant)
        requires
            old(self).wf(),
        ensures
            final(self)@ == old(self)@.advance_after(elapsed as nat, now),
            final(self).wf(),
            elapsed < old(self)@.frame_duration ==> final(self)@ == old(self)@,
            elapsed >= old(self)@.frame_duration ==> final(self)@.current_frame == (old(self)@
                .current_frame + 1) % old(self)@.frames.len(),
    {
        if elapsed >= self.frame_duration {
            let n: usize = self.frames.len();
            self.current_frame = (self.current_frame + 1) % n;
            self.last_instant = now;
        }
    }

    /// Takes one step by the clock: measures the time since the last change
    /// of frame and, if the frame is due, moves to the next one and records
    /// a fresh clock reading.
    ///
    /// The clock decides which of the two happens, so the contract admits
    /// both: either nothing changed, or the animation moved one frame on.
    /// Only an animation whose frames last no time at all is sure to move.
    pub fn advance(&mut self)
        requires
            old(self).wf(),
        ensures
            final(self).wf(),
            old(self)@.stepped_to(final(self)@),
    {
        let elapsed: u128 = self.last_instant.elapsed().as_nanos();
        if elapsed >= self.frame_duration {
            let now = Instant::now();
            self.advance_after(elapsed, now);
        }
    }

    /// Whether the animation is well formed.
    pub fn is_wf(&self) -> (ok: bool)
        ensures
            ok == self.wf(),
    {
        self.current_frame < self.frames.len()
    }

    /// The frames, in playing order.
    pub fn frames(&self) -> (frames: &Vec<Rect>)
        ensures
            frames@ == self@.frames,
    {
        &self.frames
    }

    /// The index of the frame that is shown now.
    pub fn current_frame(&self) -> (idx: usize)
        ensures
            idx == self@.current_frame,
    {
        self.current_frame
    }

    /// How long one frame stays, in nanoseconds.
    pub fn frame_duration(&self) -> (nanos: u128)
        ensures
            nanos == self@.frame_duration,
    {
        self.frame_duration
    }

    /// The clock reading taken when the current frame came up.
    pub fn last_instant(&self) -> (instant: Instant)
        ensures
            instant == self@.last_transition,
    {
        self.last_instant
    }

    /// The index of the sprite sheet in the texture registry.
    pub fn texture_idx(&self) -> (idx: usize)
        ensures
            idx == self@.texture_index,
    {
        self.texture_idx
    }

    /// The window of the sprite sheet that is shown now.
    pub fn get_current_frame(&self) -> (frame: Rect)
        requires
            self.wf(),
        ensures
            frame == self@.current_rect(),
    {
        self.frames[self.current_frame]
    }
}

/// The frames of a sprite sheet that stacks `n_frames` frames of
/// `width` by `height` pixels in one column: frame `i` lies at `x = 0`,
/// `y = height * i`. A count of zero or less gives no frames.
pub open spec fn vertical_frames(width: int, height: int, n_frames: int) -> Seq<Rect> {
    Seq::new(
        if n_frames > 0 {
            n_frames as nat
        } else {
            0nat
        },
        |i: int| Rect { x: 0, y: (height * i) as i32, width: width as u32, height: height as u32 },
    )
}

/// Whether a single-column sprite sheet can be cut as asked: the size of a
/// frame is not negative, and the top edge of the last frame fits a pixel
/// coordinate.
pub open spec fn vertical_sheet_fits(width: int, height: int, n_frames: int) -> bool {
    &&& 0 <= width
    &&& 0 <= height
    &&& n_frames > 0 ==> height * (n_frames - 1) <= i32::MAX
}

/// An animation over a single-column sprite sheet: `n_frames` frames of
/// `width` by `height` pixels, one below the other, on the texture
/// registered under `texture_idx`.
///
/// The size must not be negative and the top edge of the last frame must
/// fit a pixel coordinate.
pub fn vertical_animation_from_texture_idx(
    texture_idx: usize,
    width: i32,
    height: i32,
    n_frames: i32,
    frame_duration: u128,
) -> (animation: Animation)
    requires
        vertical_sheet_fits(width as int, height as int, n_frames as int),
    ensures
        animation@ == AnimationView::starting(
            vertical_frames(width as int, height as int, n_frames as int),
            frame_duration as nat,
            texture_idx as nat,
            animation@.last_transition,
        ),
        animation@.frames.len() == if n_frames > 0 {
            n_frames as nat
        } else {
            0nat
        },
        forall|i: int|
            0 <= i < n_frames ==> #[trigger] animation@.frames[i] == (Rect {
                x: 0,
                y: (height * i) as i32,
                width: width as u32,
                height: height as u32,
            }),
        animation.wf() <==> n_frames > 0,
{
    let mut frames_vec: Vec<Rect> = Vec::new();
    let mut i: i32 = 0;
    while i < n_frames
        invariant
            0 <= i,
            i <= n_frames || i == 0,
            vertical_sheet_fits(width as int, height as int, n_frames as int),
            frames_vec@ == vertical_frames(width as int, height as int, i as int),
        decreases n_frames - i,
    {
        assert(0 <= height * i <= height * (n_frames - 1)) by (nonlinear_arith)
            requires
                0 <= height,
                0 <= i <= n_frames - 1,
        ;
        frames_vec.push(Rect::new(0, height * i, width as u32, height as u32));
        i = i + 1;
    }
    Animation::new(frames_vec, frame_duration, texture_idx)
}

/// As [`vertical_animation_from_texture_idx`], for a size and a count that
/// nobody has looked at yet: `None` says that the sheet cannot be cut as
/// asked, and no animation is made.
pub fn try_vertical_animation_from_texture_idx(
    texture_idx: usize,
    width: i32,
    height: i32,
    n_frames: i32,
    frame_duration: u128,
) -> (animation: Option<Animation>)
    ensures
        animation is Some <==> vertical_sheet_fits(width as int, height as int, n_frames as int),
        animation is Some ==> animation->0@ == AnimationView::starting(
            vertical_frames(width as int, height as int, n_frames as int),
            frame_duration as nat,
            texture_idx as nat,
            animation->0@.last_transition,
        ),
{
    if width < 0 || height < 0 {
        return None;
    }
    if n_frames > 0 && height.checked_mul(n_frames - 1).is_none() {
        assert(height * (n_frames - 1) >= 0) by (nonlinear_arith)
            requires
                0 <= height,
                0 <= n_frames - 1,
        ;
        return None;
    }
    Some(vertical_animation_from_texture_idx(texture_idx, width, height, n_frames, frame_duration))
}

/// Steps that do not find the frame due leave an animation alone, and each
/// step that does moves it one frame on: after any steps the current frame
/// is the starting one plus the number of due steps, counted round the
/// frames. Nothing but the current frame and the time of the last change
/// ever moves.
pub proof fn lemma_advance_counts_due_steps(a: AnimationView, ticks: Seq<Tick>)
    requires
        a.wf(),
    ensures
        a.advance_through(ticks).wf(),
        a.advance_through(ticks).frames == a.frames,
        a.advance_through(ticks).frame_duration == a.frame_duration,
        a.advance_through(ticks).texture_index == a.texture_index,
        a.advance_through(ticks).current_frame == (a.current_frame + a.due_count(ticks))
            % a.frames.len(),
    decreases ticks.len(),
{
    let n: int = a.frames.len() as int;
    if ticks.len() == 0 {
        lemma_small_mod(a.current_frame, a.frames.len());
    } else {
        let before = a.advance_through(ticks.drop_last());
        let k: int = a.due_count(ticks.drop_last()) as int;
        lemma_advance_counts_due_steps(a, ticks.drop_last());
        if before.due(ticks.last().elapsed) {
            lemma_add_mod_noop_right(1, a.current_frame + k, n);
        }
    }
}

/// An animation is cyclic with its number of frames as period: once as many
/// steps have found the frame due as there are frames, or any multiple of
/// that, the current frame is the one it started from.
pub proof fn lemma_advance_is_cyclic(a: AnimationView, ticks: Seq<Tick>)
    requires
        a.wf(),
        a.due_count(ticks) % a.frames.len() == 0,
    ensures
        a.advance_through(ticks).current_frame == a.current_frame,
{
    let n: int = a.frames.len() as int;
    lemma_advance_counts_due_steps(a, ticks);
    lemma_add_mod_noop_right(a.current_frame as int, a.due_count(ticks) as int, n);
    lemma_small_mod(a.current_frame, a.frames.len());
}

} // verus!
