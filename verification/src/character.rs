use crate::animation::Animation;
use crate::animation::AnimationView;
use crate::draw::DrawCommand;
use crate::rect::Rect;
use std::time::Instant;
use vstd::prelude::*;

verus! {

/// Something on screen that can play one of several animations, each at a
/// placement of its own.
///
/// Animations and placements are two lists read by two selectors. By
/// convention animation `i` goes with placement `i`, but the two selectors
/// are set one by one and nothing here ties them together.
pub struct Character {
    current_animation_idx: usize,
    animations: Vec<Animation>,
    current_dest_rect: usize,
    dest_rects: Vec<Rect>,
}

/// The mathematical content of a [`Character`].
#[verifier::ext_equal]
pub struct CharacterView {
    /// The animations, each by its own view.
    pub animations: Seq<AnimationView>,
    /// Which animation plays.
    pub active_animation: nat,
    /// The placements on screen.
    pub dest_rects: Seq<Rect>,
    /// Which placement is used.
    pub active_dest_rect: nat,
}

impl CharacterView {
    /// Both selectors point into their lists and the animation that plays
    /// is well formed. Nothing is asked of the animations that do not play.
    pub open spec fn wf(self) -> bool {
        &&& self.active_animation < self.animations.len()
        &&& self.active_dest_rect < self.dest_rects.len()
        &&& self.active().wf()
    }

    /// The character can be drawn from a registry of `texture_count`
    /// textures: it is well formed and the animation that plays samples one
    /// of them.
    pub open spec fn drawable(self, texture_count: nat) -> bool {
        &&& self.wf()
        &&& self.active().texture_index < texture_count
    }

    /// The character with both selectors set to `pose`.
    pub open spec fn select(self, pose: nat) -> CharacterView {
        CharacterView { active_animation: pose, active_dest_rect: pose, ..self }
    }

    /// Whether `next` can be this character one step by the clock later:
    /// the animation that plays has taken one step by the clock, and nothing
    /// else has changed.
    pub open spec fn stepped_to(self, next: CharacterView) -> bool {
        &&& self.active().stepped_to(next.active())
        &&& next == CharacterView {
            animations: self.animations.update(self.active_animation as int, next.active()),
            ..self
        }
    }

    /// The animation that plays.
    pub open spec fn active(self) -> AnimationView
        recommends
            self.active_animation < self.animations.len(),
    {
        self.animations[self.active_animation as int]
    }

    /// The placement in use.
    pub open spec fn active_dest(self) -> Rect
        recommends
            self.active_dest_rect < self.dest_rects.len(),
    {
        self.dest_rects[self.active_dest_rect as int]
    }

    /// What has to be drawn for this character: the current frame of the
    /// animation that plays, at the placement in use.
    pub open spec fn draw_command(self) -> DrawCommand
        recommends
            self.wf(),
    {
        DrawCommand::Sprite {
            texture_idx: self.active().texture_index as usize,
            source: self.active().current_rect(),
            dest: self.active_dest(),
        }
    }

    /// The character with the animation that plays moved one frame on at
    /// `now`; everything else as it was.
    pub open spec fn next_frame(self, now: Instant) -> CharacterView
        recommends
            self.wf(),
    {
        CharacterView {
            animations: self.animations.update(
                self.active_animation as int,
                self.active().next_frame(now),
            ),
            ..self
        }
    }

    /// One step of the animation that plays, after `elapsed` nanoseconds.
    pub open spec fn advance_after(self, elapsed: nat, now: Instant) -> CharacterView {
        if self.active().due(elapsed) {
            self.next_frame(now)
        } else {
            self
        }
    }
}

/// The views of the animations in a list, in order.
pub open spec fn animation_views(animations: Seq<Animation>) -> Seq<AnimationView> {
    animations.map_values(|a: Animation| a@)
}

impl View for Character {
    type V = CharacterView;

    closed spec fn view(&self) -> CharacterView {
        CharacterView {
            animations: animation_views(self.animations@),
            active_animation: self.current_animation_idx as nat,
            dest_rects: self.dest_rects@,
            active_dest_rect: self.current_dest_rect as nat,
        }
    }
}

impl Character {
    /// Both selectors point into their lists and the animation that plays
    /// is well formed; see [`CharacterView::wf`].
    pub open spec fn wf(&self) -> bool {
        self@.wf()
    }

    /// A character over the given animations and placements. Both selectors
    /// start at index 1, the second entry of each list.
    ///
    /// The result is well formed exactly when both lists have a second entry
    /// and the second animation is well formed.
    pub fn new(animations: Vec<Animation>, dest_rects: Vec<Rect>) -> (character: Self)
        ensures
            character@.animations == animation_views(animations@),
            character@.dest_rects == dest_rects@,
            character@.active_animation == 1,
            character@.active_dest_rect == 1,
            character.wf() <==> (animations@.len() > 1 && dest_rects@.len() > 1
                && animations@[1].wf()),
    {
        Self { current_animation_idx: 1, animations, current_dest_rect: 1, dest_rects }
    }

    /// The animations.
    pub fn animations(&self) -> (animations: &Vec<Animation>)
        ensures
            animation_views(animations@) == self@.animations,
    {
        &self.animations
    }

    /// The placements on screen.
    pub fn dest_rects(&self) -> (dest_rects: &Vec<Rect>)
        ensures
            dest_rects@ == self@.dest_rects,
    {
        &self.dest_rects
    }

    /// The selector of the animation that plays.
    pub fn current_animation_idx(&self) -> (idx: usize)
        ensures
            idx == self@.active_animation,
    {
        self.current_animation_idx
    }

    /// The selector of the placement in use.
    pub fn current_dest_rect(&self) -> (idx: usize)
        ensures
            idx == self@.active_dest_rect,
    {
        self.current_dest_rect
    }

    /// Sets the selector of the animation that plays. The placement in use
    /// stays as it is.
    pub fn set_current_animation_idx(&mut self, idx: usize)
        ensures
            final(self)@ == (CharacterView { active_animation: idx as nat, ..old(self)@ }),
    {
        self.current_animation_idx = idx;
    }

    /// Sets the selector of the placement in use. The animation that plays
    /// stays as it is.
    pub fn set_current_dest_rect(&mut self, idx: usize)
        ensures
            final(self)@ == (CharacterView { active_dest_rect: idx as nat, ..old(self)@ }),
    {
        self.current_dest_rect = idx;
    }

    /// Whether the character is well formed.
    pub fn is_wf(&self) -> (ok: bool)
        ensures
            ok == self.wf(),
    {
        if self.current_animation_idx >= self.animations.len() || self.current_dest_rect
            >= self.dest_rects.len() {
            return false;
        }
        let animation = &self.animations[self.current_animation_idx];
        animation.is_wf()
    }

    /// Whether the character can be drawn from a registry of
    /// `texture_count` textures.
    pub fn is_drawable(&self, texture_count: usize) -> (ok: bool)
        ensures
            ok == self@.drawable(texture_count as nat),
    {
        if !self.is_wf() {
            return false;
        }
        let animation = &self.animations[self.current_animation_idx];
        animation.texture_idx() < texture_count
    }

    /// What has to be drawn for this character now.
    pub fn draw_command(&self) -> (command: DrawCommand)
        requires
            self.wf(),
        ensures
            command == self@.draw_command(),
    {
        let animation = &self.animations[self.current_animation_idx];
        DrawCommand::Sprite {
            texture_idx: animation.texture_idx(),
            source: animation.get_current_frame(),
            dest: self.dest_rects[self.current_dest_rect],
        }
    }

    /// Takes one step of the animation that plays, with a given reading of
    /// time; see [`Animation::advance_after`]. The other animations, the
    /// placements and both selectors stay as they are.
    pub fn advance_after(&mut self, elapsed: u128, now: Instant)
        requires
            old(self).wf(),
        ensures
            final(self).wf(),
            final(self)@ == old(self)@.advance_after(elapsed as nat, now),
    {
        let idx: usize = self.current_animation_idx;
        self.animations[idx].advance_after(elapsed, now);
    }

    /// Takes one step of the animation that plays, by the clock; see
    /// [`Animation::advance`]. The other animations, the placements and both
    /// selectors stay as they are.
    pub fn advance(&mut self)
        requires
            old(self).wf(),
        ensures
            final(self).wf(),
            old(self)@.stepped_to(final(self)@),
    {
        let idx: usize = self.current_animation_idx;
        self.animations[idx].advance();
        assert(self@.animations =~= old(self)@.animations.update(idx as int, self@.active()));
    }
}

} // verus!
