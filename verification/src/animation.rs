//! Sprite-sheet animation: which frame comes next, and what an animation
//! does when it reaches a frame (fire an event, disappear).

use vstd::prelude::*;
use crate::types::TankType;

verus! {

/// The frames an animation plays, `first..=last`.
#[derive(Clone, Copy, Debug, PartialEq, Eq, Structural)]
pub struct AnimationIndices {
    pub first: usize,
    pub last: usize,
}

impl AnimationIndices {
    /// All frames of a sheet with `total_frames` frames (at least one).
    pub fn from_total_frames(total_frames: usize) -> (a: Self)
        requires
            total_frames > 0,
        ensures
            a.first == 0,
            a.last == total_frames - 1,
    {
        AnimationIndices { first: 0, last: total_frames - 1 }
    }

    /// All frames of a sheet of `columns` by `rows` tiles.
    pub fn from_atlas_info(atlas_info: &TextureAtlasInfo) -> (a: Self)
        requires
            atlas_info.total_frames > 0,
        ensures
            a.first == 0,
            a.last == atlas_info.total_frames - 1,
    {
        Self::from_total_frames(atlas_info.total_frames)
    }
}

/// The grid of a sprite sheet.
#[derive(Clone, Copy, Debug, PartialEq, Eq, Structural)]
pub struct TextureAtlasInfo {
    pub columns: usize,
    pub rows: usize,
    /// Every tile of the grid is a frame.
    pub total_frames: usize,
}

impl TextureAtlasInfo {
    /// A sheet of `columns` by `rows` tiles, each a frame.
    pub fn new(columns: usize, rows: usize) -> (a: Self)
        requires
            columns * rows <= usize::MAX,
        ensures
            a.columns == columns,
            a.rows == rows,
            a.total_frames == columns * rows,
    {
        TextureAtlasInfo { columns, rows, total_frames: columns * rows }
    }

    /// The frames of the whole sheet.
    pub fn animation_indices_full(&self) -> (a: AnimationIndices)
        requires
            self.total_frames > 0,
        ensures
            a.first == 0,
            a.last == self.total_frames - 1,
    {
        AnimationIndices::from_atlas_info(self)
    }
}

/// The frame after `current` in a loop over `loop_start..=loop_end`: the
/// next one, or back to the start from the end (or from past it).
pub open spec fn next_frame(current: usize, loop_start: usize, loop_end: usize) -> usize {
    if current >= loop_end {
        loop_start
    } else {
        (current + 1) as usize
    }
}

/// Moves an animation on by a frame when its timer has just run out; says
/// which frame is shown afterwards.
pub fn advance_next_frame(timer_just_finished: bool, current_frame: &mut usize, loop_start: usize, loop_end: usize) -> (shown: usize)
    ensures
        *final(current_frame) == if timer_just_finished {
            next_frame(*old(current_frame), loop_start, loop_end)
        } else {
            *old(current_frame)
        },
        shown == *final(current_frame),
{
    if timer_just_finished {
        let current = *current_frame;
        let next_index = if current >= loop_end {
            loop_start
        } else {
            current + 1
        };
        *current_frame = next_index;
    }
    *current_frame
}

/// How an animation plays.
#[derive(Clone, Copy, Debug, PartialEq, Eq, Structural)]
pub enum AnimationMode {
    /// Round and round over all its frames.
    Looping,
    /// Once over all its frames, then it disappears.
    OneShot,
    /// Round and round over a range of its frames.
    LoopRange { start_frame: usize, end_frame: usize },
    /// Only while its tank moves.
    Conditional { tank_type: TankType },
    /// Once over all its frames, firing its event on reaching a frame, then
    /// it disappears.
    AtFrameWithEvent { trigger_frame: usize },
}

/// What an animation does in one frame of the game.
#[derive(Clone, Copy, Debug, PartialEq, Eq, Structural)]
pub struct AnimationOutcome {
    /// The sprite frame shown now.
    pub frame: usize,
    /// The animation's event is fired.
    pub fire_event: bool,
    /// The animation is removed.
    pub despawn: bool,
}

/// The frame an animation shows after a game frame.
pub open spec fn frame_after(mode: AnimationMode, indices: AnimationIndices, current: usize, timer_just_finished: bool, is_moving: bool) -> usize {
    if !timer_just_finished {
        current
    } else {
        match mode {
            AnimationMode::LoopRange { start_frame, end_frame } => next_frame(current, start_frame, end_frame),
            AnimationMode::Conditional { .. } => if is_moving {
                next_frame(current, indices.first, indices.last)
            } else {
                current
            },
            _ => next_frame(current, indices.first, indices.last),
        }
    }
}

/// One game frame of an animation: its timer decides whether the frame
/// moves on (a conditional one only while its tank moves, `is_moving`); a one-shot
/// animation disappears when it moves onto its last frame; an animation
/// with an event fires it when it moves onto the trigger frame, and
/// disappears when it moves onto its last frame.
pub fn animation_step(
    mode: AnimationMode,
    indices: AnimationIndices,
    current_frame: &mut usize,
    timer_just_finished: bool,
    is_moving: bool,
) -> (out: AnimationOutcome)
    ensures
        *final(current_frame) == frame_after(mode, indices, *old(current_frame), timer_just_finished, is_moving),
        out.frame == *final(current_frame),
        out.fire_event == match mode {
            AnimationMode::AtFrameWithEvent { trigger_frame } => *final(current_frame) != *old(current_frame)
                && *final(current_frame) == trigger_frame,
            _ => false,
        },
        out.despawn == match mode {
            AnimationMode::OneShot | AnimationMode::AtFrameWithEvent { .. } => *final(current_frame) != *old(current_frame)
                && *final(current_frame) >= indices.last,
            _ => false,
        },
{
    let prev_frame = *current_frame;
    let mut fire_event = false;
    let mut despawn = false;
    match mode {
        AnimationMode::OneShot => {
            advance_next_frame(timer_just_finished, current_frame, indices.first, indices.last);
            if prev_frame != *current_frame && *current_frame >= indices.last {
                despawn = true;
            }
        },
        AnimationMode::Looping => {
            advance_next_frame(timer_just_finished, current_frame, indices.first, indices.last);
        },
        AnimationMode::LoopRange { start_frame, end_frame } => {
            advance_next_frame(timer_just_finished, current_frame, start_frame, end_frame);
        },
        AnimationMode::Conditional { .. } => {
            if is_moving {
                advance_next_frame(timer_just_finished, current_frame, indices.first, indices.last);
            }
        },
        AnimationMode::AtFrameWithEvent { trigger_frame } => {
            advance_next_frame(timer_just_finished, current_frame, indices.first, indices.last);
            if prev_frame != *current_frame && *current_frame == trigger_frame {
                fire_event = true;
            }
            if prev_frame != *current_frame && *current_frame >= indices.last {
                despawn = true;
            }
        },
    }
    AnimationOutcome { frame: *current_frame, fire_event, despawn }
}

/// A looping animation started inside its range stays inside it.
pub proof fn lemma_loop_stays_in_range(current: usize, loop_start: usize, loop_end: usize)
    requires
        loop_start <= current <= loop_end,
    ensures
        loop_start <= next_frame(current, loop_start, loop_end) <= loop_end,
{
}

/// From its first frame, a one-shot animation of `first..=last` reaches its
/// last frame after `last - first` steps, passing every frame once.
pub proof fn lemma_one_shot_reaches_last(first: usize, last: usize, k: nat)
    requires
        first <= last,
        k <= last - first,
    ensures
        frames_after(first, first, last, k) == first + k,
    decreases k,
{
    if k > 0 {
        lemma_one_shot_reaches_last(first, last, (k - 1) as nat);
    }
}

/// The frame reached from `current` after `k` steps of a loop over
/// `loop_start..=loop_end`.
pub open spec fn frames_after(current: usize, loop_start: usize, loop_end: usize, k: nat) -> usize
    decreases k,
{
    if k == 0 {
        current
    } else {
        next_frame(frames_after(current, loop_start, loop_end, (k - 1) as nat), loop_start, loop_end)
    }
}

} // verus!
