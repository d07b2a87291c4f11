//! Animation track state: a kind, a current frame, and a frame table of
//! per-joint offsets. Which kinds lock the legs track against interruption,
//! which block the aim-correction of the forearm joint, and which select
//! the grounded friction branch are attributes of the kind itself.

use vstd::prelude::*;
use crate::fx::{Vec2, FX_LIM, abs_s};
use crate::parts::NUM_JOINTS;

verus! {

/// Every animation kind the simulation distinguishes.
#[derive(Clone, Copy, PartialEq, Eq, Structural, Debug)]
pub enum AnimKind {
    Stand,
    Run,
    RunBack,
    Jump,
    Fall,
    Crouch,
    CrouchRun,
    CrouchRunBack,
    Prone,
    ProneMove,
    GetUp,
    Reload,
    ReloadBow,
    ClipIn,
    ClipOut,
    SlideBack,
    Change,
    Throw,
    ThrowWeapon,
    Punch,
    Roll,
    RollBack,
    Cigar,
    Match,
    Smoke,
    Wipe,
    TakeOff,
    Groin,
    Piss,
    Mercy,
    Mercy2,
    Victory,
    Own,
    Melee,
}

/// Kinds that refuse any interruption of the legs track.
pub open spec fn locked_legs_s(k: AnimKind) -> bool {
    k == AnimKind::Prone || k == AnimKind::ProneMove
}

pub fn locked_legs(k: AnimKind) -> (r: bool)
    ensures
        r == locked_legs_s(k),
{
    k == AnimKind::Prone || k == AnimKind::ProneMove
}

/// Busy kinds that own the forearm joint outright: while the body track
/// plays one of these, aim correction of that joint is skipped.
pub open spec fn aim_locked_s(k: AnimKind) -> bool {
    ||| k == AnimKind::Reload
    ||| k == AnimKind::ReloadBow
    ||| k == AnimKind::ClipIn
    ||| k == AnimKind::ClipOut
    ||| k == AnimKind::SlideBack
    ||| k == AnimKind::Change
    ||| k == AnimKind::ThrowWeapon
    ||| k == AnimKind::Punch
    ||| k == AnimKind::Roll
    ||| k == AnimKind::RollBack
    ||| k == AnimKind::Cigar
    ||| k == AnimKind::Match
    ||| k == AnimKind::Smoke
    ||| k == AnimKind::Wipe
    ||| k == AnimKind::TakeOff
    ||| k == AnimKind::Groin
    ||| k == AnimKind::Piss
    ||| k == AnimKind::Mercy
    ||| k == AnimKind::Mercy2
    ||| k == AnimKind::Victory
    ||| k == AnimKind::Own
    ||| k == AnimKind::Melee
}

pub fn aim_locked(k: AnimKind) -> (r: bool)
    ensures
        r == aim_locked_s(k),
{
    match k {
        AnimKind::Reload => true,
        AnimKind::ReloadBow => true,
        AnimKind::ClipIn => true,
        AnimKind::ClipOut => true,
        AnimKind::SlideBack => true,
        AnimKind::Change => true,
        AnimKind::ThrowWeapon => true,
        AnimKind::Punch => true,
        AnimKind::Roll => true,
        AnimKind::RollBack => true,
        AnimKind::Cigar => true,
        AnimKind::Match => true,
        AnimKind::Smoke => true,
        AnimKind::Wipe => true,
        AnimKind::TakeOff => true,
        AnimKind::Groin => true,
        AnimKind::Piss => true,
        AnimKind::Mercy => true,
        AnimKind::Mercy2 => true,
        AnimKind::Victory => true,
        AnimKind::Own => true,
        AnimKind::Melee => true,
        _ => false,
    }
}

/// Legs kinds that take the posed friction branch of the ground probe;
/// every other kind decays velocity by the running surface coefficients.
pub open spec fn posed_legs_s(k: AnimKind) -> bool {
    ||| k == AnimKind::Stand
    ||| k == AnimKind::Crouch
    ||| k == AnimKind::Prone
    ||| k == AnimKind::ProneMove
    ||| k == AnimKind::GetUp
    ||| k == AnimKind::Fall
    ||| k == AnimKind::Mercy
    ||| k == AnimKind::Mercy2
    ||| k == AnimKind::Own
}

pub fn posed_legs(k: AnimKind) -> (r: bool)
    ensures
        r == posed_legs_s(k),
{
    match k {
        AnimKind::Stand => true,
        AnimKind::Crouch => true,
        AnimKind::Prone => true,
        AnimKind::ProneMove => true,
        AnimKind::GetUp => true,
        AnimKind::Fall => true,
        AnimKind::Mercy => true,
        AnimKind::Mercy2 => true,
        AnimKind::Own => true,
        _ => false,
    }
}

/// One frame: an offset per joint.
pub struct AnimFrame {
    pub offsets: Vec<Vec2>,
}

/// One animation track: kind, loop flag, current frame, frame table.
pub struct Animation {
    pub kind: AnimKind,
    pub looped: bool,
    pub curr_frame: usize,
    pub frames: Vec<AnimFrame>,
}

/// Well-formed track: at least one frame, the current frame inside the
/// table, one bounded offset per joint in every frame.
pub open spec fn anim_wf(a: Animation) -> bool {
    &&& 1 <= a.frames@.len() <= 100000
    &&& a.curr_frame < a.frames@.len()
    &&& forall|f: int|
        0 <= f < a.frames@.len() ==> (#[trigger] a.frames@[f]).offsets@.len() == NUM_JOINTS
    &&& forall|f: int, j: int|
        0 <= f < a.frames@.len() && 0 <= j < NUM_JOINTS ==> abs_s(
            (#[trigger] a.frames@[f].offsets@[j]).x as int,
        ) <= FX_LIM as int && abs_s(a.frames@[f].offsets@[j].y as int) <= FX_LIM as int
}

/// The frame index after one playback step: advance, and at the table's
/// end either wrap (looping tracks) or hold the last frame.
pub open spec fn advance_s(a: Animation) -> int {
    if a.curr_frame + 1 < a.frames@.len() {
        a.curr_frame + 1
    } else if a.looped {
        0
    } else {
        a.curr_frame as int
    }
}

impl Animation {
    /// A track of `n_frames` zero-offset frames.
    pub fn new(kind: AnimKind, looped: bool, n_frames: usize) -> (r: Animation)
        requires
            1 <= n_frames <= 1000,
        ensures
            anim_wf(r),
            r.kind == kind,
            r.looped == looped,
            r.curr_frame == 0,
            r.frames@.len() == n_frames,
            forall|f: int, j: int|
                0 <= f < n_frames && 0 <= j < NUM_JOINTS ==> (
                #[trigger] r.frames@[f].offsets@[j]) == (Vec2 { x: 0, y: 0 }),
    {
        let mut frames: Vec<AnimFrame> = Vec::new();
        let mut f: usize = 0;
        while f < n_frames
            invariant
                f <= n_frames,
                frames@.len() == f,
                forall|t: int|
                    0 <= t < f ==> (#[trigger] frames@[t]).offsets@.len() == NUM_JOINTS,
                forall|t: int, j: int|
                    0 <= t < f && 0 <= j < NUM_JOINTS ==> (#[trigger] frames@[t].offsets@[j]) == (
                    Vec2 { x: 0, y: 0 }),
            decreases n_frames - f,
        {
            let mut offsets: Vec<Vec2> = Vec::new();
            let mut j: usize = 0;
            while j < NUM_JOINTS
                invariant
                    j <= NUM_JOINTS,
                    offsets@.len() == j,
                    forall|t: int| 0 <= t < j ==> (#[trigger] offsets@[t]) == (Vec2 { x: 0, y: 0 }),
                decreases NUM_JOINTS - j,
            {
                offsets.push(Vec2 { x: 0, y: 0 });
                j = j + 1;
            }
            frames.push(AnimFrame { offsets });
            f = f + 1;
        }
        Animation { kind, looped, curr_frame: 0, frames }
    }

    /// Advance playback by one frame.
    pub fn do_animation(&mut self)
        requires
            anim_wf(*old(self)),
        ensures
            anim_wf(*final(self)),
            final(self).kind == old(self).kind,
            final(self).looped == old(self).looped,
            final(self).frames == old(self).frames,
            final(self).curr_frame as int == advance_s(*old(self)),
    {
        if self.curr_frame + 1 < self.frames.len() {
            self.curr_frame = self.curr_frame + 1;
        } else if self.looped {
            self.curr_frame = 0;
        }
    }

    /// The current frame's offset for one joint.
    pub fn offset(&self, joint: usize) -> (r: Vec2)
        requires
            anim_wf(*self),
            joint < NUM_JOINTS,
        ensures
            r == self.frames@[self.curr_frame as int].offsets@[joint as int],
            abs_s(r.x as int) <= FX_LIM as int,
            abs_s(r.y as int) <= FX_LIM as int,
    {
        let frame = &self.frames[self.curr_frame];
        frame.offsets[joint]
    }
}

} // verus!
