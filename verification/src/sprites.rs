//! Sprite sheet frames, animation frame lists and the per-entity animation
//! cursor.
use vstd::prelude::*;
use vstd::string::StringExecFns;
use crate::text::str_eq;

verus! {

/// A frame's rectangle in a sprite sheet image.
#[derive(Debug, Clone, Copy, PartialEq, Eq, Structural)]
pub struct SpriteFrame {
    pub x: u32,
    pub y: u32,
    pub w: u32,
    pub h: u32,
}

/// The frame named `name` among `frames` (the first such entry), if any.
pub open spec fn frame_named(frames: Seq<(String, SpriteFrame)>, name: Seq<char>) -> Option<SpriteFrame>
    decreases frames.len(),
{
    if frames.len() == 0 {
        None
    } else if frames[0].0@ == name {
        Some(frames[0].1)
    } else {
        frame_named(frames.drop_first(), name)
    }
}

/// The frames an animation lists, by name, skipping names with no frame.
pub open spec fn resolved(frames: Seq<(String, SpriteFrame)>, names: Seq<Seq<char>>) -> Seq<SpriteFrame>
    decreases names.len(),
{
    if names.len() == 0 {
        Seq::empty()
    } else {
        let rest = resolved(frames, names.drop_last());
        match frame_named(frames, names.last()) {
            Some(f) => rest.push(f),
            None => rest,
        }
    }
}

/// The frame named `name` among `frames`, if any.
pub fn find_frame(frames: &Vec<(String, SpriteFrame)>, name: &str) -> (r: Option<SpriteFrame>)
    ensures
        r == frame_named(frames@, name@),
{
    let mut i: usize = 0;
    assert(frames@.skip(0) =~= frames@);
    while i < frames.len()
        invariant
            i <= frames@.len(),
            frame_named(frames@, name@) == frame_named(frames@.skip(i as int), name@),
        decreases frames@.len() - i,
    {
        if str_eq(frames[i].0.as_str(), name) {
            proof {
                assert(frames@.skip(i as int)[0] == frames@[i as int]);
            }
            return Some(frames[i].1);
        }
        proof {
            assert(frames@.skip(i as int).drop_first() =~= frames@.skip(i + 1));
        }
        i = i + 1;
    }
    proof {
        assert(frames@.skip(i as int).len() == 0);
    }
    None
}

/// The frames an animation lists, in order; names with no frame are skipped.
pub fn resolve_frames(frames: &Vec<(String, SpriteFrame)>, names: &Vec<String>) -> (r: Vec<SpriteFrame>)
    ensures
        r@ == resolved(frames@, crate::text::views(names@)),
{
    let mut out: Vec<SpriteFrame> = Vec::new();
    let mut i: usize = 0;
    while i < names.len()
        invariant
            i <= names@.len(),
            out@ == resolved(frames@, crate::text::views(names@).take(i as int)),
        decreases names@.len() - i,
    {
        let found = find_frame(frames, names[i].as_str());
        proof {
            let t = crate::text::views(names@).take(i + 1);
            assert(t.drop_last() =~= crate::text::views(names@).take(i as int));
            assert(t.last() == names@[i as int]@);
        }
        if let Some(f) = found {
            out.push(f);
        }
        i = i + 1;
    }
    proof {
        assert(crate::text::views(names@).take(names@.len() as int) =~= crate::text::views(names@));
    }
    out
}

/// Which animation an entity plays and which of its frames it shows. The
/// time since the last frame change is the caller's.
#[derive(Debug, Clone)]
pub struct AnimPlayer {
    pub current_anim: Option<String>,
    pub frame_index: usize,
}

impl AnimPlayer {
    pub fn new() -> (r: Self)
        ensures
            r.current_anim is None,
            r.frame_index == 0,
    {
        AnimPlayer { current_anim: None, frame_index: 0 }
    }

    /// Start playing `anim_name` from its first frame; unless `force`, an
    /// animation that is already playing is left alone. Returns whether it
    /// (re)started, in which case the caller resets its frame timer.
    pub fn play(&mut self, anim_name: &str, force: bool) -> (r: bool)
        ensures
            r == (force || !(old(self).current_anim matches Some(a) && a@ == anim_name@)),
            r ==> (final(self).current_anim matches Some(a) && a@ == anim_name@),
            r ==> final(self).frame_index == 0,
            !r ==> *final(self) == *old(self),
    {
        if !force {
            if let Some(a) = &self.current_anim {
                if str_eq(a.as_str(), anim_name) {
                    return false;
                }
            }
        }
        self.current_anim = Some(String::from_str(anim_name));
        self.frame_index = 0;
        true
    }

    /// Move to the next frame of an animation of `frame_count` frames,
    /// wrapping to the first.
    pub fn advance(&mut self, frame_count: usize)
        requires
            old(self).frame_index < usize::MAX,
        ensures
            final(self).frame_index == (old(self).frame_index + 1) % (if frame_count > 0 {
                frame_count as int
            } else {
                1
            }),
            final(self).current_anim == old(self).current_anim,
    {
        let n = if frame_count > 0 { frame_count } else { 1 };
        self.frame_index = (self.frame_index + 1) % n;
    }
}

} // verus!
