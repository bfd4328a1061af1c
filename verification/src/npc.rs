//! NPC dialogue: each interaction shows the next line, cycling; and the
//! entity form of an NPC, whose dialogue bubble opens, steps through the
//! lines once and closes.
use vstd::prelude::*;
use std::collections::HashMap;
use crate::episode::{Episode, NpcDef};

verus! {

broadcast use vstd::std_specs::hash::group_hash_axioms;

/// An NPC character with a cycle of dialogue lines.
pub struct Npc {
    pub grid_x: i32,
    pub grid_y: i32,
    pub name: String,
    pub dialogue: Vec<String>,
    /// Index of the line the next interaction shows.
    pub current_line: usize,
}

/// The line index after `i` in a cycle of `n` lines.
pub open spec fn next_line(i: int, n: int) -> int {
    (i + 1) % n
}

/// The line index before `i` in a cycle of `n` lines.
pub open spec fn prev_line(i: int, n: int) -> int {
    if i == 0 {
        n - 1
    } else {
        i - 1
    }
}

/// The line on display: the one before the next interaction's line,
/// wrapping around; none without dialogue.
pub open spec fn displayed_line(n: Npc) -> Option<Seq<char>> {
    if n.dialogue@.len() == 0 {
        None
    } else {
        Some(n.dialogue@[prev_line(n.current_line as int, n.dialogue@.len() as int)]@)
    }
}

impl Npc {
    /// The next interaction shows a line of the dialogue (or there is none).
    pub open spec fn wf(&self) -> bool {
        &&& (self.dialogue@.len() == 0 ==> self.current_line == 0)
        &&& (self.dialogue@.len() > 0 ==> self.current_line < self.dialogue@.len())
    }

    /// Index of the line the next interaction shows.
    pub open spec fn line_index(&self) -> int {
        self.current_line as int
    }

    pub fn new(grid_x: i32, grid_y: i32, name: String, dialogue: Vec<String>) -> (n: Self)
        ensures
            n.wf(),
            n.grid_x == grid_x,
            n.grid_y == grid_y,
            n.name == name,
            n.dialogue == dialogue,
            n.line_index() == 0,
    {
        Npc { grid_x, grid_y, name, dialogue, current_line: 0 }
    }

    /// Interaction: return the current line and advance to the next one,
    /// wrapping around. None if the NPC has no dialogue.
    pub fn interact(&mut self) -> (r: Option<&str>)
        requires
            old(self).wf(),
        ensures
            final(self).wf(),
            final(self).grid_x == old(self).grid_x,
            final(self).grid_y == old(self).grid_y,
            final(self).name == old(self).name,
            final(self).dialogue == old(self).dialogue,
            old(self).dialogue@.len() == 0 ==> r is None && final(self).line_index() == old(self).line_index(),
            old(self).dialogue@.len() > 0 ==> r is Some && r->0@ == old(self).dialogue@[old(self).line_index()]@
                && final(self).line_index() == next_line(old(self).line_index(), old(self).dialogue@.len() as int),
    {
        let n = self.dialogue.len();
        if n == 0 {
            return None;
        }
        let i = self.current_line;
        self.current_line = (i + 1) % n;
        Some(self.dialogue[i].as_str())
    }

    /// The line shown by the last interaction: the one before the current
    /// index, wrapping around. None if the NPC has no dialogue.
    pub fn current_line_text(&self) -> (r: Option<&str>)
        requires
            self.wf(),
        ensures
            self.dialogue@.len() == 0 ==> r is None,
            self.dialogue@.len() > 0 ==> r is Some && r->0@ == self.dialogue@[prev_line(
                self.line_index(),
                self.dialogue@.len() as int,
            )]@,
            match r {
                Some(l) => displayed_line(*self) == Some(l@),
                None => displayed_line(*self) is None,
            },
    {
        let n = self.dialogue.len();
        if n == 0 {
            return None;
        }
        let idx = if self.current_line == 0 {
            n - 1
        } else {
            self.current_line - 1
        };
        Some(self.dialogue[idx].as_str())
    }
}

/// After an interaction, the line on display is the one that interaction
/// returned.
pub proof fn lemma_interact_shows_line(i: int, n: int)
    requires
        0 <= i < n,
    ensures
        prev_line(next_line(i, n), n) == i,
{
    if i + 1 < n {
        vstd::arithmetic::div_mod::lemma_small_mod((i + 1) as nat, n as nat);
    } else {
        vstd::arithmetic::div_mod::lemma_mod_self_0(n);
    }
}

/// The line an interaction returns is the one on display afterwards: for an
/// NPC with dialogue, `interact` returns line `i` and moves the index on to
/// the next line, and `current_line_text` then gives line `i`.
pub proof fn lemma_interact_then_displayed(before: Npc, after: Npc)
    requires
        before.wf(),
        before.dialogue@.len() > 0,
        after.dialogue == before.dialogue,
        after.line_index() == next_line(before.line_index(), before.dialogue@.len() as int),
    ensures
        displayed_line(after) == Some(before.dialogue@[before.line_index()]@),
{
    lemma_interact_shows_line(before.line_index(), before.dialogue@.len() as int);
}

/// How long a dialogue bubble stays up after it opens or moves to a new
/// line, in milliseconds.
pub const BUBBLE_MS: u32 = 2500;

/// Phase of an NPC's dialogue.
#[derive(Debug, Clone, Copy, PartialEq, Eq, Structural)]
pub enum NpcDialogueState {
    /// No bubble is shown.
    Hidden,
    /// The bubble is shown, waiting for input to advance.
    Visible,
    /// Input asked for the next line.
    AdvancePending,
}

/// An NPC entity: its place, its lines, the line on show and the phase of
/// its dialogue bubble with the bubble's remaining time.
pub struct NpcComponent {
    /// Index of the NPC in its episode.
    pub npc_id: u8,
    pub grid_x: i32,
    pub grid_y: i32,
    pub name: String,
    pub dialogue_lines: Vec<String>,
    /// Index of the line on show.
    pub dialogue_index: usize,
    /// A player has gone through (or dismissed) the dialogue.
    pub seen_by_player: bool,
    /// A player stands close enough to talk.
    pub player_nearby: bool,
    /// Remaining time of the bubble, in milliseconds.
    pub bubble_ms: u32,
    pub dialogue_state: NpcDialogueState,
}

/// Copy of a list of strings.
fn copy_lines(v: &Vec<String>) -> (r: Vec<String>)
    ensures
        r@ == v@,
{
    let mut r: Vec<String> = Vec::new();
    let mut i: usize = 0;
    while i < v.len()
        invariant
            i <= v.len(),
            r@ == v@.subrange(0, i as int),
        decreases v.len() - i,
    {
        r.push(v[i].clone());
        i = i + 1;
    }
    assert(r@ =~= v@);
    r
}

/// `c` is the NPC that definition `def` gives under id `id`: at the
/// definition's place, with its name and lines, on the first line, unseen,
/// with no player near and no bubble.
pub open spec fn made_from(c: NpcComponent, def: NpcDef, id: u8) -> bool {
    &&& c.npc_id == id
    &&& c.grid_x == def.x
    &&& c.grid_y == def.y
    &&& c.name@ == def.name@
    &&& c.dialogue_lines@ == def.dialogue@
    &&& c.dialogue_index == 0
    &&& !c.seen_by_player
    &&& !c.player_nearby
    &&& c.bubble_ms == 0
    &&& c.dialogue_state == NpcDialogueState::Hidden
}

/// Whether the bubble is on screen.
pub open spec fn spec_bubble_visible(c: NpcComponent) -> bool {
    c.dialogue_state == NpcDialogueState::Visible && c.bubble_ms > 0
}

/// The NPC after its bubble opens on the line on show; an NPC without
/// lines stays as it is.
pub open spec fn shown(c: NpcComponent) -> NpcComponent {
    if c.dialogue_lines@.len() == 0 {
        c
    } else {
        NpcComponent { dialogue_state: NpcDialogueState::Visible, bubble_ms: BUBBLE_MS, ..c }
    }
}

/// The NPC after its bubble closes: hidden, no time left, seen.
pub open spec fn dismissed(c: NpcComponent) -> NpcComponent {
    NpcComponent {
        dialogue_state: NpcDialogueState::Hidden,
        bubble_ms: 0,
        seen_by_player: true,
        ..c
    }
}

/// The NPC after a step to the next line: past the last line the
/// dialogue wraps to the first and closes; otherwise the bubble shows the
/// new line for its full time. An NPC without lines stays as it is.
pub open spec fn advanced(c: NpcComponent) -> NpcComponent {
    let n = c.dialogue_lines@.len() as int;
    if n == 0 {
        c
    } else {
        let next = next_line(c.dialogue_index as int, n);
        if next == 0 {
            dismissed(NpcComponent { dialogue_index: 0, ..c })
        } else {
            NpcComponent {
                dialogue_index: next as usize,
                bubble_ms: BUBBLE_MS,
                dialogue_state: NpcDialogueState::Visible,
                ..c
            }
        }
    }
}

/// The NPC after `k` steps to the next line.
pub open spec fn advanced_times(c: NpcComponent, k: nat) -> NpcComponent
    decreases k,
{
    if k == 0 {
        c
    } else {
        advanced(advanced_times(c, (k - 1) as nat))
    }
}

impl NpcComponent {
    /// The line on show is one of the NPC's lines (or it has none).
    pub open spec fn wf(&self) -> bool {
        &&& (self.dialogue_lines@.len() == 0 ==> self.dialogue_index == 0)
        &&& (self.dialogue_lines@.len() > 0 ==> self.dialogue_index < self.dialogue_lines@.len())
    }

    /// The NPC that definition `def` places, under id `npc_id`.
    pub fn from_def(def: &NpcDef, npc_id: u8) -> (c: Self)
        ensures
            made_from(c, *def, npc_id),
            c.wf(),
    {
        NpcComponent {
            npc_id,
            grid_x: def.x,
            grid_y: def.y,
            name: def.name.clone(),
            dialogue_lines: copy_lines(&def.dialogue),
            dialogue_index: 0,
            seen_by_player: false,
            player_nearby: false,
            bubble_ms: 0,
            dialogue_state: NpcDialogueState::Hidden,
        }
    }

    /// Whether the bubble is on screen: it is visible and has time left.
    pub fn bubble_visible(&self) -> (r: bool)
        ensures
            r == spec_bubble_visible(*self),
    {
        self.dialogue_state == NpcDialogueState::Visible && self.bubble_ms > 0
    }

    /// The line on show, or None if the index is past the lines.
    pub fn current_line_text(&self) -> (r: Option<&str>)
        ensures
            self.dialogue_index < self.dialogue_lines@.len() ==> r is Some && r->0@
                == self.dialogue_lines@[self.dialogue_index as int]@,
            self.dialogue_index >= self.dialogue_lines@.len() ==> r is None,
    {
        if self.dialogue_index < self.dialogue_lines.len() {
            Some(self.dialogue_lines[self.dialogue_index].as_str())
        } else {
            None
        }
    }

    /// Step to the next line. Returns true if a line remains on show,
    /// false if the dialogue wrapped past its last line and closed (or the
    /// NPC has no lines).
    pub fn advance_dialogue(&mut self) -> (more: bool)
        requires
            old(self).wf(),
        ensures
            *final(self) == advanced(*old(self)),
            final(self).wf(),
            more == (old(self).dialogue_lines@.len() > 0 && final(self).dialogue_index != 0),
    {
        let n = self.dialogue_lines.len();
        if n == 0 {
            return false;
        }
        self.dialogue_index = (self.dialogue_index + 1) % n;
        if self.dialogue_index == 0 {
            self.dialogue_state = NpcDialogueState::Hidden;
            self.bubble_ms = 0;
            self.seen_by_player = true;
            return false;
        }
        self.bubble_ms = BUBBLE_MS;
        self.dialogue_state = NpcDialogueState::Visible;
        true
    }

    /// Open the bubble on the line on show, for its full time; nothing
    /// happens if the NPC has no lines.
    pub fn show_dialogue(&mut self)
        ensures
            *final(self) == shown(*old(self)),
    {
        if self.dialogue_lines.len() == 0 {
            return;
        }
        self.dialogue_state = NpcDialogueState::Visible;
        self.bubble_ms = BUBBLE_MS;
    }

    /// Close the bubble and mark the dialogue as seen.
    pub fn dismiss_dialogue(&mut self)
        ensures
            *final(self) == dismissed(*old(self)),
    {
        self.dialogue_state = NpcDialogueState::Hidden;
        self.bubble_ms = 0;
        self.seen_by_player = true;
    }
}

/// An NPC with lines shows its bubble once `show_dialogue` has run.
pub proof fn lemma_shown_is_visible(c: NpcComponent)
    requires
        c.dialogue_lines@.len() > 0,
    ensures
        spec_bubble_visible(shown(c)),
{
}

/// A dialogue opened on its first line steps through every line and
/// closes on the last step: after `k` steps, for `0 < k < n`, line `k` is
/// on show in a visible bubble; after `n` steps the bubble is closed, the
/// first line is on show again and the NPC counts as seen.
pub proof fn lemma_dialogue_runs_through(c: NpcComponent, k: nat)
    requires
        c.dialogue_lines@.len() > 0,
        c.dialogue_index == 0,
        0 < k <= c.dialogue_lines@.len(),
    ensures
        k < c.dialogue_lines@.len() ==> {
            let a = advanced_times(c, k);
            &&& a.dialogue_index == k
            &&& spec_bubble_visible(a)
            &&& a.dialogue_lines == c.dialogue_lines
        },
        k == c.dialogue_lines@.len() ==> {
            let a = advanced_times(c, k);
            &&& a.dialogue_index == 0
            &&& a.dialogue_state == NpcDialogueState::Hidden
            &&& a.bubble_ms == 0
            &&& a.seen_by_player
            &&& a.dialogue_lines == c.dialogue_lines
        },
    decreases k,
{
    let n = c.dialogue_lines@.len() as int;
    let prev = advanced_times(c, (k - 1) as nat);
    assert(advanced_times(c, k) == advanced(prev));
    assert(n <= usize::MAX) by {
        assert(c.dialogue_lines@.len() == c.dialogue_lines.len());
    }
    if k == 1 {
        assert(prev == c);
        if n == 1 {
            vstd::arithmetic::div_mod::lemma_mod_self_0(1);
        } else {
            vstd::arithmetic::div_mod::lemma_small_mod(1, n as nat);
        }
    } else {
        lemma_dialogue_runs_through(c, (k - 1) as nat);
        assert(prev.dialogue_index == k - 1);
        if k < n {
            vstd::arithmetic::div_mod::lemma_small_mod(k as nat, n as nat);
        } else {
            vstd::arithmetic::div_mod::lemma_mod_self_0(n);
        }
    }
}

/// The index of the last of the first `n` definitions that the table keys
/// under `id` (indices wrap at 256), or -1 if none does.
pub open spec fn last_with_id(n: int, id: u8) -> int
    decreases n,
{
    if n <= 0 {
        -1
    } else if (n - 1) % 256 == id as int {
        n - 1
    } else {
        last_with_id(n - 1, id)
    }
}

/// The NPCs of an episode keyed by their index.
pub struct EpisodeNpcs {
    pub npcs: HashMap<u8, NpcComponent>,
}

impl EpisodeNpcs {
    /// Each NPC of the episode under its index as a `u8`; past 255 the
    /// index wraps, and a later NPC takes the key of an earlier one.
    pub fn from_episode(episode: &Episode) -> (r: Self)
        ensures
            forall|id: u8| #[trigger] r.npcs@.contains_key(id)
                <==> last_with_id(episode.npcs@.len() as int, id) >= 0,
            forall|id: u8| #[trigger] r.npcs@.contains_key(id) ==> made_from(
                r.npcs@[id],
                episode.npcs@[last_with_id(episode.npcs@.len() as int, id)],
                id,
            ),
    {
        let mut npcs: HashMap<u8, NpcComponent> = HashMap::new();
        let mut i: usize = 0;
        while i < episode.npcs.len()
            invariant
                i <= episode.npcs@.len(),
                forall|id: u8| #[trigger] npcs@.contains_key(id) <==> last_with_id(i as int, id) >= 0,
                forall|id: u8| #[trigger] npcs@.contains_key(id) ==> 0 <= last_with_id(i as int, id) < i
                    && made_from(npcs@[id], episode.npcs@[last_with_id(i as int, id)], id),
            decreases episode.npcs@.len() - i,
        {
            let id: u8 = (i % 256) as u8;
            let c = NpcComponent::from_def(&episode.npcs[i], id);
            npcs.insert(id, c);
            proof {
                assert forall|k: u8| #[trigger] npcs@.contains_key(k) <==> last_with_id(i + 1, k) >= 0 by {
                    if k == id {
                        assert(last_with_id(i + 1, k) == i);
                    } else {
                        assert(last_with_id(i + 1, k) == last_with_id(i as int, k));
                    }
                }
                assert forall|k: u8| #[trigger] npcs@.contains_key(k) implies 0 <= last_with_id(i + 1, k) < i + 1
                    && made_from(npcs@[k], episode.npcs@[last_with_id(i + 1, k)], k) by {
                    if k == id {
                        assert(last_with_id(i + 1, k) == i);
                    } else {
                        assert(last_with_id(i + 1, k) == last_with_id(i as int, k));
                    }
                }
            }
            i = i + 1;
        }
        EpisodeNpcs { npcs }
    }
}

} // verus!
