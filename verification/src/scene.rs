//! Scene flow: which screen is active, episode selection, tutorial and
//! best-time bookkeeping. Timers live with the caller; this is the state
//! machine they drive.
use vstd::prelude::*;
use vstd::string::StringExecFns;
use crate::text::str_eq;

verus! {

/// The game's screens.
#[derive(Debug, Clone, Copy, PartialEq, Eq, Structural)]
pub enum SceneState {
    Menu,
    EpisodeSelect,
    TitleCard,
    Playing,
    Victory,
    GameOver,
    Paused,
}

/// The game's screens as the engine's state machine names them; `Menu`
/// is where it starts.
#[derive(Debug, Clone, Copy, PartialEq, Eq, Hash, Structural)]
pub enum GameState {
    Menu,
    EpisodeSelect,
    TitleCard,
    Playing,
    Paused,
    Victory,
    GameOver,
}

impl Default for GameState {
    fn default() -> (r: Self)
        ensures
            r == GameState::Menu,
    {
        GameState::Menu
    }
}

/// The engine state of each screen: the same screen under the same name.
pub open spec fn spec_game_state_of(s: SceneState) -> GameState {
    match s {
        SceneState::Menu => GameState::Menu,
        SceneState::EpisodeSelect => GameState::EpisodeSelect,
        SceneState::TitleCard => GameState::TitleCard,
        SceneState::Playing => GameState::Playing,
        SceneState::Victory => GameState::Victory,
        SceneState::GameOver => GameState::GameOver,
        SceneState::Paused => GameState::Paused,
    }
}

/// The engine state of each screen.
pub fn game_state_of(s: SceneState) -> (r: GameState)
    ensures
        r == spec_game_state_of(s),
{
    match s {
        SceneState::Menu => GameState::Menu,
        SceneState::EpisodeSelect => GameState::EpisodeSelect,
        SceneState::TitleCard => GameState::TitleCard,
        SceneState::Playing => GameState::Playing,
        SceneState::Victory => GameState::Victory,
        SceneState::GameOver => GameState::GameOver,
        SceneState::Paused => GameState::Paused,
    }
}

/// Distinct screens map to distinct engine states.
pub proof fn lemma_game_state_injective(a: SceneState, b: SceneState)
    requires
        spec_game_state_of(a) == spec_game_state_of(b),
    ensures
        a == b,
{
}

/// The state after the pause key: Playing and Paused swap, others stay.
pub open spec fn paused_toggled(s: SceneState) -> SceneState {
    match s {
        SceneState::Playing => SceneState::Paused,
        SceneState::Paused => SceneState::Playing,
        _ => s,
    }
}

/// The best time recorded for `key` among `entries`, if any (first match).
pub open spec fn best_of(entries: Seq<(String, u64)>, key: Seq<char>) -> Option<u64>
    decreases entries.len(),
{
    if entries.len() == 0 {
        None
    } else if entries[0].0@ == key {
        Some(entries[0].1)
    } else {
        best_of(entries.drop_first(), key)
    }
}

/// Persisted progress, except the audio volume.
#[derive(Debug, Clone)]
pub struct SaveData {
    /// Whether the tutorial has been shown.
    pub tutorial_shown: bool,
    /// Best times per episode id, in milliseconds.
    pub best_times: Vec<(String, u64)>,
    /// Last played episode id.
    pub last_episode: Option<String>,
}

impl SaveData {
    pub fn new() -> (r: Self)
        ensures
            !r.tutorial_shown,
            r.best_times@.len() == 0,
            r.last_episode is None,
            r.ids_unique(),
    {
        SaveData { tutorial_shown: false, best_times: Vec::new(), last_episode: None }
    }

    /// Each episode id has at most one entry.
    pub open spec fn ids_unique(&self) -> bool {
        forall|i: int, j: int|
            0 <= i < j < self.best_times@.len() ==> #[trigger] self.best_times@[i].0@ != #[trigger] self.best_times@[j].0@
    }

    /// The best time of an episode.
    pub open spec fn best(&self, episode_id: Seq<char>) -> Option<u64> {
        best_of(self.best_times@, episode_id)
    }
}

proof fn lemma_best_of_index(entries: Seq<(String, u64)>, key: Seq<char>, i: int)
    requires
        0 <= i < entries.len(),
        entries[i].0@ == key,
        forall|j: int| 0 <= j < i ==> entries[j].0@ != key,
    ensures
        best_of(entries, key) == Some(entries[i].1),
    decreases i,
{
    if i > 0 {
        lemma_best_of_index(entries.drop_first(), key, i - 1);
    }
}

proof fn lemma_best_of_none(entries: Seq<(String, u64)>, key: Seq<char>)
    requires
        forall|j: int| 0 <= j < entries.len() ==> entries[j].0@ != key,
    ensures
        best_of(entries, key) is None,
    decreases entries.len(),
{
    if entries.len() > 0 {
        lemma_best_of_none(entries.drop_first(), key);
    }
}

proof fn lemma_best_of_update(entries: Seq<(String, u64)>, key: Seq<char>, i: int, e: (String, u64), other: Seq<char>)
    requires
        0 <= i < entries.len(),
        entries[i].0@ == key,
        e.0@ == key,
        other != key,
    ensures
        best_of(entries.update(i, e), other) == best_of(entries, other),
    decreases entries.len(),
{
    let u = entries.update(i, e);
    if i > 0 {
        assert(u[0] == entries[0]);
        assert(u.drop_first() =~= entries.drop_first().update(i - 1, e));
        lemma_best_of_update(entries.drop_first(), key, i - 1, e, other);
    } else {
        assert(u[0] == e);
        assert(u.drop_first() =~= entries.drop_first());
    }
}

proof fn lemma_best_of_push(entries: Seq<(String, u64)>, e: (String, u64), key: Seq<char>)
    ensures
        best_of(entries.push(e), key) == if best_of(entries, key) is Some {
            best_of(entries, key)
        } else if e.0@ == key {
            Some(e.1)
        } else {
            None
        },
    decreases entries.len(),
{
    assert(entries.push(e).len() > 0);
    if entries.len() > 0 {
        assert(entries.push(e)[0] == entries[0]);
        assert(entries.push(e).drop_first() =~= entries.drop_first().push(e));
        lemma_best_of_push(entries.drop_first(), e, key);
    } else {
        assert(entries.push(e)[0] == e);
        assert(entries.push(e).drop_first() =~= Seq::<(String, u64)>::empty());
        assert(best_of(Seq::<(String, u64)>::empty(), key) is None);
    }
}

/// Scene flow state.
pub struct SceneFlow {
    pub state: SceneState,
    /// Winner player id (1 or 2), if the game ended with a win.
    pub winner: Option<u8>,
    /// Persisted save data (loaded on startup).
    pub save_data: SaveData,
    /// Whether the tutorial overlay is currently visible.
    pub tutorial_visible: bool,
    /// Index of the selected episode in the episode list.
    pub selected_episode_index: usize,
    /// The player lost a life since the episode started.
    pub player_died_this_run: bool,
    /// The player reached a checkpoint since the episode started.
    pub checkpoint_hit_this_run: bool,
    /// The player talked to an NPC this episode.
    pub npc_seen_this_episode: bool,
    /// `(tile type, grid x, grid y)` of the last elimination.
    pub death_recap: Option<(String, i32, i32)>,
    /// The state at the start of the last tick.
    pub prev_state: SceneState,
}

impl SceneFlow {
    /// A new flow in the menu with the given save data.
    pub fn new(save_data: SaveData) -> (r: Self)
        ensures
            r.state == SceneState::Menu,
            r.prev_state == SceneState::Menu,
            r.winner is None,
            r.save_data == save_data,
            !r.tutorial_visible,
            r.selected_episode_index == 0,
            !r.player_died_this_run,
            !r.checkpoint_hit_this_run,
            !r.npc_seen_this_episode,
            r.death_recap is None,
    {
        SceneFlow {
            state: SceneState::Menu,
            winner: None,
            save_data,
            tutorial_visible: false,
            selected_episode_index: 0,
            player_died_this_run: false,
            checkpoint_hit_this_run: false,
            npc_seen_this_episode: false,
            death_recap: None,
            prev_state: SceneState::Menu,
        }
    }

    /// First run: the tutorial has not been shown yet.
    pub fn is_first_run(&self) -> (r: bool)
        ensures
            r == !self.save_data.tutorial_shown,
    {
        !self.save_data.tutorial_shown
    }

    /// Record `time_ms` for an episode if it beats the best time (or is the
    /// first); returns whether it did.
    pub fn update_best_time(&mut self, episode_id: &str, time_ms: u64) -> (r: bool)
        ensures
            r == match old(self).save_data.best(episode_id@) {
                Some(b) => time_ms < b,
                None => true,
            },
            final(self).save_data.best(episode_id@) == if r {
                Some(time_ms)
            } else {
                old(self).save_data.best(episode_id@)
            },
            forall|k: Seq<char>| k != episode_id@ ==> #[trigger] final(self).save_data.best(k) == old(self).save_data.best(k),
            final(self).save_data.tutorial_shown == old(self).save_data.tutorial_shown,
            final(self).save_data.last_episode == old(self).save_data.last_episode,
            final(self).state == old(self).state,
            old(self).save_data.ids_unique() ==> final(self).save_data.ids_unique(),
    {
        let n = self.save_data.best_times.len();
        let mut i: usize = 0;
        while i < n
            invariant
                n == self.save_data.best_times@.len(),
                i <= n,
                self == old(self),
                forall|j: int| 0 <= j < i ==> self.save_data.best_times@[j].0@ != episode_id@,
            decreases n - i,
        {
            if str_eq(self.save_data.best_times[i].0.as_str(), episode_id) {
                proof {
                    lemma_best_of_index(self.save_data.best_times@, episode_id@, i as int);
                }
                let existing = self.save_data.best_times[i].1;
                if time_ms < existing {
                    let ghost entries = self.save_data.best_times@;
                    let e = (String::from_str(episode_id), time_ms);
                    self.save_data.best_times.set(i, e);
                    proof {
                        assert(forall|j: int| 0 <= j < n ==> #[trigger] self.save_data.best_times@[j].0@ == entries[j].0@);
                        lemma_best_of_index(self.save_data.best_times@, episode_id@, i as int);
                        assert forall|k: Seq<char>| k != episode_id@ implies #[trigger] best_of(
                            self.save_data.best_times@,
                            k,
                        ) == best_of(entries, k) by {
                            lemma_best_of_update(entries, episode_id@, i as int, e, k);
                        }
                    }
                    return true;
                }
                return false;
            }
            i = i + 1;
        }
        proof {
            lemma_best_of_none(self.save_data.best_times@, episode_id@);
        }
        let ghost entries = self.save_data.best_times@;
        let e = (String::from_str(episode_id), time_ms);
        self.save_data.best_times.push(e);
        proof {
            assert(forall|j: int| 0 <= j < n ==> #[trigger] self.save_data.best_times@[j].0@ == entries[j].0@);
            assert(self.save_data.best_times@[n as int].0@ == episode_id@);
            assert forall|k: Seq<char>| true implies #[trigger] best_of(self.save_data.best_times@, k)
                == if best_of(entries, k) is Some {
                best_of(entries, k)
            } else if e.0@ == k {
                Some(e.1)
            } else {
                None
            } by {
                lemma_best_of_push(entries, e, k);
            }
        }
        true
    }

    /// The best time for an episode in milliseconds, if recorded.
    pub fn get_best_time_ms(&self, episode_id: &str) -> (r: Option<u64>)
        ensures
            r == self.save_data.best(episode_id@),
    {
        let n = self.save_data.best_times.len();
        let mut i: usize = 0;
        while i < n
            invariant
                n == self.save_data.best_times@.len(),
                i <= n,
                forall|j: int| 0 <= j < i ==> self.save_data.best_times@[j].0@ != episode_id@,
            decreases n - i,
        {
            if str_eq(self.save_data.best_times[i].0.as_str(), episode_id) {
                proof {
                    lemma_best_of_index(self.save_data.best_times@, episode_id@, i as int);
                }
                return Some(self.save_data.best_times[i].1);
            }
            i = i + 1;
        }
        proof {
            lemma_best_of_none(self.save_data.best_times@, episode_id@);
        }
        None
    }

    /// Record the last played episode.
    pub fn set_last_episode(&mut self, episode_id: &str)
        ensures
            final(self).save_data.last_episode is Some,
            final(self).save_data.last_episode->0@ == episode_id@,
            final(self).save_data.tutorial_shown == old(self).save_data.tutorial_shown,
            final(self).save_data.best_times == old(self).save_data.best_times,
            final(self).state == old(self).state,
    {
        self.save_data.last_episode = Some(String::from_str(episode_id));
    }

    /// Show the tutorial on the next play if it has not been shown yet.
    pub fn request_tutorial(&mut self)
        ensures
            *final(self) == (SceneFlow {
                tutorial_visible: old(self).tutorial_visible || !old(self).save_data.tutorial_shown,
                ..*old(self)
            }),
    {
        if !self.save_data.tutorial_shown {
            self.tutorial_visible = true;
        }
    }

    /// Dismiss the tutorial and remember that it was shown. The caller saves
    /// the save data afterwards.
    pub fn dismiss_tutorial(&mut self)
        ensures
            !final(self).tutorial_visible,
            final(self).save_data.tutorial_shown,
            final(self).save_data.best_times == old(self).save_data.best_times,
            final(self).save_data.last_episode == old(self).save_data.last_episode,
            final(self).state == old(self).state,
    {
        self.tutorial_visible = false;
        self.save_data.tutorial_shown = true;
    }

    /// Move the episode selection up, wrapping around among `count` entries.
    pub fn episode_select_up(&mut self, count: usize)
        requires
            count > 0 ==> old(self).selected_episode_index + count <= usize::MAX,
        ensures
            final(self).selected_episode_index == if count == 0 {
                old(self).selected_episode_index as int
            } else {
                (old(self).selected_episode_index + count - 1) % (count as int)
            },
            final(self).state == old(self).state,
    {
        if count == 0 {
            return;
        }
        self.selected_episode_index = (self.selected_episode_index + count - 1) % count;
    }

    /// Move the episode selection down, wrapping around among `count` entries.
    pub fn episode_select_down(&mut self, count: usize)
        requires
            count > 0 ==> old(self).selected_episode_index + 1 <= usize::MAX,
        ensures
            final(self).selected_episode_index == if count == 0 {
                old(self).selected_episode_index as int
            } else {
                (old(self).selected_episode_index + 1) % (count as int)
            },
            final(self).state == old(self).state,
    {
        if count == 0 {
            return;
        }
        self.selected_episode_index = (self.selected_episode_index + 1) % count;
    }

    /// Menu -> episode selection, with the first episode selected.
    pub fn start_episode_select(&mut self)
        ensures
            final(self).state == SceneState::EpisodeSelect,
            final(self).selected_episode_index == 0,
            final(self).save_data == old(self).save_data,
    {
        self.state = SceneState::EpisodeSelect;
        self.selected_episode_index = 0;
    }

    /// Start an episode: show the title card, clear the per-run flags and
    /// request the tutorial. The caller resets its timers.
    pub fn start_game(&mut self)
        ensures
            final(self).state == SceneState::TitleCard,
            final(self).winner is None,
            final(self).tutorial_visible == (old(self).tutorial_visible || !old(self).save_data.tutorial_shown),
            !final(self).player_died_this_run,
            !final(self).checkpoint_hit_this_run,
            !final(self).npc_seen_this_episode,
            final(self).death_recap is None,
            final(self).save_data == old(self).save_data,
            final(self).selected_episode_index == old(self).selected_episode_index,
            final(self).prev_state == old(self).prev_state,
    {
        self.state = SceneState::TitleCard;
        self.winner = None;
        self.request_tutorial();
        self.player_died_this_run = false;
        self.checkpoint_hit_this_run = false;
        self.npc_seen_this_episode = false;
        self.death_recap = None;
    }

    /// Return to the main menu.
    pub fn return_to_menu(&mut self)
        ensures
            final(self).state == SceneState::Menu,
            final(self).winner is None,
            final(self).save_data == old(self).save_data,
    {
        self.state = SceneState::Menu;
        self.winner = None;
    }

    /// Toggle pause (Playing <-> Paused); other states are unchanged.
    pub fn toggle_pause(&mut self)
        ensures
            final(self).state == paused_toggled(old(self).state),
            final(self).winner == old(self).winner,
            final(self).save_data == old(self).save_data,
            final(self).prev_state == old(self).prev_state,
    {
        self.state = match self.state {
            SceneState::Playing => SceneState::Paused,
            SceneState::Paused => SceneState::Playing,
            s => s,
        };
    }

    /// Game over with a winner (or None for draw/timeout).
    pub fn trigger_gameover(&mut self, winner: Option<u8>)
        ensures
            final(self).state == SceneState::GameOver,
            final(self).winner == winner,
            final(self).save_data == old(self).save_data,
    {
        self.state = SceneState::GameOver;
        self.winner = winner;
    }

    /// Victory screen when a player reaches the goal.
    pub fn trigger_victory(&mut self, winner: Option<u8>)
        ensures
            final(self).state == SceneState::Victory,
            final(self).winner == winner,
            final(self).save_data == old(self).save_data,
    {
        self.state = SceneState::Victory;
        self.winner = winner;
    }

    /// Start a tick: remember the state it starts in.
    pub fn begin_tick(&mut self)
        ensures
            final(self).prev_state == old(self).state,
            final(self).state == old(self).state,
            final(self).save_data == old(self).save_data,
    {
        self.prev_state = self.state;
    }

    /// The title card's timer ran out: play begins.
    pub fn finish_title_card(&mut self)
        ensures
            final(self).state == if old(self).state == SceneState::TitleCard {
                SceneState::Playing
            } else {
                old(self).state
            },
            final(self).prev_state == old(self).prev_state,
            final(self).save_data == old(self).save_data,
    {
        if let SceneState::TitleCard = self.state {
            self.state = SceneState::Playing;
        }
    }

    /// Whether play began during the last tick (title card -> playing). The
    /// transition is consumed: a second call returns false.
    pub fn just_entered_playing(&mut self) -> (r: bool)
        ensures
            r == (old(self).prev_state == SceneState::TitleCard && old(self).state == SceneState::Playing),
            final(self).state == old(self).state,
            final(self).prev_state == if r {
                old(self).state
            } else {
                old(self).prev_state
            },
            final(self).save_data == old(self).save_data,
    {
        match (self.prev_state, self.state) {
            (SceneState::TitleCard, SceneState::Playing) => {
                self.prev_state = self.state;
                true
            },
            _ => false,
        }
    }
}

/// Pausing twice returns to the same screen.
pub proof fn lemma_pause_involution(s: SceneState)
    ensures
        paused_toggled(paused_toggled(s)) == s,
{
}

/// Moving the selection up then down (or down then up) returns to the same
/// entry.
pub proof fn lemma_select_round_trip(i: int, count: int)
    requires
        0 <= i < count,
    ensures
        ((i + count - 1) % count + 1) % count == i,
        ((i + 1) % count + count - 1) % count == i,
{
    if i == 0 {
        vstd::arithmetic::div_mod::lemma_small_mod((count - 1) as nat, count as nat);
        vstd::arithmetic::div_mod::lemma_mod_self_0(count);
    } else {
        vstd::arithmetic::div_mod::lemma_mod_add_multiples_vanish(i - 1, count);
        vstd::arithmetic::div_mod::lemma_small_mod((i - 1) as nat, count as nat);
        vstd::arithmetic::div_mod::lemma_small_mod(i as nat, count as nat);
    }
    if i + 1 < count {
        vstd::arithmetic::div_mod::lemma_small_mod((i + 1) as nat, count as nat);
        vstd::arithmetic::div_mod::lemma_mod_add_multiples_vanish(i, count);
        vstd::arithmetic::div_mod::lemma_small_mod(i as nat, count as nat);
    } else {
        vstd::arithmetic::div_mod::lemma_mod_self_0(count);
        vstd::arithmetic::div_mod::lemma_small_mod((count - 1) as nat, count as nat);
    }
}

/// The best time kept after `time_ms` is offered to an episode whose best
/// was `best` (as `update_best_time` states it).
pub open spec fn offer_time(best: Option<u64>, time_ms: u64) -> Option<u64> {
    match best {
        Some(b) => if time_ms < b {
            Some(time_ms)
        } else {
            Some(b)
        },
        None => Some(time_ms),
    }
}

/// The best time kept after offering `times`, in order, to an episode with
/// no best time yet.
pub open spec fn best_after(times: Seq<u64>) -> Option<u64>
    decreases times.len(),
{
    if times.len() == 0 {
        None
    } else {
        offer_time(best_after(times.drop_last()), times.last())
    }
}

/// The best time kept is the minimum of the times offered: it is one of
/// them and none is smaller.
pub proof fn lemma_best_time_is_minimum(times: Seq<u64>)
    requires
        times.len() > 0,
    ensures
        best_after(times) is Some,
        exists|i: int| 0 <= i < times.len() && times[i] == best_after(times)->0,
        forall|i: int| 0 <= i < times.len() ==> best_after(times)->0 <= times[i],
    decreases times.len(),
{
    let dl = times.drop_last();
    if dl.len() == 0 {
        assert(times[0] == times.last());
    } else {
        lemma_best_time_is_minimum(dl);
        let j = choose|j: int| 0 <= j < dl.len() && dl[j] == best_after(dl)->0;
        assert(times[j] == dl[j]);
        if times.last() < best_after(dl)->0 {
            assert(times[times.len() - 1] == best_after(times)->0);
        }
        assert forall|i: int| 0 <= i < times.len() implies best_after(times)->0 <= times[i] by {
            if i < dl.len() {
                assert(times[i] == dl[i]);
            }
        }
    }
}

} // verus!
