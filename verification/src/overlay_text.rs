//! The text lines of the debug overlay's panel and of the console's
//! `state` answer that are made of integers, names and switches. Values
//! measured in floating point (frame times, camera position, elapsed time
//! with a fraction) are written by the caller and handed in as text.
use vstd::prelude::*;
use vstd::string::StringExecFns;
use vstd::string::StrSliceExecFns;
use crate::debug::{DebugInputState, DebugOverlay};
use crate::health::{combined_player_result, result_label, CheckResult, HealthResults};
use crate::player::{Player, PlayerState};
use crate::scene::SceneState;
use crate::text::{decimal, i32_to_string, push_char, signed_decimal, u64_to_string};

verus! {

/// `s` right-aligned in `width` columns with `c` in front (longer text is
/// left as it is).
pub open spec fn pad_left(s: Seq<char>, width: nat, c: char) -> Seq<char> {
    if s.len() >= width {
        s
    } else {
        Seq::new((width - s.len()) as nat, |i: int| c) + s
    }
}

fn pad_left_string(s: String, width: usize, c: char) -> (r: String)
    ensures
        r@ == pad_left(s@, width as nat, c),
{
    let n = s.as_str().unicode_len();
    if n >= width {
        return s;
    }
    let mut out = String::new();
    let mut i: usize = 0;
    while i < width - n
        invariant
            n < width,
            i <= width - n,
            out@ == Seq::new(i as nat, |k: int| c),
        decreases width - n - i,
    {
        push_char(&mut out, c);
        i = i + 1;
        assert(out@ =~= Seq::new(i as nat, |k: int| c));
    }
    out.append(s.as_str());
    out
}

/// The name a scene state goes by in the overlay and the console.
pub open spec fn scene_name(s: SceneState) -> Seq<char> {
    match s {
        SceneState::Menu => "Menu"@,
        SceneState::EpisodeSelect => "EpisodeSelect"@,
        SceneState::TitleCard => "TitleCard"@,
        SceneState::Playing => "Playing"@,
        SceneState::Victory => "Victory"@,
        SceneState::GameOver => "GameOver"@,
        SceneState::Paused => "Paused"@,
    }
}

pub fn scene_name_str(s: SceneState) -> (r: &'static str)
    ensures
        r@ == scene_name(s),
{
    match s {
        SceneState::Menu => "Menu",
        SceneState::EpisodeSelect => "EpisodeSelect",
        SceneState::TitleCard => "TitleCard",
        SceneState::Playing => "Playing",
        SceneState::Victory => "Victory",
        SceneState::GameOver => "GameOver",
        SceneState::Paused => "Paused",
    }
}

/// A player's state in full, as the console writes it.
pub open spec fn player_state_name(s: PlayerState) -> Seq<char> {
    match s {
        PlayerState::Idle => "Idle"@,
        PlayerState::Moving => "Moving"@,
        PlayerState::Eliminated => "Eliminated"@,
        PlayerState::Won => "Won"@,
    }
}

fn player_state_name_str(s: PlayerState) -> (r: &'static str)
    ensures
        r@ == player_state_name(s),
{
    match s {
        PlayerState::Idle => "Idle",
        PlayerState::Moving => "Moving",
        PlayerState::Eliminated => "Eliminated",
        PlayerState::Won => "Won",
    }
}

/// A player's state in short, as the overlay writes it.
pub open spec fn player_state_short(s: PlayerState) -> Seq<char> {
    match s {
        PlayerState::Idle => "Idle"@,
        PlayerState::Moving => "Moving"@,
        PlayerState::Eliminated => "Elim"@,
        PlayerState::Won => "Won"@,
    }
}

fn player_state_short_str(s: PlayerState) -> (r: &'static str)
    ensures
        r@ == player_state_short(s),
{
    match s {
        PlayerState::Idle => "Idle",
        PlayerState::Moving => "Moving",
        PlayerState::Eliminated => "Elim",
        PlayerState::Won => "Won",
    }
}

/// `(x,y)` without a space, as the overlay writes a pair.
pub open spec fn tight_pair(x: int, y: int) -> Seq<char> {
    "("@ + signed_decimal(x) + ","@ + signed_decimal(y) + ")"@
}

fn tight_pair_string(x: i32, y: i32) -> (r: String)
    ensures
        r@ == tight_pair(x as int, y as int),
{
    let mut s = String::from_str("(");
    let xs = i32_to_string(x);
    s.append(xs.as_str());
    s.append(",");
    let ys = i32_to_string(y);
    s.append(ys.as_str());
    s.append(")");
    s
}

/// `(x, y)` with a space, as the console writes a pair.
pub open spec fn spaced_pair(x: int, y: int) -> Seq<char> {
    "("@ + signed_decimal(x) + ", "@ + signed_decimal(y) + ")"@
}

fn spaced_pair_string(x: i32, y: i32) -> (r: String)
    ensures
        r@ == spaced_pair(x as int, y as int),
{
    let mut s = String::from_str("(");
    let xs = i32_to_string(x);
    s.append(xs.as_str());
    s.append(", ");
    let ys = i32_to_string(y);
    s.append(ys.as_str());
    s.append(")");
    s
}

/// The draw-call line: the count right-aligned in four columns.
pub open spec fn draw_calls_text(count: nat) -> Seq<char> {
    "  DC....."@ + pad_left(decimal(count), 4, ' ')
}

pub fn draw_calls_line(count: usize) -> (r: String)
    ensures
        r@ == draw_calls_text(count as nat),
{
    let mut s = String::from_str("  DC.....");
    let n = pad_left_string(u64_to_string(count as u64), 4, ' ');
    s.append(n.as_str());
    s
}

/// The scene line.
pub open spec fn scene_text(s: SceneState) -> Seq<char> {
    "  SCENE.."@ + scene_name(s)
}

pub fn scene_line(s: SceneState) -> (r: String)
    ensures
        r@ == scene_text(s),
{
    let mut r = String::from_str("  SCENE..");
    r.append(scene_name_str(s));
    r
}

/// The play-time line: whole minutes and seconds, each at least two
/// digits.
pub open spec fn time_text(secs: nat) -> Seq<char> {
    "  TIME..."@ + pad_left(decimal(secs / 60), 2, '0') + ":"@ + pad_left(decimal(secs % 60), 2, '0')
}

pub fn time_line(secs: u32) -> (r: String)
    ensures
        r@ == time_text(secs as nat),
{
    let mut r = String::from_str("  TIME...");
    let m = pad_left_string(u64_to_string((secs / 60) as u64), 2, '0');
    r.append(m.as_str());
    r.append(":");
    let s = pad_left_string(u64_to_string((secs % 60) as u64), 2, '0');
    r.append(s.as_str());
    r
}

/// The overlay's four player lines: grid cell and state, then screen
/// position, for each player.
pub open spec fn player_texts(p1: Player, p2: Player, p1_screen: (i32, i32), p2_screen: (i32, i32)) -> Seq<
    Seq<char>,
> {
    seq![
        "  P1 grid="@ + tight_pair(p1.grid_x as int, p1.grid_y as int) + " ["@ + player_state_short(p1.state) + "]"@,
        "  P1 scr="@ + tight_pair(p1_screen.0 as int, p1_screen.1 as int),
        "  P2 grid="@ + tight_pair(p2.grid_x as int, p2.grid_y as int) + " ["@ + player_state_short(p2.state) + "]"@,
        "  P2 scr="@ + tight_pair(p2_screen.0 as int, p2_screen.1 as int),
    ]
}

fn player_grid_line(tag: &str, p: &Player) -> (r: String)
    ensures
        r@ == "  "@ + tag@ + " grid="@ + tight_pair(p.grid_x as int, p.grid_y as int) + " ["@ + player_state_short(
            p.state,
        ) + "]"@,
{
    let mut r = String::from_str("  ");
    r.append(tag);
    r.append(" grid=");
    let g = tight_pair_string(p.grid_x, p.grid_y);
    r.append(g.as_str());
    r.append(" [");
    r.append(player_state_short_str(p.state));
    r.append("]");
    r
}

fn screen_line(tag: &str, at: (i32, i32)) -> (r: String)
    ensures
        r@ == "  "@ + tag@ + " scr="@ + tight_pair(at.0 as int, at.1 as int),
{
    let mut r = String::from_str("  ");
    r.append(tag);
    r.append(" scr=");
    let g = tight_pair_string(at.0, at.1);
    r.append(g.as_str());
    r
}

pub fn player_lines(p1: &Player, p2: &Player, p1_screen: (i32, i32), p2_screen: (i32, i32)) -> (r: Vec<String>)
    ensures
        crate::text::views(r@) == player_texts(*p1, *p2, p1_screen, p2_screen),
{
    let mut v: Vec<String> = Vec::new();
    v.push(player_grid_line("P1", p1));
    v.push(screen_line("P1", p1_screen));
    v.push(player_grid_line("P2", p2));
    v.push(screen_line("P2", p2_screen));
    proof {
        reveal_strlit("P1");
        reveal_strlit("P2");
        reveal_strlit("  ");
        reveal_strlit(" grid=");
        reveal_strlit(" scr=");
        reveal_strlit("  P1 grid=");
        reveal_strlit("  P2 grid=");
        reveal_strlit("  P1 scr=");
        reveal_strlit("  P2 scr=");
        assert("  "@ + "P1"@ + " grid="@ =~= "  P1 grid="@);
        assert("  "@ + "P2"@ + " grid="@ =~= "  P2 grid="@);
        assert("  "@ + "P1"@ + " scr="@ =~= "  P1 scr="@);
        assert("  "@ + "P2"@ + " scr="@ =~= "  P2 scr="@);
    }
    assert(crate::text::views(v@) =~= player_texts(*p1, *p2, p1_screen, p2_screen));
    v
}

/// The overlay's two world lines: the hovered cell with its depth key, and
/// the mouse's screen position.
pub open spec fn world_texts(o: DebugOverlay, mouse_screen: (i32, i32)) -> Seq<Seq<char>> {
    seq![
        "  HOVER grid="@ + tight_pair(o.mouse_grid_x as int, o.mouse_grid_y as int) + " depth="@ + signed_decimal(
            o.mouse_depth as int,
        ),
        "  MOUSE scr="@ + tight_pair(mouse_screen.0 as int, mouse_screen.1 as int),
    ]
}

pub fn world_lines(o: &DebugOverlay, mouse_screen: (i32, i32)) -> (r: Vec<String>)
    ensures
        crate::text::views(r@) == world_texts(*o, mouse_screen),
{
    let mut a = String::from_str("  HOVER grid=");
    let g = tight_pair_string(o.mouse_grid_x, o.mouse_grid_y);
    a.append(g.as_str());
    a.append(" depth=");
    let d = i32_to_string(o.mouse_depth);
    a.append(d.as_str());
    let mut b = String::from_str("  MOUSE scr=");
    let m = tight_pair_string(mouse_screen.0, mouse_screen.1);
    b.append(m.as_str());
    let mut v: Vec<String> = Vec::new();
    v.push(a);
    v.push(b);
    assert(crate::text::views(v@) =~= world_texts(*o, mouse_screen));
    v
}

/// The overlay's input line: each player's held directions.
pub open spec fn input_text(i: DebugInputState) -> Seq<char> {
    "  P1:["@ + i.p1_dirs@ + "]  P2:["@ + i.p2_dirs@ + "]"@
}

pub fn input_line(i: &DebugInputState) -> (r: String)
    ensures
        r@ == input_text(*i),
{
    let mut r = String::from_str("  P1:[");
    r.append(i.p1_dirs.as_str());
    r.append("]  P2:[");
    r.append(i.p2_dirs.as_str());
    r.append("]");
    r
}

/// The overlay's health labels: camera, frame rate, and the two players
/// taken together.
pub open spec fn health_texts(h: HealthResults) -> Seq<Seq<char>> {
    seq![
        "CAM.."@ + result_label(h.camera),
        "FPS.."@ + result_label(h.fps),
        "PLR.."@ + result_label(
            if h.player1 == CheckResult::Pass && h.player2 == CheckResult::Pass {
                CheckResult::Pass
            } else if h.player1 == CheckResult::Fail || h.player2 == CheckResult::Fail {
                CheckResult::Fail
            } else {
                CheckResult::Warn
            },
        ),
    ]
}

pub fn health_labels(h: &HealthResults) -> (r: Vec<String>)
    ensures
        crate::text::views(r@) == health_texts(*h),
{
    let mut a = String::from_str("CAM..");
    a.append(h.camera.overlay_display().1);
    let mut b = String::from_str("FPS..");
    b.append(h.fps.overlay_display().1);
    let mut c = String::from_str("PLR..");
    let plr: CheckResult = combined_player_result(h.player1, h.player2);
    c.append(plr.overlay_display().1);
    let mut v: Vec<String> = Vec::new();
    v.push(a);
    v.push(b);
    v.push(c);
    assert(crate::text::views(v@) =~= health_texts(*h));
    v
}

/// `true` or `false`, as the console writes a switch.
pub open spec fn bool_text(b: bool) -> Seq<char> {
    if b {
        "true"@
    } else {
        "false"@
    }
}

fn bool_str(b: bool) -> (r: &'static str)
    ensures
        r@ == bool_text(b),
{
    if b {
        "true"
    } else {
        "false"
    }
}

/// The console's answer to `state`. `time` and `camera` are the elapsed
/// time (one decimal) and the camera position `(x, y)` (one decimal each),
/// written by the caller.
pub open spec fn state_texts(
    scene: SceneState,
    last_episode: Option<Seq<char>>,
    p1: Player,
    p2: Player,
    god_mode: bool,
    fps_visible: bool,
    time: Seq<char>,
    camera: Seq<char>,
) -> Seq<Seq<char>> {
    seq![
        "=== Game State ==="@,
        "Scene: "@ + scene_name(scene),
        "Time: "@ + time + "s"@,
        "Episode: "@ + match last_episode {
            Some(e) => e,
            None => "none"@,
        },
        "God mode: "@ + bool_text(god_mode),
        "FPS visible: "@ + bool_text(fps_visible),
        "P1: "@ + spaced_pair(p1.grid_x as int, p1.grid_y as int) + " "@ + player_state_name(p1.state),
        "P2: "@ + spaced_pair(p2.grid_x as int, p2.grid_y as int) + " "@ + player_state_name(p2.state),
        "Camera: "@ + camera,
    ]
}

fn state_player_line(tag: &str, p: &Player) -> (r: String)
    ensures
        r@ == tag@ + spaced_pair(p.grid_x as int, p.grid_y as int) + " "@ + player_state_name(p.state),
{
    let mut r = String::from_str(tag);
    let g = spaced_pair_string(p.grid_x, p.grid_y);
    r.append(g.as_str());
    r.append(" ");
    r.append(player_state_name_str(p.state));
    r
}

pub fn state_summary(
    scene: SceneState,
    last_episode: &Option<String>,
    p1: &Player,
    p2: &Player,
    god_mode: bool,
    fps_visible: bool,
    time: &str,
    camera: &str,
) -> (r: Vec<String>)
    ensures
        crate::text::views(r@) == state_texts(
            scene,
            match last_episode {
                Some(e) => Some(e@),
                None => None,
            },
            *p1,
            *p2,
            god_mode,
            fps_visible,
            time@,
            camera@,
        ),
{
    let mut v: Vec<String> = Vec::new();
    v.push(String::from_str("=== Game State ==="));
    let mut s = String::from_str("Scene: ");
    s.append(scene_name_str(scene));
    v.push(s);
    let mut t = String::from_str("Time: ");
    t.append(time);
    t.append("s");
    v.push(t);
    let mut e = String::from_str("Episode: ");
    match last_episode {
        Some(name) => e.append(name.as_str()),
        None => e.append("none"),
    }
    v.push(e);
    let mut g = String::from_str("God mode: ");
    g.append(bool_str(god_mode));
    v.push(g);
    let mut f = String::from_str("FPS visible: ");
    f.append(bool_str(fps_visible));
    v.push(f);
    v.push(state_player_line("P1: ", p1));
    v.push(state_player_line("P2: ", p2));
    let mut c = String::from_str("Camera: ");
    c.append(camera);
    v.push(c);
    assert(crate::text::views(v@) =~= state_texts(
        scene,
        match last_episode {
            Some(e) => Some(e@),
            None => None,
        },
        *p1,
        *p2,
        god_mode,
        fps_visible,
        time@,
        camera@,
    ));
    v
}

} // verus!
