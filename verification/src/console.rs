//! In-game developer console: line editing, command history, command
//! parsing and the text each command answers with.
use vstd::prelude::*;
use vstd::string::StringExecFns;
use std::collections::VecDeque;
use crate::player::Player;
use crate::scene::{SceneFlow, SceneState};
use crate::text::{
    words_of, views, split_whitespace, to_lowercase, lowercase, str_eq, parse_i32, parse_i32_spec,
    i32_to_string, signed_decimal, trim, trim_seq, push_char, pop_char,
};

verus! {

broadcast use vstd::std_specs::vecdeque::group_vec_dequeue_axioms;

/// Most output lines kept for display.
pub const MAX_OUTPUT_LINES: usize = 20;

/// Most commands kept in the history.
pub const MAX_HISTORY: usize = 50;

/// A screen the `scene` command can jump to.
#[derive(Debug, Clone, Copy, PartialEq, Eq, Structural)]
pub enum SceneTarget {
    Menu,
    TitleCard,
    Playing,
    GameOver,
    Victory,
    Paused,
}

/// The argument of the `god` command.
#[derive(Debug, Clone)]
pub enum GodArg {
    On,
    Off,
    Toggle,
    Invalid(String),
}

/// A parsed console command.
#[derive(Debug, Clone)]
pub enum ConsoleCommand {
    /// Blank input.
    Empty,
    Help,
    /// Camera teleport; None when the coordinates are missing or invalid.
    Cam(Option<(i32, i32)>),
    /// Player 1 teleport; None when the coordinates are missing or invalid.
    P1(Option<(i32, i32)>),
    /// Player 2 teleport; None when the coordinates are missing or invalid.
    P2(Option<(i32, i32)>),
    /// `scene` without a name.
    SceneMissing,
    Scene(SceneTarget),
    /// `scene` with an unknown (lowercased) name.
    SceneUnknown(String),
    God(GodArg),
    State,
    Fps,
    Screenshot,
    Exit,
    /// An unknown (lowercased) command word.
    Unknown(String),
}

/// The two coordinates after the command word, if both parse.
pub open spec fn spec_pos_arg(ws: Seq<Seq<char>>) -> Option<(i32, i32)> {
    if ws.len() >= 3 && parse_i32_spec(ws[1]) is Some && parse_i32_spec(ws[2]) is Some {
        Some((parse_i32_spec(ws[1])->0, parse_i32_spec(ws[2])->0))
    } else {
        None
    }
}

/// The scene a (lowercased) name selects.
pub open spec fn spec_scene_target(name: Seq<char>) -> Option<SceneTarget> {
    if name == "menu"@ {
        Some(SceneTarget::Menu)
    } else if name == "titlecard"@ {
        Some(SceneTarget::TitleCard)
    } else if name == "playing"@ {
        Some(SceneTarget::Playing)
    } else if name == "gameover"@ {
        Some(SceneTarget::GameOver)
    } else if name == "victory"@ {
        Some(SceneTarget::Victory)
    } else if name == "paused"@ {
        Some(SceneTarget::Paused)
    } else {
        None
    }
}

/// Whether `arg` is the `god` argument written as `w` (None when absent).
pub open spec fn god_arg_is(arg: GodArg, w: Option<Seq<char>>) -> bool {
    match w {
        None => arg is Toggle,
        Some(a) => if a == "on"@ {
            arg is On
        } else if a == "off"@ {
            arg is Off
        } else {
            arg matches GodArg::Invalid(s) && s@ == a
        },
    }
}

/// Whether `cmd` is the command named by the lowercased word `c`, with the
/// words `ws` of the input and the lowercased second word `second`.
pub open spec fn command_is(cmd: ConsoleCommand, c: Seq<char>, ws: Seq<Seq<char>>, second: Option<Seq<char>>) -> bool {
    if c == "help"@ {
        cmd is Help
    } else if c == "cam"@ {
        cmd matches ConsoleCommand::Cam(p) && p == spec_pos_arg(ws)
    } else if c == "p1"@ {
        cmd matches ConsoleCommand::P1(p) && p == spec_pos_arg(ws)
    } else if c == "p2"@ {
        cmd matches ConsoleCommand::P2(p) && p == spec_pos_arg(ws)
    } else if c == "scene"@ {
        match second {
            None => cmd is SceneMissing,
            Some(n) => match spec_scene_target(n) {
                Some(t) => cmd matches ConsoleCommand::Scene(u) && u == t,
                None => cmd matches ConsoleCommand::SceneUnknown(s) && s@ == n,
            },
        }
    } else if c == "god"@ {
        cmd matches ConsoleCommand::God(a) && god_arg_is(a, if ws.len() >= 2 {
            Some(ws[1])
        } else {
            None
        })
    } else if c == "state"@ {
        cmd is State
    } else if c == "fps"@ {
        cmd is Fps
    } else if c == "screenshot"@ {
        cmd is Screenshot
    } else if c == "exit"@ {
        cmd is Exit
    } else {
        cmd matches ConsoleCommand::Unknown(s) && s@ == c
    }
}

fn pos_arg(words: &Vec<String>) -> (r: Option<(i32, i32)>)
    ensures
        r == spec_pos_arg(views(words@)),
{
    if words.len() < 3 {
        return None;
    }
    let x = parse_i32(words[1].as_str());
    let y = parse_i32(words[2].as_str());
    match (x, y) {
        (Some(a), Some(b)) => Some((a, b)),
        _ => None,
    }
}

fn scene_target(name: &str) -> (r: Option<SceneTarget>)
    ensures
        r == spec_scene_target(name@),
{
    if str_eq(name, "menu") {
        Some(SceneTarget::Menu)
    } else if str_eq(name, "titlecard") {
        Some(SceneTarget::TitleCard)
    } else if str_eq(name, "playing") {
        Some(SceneTarget::Playing)
    } else if str_eq(name, "gameover") {
        Some(SceneTarget::GameOver)
    } else if str_eq(name, "victory") {
        Some(SceneTarget::Victory)
    } else if str_eq(name, "paused") {
        Some(SceneTarget::Paused)
    } else {
        None
    }
}

/// Decide the command from its lowercased command word `command`, the
/// input's words `words`, and the lowercased second word `second`.
pub fn classify_command(command: &str, words: &Vec<String>, second: Option<String>) -> (r: ConsoleCommand)
    ensures
        command_is(
            r,
            command@,
            views(words@),
            match second {
                Some(s) => Some(s@),
                None => None,
            },
        ),
{
    if str_eq(command, "help") {
        ConsoleCommand::Help
    } else if str_eq(command, "cam") {
        ConsoleCommand::Cam(pos_arg(words))
    } else if str_eq(command, "p1") {
        ConsoleCommand::P1(pos_arg(words))
    } else if str_eq(command, "p2") {
        ConsoleCommand::P2(pos_arg(words))
    } else if str_eq(command, "scene") {
        match second {
            None => ConsoleCommand::SceneMissing,
            Some(n) => match scene_target(n.as_str()) {
                Some(t) => ConsoleCommand::Scene(t),
                None => ConsoleCommand::SceneUnknown(n),
            },
        }
    } else if str_eq(command, "god") {
        if words.len() < 2 {
            ConsoleCommand::God(GodArg::Toggle)
        } else if str_eq(words[1].as_str(), "on") {
            ConsoleCommand::God(GodArg::On)
        } else if str_eq(words[1].as_str(), "off") {
            ConsoleCommand::God(GodArg::Off)
        } else {
            ConsoleCommand::God(GodArg::Invalid(words[1].clone()))
        }
    } else if str_eq(command, "state") {
        ConsoleCommand::State
    } else if str_eq(command, "fps") {
        ConsoleCommand::Fps
    } else if str_eq(command, "screenshot") {
        ConsoleCommand::Screenshot
    } else if str_eq(command, "exit") {
        ConsoleCommand::Exit
    } else {
        ConsoleCommand::Unknown(String::from_str(command))
    }
}

/// Whether `cmd` is what the input line `input` parses to: blank input is
/// `Empty`; otherwise the first word, lowercased, names the command.
pub open spec fn parses_as(input: Seq<char>, cmd: ConsoleCommand) -> bool {
    let ws = words_of(input);
    if ws.len() == 0 {
        cmd is Empty
    } else {
        command_is(
            cmd,
            lowercase(ws[0]),
            ws,
            if ws.len() >= 2 {
                Some(lowercase(ws[1]))
            } else {
                None
            },
        )
    }
}

/// Parse a console input line. Words are separated by whitespace; the
/// command word is matched case-insensitively, as is a scene name.
pub fn parse_command(input: &str) -> (r: ConsoleCommand)
    ensures
        parses_as(input@, r),
{
    let words = split_whitespace(input);
    if words.len() == 0 {
        return ConsoleCommand::Empty;
    }
    let command = to_lowercase(words[0].as_str());
    let second = if words.len() >= 2 {
        Some(to_lowercase(words[1].as_str()))
    } else {
        None
    };
    classify_command(command.as_str(), &words, second)
}

/// The state of god mode after a `god` command.
pub open spec fn spec_god_after(arg: GodArg, god_mode: bool) -> bool {
    match arg {
        GodArg::On => true,
        GodArg::Off => false,
        GodArg::Toggle => !god_mode,
        GodArg::Invalid(_) => god_mode,
    }
}

/// The state of god mode after a `god` command.
pub fn god_after(arg: &GodArg, god_mode: bool) -> (r: bool)
    ensures
        r == spec_god_after(*arg, god_mode),
{
    match arg {
        GodArg::On => true,
        GodArg::Off => false,
        GodArg::Toggle => !god_mode,
        GodArg::Invalid(_) => god_mode,
    }
}

/// `"ON"` or `"OFF"`.
pub open spec fn on_off(b: bool) -> Seq<char> {
    if b {
        "ON"@
    } else {
        "OFF"@
    }
}

/// The line naming valid scenes.
pub open spec fn valid_scenes_line() -> Seq<char> {
    "  Valid scenes: menu, titlecard, playing, gameover, victory, paused"@
}

/// The help text.
pub open spec fn help_lines() -> Seq<Seq<char>> {
    seq![
        "Available commands:"@,
        "  help              - List all commands"@,
        "  cam <gx> <gy>     - Teleport camera to grid position"@,
        "  p1 <gx> <gy>      - Teleport player 1 to grid position"@,
        "  p2 <gx> <gy>      - Teleport player 2 to grid position"@,
        "  scene <name>      - Jump to scene"@,
        "  god [on|off]      - Toggle or set god mode"@,
        "  state             - Print full game state summary"@,
        "  fps               - Toggle FPS display"@,
        "  screenshot        - Trigger a screenshot"@,
        "  exit              - Close console"@,
    ]
}

/// The answer to a teleport: the new position, or the usage line.
pub open spec fn teleport_lines(who: Seq<char>, usage: Seq<char>, p: Option<(i32, i32)>) -> Seq<Seq<char>> {
    match p {
        Some(q) => seq![
            who + " teleported to ("@ + signed_decimal(q.0 as int) + ", "@ + signed_decimal(q.1 as int)
                + ")"@,
        ],
        None => seq![usage],
    }
}

/// The name a scene is announced with.
pub open spec fn scene_name(t: SceneTarget) -> Seq<char> {
    match t {
        SceneTarget::Menu => "Menu"@,
        SceneTarget::TitleCard => "TitleCard"@,
        SceneTarget::Playing => "Playing"@,
        SceneTarget::GameOver => "GameOver"@,
        SceneTarget::Victory => "Victory"@,
        SceneTarget::Paused => "Paused"@,
    }
}

/// The lines a command answers with. `god_mode` and `fps_visible` are the
/// settings after the command took effect. `state` is answered by the caller,
/// which holds the game state, and blank input answers nothing.
pub open spec fn spec_command_output(cmd: ConsoleCommand, god_mode: bool, fps_visible: bool) -> Seq<Seq<char>> {
    match cmd {
        ConsoleCommand::Empty => Seq::empty(),
        ConsoleCommand::Help => help_lines(),
        ConsoleCommand::Cam(p) => teleport_lines("Camera"@, "Usage: cam <gx> <gy>"@, p),
        ConsoleCommand::P1(p) => teleport_lines("Player 1"@, "Usage: p1 <gx> <gy>"@, p),
        ConsoleCommand::P2(p) => teleport_lines("Player 2"@, "Usage: p2 <gx> <gy>"@, p),
        ConsoleCommand::SceneMissing => seq!["Usage: scene <name>"@, valid_scenes_line()],
        ConsoleCommand::Scene(t) => seq!["Scene: "@ + scene_name(t)],
        ConsoleCommand::SceneUnknown(n) => seq!["Unknown scene: "@ + n@, valid_scenes_line()],
        ConsoleCommand::God(a) => match a {
            GodArg::Invalid(s) => seq!["Usage: god [on|off] (got: "@ + s@ + ")"@],
            _ => seq!["God mode: "@ + on_off(god_mode)],
        },
        ConsoleCommand::State => Seq::empty(),
        ConsoleCommand::Fps => seq!["FPS display: "@ + on_off(fps_visible)],
        ConsoleCommand::Screenshot => seq!["[SCREENSHOT]"@],
        ConsoleCommand::Exit => seq!["Console closed"@],
        ConsoleCommand::Unknown(c) => seq!["unknown command: "@ + c@, "Type 'help' for available commands"@],
    }
}

fn line(s: &str) -> (r: String)
    ensures
        r@ == s@,
{
    String::from_str(s)
}

fn teleport_output(who: &str, usage: &str, p: Option<(i32, i32)>) -> (r: Vec<String>)
    ensures
        views(r@) == teleport_lines(who@, usage@, p),
{
    let mut out: Vec<String> = Vec::new();
    match p {
        Some((x, y)) => {
            let mut s = String::from_str(who);
            s.append(" teleported to (");
            let xs = i32_to_string(x);
            s.append(xs.as_str());
            s.append(", ");
            let ys = i32_to_string(y);
            s.append(ys.as_str());
            s.append(")");
            out.push(s);
        },
        None => {
            out.push(line(usage));
        },
    }
    assert(views(out@) =~= teleport_lines(who@, usage@, p));
    out
}

fn on_off_str(b: bool) -> (r: &'static str)
    ensures
        r@ == on_off(b),
{
    if b {
        "ON"
    } else {
        "OFF"
    }
}

/// The lines a command answers with (see `spec_command_output`).
pub fn command_output(cmd: &ConsoleCommand, god_mode: bool, fps_visible: bool) -> (r: Vec<String>)
    ensures
        views(r@) == spec_command_output(*cmd, god_mode, fps_visible),
{
    let mut out: Vec<String> = Vec::new();
    match cmd {
        ConsoleCommand::Empty => {},
        ConsoleCommand::Help => {
            out.push(line("Available commands:"));
            out.push(line("  help              - List all commands"));
            out.push(line("  cam <gx> <gy>     - Teleport camera to grid position"));
            out.push(line("  p1 <gx> <gy>      - Teleport player 1 to grid position"));
            out.push(line("  p2 <gx> <gy>      - Teleport player 2 to grid position"));
            out.push(line("  scene <name>      - Jump to scene"));
            out.push(line("  god [on|off]      - Toggle or set god mode"));
            out.push(line("  state             - Print full game state summary"));
            out.push(line("  fps               - Toggle FPS display"));
            out.push(line("  screenshot        - Trigger a screenshot"));
            out.push(line("  exit              - Close console"));
        },
        ConsoleCommand::Cam(p) => {
            return teleport_output("Camera", "Usage: cam <gx> <gy>", *p);
        },
        ConsoleCommand::P1(p) => {
            return teleport_output("Player 1", "Usage: p1 <gx> <gy>", *p);
        },
        ConsoleCommand::P2(p) => {
            return teleport_output("Player 2", "Usage: p2 <gx> <gy>", *p);
        },
        ConsoleCommand::SceneMissing => {
            out.push(line("Usage: scene <name>"));
            out.push(line("  Valid scenes: menu, titlecard, playing, gameover, victory, paused"));
        },
        ConsoleCommand::Scene(t) => {
            let name = match t {
                SceneTarget::Menu => "Menu",
                SceneTarget::TitleCard => "TitleCard",
                SceneTarget::Playing => "Playing",
                SceneTarget::GameOver => "GameOver",
                SceneTarget::Victory => "Victory",
                SceneTarget::Paused => "Paused",
            };
            let mut s = String::from_str("Scene: ");
            s.append(name);
            out.push(s);
        },
        ConsoleCommand::SceneUnknown(n) => {
            let mut s = String::from_str("Unknown scene: ");
            s.append(n.as_str());
            out.push(s);
            out.push(line("  Valid scenes: menu, titlecard, playing, gameover, victory, paused"));
        },
        ConsoleCommand::God(a) => {
            match a {
                GodArg::Invalid(g) => {
                    let mut s = String::from_str("Usage: god [on|off] (got: ");
                    s.append(g.as_str());
                    s.append(")");
                    out.push(s);
                },
                _ => {
                    let mut s = String::from_str("God mode: ");
                    s.append(on_off_str(god_mode));
                    out.push(s);
                },
            }
        },
        ConsoleCommand::State => {},
        ConsoleCommand::Fps => {
            let mut s = String::from_str("FPS display: ");
            s.append(on_off_str(fps_visible));
            out.push(s);
        },
        ConsoleCommand::Screenshot => {
            out.push(line("[SCREENSHOT]"));
        },
        ConsoleCommand::Exit => {
            out.push(line("Console closed"));
        },
        ConsoleCommand::Unknown(c) => {
            let mut s = String::from_str("unknown command: ");
            s.append(c.as_str());
            out.push(s);
            out.push(line("Type 'help' for available commands"));
        },
    }
    assert(views(out@) =~= spec_command_output(*cmd, god_mode, fps_visible));
    out
}

/// The screen a scene target selects.
pub open spec fn target_state(t: SceneTarget) -> SceneState {
    match t {
        SceneTarget::Menu => SceneState::Menu,
        SceneTarget::TitleCard => SceneState::TitleCard,
        SceneTarget::Playing => SceneState::Playing,
        SceneTarget::GameOver => SceneState::GameOver,
        SceneTarget::Victory => SceneState::Victory,
        SceneTarget::Paused => SceneState::Paused,
    }
}

/// The screen a scene target selects.
pub fn scene_state_of(t: SceneTarget) -> (r: SceneState)
    ensures
        r == target_state(t),
{
    match t {
        SceneTarget::Menu => SceneState::Menu,
        SceneTarget::TitleCard => SceneState::TitleCard,
        SceneTarget::Playing => SceneState::Playing,
        SceneTarget::GameOver => SceneState::GameOver,
        SceneTarget::Victory => SceneState::Victory,
        SceneTarget::Paused => SceneState::Paused,
    }
}

/// `scene <name>` lands on the screen the console announces: the screen
/// a target selects goes by the name the answer `Scene: <name>` prints
/// for it, and different targets select different screens.
pub proof fn lemma_scene_target_lands_on_named_screen(t: SceneTarget, u: SceneTarget)
    ensures
        crate::overlay_text::scene_name(target_state(t)) == scene_name(t),
        spec_command_output(ConsoleCommand::Scene(t), false, false) == seq![
            "Scene: "@ + crate::overlay_text::scene_name(target_state(t)),
        ],
        target_state(t) == target_state(u) ==> t == u,
{
}

/// `p` moved to the grid cell `to`, everything else as it was.
pub open spec fn teleported(p: Player, to: (i32, i32)) -> Player {
    Player { grid_x: to.0, grid_y: to.1, ..p }
}

/// The last `n` elements of `s` (all of them when there are fewer).
pub open spec fn keep_last<T>(s: Seq<T>, n: nat) -> Seq<T> {
    if s.len() > n {
        s.subrange(s.len() - n, s.len() as int)
    } else {
        s
    }
}

/// The history after a command joins it: appended at the end, and the
/// oldest entry dropped when that makes it longer than `MAX_HISTORY`.
pub open spec fn history_push(h: Seq<Seq<char>>, cmd: Seq<char>) -> Seq<Seq<char>> {
    let p = h.push(cmd);
    if p.len() > MAX_HISTORY {
        p.drop_first()
    } else {
        p
    }
}

/// Whether `c` is printable ASCII other than space (`char::is_ascii_graphic`).
pub open spec fn is_ascii_graphic(c: char) -> bool {
    33 <= c as int <= 126
}

/// The developer console: visibility, the line being typed, command history
/// and recent output.
pub struct Console {
    /// Whether the console is currently visible.
    pub visible: bool,
    /// Current input buffer.
    pub input: String,
    /// Previously entered commands, oldest first.
    pub history: VecDeque<String>,
    /// Output lines to display, oldest first.
    pub output: VecDeque<String>,
    /// History navigation index (0 = not navigating, 1.. = position in history).
    pub history_index: usize,
}

impl Console {
    /// The navigation index points into the history.
    pub open spec fn wf(&self) -> bool {
        self.history_index <= self.history@.len()
    }

    pub fn new() -> (r: Self)
        ensures
            r.wf(),
            !r.visible,
            r.input@.len() == 0,
            r.history@.len() == 0,
            r.output@.len() == 0,
            r.history_index == 0,
    {
        Console {
            visible: false,
            input: String::new(),
            history: VecDeque::new(),
            output: VecDeque::new(),
            history_index: 0,
        }
    }

    /// Toggle visibility; opening the console clears the input line.
    pub fn toggle(&mut self)
        ensures
            final(self).visible == !old(self).visible,
            final(self).visible ==> final(self).input@.len() == 0 && final(self).history_index == 0,
            !final(self).visible ==> final(self).input == old(self).input && final(self).history_index
                == old(self).history_index,
            final(self).history == old(self).history,
            final(self).output == old(self).output,
    {
        self.visible = !self.visible;
        if self.visible {
            self.input = String::new();
            self.history_index = 0;
        }
    }

    /// Close the console and clear the input line.
    pub fn dismiss(&mut self)
        ensures
            !final(self).visible,
            final(self).input@.len() == 0,
            final(self).history_index == 0,
            final(self).history == old(self).history,
            final(self).output == old(self).output,
    {
        self.visible = false;
        self.input = String::new();
        self.history_index = 0;
    }

    /// Type a character: printable ASCII and space are appended, anything
    /// else is ignored.
    pub fn handle_char(&mut self, c: char)
        ensures
            (is_ascii_graphic(c) || c == ' ') ==> final(self).input@ == old(self).input@.push(c)
                && final(self).history_index == 0,
            !(is_ascii_graphic(c) || c == ' ') ==> final(self).input == old(self).input
                && final(self).history_index == old(self).history_index,
            final(self).visible == old(self).visible,
            final(self).history == old(self).history,
            final(self).output == old(self).output,
    {
        let code = crate::text::char_code(c);
        if (33 <= code && code <= 126) || c == ' ' {
            push_char(&mut self.input, c);
            self.history_index = 0;
        }
    }

    /// Delete the last character of the input line.
    pub fn handle_backspace(&mut self)
        ensures
            final(self).input@ == if old(self).input@.len() > 0 {
                old(self).input@.drop_last()
            } else {
                old(self).input@
            },
            final(self).history_index == 0,
            final(self).visible == old(self).visible,
            final(self).history == old(self).history,
            final(self).output == old(self).output,
    {
        pop_char(&mut self.input);
        self.history_index = 0;
    }

    /// Enter: a non-blank line, trimmed, joins the history (which keeps the
    /// last `MAX_HISTORY` commands); the input line is cleared.
    pub fn handle_enter(&mut self)
        ensures
            views(final(self).history@) == if trim_seq(old(self).input@).len() > 0 {
                history_push(views(old(self).history@), trim_seq(old(self).input@))
            } else {
                views(old(self).history@)
            },
            final(self).input@.len() == 0,
            final(self).history_index == 0,
            final(self).visible == old(self).visible,
            final(self).output == old(self).output,
    {
        let cmd = trim(self.input.as_str());
        let n = crate::text::chars_of(cmd.as_str()).len();
        if n > 0 {
            let ghost before = views(self.history@);
            self.history.push_back(cmd);
            assert(views(self.history@) =~= before.push(trim_seq(old(self).input@)));
            if self.history.len() > MAX_HISTORY {
                let ghost full = views(self.history@);
                self.history.pop_front();
                assert(views(self.history@) =~= full.drop_first());
            }
        }
        self.input = String::new();
        self.history_index = 0;
    }

    /// Up arrow: step back through the history and show that command.
    pub fn handle_up(&mut self)
        requires
            old(self).wf(),
        ensures
            final(self).wf(),
            old(self).history@.len() == 0 ==> *final(self) == *old(self),
            old(self).history@.len() > 0 ==> {
                let start = if old(self).history_index == 0 {
                    old(self).history@.len() as int
                } else {
                    old(self).history_index as int
                };
                let idx = if start > 1 {
                    start - 1
                } else {
                    start
                };
                &&& final(self).history_index == idx
                &&& final(self).input@ == old(self).history@[idx - 1]@
            },
            final(self).visible == old(self).visible,
            final(self).history == old(self).history,
            final(self).output == old(self).output,
    {
        if self.history.len() == 0 {
            return;
        }
        if self.history_index == 0 {
            self.history_index = self.history.len();
        }
        if self.history_index > 1 {
            self.history_index = self.history_index - 1;
        }
        self.input = self.history[self.history_index - 1].clone();
    }

    /// Down arrow: step forward through the history; past the newest command
    /// the input line is cleared and navigation ends.
    pub fn handle_down(&mut self)
        requires
            old(self).wf(),
        ensures
            final(self).wf(),
            old(self).history_index == 0 ==> *final(self) == *old(self),
            old(self).history_index != 0 && old(self).history_index < old(self).history@.len()
                ==> final(self).history_index == old(self).history_index + 1 && final(self).input@
                == old(self).history@[old(self).history_index as int]@,
            old(self).history_index != 0 && old(self).history_index >= old(self).history@.len()
                ==> final(self).history_index == 0 && final(self).input@.len() == 0,
            final(self).visible == old(self).visible,
            final(self).history == old(self).history,
            final(self).output == old(self).output,
    {
        if self.history_index == 0 {
            return;
        }
        if self.history_index < self.history.len() {
            self.history_index = self.history_index + 1;
            self.input = self.history[self.history_index - 1].clone();
        } else {
            self.history_index = 0;
            self.input = String::new();
        }
    }

    /// Run one input line: parse it, apply it to the players, the scene and
    /// the god-mode and FPS switches, record its answer in the output and
    /// return the command with its answer. `state_summary` is the answer to
    /// `state`. Moving the camera and the scene timers are left to the
    /// caller, which sees the returned command.
    pub fn execute(
        &mut self,
        input: &str,
        scene: &mut SceneFlow,
        player1: &mut Player,
        player2: &mut Player,
        god_mode: &mut bool,
        fps_visible: &mut bool,
        state_summary: Vec<String>,
    ) -> (r: (ConsoleCommand, Vec<String>))
        ensures
            parses_as(input@, r.0),
            *final(god_mode) == match r.0 {
                ConsoleCommand::God(a) => spec_god_after(a, *old(god_mode)),
                _ => *old(god_mode),
            },
            *final(fps_visible) == if r.0 is Fps {
                !*old(fps_visible)
            } else {
                *old(fps_visible)
            },
            *final(player1) == match r.0 {
                ConsoleCommand::P1(Some(p)) => teleported(*old(player1), p),
                _ => *old(player1),
            },
            *final(player2) == match r.0 {
                ConsoleCommand::P2(Some(p)) => teleported(*old(player2), p),
                _ => *old(player2),
            },
            final(scene).state == match r.0 {
                ConsoleCommand::Scene(t) => target_state(t),
                _ => old(scene).state,
            },
            final(scene).save_data == old(scene).save_data,
            final(scene).prev_state == old(scene).prev_state,
            final(scene).winner == old(scene).winner,
            final(scene).tutorial_visible == old(scene).tutorial_visible,
            final(scene).selected_episode_index == old(scene).selected_episode_index,
            final(scene).player_died_this_run == old(scene).player_died_this_run,
            final(scene).checkpoint_hit_this_run == old(scene).checkpoint_hit_this_run,
            final(scene).npc_seen_this_episode == old(scene).npc_seen_this_episode,
            final(scene).death_recap == old(scene).death_recap,
            views(r.1@) == if r.0 is State {
                views(state_summary@)
            } else {
                spec_command_output(r.0, *final(god_mode), *final(fps_visible))
            },
            final(self).visible == if r.0 is Exit {
                false
            } else {
                old(self).visible
            },
            (r.0 is Empty || r.0 is SceneMissing) ==> final(self).output == old(self).output,
            !(r.0 is Empty || r.0 is SceneMissing) ==> views(final(self).output@) == keep_last(
                views(old(self).output@) + views(r.1@),
                MAX_OUTPUT_LINES as nat,
            ),
            final(self).input == old(self).input,
            final(self).history == old(self).history,
            final(self).history_index == old(self).history_index,
    {
        let cmd = parse_command(input);
        match &cmd {
            ConsoleCommand::P1(Some((x, y))) => {
                player1.grid_x = *x;
                player1.grid_y = *y;
            },
            ConsoleCommand::P2(Some((x, y))) => {
                player2.grid_x = *x;
                player2.grid_y = *y;
            },
            ConsoleCommand::Scene(t) => {
                scene.state = scene_state_of(*t);
            },
            ConsoleCommand::God(a) => {
                *god_mode = god_after(a, *god_mode);
            },
            ConsoleCommand::Fps => {
                *fps_visible = !*fps_visible;
            },
            _ => {},
        }
        let lines = match &cmd {
            ConsoleCommand::State => state_summary,
            _ => command_output(&cmd, *god_mode, *fps_visible),
        };
        let lines = self.finish_command(&cmd, lines);
        (cmd, lines)
    }

    /// Finish a command: `exit` closes the console; the answer lines join the
    /// output, which keeps the last `MAX_OUTPUT_LINES` lines. Blank input and
    /// `scene` without a name leave the output as it is. Returns the lines.
    pub fn finish_command(&mut self, cmd: &ConsoleCommand, lines: Vec<String>) -> (r: Vec<String>)
        ensures
            r == lines,
            final(self).visible == if cmd is Exit {
                false
            } else {
                old(self).visible
            },
            (cmd is Empty || cmd is SceneMissing) ==> final(self).output == old(self).output,
            !(cmd is Empty || cmd is SceneMissing) ==> views(final(self).output@) == keep_last(
                views(old(self).output@) + views(lines@),
                MAX_OUTPUT_LINES as nat,
            ),
            final(self).input == old(self).input,
            final(self).history == old(self).history,
            final(self).history_index == old(self).history_index,
    {
        if let ConsoleCommand::Exit = cmd {
            self.visible = false;
        }
        match cmd {
            ConsoleCommand::Empty | ConsoleCommand::SceneMissing => {
                return lines;
            },
            _ => {},
        }
        let ghost start = views(self.output@);
        let mut i: usize = 0;
        while i < lines.len()
            invariant
                i <= lines@.len(),
                views(self.output@) == start + views(lines@).subrange(0, i as int),
                self.input == old(self).input,
                self.history == old(self).history,
                self.history_index == old(self).history_index,
                self.visible == if cmd is Exit {
                    false
                } else {
                    old(self).visible
                },
            decreases lines@.len() - i,
        {
            let l = lines[i].clone();
            let ghost prev = self.output@;
            self.output.push_back(l);
            proof {
                assert(self.output@ =~= prev.push(l));
                assert(views(self.output@) =~= views(prev).push(lines@[i as int]@));
                assert(views(lines@).subrange(0, i + 1) =~= views(lines@).subrange(0, i as int).push(
                    lines@[i as int]@,
                ));
            }
            i = i + 1;
        }
        assert(views(lines@).subrange(0, lines@.len() as int) =~= views(lines@));
        let ghost all = views(self.output@);
        while self.output.len() > MAX_OUTPUT_LINES
            invariant
                views(self.output@) == all.subrange(all.len() - self.output@.len(), all.len() as int),
                self.output@.len() <= all.len(),
                all.len() > MAX_OUTPUT_LINES ==> self.output@.len() >= MAX_OUTPUT_LINES,
                all.len() <= MAX_OUTPUT_LINES ==> self.output@.len() == all.len(),
                self.input == old(self).input,
                self.history == old(self).history,
                self.history_index == old(self).history_index,
                self.visible == if cmd is Exit {
                    false
                } else {
                    old(self).visible
                },
            decreases self.output@.len(),
        {
            let ghost before = views(self.output@);
            self.output.pop_front();
            assert(views(self.output@) =~= before.drop_first());
            assert(views(self.output@) =~= all.subrange(all.len() - self.output@.len(), all.len() as int));
        }
        assert(views(self.output@) =~= keep_last(all, MAX_OUTPUT_LINES as nat));
        lines
    }
}

/// A line whose only word is `god` in any letter case toggles god mode:
/// it parses as the toggle, god mode flips, and the answer is the single
/// line `God mode: ON` or `God mode: OFF` naming the new state
/// (`Console::execute` leaves the scene and the players as they were).
pub proof fn lemma_god_alone_toggles(input: Seq<char>, cmd: ConsoleCommand, god_mode: bool, fps_visible: bool)
    requires
        words_of(input).len() == 1,
        lowercase(words_of(input)[0]) == "god"@,
        parses_as(input, cmd),
    ensures
        cmd == ConsoleCommand::God(GodArg::Toggle),
        spec_god_after(GodArg::Toggle, god_mode) == !god_mode,
        spec_command_output(cmd, !god_mode, fps_visible) == seq!["God mode: "@ + on_off(!god_mode)],
{
    reveal_strlit("god");
    reveal_strlit("help");
    reveal_strlit("cam");
    reveal_strlit("p1");
    reveal_strlit("p2");
    reveal_strlit("scene");
    assert("god"@[0] == 'g');
    assert("help"@[0] == 'h');
    assert("cam"@[0] == 'c');
    assert("p1"@[0] == 'p');
    assert("p2"@[0] == 'p');
    assert("scene"@[0] == 's');
}

/// The console never shows more than `MAX_OUTPUT_LINES` output lines, and
/// a history of at most `MAX_HISTORY` commands stays within it when a
/// command joins.
pub proof fn lemma_console_bounded(out: Seq<Seq<char>>, lines: Seq<Seq<char>>, h: Seq<Seq<char>>, cmd: Seq<char>)
    ensures
        keep_last(out + lines, MAX_OUTPUT_LINES as nat).len() <= MAX_OUTPUT_LINES,
        h.len() <= MAX_HISTORY ==> history_push(h, cmd).len() <= MAX_HISTORY,
        history_push(h, cmd).last() == cmd,
{
}

} // verus!
