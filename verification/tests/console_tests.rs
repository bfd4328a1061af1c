use voxparty::console::{
    command_output, parse_command, Console, ConsoleCommand, GodArg, SceneTarget, MAX_HISTORY,
    MAX_OUTPUT_LINES,
};
use voxparty::player::Player;
use voxparty::scene::{SaveData, SceneFlow, SceneState};

fn type_line(c: &mut Console, s: &str) {
    for ch in s.chars() {
        c.handle_char(ch);
    }
}

#[test]
fn parse_commands() {
    assert!(matches!(parse_command("   "), ConsoleCommand::Empty));
    assert!(matches!(parse_command("HELP"), ConsoleCommand::Help));
    assert!(matches!(parse_command("cam 3 -4"), ConsoleCommand::Cam(Some((3, -4)))));
    assert!(matches!(parse_command("cam 3"), ConsoleCommand::Cam(None)));
    assert!(matches!(parse_command("p1 x 2"), ConsoleCommand::P1(None)));
    assert!(matches!(parse_command("P2 7 8 9"), ConsoleCommand::P2(Some((7, 8)))));
    assert!(matches!(parse_command("scene"), ConsoleCommand::SceneMissing));
    assert!(matches!(parse_command("scene GameOver"), ConsoleCommand::Scene(SceneTarget::GameOver)));
    assert!(matches!(parse_command("scene lobby"), ConsoleCommand::SceneUnknown(s) if s == "lobby"));
    assert!(matches!(parse_command("god"), ConsoleCommand::God(GodArg::Toggle)));
    assert!(matches!(parse_command("god on"), ConsoleCommand::God(GodArg::On)));
    assert!(matches!(parse_command("god ON"), ConsoleCommand::God(GodArg::Invalid(s)) if s == "ON"));
    assert!(matches!(parse_command("fps"), ConsoleCommand::Fps));
    assert!(matches!(parse_command("Exit"), ConsoleCommand::Exit));
    assert!(matches!(parse_command("warp 1"), ConsoleCommand::Unknown(s) if s == "warp"));
}

#[test]
fn command_answers() {
    assert_eq!(command_output(&ConsoleCommand::Cam(Some((3, -4))), false, false), vec!["Camera teleported to (3, -4)"]);
    assert_eq!(command_output(&ConsoleCommand::P1(None), false, false), vec!["Usage: p1 <gx> <gy>"]);
    assert_eq!(command_output(&ConsoleCommand::God(GodArg::Toggle), true, false), vec!["God mode: ON"]);
    assert_eq!(command_output(&ConsoleCommand::Fps, false, false), vec!["FPS display: OFF"]);
    assert_eq!(command_output(&ConsoleCommand::Help, false, false).len(), 11);
    assert_eq!(
        command_output(&ConsoleCommand::Unknown("warp".to_string()), false, false),
        vec!["unknown command: warp", "Type 'help' for available commands"]
    );
}

#[test]
fn execute_applies_effects() {
    let mut c = Console::new();
    c.toggle();
    let mut scene = SceneFlow::new(SaveData::new());
    let mut p1 = Player::new(1, 0, 0);
    let mut p2 = Player::new(2, 1, 1);
    let mut god = false;
    let mut fps = false;
    let (_, out) = c.execute("p1 5 6", &mut scene, &mut p1, &mut p2, &mut god, &mut fps, vec![]);
    assert_eq!(out, vec!["Player 1 teleported to (5, 6)"]);
    assert_eq!((p1.grid_x, p1.grid_y), (5, 6));
    assert_eq!((p2.grid_x, p2.grid_y), (1, 1));
    let (_, out) = c.execute("god", &mut scene, &mut p1, &mut p2, &mut god, &mut fps, vec![]);
    assert!(god);
    assert_eq!(out, vec!["God mode: ON"]);
    let (_, out) = c.execute("scene paused", &mut scene, &mut p1, &mut p2, &mut god, &mut fps, vec![]);
    assert_eq!(scene.state, SceneState::Paused);
    assert_eq!(out, vec!["Scene: Paused"]);
    let (_, out) = c.execute("fps", &mut scene, &mut p1, &mut p2, &mut god, &mut fps, vec![]);
    assert!(fps);
    assert_eq!(out, vec!["FPS display: ON"]);
    let (_, out) = c.execute("state", &mut scene, &mut p1, &mut p2, &mut god, &mut fps, vec!["=== Game State ===".to_string()]);
    assert_eq!(out, vec!["=== Game State ==="]);
    let (cmd, _) = c.execute("exit", &mut scene, &mut p1, &mut p2, &mut god, &mut fps, vec![]);
    assert!(matches!(cmd, ConsoleCommand::Exit));
    assert!(!c.visible);
    assert_eq!(c.output.back().unwrap(), "Console closed");
}

#[test]
fn execute_blank_and_bare_scene_leave_output() {
    let mut c = Console::new();
    let mut scene = SceneFlow::new(SaveData::new());
    let mut p1 = Player::new(1, 0, 0);
    let mut p2 = Player::new(2, 0, 0);
    let (mut god, mut fps) = (false, false);
    let (_, out) = c.execute("scene", &mut scene, &mut p1, &mut p2, &mut god, &mut fps, vec![]);
    assert_eq!(out.len(), 2);
    assert!(c.output.is_empty());
    let (_, out) = c.execute("  ", &mut scene, &mut p1, &mut p2, &mut god, &mut fps, vec![]);
    assert!(out.is_empty());
    assert!(c.output.is_empty());
}

#[test]
fn output_keeps_last_twenty_lines() {
    let mut c = Console::new();
    let mut scene = SceneFlow::new(SaveData::new());
    let mut p1 = Player::new(1, 0, 0);
    let mut p2 = Player::new(2, 0, 0);
    let (mut god, mut fps) = (false, false);
    c.execute("help", &mut scene, &mut p1, &mut p2, &mut god, &mut fps, vec![]);
    c.execute("help", &mut scene, &mut p1, &mut p2, &mut god, &mut fps, vec![]);
    assert_eq!(c.output.len(), MAX_OUTPUT_LINES);
    assert_eq!(c.output.back().unwrap(), "  exit              - Close console");
}

#[test]
fn line_editing_and_history() {
    let mut c = Console::new();
    c.toggle();
    type_line(&mut c, "  help \u{7}");
    assert_eq!(c.input, "  help ");
    c.handle_backspace();
    c.handle_enter();
    assert_eq!(c.input, "");
    assert_eq!(c.history.back().unwrap(), "help");
    type_line(&mut c, "fps");
    c.handle_enter();
    // The first press steps from the end of the history and shows the
    // command before the newest; the index never drops below 1.
    c.handle_up();
    assert_eq!(c.input, "help");
    c.handle_up();
    assert_eq!(c.input, "help");
    c.handle_down();
    assert_eq!(c.input, "fps");
    c.handle_down();
    assert_eq!(c.input, "");
    c.handle_enter();
    assert_eq!(c.history.len(), 2);
}

#[test]
fn history_is_capped() {
    let mut c = Console::new();
    for i in 0..60 {
        type_line(&mut c, &format!("cmd{}", i));
        c.handle_enter();
    }
    assert_eq!(c.history.len(), MAX_HISTORY);
    assert_eq!(c.history.front().unwrap(), "cmd10");
    c.dismiss();
    assert!(!c.visible);
}
