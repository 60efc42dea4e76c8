use hippowm::config::{
    action_binds, build_bindings, command_binds, default_actions, default_workspaces,
    default_x_actions, get_commands, parse_action, workspace_binds, Action, Command, WmAction,
};
use hippowm::startup::{join_auto_start, SpawnOnStartup};

#[test]
fn get_commands_defaults() {
    let commands = get_commands();
    assert_eq!(commands.len(), 2);
    assert_eq!(commands[0].bind, "M-Return");
    assert_eq!(commands[0].command, "kitty");
    assert_eq!(commands[1].bind, "M-p");
    assert_eq!(commands[1].command, "rofi -show drun");
}

#[test]
fn parse_action_is_case_insensitive() {
    assert_eq!(parse_action("kill"), Some(WmAction::Kill));
    assert_eq!(parse_action("KILL"), Some(WmAction::Kill));
    assert_eq!(parse_action("FocusNext"), Some(WmAction::FocusNext));
    assert_eq!(parse_action("focusprevious"), Some(WmAction::FocusPrevious));
    assert_eq!(parse_action("ToggleFullScreen"), Some(WmAction::ToggleFullScreen));
    assert_eq!(parse_action("SwapUp"), Some(WmAction::SwapUp));
    assert_eq!(parse_action("swapdown"), Some(WmAction::SwapDown));
    assert_eq!(parse_action("floatFocused"), Some(WmAction::FloatFocused));
    assert_eq!(parse_action("toggletag"), Some(WmAction::ToggleTag));
    assert_eq!(parse_action("NextLayout"), Some(WmAction::NextLayout));
    assert_eq!(parse_action("previouslayout"), Some(WmAction::PreviousLayout));
    assert_eq!(parse_action("IncMain"), Some(WmAction::IncMain));
    assert_eq!(parse_action("decmain"), Some(WmAction::DecMain));
    assert_eq!(parse_action("ExpandMain"), Some(WmAction::ExpandMain));
    assert_eq!(parse_action("shrmain"), Some(WmAction::ShrinkMain));
    // Names outside the table resolve to nothing.
    assert_eq!(parse_action("ExpMain"), None);
    assert_eq!(parse_action(""), None);
    assert_eq!(parse_action("focus next"), None);
}

#[test]
fn default_lists_match_configuration() {
    let actions = default_actions();
    assert_eq!(actions.len(), 1);
    assert_eq!(actions[0].bind, "M-S-q");
    assert_eq!(actions[0].action, "kill");

    let x_actions = default_x_actions();
    assert_eq!(x_actions.len(), 15);
    assert_eq!(x_actions[0].bind, "M-l");
    assert_eq!(x_actions[0].action, "focusNext");
    assert_eq!(x_actions[13].bind, "M-S-Right");
    assert_eq!(x_actions[13].action, "ExpMain");
    assert_eq!(x_actions[14].bind, "M-S-Up");
    assert_eq!(x_actions[14].action, "ShrMain");
}

#[test]
fn default_workspaces_are_digits() {
    let tags = default_workspaces();
    assert_eq!(tags.len(), 10);
    assert_eq!(tags[0], "1");
    assert_eq!(tags[8], "9");
    assert_eq!(tags[9], "0");
}

#[test]
fn workspace_binds_pair_focus_and_move() {
    let tags = default_workspaces();
    let binds = workspace_binds(&tags);
    assert_eq!(binds.len(), 20);
    assert_eq!(binds[0].bind, "M-1");
    assert_eq!(binds[0].tag, "1");
    assert!(!binds[0].moves_window);
    assert_eq!(binds[1].bind, "M-S-1");
    assert_eq!(binds[1].tag, "1");
    assert!(binds[1].moves_window);
    assert_eq!(binds[18].bind, "M-0");
    assert_eq!(binds[19].bind, "M-S-0");
}

#[test]
fn action_binds_drop_unknown_names() {
    let list = vec![
        Action { bind: "M-a".to_string(), action: "kill".to_string() },
        Action { bind: "M-b".to_string(), action: "nosuchaction".to_string() },
        Action { bind: "M-c".to_string(), action: "SWAPUP".to_string() },
    ];
    let binds = action_binds(&list);
    assert_eq!(binds.len(), 2);
    assert_eq!(binds[0].0, "M-a");
    assert_eq!(binds[0].1, WmAction::Kill);
    assert_eq!(binds[1].0, "M-c");
    assert_eq!(binds[1].1, WmAction::SwapUp);
}

#[test]
fn command_binds_keep_everything_in_order() {
    let list = vec![
        Command { bind: "M-Return".to_string(), command: "kitty".to_string() },
        Command { bind: "M-p".to_string(), command: "rofi".to_string() },
    ];
    let binds = command_binds(&list);
    assert_eq!(binds.len(), 2);
    assert_eq!(binds[0].0, "M-Return");
    assert_eq!(binds[0].1, "kitty");
    assert_eq!(binds[1].0, "M-p");
    assert_eq!(binds[1].1, "rofi");
}

#[test]
fn build_bindings_resolves_defaults() {
    let actions = default_actions();
    let x_actions = default_x_actions();
    let window_actions: Vec<Action> = vec![];
    let commands = get_commands();
    let x_commands: Vec<Command> = vec![];
    let window_commands: Vec<Command> = vec![];
    let (acts, cmds) = build_bindings(
        &actions,
        &x_actions,
        &window_actions,
        &commands,
        &x_commands,
        &window_commands,
    );
    // "FocusNextScreen", "FocusPreviousScreen" and "ExpMain" name no known
    // action, so three of the sixteen configured names drop out.
    assert_eq!(acts.len(), 13);
    assert_eq!(acts[0].0, "M-S-q");
    assert_eq!(acts[0].1, WmAction::Kill);
    assert_eq!(acts[1].0, "M-l");
    assert_eq!(acts[1].1, WmAction::FocusNext);
    assert_eq!(acts[12].0, "M-S-Up");
    assert_eq!(acts[12].1, WmAction::ShrinkMain);
    assert_eq!(cmds.len(), 2);
    assert_eq!(cmds[0].0, "M-Return");
    assert_eq!(cmds[0].1, "kitty");
}

#[test]
fn join_auto_start_separates_with_shell_and() {
    let none: Vec<String> = vec![];
    assert_eq!(join_auto_start(&none), "");
    let one = vec!["picom".to_string()];
    assert_eq!(join_auto_start(&one), "picom");
    let three = vec!["picom".to_string(), "nitrogen --restore".to_string(), "bar".to_string()];
    assert_eq!(join_auto_start(&three), "picom && nitrogen --restore && bar");
}

#[test]
fn spawn_on_startup_builds_shell_arguments() {
    let hook = SpawnOnStartup::new("picom && bar".to_string());
    assert_eq!(hook.command_line().as_str(), "picom && bar");
    let arguments = hook.arguments();
    assert_eq!(arguments.len(), 2);
    assert_eq!(arguments[0], "-c");
    assert_eq!(arguments[1], "picom && bar");
}
