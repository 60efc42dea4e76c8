//! Configuration data consumed at startup: default key bindings, default
//! workspace tags, the named actions a binding may invoke, and the assembly
//! of a fully resolved binding table from configuration lists.
//!
//! Action names are matched without regard to ASCII case; a name naming no
//! action is dropped, not an error.

use vstd::prelude::*;
use vstd::string::StringSliceAdditionalSpecFns;
use vstd::utf8::encode_utf8;

use crate::strings::eq_ignore_ascii;
use crate::strings::lower_bytes;

verus! {

/// A configured binding from a key chord to a named action.
#[derive(Default, Debug, Clone)]
pub struct Action {
    pub bind: String,
    pub action: String,
}

/// A configured binding from a key chord to a shell command.
#[derive(Default, Debug, Clone)]
pub struct Command {
    pub bind: String,
    pub command: String,
}

/// The built-in actions a binding may name.
#[derive(Clone, Copy, PartialEq, Eq, Structural, Debug)]
pub enum WmAction {
    Kill,
    FocusNext,
    FocusPrevious,
    ToggleFullScreen,
    SwapUp,
    SwapDown,
    FloatFocused,
    ToggleTag,
    NextLayout,
    PreviousLayout,
    IncMain,
    DecMain,
    ExpandMain,
    ShrinkMain,
}

/// Which action a configured name denotes, matched without regard to ASCII
/// case; an unknown name denotes none.
pub open spec fn spec_parse_action(s: Seq<char>) -> Option<WmAction> {
    let l = lower_bytes(encode_utf8(s));
    if l == lower_bytes("kill".spec_bytes()) {
        Some(WmAction::Kill)
    } else if l == lower_bytes("focusnext".spec_bytes()) {
        Some(WmAction::FocusNext)
    } else if l == lower_bytes("focusprevious".spec_bytes()) {
        Some(WmAction::FocusPrevious)
    } else if l == lower_bytes("togglefullscreen".spec_bytes()) {
        Some(WmAction::ToggleFullScreen)
    } else if l == lower_bytes("swapup".spec_bytes()) {
        Some(WmAction::SwapUp)
    } else if l == lower_bytes("swapdown".spec_bytes()) {
        Some(WmAction::SwapDown)
    } else if l == lower_bytes("floatfocused".spec_bytes()) {
        Some(WmAction::FloatFocused)
    } else if l == lower_bytes("toggletag".spec_bytes()) {
        Some(WmAction::ToggleTag)
    } else if l == lower_bytes("nextlayout".spec_bytes()) {
        Some(WmAction::NextLayout)
    } else if l == lower_bytes("previouslayout".spec_bytes()) {
        Some(WmAction::PreviousLayout)
    } else if l == lower_bytes("incmain".spec_bytes()) {
        Some(WmAction::IncMain)
    } else if l == lower_bytes("decmain".spec_bytes()) {
        Some(WmAction::DecMain)
    } else if l == lower_bytes("expandmain".spec_bytes()) {
        Some(WmAction::ExpandMain)
    } else if l == lower_bytes("shrmain".spec_bytes()) {
        Some(WmAction::ShrinkMain)
    } else {
        None
    }
}

/// Resolve a configured action name, without regard to ASCII case.
pub fn parse_action(action: &str) -> (r: Option<WmAction>)
    ensures
        r == spec_parse_action(action@),
{
    if eq_ignore_ascii(action, "kill") {
        Some(WmAction::Kill)
    } else if eq_ignore_ascii(action, "focusnext") {
        Some(WmAction::FocusNext)
    } else if eq_ignore_ascii(action, "focusprevious") {
        Some(WmAction::FocusPrevious)
    } else if eq_ignore_ascii(action, "togglefullscreen") {
        Some(WmAction::ToggleFullScreen)
    } else if eq_ignore_ascii(action, "swapup") {
        Some(WmAction::SwapUp)
    } else if eq_ignore_ascii(action, "swapdown") {
        Some(WmAction::SwapDown)
    } else if eq_ignore_ascii(action, "floatfocused") {
        Some(WmAction::FloatFocused)
    } else if eq_ignore_ascii(action, "toggletag") {
        Some(WmAction::ToggleTag)
    } else if eq_ignore_ascii(action, "nextlayout") {
        Some(WmAction::NextLayout)
    } else if eq_ignore_ascii(action, "previouslayout") {
        Some(WmAction::PreviousLayout)
    } else if eq_ignore_ascii(action, "incmain") {
        Some(WmAction::IncMain)
    } else if eq_ignore_ascii(action, "decmain") {
        Some(WmAction::DecMain)
    } else if eq_ignore_ascii(action, "expandmain") {
        Some(WmAction::ExpandMain)
    } else if eq_ignore_ascii(action, "shrmain") {
        Some(WmAction::ShrinkMain)
    } else {
        None
    }
}

/// The default command bindings: a terminal and a launcher.
pub fn get_commands() -> (r: Vec<Command>)
    ensures
        r@.len() == 2,
        r@[0].bind@ == "M-Return"@,
        r@[0].command@ == "kitty"@,
        r@[1].bind@ == "M-p"@,
        r@[1].command@ == "rofi -show drun"@,
{
    let mut r: Vec<Command> = Vec::new();
    r.push(
        Command { bind: String::from_str("M-Return"), command: String::from_str("kitty") },
    );
    r.push(
        Command {
            bind: String::from_str("M-p"),
            command: String::from_str("rofi -show drun"),
        },
    );
    r
}

/// The bind and action name of each default window action.
pub open spec fn spec_default_actions() -> Seq<(Seq<char>, Seq<char>)> {
    seq![("M-S-q"@, "kill"@)]
}

/// The default window actions.
pub fn default_actions() -> (r: Vec<Action>)
    ensures
        r@.len() == spec_default_actions().len(),
        forall|k: int|
            0 <= k < r@.len() ==> (#[trigger] r@[k]).bind@ == spec_default_actions()[k].0
                && r@[k].action@ == spec_default_actions()[k].1,
{
    let mut r: Vec<Action> = Vec::new();
    r.push(Action { bind: String::from_str("M-S-q"), action: String::from_str("kill") });
    r
}

/// The bind and action name of each default display-wide action.
pub open spec fn spec_default_x_actions() -> Seq<(Seq<char>, Seq<char>)> {
    seq![
        ("M-l"@, "focusNext"@),
        ("M-h"@, "focusPrevious"@),
        ("M-f"@, "ToggleFullScreen"@),
        ("M-S-k"@, "SwapUp"@),
        ("M-S-j"@, "SwapDown"@),
        ("M-S-f"@, "floatfocused"@),
        ("M-Tab"@, "ToggleTag"@),
        ("M-bracketright"@, "FocusNextScreen"@),
        ("M-bracketleft"@, "FocusPreviousScreen"@),
        ("M-grave"@, "NextLayout"@),
        ("M-S-grave"@, "PreviousLayout"@),
        ("M-S-Up"@, "IncMain"@),
        ("M-S-Down"@, "DecMain"@),
        ("M-S-Right"@, "ExpMain"@),
        ("M-S-Up"@, "ShrMain"@),
    ]
}

/// The default display-wide actions, in configuration order.
pub fn default_x_actions() -> (r: Vec<Action>)
    ensures
        r@.len() == spec_default_x_actions().len(),
        forall|k: int|
            0 <= k < r@.len() ==> (#[trigger] r@[k]).bind@ == spec_default_x_actions()[k].0
                && r@[k].action@ == spec_default_x_actions()[k].1,
{
    let mut r: Vec<Action> = Vec::new();
    r.push(Action { bind: String::from_str("M-l"), action: String::from_str("focusNext") });
    r.push(Action { bind: String::from_str("M-h"), action: String::from_str("focusPrevious") });
    r.push(Action { bind: String::from_str("M-f"), action: String::from_str("ToggleFullScreen") });
    r.push(Action { bind: String::from_str("M-S-k"), action: String::from_str("SwapUp") });
    r.push(Action { bind: String::from_str("M-S-j"), action: String::from_str("SwapDown") });
    r.push(Action { bind: String::from_str("M-S-f"), action: String::from_str("floatfocused") });
    r.push(Action { bind: String::from_str("M-Tab"), action: String::from_str("ToggleTag") });
    r.push(
        Action {
            bind: String::from_str("M-bracketright"),
            action: String::from_str("FocusNextScreen"),
        },
    );
    r.push(
        Action {
            bind: String::from_str("M-bracketleft"),
            action: String::from_str("FocusPreviousScreen"),
        },
    );
    r.push(Action { bind: String::from_str("M-grave"), action: String::from_str("NextLayout") });
    r.push(
        Action { bind: String::from_str("M-S-grave"), action: String::from_str("PreviousLayout") },
    );
    r.push(Action { bind: String::from_str("M-S-Up"), action: String::from_str("IncMain") });
    r.push(Action { bind: String::from_str("M-S-Down"), action: String::from_str("DecMain") });
    r.push(Action { bind: String::from_str("M-S-Right"), action: String::from_str("ExpMain") });
    r.push(Action { bind: String::from_str("M-S-Up"), action: String::from_str("ShrMain") });
    r
}

/// The tag of each default workspace: the digits one to nine, then zero.
pub open spec fn spec_workspace_tags() -> Seq<Seq<char>> {
    seq!["1"@, "2"@, "3"@, "4"@, "5"@, "6"@, "7"@, "8"@, "9"@, "0"@]
}

/// The default workspace tags, in order.
pub fn default_workspaces() -> (r: Vec<String>)
    ensures
        r@.len() == spec_workspace_tags().len(),
        forall|k: int| 0 <= k < r@.len() ==> (#[trigger] r@[k])@ == spec_workspace_tags()[k],
{
    let mut r: Vec<String> = Vec::new();
    r.push(String::from_str("1"));
    r.push(String::from_str("2"));
    r.push(String::from_str("3"));
    r.push(String::from_str("4"));
    r.push(String::from_str("5"));
    r.push(String::from_str("6"));
    r.push(String::from_str("7"));
    r.push(String::from_str("8"));
    r.push(String::from_str("9"));
    r.push(String::from_str("0"));
    r
}

/// A workspace binding: focus the tag, or move the focused window to it.
#[derive(Debug, Clone)]
pub struct WorkspaceBind {
    pub bind: String,
    pub tag: String,
    pub moves_window: bool,
}

/// For each tag, two bindings: focus on the bare chord, move on the shifted
/// chord.
pub fn workspace_binds(tags: &Vec<String>) -> (r: Vec<WorkspaceBind>)
    ensures
        r@.len() == 2 * tags@.len(),
        forall|k: int|
            0 <= k < tags@.len() ==> {
                &&& (#[trigger] r@[2 * k]).bind@ == "M-"@ + tags@[k]@
                &&& r@[2 * k].tag@ == tags@[k]@
                &&& !r@[2 * k].moves_window
                &&& r@[2 * k + 1].bind@ == "M-S-"@ + tags@[k]@
                &&& r@[2 * k + 1].tag@ == tags@[k]@
                &&& r@[2 * k + 1].moves_window
            },
{
    let mut r: Vec<WorkspaceBind> = Vec::new();
    let n = tags.len();
    let mut i: usize = 0;
    while i < n
        invariant
            n == tags@.len(),
            0 <= i <= n,
            r@.len() == 2 * i,
            forall|k: int|
                0 <= k < i ==> {
                    &&& (#[trigger] r@[2 * k]).bind@ == "M-"@ + tags@[k]@
                    &&& r@[2 * k].tag@ == tags@[k]@
                    &&& !r@[2 * k].moves_window
                    &&& r@[2 * k + 1].bind@ == "M-S-"@ + tags@[k]@
                    &&& r@[2 * k + 1].tag@ == tags@[k]@
                    &&& r@[2 * k + 1].moves_window
                },
        decreases n - i,
    {
        let tag = &tags[i];
        let focus_bind = String::from_str("M-").concat(tag.as_str());
        let move_bind = String::from_str("M-S-").concat(tag.as_str());
        r.push(WorkspaceBind { bind: focus_bind, tag: tag.clone(), moves_window: false });
        r.push(WorkspaceBind { bind: move_bind, tag: tag.clone(), moves_window: true });
        i += 1;
    }
    r
}

/// The key chords bound to actions by a list of configured `Action` entries,
/// in order, names that resolve to no action dropped.
pub open spec fn spec_action_binds(s: Seq<Action>) -> Seq<(Seq<char>, WmAction)>
    decreases s.len(),
{
    if s.len() == 0 {
        Seq::empty()
    } else {
        spec_action_binds(s.drop_last()) + match spec_parse_action(s.last().action@) {
            Some(a) => seq![(s.last().bind@, a)],
            None => Seq::empty(),
        }
    }
}

/// Resolve a list of configured action bindings, dropping unknown names.
pub fn action_binds(list: &Vec<Action>) -> (r: Vec<(String, WmAction)>)
    ensures
        r@.map_values(|p: (String, WmAction)| (p.0@, p.1)) == spec_action_binds(list@),
{
    let mut r: Vec<(String, WmAction)> = Vec::new();
    let n = list.len();
    let mut i: usize = 0;
    while i < n
        invariant
            n == list@.len(),
            0 <= i <= n,
            r@.map_values(|p: (String, WmAction)| (p.0@, p.1)) == spec_action_binds(
                list@.take(i as int),
            ),
        decreases n - i,
    {
        let ghost prefix = list@.take(i as int);
        match parse_action(list[i].action.as_str()) {
            Some(a) => {
                r.push((list[i].bind.clone(), a));
            },
            None => {},
        }
        proof {
            assert(list@.take(i + 1 as int).drop_last() =~= prefix);
            assert(list@.take(i + 1 as int).last() == list@[i as int]);
            assert(r@.map_values(|p: (String, WmAction)| (p.0@, p.1)) =~= spec_action_binds(
                list@.take(i + 1 as int),
            ));
        }
        i += 1;
    }
    proof {
        assert(list@.take(n as int) =~= list@);
    }
    r
}

/// The key chords bound to shell commands by a list of configured `Command`
/// entries, in order.
pub open spec fn spec_command_binds(s: Seq<Command>) -> Seq<(Seq<char>, Seq<char>)>
    decreases s.len(),
{
    if s.len() == 0 {
        Seq::empty()
    } else {
        spec_command_binds(s.drop_last()) + seq![(s.last().bind@, s.last().command@)]
    }
}

/// Resolve a list of configured command bindings.
pub fn command_binds(list: &Vec<Command>) -> (r: Vec<(String, String)>)
    ensures
        r@.map_values(|p: (String, String)| (p.0@, p.1@)) == spec_command_binds(list@),
{
    let mut r: Vec<(String, String)> = Vec::new();
    let n = list.len();
    let mut i: usize = 0;
    while i < n
        invariant
            n == list@.len(),
            0 <= i <= n,
            r@.map_values(|p: (String, String)| (p.0@, p.1@)) == spec_command_binds(
                list@.take(i as int),
            ),
        decreases n - i,
    {
        let ghost prefix = list@.take(i as int);
        r.push((list[i].bind.clone(), list[i].command.clone()));
        proof {
            assert(list@.take(i + 1 as int).drop_last() =~= prefix);
            assert(list@.take(i + 1 as int).last() == list@[i as int]);
            assert(r@.map_values(|p: (String, String)| (p.0@, p.1@)) =~= spec_command_binds(
                list@.take(i + 1 as int),
            ));
        }
        i += 1;
    }
    proof {
        assert(list@.take(n as int) =~= list@);
    }
    r
}

/// Assemble the whole binding table from a configuration snapshot: the three
/// action lists resolved in order, then the three command lists, exactly as
/// the configuration orders them.
pub fn build_bindings(
    actions: &Vec<Action>,
    x_actions: &Vec<Action>,
    window_actions: &Vec<Action>,
    commands: &Vec<Command>,
    x_commands: &Vec<Command>,
    window_commands: &Vec<Command>,
) -> (r: (Vec<(String, WmAction)>, Vec<(String, String)>))
    ensures
        r.0@.map_values(|p: (String, WmAction)| (p.0@, p.1)) == spec_action_binds(actions@)
            + spec_action_binds(x_actions@) + spec_action_binds(window_actions@),
        r.1@.map_values(|p: (String, String)| (p.0@, p.1@)) == spec_command_binds(commands@)
            + spec_command_binds(x_commands@) + spec_command_binds(window_commands@),
{
    let mut acts = action_binds(actions);
    let mut acts2 = action_binds(x_actions);
    let mut acts3 = action_binds(window_actions);
    let mut cmds = command_binds(commands);
    let mut cmds2 = command_binds(x_commands);
    let mut cmds3 = command_binds(window_commands);
    acts.append(&mut acts2);
    acts.append(&mut acts3);
    cmds.append(&mut cmds2);
    cmds.append(&mut cmds3);
    proof {
        assert(acts@.map_values(|p: (String, WmAction)| (p.0@, p.1)) =~= spec_action_binds(
            actions@,
        ) + spec_action_binds(x_actions@) + spec_action_binds(window_actions@));
        assert(cmds@.map_values(|p: (String, String)| (p.0@, p.1@)) =~= spec_command_binds(
            commands@,
        ) + spec_command_binds(x_commands@) + spec_command_binds(window_commands@));
    }
    (acts, cmds)
}

} // verus!
