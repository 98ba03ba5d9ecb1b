use barcore::curve::{Line, Segment, Vec2};
use barcore::network::Network;
use barcore::renderer::Renderable;
use barcore::state::{network_item, network_line, shorten, workspace_item, Message, State};
use barcore::sway::{
    find_workspace, remove_workspace, workspace_event, Change, EventError, SwayMessage,
    Workspace, WorkspaceFromNodeError, WorkspaceNode,
};
use swayipc::Rect;

fn workspace(id: i64, num: i32, name: &str) -> Workspace {
    Workspace {
        id,
        num,
        name: Some(name.to_string()),
        layout: "splith".to_string(),
        visible: false,
        focused: false,
        urgent: false,
        representation: None,
        orientation: "none".to_string(),
        rect: Rect::default(),
        output: "eDP-1".to_string(),
        focus: vec![],
    }
}

fn add(state: &mut State, id: i64, num: i32, name: &str) {
    state.update(Message::Sway(SwayMessage::WorkspaceAdd(workspace(id, num, name))));
}

fn ids(state: &State) -> Vec<i64> {
    state.workspaces.iter().map(|w| w.id).collect()
}

#[test]
fn new_state_is_empty() {
    let state = State::new();
    assert!(state.workspaces.is_empty());
    assert!(state.segments.is_empty());
    assert!(state.networks.is_empty());
    assert_eq!(state.focused_window_name, None);
    assert_eq!(state.press_position, Vec2 { x: 0, y: 0 });
}

#[test]
fn workspaces_are_kept_in_order_of_their_numbers() {
    let mut state = State::new();
    add(&mut state, 10, 3, "3");
    add(&mut state, 11, 1, "1");
    add(&mut state, 12, 2, "2");
    add(&mut state, 13, 1, "1b");
    add(&mut state, 14, -1, "mail");
    assert_eq!(ids(&state), vec![14, 11, 13, 12, 10]);
}

#[test]
fn deleted_workspace_leaves_the_others_in_order() {
    let mut state = State::new();
    for (id, num) in [(1, 1), (2, 2), (3, 3), (2, 4)] {
        add(&mut state, id, num, "w");
    }
    state.update(Message::Sway(SwayMessage::WorkspaceDel(2)));
    assert_eq!(ids(&state), vec![1, 3]);
    state.update(Message::Sway(SwayMessage::WorkspaceDel(9)));
    assert_eq!(ids(&state), vec![1, 3]);
}

#[test]
fn changes_reach_the_first_workspace_with_the_identifier() {
    let mut state = State::new();
    for (id, num) in [(1, 1), (2, 2), (2, 3)] {
        add(&mut state, id, num, "w");
    }
    state.update(Message::Sway(SwayMessage::WorkspaceChangeFocus {
        id: 2,
        focus: vec![5, 6],
        focused: true,
    }));
    state.update(Message::Sway(SwayMessage::WorkspaceRename { id: 2, name: None }));
    state.update(Message::Sway(SwayMessage::WorkspaceChangeUrgency { id: 2, urgent: true }));
    state.update(Message::Sway(SwayMessage::WorkspaceChangeVisiblity { id: 2, visible: true }));
    let w = &state.workspaces[1];
    assert_eq!((w.focus.clone(), w.focused, w.name.clone(), w.urgent, w.visible),
        (vec![5, 6], true, None, true, true));
    let untouched = &state.workspaces[2];
    assert_eq!(untouched.id, 2);
    assert_eq!(
        (untouched.focus.clone(), untouched.focused, untouched.name.clone(), untouched.urgent,
            untouched.visible),
        (vec![], false, Some("w".to_string()), false, false)
    );
    assert_eq!(state.workspaces[0].name, Some("w".to_string()));
    state.update(Message::Sway(SwayMessage::WorkspaceChangeUrgency { id: 7, urgent: true }));
    assert!(!state.workspaces[0].urgent);
    assert_eq!(ids(&state), vec![1, 2, 2]);
}

#[test]
fn focused_window_and_networks_are_replaced() {
    let mut state = State::new();
    state.update(Message::Sway(SwayMessage::WindowFocusedChange {
        window_name: Some("editor".to_string()),
    }));
    assert_eq!(state.focused_window_name, Some("editor".to_string()));
    state.update(Message::Sway(SwayMessage::WindowFocusedChange { window_name: None }));
    assert_eq!(state.focused_window_name, None);
    state.update(Message::Network(vec![Network::Network {
        if_index: 1,
        name: "lo".to_string(),
        up: 1,
        down: 2,
        up_rate: 0,
        down_rate: 0,
    }]));
    assert_eq!(state.networks.len(), 1);
    state.update(Message::Network(vec![]));
    assert!(state.networks.is_empty());
}

#[test]
fn release_draws_a_line_from_the_last_press() {
    let mut state = State::new();
    let a = Vec2 { x: 1.0f32.to_bits(), y: 2.0f32.to_bits() };
    let b = Vec2 { x: 3.0f32.to_bits(), y: 4.0f32.to_bits() };
    let c = Vec2 { x: 5.0f32.to_bits(), y: 6.0f32.to_bits() };
    state.update(Message::PointerPress { pos: a });
    assert_eq!(state.press_position, a);
    assert!(state.segments.is_empty());
    state.update(Message::PointerRelease { pos: b });
    state.update(Message::PointerRelease { pos: c });
    assert_eq!(state.press_position, a);
    assert_eq!(state.segments, vec![Segment::LINE(Line(a, b)), Segment::LINE(Line(a, c))]);
}

#[test]
fn finding_and_removing_by_identifier() {
    let mut ws = vec![workspace(4, 1, "a"), workspace(5, 2, "b"), workspace(4, 3, "c")];
    assert_eq!(find_workspace(&ws, 4), Some(0));
    assert_eq!(find_workspace(&ws, 5), Some(1));
    assert_eq!(find_workspace(&ws, 6), None);
    remove_workspace(&mut ws, 4);
    assert_eq!(ws.len(), 1);
    assert_eq!(ws[0].id, 5);
    remove_workspace(&mut ws, 5);
    assert!(ws.is_empty());
    remove_workspace(&mut ws, 5);
    assert!(ws.is_empty());
}

fn node(num: Option<i32>, visible: Option<bool>, output: Option<&str>) -> WorkspaceNode {
    WorkspaceNode {
        id: 42,
        num,
        name: Some("web".to_string()),
        layout: "tabbed".to_string(),
        visible,
        focused: true,
        focus: vec![1, 2],
        urgent: true,
        representation: Some("T[a b]".to_string()),
        rect: Rect::default(),
        output: output.map(|s| s.to_string()),
    }
}

#[test]
fn node_with_an_output_is_a_workspace() {
    let w = Workspace::try_from(node(Some(3), Some(true), Some("HDMI-1"))).unwrap();
    assert_eq!((w.id, w.num, w.visible, w.focused, w.urgent), (42, 3, true, true, true));
    assert_eq!(w.name, Some("web".to_string()));
    assert_eq!(w.layout, "tabbed");
    assert_eq!(w.orientation, "none");
    assert_eq!(w.output, "HDMI-1");
    assert_eq!(w.focus, vec![1, 2]);
    assert_eq!(w.representation, Some("T[a b]".to_string()));
    let w = Workspace::try_from(node(None, None, Some("HDMI-1"))).unwrap();
    assert_eq!((w.num, w.visible), (-1, false));
}

#[test]
fn node_without_an_output_is_refused() {
    let r = Workspace::try_from(node(Some(3), Some(true), None));
    assert_eq!(r.err(), Some(WorkspaceFromNodeError::NoOutput));
}

fn texts(items: &Vec<Renderable>) -> Vec<String> {
    items
        .iter()
        .map(|item| match item {
            Renderable::Text { text, fg, bg } => format!("{text}|{fg:08x}|{bg:08x}"),
            Renderable::Space(w) => format!("space {}", f32::from_bits(*w)),
            Renderable::Box { .. } => "box".to_string(),
        })
        .collect()
}

#[test]
fn names_over_thirty_bytes_are_cut_at_a_character() {
    assert_eq!(shorten(""), "");
    assert_eq!(shorten("short"), "short");
    let thirty = "abcdefghijklmnopqrstuvwxyz0123";
    assert_eq!(shorten(thirty), thirty);
    assert_eq!(shorten("abcdefghijklmnopqrstuvwxyz01234"), "abcdefghijklmnopqrstuvwxyz0123...");
    // 29 bytes, then a character of two bytes that would end at byte 31.
    assert_eq!(
        shorten("abcdefghijklmnopqrstuvwxyz012\u{e9}x"),
        "abcdefghijklmnopqrstuvwxyz012..."
    );
    // Ten characters of three bytes are exactly thirty bytes.
    let ten = "\u{4e2d}".repeat(10);
    assert_eq!(shorten(&ten), ten);
    let eleven = "\u{4e2d}".repeat(11);
    assert_eq!(shorten(&eleven), format!("{ten}..."));
    // Seven characters of four bytes fit, the eighth does not.
    let eight = "\u{1f600}".repeat(8);
    assert_eq!(shorten(&eight), format!("{}...", "\u{1f600}".repeat(7)));
}

#[test]
fn workspace_items_show_name_or_number() {
    let mut named = workspace(1, 4, "web");
    assert_eq!(texts(&vec![workspace_item(&named)]), vec!["web|ff111111|ff000000"]);
    named.visible = true;
    assert_eq!(texts(&vec![workspace_item(&named)]), vec!["web|ffffffff|ff111111"]);
    named.name = None;
    assert_eq!(texts(&vec![workspace_item(&named)]), vec!["4|ffffffff|00000000"]);
    named.num = -1;
    assert_eq!(texts(&vec![workspace_item(&named)]), vec!["-1|ffffffff|00000000"]);
    named.num = i32::MIN;
    assert_eq!(texts(&vec![workspace_item(&named)]), vec!["-2147483648|ffffffff|00000000"]);
}

#[test]
fn network_items_show_rates_and_skip_loopback() {
    assert_eq!(network_line("eth0", 2048, 0), "eth0    2 KiB/s\u{2193}      0 B/s\u{2191}");
    let lo = Network::Network {
        if_index: 1,
        name: "lo".to_string(),
        up: 0,
        down: 0,
        up_rate: 5,
        down_rate: 5,
    };
    assert!(network_item(&lo).is_none());
    let wifi_lo = Network::Wifi {
        if_index: 2,
        if_name: "lo".to_string(),
        ssid: Some("lo".to_string()),
        up: 0,
        down: 0,
        up_rate: 1,
        down_rate: 1025,
    };
    assert_eq!(
        texts(&vec![network_item(&wifi_lo).unwrap()]),
        vec!["lo      1 B/s\u{2193}    1 KiB/s\u{2191}|ffffffff|00000000"]
    );
    let hidden = Network::Wifi {
        if_index: 2,
        if_name: "wlan0".to_string(),
        ssid: None,
        up: 0,
        down: 0,
        up_rate: 0,
        down_rate: 0,
    };
    assert_eq!(
        texts(&vec![network_item(&hidden).unwrap()]),
        vec!["      0 B/s\u{2193}      0 B/s\u{2191}|ffffffff|00000000"]
    );
}

#[test]
fn state_is_drawn_in_three_parts() {
    let mut state = State::new();
    let drawn = state.to_renderable_state();
    assert_eq!(texts(&drawn.left), vec!["space 1", "space 1"]);
    assert!(drawn.center.is_empty());
    assert!(drawn.right.is_empty());

    add(&mut state, 1, 2, "two");
    add(&mut state, 2, 1, "one");
    state.update(Message::Sway(SwayMessage::WorkspaceChangeVisiblity { id: 1, visible: true }));
    state.update(Message::Sway(SwayMessage::WorkspaceRename { id: 2, name: None }));
    state.update(Message::Sway(SwayMessage::WindowFocusedChange {
        window_name: Some("a window with a title that is rather long".to_string()),
    }));
    state.update(Message::Network(vec![
        Network::Network {
            if_index: 1,
            name: "lo".to_string(),
            up: 0,
            down: 0,
            up_rate: 0,
            down_rate: 0,
        },
        Network::Network {
            if_index: 2,
            name: "eth0".to_string(),
            up: 0,
            down: 0,
            up_rate: 1024,
            down_rate: 3 * 1024 * 1024,
        },
    ]));
    let drawn = state.to_renderable_state();
    assert_eq!(
        texts(&drawn.left),
        vec![
            "1|ffffffff|00000000",
            "space 1",
            "two|ffffffff|ff111111",
            "space 1",
            "space 1",
            "space 1"
        ]
    );
    assert_eq!(texts(&drawn.center), vec!["a window with a title that is ...|ffffffff|00000000"]);
    assert_eq!(
        texts(&drawn.right),
        vec!["eth0   1024 B/s\u{2193}    3 MiB/s\u{2191}|ffffffff|00000000", "space 1"]
    );
}

fn said(messages: &Vec<SwayMessage>) -> Vec<String> {
    messages
        .iter()
        .map(|m| match m {
            SwayMessage::WorkspaceAdd(w) => format!("add {} {} {}", w.id, w.num, w.output),
            SwayMessage::WorkspaceDel(id) => format!("del {id}"),
            SwayMessage::WorkspaceChangeFocus { id, focus, focused } => {
                format!("focus {id} {focus:?} {focused}")
            }
            SwayMessage::WorkspaceRename { id, name } => format!("rename {id} {name:?}"),
            SwayMessage::WorkspaceChangeUrgency { id, urgent } => format!("urgent {id} {urgent}"),
            SwayMessage::WorkspaceChangeVisiblity { id, visible } => {
                format!("visible {id} {visible}")
            }
            SwayMessage::WindowFocusedChange { window_name } => format!("window {window_name:?}"),
        })
        .collect()
}

fn other_node() -> WorkspaceNode {
    let mut n = node(Some(1), None, Some("HDMI-1"));
    n.id = 7;
    n.focus = vec![];
    n.focused = false;
    n.urgent = false;
    n
}

#[test]
fn created_workspace_is_added() {
    let out = workspace_event(Change::Init, Some(node(Some(3), None, Some("DP-1"))), None);
    assert_eq!(said(&out.unwrap()), vec!["add 42 3 DP-1"]);
    let out = workspace_event(Change::Init, Some(node(Some(3), None, None)), None);
    assert_eq!(out.err(), Some(EventError::NotAWorkspace(WorkspaceFromNodeError::NoOutput)));
    let out = workspace_event(Change::Init, None, Some(other_node()));
    assert_eq!(out.err(), Some(EventError::NoWorkspace));
}

#[test]
fn emptied_and_renamed_workspaces_need_the_workspace() {
    let out = workspace_event(Change::Empty, Some(node(None, None, None)), None);
    assert_eq!(said(&out.unwrap()), vec!["del 42"]);
    assert_eq!(workspace_event(Change::Empty, None, None).err(), Some(EventError::NoWorkspace));
    let out = workspace_event(Change::Rename, Some(node(None, None, None)), Some(other_node()));
    assert_eq!(said(&out.unwrap()), vec!["rename 42 Some(\"web\")"]);
    assert_eq!(workspace_event(Change::Rename, None, None).err(), Some(EventError::NoWorkspace));
}

#[test]
fn focus_goes_from_the_old_workspace_to_the_current() {
    let out = workspace_event(Change::Focus, Some(node(None, None, None)), Some(other_node()));
    assert_eq!(
        said(&out.unwrap()),
        vec!["focus 42 [1, 2] true", "visible 42 true", "visible 7 false", "focus 7 [] false"]
    );
    let out = workspace_event(Change::Focus, None, Some(other_node()));
    assert_eq!(said(&out.unwrap()), vec!["visible 7 false", "focus 7 [] false"]);
    let out = workspace_event(Change::Focus, Some(other_node()), None);
    assert_eq!(said(&out.unwrap()), vec!["focus 7 [] false", "visible 7 true"]);
    assert!(workspace_event(Change::Focus, None, None).unwrap().is_empty());
}

#[test]
fn urgency_is_told_of_both_workspaces() {
    let out = workspace_event(Change::Urgent, Some(node(None, None, None)), Some(other_node()));
    assert_eq!(said(&out.unwrap()), vec!["urgent 42 true", "urgent 7 false"]);
    let out = workspace_event(Change::Urgent, None, Some(other_node()));
    assert_eq!(said(&out.unwrap()), vec!["urgent 7 false"]);
}

#[test]
fn other_changes_send_nothing() {
    for change in [Change::Move, Change::Reload, Change::Other] {
        let out = workspace_event(change, Some(node(None, None, None)), Some(other_node()));
        assert!(out.unwrap().is_empty());
        assert!(workspace_event(change, None, None).unwrap().is_empty());
    }
}
