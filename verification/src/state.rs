//! The state of the bar, how messages change it, and the text it shows
//! for a byte count.

use crate::curve::{Line, Segment, Vec2};
use crate::files::same_text;
use crate::network::{Network, NetworkMessage};
use crate::renderer::{drawn, Drawn, RenderState, Renderable, BLACK, DARK, ONE, WHITE};
use crate::sway::{
    find_workspace, is_first_with_id, is_sorted_by_num, none_with_id, remove_workspace,
    sort_by_num, without_id, SwayMessage, Workspace,
};
use vstd::prelude::*;
use vstd::string::{StrSliceExecFns, StringExecFns};

verus! {

/// The largest unit index: bytes are 0, then KiB, MiB, GiB, TiB.
pub const LAST_UNIT: usize = 4;

/// The name of unit `unit`.
pub open spec fn unit_label(unit: nat) -> Seq<char> {
    if unit == 0 {
        "B"@
    } else if unit == 1 {
        "KiB"@
    } else if unit == 2 {
        "MiB"@
    } else if unit == 3 {
        "GiB"@
    } else {
        "TiB"@
    }
}

/// A size of `size` in unit `unit`, brought to the unit it is shown in:
/// while the size is over 1024 and a larger unit is left, it is divided by
/// 1024, rounding down, and the unit goes up by one.
pub open spec fn scaled(size: nat, unit: nat) -> (nat, nat)
    decreases LAST_UNIT - unit,
{
    if unit < LAST_UNIT && size > 1024 {
        scaled(size / 1024, unit + 1)
    } else {
        (size, unit)
    }
}

/// The character of the digit `d`.
pub open spec fn digit_char(d: nat) -> char {
    (0x30 + d) as u8 as char
}

/// `n` written in base ten without leading zeros.
pub open spec fn decimal_text(n: nat) -> Seq<char>
    decreases n,
{
    if n < 10 {
        seq![digit_char(n)]
    } else {
        decimal_text(n / 10).push(digit_char(n % 10))
    }
}

/// `s` with spaces in front of it up to `width` characters; `s` itself
/// where it has that many.
pub open spec fn padded(s: Seq<char>, width: nat) -> Seq<char> {
    if s.len() >= width {
        s
    } else {
        Seq::new((width - s.len()) as nat, |i: int| ' ') + s
    }
}

/// What is shown for `x` bytes, before it is aligned.
pub open spec fn byte_text(x: nat) -> Seq<char> {
    decimal_text(scaled(x, 0).0) + seq![' '] + unit_label(scaled(x, 0).1)
}

/// The scaled size is the size divided down by at most four steps, and it
/// is over 1024 only where no larger unit is left.
pub proof fn law_scaled_bounds(size: nat, unit: nat)
    requires
        unit <= LAST_UNIT,
    ensures
        unit <= scaled(size, unit).1 <= LAST_UNIT,
        scaled(size, unit).0 <= size,
        scaled(size, unit).0 <= 1024 || scaled(size, unit).1 == LAST_UNIT,
        size <= 1024 ==> scaled(size, unit) == (size, unit),
    decreases LAST_UNIT - unit,
{
    if unit < LAST_UNIT && size > 1024 {
        law_scaled_bounds(size / 1024, unit + 1);
    }
}

/// Brings a byte count to the unit it is shown in.
pub fn scale_bytes(x: u64) -> (r: (u64, usize))
    ensures
        (r.0 as nat, r.1 as nat) == scaled(x as nat, 0),
{
    let mut size: u64 = x;
    let mut unit: usize = 0;
    while unit < LAST_UNIT && size > 1024
        invariant
            unit <= LAST_UNIT,
            scaled(size as nat, unit as nat) == scaled(x as nat, 0),
        decreases LAST_UNIT - unit,
    {
        unit = unit + 1;
        size = size / 1024;
    }
    (size, unit)
}

/// The name of unit `unit`.
fn unit_name(unit: usize) -> (r: &'static str)
    ensures
        r@ == unit_label(unit as nat),
{
    if unit == 0 {
        "B"
    } else if unit == 1 {
        "KiB"
    } else if unit == 2 {
        "MiB"
    } else if unit == 3 {
        "GiB"
    } else {
        "TiB"
    }
}

/// `format!` with a number, a space and a string: the number in base ten
/// without leading zeros, one space, the string.
#[verifier::external_body]
fn labelled(n: u64, unit: &str) -> (r: String)
    ensures
        r@ == decimal_text(n as nat) + seq![' '] + unit@,
{
    format!("{n} {}", unit)
}

/// `format!` with `{:>8}`: the string, with spaces in front where it has
/// fewer than eight characters.
#[verifier::external_body]
fn right_aligned(s: &str) -> (r: String)
    ensures
        r@ == padded(s@, 8),
{
    format!("{s:>8}")
}

/// What the bar shows for `x` bytes: the size in the largest unit that
/// leaves it over 1024 no longer (or in TiB), its unit, right-aligned in
/// eight characters.
pub fn display_bytes(x: u64) -> (r: String)
    ensures
        r@ == padded(byte_text(x as nat), 8),
{
    let (size, unit) = scale_bytes(x);
    let display_str = labelled(size, unit_name(unit));
    right_aligned(display_str.as_str())
}


/// What the bar knows of the desktop.
#[derive(Debug, Clone)]
pub struct State {
    pub workspaces: Vec<Workspace>,
    /// Where the pointer was last pressed.
    pub press_position: Vec2,
    /// The lines drawn with the pointer, each from a press to a release.
    pub segments: Vec<Segment>,
    pub networks: Vec<Network>,
    pub focused_window_name: Option<String>,
}

/// A message to the state.
#[derive(Debug)]
pub enum Message {
    Sway(SwayMessage),
    Network(NetworkMessage),
    PointerPress { pos: Vec2 },
    PointerRelease { pos: Vec2 },
}

impl State {
    /// The workspaces are those of `other`.
    pub open spec fn same_workspaces(self, other: State) -> bool {
        self.workspaces@ == other.workspaces@
    }

    /// All but the workspaces is as in `other`.
    pub open spec fn same_rest(self, other: State) -> bool {
        &&& self.press_position == other.press_position
        &&& self.segments@ == other.segments@
        &&& self.networks@ == other.networks@
        &&& self.focused_window_name == other.focused_window_name
    }

    /// The workspaces are those of `other`, but the first with identifier
    /// `id` is `changed(it)`; they are those of `other` where none has that
    /// identifier.
    pub open spec fn first_changed(
        self,
        other: State,
        id: i64,
        changed: spec_fn(Workspace) -> Workspace,
    ) -> bool {
        &&& none_with_id(other.workspaces@, id) ==> self.workspaces@ == other.workspaces@
        &&& forall|at: int| #[trigger]
            is_first_with_id(other.workspaces@, id, at) ==> self.workspaces@
                == other.workspaces@.update(at, changed(other.workspaces@[at]))
    }

    /// The state after `message`, taken from the state `before`.
    ///
    /// A new workspace joins the others, which are then put in the order of
    /// their numbers. A workspace that is gone leaves. A change of focus,
    /// name, urgency or visibility reaches the first workspace with the
    /// identifier and none where there is no such workspace. A press is
    /// remembered; a release draws a line from the last press to it.
    pub open spec fn follows(self, before: State, message: Message) -> bool {
        match message {
            Message::Sway(SwayMessage::WorkspaceAdd(workspace)) => {
                &&& is_sorted_by_num(self.workspaces@, before.workspaces@.push(workspace))
                &&& self.same_rest(before)
            },
            Message::Sway(SwayMessage::WorkspaceDel(id)) => {
                &&& self.workspaces@ == without_id(before.workspaces@, id)
                &&& self.same_rest(before)
            },
            Message::Sway(SwayMessage::WorkspaceChangeFocus { id, focus, focused }) => {
                &&& self.first_changed(
                    before,
                    id,
                    |w: Workspace| Workspace { focus, focused, ..w },
                )
                &&& self.same_rest(before)
            },
            Message::Sway(SwayMessage::WorkspaceRename { id, name }) => {
                &&& self.first_changed(before, id, |w: Workspace| Workspace { name, ..w })
                &&& self.same_rest(before)
            },
            Message::Sway(SwayMessage::WorkspaceChangeUrgency { id, urgent }) => {
                &&& self.first_changed(before, id, |w: Workspace| Workspace { urgent, ..w })
                &&& self.same_rest(before)
            },
            Message::Sway(SwayMessage::WorkspaceChangeVisiblity { id, visible }) => {
                &&& self.first_changed(before, id, |w: Workspace| Workspace { visible, ..w })
                &&& self.same_rest(before)
            },
            Message::Sway(SwayMessage::WindowFocusedChange { window_name }) => {
                &&& self.same_workspaces(before)
                &&& self.press_position == before.press_position
                &&& self.segments@ == before.segments@
                &&& self.networks@ == before.networks@
                &&& self.focused_window_name == window_name
            },
            Message::Network(networks) => {
                &&& self.same_workspaces(before)
                &&& self.press_position == before.press_position
                &&& self.segments@ == before.segments@
                &&& self.networks@ == networks@
                &&& self.focused_window_name == before.focused_window_name
            },
            Message::PointerPress { pos } => {
                &&& self.same_workspaces(before)
                &&& self.press_position == pos
                &&& self.segments@ == before.segments@
                &&& self.networks@ == before.networks@
                &&& self.focused_window_name == before.focused_window_name
            },
            Message::PointerRelease { pos } => {
                &&& self.same_workspaces(before)
                &&& self.press_position == before.press_position
                &&& self.segments@ == before.segments@.push(
                    Segment::LINE(Line(before.press_position, pos)),
                )
                &&& self.networks@ == before.networks@
                &&& self.focused_window_name == before.focused_window_name
            },
        }
    }

    /// The state of a bar that has heard nothing yet.
    pub fn new() -> (r: State)
        ensures
            r.workspaces@.len() == 0,
            r.press_position == (Vec2 { x: 0, y: 0 }),
            r.segments@.len() == 0,
            r.networks@.len() == 0,
            r.focused_window_name.is_none(),
    {
        State {
            focused_window_name: None,
            workspaces: Vec::new(),
            press_position: Vec2 { x: 0, y: 0 },
            segments: Vec::new(),
            networks: Vec::new(),
        }
    }

    /// Takes `message` into the state.
    pub fn update(&mut self, message: Message)
        ensures
            final(self).follows(*old(self), message),
    {
        match message {
            Message::Sway(sway_message) => match sway_message {
                SwayMessage::WorkspaceAdd(workspace) => {
                    self.workspaces.push(workspace);
                    sort_by_num(&mut self.workspaces);
                },
                SwayMessage::WorkspaceDel(id) => {
                    remove_workspace(&mut self.workspaces, id);
                },
                SwayMessage::WorkspaceChangeFocus { id, focus, focused } => {
                    match find_workspace(&self.workspaces, id) {
                        Some(at) => {
                            let mut workspace = self.workspaces.remove(at);
                            workspace.focus = focus;
                            workspace.focused = focused;
                            self.workspaces.insert(at, workspace);
                            proof {
                                let ws = old(self).workspaces@;
                                assert(self.workspaces@ =~= ws.update(
                                    at as int,
                                    Workspace { focus, focused, ..ws[at as int] },
                                ));
                                lemma_first_is_one(ws, id, at as int);
                            }
                        },
                        None => {},
                    }
                },
                SwayMessage::WorkspaceRename { id, name } => {
                    match find_workspace(&self.workspaces, id) {
                        Some(at) => {
                            let mut workspace = self.workspaces.remove(at);
                            workspace.name = name;
                            self.workspaces.insert(at, workspace);
                            proof {
                                let ws = old(self).workspaces@;
                                assert(self.workspaces@ =~= ws.update(
                                    at as int,
                                    Workspace { name, ..ws[at as int] },
                                ));
                                lemma_first_is_one(ws, id, at as int);
                            }
                        },
                        None => {},
                    }
                },
                SwayMessage::WorkspaceChangeUrgency { id, urgent } => {
                    match find_workspace(&self.workspaces, id) {
                        Some(at) => {
                            let mut workspace = self.workspaces.remove(at);
                            workspace.urgent = urgent;
                            self.workspaces.insert(at, workspace);
                            proof {
                                let ws = old(self).workspaces@;
                                assert(self.workspaces@ =~= ws.update(
                                    at as int,
                                    Workspace { urgent, ..ws[at as int] },
                                ));
                                lemma_first_is_one(ws, id, at as int);
                            }
                        },
                        None => {},
                    }
                },
                SwayMessage::WorkspaceChangeVisiblity { id, visible } => {
                    match find_workspace(&self.workspaces, id) {
                        Some(at) => {
                            let mut workspace = self.workspaces.remove(at);
                            workspace.visible = visible;
                            self.workspaces.insert(at, workspace);
                            proof {
                                let ws = old(self).workspaces@;
                                assert(self.workspaces@ =~= ws.update(
                                    at as int,
                                    Workspace { visible, ..ws[at as int] },
                                ));
                                lemma_first_is_one(ws, id, at as int);
                            }
                        },
                        None => {},
                    }
                },
                SwayMessage::WindowFocusedChange { window_name } => {
                    self.focused_window_name = window_name;
                },
            },
            Message::PointerPress { pos } => {
                self.press_position = pos;
            },
            Message::PointerRelease { pos } => {
                self.segments.push(Segment::LINE(Line(self.press_position, pos)));
            },
            Message::Network(network_message) => {
                self.networks = network_message;
            },
        }
    }
}

/// There is one first place of an identifier at most, and none where no
/// workspace has it.
proof fn lemma_first_is_one(ws: Seq<Workspace>, id: i64, at: int)
    requires
        is_first_with_id(ws, id, at),
    ensures
        !none_with_id(ws, id),
        forall|other: int| #[trigger] is_first_with_id(ws, id, other) ==> other == at,
{
}


/// The most bytes of a name that the bar shows.
pub const NAME_BYTES: usize = 30;

/// How many bytes `c` takes in UTF-8.
pub open spec fn utf8_len(c: char) -> nat {
    let u = c as u32;
    if u < 0x80 {
        1
    } else if u < 0x800 {
        2
    } else if u < 0x10000 {
        3
    } else {
        4
    }
}

/// How many characters `s` begins with that take `max` bytes or fewer
/// together.
pub open spec fn fitting(s: Seq<char>, max: nat) -> nat
    decreases s.len(),
{
    if s.len() == 0 || utf8_len(s[0]) > max {
        0
    } else {
        1 + fitting(s.skip(1), (max - utf8_len(s[0])) as nat)
    }
}

/// How many bytes `s` takes in UTF-8.
pub open spec fn byte_len(s: Seq<char>) -> nat
    decreases s.len(),
{
    if s.len() == 0 {
        0
    } else {
        utf8_len(s[0]) + byte_len(s.skip(1))
    }
}

/// The characters that fit are the longest beginning of `s` that takes
/// `max` bytes or fewer: they take no more, and with the next character
/// they would; all of `s` fits where it takes no more.
pub proof fn law_fitting_is_longest(s: Seq<char>, max: nat)
    ensures
        fitting(s, max) <= s.len(),
        byte_len(s.take(fitting(s, max) as int)) <= max,
        fitting(s, max) < s.len() ==> byte_len(s.take(fitting(s, max) as int + 1)) > max,
        fitting(s, max) == s.len() <==> byte_len(s) <= max,
    decreases s.len(),
{
    if s.len() == 0 || utf8_len(s[0]) > max {
        assert(s.take(0) =~= Seq::empty());
        if s.len() > 0 {
            assert(s.take(1)[0] == s[0]);
            assert(s.take(1).skip(1) =~= Seq::empty());
            assert(byte_len(s.take(1).skip(1)) == 0);
        }
    } else {
        let rest = s.skip(1);
        let left = (max - utf8_len(s[0])) as nat;
        law_fitting_is_longest(rest, left);
        let n = fitting(rest, left) as int;
        assert(s.take(n + 1)[0] == s[0]);
        assert(s.take(n + 1).skip(1) =~= rest.take(n));
        if n < rest.len() {
            assert(s.take(n + 2)[0] == s[0]);
            assert(s.take(n + 2).skip(1) =~= rest.take(n + 1));
        }
    }
}

/// A name as the bar shows it: the characters it begins with that fit in
/// `NAME_BYTES` bytes, followed by three dots where that is not all of it.
pub open spec fn shortened(name: Seq<char>) -> Seq<char> {
    let n = fitting(name, NAME_BYTES as nat);
    if n < name.len() {
        name.take(n as int) + "..."@
    } else {
        name
    }
}

/// `n` written in base ten, with a minus sign where it is negative.
pub open spec fn int_text(n: int) -> Seq<char> {
    if n < 0 {
        seq!['-'] + decimal_text((-n) as nat)
    } else {
        decimal_text(n as nat)
    }
}

/// The item of a workspace: its name, bright on dark where it is visible
/// and dark on black where it is not; its number in white on nothing where
/// it has no name.
pub open spec fn workspace_label(w: Workspace) -> Drawn {
    match w.name {
        Some(name) => Drawn::Text {
            text: name@,
            fg: if w.visible {
                WHITE
            } else {
                DARK
            },
            bg: if w.visible {
                DARK
            } else {
                BLACK
            },
        },
        None => Drawn::Text { text: int_text(w.num as int), fg: WHITE, bg: 0 },
    }
}

/// The items of the workspaces: each label, followed by a gap.
pub open spec fn workspace_items(ws: Seq<Workspace>) -> Seq<Drawn>
    decreases ws.len(),
{
    if ws.len() == 0 {
        Seq::empty()
    } else {
        workspace_items(ws.drop_last()).push(workspace_label(ws.last())).push(Drawn::Space(ONE))
    }
}

/// The text of a network: its label, then the rate up with an arrow down
/// and the rate down with an arrow up, each a byte count a second.
pub open spec fn network_text(label: Seq<char>, up_rate: u64, down_rate: u64) -> Seq<char> {
    label + " "@ + padded(byte_text(up_rate as nat), 8) + "/s"@ + "\u{2193} "@ + padded(
        byte_text(down_rate as nat),
        8,
    ) + "/s"@ + "\u{2191}"@
}

/// The label of a network that is shown: the network name of a wireless
/// one, empty where it has none; the interface name of another, but none
/// for the loopback interface `lo`, which is not shown.
pub open spec fn network_label(network: Network) -> Option<Seq<char>> {
    match network {
        Network::Wifi { ssid, .. } => Some(
            match ssid {
                Some(name) => name@,
                None => Seq::empty(),
            },
        ),
        Network::Network { name, .. } => if name@ == "lo"@ {
            None
        } else {
            Some(name@)
        },
    }
}

/// The rates of a network, up and down.
pub open spec fn network_rates(network: Network) -> (u64, u64) {
    match network {
        Network::Wifi { up_rate, down_rate, .. } => (up_rate, down_rate),
        Network::Network { up_rate, down_rate, .. } => (up_rate, down_rate),
    }
}

/// The items of the networks: for each that is shown its text in white on
/// nothing, followed by a gap.
pub open spec fn network_items(networks: Seq<Network>) -> Seq<Drawn>
    decreases networks.len(),
{
    if networks.len() == 0 {
        Seq::empty()
    } else {
        let before = network_items(networks.drop_last());
        match network_label(networks.last()) {
            Some(label) => before.push(
                Drawn::Text {
                    text: network_text(
                        label,
                        network_rates(networks.last()).0,
                        network_rates(networks.last()).1,
                    ),
                    fg: WHITE,
                    bg: 0,
                },
            ).push(Drawn::Space(ONE)),
            None => before,
        }
    }
}

/// `i32::to_string`: the number in base ten, with a minus sign where it is
/// negative.
#[verifier::external_body]
fn number_text(n: i32) -> (r: String)
    ensures
        r@ == int_text(n as int),
{
    n.to_string()
}

/// How many bytes `c` takes in UTF-8.
fn char_bytes(c: char) -> (r: usize)
    ensures
        r == utf8_len(c),
{
    let u: u32 = c as u32;
    if u < 0x80 {
        1
    } else if u < 0x800 {
        2
    } else if u < 0x10000 {
        3
    } else {
        4
    }
}

/// A name as the bar shows it.
pub fn shorten(name: &str) -> (r: String)
    ensures
        r@ == shortened(name@),
{
    let len: usize = name.unicode_len();
    let mut taken: usize = 0;
    let mut left: usize = NAME_BYTES;
    proof {
        assert(name@.skip(0) =~= name@);
    }
    while taken < len && char_bytes(name.get_char(taken)) <= left
        invariant
            taken <= len,
            len == name@.len(),
            left <= NAME_BYTES,
            fitting(name@, NAME_BYTES as nat) == taken + fitting(
                name@.skip(taken as int),
                left as nat,
            ),
        decreases len - taken,
    {
        proof {
            assert(name@.skip(taken as int)[0] == name@[taken as int]);
            assert(name@.skip(taken as int).skip(1) =~= name@.skip(taken as int + 1));
        }
        left = left - char_bytes(name.get_char(taken));
        taken = taken + 1;
    }
    proof {
        if taken < len {
            assert(name@.skip(taken as int)[0] == name@[taken as int]);
        }
        assert(fitting(name@, NAME_BYTES as nat) == taken);
    }
    if taken < len {
        let mut out = String::from_str(name.substring_char(0, taken));
        out.append("...");
        proof {
            assert(name@.subrange(0, taken as int) =~= name@.take(taken as int));
        }
        out
    } else {
        String::from_str(name)
    }
}

/// The item of a workspace.
pub fn workspace_item(workspace: &Workspace) -> (r: Renderable)
    ensures
        r@ == workspace_label(*workspace),
{
    match &workspace.name {
        Some(name) => Renderable::Text {
            text: name.clone(),
            fg: if workspace.visible {
                WHITE
            } else {
                DARK
            },
            bg: if workspace.visible {
                DARK
            } else {
                BLACK
            },
        },
        None => Renderable::Text { text: number_text(workspace.num), fg: WHITE, bg: 0 },
    }
}

/// The text of a network with label `label`.
pub fn network_line(label: &str, up_rate: u64, down_rate: u64) -> (r: String)
    ensures
        r@ == network_text(label@, up_rate, down_rate),
{
    let mut out = String::from_str(label);
    out.append(" ");
    let up = display_bytes(up_rate);
    out.append(up.as_str());
    out.append("/s");
    out.append("\u{2193} ");
    let down = display_bytes(down_rate);
    out.append(down.as_str());
    out.append("/s");
    out.append("\u{2191}");
    out
}

/// The item of a network, where it is shown.
pub fn network_item(network: &Network) -> (r: Option<Renderable>)
    ensures
        match network_label(*network) {
            Some(label) => r.is_some() && r.unwrap()@ == (Drawn::Text {
                text: network_text(label, network_rates(*network).0, network_rates(*network).1),
                fg: WHITE,
                bg: 0,
            }),
            None => r.is_none(),
        },
{
    match network {
        Network::Wifi { ssid, up_rate, down_rate, .. } => {
            let text = match ssid {
                Some(name) => network_line(name.as_str(), *up_rate, *down_rate),
                None => {
                    proof {
                        assert(""@ =~= Seq::<char>::empty()) by {
                            reveal_strlit("");
                        }
                    }
                    network_line("", *up_rate, *down_rate)
                },
            };
            Some(Renderable::Text { text, fg: WHITE, bg: 0 })
        },
        Network::Network { name, up_rate, down_rate, .. } => {
            if same_text(name.as_str(), "lo") {
                None
            } else {
                Some(
                    Renderable::Text {
                        text: network_line(name.as_str(), *up_rate, *down_rate),
                        fg: WHITE,
                        bg: 0,
                    },
                )
            }
        },
    }
}

impl State {
    /// What the bar draws of the state: on the left the workspaces and two
    /// gaps, in the middle the name of the focused window where there is
    /// one, shortened, on the right the networks.
    pub fn to_renderable_state(&self) -> (r: RenderState)
        ensures
            drawn(r.left@) == workspace_items(self.workspaces@).push(Drawn::Space(ONE)).push(
                Drawn::Space(ONE),
            ),
            drawn(r.center@) == (match self.focused_window_name {
                Some(name) => seq![Drawn::Text { text: shortened(name@), fg: WHITE, bg: 0 }],
                None => Seq::empty(),
            }),
            drawn(r.right@) == network_items(self.networks@),
    {
        let mut left: Vec<Renderable> = Vec::new();
        let mut i: usize = 0;
        proof {
            assert(drawn(left@) =~= workspace_items(self.workspaces@.take(0)));
        }
        while i < self.workspaces.len()
            invariant
                i <= self.workspaces@.len(),
                drawn(left@) == workspace_items(self.workspaces@.take(i as int)),
            decreases self.workspaces@.len() - i,
        {
            let ghost before = drawn(left@);
            let item = workspace_item(&self.workspaces[i]);
            left.push(item);
            left.push(Renderable::Space(ONE));
            proof {
                let ws = self.workspaces@;
                assert(ws.take(i as int + 1).drop_last() =~= ws.take(i as int));
                assert(ws.take(i as int + 1).last() == ws[i as int]);
                assert(drawn(left@) =~= before.push(workspace_label(ws[i as int])).push(
                    Drawn::Space(ONE),
                ));
            }
            i = i + 1;
        }
        let ghost labels = drawn(left@);
        left.push(Renderable::Space(ONE));
        left.push(Renderable::Space(ONE));
        proof {
            assert(self.workspaces@.take(i as int) =~= self.workspaces@);
            assert(drawn(left@) =~= labels.push(Drawn::Space(ONE)).push(Drawn::Space(ONE)));
        }

        let mut center: Vec<Renderable> = Vec::new();
        match &self.focused_window_name {
            Some(name) => {
                center.push(Renderable::Text { text: shorten(name.as_str()), fg: WHITE, bg: 0 });
                proof {
                    assert(drawn(center@) =~= seq![
                        Drawn::Text { text: shortened(name@), fg: WHITE, bg: 0 },
                    ]);
                }
            },
            None => {
                proof {
                    assert(drawn(center@) =~= Seq::empty());
                }
            },
        }

        let mut right: Vec<Renderable> = Vec::new();
        let mut j: usize = 0;
        proof {
            assert(drawn(right@) =~= network_items(self.networks@.take(0)));
        }
        while j < self.networks.len()
            invariant
                j <= self.networks@.len(),
                drawn(right@) == network_items(self.networks@.take(j as int)),
            decreases self.networks@.len() - j,
        {
            let ghost before = drawn(right@);
            proof {
                let ns = self.networks@;
                assert(ns.take(j as int + 1).drop_last() =~= ns.take(j as int));
                assert(ns.take(j as int + 1).last() == ns[j as int]);
            }
            match network_item(&self.networks[j]) {
                Some(item) => {
                    let ghost shown = item@;
                    right.push(item);
                    right.push(Renderable::Space(ONE));
                    proof {
                        assert(drawn(right@) =~= before.push(shown).push(Drawn::Space(ONE)));
                    }
                },
                None => {},
            }
            j = j + 1;
        }
        proof {
            assert(self.networks@.take(j as int) =~= self.networks@);
        }
        RenderState { left, center, right }
    }
}

} // verus!
