//! Workspaces of the window manager and the changes it reports.

use swayipc::Rect;
use vstd::prelude::*;

verus! {

/// `swayipc::Rect`, the bounds of a node, carried as it comes.
#[verifier::external_type_specification]
#[verifier::external_body]
pub struct ExRect(swayipc::Rect);

/// The derived `clone` of `Rect`; nothing is stated of the copy.
pub assume_specification[ <Rect as Clone>::clone ](rect: &Rect) -> (r: Rect);

/// Why a node of the window tree is no workspace.
#[derive(Debug, Clone, Copy, PartialEq, Eq, Structural)]
pub enum WorkspaceFromNodeError {
    /// The node names no output.
    NoOutput,
}

/// A workspace.
#[derive(Clone, Debug)]
pub struct Workspace {
    pub id: i64,
    /// The workspace number, or -1 for a workspace whose name does not
    /// start with a number.
    pub num: i32,
    pub name: Option<String>,
    pub layout: String,
    /// Whether the workspace is visible on any output.
    pub visible: bool,
    /// Whether the workspace has the focus of the default seat.
    pub focused: bool,
    /// Whether a view on the workspace has the urgent flag set.
    pub urgent: bool,
    pub representation: Option<String>,
    pub orientation: String,
    /// The bounds of the workspace.
    pub rect: Rect,
    /// The name of the output that the workspace is on.
    pub output: String,
    pub focus: Vec<i64>,
}

/// What is read of a node of the window tree to make a workspace of it.
#[derive(Clone, Debug)]
pub struct WorkspaceNode {
    pub id: i64,
    pub num: Option<i32>,
    pub name: Option<String>,
    /// The node's layout, written in lower case.
    pub layout: String,
    pub visible: Option<bool>,
    pub focused: bool,
    pub focus: Vec<i64>,
    pub urgent: bool,
    pub representation: Option<String>,
    pub rect: Rect,
    pub output: Option<String>,
}

/// A change that the window manager reports.
#[derive(Debug)]
pub enum SwayMessage {
    WorkspaceAdd(Workspace),
    WorkspaceDel(i64),
    WorkspaceChangeFocus { id: i64, focus: Vec<i64>, focused: bool },
    WorkspaceRename { id: i64, name: Option<String> },
    WorkspaceChangeUrgency { id: i64, urgent: bool },
    WorkspaceChangeVisiblity { id: i64, visible: bool },
    WindowFocusedChange { window_name: Option<String> },
}

/// `w` is the workspace of the node `node`: the node names the output, a
/// node without a number gets -1, one that does not say whether it is
/// visible counts as hidden, the orientation is `none`, and all else is
/// the node's.
pub open spec fn is_workspace_of(w: Workspace, node: WorkspaceNode) -> bool {
    &&& node.output == Some(w.output)
    &&& w.id == node.id
    &&& w.num == (match node.num {
        Some(n) => n,
        None => -1i32,
    })
    &&& w.name == node.name
    &&& w.layout == node.layout
    &&& w.visible == (match node.visible {
        Some(v) => v,
        None => false,
    })
    &&& w.focused == node.focused
    &&& w.focus == node.focus
    &&& w.urgent == node.urgent
    &&& w.representation == node.representation
    &&& w.orientation@ == "none"@
    &&& w.rect == node.rect
}

impl Workspace {
    /// The workspace of a node: a node without a number gets -1, one that
    /// does not say whether it is visible counts as hidden, the orientation
    /// is `none`. A node that names no output is refused.
    pub fn try_from(value: WorkspaceNode) -> (r: Result<Workspace, WorkspaceFromNodeError>)
        ensures
            match r {
                Ok(w) => is_workspace_of(w, value),
                Err(e) => value.output.is_none() && e == WorkspaceFromNodeError::NoOutput,
            },
    {
        let output = match value.output {
            Some(output) => output,
            None => {
                return Err(WorkspaceFromNodeError::NoOutput);
            },
        };
        Ok(
            Workspace {
                id: value.id,
                num: match value.num {
                    Some(n) => n,
                    None => -1,
                },
                name: value.name,
                layout: value.layout,
                visible: match value.visible {
                    Some(v) => v,
                    None => false,
                },
                focused: value.focused,
                focus: value.focus,
                urgent: value.urgent,
                representation: value.representation,
                orientation: "none".to_owned(),
                rect: value.rect,
                output,
            },
        )
    }
}

/// The workspaces of `ws` with number `num`, in their order.
pub open spec fn with_num(ws: Seq<Workspace>, num: i32) -> Seq<Workspace>
    decreases ws.len(),
{
    if ws.len() == 0 {
        Seq::empty()
    } else if ws.last().num == num {
        with_num(ws.drop_last(), num).push(ws.last())
    } else {
        with_num(ws.drop_last(), num)
    }
}

/// The workspaces of `ws` but those with identifier `id`, in their order.
pub open spec fn without_id(ws: Seq<Workspace>, id: i64) -> Seq<Workspace>
    decreases ws.len(),
{
    if ws.len() == 0 {
        Seq::empty()
    } else if ws[0].id == id {
        without_id(ws.skip(1), id)
    } else {
        seq![ws[0]] + without_id(ws.skip(1), id)
    }
}

/// `sorted` holds the workspaces of `ws` in the order of their numbers,
/// those of one number in the order they have in `ws`.
pub open spec fn is_sorted_by_num(sorted: Seq<Workspace>, ws: Seq<Workspace>) -> bool {
    &&& sorted.len() == ws.len()
    &&& forall|i: int, j: int| 0 <= i < j < sorted.len() ==> sorted[i].num <= sorted[j].num
    &&& forall|num: i32| #[trigger] with_num(sorted, num) == with_num(ws, num)
}

/// Place `at` holds the first workspace of `ws` with identifier `id`.
pub open spec fn is_first_with_id(ws: Seq<Workspace>, id: i64, at: int) -> bool {
    &&& 0 <= at < ws.len()
    &&& ws[at].id == id
    &&& forall|k: int| 0 <= k < at ==> ws[k].id != id
}

/// No workspace of `ws` has identifier `id`.
pub open spec fn none_with_id(ws: Seq<Workspace>, id: i64) -> bool {
    forall|k: int| 0 <= k < ws.len() ==> ws[k].id != id
}

/// `slice::sort_by_key` with the workspace number as key: a sort in
/// ascending order of the key that keeps elements of one key in their
/// order.
#[verifier::external_body]
pub(crate) fn sort_by_num(ws: &mut Vec<Workspace>)
    ensures
        is_sorted_by_num(final(ws)@, old(ws)@),
{
    ws.sort_by_key(|v| v.num)
}

/// The place of the first workspace with identifier `id`.
pub fn find_workspace(ws: &Vec<Workspace>, id: i64) -> (r: Option<usize>)
    ensures
        match r {
            Some(at) => is_first_with_id(ws@, id, at as int),
            None => none_with_id(ws@, id),
        },
{
    let mut i: usize = 0;
    while i < ws.len()
        invariant
            i <= ws@.len(),
            forall|k: int| 0 <= k < i ==> ws@[k].id != id,
        decreases ws@.len() - i,
    {
        if ws[i].id == id {
            return Some(i);
        }
        i = i + 1;
    }
    None
}

/// Takes the workspaces with identifier `id` out of `ws`.
pub fn remove_workspace(ws: &mut Vec<Workspace>, id: i64)
    ensures
        final(ws)@ == without_id(old(ws)@, id),
{
    let mut i: usize = 0;
    proof {
        assert(ws@.skip(0) =~= ws@);
        assert(ws@.take(0) + without_id(ws@, id) =~= without_id(ws@, id));
    }
    while i < ws.len()
        invariant
            i <= ws@.len(),
            without_id(old(ws)@, id) == ws@.take(i as int) + without_id(ws@.skip(i as int), id),
        decreases ws@.len() - i,
    {
        let ghost cur = ws@;
        proof {
            assert(cur.skip(i as int)[0] == cur[i as int]);
            assert(cur.skip(i as int).skip(1) =~= cur.skip(i as int + 1));
        }
        if ws[i].id == id {
            ws.remove(i);
            proof {
                assert(ws@.take(i as int) =~= cur.take(i as int));
                assert(ws@.skip(i as int) =~= cur.skip(i as int + 1));
            }
        } else {
            proof {
                assert(cur.take(i as int + 1) =~= cur.take(i as int).push(cur[i as int]));
                assert(cur.take(i as int) + (seq![cur[i as int]] + without_id(
                    cur.skip(i as int + 1),
                    id,
                )) =~= cur.take(i as int + 1) + without_id(cur.skip(i as int + 1), id));
            }
            i = i + 1;
        }
    }
    proof {
        assert(ws@.take(i as int) =~= ws@);
        assert(ws@.skip(i as int) =~= Seq::empty());
        assert(ws@ + without_id(Seq::empty(), id) =~= ws@);
    }
}


/// What happened to a workspace.
#[derive(Debug, Clone, Copy, PartialEq, Eq, Structural)]
pub enum Change {
    /// The workspace was created.
    Init,
    /// The workspace is empty and goes.
    Empty,
    /// The focus went to the workspace.
    Focus,
    /// The workspace went to another output.
    Move,
    /// The workspace has a new name.
    Rename,
    /// The urgency of a view on the workspace changed.
    Urgent,
    /// The configuration was read again.
    Reload,
    /// Anything else.
    Other,
}

/// Why an event gives no message.
#[derive(Debug, Clone, Copy, PartialEq, Eq, Structural)]
pub enum EventError {
    /// The event names no workspace where its kind calls for one.
    NoWorkspace,
    /// The node of a created workspace is no workspace.
    NotAWorkspace(WorkspaceFromNodeError),
}

/// What a focus change sends for the workspace that has the focus now: it
/// is told of its focus and shown.
pub open spec fn focus_gained(current: Option<WorkspaceNode>) -> Seq<SwayMessage> {
    match current {
        Some(w) => seq![
            SwayMessage::WorkspaceChangeFocus { id: w.id, focus: w.focus, focused: w.focused },
            SwayMessage::WorkspaceChangeVisiblity { id: w.id, visible: true },
        ],
        None => Seq::empty(),
    }
}

/// What a focus change sends for the workspace that had the focus: it is
/// hidden and told of its focus.
pub open spec fn focus_lost(old: Option<WorkspaceNode>) -> Seq<SwayMessage> {
    match old {
        Some(w) => seq![
            SwayMessage::WorkspaceChangeVisiblity { id: w.id, visible: false },
            SwayMessage::WorkspaceChangeFocus { id: w.id, focus: w.focus, focused: w.focused },
        ],
        None => Seq::empty(),
    }
}

/// The messages that follow from a focus change: first for the workspace
/// that has the focus now, then for the one that had it.
pub open spec fn focus_messages(
    current: Option<WorkspaceNode>,
    old: Option<WorkspaceNode>,
) -> Seq<SwayMessage> {
    focus_gained(current) + focus_lost(old)
}

/// What a change of urgency sends for one workspace that the event names.
pub open spec fn urgency_of(node: Option<WorkspaceNode>) -> Seq<SwayMessage> {
    match node {
        Some(w) => seq![SwayMessage::WorkspaceChangeUrgency { id: w.id, urgent: w.urgent }],
        None => Seq::empty(),
    }
}

/// The messages that follow from a change of urgency: one for the
/// workspace named now, then one for the workspace named before.
pub open spec fn urgency_messages(
    current: Option<WorkspaceNode>,
    old: Option<WorkspaceNode>,
) -> Seq<SwayMessage> {
    urgency_of(current) + urgency_of(old)
}

/// The messages that a workspace event sends to the state.
///
/// A created workspace is added, an emptied one deleted, a renamed one
/// renamed: these three need the workspace that the event names, and a
/// created one must name its output. A move, a reload and any other change
/// send nothing.
pub fn workspace_event(
    change: Change,
    current: Option<WorkspaceNode>,
    old: Option<WorkspaceNode>,
) -> (r: Result<Vec<SwayMessage>, EventError>)
    ensures
        match change {
            Change::Init => match current {
                Some(node) => match node.output {
                    Some(_) => r.is_ok() && r.unwrap()@.len() == 1 && (
                    r.unwrap()@[0] matches SwayMessage::WorkspaceAdd(w) && is_workspace_of(
                        w,
                        node,
                    )),
                    None => r == Err::<Vec<SwayMessage>, EventError>(
                        EventError::NotAWorkspace(WorkspaceFromNodeError::NoOutput),
                    ),
                },
                None => r == Err::<Vec<SwayMessage>, EventError>(EventError::NoWorkspace),
            },
            Change::Empty => match current {
                Some(node) => r.is_ok() && r.unwrap()@ == seq![SwayMessage::WorkspaceDel(node.id)],
                None => r == Err::<Vec<SwayMessage>, EventError>(EventError::NoWorkspace),
            },
            Change::Rename => match current {
                Some(node) => r.is_ok() && r.unwrap()@ == seq![
                    SwayMessage::WorkspaceRename { id: node.id, name: node.name },
                ],
                None => r == Err::<Vec<SwayMessage>, EventError>(EventError::NoWorkspace),
            },
            Change::Focus => r.is_ok() && r.unwrap()@ == focus_messages(current, old),
            Change::Urgent => r.is_ok() && r.unwrap()@ == urgency_messages(current, old),
            _ => r.is_ok() && r.unwrap()@.len() == 0,
        },
{
    let mut out: Vec<SwayMessage> = Vec::new();
    match change {
        Change::Init => {
            let node = match current {
                Some(node) => node,
                None => {
                    return Err(EventError::NoWorkspace);
                },
            };
            match Workspace::try_from(node) {
                Ok(workspace) => {
                    out.push(SwayMessage::WorkspaceAdd(workspace));
                },
                Err(e) => {
                    return Err(EventError::NotAWorkspace(e));
                },
            }
        },
        Change::Empty => {
            match current {
                Some(node) => {
                    out.push(SwayMessage::WorkspaceDel(node.id));
                    proof {
                        assert(out@ =~= seq![SwayMessage::WorkspaceDel(node.id)]);
                    }
                },
                None => {
                    return Err(EventError::NoWorkspace);
                },
            }
        },
        Change::Focus => {
            let ghost first = focus_gained(current);
            match current {
                Some(w) => {
                    out.push(
                        SwayMessage::WorkspaceChangeFocus {
                            id: w.id,
                            focus: w.focus,
                            focused: w.focused,
                        },
                    );
                    out.push(SwayMessage::WorkspaceChangeVisiblity { id: w.id, visible: true });
                },
                None => {},
            }
            proof {
                assert(out@ =~= first);
            }
            match old {
                Some(w) => {
                    out.push(SwayMessage::WorkspaceChangeVisiblity { id: w.id, visible: false });
                    out.push(
                        SwayMessage::WorkspaceChangeFocus {
                            id: w.id,
                            focus: w.focus,
                            focused: w.focused,
                        },
                    );
                },
                None => {},
            }
            proof {
                assert(out@ =~= focus_messages(current, old));
            }
        },
        Change::Rename => {
            match current {
                Some(node) => {
                    out.push(SwayMessage::WorkspaceRename { id: node.id, name: node.name });
                    proof {
                        assert(out@ =~= seq![
                            SwayMessage::WorkspaceRename { id: node.id, name: node.name },
                        ]);
                    }
                },
                None => {
                    return Err(EventError::NoWorkspace);
                },
            }
        },
        Change::Urgent => {
            let ghost first = urgency_of(current);
            match current {
                Some(w) => {
                    out.push(SwayMessage::WorkspaceChangeUrgency { id: w.id, urgent: w.urgent });
                },
                None => {},
            }
            proof {
                assert(out@ =~= first);
            }
            match old {
                Some(w) => {
                    out.push(SwayMessage::WorkspaceChangeUrgency { id: w.id, urgent: w.urgent });
                },
                None => {},
            }
            proof {
                assert(out@ =~= urgency_messages(current, old));
            }
        },
        _ => {},
    }
    Ok(out)
}

} // verus!
