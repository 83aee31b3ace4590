use vstd::prelude::*;
use crate::entry::{Entry, EntryModel, entries_view};

verus! {

/// A key event as captured from the terminal: a plain character, a character
/// with the control modifier held, or one of the few special keys the
/// session reacts to.
#[derive(Clone, Copy, Debug, PartialEq, Eq, Structural)]
pub enum Key {
    Char(char),
    Ctrl(char),
    Up,
    Down,
    Other,
}

/// One user-invokable operation. The full set is fixed at startup: each
/// variant carries a display name, a key binding and, for some, a prompt
/// (see [`action_for`], [`action_name`] and [`prompt_for`]).
#[derive(Clone, Copy, Debug, PartialEq, Eq, Structural)]
pub enum Action {
    Help,
    Explorer,
    Status,
    Log,
    RevisionChanges,
    RevisionDiff,
    CommitAll,
    CommitSelected,
    Revert,
    Update,
    Merge,
    Conflicts,
    TakeOther,
    TakeLocal,
    Fetch,
    Pull,
    Push,
    CreateTag,
    ListBranches,
    CreateBranch,
    CloseBranch,
}

/// The binding table: which action, if any, a character with or without the
/// control modifier invokes. Bindings are matched on the pair as a whole, so
/// the plain and control namespaces never collide.
pub open spec fn action_for(key: char, is_control_held: bool) -> Option<Action> {
    if is_control_held {
        match key {
            'b' => Some(Action::CloseBranch),
            'r' => Some(Action::TakeLocal),
            _ => None,
        }
    } else {
        match key {
            'h' => Some(Action::Help),
            'e' => Some(Action::Explorer),
            's' => Some(Action::Status),
            'l' => Some(Action::Log),
            'd' => Some(Action::RevisionChanges),
            'D' => Some(Action::RevisionDiff),
            'c' => Some(Action::CommitAll),
            'C' => Some(Action::CommitSelected),
            'U' => Some(Action::Revert),
            'u' => Some(Action::Update),
            'm' => Some(Action::Merge),
            'r' => Some(Action::Conflicts),
            'R' => Some(Action::TakeOther),
            'f' => Some(Action::Fetch),
            'p' => Some(Action::Pull),
            'P' => Some(Action::Push),
            'T' => Some(Action::CreateTag),
            'b' => Some(Action::ListBranches),
            'B' => Some(Action::CreateBranch),
            _ => None,
        }
    }
}

/// Looks a key/modifier pair up in the binding table.
pub fn lookup_action(key: char, is_control_held: bool) -> (r: Option<Action>)
    ensures
        r == action_for(key, is_control_held),
{
    if is_control_held {
        match key {
            'b' => Some(Action::CloseBranch),
            'r' => Some(Action::TakeLocal),
            _ => None,
        }
    } else {
        match key {
            'h' => Some(Action::Help),
            'e' => Some(Action::Explorer),
            's' => Some(Action::Status),
            'l' => Some(Action::Log),
            'd' => Some(Action::RevisionChanges),
            'D' => Some(Action::RevisionDiff),
            'c' => Some(Action::CommitAll),
            'C' => Some(Action::CommitSelected),
            'U' => Some(Action::Revert),
            'u' => Some(Action::Update),
            'm' => Some(Action::Merge),
            'r' => Some(Action::Conflicts),
            'R' => Some(Action::TakeOther),
            'f' => Some(Action::Fetch),
            'p' => Some(Action::Pull),
            'P' => Some(Action::Push),
            'T' => Some(Action::CreateTag),
            'b' => Some(Action::ListBranches),
            'B' => Some(Action::CreateBranch),
            _ => None,
        }
    }
}

/// The display name of an action, as shown in the action banner.
pub open spec fn action_name(a: Action) -> Seq<char> {
    match a {
        Action::Help => "help"@,
        Action::Explorer => "explorer"@,
        Action::Status => "status"@,
        Action::Log => "log"@,
        Action::RevisionChanges => "revision changes"@,
        Action::RevisionDiff => "revision diff"@,
        Action::CommitAll => "commit all"@,
        Action::CommitSelected => "commit selected"@,
        Action::Revert => "revert"@,
        Action::Update => "update"@,
        Action::Merge => "merge"@,
        Action::Conflicts => "unresolved conflicts"@,
        Action::TakeOther => "merge taking other"@,
        Action::TakeLocal => "merge taking local"@,
        Action::Fetch => "fetch"@,
        Action::Pull => "pull"@,
        Action::Push => "push"@,
        Action::CreateTag => "tag"@,
        Action::ListBranches => "branches"@,
        Action::CreateBranch => "branch"@,
        Action::CloseBranch => "close branch"@,
    }
}

/// Returns the display name of an action.
pub fn display_name(a: Action) -> (r: &'static str)
    ensures
        r@ == action_name(a),
{
    match a {
        Action::Help => "help",
        Action::Explorer => "explorer",
        Action::Status => "status",
        Action::Log => "log",
        Action::RevisionChanges => "revision changes",
        Action::RevisionDiff => "revision diff",
        Action::CommitAll => "commit all",
        Action::CommitSelected => "commit selected",
        Action::Revert => "revert",
        Action::Update => "update",
        Action::Merge => "merge",
        Action::Conflicts => "unresolved conflicts",
        Action::TakeOther => "merge taking other",
        Action::TakeLocal => "merge taking local",
        Action::Fetch => "fetch",
        Action::Pull => "pull",
        Action::Push => "push",
        Action::CreateTag => "tag",
        Action::ListBranches => "branches",
        Action::CreateBranch => "branch",
        Action::CloseBranch => "close branch",
    }
}

/// The prompt shown before an action that needs a line of free text, or
/// `None` for an action that runs directly. The selective commit is special:
/// its commit-message prompt comes after the selection list, so it carries
/// no prompt here (see [`commit_message_prompt`]).
pub open spec fn prompt_for(a: Action) -> Option<Seq<char>> {
    match a {
        Action::RevisionChanges => Some("show changes from (ctrl+c to cancel): "@),
        Action::RevisionDiff => Some("show diff from (ctrl+c to cancel): "@),
        Action::CommitAll => Some("commit message (ctrl+c to cancel): "@),
        Action::Update => Some("update to (ctrl+c to cancel): "@),
        Action::Merge => Some("merge with (ctrl+c to cancel): "@),
        Action::CreateTag => Some("tag name (ctrl+c to cancel): "@),
        Action::CreateBranch => Some("branch name (ctrl+c to cancel): "@),
        Action::CloseBranch => Some("branch to close (ctrl+c to cancel): "@),
        _ => None,
    }
}

/// Whether an action needs a line of free text before it can run.
pub open spec fn requires_prompt(a: Action) -> bool {
    prompt_for(a) is Some
}

/// Returns the prompt text of an action, or `None` for one that runs
/// directly.
pub fn prompt_text(a: Action) -> (r: Option<&'static str>)
    ensures
        r matches Some(p) ==> prompt_for(a) == Some(p@),
        r is None <==> prompt_for(a) is None,
{
    match a {
        Action::RevisionChanges => Some("show changes from (ctrl+c to cancel): "),
        Action::RevisionDiff => Some("show diff from (ctrl+c to cancel): "),
        Action::CommitAll => Some("commit message (ctrl+c to cancel): "),
        Action::Update => Some("update to (ctrl+c to cancel): "),
        Action::Merge => Some("merge with (ctrl+c to cancel): "),
        Action::CreateTag => Some("tag name (ctrl+c to cancel): "),
        Action::CreateBranch => Some("branch name (ctrl+c to cancel): "),
        Action::CloseBranch => Some("branch to close (ctrl+c to cancel): "),
        _ => None,
    }
}

/// The prompt shown for the commit message of a selective commit, after the
/// selection list has been confirmed.
pub open spec fn commit_message_prompt() -> Seq<char> {
    "commit message (ctrl+c to cancel): "@
}

/// Returns the commit-message prompt of the selective commit.
pub fn commit_message_text() -> (r: &'static str)
    ensures
        r@ == commit_message_prompt(),
{
    "commit message (ctrl+c to cancel): "
}

/// One concrete backend invocation, with every argument it needs already
/// collected from the user.
#[derive(Debug, PartialEq, Eq)]
pub enum BackendOp {
    Status,
    Log,
    Changes(String),
    Diff(String),
    CommitAll(String),
    CommitSelected(String, Vec<Entry>),
    Revert,
    Update(String),
    Merge(String),
    Conflicts,
    TakeOther,
    TakeLocal,
    Fetch,
    Pull,
    Push,
    CreateTag(String),
    ListBranches,
    CreateBranch(String),
    CloseBranch(String),
}

/// The model of a backend invocation: its text arguments as character
/// sequences and its entries as entry models.
#[verifier::ext_equal]
pub enum OpModel {
    Status,
    Log,
    Changes(Seq<char>),
    Diff(Seq<char>),
    CommitAll(Seq<char>),
    CommitSelected(Seq<char>, Seq<EntryModel>),
    Revert,
    Update(Seq<char>),
    Merge(Seq<char>),
    Conflicts,
    TakeOther,
    TakeLocal,
    Fetch,
    Pull,
    Push,
    CreateTag(Seq<char>),
    ListBranches,
    CreateBranch(Seq<char>),
    CloseBranch(Seq<char>),
}

impl View for BackendOp {
    type V = OpModel;

    open spec fn view(&self) -> OpModel {
        match self {
            BackendOp::Status => OpModel::Status,
            BackendOp::Log => OpModel::Log,
            BackendOp::Changes(s) => OpModel::Changes(s@),
            BackendOp::Diff(s) => OpModel::Diff(s@),
            BackendOp::CommitAll(s) => OpModel::CommitAll(s@),
            BackendOp::CommitSelected(s, es) => OpModel::CommitSelected(s@, entries_view(es@)),
            BackendOp::Revert => OpModel::Revert,
            BackendOp::Update(s) => OpModel::Update(s@),
            BackendOp::Merge(s) => OpModel::Merge(s@),
            BackendOp::Conflicts => OpModel::Conflicts,
            BackendOp::TakeOther => OpModel::TakeOther,
            BackendOp::TakeLocal => OpModel::TakeLocal,
            BackendOp::Fetch => OpModel::Fetch,
            BackendOp::Pull => OpModel::Pull,
            BackendOp::Push => OpModel::Push,
            BackendOp::CreateTag(s) => OpModel::CreateTag(s@),
            BackendOp::ListBranches => OpModel::ListBranches,
            BackendOp::CreateBranch(s) => OpModel::CreateBranch(s@),
            BackendOp::CloseBranch(s) => OpModel::CloseBranch(s@),
        }
    }
}

/// The invocation of an action that runs directly, with no prompt and no
/// selection: `None` for the three that do not call the backend that way
/// (help, explorer, selective commit) and for the prompted ones.
pub open spec fn direct_op(a: Action) -> Option<OpModel> {
    match a {
        Action::Status => Some(OpModel::Status),
        Action::Log => Some(OpModel::Log),
        Action::Revert => Some(OpModel::Revert),
        Action::Conflicts => Some(OpModel::Conflicts),
        Action::TakeOther => Some(OpModel::TakeOther),
        Action::TakeLocal => Some(OpModel::TakeLocal),
        Action::Fetch => Some(OpModel::Fetch),
        Action::Pull => Some(OpModel::Pull),
        Action::Push => Some(OpModel::Push),
        Action::ListBranches => Some(OpModel::ListBranches),
        _ => None,
    }
}

/// Builds the invocation of an action that runs directly.
pub fn make_direct_op(a: Action) -> (r: Option<BackendOp>)
    ensures
        r matches Some(op) ==> direct_op(a) == Some(op@),
        r is None <==> direct_op(a) is None,
{
    match a {
        Action::Status => Some(BackendOp::Status),
        Action::Log => Some(BackendOp::Log),
        Action::Revert => Some(BackendOp::Revert),
        Action::Conflicts => Some(BackendOp::Conflicts),
        Action::TakeOther => Some(BackendOp::TakeOther),
        Action::TakeLocal => Some(BackendOp::TakeLocal),
        Action::Fetch => Some(BackendOp::Fetch),
        Action::Pull => Some(BackendOp::Pull),
        Action::Push => Some(BackendOp::Push),
        Action::ListBranches => Some(BackendOp::ListBranches),
        _ => None,
    }
}

/// The invocation of a prompted action once its line of text has been
/// entered: `None` for an action that takes no prompt.
pub open spec fn prompted_op(a: Action, text: Seq<char>) -> Option<OpModel> {
    match a {
        Action::RevisionChanges => Some(OpModel::Changes(text)),
        Action::RevisionDiff => Some(OpModel::Diff(text)),
        Action::CommitAll => Some(OpModel::CommitAll(text)),
        Action::Update => Some(OpModel::Update(text)),
        Action::Merge => Some(OpModel::Merge(text)),
        Action::CreateTag => Some(OpModel::CreateTag(text)),
        Action::CreateBranch => Some(OpModel::CreateBranch(text)),
        Action::CloseBranch => Some(OpModel::CloseBranch(text)),
        _ => None,
    }
}

/// Builds the invocation of a prompted action from the entered line.
pub fn make_prompted_op(a: Action, text: String) -> (r: Option<BackendOp>)
    ensures
        r matches Some(op) ==> prompted_op(a, text@) == Some(op@),
        r is None <==> prompted_op(a, text@) is None,
{
    match a {
        Action::RevisionChanges => Some(BackendOp::Changes(text)),
        Action::RevisionDiff => Some(BackendOp::Diff(text)),
        Action::CommitAll => Some(BackendOp::CommitAll(text)),
        Action::Update => Some(BackendOp::Update(text)),
        Action::Merge => Some(BackendOp::Merge(text)),
        Action::CreateTag => Some(BackendOp::CreateTag(text)),
        Action::CreateBranch => Some(BackendOp::CreateBranch(text)),
        Action::CloseBranch => Some(BackendOp::CloseBranch(text)),
        _ => None,
    }
}

} // verus!
