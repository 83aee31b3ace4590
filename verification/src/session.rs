use vstd::prelude::*;
use crate::actions::{
    Action, BackendOp, Key, OpModel, action_for, commit_message_prompt, commit_message_text,
    direct_op, lookup_action, make_direct_op, make_prompted_op, prompt_for, prompt_text,
    prompted_op, requires_prompt,
};
use crate::entry::{Entry, EntryModel, entries_view, included_paths};
use crate::select::{ListModel, SelectOutcome, SelectionList, select_step};

verus! {

/// What the session is waiting for: a key in idle mode, the line of a
/// prompted action, the backend's file batch, a key in the selection list,
/// or the commit message of a confirmed selective commit. Exactly one holds
/// at any instant.
#[derive(Debug)]
pub enum Mode {
    Idle,
    Prompting { action: Action },
    LoadingFiles,
    Selecting { list: SelectionList },
    MessagePrompt { entries: Vec<Entry> },
}

/// The model of a [`Mode`].
#[verifier::ext_equal]
pub enum ModeModel {
    Idle,
    Prompting { action: Action },
    LoadingFiles,
    Selecting { list: ListModel },
    MessagePrompt { entries: Seq<EntryModel> },
}

impl View for Mode {
    type V = ModeModel;

    open spec fn view(&self) -> ModeModel {
        match self {
            Mode::Idle => ModeModel::Idle,
            Mode::Prompting { action } => ModeModel::Prompting { action: *action },
            Mode::LoadingFiles => ModeModel::LoadingFiles,
            Mode::Selecting { list } => ModeModel::Selecting { list: list@ },
            Mode::MessagePrompt { entries } => ModeModel::MessagePrompt {
                entries: entries_view(entries@),
            },
        }
    }
}

/// The dispatcher's run-time state: the current mode and the last matched
/// action, kept for banner display.
#[derive(Debug)]
pub struct Session {
    pub mode: Mode,
    pub last_action: Option<Action>,
}

/// The model of a [`Session`].
#[verifier::ext_equal]
pub struct SessionModel {
    pub mode: ModeModel,
    pub last_action: Option<Action>,
}

impl View for Session {
    type V = SessionModel;

    open spec fn view(&self) -> SessionModel {
        SessionModel { mode: self.mode@, last_action: self.last_action }
    }
}

impl SessionModel {
    /// A selection list under way keeps its cursor on an entry, and a
    /// prompt is only ever awaited for an action that takes one.
    pub open spec fn wf(self) -> bool {
        match self.mode {
            ModeModel::Selecting { list } => list.wf(),
            ModeModel::Prompting { action } => requires_prompt(action),
            _ => true,
        }
    }
}

/// What the user's line prompt came back with: the entered text (empty is
/// valid and passed through unchanged), a cancellation (interrupt or
/// end of input), or any other input failure, which never crashes the
/// session and is treated as "no input obtained".
#[derive(Debug)]
pub enum PromptResult {
    Line(String),
    Canceled,
    Failed(String),
}

/// The model of a [`PromptResult`].
#[verifier::ext_equal]
pub enum PromptModel {
    Line(Seq<char>),
    Canceled,
    Failed(Seq<char>),
}

impl View for PromptResult {
    type V = PromptModel;

    open spec fn view(&self) -> PromptModel {
        match self {
            PromptResult::Line(s) => PromptModel::Line(s@),
            PromptResult::Canceled => PromptModel::Canceled,
            PromptResult::Failed(s) => PromptModel::Failed(s@),
        }
    }
}

/// One input to the session: a captured key, the result of a line prompt,
/// or the backend's answer to the files-to-commit query.
#[derive(Debug)]
pub enum Event {
    Key(Key),
    Prompt(PromptResult),
    FilesLoaded(Result<Vec<Entry>, String>),
}

/// The model of an [`Event`].
#[verifier::ext_equal]
pub enum EventModel {
    Key(Key),
    Prompt(PromptModel),
    FilesLoaded(Result<Seq<EntryModel>, Seq<char>>),
}

impl View for Event {
    type V = EventModel;

    open spec fn view(&self) -> EventModel {
        match self {
            Event::Key(k) => EventModel::Key(*k),
            Event::Prompt(p) => EventModel::Prompt(p@),
            Event::FilesLoaded(r) => EventModel::FilesLoaded(
                match r {
                    Ok(v) => Ok(entries_view(v@)),
                    Err(e) => Err(e@),
                },
            ),
        }
    }
}

/// One thing the embedding program must do after a step: leave the loop,
/// render a banner or the help listing, open the file explorer, run the
/// line prompt, query the files to commit, redraw the selection list, or
/// call the backend and render its outcome.
#[derive(Debug, PartialEq, Eq)]
pub enum Effect {
    Quit,
    ShowAction(Action),
    ShowHelp,
    OpenExplorer,
    PromptLine(String),
    LoadFiles,
    DrawSelection,
    Call(BackendOp),
    ShowCanceled,
    ShowError(String),
    ShowInputError(String),
}

/// The model of an [`Effect`].
#[verifier::ext_equal]
pub enum EffectModel {
    Quit,
    ShowAction(Action),
    ShowHelp,
    OpenExplorer,
    PromptLine(Seq<char>),
    LoadFiles,
    DrawSelection,
    Call(OpModel),
    ShowCanceled,
    ShowError(Seq<char>),
    ShowInputError(Seq<char>),
}

impl View for Effect {
    type V = EffectModel;

    open spec fn view(&self) -> EffectModel {
        match self {
            Effect::Quit => EffectModel::Quit,
            Effect::ShowAction(a) => EffectModel::ShowAction(*a),
            Effect::ShowHelp => EffectModel::ShowHelp,
            Effect::OpenExplorer => EffectModel::OpenExplorer,
            Effect::PromptLine(s) => EffectModel::PromptLine(s@),
            Effect::LoadFiles => EffectModel::LoadFiles,
            Effect::DrawSelection => EffectModel::DrawSelection,
            Effect::Call(op) => EffectModel::Call(op@),
            Effect::ShowCanceled => EffectModel::ShowCanceled,
            Effect::ShowError(s) => EffectModel::ShowError(s@),
            Effect::ShowInputError(s) => EffectModel::ShowInputError(s@),
        }
    }
}

/// The models of a list of effects, in order.
pub open spec fn effects_view(v: Seq<Effect>) -> Seq<EffectModel> {
    v.map_values(|e: Effect| e@)
}

/// Whether a list of effects calls the backend at all.
pub open spec fn calls_backend(effs: Seq<EffectModel>) -> bool {
    exists|i: int| 0 <= i < effs.len() && effs[i] is Call
}

/// Dispatch of a matched (or unmatched) action from idle mode. An
/// unmatched key is silently ignored. A matched action first shows its
/// action banner; help and the explorer are handled locally, the selective
/// commit queries the backend for its file batch, a prompted action asks
/// for its line, and every other action calls the backend directly.
pub open spec fn dispatch(s: SessionModel, oa: Option<Action>) -> (SessionModel, Seq<
    EffectModel,
>) {
    match oa {
        None => (s, Seq::<EffectModel>::empty()),
        Some(a) => {
            if a == Action::Help {
                (
                    SessionModel { last_action: Some(a), ..s },
                    seq![EffectModel::ShowAction(a), EffectModel::ShowHelp],
                )
            } else if a == Action::Explorer {
                (
                    SessionModel { last_action: Some(a), ..s },
                    seq![EffectModel::ShowAction(a), EffectModel::OpenExplorer],
                )
            } else if a == Action::CommitSelected {
                (
                    SessionModel { mode: ModeModel::LoadingFiles, last_action: Some(a) },
                    seq![EffectModel::ShowAction(a), EffectModel::LoadFiles],
                )
            } else {
                match prompt_for(a) {
                    Some(p) => (
                        SessionModel { mode: ModeModel::Prompting { action: a }, last_action: Some(a) },
                        seq![EffectModel::ShowAction(a), EffectModel::PromptLine(p)],
                    ),
                    None => match direct_op(a) {
                        Some(op) => (
                            SessionModel { mode: ModeModel::Idle, last_action: Some(a) },
                            seq![EffectModel::ShowAction(a), EffectModel::Call(op)],
                        ),
                        None => (s, Seq::<EffectModel>::empty()),
                    },
                }
            }
        },
    }
}

/// A key in idle mode: ctrl+c quits, any other combination goes through
/// the binding table, and the special keys do nothing.
pub open spec fn idle_key(s: SessionModel, k: Key) -> (SessionModel, Seq<EffectModel>) {
    match k {
        Key::Ctrl(c) => if c == 'c' {
            (s, seq![EffectModel::Quit])
        } else {
            dispatch(s, action_for(c, true))
        },
        Key::Char(c) => dispatch(s, action_for(c, false)),
        _ => (s, Seq::<EffectModel>::empty()),
    }
}

/// The line of a prompted action: entered text builds the backend call,
/// cancellation shows the cancel banner and makes no backend call, and an
/// input failure reports the error and makes no backend call either.
pub open spec fn prompt_step(s: SessionModel, a: Action, p: PromptModel) -> (SessionModel, Seq<
    EffectModel,
>) {
    let idle = SessionModel { mode: ModeModel::Idle, last_action: s.last_action };
    match p {
        PromptModel::Line(t) => match prompted_op(a, t) {
            Some(op) => (idle, seq![EffectModel::Call(op)]),
            None => (idle, Seq::<EffectModel>::empty()),
        },
        PromptModel::Canceled => (idle, seq![EffectModel::ShowCanceled]),
        PromptModel::Failed(m) => (idle, seq![EffectModel::ShowInputError(m)]),
    }
}

/// The backend's file batch for a selective commit: on success the
/// selection list opens over it, on failure the error is rendered and the
/// session is idle again.
pub open spec fn files_step(s: SessionModel, r: Result<Seq<EntryModel>, Seq<char>>) -> (
    SessionModel,
    Seq<EffectModel>,
) {
    match r {
        Ok(es) => (
            SessionModel {
                mode: ModeModel::Selecting { list: ListModel { entries: es, cursor: 0 } },
                last_action: s.last_action,
            },
            seq![EffectModel::DrawSelection],
        ),
        Err(m) => (
            SessionModel { mode: ModeModel::Idle, last_action: s.last_action },
            seq![EffectModel::ShowError(m)],
        ),
    }
}

/// A key in the selection list: while it stays active the list is redrawn;
/// a confirmation keeps the batch, with its flags exactly as they stand,
/// and asks for the commit message; an abort discards the batch and shows
/// the cancel banner.
pub open spec fn selecting_step(s: SessionModel, l: ListModel, k: Key) -> (SessionModel, Seq<
    EffectModel,
>) {
    let (l2, out) = select_step(l, k);
    match out {
        SelectOutcome::Pending => (
            SessionModel { mode: ModeModel::Selecting { list: l2 }, last_action: s.last_action },
            seq![EffectModel::DrawSelection],
        ),
        SelectOutcome::Confirmed => (
            SessionModel {
                mode: ModeModel::MessagePrompt { entries: l2.entries },
                last_action: s.last_action,
            },
            seq![EffectModel::PromptLine(commit_message_prompt())],
        ),
        SelectOutcome::Aborted => (
            SessionModel { mode: ModeModel::Idle, last_action: s.last_action },
            seq![EffectModel::ShowCanceled],
        ),
    }
}

/// The commit message of a confirmed selective commit: entered text calls
/// the backend with the batch exactly as confirmed; cancellation and input
/// failure make no backend call.
pub open spec fn message_step(s: SessionModel, entries: Seq<EntryModel>, p: PromptModel) -> (
    SessionModel,
    Seq<EffectModel>,
) {
    let idle = SessionModel { mode: ModeModel::Idle, last_action: s.last_action };
    match p {
        PromptModel::Line(m) => (
            idle,
            seq![EffectModel::Call(OpModel::CommitSelected(m, entries))],
        ),
        PromptModel::Canceled => (idle, seq![EffectModel::ShowCanceled]),
        PromptModel::Failed(m) => (idle, seq![EffectModel::ShowInputError(m)]),
    }
}

/// The whole input protocol in one transition function: what the session
/// becomes and what the embedding program must do, for every state and
/// every input. An input that the current mode is not waiting for changes
/// nothing.
pub open spec fn next(s: SessionModel, e: EventModel) -> (SessionModel, Seq<EffectModel>) {
    match (s.mode, e) {
        (ModeModel::Idle, EventModel::Key(k)) => idle_key(s, k),
        (ModeModel::Prompting { action }, EventModel::Prompt(p)) => prompt_step(s, action, p),
        (ModeModel::LoadingFiles, EventModel::FilesLoaded(r)) => files_step(s, r),
        (ModeModel::Selecting { list }, EventModel::Key(k)) => selecting_step(s, list, k),
        (ModeModel::MessagePrompt { entries }, EventModel::Prompt(p)) => message_step(
            s,
            entries,
            p,
        ),
        _ => (s, Seq::<EffectModel>::empty()),
    }
}

fn eff0() -> (r: Vec<Effect>)
    ensures
        effects_view(r@) == Seq::<EffectModel>::empty(),
{
    let v: Vec<Effect> = Vec::new();
    proof {
        assert(effects_view(v@) =~= Seq::<EffectModel>::empty());
    }
    v
}

fn eff1(a: Effect) -> (r: Vec<Effect>)
    ensures
        effects_view(r@) == seq![a@],
{
    let ghost am = a@;
    let mut v: Vec<Effect> = Vec::new();
    v.push(a);
    proof {
        assert(effects_view(v@) =~= seq![am]);
    }
    v
}

fn eff2(a: Effect, b: Effect) -> (r: Vec<Effect>)
    ensures
        effects_view(r@) == seq![a@, b@],
{
    let ghost am = a@;
    let ghost bm = b@;
    let mut v: Vec<Effect> = Vec::new();
    v.push(a);
    v.push(b);
    proof {
        assert(effects_view(v@) =~= seq![am, bm]);
    }
    v
}

/// Dispatches one key/modifier pair from idle mode through the binding
/// table, as [`dispatch`] says.
fn handle_lookup(last_action: Option<Action>, c: char, is_control_held: bool) -> (r: (
    Session,
    Vec<Effect>,
))
    ensures
        ({
            let s = SessionModel { mode: ModeModel::Idle, last_action };
            &&& r.0@ == dispatch(s, action_for(c, is_control_held)).0
            &&& effects_view(r.1@) == dispatch(s, action_for(c, is_control_held)).1
            &&& r.0@.wf()
        }),
{
    match lookup_action(c, is_control_held) {
        None => (Session { mode: Mode::Idle, last_action }, eff0()),
        Some(a) => match a {
            Action::Help => (
                Session { mode: Mode::Idle, last_action: Some(a) },
                eff2(Effect::ShowAction(a), Effect::ShowHelp),
            ),
            Action::Explorer => (
                Session { mode: Mode::Idle, last_action: Some(a) },
                eff2(Effect::ShowAction(a), Effect::OpenExplorer),
            ),
            Action::CommitSelected => (
                Session { mode: Mode::LoadingFiles, last_action: Some(a) },
                eff2(Effect::ShowAction(a), Effect::LoadFiles),
            ),
            _ => {
                if let Some(p) = prompt_text(a) {
                    (
                        Session { mode: Mode::Prompting { action: a }, last_action: Some(a) },
                        eff2(Effect::ShowAction(a), Effect::PromptLine(p.to_owned())),
                    )
                } else if let Some(op) = make_direct_op(a) {
                    (
                        Session { mode: Mode::Idle, last_action: Some(a) },
                        eff2(Effect::ShowAction(a), Effect::Call(op)),
                    )
                } else {
                    (Session { mode: Mode::Idle, last_action }, eff0())
                }
            },
        },
    }
}

impl Session {
    /// A fresh session: idle, no action run yet.
    pub fn new() -> (r: Session)
        ensures
            r@ == (SessionModel { mode: ModeModel::Idle, last_action: None }),
            r@.wf(),
    {
        Session { mode: Mode::Idle, last_action: None }
    }

    /// Feeds one input to the session and returns the session afterwards
    /// together with the effects the embedding program must perform, in
    /// order — exactly as the transition function [`next`] says.
    pub fn step(self, event: Event) -> (r: (Session, Vec<Effect>))
        requires
            self@.wf(),
        ensures
            r.0@ == next(self@, event@).0,
            effects_view(r.1@) == next(self@, event@).1,
            r.0@.wf(),
    {
        let ghost s0 = self@;
        let ghost e0 = event@;
        let Session { mode, last_action } = self;
        match (mode, event) {
            (Mode::Idle, Event::Key(k)) => {
                match k {
                    Key::Ctrl(c) => {
                        if c == 'c' {
                            (Session { mode: Mode::Idle, last_action }, eff1(Effect::Quit))
                        } else {
                            handle_lookup(last_action, c, true)
                        }
                    },
                    Key::Char(c) => handle_lookup(last_action, c, false),
                    _ => (Session { mode: Mode::Idle, last_action }, eff0()),
                }
            },
            (Mode::Prompting { action }, Event::Prompt(p)) => {
                match p {
                    PromptResult::Line(t) => {
                        if let Some(op) = make_prompted_op(action, t) {
                            (
                                Session { mode: Mode::Idle, last_action },
                                eff1(Effect::Call(op)),
                            )
                        } else {
                            (Session { mode: Mode::Idle, last_action }, eff0())
                        }
                    },
                    PromptResult::Canceled => (
                        Session { mode: Mode::Idle, last_action },
                        eff1(Effect::ShowCanceled),
                    ),
                    PromptResult::Failed(m) => (
                        Session { mode: Mode::Idle, last_action },
                        eff1(Effect::ShowInputError(m)),
                    ),
                }
            },
            (Mode::LoadingFiles, Event::FilesLoaded(res)) => {
                match res {
                    Ok(entries) => {
                        let list = SelectionList::new(entries);
                        (
                            Session { mode: Mode::Selecting { list }, last_action },
                            eff1(Effect::DrawSelection),
                        )
                    },
                    Err(e) => (
                        Session { mode: Mode::Idle, last_action },
                        eff1(Effect::ShowError(e)),
                    ),
                }
            },
            (Mode::Selecting { list }, Event::Key(k)) => {
                let mut l = list;
                let out = l.step(k);
                match out {
                    SelectOutcome::Pending => (
                        Session { mode: Mode::Selecting { list: l }, last_action },
                        eff1(Effect::DrawSelection),
                    ),
                    SelectOutcome::Confirmed => (
                        Session { mode: Mode::MessagePrompt { entries: l.entries }, last_action },
                        eff1(Effect::PromptLine(commit_message_text().to_owned())),
                    ),
                    SelectOutcome::Aborted => (
                        Session { mode: Mode::Idle, last_action },
                        eff1(Effect::ShowCanceled),
                    ),
                }
            },
            (Mode::MessagePrompt { entries }, Event::Prompt(p)) => {
                match p {
                    PromptResult::Line(m) => (
                        Session { mode: Mode::Idle, last_action },
                        eff1(Effect::Call(BackendOp::CommitSelected(m, entries))),
                    ),
                    PromptResult::Canceled => (
                        Session { mode: Mode::Idle, last_action },
                        eff1(Effect::ShowCanceled),
                    ),
                    PromptResult::Failed(m) => (
                        Session { mode: Mode::Idle, last_action },
                        eff1(Effect::ShowInputError(m)),
                    ),
                }
            },
            (m, _) => (Session { mode: m, last_action }, eff0()),
        }
    }
}

/// A key/modifier pair that is not in the binding table, and is not the
/// quit combination, leaves the session unchanged and has no effect at
/// all: unmapped keys are no-ops by design, not errors.
pub proof fn lemma_unmapped_key_is_noop(s: SessionModel, key: Key)
    requires
        s.mode is Idle,
        key matches Key::Char(c) ==> action_for(c, false) is None,
        key matches Key::Ctrl(c) ==> c != 'c' && action_for(c, true) is None,
    ensures
        next(s, EventModel::Key(key)).0 == s,
        next(s, EventModel::Key(key)).1 == Seq::<EffectModel>::empty(),
{
}

/// Cancelling the prompt of any action that takes one — a prompted action's
/// line or the commit message of a selective commit — results in zero
/// backend calls and exactly the cancel banner.
pub proof fn lemma_cancel_short_circuits(s: SessionModel)
    requires
        s.mode is Prompting || s.mode is MessagePrompt,
    ensures
        next(s, EventModel::Prompt(PromptModel::Canceled)).0.mode is Idle,
        next(s, EventModel::Prompt(PromptModel::Canceled)).1 == seq![EffectModel::ShowCanceled],
        !calls_backend(next(s, EventModel::Prompt(PromptModel::Canceled)).1),
{
    let effs = next(s, EventModel::Prompt(PromptModel::Canceled)).1;
    assert(effs == seq![EffectModel::ShowCanceled]);
    assert(forall|i: int| 0 <= i < effs.len() ==> !(effs[i] is Call));
}

/// At most one backend call is ever in flight: no step of the session asks
/// for more than one backend invocation, whatever the state and the input.
pub proof fn lemma_at_most_one_backend_call(s: SessionModel, e: EventModel)
    ensures
        ({
            let effs = next(s, e).1;
            forall|i: int, j: int|
                0 <= i < effs.len() && 0 <= j < effs.len() && effs[i] is Call && effs[j] is Call
                    ==> i == j
        }),
{
}

/// After a confirmed exit from the selection list and an entered commit
/// message, the backend is called with exactly the confirmed batch: same
/// entries, same inclusion flags, same order — whatever navigation came
/// before. In particular the included paths handed to the backend are
/// exactly those whose flag stood at confirmation time.
pub proof fn lemma_selective_commit_exact(s: SessionModel, message: Seq<char>)
    requires
        s.mode matches ModeModel::Selecting { list } && list.wf(),
    ensures
        ({
            let confirmed = next(s, EventModel::Key(Key::Char('\n')));
            let sent = next(confirmed.0, EventModel::Prompt(PromptModel::Line(message)));
            let batch = s.mode->Selecting_list.entries;
            &&& confirmed.0.mode == (ModeModel::MessagePrompt { entries: batch })
            &&& sent.0.mode is Idle
            &&& sent.1 == seq![EffectModel::Call(OpModel::CommitSelected(message, batch))]
            &&& sent.1[0]->Call_0->CommitSelected_1 == batch
            &&& included_paths(sent.1[0]->Call_0->CommitSelected_1) == included_paths(batch)
        }),
{
}

} // verus!
