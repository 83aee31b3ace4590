use verco_tui::actions::{Action, BackendOp, Key};
use verco_tui::backend::{StartDecision, VersionControlActions, evaluate_startup, perform};
use verco_tui::entry::Entry;
use verco_tui::render::{BannerKind, action_banner, banner_label, outcome_kind, outcome_payload};
use verco_tui::session::{Effect, Event, Mode, PromptResult, Session};

struct FakeBackend {
    calls: Vec<String>,
    files: Vec<(String, bool)>,
    last_commit: Option<(String, Vec<(String, bool)>)>,
}

impl FakeBackend {
    fn new() -> FakeBackend {
        FakeBackend { calls: Vec::new(), files: Vec::new(), last_commit: None }
    }
}

impl VersionControlActions for FakeBackend {
    fn version(&mut self) -> Result<String, String> {
        self.calls.push(String::from("version"));
        Ok(String::from("fake version control 1.0"))
    }

    fn status(&mut self) -> Result<String, String> {
        self.calls.push(String::from("status"));
        Ok(String::from("clean"))
    }

    fn log(&mut self) -> Result<String, String> {
        self.calls.push(String::from("log"));
        Ok(String::from("log output"))
    }

    fn changes(&mut self, revision: &str) -> Result<String, String> {
        self.calls.push(format!("changes({})", revision));
        Ok(String::from("changes output"))
    }

    fn diff(&mut self, revision: &str) -> Result<String, String> {
        self.calls.push(format!("diff({})", revision));
        Ok(String::from("diff output"))
    }

    fn commit_all(&mut self, message: &str) -> Result<String, String> {
        self.calls.push(format!("commit_all({})", message));
        Ok(String::from("committed"))
    }

    fn get_files_to_commit(&mut self) -> Result<Vec<Entry>, String> {
        self.calls.push(String::from("get_files_to_commit"));
        Ok(self
            .files
            .iter()
            .map(|(p, i)| Entry { path: p.clone(), included: *i })
            .collect())
    }

    fn commit_selected(
        &mut self,
        message: &str,
        entries: &Vec<Entry>,
    ) -> Result<String, String> {
        self.calls.push(format!("commit_selected({})", message));
        self.last_commit = Some((
            String::from(message),
            entries.iter().map(|e| (e.path.clone(), e.included)).collect(),
        ));
        Ok(String::from("committed selected"))
    }

    fn revert(&mut self) -> Result<String, String> {
        self.calls.push(String::from("revert"));
        Ok(String::from("reverted"))
    }

    fn update(&mut self, target: &str) -> Result<String, String> {
        self.calls.push(format!("update({})", target));
        Ok(String::from("updated"))
    }

    fn merge(&mut self, target: &str) -> Result<String, String> {
        self.calls.push(format!("merge({})", target));
        Ok(String::from("merged"))
    }

    fn conflicts(&mut self) -> Result<String, String> {
        self.calls.push(String::from("conflicts"));
        Ok(String::from("no conflicts"))
    }

    fn take_local(&mut self) -> Result<String, String> {
        self.calls.push(String::from("take_local"));
        Ok(String::from("took local"))
    }

    fn take_other(&mut self) -> Result<String, String> {
        self.calls.push(String::from("take_other"));
        Ok(String::from("took other"))
    }

    fn fetch(&mut self) -> Result<String, String> {
        self.calls.push(String::from("fetch"));
        Ok(String::from("fetched"))
    }

    fn pull(&mut self) -> Result<String, String> {
        self.calls.push(String::from("pull"));
        Ok(String::from("pulled"))
    }

    fn push(&mut self) -> Result<String, String> {
        self.calls.push(String::from("push"));
        Ok(String::from("pushed"))
    }

    fn create_tag(&mut self, name: &str) -> Result<String, String> {
        self.calls.push(format!("create_tag({})", name));
        Ok(String::from("tagged"))
    }

    fn list_branches(&mut self) -> Result<String, String> {
        self.calls.push(String::from("list_branches"));
        Ok(String::from("branches output"))
    }

    fn create_branch(&mut self, name: &str) -> Result<String, String> {
        self.calls.push(format!("create_branch({})", name));
        Ok(String::from("branch created"))
    }

    fn close_branch(&mut self, name: &str) -> Result<String, String> {
        self.calls.push(format!("close_branch({})", name));
        Ok(String::from("branch closed"))
    }
}

fn run_effects(vc: &mut FakeBackend, effects: &[Effect]) -> Vec<Result<String, String>> {
    let mut outcomes = Vec::new();
    for e in effects {
        if let Effect::Call(op) = e {
            outcomes.push(perform(vc, op));
        }
    }
    outcomes
}

#[test]
fn status_key_calls_status_and_shows_done() {
    // input `s` -> status(); backend answers Ok("clean"); the screen shows
    // the action banner "status" and then the success banner.
    let s = Session::new();
    let (s, effects) = s.step(Event::Key(Key::Char('s')));
    assert!(matches!(s.mode, Mode::Idle));
    assert_eq!(
        effects,
        vec![Effect::ShowAction(Action::Status), Effect::Call(BackendOp::Status)]
    );

    let mut vc = FakeBackend::new();
    let outcomes = run_effects(&mut vc, &effects);
    assert_eq!(vc.calls, vec![String::from("status")]);
    assert_eq!(outcomes, vec![Ok(String::from("clean"))]);

    let mut screen = String::new();
    screen.push_str(&action_banner(Action::Status));
    screen.push_str(&outcome_payload(&outcomes[0]));
    let kind = outcome_kind(&outcomes[0]);
    screen.push_str(banner_label(kind));
    assert_eq!(kind, BannerKind::Success);
    assert!(screen.contains("status"));
    assert!(screen.contains("clean"));
    assert!(screen.contains("done"));
}

#[test]
fn changes_key_prompts_then_calls_changes_with_text() {
    // input `d`, then the prompt text "abc123": changes("abc123") is called.
    let s = Session::new();
    let (s, effects) = s.step(Event::Key(Key::Char('d')));
    assert!(matches!(s.mode, Mode::Prompting { action: Action::RevisionChanges }));
    assert_eq!(effects[0], Effect::ShowAction(Action::RevisionChanges));
    assert_eq!(
        effects[1],
        Effect::PromptLine(String::from("show changes from (ctrl+c to cancel): "))
    );

    let (s, effects) = s.step(Event::Prompt(PromptResult::Line(String::from("abc123"))));
    assert!(matches!(s.mode, Mode::Idle));
    assert_eq!(
        effects,
        vec![Effect::Call(BackendOp::Changes(String::from("abc123")))]
    );

    let mut vc = FakeBackend::new();
    run_effects(&mut vc, &effects);
    assert_eq!(vc.calls, vec![String::from("changes(abc123)")]);
}

#[test]
fn interrupt_during_prompt_cancels_without_backend_call() {
    // input `d`, then an interrupt during the prompt: no call to changes,
    // the cancel banner is shown.
    let s = Session::new();
    let (s, _) = s.step(Event::Key(Key::Char('d')));
    let (s, effects) = s.step(Event::Prompt(PromptResult::Canceled));
    assert!(matches!(s.mode, Mode::Idle));
    assert_eq!(effects, vec![Effect::ShowCanceled]);

    let mut vc = FakeBackend::new();
    let outcomes = run_effects(&mut vc, &effects);
    assert!(vc.calls.is_empty());
    assert!(outcomes.is_empty());
    assert_eq!(banner_label(BannerKind::Cancel), "canceled");
}

#[test]
fn selective_commit_passes_confirmed_flags_in_order() {
    // input `C`; the backend reports three entries; the user moves to the
    // second, toggles it off, confirms, and enters "fix bug": the backend
    // gets commit_selected("fix bug", ...) with entries 1 and 3 included,
    // entry 2 excluded, in the original order.
    let mut vc = FakeBackend::new();
    vc.files = vec![
        (String::from("a.txt"), true),
        (String::from("b.txt"), true),
        (String::from("c.txt"), true),
    ];

    let s = Session::new();
    let (s, effects) = s.step(Event::Key(Key::Char('C')));
    assert_eq!(
        effects,
        vec![Effect::ShowAction(Action::CommitSelected), Effect::LoadFiles]
    );

    let files = vc.get_files_to_commit().unwrap();
    let (s, effects) = s.step(Event::FilesLoaded(Ok(files)));
    assert_eq!(effects, vec![Effect::DrawSelection]);

    let (s, _) = s.step(Event::Key(Key::Down)); // to the second entry
    let (s, _) = s.step(Event::Key(Key::Char(' '))); // toggle it off
    let (s, effects) = s.step(Event::Key(Key::Char('\n'))); // confirm
    assert_eq!(
        effects,
        vec![Effect::PromptLine(String::from("commit message (ctrl+c to cancel): "))]
    );

    let (s, effects) = s.step(Event::Prompt(PromptResult::Line(String::from("fix bug"))));
    assert!(matches!(s.mode, Mode::Idle));
    run_effects(&mut vc, &effects);

    let (message, entries) = vc.last_commit.clone().unwrap();
    assert_eq!(message, "fix bug");
    assert_eq!(
        entries,
        vec![
            (String::from("a.txt"), true),
            (String::from("b.txt"), false),
            (String::from("c.txt"), true),
        ]
    );
}

#[test]
fn failed_version_probe_is_fatal_before_the_loop() {
    // the backend cannot report its version at startup: the session never
    // starts and the failure is reported as fatal.
    let decision = evaluate_startup(Err(String::from("no tool found")));
    match decision {
        StartDecision::Fatal { error } => assert_eq!(error, "no tool found"),
        StartDecision::Proceed { .. } => panic!("a failed probe must be fatal"),
    }
    let decision = evaluate_startup(Ok(String::from("git 2.40")));
    match decision {
        StartDecision::Proceed { version_line } => assert_eq!(version_line, "git 2.40"),
        StartDecision::Fatal { .. } => panic!("a successful probe must proceed"),
    }
}

#[test]
fn unmapped_keys_are_ignored() {
    let s = Session::new();
    let (s, effects) = s.step(Event::Key(Key::Char('x')));
    assert!(matches!(s.mode, Mode::Idle));
    assert!(effects.is_empty());
    let (s, effects) = s.step(Event::Key(Key::Ctrl('z')));
    assert!(matches!(s.mode, Mode::Idle));
    assert!(effects.is_empty());
    let (s, effects) = s.step(Event::Key(Key::Other));
    assert!(matches!(s.mode, Mode::Idle));
    assert!(effects.is_empty());
}

#[test]
fn quit_combination_emits_quit() {
    let s = Session::new();
    let (_, effects) = s.step(Event::Key(Key::Ctrl('c')));
    assert_eq!(effects, vec![Effect::Quit]);
}

#[test]
fn control_bindings_have_their_own_namespace() {
    // plain `r` asks for conflicts, ctrl+r takes local, ctrl+b prompts for
    // the branch to close while plain `b` lists branches.
    let s = Session::new();
    let (s, effects) = s.step(Event::Key(Key::Char('r')));
    assert_eq!(
        effects,
        vec![Effect::ShowAction(Action::Conflicts), Effect::Call(BackendOp::Conflicts)]
    );
    let (s, effects) = s.step(Event::Key(Key::Ctrl('r')));
    assert_eq!(
        effects,
        vec![Effect::ShowAction(Action::TakeLocal), Effect::Call(BackendOp::TakeLocal)]
    );
    let (s, effects) = s.step(Event::Key(Key::Char('b')));
    assert_eq!(
        effects,
        vec![Effect::ShowAction(Action::ListBranches), Effect::Call(BackendOp::ListBranches)]
    );
    let (s, effects) = s.step(Event::Key(Key::Ctrl('b')));
    assert!(matches!(s.mode, Mode::Prompting { action: Action::CloseBranch }));
    assert_eq!(effects[0], Effect::ShowAction(Action::CloseBranch));
    assert_eq!(
        effects[1],
        Effect::PromptLine(String::from("branch to close (ctrl+c to cancel): "))
    );
}

#[test]
fn empty_prompt_line_is_passed_through() {
    let s = Session::new();
    let (s, _) = s.step(Event::Key(Key::Char('c')));
    let (_, effects) = s.step(Event::Prompt(PromptResult::Line(String::new())));
    assert_eq!(effects, vec![Effect::Call(BackendOp::CommitAll(String::new()))]);
}

#[test]
fn prompt_input_failure_makes_no_backend_call() {
    let s = Session::new();
    let (s, _) = s.step(Event::Key(Key::Char('m')));
    let (s, effects) = s.step(Event::Prompt(PromptResult::Failed(String::from("broken pipe"))));
    assert!(matches!(s.mode, Mode::Idle));
    assert_eq!(effects, vec![Effect::ShowInputError(String::from("broken pipe"))]);
}

#[test]
fn files_query_failure_shows_error_and_returns_to_idle() {
    let s = Session::new();
    let (s, _) = s.step(Event::Key(Key::Char('C')));
    let (s, effects) = s.step(Event::FilesLoaded(Err(String::from("query failed"))));
    assert!(matches!(s.mode, Mode::Idle));
    assert_eq!(effects, vec![Effect::ShowError(String::from("query failed"))]);
}

#[test]
fn aborting_the_selection_cancels_the_commit() {
    let mut vc = FakeBackend::new();
    vc.files = vec![(String::from("a.txt"), true)];
    let s = Session::new();
    let (s, _) = s.step(Event::Key(Key::Char('C')));
    let files = vc.get_files_to_commit().unwrap();
    let (s, _) = s.step(Event::FilesLoaded(Ok(files)));
    let (s, effects) = s.step(Event::Key(Key::Ctrl('c')));
    assert!(matches!(s.mode, Mode::Idle));
    assert_eq!(effects, vec![Effect::ShowCanceled]);
    assert!(vc.last_commit.is_none());
}

#[test]
fn cancelling_the_commit_message_makes_no_backend_call() {
    let mut vc = FakeBackend::new();
    vc.files = vec![(String::from("a.txt"), true)];
    let s = Session::new();
    let (s, _) = s.step(Event::Key(Key::Char('C')));
    let files = vc.get_files_to_commit().unwrap();
    let (s, _) = s.step(Event::FilesLoaded(Ok(files)));
    let (s, _) = s.step(Event::Key(Key::Char('\n')));
    let (s, effects) = s.step(Event::Prompt(PromptResult::Canceled));
    assert!(matches!(s.mode, Mode::Idle));
    assert_eq!(effects, vec![Effect::ShowCanceled]);
    let outcomes = run_effects(&mut vc, &effects);
    assert!(outcomes.is_empty());
    assert!(vc.last_commit.is_none());
}

#[test]
fn every_direct_action_reaches_its_operation() {
    let cases: Vec<(char, &str)> = vec![
        ('s', "status"),
        ('l', "log"),
        ('U', "revert"),
        ('r', "conflicts"),
        ('R', "take_other"),
        ('f', "fetch"),
        ('p', "pull"),
        ('P', "push"),
        ('b', "list_branches"),
    ];
    for (key, expected) in cases {
        let mut vc = FakeBackend::new();
        let s = Session::new();
        let (_, effects) = s.step(Event::Key(Key::Char(key)));
        run_effects(&mut vc, &effects);
        assert_eq!(vc.calls, vec![String::from(expected)]);
    }
}

#[test]
fn every_prompted_action_reaches_its_operation_with_the_text() {
    let cases: Vec<(Key, &str)> = vec![
        (Key::Char('d'), "changes(x)"),
        (Key::Char('D'), "diff(x)"),
        (Key::Char('c'), "commit_all(x)"),
        (Key::Char('u'), "update(x)"),
        (Key::Char('m'), "merge(x)"),
        (Key::Char('T'), "create_tag(x)"),
        (Key::Char('B'), "create_branch(x)"),
        (Key::Ctrl('b'), "close_branch(x)"),
    ];
    for (key, expected) in cases {
        let mut vc = FakeBackend::new();
        let s = Session::new();
        let (s, _) = s.step(Event::Key(key));
        let (_, effects) = s.step(Event::Prompt(PromptResult::Line(String::from("x"))));
        run_effects(&mut vc, &effects);
        assert_eq!(vc.calls, vec![String::from(expected)]);
    }
}

#[test]
fn help_and_explorer_do_not_call_the_backend() {
    let mut vc = FakeBackend::new();
    let s = Session::new();
    let (s, effects) = s.step(Event::Key(Key::Char('h')));
    assert_eq!(effects, vec![Effect::ShowAction(Action::Help), Effect::ShowHelp]);
    let (_, effects) = s.step(Event::Key(Key::Char('e')));
    assert_eq!(effects, vec![Effect::ShowAction(Action::Explorer), Effect::OpenExplorer]);
    let outcomes = run_effects(&mut vc, &effects);
    assert!(outcomes.is_empty());
    assert!(vc.calls.is_empty());
}
