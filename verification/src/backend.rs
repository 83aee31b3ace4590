use vstd::prelude::*;
use crate::actions::BackendOp;
use crate::entry::Entry;

verus! {

/// The version-control capability this core is a front end for. A concrete
/// tool is a swappable implementation behind this fixed set of named
/// operations, each returning either a success text or a failure text,
/// passed through verbatim. The embedding program supplies the
/// implementation; nothing is assumed here about what any operation
/// returns.
pub trait VersionControlActions {
    /// The tool's own version, or a failure that is fatal at startup.
    fn version(&mut self) -> Result<String, String>;

    fn status(&mut self) -> Result<String, String>;

    fn log(&mut self) -> Result<String, String>;

    fn changes(&mut self, revision: &str) -> Result<String, String>;

    fn diff(&mut self, revision: &str) -> Result<String, String>;

    fn commit_all(&mut self, message: &str) -> Result<String, String>;

    /// The working-copy files a selective commit may include, in listing
    /// order, each with its default inclusion flag.
    fn get_files_to_commit(&mut self) -> Result<Vec<Entry>, String>;

    fn commit_selected(&mut self, message: &str, entries: &Vec<Entry>) -> Result<String, String>;

    fn revert(&mut self) -> Result<String, String>;

    fn update(&mut self, target: &str) -> Result<String, String>;

    fn merge(&mut self, target: &str) -> Result<String, String>;

    fn conflicts(&mut self) -> Result<String, String>;

    fn take_local(&mut self) -> Result<String, String>;

    fn take_other(&mut self) -> Result<String, String>;

    fn fetch(&mut self) -> Result<String, String>;

    fn pull(&mut self) -> Result<String, String>;

    fn push(&mut self) -> Result<String, String>;

    fn create_tag(&mut self, name: &str) -> Result<String, String>;

    fn list_branches(&mut self) -> Result<String, String>;

    fn create_branch(&mut self, name: &str) -> Result<String, String>;

    fn close_branch(&mut self, name: &str) -> Result<String, String>;
}

/// Runs one collected backend invocation against the capability: a pure
/// lookup from operation to trait method, with every argument already in
/// place. At most one such call is ever in flight; it blocks until the
/// tool is done.
pub fn perform<T: VersionControlActions>(vc: &mut T, op: &BackendOp) -> Result<String, String> {
    match op {
        BackendOp::Status => vc.status(),
        BackendOp::Log => vc.log(),
        BackendOp::Changes(revision) => vc.changes(revision.as_str()),
        BackendOp::Diff(revision) => vc.diff(revision.as_str()),
        BackendOp::CommitAll(message) => vc.commit_all(message.as_str()),
        BackendOp::CommitSelected(message, entries) => vc.commit_selected(
            message.as_str(),
            entries,
        ),
        BackendOp::Revert => vc.revert(),
        BackendOp::Update(target) => vc.update(target.as_str()),
        BackendOp::Merge(target) => vc.merge(target.as_str()),
        BackendOp::Conflicts => vc.conflicts(),
        BackendOp::TakeLocal => vc.take_local(),
        BackendOp::TakeOther => vc.take_other(),
        BackendOp::Fetch => vc.fetch(),
        BackendOp::Pull => vc.pull(),
        BackendOp::Push => vc.push(),
        BackendOp::CreateTag(name) => vc.create_tag(name.as_str()),
        BackendOp::ListBranches => vc.list_branches(),
        BackendOp::CreateBranch(name) => vc.create_branch(name.as_str()),
        BackendOp::CloseBranch(name) => vc.close_branch(name.as_str()),
    }
}

/// Whether the session may start: the interactive loop cannot function
/// without a discoverable backend.
#[derive(Debug)]
pub enum StartDecision {
    /// The probe answered; the session starts and shows this version line.
    Proceed { version_line: String },
    /// The probe failed; the process must report this error and terminate
    /// before the key-reading loop begins.
    Fatal { error: String },
}

/// Decides from the startup version probe whether the session starts:
/// exactly a successful probe proceeds, exactly a failed one is fatal.
pub fn evaluate_startup(version: Result<String, String>) -> (r: StartDecision)
    ensures
        version matches Ok(v) ==> r matches StartDecision::Proceed { version_line } && version_line@
            == v@,
        version matches Err(e) ==> r matches StartDecision::Fatal { error } && error@ == e@,
{
    match version {
        Ok(version_line) => StartDecision::Proceed { version_line },
        Err(error) => StartDecision::Fatal { error },
    }
}

} // verus!
