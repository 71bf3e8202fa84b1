//! Planning of workspace provisioning and teardown.
//!
//! The workspace manager owns one child directory, `integration-workspace`,
//! beneath a caller-supplied project root. Setup creates that directory,
//! copies the fixture archive `bundle.tar.gz` from the working directory
//! into it, and unpacks the archive there; teardown removes the directory
//! wholesale. The filesystem steps themselves are I/O, so the functions
//! here return them as an ordered plan of actions for the caller to run in
//! order, stopping at the first failure; which paths each action touches,
//! and in what order, is fixed here.

use vstd::prelude::*;

verus! {

/// One filesystem action of a plan.
#[derive(Debug)]
pub enum FsAction {
    /// Create the directory at `path`, with any missing ancestors.
    CreateDirAll { path: String },
    /// Copy the file at `from` to `to`.
    CopyFile { from: String, to: String },
    /// Read the gzip-compressed tar archive at `archive` and unpack its
    /// entries beneath `dest`, each entry at its stored path.
    UnpackArchive { archive: String, dest: String },
    /// Remove the directory at `path` and all its contents.
    RemoveDirAll { path: String },
}

/// The name of the directory the workspace manager owns.
pub open spec fn workspace_dir_name() -> Seq<char> {
    "integration-workspace"@
}

/// The fixed name of the fixture archive in the working directory.
pub open spec fn archive_file_name() -> Seq<char> {
    "bundle.tar.gz"@
}

/// The workspace directory beneath `project`.
pub open spec fn workspace_dir_spec(project: Seq<char>) -> Seq<char> {
    project + "/"@ + workspace_dir_name()
}

/// Where setup puts the copy of the fixture archive.
pub open spec fn archive_copy_spec(project: Seq<char>) -> Seq<char> {
    workspace_dir_spec(project) + "/"@ + archive_file_name()
}

/// The setup plan for `project`: create the workspace directory, copy the
/// archive into it, unpack the copy there, in that order.
pub open spec fn is_setup_plan(plan: Seq<FsAction>, project: Seq<char>) -> bool {
    &&& plan.len() == 3
    &&& plan[0] matches FsAction::CreateDirAll { path }
        && path@ == workspace_dir_spec(project)
    &&& plan[1] matches FsAction::CopyFile { from, to }
        && from@ == archive_file_name() && to@ == archive_copy_spec(project)
    &&& plan[2] matches FsAction::UnpackArchive { archive, dest }
        && archive@ == archive_copy_spec(project) && dest@ == workspace_dir_spec(project)
}

/// The cleanup plan for `project`: remove the workspace directory.
pub open spec fn is_cleanup_plan(plan: Seq<FsAction>, project: Seq<char>) -> bool {
    &&& plan.len() == 1
    &&& plan[0] matches FsAction::RemoveDirAll { path }
        && path@ == workspace_dir_spec(project)
}

/// The workspace directory beneath `project`, as a string.
pub fn workspace_dir(project: &str) -> (r: String)
    ensures
        r@ == workspace_dir_spec(project@),
{
    let mut r = project.to_owned();
    r.append("/");
    r.append("integration-workspace");
    r
}

/// Where setup puts the copy of the fixture archive, as a string.
pub fn archive_copy_path(project: &str) -> (r: String)
    ensures
        r@ == archive_copy_spec(project@),
{
    let mut r = workspace_dir(project);
    r.append("/");
    r.append("bundle.tar.gz");
    r
}

/// The plan that provisions the workspace beneath `project`: it creates
/// `project/integration-workspace`, copies `bundle.tar.gz` from the
/// working directory into it, and unpacks the copy there. Run the actions
/// in order and stop at the first failing one; nothing already created is
/// rolled back on failure.
pub fn initialize_test(project_path: &str) -> (r: Vec<FsAction>)
    ensures
        is_setup_plan(r@, project_path@),
{
    let mut plan: Vec<FsAction> = Vec::new();
    plan.push(FsAction::CreateDirAll { path: workspace_dir(project_path) });
    plan.push(FsAction::CopyFile {
        from: "bundle.tar.gz".to_owned(),
        to: archive_copy_path(project_path),
    });
    plan.push(FsAction::UnpackArchive {
        archive: archive_copy_path(project_path),
        dest: workspace_dir(project_path),
    });
    plan
}

/// The plan that tears the workspace down: it removes
/// `project/integration-workspace` and everything beneath it. Removal of a
/// missing directory fails, and the caller decides what a cleanup failure
/// means for the test.
pub fn cleanup_test(project_path: &str) -> (r: Vec<FsAction>)
    ensures
        is_cleanup_plan(r@, project_path@),
{
    let mut plan: Vec<FsAction> = Vec::new();
    plan.push(FsAction::RemoveDirAll { path: workspace_dir(project_path) });
    plan
}

} // verus!
