use test_support::workspace::cleanup_test;
use test_support::workspace::initialize_test;
use test_support::workspace::FsAction;

#[test]
fn setup_plan_creates_copies_then_unpacks() {
    let plan = initialize_test("/tmp/proj");
    assert_eq!(plan.len(), 3);
    match &plan[0] {
        FsAction::CreateDirAll { path } => {
            assert_eq!(path.as_str(), "/tmp/proj/integration-workspace");
        }
        other => panic!("unexpected first action: {other:?}"),
    }
    match &plan[1] {
        FsAction::CopyFile { from, to } => {
            assert_eq!(from.as_str(), "bundle.tar.gz");
            assert_eq!(to.as_str(), "/tmp/proj/integration-workspace/bundle.tar.gz");
        }
        other => panic!("unexpected second action: {other:?}"),
    }
    match &plan[2] {
        FsAction::UnpackArchive { archive, dest } => {
            assert_eq!(archive.as_str(), "/tmp/proj/integration-workspace/bundle.tar.gz");
            assert_eq!(dest.as_str(), "/tmp/proj/integration-workspace");
        }
        other => panic!("unexpected third action: {other:?}"),
    }
}

#[test]
fn cleanup_plan_removes_the_workspace_directory() {
    let plan = cleanup_test("/tmp/proj");
    assert_eq!(plan.len(), 1);
    match &plan[0] {
        FsAction::RemoveDirAll { path } => {
            assert_eq!(path.as_str(), "/tmp/proj/integration-workspace");
        }
        other => panic!("unexpected cleanup action: {other:?}"),
    }
}
