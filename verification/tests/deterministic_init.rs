// Initialising the persistent sandbox at a chosen point.
use sandcrust::{sandcrust_init, ChildInit, Sandcrust, SandcrustForkResult};

#[test]
fn deterministic_init_run_deterministic_init() {
    // the global object right after its fork, on the parent's side: the
    // parent goes on with its code
    let parent = Sandcrust::fork_new((3, 4), (5, 6), 50, SandcrustForkResult::Parent { child: 51 }).sandcrust;
    let mut parent_initialized = false;
    assert_eq!(sandcrust_init(&parent, &mut parent_initialized), ChildInit::Proceed);
    assert!(!parent_initialized);
    // on the child's side the command loop starts right at the init point
    let child = Sandcrust::fork_new((3, 4), (5, 6), 50, SandcrustForkResult::Child).sandcrust;
    let mut child_initialized = false;
    assert_eq!(sandcrust_init(&child, &mut child_initialized), ChildInit::RunChildLoop);
    assert!(child_initialized);
}
