// The sandbox object's lifecycle decisions.
use sandcrust::{
    child_loop_step, encode_command, sandcrust_init, sandcrust_pull_global, sandcrust_push_global,
    ChildInit, LoopAction, Sandcrust, SandcrustForkResult,
};

#[test]
fn one_time_object_uses_one_pipe() {
    let s = Sandcrust::new(3, 4);
    assert_eq!((s.file_in, s.file_out, s.child), (4, 3, 0));
}

#[test]
fn fork_sides_are_wired_to_each_other() {
    let cmd = (10, 11);
    let res = (12, 13);
    let p = Sandcrust::fork_new(cmd, res, 500, SandcrustForkResult::Parent { child: 501 });
    let c = Sandcrust::fork_new(cmd, res, 500, SandcrustForkResult::Child);
    assert_eq!(p.sandcrust, Sandcrust { file_in: 11, file_out: 12, child: 501 });
    assert_eq!(c.sandcrust, Sandcrust { file_in: 13, file_out: 10, child: 0 });
    assert_eq!(p.close, (10, 13));
    assert_eq!(c.close, (11, 12));
    assert_eq!(p.watch_parent, None);
    assert_eq!(c.watch_parent, Some(500));
    assert!(!c.parent_exited(500));
    assert!(c.parent_exited(1));
    assert!(!p.parent_exited(1));
}

#[test]
fn child_enters_loop_once() {
    let c = Sandcrust::fork_new((1, 2), (3, 4), 9, SandcrustForkResult::Child).sandcrust;
    let mut initialized = false;
    assert_eq!(c.initialize_child(&mut initialized, false), ChildInit::RunChildLoop);
    assert!(initialized);
    assert_eq!(c.initialize_child(&mut initialized, false), ChildInit::Proceed);
}

#[test]
fn terminated_parent_fails_or_respawns() {
    let mut p = Sandcrust::fork_new((1, 2), (3, 4), 9, SandcrustForkResult::Parent { child: 10 }).sandcrust;
    let mut initialized = false;
    assert_eq!(p.initialize_child(&mut initialized, false), ChildInit::Proceed);
    p.join_child();
    assert_eq!(p.child, -1);
    assert_eq!(p.initialize_child(&mut initialized, false), ChildInit::Terminated);
    assert_eq!(p.initialize_child(&mut initialized, true), ChildInit::Respawn);
    assert!(!initialized);
}

#[test]
fn init_respawns_terminated_sandbox() {
    let mut p = Sandcrust::fork_new((1, 2), (3, 4), 9, SandcrustForkResult::Parent { child: 10 }).sandcrust;
    p.join_child();
    let mut initialized = false;
    assert_eq!(sandcrust_init(&p, &mut initialized), ChildInit::Respawn);
    // this process turned out to be the new child; the old ends are closed
    let old = p.respawn(Sandcrust::fork_new((5, 6), (7, 8), 9, SandcrustForkResult::Child).sandcrust);
    assert_eq!(old, (2, 3));
    assert_eq!(p, Sandcrust { file_in: 8, file_out: 5, child: 0 });
    assert_eq!(sandcrust_init(&p, &mut initialized), ChildInit::RunChildLoop);
    assert!(initialized);
    assert_eq!(sandcrust_init(&p, &mut initialized), ChildInit::Proceed);
}

#[test]
fn init_in_fresh_child_enters_loop_at_once() {
    let c = Sandcrust::fork_new((5, 6), (7, 8), 9, SandcrustForkResult::Child).sandcrust;
    let mut initialized = false;
    assert_eq!(sandcrust_init(&c, &mut initialized), ChildInit::RunChildLoop);
    assert!(initialized);
}

#[test]
fn init_after_respawn_in_parent_proceeds() {
    let p = Sandcrust::fork_new((5, 6), (7, 8), 9, SandcrustForkResult::Parent { child: 11 }).sandcrust;
    let mut initialized = false;
    assert_eq!(sandcrust_init(&p, &mut initialized), ChildInit::Proceed);
    assert!(!initialized);
}

#[test]
fn loop_runs_sent_commands() {
    assert_eq!(child_loop_step(&encode_command(0)), LoopAction::Exit);
    assert_eq!(child_loop_step(&encode_command(0xdead_beef)), LoopAction::Call(0xdead_beef));
    assert_eq!(child_loop_step(&[1, 2, 3]), LoopAction::Malformed);
    let p = Sandcrust::new(3, 4);
    assert_eq!(p.terminate_child(), vec![0; 8]);
}

#[test]
fn set_child_and_globals() {
    let mut p = Sandcrust::new(3, 4);
    p.set_child(77);
    assert_eq!(p, Sandcrust { file_in: 4, file_out: 3, child: 77 });
    sandcrust_pull_global(&mut p);
    sandcrust_push_global(&mut p);
    assert_eq!(p, Sandcrust { file_in: 4, file_out: 3, child: 77 });
}
