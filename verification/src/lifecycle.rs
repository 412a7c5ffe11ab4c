//! The sandbox object and the decisions that drive its lifecycle.
//!
//! A `Sandcrust` holds the two pipe ends a process talks through and the
//! process id of the sandboxed child.  `file_in` is the end this process
//! writes to, `file_out` the end it reads from.  The `child` field tells the
//! roles apart: a positive value is the pid of the live child of a parent,
//! `0` marks the child's own object (or a one-time object before its child
//! pid is set), and `-1` a child that has been waited for.
//!
//! Creating pipes, forking, waiting and reading or writing pipes happen
//! outside this module; the functions here take what those calls returned and
//! say what to keep, what to close and what to do next.
use vstd::prelude::*;
use crate::wire::{encode_command, decode_command, spec_encode_command, spec_decode_command};
use crate::wire::lemma_command_round_trip;
use vstd::bytes::{spec_u64_to_le_bytes, spec_u64_from_le_bytes, lemma_auto_spec_u64_to_from_le_bytes};

verus! {

/// Process id as the operating system hands it out.
pub type SandcrustPid = i32;

/// The value of `child` once the child has been waited for.
pub const TERMINATED: SandcrustPid = -1;

/// What `fork` returned in this process.
#[derive(Clone, Copy, PartialEq, Eq, Structural, Debug)]
pub enum SandcrustForkResult {
    /// This is the parent; `child` is the new process's id, which is
    /// positive.
    Parent { child: SandcrustPid },
    /// This is the new child process.
    Child,
}

/// Main data structure: the pipe ends of one side of a sandbox and the
/// child's process id.
#[derive(Clone, Copy, PartialEq, Eq, Structural, Debug)]
pub struct Sandcrust {
    /// The pipe end this process writes to.
    pub file_in: i32,
    /// The pipe end this process reads from.
    pub file_out: i32,
    /// The child's pid in the parent, `0` in the child, `-1` once the
    /// child has been waited for.
    pub child: SandcrustPid,
}

/// Type that the wrapper functions generated for sandboxed functions are
/// attached to.
#[derive(Clone, Copy, PartialEq, Eq, Structural, Debug)]
pub struct SandcrustWrapper;

/// What one side of a fresh fork keeps and what it must close.
#[derive(Clone, Copy, PartialEq, Eq, Debug)]
pub struct ForkSetup {
    /// The object this side works with.
    pub sandcrust: Sandcrust,
    /// The two pipe ends that belong to the other side.
    pub close: (i32, i32),
    /// In the child: the pid of the parent it was forked from.  The child
    /// must exit once its parent is no longer that process.
    pub watch_parent: Option<SandcrustPid>,
}

/// What the caller has to do before running a sandboxed function.
#[derive(Clone, Copy, PartialEq, Eq, Structural, Debug)]
pub enum ChildInit {
    /// Nothing: go on with the call.
    Proceed,
    /// The child was terminated: fork a new one, hand it to `respawn`, and
    /// ask again.
    Respawn,
    /// The child was terminated and respawning is off: the call fails.
    Terminated,
    /// This process is the child: enter the command loop.
    RunChildLoop,
}

/// What the child's command loop does with one command frame.
#[derive(Clone, Copy, PartialEq, Eq, Structural, Debug)]
pub enum LoopAction {
    /// Command `0`: leave the loop and exit the process.
    Exit,
    /// Run the wrapper whose address is the command.
    Call(u64),
    /// The frame does not hold a command.
    Malformed,
}

/// The object of a one-time sandbox built on the pipe `(read_end, write_end)`:
/// both processes write to the write end and read from the read end.
pub open spec fn spec_new(read_end: i32, write_end: i32) -> Sandcrust {
    Sandcrust { file_in: write_end, file_out: read_end, child: 0 }
}

/// One side of a persistent sandbox after `fork`, given the command pipe
/// (which the parent writes and the child reads) and the result pipe (which
/// the child writes and the parent reads), each as `(read_end, write_end)`.
pub open spec fn spec_fork_new(
    command_pipe: (i32, i32),
    result_pipe: (i32, i32),
    parent: SandcrustPid,
    forked: SandcrustForkResult,
) -> ForkSetup {
    match forked {
        SandcrustForkResult::Parent { child } => ForkSetup {
            sandcrust: Sandcrust { file_in: command_pipe.1, file_out: result_pipe.0, child },
            close: (command_pipe.0, result_pipe.1),
            watch_parent: None,
        },
        SandcrustForkResult::Child => ForkSetup {
            sandcrust: Sandcrust { file_in: result_pipe.1, file_out: command_pipe.0, child: 0 },
            close: (command_pipe.1, result_pipe.0),
            watch_parent: Some(parent),
        },
    }
}

/// The decision taken before a call of a sandboxed function in a process
/// that is not yet known to be the running child.
pub open spec fn spec_initialize_child(
    sandcrust: Sandcrust,
    initialized_child: bool,
    auto_respawn: bool,
) -> ChildInit {
    if !initialized_child && sandcrust.child == TERMINATED {
        if auto_respawn {
            ChildInit::Respawn
        } else {
            ChildInit::Terminated
        }
    } else if !initialized_child && sandcrust.child == 0 {
        ChildInit::RunChildLoop
    } else {
        ChildInit::Proceed
    }
}

/// The decision taken by an explicit initialisation of the global sandbox:
/// a terminated sandbox is respawned; in a child that has not entered its
/// command loop yet, the loop is entered right here, so the child never
/// runs the caller's code that follows the initialisation.
pub open spec fn spec_sandcrust_init(sandcrust: Sandcrust, initialized_child: bool) -> ChildInit {
    if sandcrust.child == TERMINATED {
        ChildInit::Respawn
    } else if !initialized_child && sandcrust.child == 0 {
        ChildInit::RunChildLoop
    } else {
        ChildInit::Proceed
    }
}

/// What the command loop does with a frame.
pub open spec fn spec_child_loop_step(frame: Seq<u8>) -> LoopAction {
    match spec_decode_command(frame) {
        None => LoopAction::Malformed,
        Some(command) => if command == 0 {
            LoopAction::Exit
        } else {
            LoopAction::Call(command)
        },
    }
}

/// The object once its child has been waited for.
pub open spec fn spec_join(sandcrust: Sandcrust) -> Sandcrust {
    Sandcrust { child: TERMINATED, ..sandcrust }
}

impl Sandcrust {
    /// New Sandcrust object for one-time use, on the pipe whose ends are
    /// `(read_end, write_end)`.
    pub fn new(read_end: i32, write_end: i32) -> (sandcrust: Sandcrust)
        ensures
            sandcrust == spec_new(read_end, write_end),
            sandcrust.file_in == write_end,
            sandcrust.file_out == read_end,
            sandcrust.child == 0,
    {
        Sandcrust { file_in: write_end, file_out: read_end, child: 0 }
    }

    /// New Sandcrust object for global use: given the two pipes made before
    /// `fork`, the pid of the process that forked, and what `fork` returned
    /// here, says which ends this side keeps and which it closes.
    pub fn fork_new(
        command_pipe: (i32, i32),
        result_pipe: (i32, i32),
        parent: SandcrustPid,
        forked: SandcrustForkResult,
    ) -> (setup: ForkSetup)
        requires
            forked matches SandcrustForkResult::Parent { child } ==> child > 0,
        ensures
            setup == spec_fork_new(command_pipe, result_pipe, parent, forked),
            setup.sandcrust.child >= 0,
            forked is Parent <==> setup.sandcrust.child > 0,
            forked is Child ==> setup.watch_parent == Some(parent),
            forked is Parent ==> setup.watch_parent is None,
    {
        match forked {
            SandcrustForkResult::Parent { child } => ForkSetup {
                sandcrust: Sandcrust { file_in: command_pipe.1, file_out: result_pipe.0, child },
                close: (command_pipe.0, result_pipe.1),
                watch_parent: None,
            },
            SandcrustForkResult::Child => ForkSetup {
                sandcrust: Sandcrust { file_in: result_pipe.1, file_out: command_pipe.0, child: 0 },
                close: (command_pipe.1, result_pipe.0),
                watch_parent: Some(parent),
            },
        }
    }

    /// Checks, before a sandboxed call, whether this process is an
    /// uninitialised child that must run the command loop, or a parent
    /// whose child has been terminated.  Entering the loop sets
    /// `initialized_child`.
    pub fn initialize_child(&self, initialized_child: &mut bool, auto_respawn: bool) -> (action:
        ChildInit)
        ensures
            action == spec_initialize_child(*self, *old(initialized_child), auto_respawn),
            *final(initialized_child) == (*old(initialized_child) || action is RunChildLoop),
    {
        if !*initialized_child && self.child == TERMINATED {
            if auto_respawn {
                ChildInit::Respawn
            } else {
                ChildInit::Terminated
            }
        } else if !*initialized_child && self.child == 0 {
            *initialized_child = true;
            ChildInit::RunChildLoop
        } else {
            ChildInit::Proceed
        }
    }

    /// Records that the child has been waited for.
    pub fn join_child(&mut self)
        ensures
            *final(self) == spec_join(*old(self)),
    {
        self.child = TERMINATED;
    }

    /// The frame that, written into the command pipe, makes the child
    /// leave its loop: the command `0`.  The caller then waits for the
    /// child and calls `join_child`.
    pub fn terminate_child(&self) -> (frame: Vec<u8>)
        ensures
            frame@ == spec_encode_command(0),
            frame@ == spec_u64_to_le_bytes(0),
            spec_child_loop_step(frame@) == LoopAction::Exit,
    {
        proof {
            lemma_command_round_trip(0);
        }
        encode_command(0)
    }

    /// Set child attribute to acquired value.
    pub fn set_child(&mut self, child: SandcrustPid)
        ensures
            *final(self) == (Sandcrust { child, ..*old(self) }),
    {
        self.child = child;
    }

    /// Replaces this object by a freshly forked one.  Returns the pipe
    /// ends it held, `(file_in, file_out)`, which the caller must close.
    pub fn respawn(&mut self, fresh: Sandcrust) -> (old_ends: (i32, i32))
        ensures
            *final(self) == fresh,
            old_ends == (old(self).file_in, old(self).file_out),
    {
        let old_ends = (self.file_in, self.file_out);
        self.file_in = fresh.file_in;
        self.file_out = fresh.file_out;
        self.child = fresh.child;
        old_ends
    }
}

impl ForkSetup {
    /// In the child: whether the process it was forked from is gone, that
    /// is, whether its parent is now another process.
    pub fn parent_exited(&self, current_parent: SandcrustPid) -> (gone: bool)
        ensures
            gone == (self.watch_parent matches Some(p) && p != current_parent),
    {
        match self.watch_parent {
            Some(p) => p != current_parent,
            None => false,
        }
    }
}

/// One turn of the child's command loop: decodes the command frame read
/// from the command pipe.  `0` ends the loop; any other value is the
/// address of the wrapper to run.
pub fn child_loop_step(frame: &[u8]) -> (action: LoopAction)
    ensures
        action == spec_child_loop_step(frame@),
        frame@.len() < 8 ==> action == LoopAction::Malformed,
        frame@.len() >= 8 ==> action == if spec_u64_from_le_bytes(frame@.subrange(0, 8)) == 0 {
            LoopAction::Exit
        } else {
            LoopAction::Call(spec_u64_from_le_bytes(frame@.subrange(0, 8)))
        },
{
    match decode_command(frame) {
        None => LoopAction::Malformed,
        Some(command) => if command == 0 {
            LoopAction::Exit
        } else {
            LoopAction::Call(command)
        },
    }
}

/// Explicit initialisation of the global sandbox, at a point the caller
/// chooses (e.g. before sensitive data is loaded).  A terminated sandbox is
/// to be respawned, after which the caller asks again; a child that has not
/// entered its command loop yet enters it now, which sets
/// `initialized_child`; everything else proceeds.
pub fn sandcrust_init(sandcrust: &Sandcrust, initialized_child: &mut bool) -> (action: ChildInit)
    ensures
        action == spec_sandcrust_init(*sandcrust, *old(initialized_child)),
        *final(initialized_child) == (*old(initialized_child) || action is RunChildLoop),
{
    if sandcrust.child == TERMINATED {
        ChildInit::Respawn
    } else if !*initialized_child && sandcrust.child == 0 {
        *initialized_child = true;
        ChildInit::RunChildLoop
    } else {
        ChildInit::Proceed
    }
}

/// Pulls the mutable globals in the child.  Without wrapped globals there
/// is nothing to pull and the object is left as it is.
pub fn sandcrust_pull_global(sandcrust: &mut Sandcrust)
    ensures
        *final(sandcrust) == *old(sandcrust),
{
}

/// Pushes the mutable globals from the caller.  Without wrapped globals
/// there is nothing to push and the object is left as it is.
pub fn sandcrust_push_global(sandcrust: &mut Sandcrust)
    ensures
        *final(sandcrust) == *old(sandcrust),
{
}

/// The two sides of a fork are wired to each other: what the parent writes
/// into its `file_in` comes out of the child's `file_out` (both are ends of
/// the command pipe), what the child writes comes out of the parent's
/// `file_out` (the result pipe), and each side closes exactly the two ends
/// that the other side keeps.
pub proof fn lemma_fork_connects(
    command_pipe: (i32, i32),
    result_pipe: (i32, i32),
    parent: SandcrustPid,
    child: SandcrustPid,
)
    requires
        child > 0,
    ensures
        ({
            let p = spec_fork_new(command_pipe, result_pipe, parent, SandcrustForkResult::Parent { child });
            let c = spec_fork_new(command_pipe, result_pipe, parent, SandcrustForkResult::Child);
            &&& p.sandcrust.file_in == command_pipe.1
            &&& c.sandcrust.file_out == command_pipe.0
            &&& c.sandcrust.file_in == result_pipe.1
            &&& p.sandcrust.file_out == result_pipe.0
            &&& p.close == (c.sandcrust.file_out, c.sandcrust.file_in)
            &&& c.close == (p.sandcrust.file_in, p.sandcrust.file_out)
            &&& p.sandcrust.child == child
            &&& p.sandcrust.child > 0
            &&& c.sandcrust.child == 0
            &&& c.watch_parent == Some(parent)
            &&& p.watch_parent is None
        }),
{
}

/// The one-time object writes into the pipe's write end and reads from
/// its read end, so what one process writes the other reads; no child is
/// known yet.
pub proof fn lemma_new_uses_one_pipe(read_end: i32, write_end: i32)
    ensures
        spec_new(read_end, write_end).file_in == write_end,
        spec_new(read_end, write_end).file_out == read_end,
        spec_new(read_end, write_end).child == 0,
{
}

/// A forked child watches exactly the process that forked it: it counts
/// its parent as gone when, and only when, its current parent is another
/// process; the parent watches nobody.
pub proof fn lemma_child_watches_forking_parent(
    command_pipe: (i32, i32),
    result_pipe: (i32, i32),
    parent: SandcrustPid,
    current_parent: SandcrustPid,
    child: SandcrustPid,
)
    ensures
        ({
            let c = spec_fork_new(command_pipe, result_pipe, parent, SandcrustForkResult::Child);
            let p = spec_fork_new(command_pipe, result_pipe, parent, SandcrustForkResult::Parent { child });
            &&& (c.watch_parent matches Some(w) && w != current_parent) <==> current_parent != parent
            &&& !(p.watch_parent matches Some(w) && w != current_parent)
        }),
{
}

/// Waiting for the child marks it terminated (`-1`) and keeps both pipe
/// ends.
pub proof fn lemma_join_marks_terminated(sandcrust: Sandcrust)
    ensures
        spec_join(sandcrust).child == -1,
        spec_join(sandcrust).file_in == sandcrust.file_in,
        spec_join(sandcrust).file_out == sandcrust.file_out,
{
}

/// Before a sandboxed call: only a parent whose child has been waited for
/// is asked to respawn (when respawning is on) or fails (when it is off),
/// only an uninitialised child's own object enters the command loop, and
/// everything else, in particular every initialised child and every live
/// parent, goes on with the call.
pub proof fn lemma_initialize_child_cases(sandcrust: Sandcrust, initialized_child: bool, auto_respawn: bool)
    ensures
        ({
            let a = spec_initialize_child(sandcrust, initialized_child, auto_respawn);
            &&& a is Respawn <==> (!initialized_child && sandcrust.child == -1 && auto_respawn)
            &&& a is Terminated <==> (!initialized_child && sandcrust.child == -1 && !auto_respawn)
            &&& a is RunChildLoop <==> (!initialized_child && sandcrust.child == 0)
            &&& a is Proceed <==> (initialized_child || (sandcrust.child != -1 && sandcrust.child != 0))
        }),
{
}

/// At an explicit initialisation: a sandbox whose child has been waited for
/// is respawned, an uninitialised child's own object enters the command
/// loop right there, and everything else goes on; initialisation never
/// fails.
pub proof fn lemma_sandcrust_init_cases(sandcrust: Sandcrust, initialized_child: bool)
    ensures
        ({
            let a = spec_sandcrust_init(sandcrust, initialized_child);
            &&& a is Respawn <==> sandcrust.child == -1
            &&& a is RunChildLoop <==> (!initialized_child && sandcrust.child == 0)
            &&& !(a is Terminated)
            &&& a is Proceed <==> (sandcrust.child != -1 && (initialized_child || sandcrust.child != 0))
        }),
{
}

/// One turn of the child's loop on the bytes read from the command pipe:
/// with fewer than eight bytes there is no command; otherwise the first
/// eight bytes, least significant first, are the command, `0` ends the
/// loop and any other value is the address that is called.
pub proof fn lemma_child_loop_reads_little_endian_word(frame: Seq<u8>)
    ensures
        frame.len() < 8 ==> spec_child_loop_step(frame) == LoopAction::Malformed,
        frame.len() >= 8 ==> ({
            let w = spec_u64_from_le_bytes(frame.subrange(0, 8));
            spec_child_loop_step(frame) == if w == 0 {
                LoopAction::Exit
            } else {
                LoopAction::Call(w)
            }
        }),
{
}

/// The termination frame is the command `0` as eight zero bytes.
pub proof fn lemma_terminate_frame_is_zero_word()
    ensures
        spec_encode_command(0) == spec_u64_to_le_bytes(0),
        spec_u64_from_le_bytes(spec_encode_command(0)) == 0,
{
    lemma_auto_spec_u64_to_from_le_bytes();
}

/// Once the child has been waited for, a parent can no longer call into
/// it: the next sandboxed call fails, or respawns the sandbox when
/// respawning is on, and an explicit initialisation respawns it.
pub proof fn lemma_terminated_sandbox(sandcrust: Sandcrust, auto_respawn: bool)
    ensures
        spec_initialize_child(spec_join(sandcrust), false, auto_respawn) == if auto_respawn {
            ChildInit::Respawn
        } else {
            ChildInit::Terminated
        },
        spec_sandcrust_init(spec_join(sandcrust), false) == ChildInit::Respawn,
{
}

/// A child enters its command loop once, at the first of a sandboxed call
/// or an explicit initialisation: that first decision in an uninitialised
/// child runs the loop and sets the flag, and with the flag set no decision
/// asks for the loop again.
pub proof fn lemma_child_loop_entered_once(sandcrust: Sandcrust, auto_respawn: bool)
    requires
        sandcrust.child == 0,
    ensures
        spec_initialize_child(sandcrust, false, auto_respawn) == ChildInit::RunChildLoop,
        spec_sandcrust_init(sandcrust, false) == ChildInit::RunChildLoop,
        spec_initialize_child(sandcrust, true, auto_respawn) == ChildInit::Proceed,
        spec_sandcrust_init(sandcrust, true) == ChildInit::Proceed,
{
}

/// A live parent, one whose child has a positive pid, goes on with its
/// calls and is left alone by an explicit initialisation.
pub proof fn lemma_live_parent_proceeds(sandcrust: Sandcrust, auto_respawn: bool)
    requires
        sandcrust.child > 0,
    ensures
        spec_initialize_child(sandcrust, false, auto_respawn) == ChildInit::Proceed,
        spec_sandcrust_init(sandcrust, false) == ChildInit::Proceed,
{
}

/// The child's loop runs exactly the command the caller sent: command `0`
/// ends it and any other command is called as it was sent.
pub proof fn lemma_child_runs_sent_command(command: u64)
    ensures
        spec_child_loop_step(spec_encode_command(command)) == if command == 0 {
            LoopAction::Exit
        } else {
            LoopAction::Call(command)
        },
{
    lemma_command_round_trip(command);
}

} // verus!
