// Mutable globals are pushed with every call, right after the command
// word, so the child sees the values the caller set before the call.
use bincode::Infinite;
use sandcrust::{child_loop_step, encode_command, LoopAction};

const WRAPPER: u64 = 0x9000;

fn enc<T: serde::Serialize>(value: &T) -> Vec<u8> {
    bincode::serialize(value, Infinite).unwrap()
}

fn dec<T: serde::de::DeserializeOwned>(frame: &[u8]) -> T {
    bincode::deserialize(frame).unwrap()
}

/// The child's view of the wrapped global after one call.
fn check_global(rl_readline_version: i32, run: i32) {
    let mut stream = encode_command(WRAPPER);
    stream.extend(enc(&rl_readline_version));
    stream.extend(enc(&run));
    // the child's loop reads the command word, the wrapper the global and
    // the argument
    let (command, rest) = stream.split_at(8);
    assert_eq!(child_loop_step(command), LoopAction::Call(WRAPPER));
    let child_global: i32 = dec(&rest[..4]);
    let run: i32 = dec(&rest[4..]);
    if run == 1 {
        assert_eq!(child_global, 23);
    } else if run == 2 {
        assert_eq!(child_global, 42);
    }
}

#[test]
fn run_check_global() {
    let mut run = 1;
    let mut rl_readline_version = 23;
    check_global(rl_readline_version, run);
    run += 1;
    rl_readline_version = 42;
    check_global(rl_readline_version, run);
}
