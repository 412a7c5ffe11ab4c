//! The shared-memory prototype of argument passing, and the helpers its
//! argument-walking macro is tried on.
use vstd::prelude::*;
use crate::protocol::ArgKind;

verus! {

/// Cursor into the shared memory region that arguments are placed in; the
/// region starts at address `0`.
#[derive(Clone, Copy, PartialEq, Eq, Structural, Debug)]
pub struct Sandcrust {
    /// Address of the next free byte of the region.
    pub memptr: usize,
}

impl Sandcrust {
    /// A cursor at the start of the region.  The requested size is not
    /// used yet.
    pub fn new(size: usize) -> (sandcrust: Sandcrust)
        ensures
            sandcrust.memptr == 0,
    {
        Sandcrust { memptr: 0 }
    }

    /// Address at which `val` is placed in the region: the current cursor.
    /// The cursor is not moved, so every value is placed at the same
    /// address.
    pub fn get_var_in_shm<T>(&mut self, val: &T) -> (addr: usize)
        ensures
            addr == old(self).memptr,
            *final(self) == *old(self),
    {
        self.memptr
    }
}

/// Copies `*a` into `*b`.
pub fn write_b_to_a(a: &mut i32, b: &mut i32)
    ensures
        *final(b) == *old(a),
        *final(a) == *old(a),
{
    *b = *a;
}

/// Takes both values; overwriting its own copy of `b` is seen by nobody.
pub fn eat_a_b(a: i32, b: i32) {
    let mut b = b;
    b = a;
}

/// Label printed for one argument by the argument-walking macro: `single`
/// for the last argument, `process` for the others, followed by `mut ref`,
/// `ref` or `var` for an argument passed as `&mut a`, `&a` or `a`.
pub open spec fn spec_sandbox_me_label(kind: ArgKind, last: bool) -> Seq<char> {
    match kind {
        ArgKind::MutRef => if last {
            "single mut ref"@
        } else {
            "process mut ref"@
        },
        ArgKind::Ref => if last {
            "single ref"@
        } else {
            "process ref"@
        },
        _ => if last {
            "single var"@
        } else {
            "process var"@
        },
    }
}

/// Label the argument-walking macro prints before an argument's value.
pub fn sandbox_me_label(kind: ArgKind, last: bool) -> (label: &'static str)
    ensures
        label@ == spec_sandbox_me_label(kind, last),
{
    match kind {
        ArgKind::MutRef => if last {
            "single mut ref"
        } else {
            "process mut ref"
        },
        ArgKind::Ref => if last {
            "single ref"
        } else {
            "process ref"
        },
        _ => if last {
            "single var"
        } else {
            "process var"
        },
    }
}

/// The label of an argument is its position word, `single` for the last
/// argument and `process` for the others, a space, and its kind word:
/// `mut ref` for `&mut a`, `ref` for `&a` and `var` for an argument passed
/// as a value.
pub proof fn lemma_label_is_position_then_kind(kind: ArgKind, last: bool)
    ensures
        spec_sandbox_me_label(kind, last) == (if last {
            "single "@
        } else {
            "process "@
        }) + match kind {
            ArgKind::MutRef => "mut ref"@,
            ArgKind::Ref => "ref"@,
            _ => "var"@,
        },
{
    reveal_strlit("single mut ref");
    reveal_strlit("process mut ref");
    reveal_strlit("single ref");
    reveal_strlit("process ref");
    reveal_strlit("single var");
    reveal_strlit("process var");
    reveal_strlit("single ");
    reveal_strlit("process ");
    reveal_strlit("mut ref");
    reveal_strlit("ref");
    reveal_strlit("var");
    let l = spec_sandbox_me_label(kind, last);
    let r = (if last {
        "single "@
    } else {
        "process "@
    }) + match kind {
        ArgKind::MutRef => "mut ref"@,
        ArgKind::Ref => "ref"@,
        _ => "var"@,
    };
    assert(l =~= r);
}

} // verus!
