//! The reply of a sandboxed call: what comes back from the child.
//!
//! After running the function, the child sends one frame (one encoded
//! value) for every argument it got by `&mut`, in argument order, and then a
//! frame for the return value if the function has one.  Arguments passed by
//! value, by `mut` value or by shared reference are never sent back, so
//! whatever the child does to its copies stays in the child.  The caller
//! reads exactly that many frames and puts each into the argument it
//! belongs to.
//!
//! The functions here are generic in the frame type: they move frames
//! around and never look inside them.  Both sides of a call hand every
//! argument's position to them, with a frame for each `&mut` argument and
//! any frame at all for the others, which is never read.
use vstd::prelude::*;

verus! {

/// How an argument is handed to a wrapped function.
#[derive(Clone, Copy, PartialEq, Eq, Structural, Debug)]
pub enum ArgKind {
    /// `a: T`, or a value written at the call site.
    Value,
    /// `mut a: T`.
    MutValue,
    /// `a: &T`, or `&a` at the call site.
    Ref,
    /// `a: &mut T`, or `&mut a` at the call site.
    MutRef,
}

/// The frames of a call did not have the length the signature asks for.
#[derive(Clone, Copy, PartialEq, Eq, Structural, Debug)]
pub enum ProtocolError {
    WrongFrameCount,
}

/// Whether the child sends this argument back after the call.
pub open spec fn spec_is_changed_var(kind: ArgKind) -> bool {
    kind is MutRef
}

impl ArgKind {
    /// Whether the child sends an argument of this kind back after the call:
    /// only arguments passed by `&mut` are.
    pub fn is_changed_var(&self) -> (changed: bool)
        ensures
            changed == spec_is_changed_var(*self),
    {
        match self {
            ArgKind::MutRef => true,
            _ => false,
        }
    }
}

/// Number of arguments among `kinds` that come back after the call.
pub open spec fn spec_changed_count(kinds: Seq<ArgKind>) -> nat
    decreases kinds.len(),
{
    if kinds.len() == 0 {
        0
    } else {
        spec_changed_count(kinds.drop_last()) + if spec_is_changed_var(kinds.last()) {
            1nat
        } else {
            0nat
        }
    }
}

/// The values of the `&mut` arguments, in argument order.
pub open spec fn spec_changed_vars<T>(kinds: Seq<ArgKind>, after: Seq<T>) -> Seq<T>
    decreases kinds.len(),
{
    if kinds.len() == 0 {
        Seq::empty()
    } else {
        let rest = spec_changed_vars(kinds.drop_last(), after.drop_last());
        if spec_is_changed_var(kinds.last()) {
            rest.push(after.last())
        } else {
            rest
        }
    }
}

/// The frames that carry a return value, if there is one.
pub open spec fn spec_ret_frames<T>(ret: Option<T>) -> Seq<T> {
    match ret {
        Some(r) => seq![r],
        None => Seq::empty(),
    }
}

/// What the child sends back after the call: the `&mut` arguments as the
/// function left them, then the return value.
pub open spec fn spec_reply<T>(kinds: Seq<ArgKind>, after: Seq<T>, ret: Option<T>) -> Seq<T> {
    spec_changed_vars(kinds, after) + spec_ret_frames(ret)
}

/// The caller's arguments after reading the reply: argument `i`, when passed
/// by `&mut`, takes the next reply frame, the one after all earlier `&mut`
/// arguments; every other argument keeps its value.
pub open spec fn spec_restored_args<T>(kinds: Seq<ArgKind>, before: Seq<T>, reply: Seq<T>) -> Seq<
    T,
> {
    Seq::new(
        kinds.len(),
        |i: int|
            if spec_is_changed_var(kinds[i]) {
                reply[spec_changed_count(kinds.take(i)) as int]
            } else {
                before[i]
            },
    )
}

/// How many frames a reply has for this signature.
pub open spec fn spec_reply_len(kinds: Seq<ArgKind>, has_ret: bool) -> nat {
    spec_changed_count(kinds) + if has_ret {
        1nat
    } else {
        0nat
    }
}

/// The outcome of reading a reply on the caller's side.
pub open spec fn spec_restore<T>(kinds: Seq<ArgKind>, before: Seq<T>, reply: Seq<T>, has_ret: bool) -> Result<
    (Seq<T>, Option<T>),
    ProtocolError,
> {
    if reply.len() != spec_reply_len(kinds, has_ret) {
        Err(ProtocolError::WrongFrameCount)
    } else {
        Ok(
            (
                spec_restored_args(kinds, before, reply),
                if has_ret {
                    Some(reply[spec_changed_count(kinds) as int])
                } else {
                    None
                },
            ),
        )
    }
}

/// Each argument as it should be in the caller once the call is over: the
/// child's value for `&mut` arguments, the caller's own value otherwise.
pub open spec fn spec_merge<T>(kinds: Seq<ArgKind>, before: Seq<T>, after: Seq<T>) -> Seq<T> {
    Seq::new(
        kinds.len(),
        |i: int|
            if spec_is_changed_var(kinds[i]) {
                after[i]
            } else {
                before[i]
            },
    )
}

proof fn lemma_changed_count_step(kinds: Seq<ArgKind>, i: int)
    requires
        0 <= i < kinds.len(),
    ensures
        spec_changed_count(kinds.take(i + 1)) == spec_changed_count(kinds.take(i)) + if spec_is_changed_var(
            kinds[i],
        ) {
            1nat
        } else {
            0nat
        },
{
    assert(kinds.take(i + 1).drop_last() =~= kinds.take(i));
}

proof fn lemma_changed_count_mono(kinds: Seq<ArgKind>, i: int, j: int)
    requires
        0 <= i <= j <= kinds.len(),
    ensures
        spec_changed_count(kinds.take(i)) <= spec_changed_count(kinds.take(j)),
    decreases j - i,
{
    if i < j {
        lemma_changed_count_step(kinds, j - 1);
        lemma_changed_count_mono(kinds, i, j - 1);
    }
}

proof fn lemma_changed_vars_len<T>(kinds: Seq<ArgKind>, after: Seq<T>)
    requires
        kinds.len() == after.len(),
    ensures
        spec_changed_vars(kinds, after).len() == spec_changed_count(kinds),
    decreases kinds.len(),
{
    if kinds.len() > 0 {
        lemma_changed_vars_len(kinds.drop_last(), after.drop_last());
    }
}

proof fn lemma_changed_vars_index<T>(kinds: Seq<ArgKind>, after: Seq<T>, i: int)
    requires
        kinds.len() == after.len(),
        0 <= i < kinds.len(),
        spec_is_changed_var(kinds[i]),
    ensures
        spec_changed_count(kinds.take(i)) < spec_changed_vars(kinds, after).len(),
        spec_changed_vars(kinds, after)[spec_changed_count(kinds.take(i)) as int] == after[i],
    decreases kinds.len(),
{
    let n = kinds.len() as int;
    let k0 = kinds.drop_last();
    let a0 = after.drop_last();
    lemma_changed_vars_len(k0, a0);
    lemma_changed_vars_len(kinds, after);
    if i == n - 1 {
        assert(kinds.take(i) =~= k0);
    } else {
        assert(k0.take(i) =~= kinds.take(i));
        lemma_changed_vars_index(k0, a0, i);
    }
}

/// The central law of the protocol: when the caller reads what the child
/// sent back, every `&mut` argument takes the value the child's function
/// left in it, every other argument keeps the caller's value, and the caller
/// gets the function's return value.
pub proof fn lemma_changed_vars_come_back<T>(
    kinds: Seq<ArgKind>,
    before: Seq<T>,
    after: Seq<T>,
    ret: Option<T>,
)
    requires
        kinds.len() == before.len(),
        kinds.len() == after.len(),
    ensures
        spec_restore(kinds, before, spec_reply(kinds, after, ret), ret is Some) == Ok::<
            (Seq<T>, Option<T>),
            ProtocolError,
        >((spec_merge(kinds, before, after), ret)),
{
    let reply = spec_reply(kinds, after, ret);
    let cv = spec_changed_vars(kinds, after);
    lemma_changed_vars_len(kinds, after);
    assert(reply.len() == spec_reply_len(kinds, ret is Some));
    let restored = spec_restored_args(kinds, before, reply);
    let merged = spec_merge(kinds, before, after);
    assert forall|i: int| 0 <= i < kinds.len() implies restored[i] == merged[i] by {
        if spec_is_changed_var(kinds[i]) {
            lemma_changed_vars_index(kinds, after, i);
        }
    }
    assert(restored =~= merged);
    if ret is Some {
        assert(reply[spec_changed_count(kinds) as int] == ret->0);
    }
}

proof fn lemma_changed_count_is_filter_len(kinds: Seq<ArgKind>)
    ensures
        spec_changed_count(kinds) == kinds.filter(|k: ArgKind| k is MutRef).len(),
    decreases kinds.len(),
{
    reveal(Seq::filter);
    if kinds.len() > 0 {
        lemma_changed_count_is_filter_len(kinds.drop_last());
    }
}

/// Only arguments passed by `&mut` come back from the child.
pub proof fn lemma_only_mut_refs_come_back(kind: ArgKind)
    ensures
        spec_is_changed_var(kind) <==> kind is MutRef,
{
}

/// The number of `&mut` arguments among `kinds`, as `changed_count`
/// computes it, is the number of `MutRef` entries of `kinds`; a reply has
/// one frame for each of them plus one for a return value.
pub proof fn lemma_changed_count_counts_mut_refs(kinds: Seq<ArgKind>, has_ret: bool)
    ensures
        spec_changed_count(kinds) == kinds.filter(|k: ArgKind| k is MutRef).len(),
        spec_reply_len(kinds, has_ret) == kinds.filter(|k: ArgKind| k is MutRef).len() + if has_ret {
            1int
        } else {
            0int
        },
{
    lemma_changed_count_is_filter_len(kinds);
}

/// The reply the child sends: frame `k` is the value, as the function left
/// it, of the `k`-th argument passed by `&mut`, counting in argument order
/// (argument `i` is preceded by as many `&mut` arguments as `kinds[0..i]`
/// holds `MutRef` entries); after those frames comes the return value, if
/// the function has one, and nothing else.
pub proof fn lemma_reply_carries_mut_refs_in_order<T>(kinds: Seq<ArgKind>, after: Seq<T>, ret: Option<T>)
    requires
        kinds.len() == after.len(),
    ensures
        ({
            let reply = spec_reply(kinds, after, ret);
            let n = kinds.filter(|k: ArgKind| k is MutRef).len();
            &&& reply.len() == n + if ret is Some {
                1int
            } else {
                0int
            }
            &&& forall|i: int|
                0 <= i < kinds.len() && kinds[i] is MutRef ==> reply[kinds.take(i).filter(
                    |k: ArgKind| k is MutRef,
                ).len() as int] == after[i]
            &&& ret is Some ==> reply[n as int] == ret->0
        }),
{
    let reply = spec_reply(kinds, after, ret);
    lemma_changed_vars_len(kinds, after);
    lemma_changed_count_is_filter_len(kinds);
    assert forall|i: int| 0 <= i < kinds.len() && kinds[i] is MutRef implies reply[kinds.take(i).filter(
        |k: ArgKind| k is MutRef,
    ).len() as int] == after[i] by {
        lemma_changed_count_is_filter_len(kinds.take(i));
        lemma_changed_vars_index(kinds, after, i);
    }
}

/// Reading a reply in the caller: it is accepted exactly when it has one
/// frame per `&mut` argument plus one for a return value; then argument `i`,
/// when passed by `&mut`, takes frame `k` where `k` is the number of `&mut`
/// arguments before it, every other argument keeps the caller's value, and
/// the frame after the `&mut` ones is the return value.
pub proof fn lemma_restore_reads_frames_in_order<T>(
    kinds: Seq<ArgKind>,
    before: Seq<T>,
    reply: Seq<T>,
    has_ret: bool,
)
    requires
        kinds.len() == before.len(),
    ensures
        ({
            let n = kinds.filter(|k: ArgKind| k is MutRef).len();
            let fits = reply.len() == n + if has_ret {
                1int
            } else {
                0int
            };
            &&& spec_restore(kinds, before, reply, has_ret) is Ok <==> fits
            &&& fits ==> {
                let (args, r) = spec_restore(kinds, before, reply, has_ret)->Ok_0;
                &&& args.len() == kinds.len()
                &&& forall|i: int|
                    0 <= i < kinds.len() ==> args[i] == if kinds[i] is MutRef {
                        reply[kinds.take(i).filter(|k: ArgKind| k is MutRef).len() as int]
                    } else {
                        before[i]
                    }
                &&& r == if has_ret {
                    Some(reply[n as int])
                } else {
                    None
                }
            }
        }),
{
    lemma_changed_count_is_filter_len(kinds);
    let n = kinds.filter(|k: ArgKind| k is MutRef).len();
    let fits = reply.len() == n + if has_ret {
        1int
    } else {
        0int
    };
    if fits {
        let (args, r) = spec_restore(kinds, before, reply, has_ret)->Ok_0;
        assert forall|i: int| 0 <= i < kinds.len() implies args[i] == if kinds[i] is MutRef {
            reply[kinds.take(i).filter(|k: ArgKind| k is MutRef).len() as int]
        } else {
            before[i]
        } by {
            lemma_changed_count_is_filter_len(kinds.take(i));
        }
    }
}

/// Number of frames the caller reads back for a call with these arguments.
pub fn reply_len(kinds: &Vec<ArgKind>, has_ret: bool) -> (len: usize)
    requires
        kinds.len() < usize::MAX,
    ensures
        len == spec_reply_len(kinds@, has_ret),
{
    let n = changed_count(kinds);
    if has_ret {
        n + 1
    } else {
        n
    }
}

/// Counts the arguments that come back after the call.
pub fn changed_count(kinds: &Vec<ArgKind>) -> (count: usize)
    ensures
        count == spec_changed_count(kinds@),
        count <= kinds.len(),
{
    let mut count: usize = 0;
    let mut i: usize = 0;
    while i < kinds.len()
        invariant
            i <= kinds.len(),
            count == spec_changed_count(kinds@.take(i as int)),
            count <= i,
        decreases kinds.len() - i,
    {
        proof {
            lemma_changed_count_step(kinds@, i as int);
        }
        if kinds[i].is_changed_var() {
            count = count + 1;
        }
        i = i + 1;
    }
    assert(kinds@.take(kinds.len() as int) =~= kinds@);
    count
}

/// The child's side after the call: the frames it sends back are the
/// `&mut` arguments as the function left them, in order, then the return
/// value if there is one.
pub fn store_changed_vars<T>(kinds: &Vec<ArgKind>, after: Vec<T>, ret: Option<T>) -> (reply: Vec<T>)
    requires
        kinds.len() == after.len(),
    ensures
        reply@ == spec_reply(kinds@, after@, ret),
{
    let ghost all = after@;
    let mut rest = after;
    let mut reply: Vec<T> = Vec::new();
    let mut i: usize = 0;
    while i < kinds.len()
        invariant
            i <= kinds.len(),
            kinds.len() == all.len(),
            rest@ == all.skip(i as int),
            reply@ == spec_changed_vars(kinds@.take(i as int), all.take(i as int)),
        decreases kinds.len() - i,
    {
        let value = rest.remove(0);
        assert(kinds@.take(i + 1).drop_last() =~= kinds@.take(i as int));
        assert(all.take(i + 1).drop_last() =~= all.take(i as int));
        assert(value == all[i as int]);
        if kinds[i].is_changed_var() {
            reply.push(value);
        }
        assert(rest@ =~= all.skip(i + 1));
        i = i + 1;
    }
    assert(kinds@.take(kinds.len() as int) =~= kinds@);
    assert(all.take(kinds.len() as int) =~= all);
    match ret {
        Some(r) => {
            reply.push(r);
        },
        None => {},
    }
    assert(reply@ =~= spec_reply(kinds@, all, ret));
    reply
}

/// The caller's side after the call: reads the reply into the arguments.
/// Every `&mut` argument takes its frame from the reply, in order; the
/// others keep the caller's value; the last frame is the return value when
/// the function has one.  A reply of the wrong length is refused.
pub fn restore_changed_vars<T>(kinds: &Vec<ArgKind>, before: Vec<T>, reply: Vec<T>, has_ret: bool) -> (restored:
    Result<(Vec<T>, Option<T>), ProtocolError>)
    requires
        kinds.len() == before.len(),
    ensures
        match restored {
            Ok((args, ret)) => spec_restore(kinds@, before@, reply@, has_ret) == Ok::<
                (Seq<T>, Option<T>),
                ProtocolError,
            >((args@, ret)),
            Err(e) => spec_restore(kinds@, before@, reply@, has_ret) == Err::<
                (Seq<T>, Option<T>),
                ProtocolError,
            >(e),
        },
{
    let n = changed_count(kinds);
    let fits = if has_ret {
        reply.len() >= 1 && reply.len() - 1 == n
    } else {
        reply.len() == n
    };
    if !fits {
        return Err(ProtocolError::WrongFrameCount);
    }
    let ghost before_all = before@;
    let ghost reply_all = reply@;
    let mut before_rest = before;
    let mut reply_rest = reply;
    let mut args: Vec<T> = Vec::new();
    let mut i: usize = 0;
    while i < kinds.len()
        invariant
            i <= kinds.len(),
            kinds.len() == before_all.len(),
            reply_all.len() == spec_reply_len(kinds@, has_ret),
            before_rest@ == before_all.skip(i as int),
            spec_changed_count(kinds@.take(i as int)) <= spec_changed_count(kinds@),
            reply_rest@ == reply_all.skip(spec_changed_count(kinds@.take(i as int)) as int),
            args@.len() == i,
            forall|j: int|
                0 <= j < i ==> #[trigger] args@[j] == spec_restored_args(kinds@, before_all, reply_all)[j],
        decreases kinds.len() - i,
    {
        proof {
            lemma_changed_count_step(kinds@, i as int);
            lemma_changed_count_mono(kinds@, i + 1, kinds.len() as int);
            assert(kinds@.take(kinds.len() as int) =~= kinds@);
        }
        let ghost c = spec_changed_count(kinds@.take(i as int));
        let old_value = before_rest.remove(0);
        assert(old_value == before_all[i as int]);
        if kinds[i].is_changed_var() {
            let new_value = reply_rest.remove(0);
            assert(new_value == reply_all[c as int]);
            args.push(new_value);
            assert(reply_rest@ =~= reply_all.skip(c as int + 1));
        } else {
            args.push(old_value);
        }
        assert(before_rest@ =~= before_all.skip(i + 1));
        i = i + 1;
    }
    assert(kinds@.take(kinds.len() as int) =~= kinds@);
    assert(args@ =~= spec_restored_args(kinds@, before_all, reply_all));
    let ret = if has_ret {
        let r = reply_rest.remove(0);
        assert(r == reply_all[spec_changed_count(kinds@) as int]);
        Some(r)
    } else {
        None
    };
    Ok((args, ret))
}

} // verus!
