//! Program arguments on their way to the runtime.
//!
//! The runtime takes its arguments as C strings, which end at their first
//! NUL byte. An argument that holds a NUL byte is cut there.

use vstd::prelude::*;

verus! {

/// Whether `c_arg` is `arg` as a C string without its terminator: `arg` up
/// to, and without, its first NUL byte.
pub open spec fn is_c_arg(c_arg: Seq<u8>, arg: Seq<u8>) -> bool {
    &&& c_arg.len() <= arg.len()
    &&& c_arg == arg.take(c_arg.len() as int)
    &&& forall|i: int| 0 <= i < c_arg.len() ==> c_arg[i] != 0
    &&& c_arg.len() < arg.len() ==> arg[c_arg.len() as int] == 0
}

/// There is one C string for each argument.
pub proof fn lemma_c_arg_unique(a: Seq<u8>, b: Seq<u8>, arg: Seq<u8>)
    requires
        is_c_arg(a, arg),
        is_c_arg(b, arg),
    ensures
        a == b,
{
    if a.len() < b.len() {
        assert(b[a.len() as int] == arg[a.len() as int]);
    } else if b.len() < a.len() {
        assert(a[b.len() as int] == arg[b.len() as int]);
    }
    assert(a =~= b);
}

/// Cuts `arg` at its first NUL byte.
pub fn c_arg(arg: &Vec<u8>) -> (cut: Vec<u8>)
    ensures
        is_c_arg(cut@, arg@),
{
    let mut cut: Vec<u8> = Vec::new();
    let mut i: usize = 0;
    while i < arg.len() && arg[i] != 0
        invariant
            i <= arg@.len(),
            cut@ == arg@.take(i as int),
            forall|j: int| 0 <= j < i ==> arg@[j] != 0,
        decreases arg@.len() - i,
    {
        cut.push(arg[i]);
        i = i + 1;
        assert(cut@ =~= arg@.take(i as int));
    }
    cut
}

/// Turns the program's arguments into what the runtime is started with:
/// each argument cut at its first NUL byte, in the same order.
pub fn get_c_args(args: &Vec<Vec<u8>>) -> (c_args: Vec<Vec<u8>>)
    ensures
        c_args@.len() == args@.len(),
        forall|i: int| 0 <= i < args@.len() ==> is_c_arg(#[trigger] c_args@[i]@, args@[i]@),
{
    let mut c_args: Vec<Vec<u8>> = Vec::new();
    let mut i: usize = 0;
    while i < args.len()
        invariant
            i <= args@.len(),
            c_args@.len() == i,
            forall|j: int| 0 <= j < i ==> is_c_arg(#[trigger] c_args@[j]@, args@[j]@),
        decreases args@.len() - i,
    {
        let cut = c_arg(&args[i]);
        c_args.push(cut);
        i = i + 1;
    }
    c_args
}

} // verus!
