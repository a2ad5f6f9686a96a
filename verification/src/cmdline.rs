//! Assembly of a single command line from an argument vector, under
//! the quoting convention that Windows process creation expects.  The
//! rules are pure word logic and are kept verified here even though
//! the POSIX spawn path passes the argument vector through unchanged.
//!
//! An argument without whitespace, quotes or control characters is
//! appended verbatim.  Any other argument is wrapped in double
//! quotes; inside it, every quote is escaped with a backslash, and a
//! backslash is doubled exactly when the run of backslashes it begins
//! runs into a quote or into the end of the argument.  Arguments are
//! joined by single spaces.

use vstd::prelude::*;

use crate::error::PopenError;
use crate::error::PopenResult;

verus! {

/// Characters that force quoting: space, tab, newline, vertical tab
/// and the double quote.
pub open spec fn forces_quotes(c: u16) -> bool {
    c == 32 || c == 9 || c == 10 || c == 11 || c == 34
}

/// An argument is quoted when it is empty or holds any character that
/// forces quoting.
pub open spec fn needs_quotes(a: Seq<u16>) -> bool {
    a.len() == 0 || exists|i: int| 0 <= i < a.len() && forces_quotes(#[trigger] a[i])
}

/// Whether the backslash at position `i` must be doubled: the run of
/// backslashes it begins ends at a quote or at the end of the
/// argument.
pub open spec fn backslash_doubles_spec(a: Seq<u16>, i: int) -> bool
    decreases a.len() - i,
{
    if i + 1 >= a.len() {
        true
    } else if a[i + 1] == 34 {
        true
    } else if a[i + 1] == 92 {
        backslash_doubles_spec(a, i + 1)
    } else {
        false
    }
}

/// What one character contributes to the quoted body.
pub open spec fn quoted_piece(a: Seq<u16>, i: int) -> Seq<u16> {
    if a[i] == 34 {
        seq![92u16, 34u16]
    } else if a[i] == 92 && backslash_doubles_spec(a, i) {
        seq![92u16, 92u16]
    } else {
        seq![a[i]]
    }
}

/// The quoted body of the first `i` characters.
pub open spec fn quoted_body_upto(a: Seq<u16>, i: int) -> Seq<u16>
    decreases i,
{
    if i <= 0 {
        Seq::empty()
    } else {
        quoted_body_upto(a, i - 1) + quoted_piece(a, i - 1)
    }
}

/// The full quoted form of one argument.
pub open spec fn quoted_arg(a: Seq<u16>) -> Seq<u16> {
    if !needs_quotes(a) {
        a
    } else {
        seq![34u16] + quoted_body_upto(a, a.len() as int) + seq![34u16]
    }
}

/// The command line of an argument vector: each argument quoted, each
/// followed by one space.
pub open spec fn cmdline_spec(argv: Seq<Seq<u16>>) -> Seq<u16>
    decreases argv.len(),
{
    if argv.len() == 0 {
        Seq::empty()
    } else {
        cmdline_spec(argv.drop_last()) + quoted_arg(argv.last()) + seq![32u16]
    }
}

/// No character of the argument is NUL.
pub open spec fn arg_no_nul(a: Seq<u16>) -> bool {
    forall|i: int| 0 <= i < a.len() ==> #[trigger] a[i] != 0
}

/// Whether the backslash at `i` begins a run that hits a quote or the
/// end of the argument.
fn backslash_doubles(a: &Vec<u16>, i: usize) -> (r: bool)
    requires
        i < a@.len(),
    ensures
        r == backslash_doubles_spec(a@, i as int),
    decreases a@.len() - i,
{
    let n: usize = a.len();
    if i + 1 >= n {
        true
    } else if a[i + 1] == 34 {
        true
    } else if a[i + 1] == 92 {
        backslash_doubles(a, i + 1)
    } else {
        false
    }
}

/// Whether the argument must be wrapped in quotes.
fn arg_needs_quotes(a: &Vec<u16>) -> (r: bool)
    ensures
        r == needs_quotes(a@),
{
    let n: usize = a.len();
    if n == 0 {
        return true;
    }
    let mut i: usize = 0;
    while i < n
        invariant
            0 <= i <= n,
            n == a@.len(),
            forall|j: int| 0 <= j < i ==> !forces_quotes(#[trigger] a@[j]),
        decreases n - i,
    {
        let c: u16 = a[i];
        if c == 32 || c == 9 || c == 10 || c == 11 || c == 34 {
            return true;
        }
        i = i + 1;
    }
    false
}

/// Append one argument to the command line in its quoted form.
pub fn append_quoted(arg: &Vec<u16>, cmdline: &mut Vec<u16>)
    ensures
        final(cmdline)@ == old(cmdline)@ + quoted_arg(arg@),
{
    let n: usize = arg.len();
    if !arg_needs_quotes(arg) {
        let mut copy: Vec<u16> = vstd::slice::slice_to_vec(arg.as_slice());
        cmdline.append(&mut copy);
        return ;
    }
    cmdline.push(34);
    let mut i: usize = 0;
    while i < n
        invariant
            0 <= i <= n,
            n == arg@.len(),
            needs_quotes(arg@),
            cmdline@ == old(cmdline)@ + seq![34u16] + quoted_body_upto(arg@, i as int),
        decreases n - i,
    {
        let c: u16 = arg[i];
        if c == 34 {
            cmdline.push(92);
            cmdline.push(34);
        } else if c == 92 && backslash_doubles(arg, i) {
            cmdline.push(92);
            cmdline.push(92);
        } else {
            cmdline.push(c);
        }
        proof {
            assert(cmdline@ =~= old(cmdline)@ + seq![34u16] + quoted_body_upto(arg@, i + 1));
        }
        i = i + 1;
    }
    cmdline.push(34);
    proof {
        assert(cmdline@ =~= old(cmdline)@ + quoted_arg(arg@));
    }
}

/// Assemble the command line of a whole argument vector.  An argument
/// holding a NUL character cannot appear on a command line and is
/// rejected as a logic error.
pub fn assemble_cmdline(argv: &Vec<Vec<u16>>) -> (r: PopenResult<Vec<u16>>)
    ensures
        r is Ok <==> (forall|i: int| 0 <= i < argv@.len() ==> arg_no_nul(#[trigger] argv@[i]@)),
        r matches Ok(line) ==> line@ == cmdline_spec(argv@.map_values(|a: Vec<u16>| a@)),
{
    let mut out: Vec<u16> = Vec::new();
    let n: usize = argv.len();
    let mut i: usize = 0;
    while i < n
        invariant
            0 <= i <= n,
            n == argv@.len(),
            forall|k: int| 0 <= k < i ==> arg_no_nul(#[trigger] argv@[k]@),
            out@ == cmdline_spec(argv@.map_values(|a: Vec<u16>| a@).take(i as int)),
        decreases n - i,
    {
        let arg: &Vec<u16> = &argv[i];
        let m: usize = arg.len();
        let mut j: usize = 0;
        while j < m
            invariant
                0 <= j <= m,
                0 <= i < n,
                n == argv@.len(),
                m == arg@.len(),
                arg@ == argv@[i as int]@,
                forall|t: int| 0 <= t < j ==> #[trigger] arg@[t] != 0,
            decreases m - j,
        {
            if arg[j] == 0 {
                proof {
                    assert(!arg_no_nul(argv@[i as int]@));
                }
                return Err(PopenError::LogicError("argument contains a NUL character"));
            }
            j = j + 1;
        }
        append_quoted(arg, &mut out);
        out.push(32);
        proof {
            let ws = argv@.map_values(|a: Vec<u16>| a@);
            assert(ws.take(i + 1).drop_last() =~= ws.take(i as int));
            assert(ws.take(i + 1).last() == ws[i as int]);
            assert(ws[i as int] == argv@[i as int]@);
            assert(out@ =~= cmdline_spec(ws.take(i + 1)));
        }
        i = i + 1;
    }
    proof {
        let ws = argv@.map_values(|a: Vec<u16>| a@);
        assert(ws.take(n as int) =~= ws);
    }
    Ok(out)
}

} // verus!
