//! Readable renderings of commands and pipelines.
//!
//! A command is shown as its words, each quoted the way a shell user
//! would quote it: a word of plain characters stands bare, anything
//! else is wrapped in single quotes with every embedded quote escaped.

use vstd::prelude::*;

use crate::builder::Exec;
use crate::os::push_char;
use crate::pipeline::Pipeline;
use vstd::string::StrSliceExecFns;
use vstd::string::StringExecFns;

verus! {

/// A character that needs no quoting inside a command word: ASCII
/// letters and digits and a few separators.
pub open spec fn nice_char(c: char) -> bool {
    ||| 97 <= c as int <= 122  // 'a' to 'z'

    ||| 65 <= c as int <= 90  // 'A' to 'Z'

    ||| 48 <= c as int <= 57  // '0' to '9'

    ||| c == '-'
    ||| c == '_'
    ||| c == '.'
    ||| c == ','
    ||| c == '/'
}

/// A word that may stand without quotes: non-empty and made of nice
/// characters only.
pub open spec fn bare_word(w: Seq<char>) -> bool {
    w.len() > 0 && forall|i: int| 0 <= i < w.len() ==> nice_char(#[trigger] w[i])
}

/// How one character appears inside a single-quoted word: a quote
/// closes the quoting, stands escaped, and reopens it.
pub open spec fn esc_char(c: char) -> Seq<char> {
    if c == '\'' {
        seq!['\'', '\\', '\'', '\'']
    } else {
        seq![c]
    }
}

/// The body of a single-quoted word.
pub open spec fn escaped_chars(w: Seq<char>) -> Seq<char>
    decreases w.len(),
{
    if w.len() == 0 {
        Seq::empty()
    } else {
        escaped_chars(w.drop_last()) + esc_char(w.last())
    }
}

/// A word as shown: bare, or wrapped in single quotes with embedded
/// quotes escaped.
pub open spec fn quoted_word(w: Seq<char>) -> Seq<char> {
    if bare_word(w) {
        w
    } else {
        seq!['\''] + escaped_chars(w) + seq!['\'']
    }
}

/// The words of a command line, quoted and joined by single spaces.
pub open spec fn joined_words(ws: Seq<Seq<char>>) -> Seq<char>
    decreases ws.len(),
{
    if ws.len() == 0 {
        Seq::empty()
    } else if ws.len() == 1 {
        quoted_word(ws[0])
    } else {
        joined_words(ws.drop_last()) + seq![' '] + quoted_word(ws.last())
    }
}

/// The views of a list of words.
pub open spec fn word_views(argv: Seq<String>) -> Seq<Seq<char>> {
    argv.map_values(|s: String| s@)
}

/// The rendering of one command: its words inside `Exec { ... }`.
pub open spec fn exec_debug(e: &Exec) -> Seq<char> {
    "Exec { "@ + joined_words(word_views(seq![e.command] + e.args@)) + " }"@
}

/// The command lines of a pipeline, joined by pipe signs.
pub open spec fn joined_cmds(cs: Seq<Exec>) -> Seq<char>
    decreases cs.len(),
{
    if cs.len() == 0 {
        Seq::empty()
    } else if cs.len() == 1 {
        joined_words(word_views(seq![cs[0].command] + cs[0].args@))
    } else {
        joined_cmds(cs.drop_last()) + " | "@ + joined_words(
            word_views(seq![cs.last().command] + cs.last().args@),
        )
    }
}

/// The rendering of a pipeline: its commands inside `Pipeline { ... }`.
pub open spec fn pipeline_debug(p: &Pipeline) -> Seq<char> {
    "Pipeline { "@ + joined_cmds(p.cmds@) + " }"@
}

/// Whether the character needs no quoting.
fn nice_char_exec(c: char) -> (r: bool)
    ensures
        r == nice_char(c),
{
    let u: u32 = c as u32;
    (97 <= u && u <= 122) || (65 <= u && u <= 90) || (48 <= u && u <= 57) || c == '-' || c == '_'
        || c == '.' || c == ',' || c == '/'
}

/// Whether the word may stand bare.
fn is_bare_word(w: &str) -> (r: bool)
    ensures
        r == bare_word(w@),
{
    let n: usize = w.unicode_len();
    if n == 0 {
        return false;
    }
    let mut i: usize = 0;
    while i < n
        invariant
            0 <= i <= n,
            n == w@.len(),
            forall|j: int| 0 <= j < i ==> nice_char(#[trigger] w@[j]),
        decreases n - i,
    {
        let c: char = w.get_char(i);
        if !nice_char_exec(c) {
            return false;
        }
        i = i + 1;
    }
    true
}

/// Append one word, quoted as shown.
fn append_quoted_word(out: &mut String, w: &str)
    ensures
        final(out)@ == old(out)@ + quoted_word(w@),
{
    if is_bare_word(w) {
        out.append(w);
        return ;
    }
    push_char(out, '\'');
    let n: usize = w.unicode_len();
    let mut i: usize = 0;
    while i < n
        invariant
            0 <= i <= n,
            n == w@.len(),
            !bare_word(w@),
            out@ == old(out)@ + seq!['\''] + escaped_chars(w@.take(i as int)),
        decreases n - i,
    {
        let c: char = w.get_char(i);
        if c == '\'' {
            push_char(out, '\'');
            push_char(out, '\\');
            push_char(out, '\'');
            push_char(out, '\'');
        } else {
            push_char(out, c);
        }
        proof {
            assert(w@.take(i + 1).drop_last() == w@.take(i as int));
            assert(w@.take(i + 1).last() == w@[i as int]);
            assert(out@ =~= old(out)@ + seq!['\''] + escaped_chars(w@.take(i + 1)));
        }
        i = i + 1;
    }
    push_char(out, '\'');
    proof {
        assert(w@.take(n as int) == w@);
        assert(out@ =~= old(out)@ + quoted_word(w@));
    }
}

/// Append the quoted words of `argv`, separated by single spaces.
fn append_joined_words(out: &mut String, argv: &Vec<String>)
    ensures
        final(out)@ == old(out)@ + joined_words(word_views(argv@)),
{
    let n: usize = argv.len();
    let mut i: usize = 0;
    while i < n
        invariant
            0 <= i <= n,
            n == argv@.len(),
            out@ == old(out)@ + joined_words(word_views(argv@).take(i as int)),
        decreases n - i,
    {
        if i > 0 {
            push_char(out, ' ');
        }
        append_quoted_word(out, argv[i].as_str());
        proof {
            let ws = word_views(argv@);
            assert(ws.take(i + 1).drop_last() =~= ws.take(i as int));
            assert(ws.take(i + 1).last() == ws[i as int]);
            assert(ws[i as int] == argv@[i as int]@);
            assert(out@ =~= old(out)@ + joined_words(ws.take(i + 1)));
        }
        i = i + 1;
    }
    proof {
        assert(word_views(argv@).take(n as int) =~= word_views(argv@));
    }
}

impl Exec {
    /// The readable rendering of this command, its words quoted as a
    /// shell user would write them.
    pub fn to_debug_string(&self) -> (r: String)
        ensures
            r@ == exec_debug(self),
    {
        let mut out: String = String::from_str("Exec { ");
        let argv: Vec<String> = self.full_argv();
        proof {
            assert(argv@ =~= seq![self.command] + self.args@);
        }
        append_joined_words(&mut out, &argv);
        out.append(" }");
        out
    }
}

impl Pipeline {
    /// The readable rendering of this pipeline: its commands joined
    /// by pipe signs.
    pub fn to_debug_string(&self) -> (r: String)
        ensures
            r@ == pipeline_debug(self),
    {
        let mut out: String = String::from_str("Pipeline { ");
        let n: usize = self.cmds.len();
        let mut i: usize = 0;
        while i < n
            invariant
                0 <= i <= n,
                n == self.cmds@.len(),
                out@ == "Pipeline { "@ + joined_cmds(self.cmds@.take(i as int)),
            decreases n - i,
        {
            if i > 0 {
                out.append(" | ");
            }
            let argv: Vec<String> = self.cmds[i].full_argv();
            proof {
                assert(argv@ =~= seq![self.cmds@[i as int].command] + self.cmds@[i as int].args@);
            }
            append_joined_words(&mut out, &argv);
            proof {
                let cs = self.cmds@;
                assert(cs.take(i + 1).drop_last() =~= cs.take(i as int));
                assert(cs.take(i + 1).last() == cs[i as int]);
                assert(out@ =~= "Pipeline { "@ + joined_cmds(cs.take(i + 1)));
            }
            i = i + 1;
        }
        proof {
            assert(self.cmds@.take(n as int) =~= self.cmds@);
        }
        out.append(" }");
        out
    }
}

} // verus!
