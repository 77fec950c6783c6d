//! Low-level text building: runs of spaces, character pushes, and the
//! re-indentation of multi-line help text.

use vstd::prelude::*;

verus! {

/// A run of `n` space characters.
pub open spec fn spaces(n: nat) -> Seq<char> {
    Seq::new(n, |i: int| ' ')
}

/// One character of help text as it appears in the expanded layout: a line
/// break is followed by enough spaces (`width + 6`) to line the next line
/// up under the first line's description column; any other character stands
/// as itself.
pub open spec fn expand_break(c: char, width: nat) -> Seq<char> {
    if c == '\n' {
        seq!['\n'] + spaces(width + 6)
    } else {
        seq![c]
    }
}

/// Help text as it appears in the expanded layout: every character mapped
/// through [`expand_break`].
pub open spec fn reindent(h: Seq<char>, width: nat) -> Seq<char>
    decreases h.len(),
{
    if h.len() == 0 {
        Seq::empty()
    } else {
        reindent(h.drop_last(), width) + expand_break(h.last(), width)
    }
}

/// Relies on `String::push`: appends the given character to the end of the
/// string.
#[verifier::external_body]
pub(crate) fn push_char(s: &mut String, c: char)
    ensures
        final(s)@ == old(s)@ + seq![c],
{
    s.push(c);
}

/// Appends `n` spaces.
pub(crate) fn push_spaces(s: &mut String, n: usize)
    ensures
        final(s)@ == old(s)@ + spaces(n as nat),
{
    let mut i: usize = 0;
    while i < n
        invariant
            i <= n,
            s@ == old(s)@ + spaces(i as nat),
        decreases n - i,
    {
        push_char(s, ' ');
        proof {
            assert(old(s)@ + spaces((i + 1) as nat) =~= (old(s)@ + spaces(i as nat)) + seq![' ']);
        }
        i += 1;
    }
}

/// Appends `h`, re-indenting every line after the first to `width + 6`
/// columns.
pub(crate) fn append_reindented(out: &mut String, h: &str, width: usize)
    requires
        width + 6 <= usize::MAX,
    ensures
        final(out)@ == old(out)@ + reindent(h@, width as nat),
{
    let n = h.unicode_len();
    let mut i: usize = 0;
    while i < n
        invariant
            i <= n,
            n == h@.len(),
            width + 6 <= usize::MAX,
            out@ == old(out)@ + reindent(h@.take(i as int), width as nat),
        decreases n - i,
    {
        let c = h.get_char(i);
        if c == '\n' {
            push_char(out, '\n');
            push_spaces(out, width + 6);
        } else {
            push_char(out, c);
        }
        proof {
            assert(h@.take((i + 1) as int).drop_last() =~= h@.take(i as int));
            assert(h@.take((i + 1) as int).last() == h@[i as int]);
            assert(out@ =~= old(out)@ + reindent(h@.take((i + 1) as int), width as nat));
        }
        i += 1;
    }
    proof {
        assert(h@.take(n as int) =~= h@);
    }
}

/// The text that the standard `Debug` formatting produces for a string
/// slice; it depends on the characters alone.
pub uninterp spec fn debug_str_of(s: Seq<char>) -> Seq<char>;

/// Relies on the std `Debug` formatting for `str`: the slice quoted and
/// escaped, computed from its characters alone.
#[verifier::external_body]
pub(crate) fn debug_quoted(s: &str) -> (r: String)
    ensures
        r@ == debug_str_of(s@),
{
    format!("{:?}", s)
}

} // verus!
