//! General properties of the width calculation and the two rendering
//! modes, stated and proved once for all inputs.

use vstd::prelude::*;

use crate::item::{Item, ShortLong};
use crate::text::{reindent, spaces};

verus! {

/// A name with only a long form `l` is as wide as the fixed six-column
/// prefix plus the long name itself.
pub proof fn lemma_long_only_width(l: String)
    ensures
        ShortLong::Long(l).spec_full_width() == 6 + l@.len(),
{
}

/// A name with only a short form is always two columns wide.
pub proof fn lemma_short_only_width(c: char)
    ensures
        ShortLong::Short(c).spec_full_width() == 2,
{
}

/// A name with both forms is exactly as wide as one with the long form
/// alone: the short form contributes no extra width.
pub proof fn lemma_both_forms_width(c: char, l: String)
    ensures
        ShortLong::ShortLong(c, l).spec_full_width() == 6 + l@.len(),
        ShortLong::ShortLong(c, l).spec_full_width() == ShortLong::Long(l).spec_full_width(),
{
}

/// The compact form of a name renders exactly one of the two forms, never
/// both, and prefers the short one when it is present.
pub proof fn lemma_compact_prefers_short(n: ShortLong)
    ensures
        n matches ShortLong::Short(c) ==> n.spec_render_compact() == seq!['-', c],
        n matches ShortLong::ShortLong(c, _) ==> n.spec_render_compact() == seq!['-', c],
        n matches ShortLong::Long(l) ==> n.spec_render_compact() == seq!['-', '-'] + l@,
{
    reveal_strlit("--");
    if let ShortLong::Long(_) = n {
        assert("--"@ =~= seq!['-', '-']);
    }
}

/// The expanded form of a name with both forms is the short form, a comma
/// and a space, then the long form.
pub proof fn lemma_expanded_both_forms(c: char, l: String)
    ensures
        ShortLong::ShortLong(c, l).spec_render_expanded() == seq!['-', c, ',', ' ', '-', '-']
            + l@,
{
    reveal_strlit(", --");
    assert(", --"@ =~= seq![',', ' ', '-', '-']);
    assert(seq!['-', c] + ", --"@ + l@ =~= seq!['-', c, ',', ' ', '-', '-'] + l@);
}

/// The compact form of a flag item is exactly the compact form of its
/// name, so it too renders one of the two forms, short preferred.
pub proof fn lemma_compact_flag_renders_name(item: Item)
    ensures
        item matches Item::Flag { name, .. } ==> item.spec_render_compact()
            == name.spec_render_compact(),
{
}

/// Re-indentation leaves help text without line breaks unchanged.
pub proof fn lemma_reindent_no_breaks(h: Seq<char>, width: nat)
    requires
        forall|i: int| 0 <= i < h.len() ==> h[i] != '\n',
    ensures
        reindent(h, width) == h,
    decreases h.len(),
{
    if h.len() == 0 {
        assert(reindent(h, width) =~= h);
    } else {
        lemma_reindent_no_breaks(h.drop_last(), width);
        assert(h[h.len() - 1] != '\n');
        assert(reindent(h, width) =~= h.drop_last() + seq![h.last()]);
        assert(h.drop_last() + seq![h.last()] =~= h);
    }
}

/// Help text made of two break-free lines re-indents to the first line, a
/// line break, the continuation indent of `width + 6` spaces, then the
/// second line.
pub proof fn lemma_reindent_single_break(a: Seq<char>, b: Seq<char>, width: nat)
    requires
        forall|i: int| 0 <= i < a.len() ==> a[i] != '\n',
        forall|i: int| 0 <= i < b.len() ==> b[i] != '\n',
    ensures
        reindent(a + seq!['\n'] + b, width) == a + seq!['\n'] + spaces(width + 6) + b,
    decreases b.len(),
{
    let h = a + seq!['\n'] + b;
    if b.len() == 0 {
        lemma_reindent_no_breaks(a, width);
        assert(h.drop_last() =~= a);
        assert(h.last() == '\n');
        assert(reindent(h, width) =~= a + seq!['\n'] + spaces(width + 6) + b);
    } else {
        lemma_reindent_single_break(a, b.drop_last(), width);
        assert(h.drop_last() =~= a + seq!['\n'] + b.drop_last());
        assert(h.last() == b.last());
        assert(b[b.len() - 1] != '\n');
        assert(reindent(h, width) =~= (a + seq!['\n'] + spaces(width + 6) + b.drop_last())
            + seq![b.last()]);
        assert((a + seq!['\n'] + spaces(width + 6) + b.drop_last()) + seq![b.last()] =~= a
            + seq!['\n'] + spaces(width + 6) + b);
    }
}

/// Help text with exactly one line break renders as two physical output
/// lines: the second starts right after the break, indented to `width + 6`
/// columns, with no name column and no pad before it.
pub proof fn lemma_single_break_two_lines(
    item: Item,
    h: String,
    a: Seq<char>,
    b: Seq<char>,
    width: nat,
)
    requires
        item.spec_help() == Some(h),
        h@ == a + seq!['\n'] + b,
        forall|i: int| 0 <= i < a.len() ==> a[i] != '\n',
        forall|i: int| 0 <= i < b.len() ==> b[i] != '\n',
        item.spec_env_name() is None,
        item.spec_full_width() <= width,
    ensures
        item.spec_render_expanded(width, None) == item.spec_name_column() + spaces(
            (width - item.spec_full_width()) as nat,
        ) + "  "@ + a + seq!['\n'] + spaces(width + 6) + b,
{
    lemma_reindent_single_break(a, b, width);
    let pad = (width - item.spec_full_width()) as nat;
    assert(item.spec_render_expanded(width, None) =~= item.spec_name_column() + spaces(pad)
        + "  "@ + a + seq!['\n'] + spaces(width + 6) + b);
}

/// When the caller reserves exactly the item's natural width, the pad is
/// zero and exactly one two-space gap separates the name column from the
/// help text.
pub proof fn lemma_exact_width_single_gap(item: Item, h: String)
    requires
        item.spec_help() == Some(h),
        item.spec_env_name() is None,
    ensures
        item.spec_render_expanded(item.spec_full_width(), None) == item.spec_name_column()
            + "  "@ + reindent(h@, item.spec_full_width()),
{
    assert(spaces(0) =~= Seq::<char>::empty());
    assert(item.spec_name_column() + (spaces(0) + "  "@ + reindent(h@, item.spec_full_width()))
        =~= item.spec_name_column() + "  "@ + reindent(h@, item.spec_full_width()));
}

} // verus!
