//! The two-mode rendering engine: compact usage fragments and aligned,
//! possibly multi-line help-table rows.

use vstd::prelude::*;

use crate::item::{EnvValue, Item, ShortLong};
use crate::text::{append_reindented, debug_quoted, debug_str_of, expand_break, push_char,
    push_spaces, reindent, spaces};

verus! {

impl ShortLong {
    /// Compact form: the short name when present, else the long one.
    pub open spec fn spec_render_compact(self) -> Seq<char> {
        match self {
            ShortLong::Short(c) => seq!['-', c],
            ShortLong::ShortLong(c, _) => seq!['-', c],
            ShortLong::Long(l) => "--"@ + l@,
        }
    }

    /// Expanded form: a long-only name is indented so that it lines up
    /// under the long part of a short-and-long pair.
    pub open spec fn spec_render_expanded(self) -> Seq<char> {
        match self {
            ShortLong::Short(c) => seq!['-', c],
            ShortLong::Long(l) => "    --"@ + l@,
            ShortLong::ShortLong(c, l) => seq!['-', c] + ", --"@ + l@,
        }
    }

    pub fn render_compact(&self) -> (r: String)
        ensures
            r@ == self.spec_render_compact(),
    {
        let mut out = String::new();
        match self {
            ShortLong::Short(c) => {
                push_char(&mut out, '-');
                push_char(&mut out, *c);
            },
            ShortLong::ShortLong(c, _) => {
                push_char(&mut out, '-');
                push_char(&mut out, *c);
            },
            ShortLong::Long(l) => {
                out.append("--");
                out.append(l.as_str());
            },
        }
        proof {
            assert(out@ =~= self.spec_render_compact());
        }
        out
    }

    pub fn render_expanded(&self) -> (r: String)
        ensures
            r@ == self.spec_render_expanded(),
    {
        let mut out = String::new();
        match self {
            ShortLong::Short(c) => {
                push_char(&mut out, '-');
                push_char(&mut out, *c);
            },
            ShortLong::Long(l) => {
                out.append("    --");
                out.append(l.as_str());
            },
            ShortLong::ShortLong(c, l) => {
                push_char(&mut out, '-');
                push_char(&mut out, *c);
                out.append(", --");
                out.append(l.as_str());
            },
        }
        proof {
            assert(out@ =~= self.spec_render_expanded());
        }
        out
    }
}

impl Item {
    /// Compact form, used inside a one-line usage synopsis; never contains
    /// a line break.
    pub open spec fn spec_render_compact(self) -> Seq<char> {
        match self {
            Item::Decor { .. } => Seq::empty(),
            Item::Positional { metavar, .. } => seq!['<'] + metavar@ + seq!['>'],
            Item::Command { .. } => "COMMAND ..."@,
            Item::Flag { name, .. } => name.spec_render_compact(),
            Item::Argument { name, metavar, .. } => name.spec_render_compact() + seq![' ']
                + metavar@,
        }
    }

    pub fn render_compact(&self) -> (r: String)
        ensures
            r@ == self.spec_render_compact(),
    {
        let mut out = String::new();
        match self {
            Item::Decor { .. } => {},
            Item::Positional { metavar, .. } => {
                push_char(&mut out, '<');
                out.append(metavar.as_str());
                push_char(&mut out, '>');
            },
            Item::Command { .. } => {
                out.append("COMMAND ...");
            },
            Item::Flag { name, .. } => {
                let n = name.render_compact();
                out.append(n.as_str());
            },
            Item::Argument { name, metavar, .. } => {
                let n = name.render_compact();
                out.append(n.as_str());
                push_char(&mut out, ' ');
                out.append(metavar.as_str());
            },
        }
        proof {
            assert(out@ =~= self.spec_render_compact());
        }
        out
    }

    /// The name column of the expanded form: four leading spaces (absent
    /// only for a help-less decoration) followed by exactly
    /// [`Item::spec_full_width`] characters of name text.
    pub open spec fn spec_name_column(self) -> Seq<char> {
        match self {
            Item::Decor { help } => if help is Some {
                "    "@
            } else {
                Seq::empty()
            },
            Item::Positional { metavar, .. } => "    <"@ + metavar@ + seq!['>'],
            Item::Command { name, short, .. } => match short {
                Some(c) => "    "@ + name@ + seq![',', ' ', c],
                None => "    "@ + name@,
            },
            Item::Flag { name, .. } => "    "@ + name.spec_render_expanded(),
            Item::Argument { name, metavar, .. } => "    "@ + name.spec_render_expanded() + " <"@
                + metavar@ + seq!['>'],
        }
    }

    /// The text appended for the looked-up value of a bound environment
    /// variable: present values are shown quoted, the other states as
    /// informational text, never as an error.
    pub open spec fn spec_env_text(v: EnvValue) -> Seq<char> {
        match v {
            EnvValue::Present(s) => " = "@ + debug_str_of(s@),
            EnvValue::Absent => ": N/A"@,
            EnvValue::NotUnicode => ": current value is not utf8"@,
        }
    }

    /// The whole environment annotation: padded to the shared column width,
    /// on a line of its own, ending with the indent that the help text of
    /// the item continues from.
    pub open spec fn spec_env_note(fw: nat, width: nat, e: Seq<char>, v: EnvValue) -> Seq<char> {
        spaces((width - fw) as nat) + "  [env:"@ + e + Self::spec_env_text(v) + seq![']', '\n']
            + spaces(fw + 4)
    }

    /// The expanded help-table row: the name column, the environment
    /// annotation where one applies, then the help text padded to `width`
    /// and separated by a two-space gap, with continuation lines indented
    /// to `width + 6`.
    pub open spec fn spec_render_expanded(self, width: nat, ev: Option<EnvValue>) -> Seq<char> {
        let fw = self.spec_full_width();
        let pad = (width - fw) as nat;
        let note = match (self.spec_env_name(), ev) {
            (Some(e), Some(v)) => Self::spec_env_note(fw, width, e@, v),
            _ => Seq::<char>::empty(),
        };
        let help_part = match self.spec_help() {
            Some(h) => spaces(pad) + "  "@ + reindent(h@, width),
            None => Seq::<char>::empty(),
        };
        self.spec_name_column() + note + help_part
    }

    /// Renders the aligned help-table row. `width` is the column width the
    /// caller reserved for the whole group of items; supplying one smaller
    /// than this item's natural width is a caller-contract breach and is
    /// rejected up front, never silently truncated. `env_value` is the
    /// looked-up value of the bound environment variable, exactly when the
    /// item binds one.
    pub fn render_expanded(&self, width: usize, env_value: Option<EnvValue>) -> (r: String)
        requires
            self.spec_full_width() <= width,
            width + 6 <= usize::MAX,
            env_value is Some <==> self.spec_env_name() is Some,
        ensures
            r@ == self.spec_render_expanded(width as nat, env_value),
    {
        let mut out = String::new();
        match self {
            Item::Decor { help } => {
                if help.is_some() {
                    out.append("    ");
                }
            },
            Item::Positional { metavar, .. } => {
                out.append("    <");
                out.append(metavar.as_str());
                push_char(&mut out, '>');
            },
            Item::Command { name, short, .. } => {
                out.append("    ");
                out.append(name.as_str());
                if let Some(c) = short {
                    push_char(&mut out, ',');
                    push_char(&mut out, ' ');
                    push_char(&mut out, *c);
                }
            },
            Item::Flag { name, .. } => {
                out.append("    ");
                let n = name.render_expanded();
                out.append(n.as_str());
            },
            Item::Argument { name, metavar, .. } => {
                out.append("    ");
                let n = name.render_expanded();
                out.append(n.as_str());
                out.append(" <");
                out.append(metavar.as_str());
                push_char(&mut out, '>');
            },
        }
        proof {
            assert(out@ =~= self.spec_name_column());
        }
        let fw = self.full_width();
        let pad = width - fw;
        if let Item::Argument { env: Some(e), .. } = self {
            if let Some(v) = &env_value {
                push_spaces(&mut out, pad);
                out.append("  [env:");
                out.append(e.as_str());
                match v {
                    EnvValue::Present(s) => {
                        out.append(" = ");
                        let d = debug_quoted(s.as_str());
                        out.append(d.as_str());
                    },
                    EnvValue::Absent => {
                        out.append(": N/A");
                    },
                    EnvValue::NotUnicode => {
                        out.append(": current value is not utf8");
                    },
                }
                push_char(&mut out, ']');
                push_char(&mut out, '\n');
                push_spaces(&mut out, fw + 4);
                proof {
                    assert(out@ =~= self.spec_name_column() + Self::spec_env_note(
                        fw as nat,
                        width as nat,
                        e@,
                        *v,
                    ));
                }
            }
        }
        if let Some(h) = self.help() {
            push_spaces(&mut out, pad);
            out.append("  ");
            append_reindented(&mut out, h.as_str(), width);
        }
        proof {
            assert(out@ =~= self.spec_render_expanded(width as nat, env_value));
        }
        out
    }
}

} // verus!
