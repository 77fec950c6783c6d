//! The data model: names, renderable items, and their natural widths.

use vstd::prelude::*;

verus! {

/// Coarse category of an [`Item`], used by the predicate queries.
///
/// `Flag` covers both boolean switches and value-taking arguments.
#[derive(Copy, Clone, Debug, PartialEq, Eq, PartialOrd, Ord, Structural)]
pub enum ItemKind {
    Flag,
    Command,
    Decor,
    Positional,
}

/// The name identity of a flag or argument: a short letter, a long word,
/// or both. Immutable once built.
#[derive(Clone, Debug, PartialEq, Eq, PartialOrd, Ord)]
pub enum ShortLong {
    Short(char),
    Long(String),
    ShortLong(char, String),
}

/// An ordered, non-unique collection of aliases for a named item, as an
/// external combinator layer supplies it. The first short and first long
/// alias, where present, form the item's [`ShortLong`] identity.
#[derive(Clone, Debug, PartialEq, Eq)]
pub struct Named {
    pub short: Vec<char>,
    pub long: Vec<String>,
}

/// One renderable element of a command-line description, each carrying
/// optional help text. Immutable once built.
#[derive(Clone, Debug, PartialEq, Eq, PartialOrd, Ord)]
pub enum Item {
    Decor {
        help: Option<String>,
    },
    Positional {
        metavar: String,
        help: Option<String>,
    },
    Command {
        name: String,
        short: Option<char>,
        help: Option<String>,
    },
    Flag {
        name: ShortLong,
        help: Option<String>,
    },
    Argument {
        name: ShortLong,
        metavar: String,
        env: Option<String>,
        help: Option<String>,
    },
}

/// A leaf of the larger usage-grammar tree: an item, possibly marked
/// optional. Composition of such nodes happens outside this crate.
#[derive(Debug, PartialEq, Eq)]
pub enum Meta {
    Item(Item),
    Optional(Box<Meta>),
}

/// Outcome of looking up an environment variable bound to an argument,
/// supplied by the caller at render time so that rendering itself stays
/// free of side effects.
#[derive(Clone, Debug, PartialEq, Eq)]
pub enum EnvValue {
    /// The variable is set to this text.
    Present(String),
    /// The variable is not set.
    Absent,
    /// The variable is set, but its content is not valid text.
    NotUnicode,
}

impl ShortLong {
    /// Natural width of the expanded form: a short-only name takes two
    /// columns; any name with a long form takes the fixed six-column
    /// prefix plus the long name itself, so long-only names line up under
    /// short-and-long pairs.
    pub open spec fn spec_full_width(self) -> nat {
        match self {
            ShortLong::Short(_) => 2,
            ShortLong::Long(l) => 6 + l@.len(),
            ShortLong::ShortLong(_, l) => 6 + l@.len(),
        }
    }

    pub fn full_width(&self) -> (w: usize)
        requires
            self.spec_full_width() <= usize::MAX,
        ensures
            w == self.spec_full_width(),
    {
        match self {
            ShortLong::Short(_) => 2,
            ShortLong::Long(l) => 6 + l.as_str().unicode_len(),
            ShortLong::ShortLong(_, l) => 6 + l.as_str().unicode_len(),
        }
    }

    /// Selects the first short and first long alias of `named`. A `Named`
    /// with neither is a programmer error and is excluded up front.
    pub fn from_named(named: &Named) -> (r: ShortLong)
        requires
            named.short@.len() > 0 || named.long@.len() > 0,
        ensures
            named.short@.len() > 0 && named.long@.len() > 0 ==> r == ShortLong::ShortLong(
                named.short@[0],
                named.long@[0],
            ),
            named.short@.len() == 0 ==> r == ShortLong::Long(named.long@[0]),
            named.long@.len() == 0 ==> r == ShortLong::Short(named.short@[0]),
    {
        if named.short.len() > 0 && named.long.len() > 0 {
            ShortLong::ShortLong(named.short[0], named.long[0].clone())
        } else if named.long.len() > 0 {
            ShortLong::Long(named.long[0].clone())
        } else {
            ShortLong::Short(named.short[0])
        }
    }
}

impl Item {
    pub open spec fn spec_kind(self) -> ItemKind {
        match self {
            Item::Decor { .. } => ItemKind::Decor,
            Item::Positional { .. } => ItemKind::Positional,
            Item::Command { .. } => ItemKind::Command,
            Item::Flag { .. } => ItemKind::Flag,
            Item::Argument { .. } => ItemKind::Flag,
        }
    }

    pub fn kind(&self) -> (k: ItemKind)
        ensures
            k == self.spec_kind(),
    {
        match self {
            Item::Decor { .. } => ItemKind::Decor,
            Item::Positional { .. } => ItemKind::Positional,
            Item::Command { .. } => ItemKind::Command,
            Item::Flag { .. } => ItemKind::Flag,
            Item::Argument { .. } => ItemKind::Flag,
        }
    }

    /// The help text of any variant.
    pub open spec fn spec_help(self) -> Option<String> {
        match self {
            Item::Decor { help } => help,
            Item::Positional { help, .. } => help,
            Item::Command { help, .. } => help,
            Item::Flag { help, .. } => help,
            Item::Argument { help, .. } => help,
        }
    }

    pub fn help(&self) -> (h: Option<&String>)
        ensures
            match h {
                Some(s) => self.spec_help() == Some(*s),
                None => self.spec_help() is None,
            },
    {
        let help = match self {
            Item::Decor { help } => help,
            Item::Positional { help, .. } => help,
            Item::Command { help, .. } => help,
            Item::Flag { help, .. } => help,
            Item::Argument { help, .. } => help,
        };
        match help {
            Some(s) => Some(s),
            None => None,
        }
    }

    /// The environment variable bound to the item, if any; only an
    /// `Argument` can carry one.
    pub open spec fn spec_env_name(self) -> Option<String> {
        match self {
            Item::Argument { env, .. } => env,
            _ => None,
        }
    }

    /// Natural width of the expanded name column: the least column width a
    /// caller must reserve for this item.
    pub open spec fn spec_full_width(self) -> nat {
        match self {
            Item::Decor { .. } => 0,
            Item::Flag { name, .. } => name.spec_full_width(),
            Item::Argument { name, metavar, .. } => name.spec_full_width() + metavar@.len() + 3,
            Item::Positional { metavar, .. } => metavar@.len() + 2,
            Item::Command { name, short, .. } => name@.len() + if short is Some {
                3nat
            } else {
                0nat
            },
        }
    }

    /// Full width for the name, including the implicit short form, the
    /// separators between short and long forms, and the metavar if present.
    pub fn full_width(&self) -> (w: usize)
        requires
            self.spec_full_width() <= usize::MAX,
        ensures
            w == self.spec_full_width(),
    {
        match self {
            Item::Decor { .. } => 0,
            Item::Flag { name, .. } => name.full_width(),
            Item::Argument { name, metavar, .. } => name.full_width() + metavar.as_str().unicode_len() + 3,
            Item::Positional { metavar, .. } => metavar.as_str().unicode_len() + 2,
            Item::Command { name, short, .. } => {
                let base = name.as_str().unicode_len();
                match short {
                    Some(_) => base + 3,
                    None => base,
                }
            },
        }
    }

    /// Wraps the item as a leaf of the usage grammar, marking it optional
    /// when `required` is false.
    pub fn required(self, required: bool) -> (r: Meta)
        ensures
            required ==> r == Meta::Item(self),
            !required ==> (r matches Meta::Optional(m) && *m == Meta::Item(self)),
    {
        if required {
            Meta::Item(self)
        } else {
            Meta::Optional(Box::new(Meta::Item(self)))
        }
    }

    /// A decoration entry: help-only, with no argument semantics.
    pub fn decoration(help: Option<String>) -> (r: Item)
        ensures
            r == (Item::Decor { help }),
    {
        Item::Decor { help }
    }

    pub fn is_command(&self) -> (r: bool)
        ensures
            r == (self.spec_kind() is Command),
    {
        match self.kind() {
            ItemKind::Command => true,
            ItemKind::Flag | ItemKind::Decor | ItemKind::Positional => false,
        }
    }

    /// Decorations group with flags for layout purposes.
    pub fn is_flag(&self) -> (r: bool)
        ensures
            r == (self.spec_kind() is Flag || self.spec_kind() is Decor),
    {
        match self.kind() {
            ItemKind::Flag | ItemKind::Decor => true,
            ItemKind::Command | ItemKind::Positional => false,
        }
    }

    /// A positional with empty or absent help is excluded on purpose: it
    /// appears only inline in the usage synopsis, never as a help-table row.
    pub open spec fn spec_is_positional(self) -> bool {
        &&& self.spec_kind() is Positional
        &&& match self.spec_help() {
            Some(h) => h@.len() > 0,
            None => false,
        }
    }

    pub fn is_positional(&self) -> (r: bool)
        ensures
            r == self.spec_is_positional(),
    {
        match self.kind() {
            ItemKind::Positional => match self.help() {
                Some(h) => !h.as_str().is_empty(),
                None => false,
            },
            ItemKind::Flag | ItemKind::Decor | ItemKind::Command => false,
        }
    }
}

} // verus!
