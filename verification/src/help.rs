//! Help layout: the alignment width of a group of arguments, and the help
//! entry of each argument.
use vstd::prelude::*;
use crate::names::{arg_name, to_arg_name};
use crate::schema::ArgType;
use crate::text::{join, join_lines, lines_view, pad_right, push_padded, push_spaces, spaces};

verus! {

/// One hyphen, one character and one trailing space.
pub const SHORT_PAD: usize = 3;

/// Two leading spaces, two hyphens and two trailing spaces.
pub const LONG_PAD: usize = 6;

/// What the help layout reads of an argument.
#[derive(Clone, Debug, PartialEq, Eq)]
pub struct ArgView {
    /// The identifier of the field.
    pub name: String,
    /// The short character, if the argument has one.
    pub short: Option<char>,
    /// The class of the value, which decides the type hint.
    pub ty_help: ArgType,
    /// The documentation, line by line.
    pub doc: Vec<String>,
}

/// An [`ArgView`] as plain mathematical values.
pub struct ArgModel {
    pub name: Seq<char>,
    pub short: Option<char>,
    pub ty_help: ArgType,
    pub doc: Seq<Seq<char>>,
}

impl View for ArgView {
    type V = ArgModel;

    open spec fn view(&self) -> ArgModel {
        ArgModel {
            name: self.name@,
            short: self.short,
            ty_help: self.ty_help,
            doc: lines_view(self.doc@),
        }
    }
}

/// The views of a list of arguments.
pub open spec fn args_view(args: Seq<ArgView>) -> Seq<ArgModel> {
    args.map_values(|a: ArgView| a@)
}

/// The width an argument's spellings take before its type hint: the length
/// of its name, and three more where it has a short spelling.
pub open spec fn name_width(arg: ArgModel) -> nat {
    arg.name.len() + if arg.short is Some {
        3nat
    } else {
        0nat
    }
}

/// The width one argument asks of its group: the length of its name and of
/// its type hint, and three more where it has a short spelling.
pub open spec fn entry_width(arg: ArgModel) -> nat {
    name_width(arg) + arg.ty_help.hint().len()
}

/// The alignment width of a group: the largest width any of its arguments
/// asks for, and zero for an empty group.
pub open spec fn max_width(args: Seq<ArgModel>) -> nat
    decreases args.len(),
{
    if args.len() == 0 {
        0
    } else {
        let rest = max_width(args.drop_last());
        let this = entry_width(args.last());
        if this > rest {
            this
        } else {
            rest
        }
    }
}

/// The alignment width bounds every argument's own width, and a group that
/// is not empty has an argument that attains it.
pub proof fn lemma_max_width_is_maximum(args: Seq<ArgModel>)
    ensures
        forall|i: int| 0 <= i < args.len() ==> entry_width(#[trigger] args[i]) <= max_width(args),
        args.len() > 0 ==> exists|i: int|
            0 <= i < args.len() && entry_width(#[trigger] args[i]) == max_width(args),
        args.len() == 0 ==> max_width(args) == 0,
    decreases args.len(),
{
    if args.len() > 0 {
        let rest = args.drop_last();
        lemma_max_width_is_maximum(rest);
        assert forall|i: int| 0 <= i < args.len() implies entry_width(#[trigger] args[i])
            <= max_width(args) by {
            if i < rest.len() {
                assert(rest[i] == args[i]);
            }
        }
        if entry_width(args.last()) > max_width(rest) || rest.len() == 0 {
            assert(entry_width(args[args.len() - 1]) == max_width(args));
        } else {
            let i = choose|i: int|
                0 <= i < rest.len() && entry_width(#[trigger] rest[i]) == max_width(rest);
            assert(entry_width(args[i]) == max_width(args));
        }
    }
}

/// Whether every width of the group can be computed in a `usize`.
pub open spec fn widths_fit(args: Seq<ArgModel>) -> bool {
    forall|i: int| 0 <= i < args.len() ==> entry_width(#[trigger] args[i]) <= usize::MAX
}

/// The alignment width of a group of arguments.
pub fn get_max_width(args: &Vec<ArgView>) -> (width: usize)
    requires
        widths_fit(args_view(args@)),
    ensures
        width == max_width(args_view(args@)),
{
    let mut acc: usize = 0;
    let mut i: usize = 0;
    while i < args.len()
        invariant
            i <= args.len(),
            widths_fit(args_view(args@)),
            acc == max_width(args_view(args@).take(i as int)),
        decreases args.len() - i,
    {
        let view = &args[i];
        let ghost all = args_view(args@);
        assert(all.take(i + 1).drop_last() =~= all.take(i as int));
        let short: usize = if view.short.is_some() {
            SHORT_PAD
        } else {
            0
        };
        let this: usize = view.name.as_str().unicode_len() + view.ty_help.as_str().unicode_len()
            + short;
        if this > acc {
            acc = this;
        }
        i += 1;
    }
    assert(args_view(args@).take(args.len() as int) =~= args_view(args@));
    acc
}

/// The text between two documentation lines of an entry: a line break and
/// the indent that puts the next line under the first.
pub open spec fn doc_separator(max_width: nat) -> Seq<char> {
    seq!['\n'] + spaces(max_width + 6)
}

/// The width the type hint is padded to: what the alignment width leaves
/// after the spellings.
pub open spec fn hint_width(arg: ArgModel, max_width: nat) -> nat {
    if max_width >= name_width(arg) {
        (max_width - name_width(arg)) as nat
    } else {
        0
    }
}

/// The start of an entry, up to and including the name: two spaces, the
/// short spelling and a space where there is one, and the long spelling.
pub open spec fn entry_head(arg: ArgModel) -> Seq<char> {
    match arg.short {
        Some(ch) => seq![' ', ' ', '-', ch, ' ', '-', '-'] + arg_name(arg.name),
        None => seq![' ', ' ', '-', '-'] + arg_name(arg.name),
    }
}

/// The help entry of one argument: its head, the type hint padded to
/// [`hint_width`], two spaces, the documentation lines joined by
/// [`doc_separator`], and a line break.
pub open spec fn help_line(arg: ArgModel, max_width: nat) -> Seq<char> {
    entry_head(arg) + pad_right(arg.ty_help.hint(), hint_width(arg, max_width)) + seq![' ', ' ']
        + join(arg.doc, doc_separator(max_width)) + seq!['\n']
}

/// Renders the help entry of one argument for a group of the given
/// alignment width.
pub fn to_help(arg: &ArgView, max_width: usize) -> (line: String)
    requires
        max_width + LONG_PAD <= usize::MAX,
        max_width >= name_width(arg@),
    ensures
        line@ == help_line(arg@, max_width as nat),
{
    let name = to_arg_name(arg.name.as_str());
    let ty = arg.ty_help.as_str();
    let mut separator = String::new();
    separator.push('\n');
    push_spaces(&mut separator, max_width + LONG_PAD);
    let help = join_lines(&arg.doc, separator.as_str());

    let mut line = String::new();
    line.push(' ');
    line.push(' ');
    let width: usize = match arg.short {
        Some(ch) => {
            line.push('-');
            line.push(ch);
            line.push(' ');
            max_width - SHORT_PAD - name.as_str().unicode_len()
        },
        None => max_width - name.as_str().unicode_len(),
    };
    line.push('-');
    line.push('-');
    line.append(name.as_str());
    push_padded(&mut line, ty, width);
    line.push(' ');
    line.push(' ');
    line.append(help.as_str());
    line.push('\n');
    assert(line@ =~= help_line(arg@, max_width as nat));
    line
}

/// The part of an entry that stands before its documentation.
pub open spec fn entry_prefix(arg: ArgModel, max_width: nat) -> Seq<char> {
    entry_head(arg) + pad_right(arg.ty_help.hint(), hint_width(arg, max_width)) + seq![' ', ' ']
}

/// Alignment: in a group whose alignment width covers an argument, the
/// documentation of that argument starts `max_width + 6` characters into
/// its entry, which is also the indent of every further documentation line.
pub proof fn lemma_entry_is_aligned(arg: ArgModel, max_width: nat)
    requires
        entry_width(arg) <= max_width,
    ensures
        entry_prefix(arg, max_width).len() == max_width + 6,
        doc_separator(max_width).len() == max_width + 7,
        help_line(arg, max_width) == entry_prefix(arg, max_width) + join(
            arg.doc,
            doc_separator(max_width),
        ) + seq!['\n'],
{
}

} // verus!
