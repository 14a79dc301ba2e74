//! Schema compilation: validation of the positional field, deduplication of
//! short names, help layout, and assembly of the parser plan.
use vstd::prelude::*;
use crate::dedupe::{dedupe_all, duplicate_short};
use crate::error::{SchemaError, SchemaErrorModel};
use crate::help::{
    args_view, entry_width, get_max_width, help_line, lemma_max_width_is_maximum, max_width,
    name_width, to_help, widths_fit, ArgModel, ArgView,
};
use crate::names::{long_name, resolved_short, short_name, to_long_name};
use crate::plan::{derived_view, DerivedArgument, DerivedModel, ParserPlan, PlanModel};
use crate::schema::{
    fields_view, ArgType, FieldDescriptor, FieldModel, Schema, SchemaModel, ValueKind,
};
use crate::text::{clone_lines, join, join_lines};

verus! {

/// What the help layout and the deduplication read of a field. A flag shows
/// no type hint, whatever its element type.
pub open spec fn arg_model(field: FieldModel) -> ArgModel {
    ArgModel {
        name: field.identifier,
        short: resolved_short(field),
        ty_help: if field.value_kind == ValueKind::Flag {
            ArgType::Bool
        } else {
            field.element_type.class()
        },
        doc: field.documentation,
    }
}

/// The built-in `help` flag.
pub open spec fn builtin_help() -> ArgModel {
    ArgModel {
        name: "help"@,
        short: Some('h'),
        ty_help: ArgType::Bool,
        doc: seq!["Show this help message."@],
    }
}

/// The built-in `version` flag.
pub open spec fn builtin_version() -> ArgModel {
    ArgModel {
        name: "version"@,
        short: Some('V'),
        ty_help: ArgType::Bool,
        doc: seq!["Show the application version."@],
    }
}

/// The built-in flags, which come before every declared argument.
pub open spec fn builtins() -> Seq<ArgModel> {
    seq![builtin_help(), builtin_version()]
}

/// The fields of one kind, in declaration order.
pub open spec fn of_kind(fields: Seq<FieldModel>, kind: ValueKind) -> Seq<FieldModel> {
    fields.filter(|f: FieldModel| f.value_kind == kind)
}

/// The layout view of each field.
pub open spec fn arg_models(fields: Seq<FieldModel>) -> Seq<ArgModel> {
    fields.map_values(|f: FieldModel| arg_model(f))
}

/// The arguments in the order of the deduplication pass: the built-ins, then
/// every declared field in declaration order.
pub open spec fn named_args(fields: Seq<FieldModel>) -> Seq<ArgModel> {
    builtins() + arg_models(fields)
}

/// The flags section of the help: the built-ins, then the declared flags.
pub open spec fn flag_args(fields: Seq<FieldModel>) -> Seq<ArgModel> {
    builtins() + arg_models(of_kind(fields, ValueKind::Flag))
}

/// The options section of the help: the declared options.
pub open spec fn option_args(fields: Seq<FieldModel>) -> Seq<ArgModel> {
    arg_models(of_kind(fields, ValueKind::Opt))
}

/// The help entries of a group, one after the other.
pub open spec fn help_lines(args: Seq<ArgModel>, width: nat) -> Seq<char>
    decreases args.len(),
{
    if args.len() == 0 {
        Seq::empty()
    } else {
        help_lines(args.drop_last(), width) + help_line(args.last(), width)
    }
}

/// What the positional field adds to the usage line: a space, its name and
/// three dots.
pub open spec fn positional_header(positional: Option<FieldModel>) -> Seq<char> {
    match positional {
        Some(p) => " "@ + p.identifier + "..."@,
        None => Seq::empty(),
    }
}

/// The section of the positional field: its name and a colon, then its
/// documentation lines, each indented by two spaces.
pub open spec fn positional_section(field: FieldModel) -> Seq<char> {
    field.identifier + ":\n  "@ + join(field.documentation, "\n  "@)
}

/// The trailing part of the help: an empty line and the section of the
/// positional field, or nothing without one.
pub open spec fn positional_help(positional: Option<FieldModel>) -> Seq<char> {
    match positional {
        Some(p) => "\n"@ + positional_section(p),
        None => Seq::empty(),
    }
}

/// The positional field of a schema: the first field of that kind.
pub open spec fn positional_of(fields: Seq<FieldModel>) -> Option<FieldModel> {
    let positionals = of_kind(fields, ValueKind::Positional);
    if positionals.len() > 0 {
        Some(positionals[0])
    } else {
        None
    }
}

/// The line that names the program and its version.
pub open spec fn version_text(schema: SchemaModel) -> Seq<char> {
    schema.program + " v"@ + schema.version + "\n"@
}

/// The head of the help, up to the end of the usage line.
pub open spec fn help_header(schema: SchemaModel) -> Seq<char> {
    version_text(schema) + schema.description + "\n\n"@ + join(schema.documentation, "\n"@)
        + "\n\nUsage:\n  "@ + schema.bin_name + " [flags] [options]"@ + positional_header(
        positional_of(schema.fields),
    )
}

/// The whole help text of a schema.
pub open spec fn help_text(schema: SchemaModel) -> Seq<char> {
    help_header(schema) + "\n\nFlags:\n"@ + help_lines(
        flag_args(schema.fields),
        max_width(flag_args(schema.fields)),
    ) + "\nOptions:\n"@ + help_lines(
        option_args(schema.fields),
        max_width(option_args(schema.fields)),
    ) + positional_help(positional_of(schema.fields)) + "\n"@
}

/// The derived argument of a flag or an option in a group of the given
/// alignment width.
pub open spec fn derived(field: FieldModel, width: nat) -> DerivedModel {
    DerivedModel {
        identifier: field.identifier,
        long_name: long_name(field.identifier),
        short_name: resolved_short(field),
        element_type: field.element_type,
        required: field.required,
        help_line: help_line(arg_model(field), width),
    }
}

/// The derived arguments of a group.
pub open spec fn derived_all(fields: Seq<FieldModel>, width: nat) -> Seq<DerivedModel> {
    fields.map_values(|f: FieldModel| derived(f, width))
}

/// The derived argument of the positional field; its help is its section.
pub open spec fn derived_positional(field: FieldModel) -> DerivedModel {
    DerivedModel {
        identifier: field.identifier,
        long_name: long_name(field.identifier),
        short_name: None,
        element_type: field.element_type,
        required: field.required,
        help_line: positional_section(field),
    }
}

/// The plan of a schema that passed validation.
pub open spec fn plan_of(schema: SchemaModel) -> PlanModel {
    let flags_width = max_width(flag_args(schema.fields));
    let options_width = max_width(option_args(schema.fields));
    PlanModel {
        flags: derived_all(of_kind(schema.fields, ValueKind::Flag), flags_width),
        options: derived_all(of_kind(schema.fields, ValueKind::Opt), options_width),
        positional: match positional_of(schema.fields) {
            Some(p) => Some(derived_positional(p)),
            None => None,
        },
        flags_width,
        options_width,
        help: help_text(schema),
        version: version_text(schema),
    }
}

/// What positional validation finds: the error of a second positional
/// field, or nothing.
pub open spec fn positional_clash(fields: Seq<FieldModel>) -> Option<SchemaErrorModel> {
    let positionals = of_kind(fields, ValueKind::Positional);
    if positionals.len() >= 2 {
        Some(
            SchemaErrorModel::MultiplePositionalFields {
                first: positionals[0].identifier,
                second: positionals[1].identifier,
            },
        )
    } else {
        None
    }
}

/// What compilation gives. A second positional field is refused first; then
/// a shared short character; a schema with neither fault gives its plan.
pub open spec fn compile(schema: SchemaModel) -> Result<PlanModel, SchemaErrorModel> {
    match positional_clash(schema.fields) {
        Some(e) => Err(e),
        None => match duplicate_short(named_args(schema.fields)) {
            Some(e) => Err(e),
            None => Ok(plan_of(schema)),
        },
    }
}

/// Whether the help layout of the schema can be computed in a `usize`: every
/// identifier leaves room for the widest hint, the short spelling and the
/// indent.
pub open spec fn schema_fits(schema: SchemaModel) -> bool {
    forall|i: int|
        0 <= i < schema.fields.len() ==> (#[trigger] schema.fields[i]).identifier.len() + 16
            <= usize::MAX
}

/// Tests whether the help layout of a schema can be computed in a `usize`,
/// which is what `derive_parser` asks of its input.
pub fn layout_fits(schema: &Schema) -> (r: bool)
    ensures
        r == schema_fits(schema@),
{
    let mut i: usize = 0;
    while i < schema.fields.len()
        invariant
            i <= schema.fields.len(),
            forall|k: int|
                0 <= k < i ==> (#[trigger] schema@.fields[k]).identifier.len() + 16 <= usize::MAX,
        decreases schema.fields.len() - i,
    {
        assert(schema@.fields[i as int] == schema.fields[i as int]@);
        if schema.fields[i].identifier.as_str().unicode_len() > usize::MAX - 16 {
            return false;
        }
        i += 1;
    }
    true
}

/// The layout view of one field.
pub fn arg_view_of(field: &FieldDescriptor) -> (arg: ArgView)
    ensures
        arg@ == arg_model(field@),
{
    let ty_help = match field.value_kind {
        ValueKind::Flag => ArgType::Bool,
        _ => field.element_type.arg_type(),
    };
    ArgView {
        name: field.identifier.clone(),
        short: short_name(field),
        ty_help,
        doc: clone_lines(&field.documentation),
    }
}

/// The built-in flags `help` and `version`.
pub fn builtin_flags() -> (flags: Vec<ArgView>)
    ensures
        args_view(flags@) == builtins(),
{
    let mut help_doc: Vec<String> = Vec::new();
    help_doc.push(String::from_str("Show this help message."));
    let mut version_doc: Vec<String> = Vec::new();
    version_doc.push(String::from_str("Show the application version."));
    let help = ArgView {
        name: String::from_str("help"),
        short: Some('h'),
        ty_help: ArgType::Bool,
        doc: help_doc,
    };
    let version = ArgView {
        name: String::from_str("version"),
        short: Some('V'),
        ty_help: ArgType::Bool,
        doc: version_doc,
    };
    assert(help@.doc =~= builtin_help().doc);
    assert(version@.doc =~= builtin_version().doc);
    let mut flags: Vec<ArgView> = Vec::new();
    flags.push(help);
    flags.push(version);
    flags
}

/// Selecting one kind from a list with one more field keeps that field
/// exactly when it is of the kind.
pub proof fn lemma_of_kind_push(fields: Seq<FieldModel>, field: FieldModel, kind: ValueKind)
    ensures
        of_kind(fields.push(field), kind) == if field.value_kind == kind {
            of_kind(fields, kind).push(field)
        } else {
            of_kind(fields, kind)
        },
{
    reveal(Seq::filter);
    assert(fields.push(field).drop_last() =~= fields);
}

/// Selecting from no fields gives no fields.
pub proof fn lemma_of_kind_empty(kind: ValueKind)
    ensures
        of_kind(Seq::<FieldModel>::empty(), kind) == Seq::<FieldModel>::empty(),
{
    reveal(Seq::filter);
}

/// Appends the layout view of every field of one kind.
pub fn push_args_of_kind(out: &mut Vec<ArgView>, fields: &Vec<FieldDescriptor>, kind: ValueKind)
    ensures
        args_view(final(out)@) == args_view(old(out)@) + arg_models(
            of_kind(fields_view(fields@), kind),
        ),
{
    let ghost all = fields_view(fields@);
    let mut i: usize = 0;
    proof {
        lemma_of_kind_empty(kind);
    }
    while i < fields.len()
        invariant
            i <= fields.len(),
            all == fields_view(fields@),
            args_view(out@) == args_view(old(out)@) + arg_models(
                of_kind(all.take(i as int), kind),
            ),
        decreases fields.len() - i,
    {
        let field = &fields[i];
        proof {
            assert(all.take(i + 1) =~= all.take(i as int).push(field@));
            lemma_of_kind_push(all.take(i as int), field@, kind);
        }
        if field.value_kind == kind {
            let ghost before = out@;
            out.push(arg_view_of(field));
            assert(args_view(out@) =~= args_view(before).push(arg_model(field@)));
            assert(arg_models(of_kind(all.take(i + 1), kind)) =~= arg_models(
                of_kind(all.take(i as int), kind),
            ).push(arg_model(field@)));
            assert(args_view(out@) =~= args_view(old(out)@) + arg_models(
                of_kind(all.take(i + 1), kind),
            ));
        }
        i += 1;
    }
    assert(all.take(fields.len() as int) =~= all);
}

/// Appends the layout view of every field, in declaration order.
pub fn push_all_args(out: &mut Vec<ArgView>, fields: &Vec<FieldDescriptor>)
    ensures
        args_view(final(out)@) == args_view(old(out)@) + arg_models(fields_view(fields@)),
{
    let ghost all = fields_view(fields@);
    let mut i: usize = 0;
    while i < fields.len()
        invariant
            i <= fields.len(),
            all == fields_view(fields@),
            args_view(out@) == args_view(old(out)@) + arg_models(all.take(i as int)),
        decreases fields.len() - i,
    {
        let field = &fields[i];
        let ghost before = out@;
        out.push(arg_view_of(field));
        assert(args_view(out@) =~= args_view(before).push(arg_model(field@)));
        assert(arg_models(all.take(i + 1)) =~= arg_models(all.take(i as int)).push(
            arg_model(field@),
        ));
        i += 1;
    }
}

/// Validates that at most one field is positional, and hands out the index
/// of the one there is.
pub fn check_positional(fields: &Vec<FieldDescriptor>) -> (r: Result<Option<usize>, SchemaError>)
    ensures
        match r {
            Ok(found) => {
                &&& positional_clash(fields_view(fields@)) is None
                &&& match found {
                    Some(k) => k < fields.len() && positional_of(fields_view(fields@)) == Some(
                        fields[k as int]@,
                    ),
                    None => positional_of(fields_view(fields@)) is None,
                }
            },
            Err(e) => positional_clash(fields_view(fields@)) == Some(e@),
        },
{
    let ghost all = fields_view(fields@);
    let mut found: Option<usize> = None;
    let mut i: usize = 0;
    proof {
        lemma_of_kind_empty(ValueKind::Positional);
    }
    while i < fields.len()
        invariant
            i <= fields.len(),
            all == fields_view(fields@),
            match found {
                Some(k) => k < i && of_kind(all.take(i as int), ValueKind::Positional) == seq![
                    all[k as int],
                ],
                None => of_kind(all.take(i as int), ValueKind::Positional) == Seq::<
                    FieldModel,
                >::empty(),
            },
        decreases fields.len() - i,
    {
        let field = &fields[i];
        proof {
            assert(all.take(i + 1) =~= all.take(i as int).push(field@));
            lemma_of_kind_push(all.take(i as int), field@, ValueKind::Positional);
        }
        if field.value_kind == ValueKind::Positional {
            match found {
                Some(k) => {
                    proof {
                        let two = of_kind(all.take(i + 1), ValueKind::Positional);
                        assert(two =~= seq![all[k as int], field@]);
                        lemma_of_kind_prefix(all, i + 1, ValueKind::Positional);
                    }
                    return Err(
                        SchemaError::MultiplePositionalFields {
                            first: fields[k].identifier.clone(),
                            second: field.identifier.clone(),
                        },
                    );
                },
                None => {
                    found = Some(i);
                },
            }
        }
        i += 1;
    }
    assert(all.take(fields.len() as int) =~= all);
    Ok(found)
}

/// The selection from a prefix of the fields is a prefix of the selection
/// from all of them.
pub proof fn lemma_of_kind_prefix(fields: Seq<FieldModel>, n: int, kind: ValueKind)
    requires
        0 <= n <= fields.len(),
    ensures
        of_kind(fields.take(n), kind).len() <= of_kind(fields, kind).len(),
        of_kind(fields.take(n), kind) == of_kind(fields, kind).take(
            of_kind(fields.take(n), kind).len() as int,
        ),
    decreases fields.len() - n,
{
    if n == fields.len() {
        assert(fields.take(n) =~= fields);
        assert(of_kind(fields, kind).take(of_kind(fields, kind).len() as int) =~= of_kind(
            fields,
            kind,
        ));
    } else {
        lemma_of_kind_prefix(fields, n + 1, kind);
        assert(fields.take(n + 1) =~= fields.take(n).push(fields[n]));
        lemma_of_kind_push(fields.take(n), fields[n], kind);
        let small = of_kind(fields.take(n), kind);
        let big = of_kind(fields.take(n + 1), kind);
        let whole = of_kind(fields, kind);
        assert(small =~= whole.take(small.len() as int)) by {
            assert forall|k: int| 0 <= k < small.len() implies small[k] == whole[k] by {
                assert(big[k] == whole.take(big.len() as int)[k]);
            }
        }
    }
}

/// Whether each argument of a group can be rendered at the given width: the
/// indent fits a `usize`, and the width covers the spellings of each.
pub open spec fn group_renders(args: Seq<ArgModel>, width: nat) -> bool {
    &&& width + 6 <= usize::MAX
    &&& forall|i: int| 0 <= i < args.len() ==> width >= name_width(#[trigger] args[i])
}

/// Renders the help entries of a group, one after the other.
pub fn render_group(args: &Vec<ArgView>, width: usize) -> (text: String)
    requires
        group_renders(args_view(args@), width as nat),
    ensures
        text@ == help_lines(args_view(args@), width as nat),
{
    let ghost all = args_view(args@);
    let mut text = String::new();
    let mut i: usize = 0;
    while i < args.len()
        invariant
            i <= args.len(),
            all == args_view(args@),
            group_renders(all, width as nat),
            text@ == help_lines(all.take(i as int), width as nat),
        decreases args.len() - i,
    {
        let arg = &args[i];
        assert(all[i as int] == arg@);
        assert(all.take(i + 1).drop_last() =~= all.take(i as int));
        let line = to_help(arg, width);
        text.append(line.as_str());
        i += 1;
    }
    assert(all.take(args.len() as int) =~= all);
    text
}

/// A group that fits has an alignment width at which it renders.
pub proof fn lemma_group_renders(args: Seq<ArgModel>)
    requires
        forall|i: int| 0 <= i < args.len() ==> entry_width(#[trigger] args[i]) + 6 <= usize::MAX,
    ensures
        widths_fit(args),
        group_renders(args, max_width(args)),
{
    lemma_max_width_is_maximum(args);
}

/// The derived arguments of the fields of one kind, each with its help
/// entry at the given width.
pub fn derive_group(fields: &Vec<FieldDescriptor>, kind: ValueKind, width: usize) -> (group: Vec<
    DerivedArgument,
>)
    requires
        group_renders(arg_models(of_kind(fields_view(fields@), kind)), width as nat),
    ensures
        derived_view(group@) == derived_all(of_kind(fields_view(fields@), kind), width as nat),
{
    let ghost all = fields_view(fields@);
    let ghost chosen = of_kind(all, kind);
    let mut group: Vec<DerivedArgument> = Vec::new();
    let mut i: usize = 0;
    proof {
        lemma_of_kind_empty(kind);
    }
    while i < fields.len()
        invariant
            i <= fields.len(),
            all == fields_view(fields@),
            chosen == of_kind(all, kind),
            group_renders(arg_models(chosen), width as nat),
            derived_view(group@) == derived_all(of_kind(all.take(i as int), kind), width as nat),
        decreases fields.len() - i,
    {
        let field = &fields[i];
        proof {
            assert(all.take(i + 1) =~= all.take(i as int).push(field@));
            lemma_of_kind_push(all.take(i as int), field@, kind);
            lemma_of_kind_prefix(all, i + 1, kind);
        }
        if field.value_kind == kind {
            let ghost before = group@;
            let ghost k = of_kind(all.take(i as int), kind).len() as int;
            let view = arg_view_of(field);
            proof {
                let upto = of_kind(all.take(i + 1), kind);
                assert(chosen.take(upto.len() as int)[k] == chosen[k]);
                assert(arg_models(chosen)[k] == arg_model(field@));
            }
            let entry = DerivedArgument {
                identifier: field.identifier.clone(),
                long_name: to_long_name(field.identifier.as_str()),
                short_name: view.short,
                element_type: field.element_type,
                required: field.required,
                help_line: to_help(&view, width),
            };
            group.push(entry);
            assert(derived_view(group@) =~= derived_view(before).push(entry@));
            assert(derived_view(group@) =~= derived_all(
                of_kind(all.take(i + 1), kind),
                width as nat,
            ));
        }
        i += 1;
    }
    assert(all.take(fields.len() as int) =~= all);
    group
}

/// Every selected field is one of the fields and is of the selected kind.
pub proof fn lemma_of_kind_members(fields: Seq<FieldModel>, kind: ValueKind)
    ensures
        forall|k: int|
            0 <= k < of_kind(fields, kind).len() ==> fields.contains(
                #[trigger] of_kind(fields, kind)[k],
            ) && of_kind(fields, kind)[k].value_kind == kind,
    decreases fields.len(),
{
    if fields.len() == 0 {
        lemma_of_kind_empty(kind);
    } else {
        let rest = fields.drop_last();
        lemma_of_kind_members(rest, kind);
        assert(fields =~= rest.push(fields.last()));
        lemma_of_kind_push(rest, fields.last(), kind);
        assert forall|k: int| 0 <= k < of_kind(fields, kind).len() implies fields.contains(
            #[trigger] of_kind(fields, kind)[k],
        ) && of_kind(fields, kind)[k].value_kind == kind by {
            if k < of_kind(rest, kind).len() {
                let f = of_kind(rest, kind)[k];
                let i = choose|i: int| 0 <= i < rest.len() && rest[i] == f;
                assert(fields[i] == f);
            } else {
                assert(fields[fields.len() - 1] == fields.last());
            }
        }
    }
}

/// The groups of a schema that fits can be laid out: each has an alignment
/// width at which all of its entries render.
pub proof fn lemma_schema_renders(schema: SchemaModel)
    requires
        schema_fits(schema),
    ensures
        widths_fit(flag_args(schema.fields)),
        widths_fit(option_args(schema.fields)),
        group_renders(flag_args(schema.fields), max_width(flag_args(schema.fields))),
        group_renders(option_args(schema.fields), max_width(option_args(schema.fields))),
        group_renders(
            arg_models(of_kind(schema.fields, ValueKind::Flag)),
            max_width(flag_args(schema.fields)),
        ),
{
    reveal_strlit("help");
    reveal_strlit("version");
    let fields = schema.fields;
    let flags = of_kind(fields, ValueKind::Flag);
    let options = of_kind(fields, ValueKind::Opt);
    lemma_of_kind_members(fields, ValueKind::Flag);
    lemma_of_kind_members(fields, ValueKind::Opt);
    assert forall|i: int| 0 <= i < flag_args(fields).len() implies entry_width(
        #[trigger] flag_args(fields)[i],
    ) + 6 <= usize::MAX by {
        if i >= 2 {
            assert(fields.contains(flags[i - 2]));
        }
    }
    assert forall|i: int| 0 <= i < option_args(fields).len() implies entry_width(
        #[trigger] option_args(fields)[i],
    ) + 6 <= usize::MAX by {
        assert(fields.contains(options[i]));
    }
    lemma_group_renders(flag_args(fields));
    lemma_group_renders(option_args(fields));
    let width = max_width(flag_args(fields));
    assert forall|i: int| 0 <= i < arg_models(flags).len() implies width >= name_width(
        #[trigger] arg_models(flags)[i],
    ) by {
        assert(flag_args(fields)[i + 2] == arg_models(flags)[i]);
    }
}

/// Compiles a schema into its parser plan, or refuses it: a second
/// positional field first, then a short character that two arguments share.
pub fn derive_parser(schema: &Schema) -> (r: Result<ParserPlan, SchemaError>)
    requires
        schema_fits(schema@),
    ensures
        match r {
            Ok(plan) => compile(schema@) == Ok::<PlanModel, SchemaErrorModel>(plan@),
            Err(e) => compile(schema@) == Err::<PlanModel, SchemaErrorModel>(e@),
        },
{
    let fields = &schema.fields;
    let positional = match check_positional(fields) {
        Ok(found) => found,
        Err(e) => {
            return Err(e);
        },
    };

    let mut named = builtin_flags();
    push_all_args(&mut named, fields);
    match dedupe_all(&named) {
        Ok(_) => {},
        Err(e) => {
            return Err(e);
        },
    }

    let mut flags = builtin_flags();
    push_args_of_kind(&mut flags, fields, ValueKind::Flag);
    let mut options: Vec<ArgView> = Vec::new();
    push_args_of_kind(&mut options, fields, ValueKind::Opt);
    proof {
        lemma_schema_renders(schema@);
    }
    let flags_width = get_max_width(&flags);
    let options_width = get_max_width(&options);

    let mut version = String::new();
    version.append(schema.program.as_str());
    version.append(" v");
    version.append(schema.version.as_str());
    version.append("\n");

    let mut help = String::new();
    help.append(version.as_str());
    help.append(schema.description.as_str());
    help.append("\n\n");
    help.append(join_lines(&schema.documentation, "\n").as_str());
    help.append("\n\nUsage:\n  ");
    help.append(schema.bin_name.as_str());
    help.append(" [flags] [options]");
    let positional_entry = match positional {
        Some(k) => {
            let field = &fields[k];
            help.append(" ");
            help.append(field.identifier.as_str());
            help.append("...");
            let mut section = String::new();
            section.append(field.identifier.as_str());
            section.append(":\n  ");
            section.append(join_lines(&field.documentation, "\n  ").as_str());
            Some(
                DerivedArgument {
                    identifier: field.identifier.clone(),
                    long_name: to_long_name(field.identifier.as_str()),
                    short_name: None,
                    element_type: field.element_type,
                    required: field.required,
                    help_line: section,
                },
            )
        },
        None => None,
    };
    help.append("\n\nFlags:\n");
    help.append(render_group(&flags, flags_width).as_str());
    help.append("\nOptions:\n");
    help.append(render_group(&options, options_width).as_str());
    match &positional_entry {
        Some(entry) => {
            help.append("\n");
            help.append(entry.help_line.as_str());
        },
        None => {},
    }
    help.append("\n");
    assert(help@ =~= help_text(schema@));

    let plan = ParserPlan {
        flags: derive_group(fields, ValueKind::Flag, flags_width),
        options: derive_group(fields, ValueKind::Opt, options_width),
        positional: positional_entry,
        flags_width,
        options_width,
        help,
        version,
    };
    Ok(plan)
}

} // verus!
