//! What holds of schema compilation for every schema and of the matcher for
//! every plan and token sequence, stated over the same functions as the
//! contracts of `derive_parser` and `parse`.
use vstd::prelude::*;
use crate::coerce::coerced;
use crate::compile::{
    builtins, compile, help_text, lemma_of_kind_prefix, lemma_of_kind_push, named_args, of_kind,
    plan_of, positional_clash,
};
use crate::dedupe::{
    collides, first_collision, lemma_distinct_shorts_pass, lemma_first_collision,
    lemma_first_collision_extends, lemma_owner_of, lemma_shared_short_is_rejected, owner_of,
};
use crate::error::{ParseErrorModel, SchemaErrorModel};
use crate::matcher::{
    arg_matches, collect_rest, empty_record, finalize, first_match, first_missing, parsed,
    positional_name, scan,
};
use crate::names::resolved_short;
use crate::plan::{DerivedModel, PlanModel};
use crate::record::{OutcomeModel, RecordModel, ValueModel};
use crate::schema::{ElementType, SchemaModel, ValueKind};

verus! {

/// A schema with at most one positional field, in which no two arguments
/// (the built-ins among them) share a short character, compiles; and its
/// plan, with the help text in it, is a function of the schema alone.
pub proof fn lemma_valid_schema_compiles(schema: SchemaModel)
    requires
        of_kind(schema.fields, ValueKind::Positional).len() <= 1,
        forall|a: int, b: int|
            0 <= a < b < named_args(schema.fields).len() && (#[trigger] named_args(
                schema.fields,
            )[a]).short is Some ==> named_args(schema.fields)[a].short != (#[trigger] named_args(
                schema.fields,
            )[b]).short,
    ensures
        compile(schema) == Ok::<PlanModel, SchemaErrorModel>(plan_of(schema)),
        plan_of(schema).help == help_text(schema),
{
    lemma_distinct_shorts_pass(named_args(schema.fields));
}

/// Two schemas that say the same compile to the same result: the same
/// error, or the same plan with the same help text, character by
/// character.
pub proof fn lemma_compile_is_deterministic(a: SchemaModel, b: SchemaModel)
    requires
        a == b,
    ensures
        compile(a) == compile(b),
        compile(a) matches Ok(plan) ==> compile(b)->Ok_0.help == plan.help && plan.help
            == help_text(a),
{
}

/// A schema with at most one positional field in which two declared fields
/// resolve to the same short character does not compile: the error is
/// `DuplicateShortName`, and it names two different arguments that both
/// resolve to its character, the owner standing before the other.
pub proof fn lemma_shared_short_fails(schema: SchemaModel, a: int, b: int)
    requires
        positional_clash(schema.fields) is None,
        0 <= a < b < schema.fields.len(),
        resolved_short(schema.fields[a]) is Some,
        resolved_short(schema.fields[a]) == resolved_short(schema.fields[b]),
    ensures
        compile(schema) matches Err(
            SchemaErrorModel::DuplicateShortName { short, identifier, owner },
        ) && exists|i: int, j: int|
            0 <= i < j < named_args(schema.fields).len() && (#[trigger] named_args(
                schema.fields,
            )[i]).short == Some(short) && (#[trigger] named_args(schema.fields)[j]).short == Some(
                short,
            ) && identifier == named_args(schema.fields)[j].name && owner == named_args(
                schema.fields,
            )[i].name,
{
    let named = named_args(schema.fields);
    lemma_shared_short_is_rejected(named, a + 2, b + 2);
}

/// A schema with two positional fields does not compile, whatever else it
/// holds: the error is `MultiplePositionalFields`, and it names the first
/// two positional fields in declaration order.
pub proof fn lemma_two_positionals_fail(schema: SchemaModel, a: int, b: int)
    requires
        0 <= a < b < schema.fields.len(),
        schema.fields[a].value_kind == ValueKind::Positional,
        schema.fields[b].value_kind == ValueKind::Positional,
    ensures
        of_kind(schema.fields, ValueKind::Positional).len() >= 2,
        compile(schema) == Err::<PlanModel, SchemaErrorModel>(
            SchemaErrorModel::MultiplePositionalFields {
                first: of_kind(schema.fields, ValueKind::Positional)[0].identifier,
                second: of_kind(schema.fields, ValueKind::Positional)[1].identifier,
            },
        ),
{
    let fields = schema.fields;
    let kind = ValueKind::Positional;
    assert(fields.take(a + 1) =~= fields.take(a).push(fields[a]));
    lemma_of_kind_push(fields.take(a), fields[a], kind);
    assert(fields.take(b + 1) =~= fields.take(b).push(fields[b]));
    lemma_of_kind_push(fields.take(b), fields[b], kind);
    lemma_of_kind_prefix(fields.take(b), a + 1, kind);
    assert(fields.take(b).take(a + 1) =~= fields.take(a + 1));
    lemma_of_kind_prefix(fields, b + 1, kind);
}

/// The built-in flags are registered before every declared field. So a
/// declared field that resolves to `h` never compiles; and where no
/// collision stands before it, the error names that field and `help` as the
/// owner of the character.
pub proof fn lemma_short_h_collides_with_help(schema: SchemaModel, k: int)
    requires
        positional_clash(schema.fields) is None,
        0 <= k < schema.fields.len(),
        resolved_short(schema.fields[k]) == Some('h'),
    ensures
        compile(schema) is Err,
        first_collision(named_args(schema.fields), k + 2) is None ==> compile(schema) == Err::<
            PlanModel,
            SchemaErrorModel,
        >(
            SchemaErrorModel::DuplicateShortName {
                short: 'h',
                identifier: schema.fields[k].identifier,
                owner: "help"@,
            },
        ),
{
    let named = named_args(schema.fields);
    let n = named.len() as int;
    assert(named[0] == builtins()[0]);
    lemma_owner_of(named, 'h', k + 2);
    assert(collides(named, k + 2));
    lemma_first_collision(named, n);
    if first_collision(named, k + 2) is None {
        lemma_first_collision_extends(named, k + 3, n);
    }
}

/// The same holds of `V`, which the built-in `version` flag owns.
pub proof fn lemma_short_v_collides_with_version(schema: SchemaModel, k: int)
    requires
        positional_clash(schema.fields) is None,
        0 <= k < schema.fields.len(),
        resolved_short(schema.fields[k]) == Some('V'),
    ensures
        compile(schema) is Err,
        first_collision(named_args(schema.fields), k + 2) is None ==> compile(schema) == Err::<
            PlanModel,
            SchemaErrorModel,
        >(
            SchemaErrorModel::DuplicateShortName {
                short: 'V',
                identifier: schema.fields[k].identifier,
                owner: "version"@,
            },
        ),
{
    let named = named_args(schema.fields);
    let n = named.len() as int;
    lemma_owner_of(named, 'V', k + 2);
    assert(named[1].short == Some('V'));
    assert(collides(named, k + 2));
    lemma_first_collision(named, n);
    if first_collision(named, k + 2) is None {
        lemma_first_collision_extends(named, k + 3, n);
    }
}

/// The first match is a match, and no argument before it, from `start` on,
/// is one; where there is none, no argument from `start` on matches.
pub proof fn lemma_first_match(args: Seq<DerivedModel>, token: Seq<char>, start: int)
    requires
        0 <= start,
    ensures
        first_match(args, token, start) matches Some(k) ==> start <= k < args.len()
            && arg_matches(args[k], token) && forall|j: int|
            start <= j < k ==> !arg_matches(#[trigger] args[j], token),
        first_match(args, token, start) is None ==> forall|j: int|
            start <= j < args.len() ==> !arg_matches(#[trigger] args[j], token),
    decreases args.len() - start,
{
    if start < args.len() && !arg_matches(args[start], token) {
        lemma_first_match(args, token, start + 1);
    }
}

/// The first missing option is required and has no value, and no option
/// before it, from `start` on, is such; where there is none, every required
/// option from `start` on has its value.
pub proof fn lemma_first_missing(
    options: Seq<DerivedModel>,
    values: Seq<Option<ValueModel>>,
    start: int,
)
    requires
        0 <= start,
        options.len() == values.len(),
    ensures
        first_missing(options, values, start) matches Some(k) ==> start <= k < options.len()
            && options[k].required && values[k] is None && forall|j: int|
            start <= j < k ==> !((#[trigger] options[j]).required && values[j] is None),
        first_missing(options, values, start) is None ==> forall|j: int|
            start <= j < options.len() ==> !((#[trigger] options[j]).required && values[j]
                is None),
    decreases options.len() - start,
{
    if start < options.len() && !(options[start].required && values[start] is None) {
        lemma_first_missing(options, values, start + 1);
    }
}

/// What follows the sentinel is decided by coercion alone. Where every
/// token from `i` on coerces, the positional values grow by exactly those
/// values, in order. Otherwise the error is `InvalidValue` for the first
/// token that does not coerce.
pub proof fn lemma_collect_rest(
    ty: ElementType,
    tokens: Seq<Seq<char>>,
    i: int,
    positional: Seq<ValueModel>,
)
    requires
        0 <= i <= tokens.len(),
    ensures
        match collect_rest(ty, tokens, i, positional) {
            Ok(all) => {
                &&& all.len() == positional.len() + tokens.len() - i
                &&& all.take(positional.len() as int) == positional
                &&& forall|j: int|
                    i <= j < tokens.len() ==> coerced(ty, #[trigger] tokens[j]) == Some(
                        all[positional.len() + j - i],
                    )
            },
            Err(e) => exists|j: int|
                {
                    &&& i <= j < tokens.len()
                    &&& coerced(ty, #[trigger] tokens[j]) is None
                    &&& e == ParseErrorModel::InvalidValue(positional_name(), tokens[j])
                    &&& forall|k: int| i <= k < j ==> coerced(ty, #[trigger] tokens[k]) is Some
                },
        },
    decreases tokens.len() - i,
{
    if i < tokens.len() {
        if let Some(v) = coerced(ty, tokens[i]) {
            let grown = positional.push(v);
            lemma_collect_rest(ty, tokens, i + 1, grown);
            match collect_rest(ty, tokens, i + 1, grown) {
                Ok(all) => {
                    assert forall|k: int| 0 <= k <= positional.len() implies all[k] == grown[k] by {
                        assert(all.take(grown.len() as int)[k] == grown[k]);
                    }
                    assert(all.take(positional.len() as int) =~= positional);
                },
                Err(e) => {
                    let j = choose|j: int|
                        {
                            &&& i + 1 <= j < tokens.len()
                            &&& coerced(ty, #[trigger] tokens[j]) is None
                            &&& e == ParseErrorModel::InvalidValue(positional_name(), tokens[j])
                            &&& forall|k: int|
                                i + 1 <= k < j ==> coerced(ty, #[trigger] tokens[k]) is Some
                        };
                    assert(coerced(ty, tokens[j]) is None);
                },
            }
        }
    }
}

/// The sentinel closes flag and option matching: with a positional field,
/// what the scan gives from a sentinel on is what coercing every later token
/// gives, and then the check of the required options. No later token is
/// held against the flags or the options, whatever it looks like.
pub proof fn lemma_sentinel_closes_matching(
    plan: PlanModel,
    tokens: Seq<Seq<char>>,
    i: int,
    record: RecordModel,
)
    requires
        0 <= i < tokens.len(),
        tokens[i] == "--"@,
        first_match(plan.flags, tokens[i], 0) is None,
        first_match(plan.options, tokens[i], 0) is None,
        plan.positional is Some,
    ensures
        scan(plan, tokens, i, record) == match collect_rest(
            plan.positional->0.element_type,
            tokens,
            i + 1,
            record.positional,
        ) {
            Ok(all) => finalize(plan, RecordModel { positional: all, ..record }),
            Err(e) => Err(e),
        },
{
    lemma_sentinel_is_no_builtin();
}

/// The sentinel is neither spelling of `help` nor of `version`.
pub proof fn lemma_sentinel_is_no_builtin()
    ensures
        "--"@ != "--help"@,
        "--"@ != "-h"@,
        "--"@ != "--version"@,
        "--"@ != "-V"@,
{
    reveal_strlit("--");
    reveal_strlit("--help");
    reveal_strlit("-h");
    reveal_strlit("--version");
    reveal_strlit("-V");
    assert("--help"@.len() == 6);
    assert("--version"@.len() == 9);
    assert("--"@[1] == '-');
}

/// A token that is no built-in spelling, matches no flag and no option and
/// is not the sentinel is unknown where the plan has no positional field:
/// the scan halts at it with `UnknownArgument`.
pub proof fn lemma_unmatched_token_is_unknown(
    plan: PlanModel,
    tokens: Seq<Seq<char>>,
    i: int,
    record: RecordModel,
)
    requires
        0 <= i < tokens.len(),
        tokens[i] != "--help"@ && tokens[i] != "-h"@,
        tokens[i] != "--version"@ && tokens[i] != "-V"@,
        tokens[i] != "--"@,
        forall|k: int| 0 <= k < plan.flags.len() ==> !arg_matches(#[trigger] plan.flags[k], tokens[i]),
        forall|k: int|
            0 <= k < plan.options.len() ==> !arg_matches(#[trigger] plan.options[k], tokens[i]),
        plan.positional is None,
    ensures
        scan(plan, tokens, i, record) == Err::<OutcomeModel, ParseErrorModel>(
            ParseErrorModel::UnknownArgument(tokens[i]),
        ),
{
    lemma_first_match(plan.flags, tokens[i], 0);
    lemma_first_match(plan.options, tokens[i], 0);
}

/// Parsing no tokens gives the record in which nothing is set, unless an
/// option is required: then the error names the long spelling of the first
/// required option.
pub proof fn lemma_no_tokens(plan: PlanModel)
    ensures
        parsed(plan, Seq::empty()) == finalize(plan, empty_record(plan)),
        (forall|k: int| 0 <= k < plan.options.len() ==> !(#[trigger] plan.options[k]).required)
            ==> parsed(plan, Seq::empty()) == Ok::<OutcomeModel, ParseErrorModel>(
            OutcomeModel::Record(empty_record(plan)),
        ),
        forall|k: int|
            0 <= k < plan.options.len() && (#[trigger] plan.options[k]).required && (forall|j: int|
                0 <= j < k ==> !(#[trigger] plan.options[j]).required) ==> parsed(
                plan,
                Seq::empty(),
            ) == Err::<OutcomeModel, ParseErrorModel>(
                ParseErrorModel::MissingRequiredArgument(plan.options[k].long_name),
            ),
{
    let record = empty_record(plan);
    lemma_first_missing(plan.options, record.options, 0);
    assert forall|k: int|
        0 <= k < plan.options.len() && (#[trigger] plan.options[k]).required && (forall|j: int|
            0 <= j < k ==> !(#[trigger] plan.options[j]).required) implies parsed(
        plan,
        Seq::empty(),
    ) == Err::<OutcomeModel, ParseErrorModel>(
        ParseErrorModel::MissingRequiredArgument(plan.options[k].long_name),
    ) by {
        assert(record.options[k] is None);
    }
}

} // verus!
