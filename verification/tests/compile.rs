use onlyargs_derive::compile::{
    arg_view_of, builtin_flags, check_positional, derive_group, derive_parser, layout_fits,
    push_all_args, push_args_of_kind, render_group,
};
use onlyargs_derive::dedupe::{dedupe, dedupe_all};
use onlyargs_derive::error::SchemaError;
use onlyargs_derive::help::ArgView;
use onlyargs_derive::schema::{ArgType, ElementType, FieldDescriptor, Schema, ValueKind};
use std::collections::HashMap;

fn descriptor(
    identifier: &str,
    doc: &[&str],
    kind: ValueKind,
    ty: ElementType,
    required: bool,
) -> FieldDescriptor {
    FieldDescriptor {
        identifier: identifier.to_string(),
        documentation: doc.iter().map(|s| s.to_string()).collect(),
        value_kind: kind,
        element_type: ty,
        required,
        explicit_short: None,
        suppress_short: false,
    }
}

fn schema(fields: Vec<FieldDescriptor>) -> Schema {
    Schema {
        program: "sum".to_string(),
        version: "1.2.3".to_string(),
        description: "Adds numbers.".to_string(),
        bin_name: "sum-bin".to_string(),
        documentation: vec![
            "A basic argument parsing example.".to_string(),
            "Sums a list of numbers.".to_string(),
        ],
        fields,
    }
}

fn example_fields() -> Vec<FieldDescriptor> {
    vec![
        descriptor(
            "username",
            &["Your username. [required]"],
            ValueKind::Opt,
            ElementType::Text,
            true,
        ),
        descriptor("output", &["Output file path."], ValueKind::Opt, ElementType::Path, false),
        descriptor(
            "numbers",
            &["A list of numbers to sum."],
            ValueKind::Positional,
            ElementType::I32,
            false,
        ),
        descriptor("verbose", &["Enable verbose output."], ValueKind::Flag, ElementType::Bool, false),
    ]
}

fn view(name: &str, short: Option<char>) -> ArgView {
    ArgView { name: name.to_string(), short, ty_help: ArgType::Bool, doc: vec![] }
}

#[test]
fn example_schema_compiles_to_its_help_text() {
    let plan = derive_parser(&schema(example_fields())).unwrap();
    let expected = "sum v1.2.3\n\
Adds numbers.\n\
\n\
A basic argument parsing example.\n\
Sums a list of numbers.\n\
\n\
Usage:\n  sum-bin [flags] [options] numbers...\n\
\n\
Flags:\n  -h --help     Show this help message.\n  -V --version  Show the application version.\n  -v --verbose  Enable verbose output.\n\
\n\
Options:\n  -u --username <str>  Your username. [required]\n  -o --output <path>   Output file path.\n\
\n\
numbers:\n  A list of numbers to sum.\n";
    assert_eq!(plan.help, expected);
    assert_eq!(plan.version, "sum v1.2.3\n");
}

#[test]
fn example_schema_is_partitioned_in_declaration_order() {
    let plan = derive_parser(&schema(example_fields())).unwrap();
    assert_eq!(plan.flags.len(), 1);
    assert_eq!(plan.flags[0].identifier, "verbose");
    assert_eq!(plan.flags[0].long_name, "--verbose");
    assert_eq!(plan.flags[0].short_name, Some('v'));
    assert_eq!(plan.flags[0].help_line, "  -v --verbose  Enable verbose output.\n");
    assert_eq!(plan.options.len(), 2);
    assert_eq!(plan.options[0].identifier, "username");
    assert_eq!(plan.options[0].long_name, "--username");
    assert_eq!(plan.options[0].short_name, Some('u'));
    assert!(plan.options[0].required);
    assert_eq!(plan.options[0].element_type, ElementType::Text);
    assert_eq!(plan.options[0].help_line, "  -u --username <str>  Your username. [required]\n");
    assert_eq!(plan.options[1].identifier, "output");
    assert!(!plan.options[1].required);
    assert_eq!(plan.options[1].element_type, ElementType::Path);
    let positional = plan.positional.as_ref().unwrap();
    assert_eq!(positional.identifier, "numbers");
    assert_eq!(positional.short_name, None);
    assert_eq!(positional.element_type, ElementType::I32);
    assert_eq!(positional.help_line, "numbers:\n  A list of numbers to sum.");
    assert_eq!(plan.flags_width, 10);
    assert_eq!(plan.options_width, 17);
}

#[test]
fn same_schema_gives_identical_help_text() {
    let first = derive_parser(&schema(example_fields())).unwrap();
    let second = derive_parser(&schema(example_fields())).unwrap();
    assert_eq!(first.help, second.help);
    assert_eq!(first, second);
}

#[test]
fn empty_schema_has_only_the_builtin_flags() {
    let plan = derive_parser(&schema(vec![])).unwrap();
    let expected = "sum v1.2.3\n\
Adds numbers.\n\
\n\
A basic argument parsing example.\n\
Sums a list of numbers.\n\
\n\
Usage:\n  sum-bin [flags] [options]\n\
\n\
Flags:\n  -h --help     Show this help message.\n  -V --version  Show the application version.\n\
\n\
Options:\n\
\n";
    assert_eq!(plan.help, expected);
    assert!(plan.flags.is_empty());
    assert!(plan.options.is_empty());
    assert!(plan.positional.is_none());
    assert_eq!(plan.flags_width, 10);
    assert_eq!(plan.options_width, 0);
}

#[test]
fn flags_and_options_align_independently() {
    let fields = vec![
        descriptor("a_very_long_flag_name", &["Long."], ValueKind::Flag, ElementType::Bool, false),
        descriptor("x", &["Short."], ValueKind::Opt, ElementType::U8, false),
    ];
    let plan = derive_parser(&schema(fields)).unwrap();
    assert_eq!(plan.flags_width, 21 + 3);
    assert_eq!(plan.options_width, 1 + 6 + 3);
    assert_eq!(plan.options[0].help_line, "  -x --x <num>  Short.\n");
    assert_eq!(plan.flags[0].help_line, "  -a --a-very-long-flag-name  Long.\n");
}

#[test]
fn long_only_argument_is_aligned_with_the_others() {
    let mut output = descriptor("output", &["Output file path."], ValueKind::Opt, ElementType::Path, false);
    output.suppress_short = true;
    let username = descriptor("username", &["Your username."], ValueKind::Opt, ElementType::Text, true);
    let plan = derive_parser(&schema(vec![username, output])).unwrap();
    assert_eq!(plan.options[0].help_line, "  -u --username <str>  Your username.\n");
    assert_eq!(plan.options[1].help_line, "  --output <path>      Output file path.\n");
    assert_eq!(plan.options[1].short_name, None);
}

#[test]
fn duplicate_short_name_names_both_fields() {
    let fields = vec![
        descriptor("verbose", &[], ValueKind::Flag, ElementType::Bool, false),
        descriptor("value", &[], ValueKind::Opt, ElementType::I64, false),
    ];
    let err = derive_parser(&schema(fields)).unwrap_err();
    assert_eq!(
        err,
        SchemaError::DuplicateShortName {
            short: 'v',
            identifier: "value".to_string(),
            owner: "verbose".to_string(),
        }
    );
}

#[test]
fn duplicate_short_name_goes_by_declaration_order() {
    let fields = vec![
        descriptor("value", &[], ValueKind::Opt, ElementType::I64, false),
        descriptor("verbose", &[], ValueKind::Flag, ElementType::Bool, false),
    ];
    let err = derive_parser(&schema(fields)).unwrap_err();
    assert_eq!(
        err,
        SchemaError::DuplicateShortName {
            short: 'v',
            identifier: "verbose".to_string(),
            owner: "value".to_string(),
        }
    );
}

#[test]
fn duplicate_short_name_reports_the_first_collision() {
    let fields = vec![
        descriptor("alpha", &[], ValueKind::Flag, ElementType::Bool, false),
        descriptor("beta", &[], ValueKind::Flag, ElementType::Bool, false),
        descriptor("bravo", &[], ValueKind::Flag, ElementType::Bool, false),
        descriptor("again", &[], ValueKind::Flag, ElementType::Bool, false),
    ];
    let err = derive_parser(&schema(fields)).unwrap_err();
    assert_eq!(
        err,
        SchemaError::DuplicateShortName {
            short: 'b',
            identifier: "bravo".to_string(),
            owner: "beta".to_string(),
        }
    );
}

#[test]
fn explicit_short_h_collides_with_builtin_help() {
    let mut host = descriptor("server", &[], ValueKind::Opt, ElementType::Text, false);
    host.explicit_short = Some('h');
    let err = derive_parser(&schema(vec![host])).unwrap_err();
    assert_eq!(
        err,
        SchemaError::DuplicateShortName {
            short: 'h',
            identifier: "server".to_string(),
            owner: "help".to_string(),
        }
    );
}

#[test]
fn default_short_h_collides_with_builtin_help() {
    let host = descriptor("host", &[], ValueKind::Opt, ElementType::Text, false);
    let err = derive_parser(&schema(vec![host])).unwrap_err();
    assert_eq!(
        err,
        SchemaError::DuplicateShortName {
            short: 'h',
            identifier: "host".to_string(),
            owner: "help".to_string(),
        }
    );
}

#[test]
fn explicit_short_capital_v_collides_with_builtin_version() {
    let mut f = descriptor("loud", &[], ValueKind::Flag, ElementType::Bool, false);
    f.explicit_short = Some('V');
    let err = derive_parser(&schema(vec![f])).unwrap_err();
    assert_eq!(
        err,
        SchemaError::DuplicateShortName {
            short: 'V',
            identifier: "loud".to_string(),
            owner: "version".to_string(),
        }
    );
}

#[test]
fn lower_case_v_does_not_collide_with_version() {
    let f = descriptor("verbose", &[], ValueKind::Flag, ElementType::Bool, false);
    assert!(derive_parser(&schema(vec![f])).is_ok());
}

#[test]
fn suppressed_short_resolves_a_collision() {
    let mut host = descriptor("host", &[], ValueKind::Opt, ElementType::Text, false);
    host.suppress_short = true;
    let plan = derive_parser(&schema(vec![host])).unwrap();
    assert_eq!(plan.options[0].short_name, None);
    assert_eq!(plan.options[0].help_line, "  --host <str>  \n");
}

#[test]
fn positional_field_takes_no_part_in_deduplication() {
    let fields = vec![
        descriptor("names", &[], ValueKind::Positional, ElementType::Text, false),
        descriptor("number", &[], ValueKind::Opt, ElementType::U32, false),
    ];
    assert!(derive_parser(&schema(fields)).is_ok());
}

#[test]
fn two_positional_fields_are_refused() {
    let fields = vec![
        descriptor("inputs", &[], ValueKind::Positional, ElementType::Path, false),
        descriptor("verbose", &[], ValueKind::Flag, ElementType::Bool, false),
        descriptor("outputs", &[], ValueKind::Positional, ElementType::Path, false),
        descriptor("extras", &[], ValueKind::Positional, ElementType::Path, false),
    ];
    let err = derive_parser(&schema(fields)).unwrap_err();
    assert_eq!(
        err,
        SchemaError::MultiplePositionalFields {
            first: "inputs".to_string(),
            second: "outputs".to_string(),
        }
    );
}

#[test]
fn second_positional_is_reported_before_a_duplicate_short() {
    let fields = vec![
        descriptor("verbose", &[], ValueKind::Flag, ElementType::Bool, false),
        descriptor("value", &[], ValueKind::Opt, ElementType::I64, false),
        descriptor("a", &[], ValueKind::Positional, ElementType::Text, false),
        descriptor("b", &[], ValueKind::Positional, ElementType::Text, false),
    ];
    let err = derive_parser(&schema(fields)).unwrap_err();
    assert_eq!(
        err,
        SchemaError::MultiplePositionalFields { first: "a".to_string(), second: "b".to_string() }
    );
}

#[test]
fn check_positional_finds_the_single_positional() {
    assert_eq!(check_positional(&example_fields()), Ok(Some(2)));
    assert_eq!(check_positional(&vec![]), Ok(None));
    let flags_only = vec![descriptor("v", &[], ValueKind::Flag, ElementType::Bool, false)];
    assert_eq!(check_positional(&flags_only), Ok(None));
}

#[test]
fn dedupe_registers_a_free_short_name() {
    let mut dupes: HashMap<u32, String> = HashMap::new();
    assert_eq!(dedupe(&mut dupes, &view("verbose", Some('v'))), Ok(()));
    assert_eq!(dupes.len(), 1);
    assert_eq!(dupes.get(&('v' as u32)), Some(&"verbose".to_string()));
}

#[test]
fn dedupe_ignores_an_argument_without_short_name() {
    let mut dupes: HashMap<u32, String> = HashMap::new();
    assert_eq!(dedupe(&mut dupes, &view("verbose", None)), Ok(()));
    assert!(dupes.is_empty());
}

#[test]
fn dedupe_refuses_a_taken_short_name_and_keeps_the_owner() {
    let mut dupes: HashMap<u32, String> = HashMap::new();
    dedupe(&mut dupes, &view("verbose", Some('v'))).unwrap();
    let err = dedupe(&mut dupes, &view("value", Some('v'))).unwrap_err();
    assert_eq!(
        err,
        SchemaError::DuplicateShortName {
            short: 'v',
            identifier: "value".to_string(),
            owner: "verbose".to_string(),
        }
    );
    assert_eq!(dupes.len(), 1);
    assert_eq!(dupes.get(&('v' as u32)), Some(&"verbose".to_string()));
}

#[test]
fn dedupe_all_passes_distinct_short_names() {
    let args = vec![view("a", Some('a')), view("b", None), view("c", Some('c')), view("d", None)];
    assert_eq!(dedupe_all(&args), Ok(()));
    assert_eq!(dedupe_all(&vec![]), Ok(()));
}

#[test]
fn dedupe_all_names_the_first_owner() {
    let args = vec![view("one", Some('x')), view("two", Some('x')), view("three", Some('x'))];
    assert_eq!(
        dedupe_all(&args),
        Err(SchemaError::DuplicateShortName {
            short: 'x',
            identifier: "two".to_string(),
            owner: "one".to_string(),
        })
    );
}

#[test]
fn builtin_flags_are_help_and_version() {
    let flags = builtin_flags();
    assert_eq!(flags.len(), 2);
    assert_eq!(flags[0].name, "help");
    assert_eq!(flags[0].short, Some('h'));
    assert_eq!(flags[0].ty_help, ArgType::Bool);
    assert_eq!(flags[0].doc, vec!["Show this help message.".to_string()]);
    assert_eq!(flags[1].name, "version");
    assert_eq!(flags[1].short, Some('V'));
    assert_eq!(flags[1].doc, vec!["Show the application version.".to_string()]);
}

#[test]
fn arg_view_of_a_flag_shows_no_type_hint() {
    let f = descriptor("verbose", &["Line."], ValueKind::Flag, ElementType::I32, false);
    let v = arg_view_of(&f);
    assert_eq!(v.name, "verbose");
    assert_eq!(v.short, Some('v'));
    assert_eq!(v.ty_help, ArgType::Bool);
    assert_eq!(v.doc, vec!["Line.".to_string()]);
    let o = descriptor("count", &[], ValueKind::Opt, ElementType::I32, false);
    assert_eq!(arg_view_of(&o).ty_help, ArgType::Number);
}

#[test]
fn push_args_selects_by_kind_in_order() {
    let fields = example_fields();
    let mut options = vec![view("first", None)];
    push_args_of_kind(&mut options, &fields, ValueKind::Opt);
    let names: Vec<&str> = options.iter().map(|a| a.name.as_str()).collect();
    assert_eq!(names, vec!["first", "username", "output"]);
    let mut all = vec![];
    push_all_args(&mut all, &fields);
    let names: Vec<&str> = all.iter().map(|a| a.name.as_str()).collect();
    assert_eq!(names, vec!["username", "output", "numbers", "verbose"]);
}

#[test]
fn render_group_concatenates_the_entries() {
    let flags = builtin_flags();
    assert_eq!(
        render_group(&flags, 10),
        "  -h --help     Show this help message.\n  -V --version  Show the application version.\n"
    );
    assert_eq!(render_group(&vec![], 0), "");
}

#[test]
fn derive_group_keeps_the_fields_of_one_kind() {
    let group = derive_group(&example_fields(), ValueKind::Opt, 17);
    assert_eq!(group.len(), 2);
    assert_eq!(group[0].long_name, "--username");
    assert_eq!(group[1].long_name, "--output");
    assert_eq!(group[1].help_line, "  -o --output <path>   Output file path.\n");
}

#[test]
fn schema_error_messages() {
    let dup = SchemaError::DuplicateShortName {
        short: 'v',
        identifier: "value".to_string(),
        owner: "verbose".to_string(),
    };
    assert_eq!(
        dup.message(),
        "Only one short arg is allowed. `-v` on field `value` is also used on field `verbose`"
    );
    let multi = SchemaError::MultiplePositionalFields {
        first: "a".to_string(),
        second: "b".to_string(),
    };
    assert_eq!(
        multi.message(),
        "Only one positional field is allowed. Field `b` follows positional field `a`"
    );
}

#[test]
fn ordinary_schemas_fit_the_layout() {
    assert!(layout_fits(&schema(example_fields())));
    assert!(layout_fits(&schema(vec![])));
}

#[test]
fn main_items_are_reachable_from_the_crate_root() {
    let plan = onlyargs_derive::derive_parser(&schema(example_fields())).unwrap();
    let parsed = plan.parse(vec!["-u".to_string(), "al".to_string(), "7".to_string()]);
    assert_eq!(
        parsed,
        Ok(onlyargs_derive::Outcome::Record(onlyargs_derive::ParsedRecord {
            flags: vec![false],
            options: vec![Some(onlyargs_derive::Value::Text("al".to_string())), None],
            positional: vec![onlyargs_derive::Value::Signed(7)],
        }))
    );
    assert_eq!(onlyargs_derive::to_arg_name("A_b"), "a-b");
}
