use onlyargs_derive::names::{short_name, to_arg_name, to_ascii_lower, to_default_short, to_long_name};
use onlyargs_derive::schema::{ElementType, FieldDescriptor, ValueKind};

fn field(identifier: &str, kind: ValueKind) -> FieldDescriptor {
    FieldDescriptor {
        identifier: identifier.to_string(),
        documentation: vec![],
        value_kind: kind,
        element_type: ElementType::Text,
        required: false,
        explicit_short: None,
        suppress_short: false,
    }
}

#[test]
fn arg_name_replaces_underscores_and_lowers_ascii() {
    assert_eq!(to_arg_name("Dry_Run"), "dry-run");
    assert_eq!(to_arg_name("username"), "username");
    assert_eq!(to_arg_name("__A__"), "--a--");
    assert_eq!(to_arg_name(""), "");
}

#[test]
fn arg_name_leaves_other_characters_alone() {
    assert_eq!(to_arg_name("x86_64"), "x86-64");
    assert_eq!(to_arg_name("Größe_Ä"), "größe-Ä");
}

#[test]
fn arg_name_is_idempotent_on_examples() {
    for identifier in ["Dry_Run", "a_b_c", "ALLCAPS", "größe", "", "--x"] {
        let once = to_arg_name(identifier);
        assert_eq!(to_arg_name(&once), once);
    }
}

#[test]
fn long_name_starts_with_two_hyphens() {
    assert_eq!(to_long_name("Dry_Run"), "--dry-run");
    assert_eq!(to_long_name(""), "--");
    for identifier in ["Dry_Run", "a_b_c", "ALLCAPS", "Z9_"] {
        let long = to_long_name(identifier);
        assert!(long.starts_with("--"));
        assert!(!long.contains('_'));
        assert!(!long.chars().any(|c| c.is_ascii_uppercase()));
        assert_eq!(long.chars().count(), identifier.chars().count() + 2);
    }
}

#[test]
fn ascii_lower_changes_capitals_only() {
    assert_eq!(to_ascii_lower('A'), 'a');
    assert_eq!(to_ascii_lower('Z'), 'z');
    assert_eq!(to_ascii_lower('m'), 'm');
    assert_eq!(to_ascii_lower('@'), '@');
    assert_eq!(to_ascii_lower('['), '[');
    assert_eq!(to_ascii_lower('Ä'), 'Ä');
}

#[test]
fn default_short_is_first_ascii_letter_lowered() {
    assert_eq!(to_default_short("username"), Some('u'));
    assert_eq!(to_default_short("Verbose"), Some('v'));
    assert_eq!(to_default_short("_9x"), Some('x'));
    assert_eq!(to_default_short("ärger"), Some('r'));
    assert_eq!(to_default_short("_42"), None);
    assert_eq!(to_default_short(""), None);
}

#[test]
fn short_name_follows_suppression_then_explicit_then_default() {
    let mut f = field("output", ValueKind::Opt);
    assert_eq!(short_name(&f), Some('o'));
    f.explicit_short = Some('O');
    assert_eq!(short_name(&f), Some('O'));
    f.suppress_short = true;
    assert_eq!(short_name(&f), None);
}

#[test]
fn positional_field_has_no_short_name() {
    let mut f = field("numbers", ValueKind::Positional);
    assert_eq!(short_name(&f), None);
    f.explicit_short = Some('n');
    assert_eq!(short_name(&f), None);
}
