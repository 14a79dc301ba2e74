//! The runtime matcher: one left-to-right scan of the raw tokens against a
//! parser plan, which gives a record, the help or version outcome, or the
//! first error.
use vstd::prelude::*;
use crate::coerce::{coerce, coerced};
use crate::error::{ParseError, ParseErrorModel};
use crate::names::short_form;
use crate::plan::{derived_view, DerivedArgument, DerivedModel, ParserPlan, PlanModel};
use crate::record::{
    slot_view, slots_view, values_view, Outcome, OutcomeModel, ParsedRecord, RecordModel, Value,
    ValueModel,
};
use crate::schema::ElementType;
use crate::text::lines_view;

verus! {

/// Whether a token is the long or the short spelling of an argument.
pub open spec fn arg_matches(arg: DerivedModel, token: Seq<char>) -> bool {
    token == arg.long_name || (arg.short_name matches Some(c) && token == short_form(c))
}

/// The first argument, from `start` on, that a token spells.
pub open spec fn first_match(args: Seq<DerivedModel>, token: Seq<char>, start: int) -> Option<int>
    decreases args.len() - start,
{
    if start < 0 || start >= args.len() {
        None
    } else if arg_matches(args[start], token) {
        Some(start)
    } else {
        first_match(args, token, start + 1)
    }
}

/// The record a scan starts from: every flag false, no option given, no
/// positional value.
pub open spec fn empty_record(plan: PlanModel) -> RecordModel {
    RecordModel {
        flags: Seq::new(plan.flags.len(), |i: int| false),
        options: Seq::new(plan.options.len(), |i: int| None::<ValueModel>),
        positional: Seq::empty(),
    }
}

/// The first option, from `start` on, that is required and has no value.
pub open spec fn first_missing(
    options: Seq<DerivedModel>,
    values: Seq<Option<ValueModel>>,
    start: int,
) -> Option<int>
    decreases options.len() - start,
{
    if start < 0 || start >= options.len() || start >= values.len() {
        None
    } else if options[start].required && values[start] is None {
        Some(start)
    } else {
        first_missing(options, values, start + 1)
    }
}

/// The end of a scan: the first required option without a value is named by
/// its long spelling; where there is none, the record is the result.
pub open spec fn finalize(plan: PlanModel, record: RecordModel) -> Result<
    OutcomeModel,
    ParseErrorModel,
> {
    match first_missing(plan.options, record.options, 0) {
        Some(k) => Err(ParseErrorModel::MissingRequiredArgument(plan.options[k].long_name)),
        None => Ok(OutcomeModel::Record(record)),
    }
}

/// The name under which a positional value is reported.
pub open spec fn positional_name() -> Seq<char> {
    "<POSITIONAL>"@
}

/// The record with one more positional value.
pub open spec fn with_positional(record: RecordModel, value: ValueModel) -> RecordModel {
    RecordModel { positional: record.positional.push(value), ..record }
}

/// What follows the sentinel: every token from `i` on is coerced and
/// appended to the positional values, none is read as a flag or an option,
/// and the first that does not coerce ends the scan.
pub open spec fn collect_rest(
    ty: ElementType,
    tokens: Seq<Seq<char>>,
    i: int,
    positional: Seq<ValueModel>,
) -> Result<Seq<ValueModel>, ParseErrorModel>
    decreases tokens.len() - i,
{
    if i < 0 || i >= tokens.len() {
        Ok(positional)
    } else {
        match coerced(ty, tokens[i]) {
            Some(v) => collect_rest(ty, tokens, i + 1, positional.push(v)),
            None => Err(ParseErrorModel::InvalidValue(positional_name(), tokens[i])),
        }
    }
}

/// The scan from token `i` on, with the record as it stands. Each token is
/// tried in this order: help, version, the flags, the options, the
/// sentinel, the positional field; a token that is none of these is unknown.
pub open spec fn scan(plan: PlanModel, tokens: Seq<Seq<char>>, i: int, record: RecordModel) -> Result<
    OutcomeModel,
    ParseErrorModel,
>
    decreases tokens.len() - i,
{
    if i < 0 || i >= tokens.len() {
        finalize(plan, record)
    } else {
        let token = tokens[i];
        if token == "--help"@ || token == "-h"@ {
            Ok(OutcomeModel::Help)
        } else if token == "--version"@ || token == "-V"@ {
            Ok(OutcomeModel::Version)
        } else if let Some(k) = first_match(plan.flags, token, 0) {
            scan(plan, tokens, i + 1, RecordModel { flags: record.flags.update(k, true), ..record })
        } else if let Some(k) = first_match(plan.options, token, 0) {
            if i + 1 >= tokens.len() {
                Err(ParseErrorModel::MissingOptionValue(token))
            } else {
                match coerced(plan.options[k].element_type, tokens[i + 1]) {
                    Some(v) => scan(
                        plan,
                        tokens,
                        i + 2,
                        RecordModel { options: record.options.update(k, Some(v)), ..record },
                    ),
                    None => Err(ParseErrorModel::InvalidValue(token, tokens[i + 1])),
                }
            }
        } else if token == "--"@ {
            match plan.positional {
                Some(p) => match collect_rest(p.element_type, tokens, i + 1, record.positional) {
                    Ok(all) => finalize(plan, RecordModel { positional: all, ..record }),
                    Err(e) => Err(e),
                },
                None => finalize(plan, record),
            }
        } else {
            match plan.positional {
                Some(p) => match coerced(p.element_type, token) {
                    Some(v) => scan(plan, tokens, i + 1, with_positional(record, v)),
                    None => Err(ParseErrorModel::InvalidValue(positional_name(), token)),
                },
                None => Err(ParseErrorModel::UnknownArgument(token)),
            }
        }
    }
}

/// What parsing a token sequence against a plan gives.
pub open spec fn parsed(plan: PlanModel, tokens: Seq<Seq<char>>) -> Result<
    OutcomeModel,
    ParseErrorModel,
> {
    scan(plan, tokens, 0, empty_record(plan))
}

/// The view of a result of the matcher.
pub open spec fn result_view(r: Result<Outcome, ParseError>) -> Result<
    OutcomeModel,
    ParseErrorModel,
> {
    match r {
        Ok(outcome) => Ok(outcome@),
        Err(e) => Err(e@),
    }
}

/// Whether a token is the short spelling of a character.
pub fn is_short_form(token: &String, c: char) -> (r: bool)
    ensures
        r == (token@ == short_form(c)),
{
    let text = token.as_str();
    if text.unicode_len() != 2 {
        return false;
    }
    let r = text.get_char(0) == '-' && text.get_char(1) == c;
    assert(r ==> token@ =~= short_form(c));
    r
}

/// Whether a token spells an argument.
pub fn matches_arg(arg: &DerivedArgument, token: &String) -> (r: bool)
    ensures
        r == arg_matches(arg@, token@),
{
    if *token == arg.long_name {
        return true;
    }
    match arg.short_name {
        Some(c) => is_short_form(token, c),
        None => false,
    }
}

/// The first of the arguments that a token spells.
pub fn find_match(args: &Vec<DerivedArgument>, token: &String) -> (r: Option<usize>)
    ensures
        match r {
            Some(k) => k < args.len() && first_match(derived_view(args@), token@, 0) == Some(
                k as int,
            ),
            None => first_match(derived_view(args@), token@, 0) is None,
        },
{
    let ghost all = derived_view(args@);
    let mut i: usize = 0;
    while i < args.len()
        invariant
            i <= args.len(),
            all == derived_view(args@),
            first_match(all, token@, 0) == first_match(all, token@, i as int),
        decreases args.len() - i,
    {
        if matches_arg(&args[i], token) {
            return Some(i);
        }
        i += 1;
    }
    None
}

/// Ends a scan: checks that every required option has its value.
pub fn finish(plan: &ParserPlan, record: ParsedRecord) -> (r: Result<Outcome, ParseError>)
    ensures
        result_view(r) == finalize(plan@, record@),
{
    let ghost options = plan@.options;
    let ghost values = record@.options;
    let mut i: usize = 0;
    while i < plan.options.len() && i < record.options.len()
        invariant
            options == plan@.options,
            values == record@.options,
            first_missing(options, values, 0) == first_missing(options, values, i as int),
        decreases plan.options.len() - i,
    {
        let option = &plan.options[i];
        if option.required && record.options[i].is_none() {
            return Err(ParseError::MissingRequiredArgument(option.long_name.clone()));
        }
        i += 1;
    }
    Ok(Outcome::Record(record))
}

/// Coerces every token from `start` on and appends it to the positional
/// values, up to the first token that does not coerce. What was there
/// before stays in front either way.
pub fn collect_positional(
    ty: ElementType,
    args: &Vec<String>,
    start: usize,
    positional: &mut Vec<Value>,
) -> (r: Result<(), ParseError>)
    ensures
        match collect_rest(ty, lines_view(args@), start as int, values_view(old(positional)@)) {
            Ok(all) => r is Ok && values_view(final(positional)@) == all,
            Err(e) => r matches Err(found) && found@ == e,
        },
        values_view(old(positional)@).is_prefix_of(values_view(final(positional)@)),
{
    let ghost tokens = lines_view(args@);
    let ghost goal = collect_rest(ty, tokens, start as int, values_view(positional@));
    let name = String::from_str("<POSITIONAL>");
    let mut i: usize = start;
    while i < args.len()
        invariant
            tokens == lines_view(args@),
            name@ == positional_name(),
            goal == collect_rest(ty, tokens, start as int, values_view(old(positional)@)),
            goal == collect_rest(ty, tokens, i as int, values_view(positional@)),
            values_view(old(positional)@).is_prefix_of(values_view(positional@)),
        decreases args.len() - i,
    {
        let token = &args[i];
        let ghost before = positional@;
        match coerce(ty, token, &name) {
            Ok(value) => {
                positional.push(value);
                assert(values_view(positional@) =~= values_view(before).push(value@));
            },
            Err(e) => {
                return Err(e);
            },
        }
        i += 1;
    }
    Ok(())
}

/// A list of `n` flags, all false.
pub fn unset_flags(n: usize) -> (flags: Vec<bool>)
    ensures
        flags@ == Seq::new(n as nat, |i: int| false),
{
    let mut flags: Vec<bool> = Vec::new();
    let mut i: usize = 0;
    while i < n
        invariant
            i <= n,
            flags@ == Seq::new(i as nat, |j: int| false),
        decreases n - i,
    {
        flags.push(false);
        i += 1;
    }
    flags
}

/// A list of `n` option values, none given.
pub fn unset_options(n: usize) -> (options: Vec<Option<Value>>)
    ensures
        slots_view(options@) == Seq::new(n as nat, |i: int| None::<ValueModel>),
{
    let mut options: Vec<Option<Value>> = Vec::new();
    let mut i: usize = 0;
    while i < n
        invariant
            i <= n,
            slots_view(options@) == Seq::new(i as nat, |j: int| None::<ValueModel>),
        decreases n - i,
    {
        let ghost before = options@;
        options.push(None);
        assert(slots_view(options@) =~= slots_view(before).push(None::<ValueModel>));
        i += 1;
    }
    options
}

impl ParserPlan {
    /// Parses raw tokens against the plan in one pass from left to right.
    /// The result is the record, the help or version outcome, or the error
    /// of the first token at which the scan fails.
    pub fn parse(&self, args: Vec<String>) -> (r: Result<Outcome, ParseError>)
        ensures
            result_view(r) == parsed(self@, lines_view(args@)),
    {
        let ghost plan = self@;
        let ghost tokens = lines_view(args@);
        let mut flags = unset_flags(self.flags.len());
        let mut options = unset_options(self.options.len());
        let mut positional: Vec<Value> = Vec::new();
        let positional_label = String::from_str("<POSITIONAL>");
        let help_long = String::from_str("--help");
        let help_short = String::from_str("-h");
        let version_long = String::from_str("--version");
        let version_short = String::from_str("-V");
        let sentinel = String::from_str("--");
        assert(values_view(positional@) =~= Seq::<ValueModel>::empty());
        let mut i: usize = 0;
        while i < args.len()
            invariant
                i <= args.len(),
                plan == self@,
                tokens == lines_view(args@),
                positional_label@ == positional_name(),
                help_long@ == "--help"@ && help_short@ == "-h"@,
                version_long@ == "--version"@ && version_short@ == "-V"@,
                sentinel@ == "--"@,
                flags@.len() == self.flags.len(),
                options@.len() == self.options.len(),
                parsed(plan, tokens) == scan(
                    plan,
                    tokens,
                    i as int,
                    RecordModel {
                        flags: flags@,
                        options: slots_view(options@),
                        positional: values_view(positional@),
                    },
                ),
            decreases args.len() - i,
        {
            let token = &args[i];
            if *token == help_long || *token == help_short {
                return Ok(Outcome::Help);
            }
            if *token == version_long || *token == version_short {
                return Ok(Outcome::Version);
            }
            if let Some(k) = find_match(&self.flags, token) {
                flags.set(k, true);
                i += 1;
            } else if let Some(k) = find_match(&self.options, token) {
                if i + 1 >= args.len() {
                    return Err(ParseError::MissingOptionValue(token.clone()));
                }
                let option = &self.options[k];
                let ghost before = options@;
                match coerce(option.element_type, &args[i + 1], token) {
                    Ok(value) => {
                        options.set(k, Some(value));
                        assert(slots_view(options@) =~= slots_view(before).update(
                            k as int,
                            Some(value@),
                        ));
                    },
                    Err(e) => {
                        return Err(e);
                    },
                }
                i += 2;
            } else if *token == sentinel {
                match &self.positional {
                    Some(p) => {
                        match collect_positional(p.element_type, &args, i + 1, &mut positional) {
                            Ok(_) => {},
                            Err(e) => {
                                return Err(e);
                            },
                        }
                    },
                    None => {},
                }
                return finish(self, ParsedRecord { flags, options, positional });
            } else {
                match &self.positional {
                    Some(p) => {
                        let ghost before = positional@;
                        match coerce(p.element_type, token, &positional_label) {
                            Ok(value) => {
                                positional.push(value);
                                assert(values_view(positional@) =~= values_view(before).push(
                                    value@,
                                ));
                            },
                            Err(e) => {
                                return Err(e);
                            },
                        }
                    },
                    None => {
                        return Err(ParseError::UnknownArgument(token.clone()));
                    },
                }
                i += 1;
            }
        }
        finish(self, ParsedRecord { flags, options, positional })
    }
}

} // verus!
