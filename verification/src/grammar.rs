//! Command-line grammars, and reading a command line by one. `clap` does the
//! reading; this module says what it is given and what it hands back.
use vstd::prelude::*;
use vstd::string::*;

use crate::text::texts;
use crate::vm_args::{environment_of, share_of, GuestEnvironment, WritableShare};

verus! {

/// A command that `clap` knows.
#[verifier::external_type_specification]
#[verifier::external_body]
pub struct ExCommand(clap::Command);

/// What `clap` found on a command line.
#[verifier::external_type_specification]
#[verifier::external_body]
pub struct ExArgMatches(clap::ArgMatches);

/// The sort of error that `clap` found on a command line.
#[verifier::external_type_specification]
#[verifier::external_body]
pub struct ExErrorKind(clap::error::ErrorKind);

/// What an argument takes.
#[derive(Clone, Copy, Debug)]
pub enum Kind {
    /// Nothing: it is there or it is not.
    Flag,
    /// One text.
    Text,
    /// One text that is not empty.
    NonEmpty,
    /// A text each time it is given.
    TextList,
    /// A text that is not empty each time it is given.
    NonEmptyList,
    /// Everything from its first value on.
    Trailing,
    /// A number from zero up to `most`.
    Number { most: i64 },
    /// One of three words.
    Choice { first: &'static str, second: &'static str, third: &'static str },
    /// A tag and a directory each time it is given.
    Shares,
    /// A name and a value each time it is given.
    Entries,
}

/// One argument of a command. An option is given by its long name, which is its
/// name; an argument without a long name goes by its position.
#[derive(Clone, Copy, Debug)]
pub struct ArgumentRule {
    pub name: &'static str,
    pub long: Option<&'static str>,
    pub kind: Kind,
    /// What the help text calls the value.
    pub value_name: Option<&'static str>,
    pub help: &'static str,
    pub required: bool,
    /// An argument that must not be given along with this one.
    pub conflicts: Option<&'static str>,
    /// An argument that must be given where this one is not.
    pub unless: Option<&'static str>,
    /// The value where none is given.
    pub default: Option<&'static str>,
    /// Whether the help texts pass over it.
    pub hidden: bool,
}

/// What holds for a command as a whole.
#[derive(Clone, Copy, Debug)]
pub struct CommandRule {
    pub name: &'static str,
    pub about: &'static str,
    /// Whether the command's own arguments shut out its subcommands.
    pub exclusive: bool,
    /// Whether a subcommand lifts what the command requires.
    pub negates_requirements: bool,
    /// Whether a subcommand must be given; the help is shown when nothing is.
    pub subcommand_required: bool,
}

/// A grammar: a command, its arguments in order, and its subcommands.
pub struct Grammar {
    pub rule: CommandRule,
    pub versions: Option<(&'static str, &'static str)>,
    pub arguments: Seq<ArgumentRule>,
    pub subcommands: Seq<Grammar>,
}

/// What was found at one level of a command line: the name of the (sub)command,
/// the flags that were given, and the values of the other arguments, defaults
/// among them.
#[verifier::ext_equal]
pub struct Level {
    pub name: Seq<char>,
    pub flags: Set<Seq<char>>,
    pub texts: Map<Seq<char>, Seq<Seq<char>>>,
    pub numbers: Map<Seq<char>, int>,
}

/// An error on a command line, with the text and the exit code that go with it.
#[derive(Debug)]
pub struct UsageError {
    pub kind: clap::error::ErrorKind,
    pub message: String,
    pub exit_code: i32,
}

/// What a command-line error says.
pub struct UsageView {
    pub kind: clap::error::ErrorKind,
    pub message: Seq<char>,
    pub exit_code: i32,
}

impl View for UsageError {
    type V = UsageView;

    open spec fn view(&self) -> UsageView {
        UsageView { kind: self.kind, message: self.message@, exit_code: self.exit_code }
    }
}

impl UsageError {
    /// The sort of error.
    pub fn kind(&self) -> (kind: &clap::error::ErrorKind)
        ensures
            *kind == self@.kind,
    {
        &self.kind
    }
}

/// The texts found for an argument at a level.
pub open spec fn texts_at(level: Level, name: Seq<char>) -> Seq<Seq<char>> {
    if level.texts.contains_key(name) {
        level.texts[name]
    } else {
        Seq::empty()
    }
}

/// The number found for an argument at a level.
pub open spec fn number_at(level: Level, name: Seq<char>) -> Option<int> {
    if level.numbers.contains_key(name) {
        Some(level.numbers[name])
    } else {
        None
    }
}

/// Whether anything was found for an argument at a level.
pub open spec fn found_at(level: Level, name: Seq<char>) -> bool {
    level.flags.contains(name) || texts_at(level, name).len() > 0 || number_at(level, name) is Some
}

/// Whether a grammar is one that can be read by: the names at each level
/// differ, an argument refers only to other arguments at its level, at most one
/// argument goes by its position, and no subcommand is called `help`, which is
/// the name of one that `clap` adds.
pub open spec fn sound(grammar: Grammar) -> bool
    decreases grammar,
{
    &&& forall|i: int| 0 <= i < grammar.arguments.len() ==> sound_argument(grammar, i)
    &&& forall|i: int, j: int|
        0 <= i < j < grammar.arguments.len() ==> #[trigger] grammar.arguments[i].name@
            != #[trigger] grammar.arguments[j].name@
    &&& forall|i: int, j: int|
        0 <= i < j < grammar.arguments.len() ==> (#[trigger] grammar.arguments[i]).long is Some
            || (#[trigger] grammar.arguments[j]).long is Some
    &&& forall|i: int, j: int|
        0 <= i < j < grammar.subcommands.len() ==> #[trigger] grammar.subcommands[i].rule.name@
            != #[trigger] grammar.subcommands[j].rule.name@
    &&& forall|i: int|
        0 <= i < grammar.subcommands.len() ==> #[trigger] grammar.subcommands[i].rule.name@
            != "help"@
    &&& forall|i: int|
        0 <= i < grammar.subcommands.len() ==> sound(#[trigger] grammar.subcommands[i])
}

/// Whether an argument of a grammar has a name of its own, stands where its kind
/// may stand, and refers to other arguments only.
pub open spec fn sound_argument(grammar: Grammar, i: int) -> bool {
    let rule = grammar.arguments[i];
    &&& rule.name@.len() > 0
    &&& rule.name@[0] != '-'
    &&& rule.name@ != "help"@
    &&& rule.name@ != "version"@
    &&& rule.long matches Some(long) ==> long@ == rule.name@
    &&& rule.kind is Flag ==> rule.long is Some && rule.default is None
    &&& rule.kind is Trailing ==> rule.long is None
    &&& rule.required ==> rule.unless is None
    &&& rule.conflicts matches Some(other) ==> names_other(grammar, i, other@)
    &&& rule.unless matches Some(other) ==> names_other(grammar, i, other@)
}

/// Whether `name` is the name of an argument other than argument `i`.
pub open spec fn names_other(grammar: Grammar, i: int, name: Seq<char>) -> bool {
    exists|j: int|
        0 <= j < grammar.arguments.len() && j != i && (#[trigger] grammar.arguments[j]).name@
            == name
}

/// Whether what was found for an argument is of the argument's kind.
pub open spec fn fits(rule: ArgumentRule, level: Level) -> bool {
    let flagged = level.flags.contains(rule.name@);
    let values = texts_at(level, rule.name@);
    let number = number_at(level, rule.name@);
    &&& rule.kind is Flag || !flagged
    &&& !(rule.kind is Flag || rule.kind is Number) || values.len() == 0
    &&& rule.kind is Number || number is None
    &&& match rule.kind {
        Kind::Text => values.len() <= 1,
        Kind::NonEmpty => values.len() <= 1 && (values.len() == 1 ==> values[0].len() > 0),
        Kind::NonEmptyList => forall|i: int|
            0 <= i < values.len() ==> (#[trigger] values[i]).len() > 0,
        Kind::Number { most } => number matches Some(number) ==> 0 <= number <= most,
        Kind::Choice { first, second, third } => values.len() <= 1 && (values.len() == 1 ==> {
            ||| values[0] == first@
            ||| values[0] == second@
            ||| values[0] == third@
        }),
        Kind::Shares => forall|i: int|
            0 <= i < values.len() ==> share_of(#[trigger] values[i]) is Ok,
        Kind::Entries => forall|i: int|
            0 <= i < values.len() ==> environment_of(#[trigger] values[i]) is Ok,
        Kind::Flag | Kind::TextList | Kind::Trailing => true,
    }
}

/// Whether two arguments shut each other out.
pub open spec fn at_odds(one: ArgumentRule, other: ArgumentRule) -> bool {
    one.conflicts matches Some(name) && name@ == other.name@
}

/// Whether what was found at one level keeps to the rules of its command. What
/// is required is looked for only where no subcommand follows.
pub open spec fn level_follows(grammar: Grammar, level: Level, last: bool) -> bool {
    &&& forall|i: int|
        0 <= i < grammar.arguments.len() ==> {
            let rule = #[trigger] grammar.arguments[i];
            &&& fits(rule, level)
            &&& rule.default is Some ==> found_at(level, rule.name@)
            &&& grammar.rule.exclusive && !last && rule.default is None ==> !found_at(
                level,
                rule.name@,
            )
            &&& last && rule.required && !has_opponent(grammar, rule) ==> found_at(
                level,
                rule.name@,
            )
            &&& last ==> (rule.unless matches Some(other) ==> found_at(level, rule.name@)
                || found_at(level, other@))
        }
    &&& forall|i: int, j: int|
        #![trigger grammar.arguments[i], grammar.arguments[j]]
        0 <= i < grammar.arguments.len() && 0 <= j < grammar.arguments.len() && at_odds(
            grammar.arguments[i],
            grammar.arguments[j],
        ) && grammar.arguments[i].default is None && grammar.arguments[j].default is None ==> !(
        found_at(level, grammar.arguments[i].name@) && found_at(level, grammar.arguments[j].name@))
}

/// Whether an argument shuts out another one, or is shut out by one.
pub open spec fn has_opponent(grammar: Grammar, rule: ArgumentRule) -> bool {
    rule.conflicts is Some || exists|i: int|
        0 <= i < grammar.arguments.len() && at_odds(#[trigger] grammar.arguments[i], rule)
}

/// Whether what was found on a command line keeps to a grammar, level by level.
pub open spec fn follows(grammar: Grammar, levels: Seq<Level>) -> bool
    decreases levels.len(),
{
    &&& levels.len() > 0
    &&& level_follows(grammar, levels[0], levels.len() == 1)
    &&& grammar.rule.subcommand_required ==> levels.len() > 1
    &&& levels.len() > 1 ==> exists|i: int|
        0 <= i < grammar.subcommands.len() && (#[trigger] grammar.subcommands[i]).rule.name@
            == levels[1].name && follows(grammar.subcommands[i], levels.skip(1))
}

/// What a command holds: its rule, its arguments and its subcommands, in the
/// order in which they were added.
pub uninterp spec fn grammar_of(command: clap::Command) -> Grammar;

/// What `clap` holds of a command line, level by level: what was found for the
/// command, for its subcommand, and so on. The name at the first level is the one
/// by which these matches were reached: it stands beside them where they are a
/// subcommand's.
pub uninterp spec fn levels(matches: clap::ArgMatches) -> Seq<Level>;

/// What `clap::Command::try_get_matches_from` finds on a command line, the
/// program's name first, or the error that it reports.
pub uninterp spec fn reading(grammar: Grammar, words: Seq<Seq<char>>) -> Result<
    Seq<Level>,
    UsageView,
>;

/// The long help text that `clap::Command::render_long_help` writes.
pub uninterp spec fn long_help_text(grammar: Grammar) -> Seq<char>;

/// A grammar with one more argument.
pub open spec fn with_argument(grammar: Grammar, rule: ArgumentRule) -> Grammar {
    Grammar { arguments: grammar.arguments.push(rule), ..grammar }
}

/// A grammar with one more subcommand.
pub open spec fn with_subcommand(grammar: Grammar, subcommand: Grammar) -> Grammar {
    Grammar { subcommands: grammar.subcommands.push(subcommand), ..grammar }
}

/// A command on its own: `clap::Command::new` and the settings that a rule
/// names. A command that needs a subcommand shows its help when it is given
/// nothing at all.
#[verifier::external_body]
pub(crate) fn new_command(rule: CommandRule) -> (command: clap::Command)
    ensures
        grammar_of(command) == (Grammar {
            rule,
            versions: None,
            arguments: Seq::empty(),
            subcommands: Seq::empty(),
        }),
{
    clap::Command::new(rule.name)
        .about(rule.about)
        .args_conflicts_with_subcommands(rule.exclusive)
        .subcommand_negates_reqs(rule.negates_requirements)
        .subcommand_required(rule.subcommand_required)
        .arg_required_else_help(rule.subcommand_required)
}

/// `clap::Command::version` and `long_version`: the versions that the command
/// shows.
#[verifier::external_body]
pub(crate) fn add_versions(
    command: clap::Command,
    short: &'static str,
    long: &'static str,
) -> (built: clap::Command)
    ensures
        grammar_of(built) == (Grammar { versions: Some((short, long)), ..grammar_of(command) }),
{
    command.version(short).long_version(long)
}

/// `clap::Command::subcommand`: one more subcommand.
#[verifier::external_body]
pub(crate) fn add_subcommand(command: clap::Command, subcommand: clap::Command) -> (built:
    clap::Command)
    ensures
        grammar_of(built) == with_subcommand(grammar_of(command), grammar_of(subcommand)),
{
    command.subcommand(subcommand)
}

/// `clap::Command::arg` with an `ArgAction::SetTrue` argument: one more flag.
#[verifier::external_body]
fn add_flag(command: clap::Command, rule: ArgumentRule) -> (built: clap::Command)
    requires
        rule.kind is Flag,
    ensures
        grammar_of(built) == with_argument(grammar_of(command), rule),
{
    let flag = clap::Arg::new(rule.name)
        .long(rule.long)
        .help(rule.help)
        .hide_short_help(rule.hidden)
        .hide_long_help(rule.hidden)
        .required(rule.required)
        .conflicts_with_all(rule.conflicts)
        .required_unless_present_any(rule.unless)
        .action(clap::ArgAction::SetTrue);
    command.arg(flag)
}

/// `clap::Command::arg` with an argument that takes texts: one, or one each time
/// it is given, or all that follow.
#[verifier::external_body]
fn add_text(command: clap::Command, rule: ArgumentRule) -> (built: clap::Command)
    requires
        rule.kind is Text || rule.kind is TextList || rule.kind is Trailing,
    ensures
        grammar_of(built) == with_argument(grammar_of(command), rule),
{
    let text = clap::Arg::new(rule.name).long(rule.long).value_name(rule.value_name).help(rule.help)
        .hide_short_help(rule.hidden).hide_long_help(rule.hidden)
        .required(rule.required).conflicts_with_all(rule.conflicts)
        .required_unless_present_any(rule.unless).default_value(rule.default)
        .value_parser(clap::builder::StringValueParser::new());
    command.arg(match rule.kind {
        Kind::TextList => text.action(clap::ArgAction::Append),
        Kind::Trailing => text.action(clap::ArgAction::Append).num_args(1..).trailing_var_arg(true),
        _ => text.action(clap::ArgAction::Set),
    })
}

/// `clap::Command::arg` with an argument that takes texts which are not empty:
/// one, or one each time it is given.
#[verifier::external_body]
fn add_non_empty(command: clap::Command, rule: ArgumentRule) -> (built: clap::Command)
    requires
        rule.kind is NonEmpty || rule.kind is NonEmptyList,
    ensures
        grammar_of(built) == with_argument(grammar_of(command), rule),
{
    let text = clap::Arg::new(rule.name).long(rule.long).value_name(rule.value_name).help(rule.help)
        .hide_short_help(rule.hidden).hide_long_help(rule.hidden)
        .required(rule.required).conflicts_with_all(rule.conflicts)
        .required_unless_present_any(rule.unless).default_value(rule.default)
        .value_parser(clap::builder::NonEmptyStringValueParser::new());
    command.arg(match rule.kind {
        Kind::NonEmptyList => text.action(clap::ArgAction::Append),
        _ => text.action(clap::ArgAction::Set),
    })
}

/// `clap::Command::arg` with an argument that takes one number from zero up to
/// `most`.
#[verifier::external_body]
fn add_number(command: clap::Command, rule: ArgumentRule, most: i64) -> (built: clap::Command)
    requires
        rule.kind == (Kind::Number { most }),
    ensures
        grammar_of(built) == with_argument(grammar_of(command), rule),
{
    let number = clap::Arg::new(rule.name).long(rule.long).value_name(rule.value_name)
        .help(rule.help).hide_short_help(rule.hidden).hide_long_help(rule.hidden)
        .required(rule.required).conflicts_with_all(rule.conflicts)
        .required_unless_present_any(rule.unless).default_value(rule.default)
        .action(clap::ArgAction::Set)
        .value_parser(clap::builder::RangedI64ValueParser::<i64>::new().range(0..=most));
    command.arg(number)
}

/// `clap::Command::arg` with an argument that takes one of three words.
#[verifier::external_body]
fn add_choice(
    command: clap::Command,
    rule: ArgumentRule,
    choices: [&'static str; 3],
) -> (built: clap::Command)
    requires
        rule.kind == (Kind::Choice { first: choices[0], second: choices[1], third: choices[2] }),
    ensures
        grammar_of(built) == with_argument(grammar_of(command), rule),
{
    let choice = clap::Arg::new(rule.name).long(rule.long).value_name(rule.value_name)
        .help(rule.help).hide_short_help(rule.hidden).hide_long_help(rule.hidden)
        .required(rule.required).conflicts_with_all(rule.conflicts)
        .required_unless_present_any(rule.unless).default_value(rule.default)
        .action(clap::ArgAction::Set)
        .value_parser(clap::builder::PossibleValuesParser::new(choices));
    command.arg(choice)
}

/// `clap::Command::arg` with an argument whose values must be pairs: of a tag
/// and a directory, or of a name and a value.
#[verifier::external_body]
fn add_pairs(command: clap::Command, rule: ArgumentRule) -> (built: clap::Command)
    requires
        rule.kind is Shares || rule.kind is Entries,
    ensures
        grammar_of(built) == with_argument(grammar_of(command), rule),
{
    let pairs = clap::Arg::new(rule.name).long(rule.long).value_name(rule.value_name)
        .help(rule.help).hide_short_help(rule.hidden).hide_long_help(rule.hidden)
        .required(rule.required).conflicts_with_all(rule.conflicts)
        .required_unless_present_any(rule.unless).default_value(rule.default)
        .action(clap::ArgAction::Append);
    command.arg(match rule.kind {
        Kind::Shares => pairs.value_parser(share_text),
        _ => pairs.value_parser(entry_text),
    })
}

/// `clap::Command::try_get_matches_from`: reads a command line. What comes out
/// depends on the grammar and the words alone. What is found keeps to the
/// grammar: values are of the kind that their argument takes, arguments that
/// conflict are not given together, what is required is there, and a subcommand
/// is one of the grammar's. `clap` refuses a grammar that is not sound by a
/// panic.
#[verifier::external_body]
pub(crate) fn read_words(command: clap::Command, words: Vec<String>) -> (found: Result<
    clap::ArgMatches,
    UsageError,
>)
    requires
        sound(grammar_of(command)),
    ensures
        match found {
            Ok(matches) => reading(grammar_of(command), texts(words@)) == Ok::<
                Seq<Level>,
                UsageView,
            >(levels(matches)) && follows(grammar_of(command), levels(matches)),
            Err(error) => reading(grammar_of(command), texts(words@)) == Err::<
                Seq<Level>,
                UsageView,
            >(error@),
        },
{
    match command.try_get_matches_from(words) {
        Ok(matches) => Ok(matches),
        Err(error) => Err(UsageError {
            kind: error.kind(),
            message: error.to_string(),
            exit_code: error.exit_code(),
        }),
    }
}

/// `clap::Command::render_long_help`: the long help text.
#[verifier::external_body]
pub(crate) fn render_help(command: clap::Command) -> (text: String)
    requires
        sound(grammar_of(command)),
    ensures
        text@ == long_help_text(grammar_of(command)),
{
    let mut command = command;
    command.render_long_help().to_string()
}

/// `clap::ArgMatches::try_get_one`: whether a flag was given.
#[verifier::external_body]
pub(crate) fn flag_in(matches: &clap::ArgMatches, name: &str) -> (given: bool)
    ensures
        given == levels(*matches)[0].flags.contains(name@),
{
    matches!(matches.try_get_one::<bool>(name), Ok(Some(true)))
}

/// `clap::ArgMatches::try_get_many`: the texts that were found for an argument.
#[verifier::external_body]
pub(crate) fn texts_in(matches: &clap::ArgMatches, name: &str) -> (found: Vec<String>)
    ensures
        texts(found@) == texts_at(levels(*matches)[0], name@),
{
    match matches.try_get_many::<String>(name) {
        Ok(Some(values)) => values.cloned().collect(),
        _ => Vec::new(),
    }
}

/// `clap::ArgMatches::try_get_one`: the number that was found for an argument.
#[verifier::external_body]
pub(crate) fn number_in(matches: &clap::ArgMatches, name: &str) -> (found: Option<i64>)
    ensures
        match found {
            Some(number) => number_at(levels(*matches)[0], name@) == Some(number as int),
            None => number_at(levels(*matches)[0], name@) is None,
        },
{
    match matches.try_get_one::<i64>(name) {
        Ok(found) => found.copied(),
        Err(_) => None,
    }
}

/// `clap::ArgMatches::remove_subcommand`: the subcommand that was found, by its
/// name, and what was found for it.
#[verifier::external_body]
pub(crate) fn subcommand_in(matches: clap::ArgMatches) -> (found: Option<
    (String, clap::ArgMatches),
>)
    ensures
        match found {
            Some((name, rest)) => levels(matches).len() > 1 && name@ == levels(matches)[1].name
                && levels(rest) == levels(matches).skip(1),
            None => levels(matches).len() <= 1,
        },
{
    let mut matches = matches;
    matches.remove_subcommand()
}

/// A share's text, or why it is none.
fn share_text(text: &str) -> (checked: Result<String, String>)
    ensures
        checked is Ok <==> share_of(text@) is Ok,
        checked matches Ok(kept) ==> kept@ == text@,
{
    match WritableShare::from_str(text) {
        Ok(_) => Ok(text.to_owned()),
        Err(error) => Err(error.message().to_owned()),
    }
}

/// An environment entry's text, or why it is none.
fn entry_text(text: &str) -> (checked: Result<String, String>)
    ensures
        checked is Ok <==> environment_of(text@) is Ok,
        checked matches Ok(kept) ==> kept@ == text@,
{
    match GuestEnvironment::from_str(text) {
        Ok(_) => Ok(text.to_owned()),
        Err(error) => Err(error.message().to_owned()),
    }
}

/// The subcommand that was found keeps to the grammar of its name.
pub proof fn lemma_chosen(grammar: Grammar, levels: Seq<Level>, k: int)
    requires
        sound(grammar),
        follows(grammar, levels),
        levels.len() > 1,
        0 <= k < grammar.subcommands.len(),
        grammar.subcommands[k].rule.name@ == levels[1].name,
    ensures
        follows(grammar.subcommands[k], levels.skip(1)),
{
    let i = choose|i: int|
        0 <= i < grammar.subcommands.len() && (#[trigger] grammar.subcommands[i]).rule.name@
            == levels[1].name && follows(grammar.subcommands[i], levels.skip(1));
    if i < k {
        assert(grammar.subcommands[i].rule.name@ != grammar.subcommands[k].rule.name@);
    } else if k < i {
        assert(grammar.subcommands[k].rule.name@ != grammar.subcommands[i].rule.name@);
    }
}

/// The subcommand that was found is one of the grammar's.
pub proof fn lemma_known(grammar: Grammar, levels: Seq<Level>) -> (k: int)
    requires
        follows(grammar, levels),
        levels.len() > 1,
    ensures
        0 <= k < grammar.subcommands.len(),
        grammar.subcommands[k].rule.name@ == levels[1].name,
{
    choose|i: int|
        0 <= i < grammar.subcommands.len() && (#[trigger] grammar.subcommands[i]).rule.name@
            == levels[1].name && follows(grammar.subcommands[i], levels.skip(1))
}

/// A required argument that takes texts has one where no subcommand can follow.
pub proof fn lemma_required(grammar: Grammar, levels: Seq<Level>, k: int)
    requires
        follows(grammar, levels),
        grammar.subcommands.len() == 0,
        0 <= k < grammar.arguments.len(),
        grammar.arguments[k].required,
        !has_opponent(grammar, grammar.arguments[k]),
        !(grammar.arguments[k].kind is Flag),
        !(grammar.arguments[k].kind is Number),
    ensures
        texts_at(levels[0], grammar.arguments[k].name@).len() > 0,
{
    assert(fits(grammar.arguments[k], levels[0]));
}

/// Adds an argument to a command.
pub(crate) fn add_argument(command: clap::Command, rule: ArgumentRule) -> (built: clap::Command)
    ensures
        grammar_of(built) == with_argument(grammar_of(command), rule),
{
    match rule.kind {
        Kind::Flag => add_flag(command, rule),
        Kind::Text | Kind::TextList | Kind::Trailing => add_text(command, rule),
        Kind::NonEmpty | Kind::NonEmptyList => add_non_empty(command, rule),
        Kind::Number { most } => add_number(command, rule, most),
        Kind::Choice { first, second, third } => add_choice(command, rule, [first, second, third]),
        Kind::Shares | Kind::Entries => add_pairs(command, rule),
    }
}

} // verus!
