//! The command line of the fuzzer.
use clap::{Arg, Command};
use vstd::prelude::*;

verus! {

/// One argument that a command takes. Without a short and a long form it is known by its
/// position.
#[derive(Debug)]
pub struct ArgSpec {
    pub id: &'static str,
    pub short: Option<char>,
    pub long: Option<&'static str>,
    pub help: Option<&'static str>,
    pub default_value: Option<&'static str>,
}

/// A command and the arguments that it takes, each with one value.
#[derive(Debug)]
pub struct CommandSpec {
    pub name: &'static str,
    pub version: &'static str,
    pub author: &'static str,
    pub about: &'static str,
    pub args: Vec<ArgSpec>,
}

/// The texts of an [`ArgSpec`].
pub struct ArgModel {
    pub id: Seq<char>,
    pub short: Option<char>,
    pub long: Option<Seq<char>>,
    pub help: Option<Seq<char>>,
    pub default_value: Option<Seq<char>>,
}

/// The texts of a [`CommandSpec`].
pub struct CommandModel {
    pub name: Seq<char>,
    pub version: Seq<char>,
    pub author: Seq<char>,
    pub about: Seq<char>,
    pub args: Seq<ArgModel>,
}

pub open spec fn opt_text(text: Option<&'static str>) -> Option<Seq<char>> {
    match text {
        Some(text) => Some(text@),
        None => None,
    }
}

impl View for ArgSpec {
    type V = ArgModel;

    open spec fn view(&self) -> ArgModel {
        ArgModel {
            id: self.id@,
            short: self.short,
            long: opt_text(self.long),
            help: opt_text(self.help),
            default_value: opt_text(self.default_value),
        }
    }
}

impl View for CommandSpec {
    type V = CommandModel;

    open spec fn view(&self) -> CommandModel {
        CommandModel {
            name: self.name@,
            version: self.version@,
            author: self.author@,
            about: self.about@,
            args: self.args@.map_values(|arg: ArgSpec| arg@),
        }
    }
}

/// The name that the fuzzer goes by.
pub const PROGRAM_NAME: &'static str = "mopt_cmplog";

/// The version of the fuzzer.
pub const PROGRAM_VERSION: &'static str = "0.1.0";

/// How long one execution may take, in milliseconds, where nothing else is asked for.
pub const DEFAULT_TIMEOUT: &'static str = "1200";

/// An argument that is given by a short or a long flag.
pub open spec fn flag(id: Seq<char>, short: char, long: Seq<char>, help: Seq<char>) -> ArgModel {
    ArgModel { id, short: Some(short), long: Some(long), help: Some(help), default_value: None }
}

/// The command line that the fuzzer takes.
pub open spec fn fuzzer_command() -> CommandModel {
    CommandModel {
        name: PROGRAM_NAME@,
        version: PROGRAM_VERSION@,
        author: "AFLplusplus team"@,
        about: "LibAFL-based fuzzer for Fuzzbench"@,
        args: seq![
            flag("out"@, 'o', "output"@, "The directory to place finds in ('corpus')"@),
            flag("in"@, 'i', "input"@, "The directory to read initial inputs from ('seeds')"@),
            flag(
                "tokens"@,
                'x',
                "tokens"@,
                "A file to read tokens from, to be used during fuzzing"@,
            ),
            ArgModel {
                default_value: Some(DEFAULT_TIMEOUT@),
                ..flag(
                    "timeout"@,
                    't',
                    "timeout"@,
                    "Timeout for each individual execution, in milliseconds"@,
                )
            },
            ArgModel {
                id: "remaining"@,
                short: None,
                long: None,
                help: None,
                default_value: None,
            },
        ],
    }
}

/// The command line that the fuzzer takes.
pub fn command() -> (r: CommandSpec)
    ensures
        r@ == fuzzer_command(),
{
    let mut args: Vec<ArgSpec> = Vec::new();
    args.push(
        ArgSpec {
            id: "out",
            short: Some('o'),
            long: Some("output"),
            help: Some("The directory to place finds in ('corpus')"),
            default_value: None,
        },
    );
    args.push(
        ArgSpec {
            id: "in",
            short: Some('i'),
            long: Some("input"),
            help: Some("The directory to read initial inputs from ('seeds')"),
            default_value: None,
        },
    );
    args.push(
        ArgSpec {
            id: "tokens",
            short: Some('x'),
            long: Some("tokens"),
            help: Some("A file to read tokens from, to be used during fuzzing"),
            default_value: None,
        },
    );
    args.push(
        ArgSpec {
            id: "timeout",
            short: Some('t'),
            long: Some("timeout"),
            help: Some("Timeout for each individual execution, in milliseconds"),
            default_value: Some(DEFAULT_TIMEOUT),
        },
    );
    args.push(
        ArgSpec { id: "remaining", short: None, long: None, help: None, default_value: None },
    );
    let command = CommandSpec {
        name: PROGRAM_NAME,
        version: PROGRAM_VERSION,
        author: "AFLplusplus team",
        about: "LibAFL-based fuzzer for Fuzzbench",
        args,
    };
    assert(command@.args == fuzzer_command().args);
    command
}

/// The texts of a list of strings.
pub open spec fn texts(list: Seq<String>) -> Seq<Seq<char>> {
    list.map_values(|s: String| s@)
}

/// The texts of the values of some arguments.
pub open spec fn value_texts(values: Seq<Option<Vec<String>>>) -> Seq<Option<Seq<Seq<char>>>> {
    values.map_values(
        |v: Option<Vec<String>>|
            match v {
                Some(list) => Some(texts(list@)),
                None => None,
            },
    )
}

/// What clap finds on a command line: for each argument of the command the values that it
/// has, if it has any. `None` for a command line that it turns down.
pub uninterp spec fn clap_values(command: CommandModel, argv: Seq<Seq<char>>) -> Option<
    Seq<Option<Seq<Seq<char>>>>,
>;

/// Calls `clap::Command::try_get_matches_from` on `argv`, the name of the program first,
/// for a `Command` built from `command` as it stands, and `ArgMatches::get_many` for each
/// of its arguments.
///
/// Whether the line is accepted, and with which values, depends on the command and the line
/// alone. An argument with a default always has a value. What clap says against a line that
/// it turns down is left unsaid: it is given as text for people to read.
#[verifier::external_body]
fn clap_parse(command: &CommandSpec, argv: &Vec<String>) -> (r: Result<
    Vec<Option<Vec<String>>>,
    String,
>)
    requires
        command@ == fuzzer_command(),
    ensures
        r is Ok <==> clap_values(command@, texts(argv@)) is Some,
        r matches Ok(values) ==> {
            &&& value_texts(values@) == clap_values(command@, texts(argv@))->0
            &&& values@.len() == command.args@.len()
            &&& forall|i: int|
                0 <= i < values@.len() && (#[trigger] command.args@[i]).default_value is Some ==> {
                    &&& values@[i] is Some
                    &&& values@[i]->0@.len() > 0
                }
        },
{
    let args = command.args.iter().map(|a| {
        Arg::new(a.id).short(a.short).long(a.long).help(a.help).default_value(a.default_value)
    });
    let built = Command::new(command.name).version(command.version).author(command.author);
    let matches = built.about(command.about).args(args).try_get_matches_from(argv);
    let found = matches.map_err(|e| format!("{:?}", e))?;
    let values = |a: &ArgSpec| found.get_many::<String>(a.id).map(|v| v.cloned().collect());
    Ok(command.args.iter().map(values).collect())
}

/// What the command line asks for.
#[derive(Debug)]
pub struct CliArgs {
    /// The directory to place finds in.
    pub out: Option<String>,
    /// The directory to read initial inputs from.
    pub input: Option<String>,
    /// The dictionary file.
    pub tokens: Option<String>,
    /// How long one execution may take, as it was written.
    pub timeout: String,
    /// Inputs to execute once, in place of fuzzing.
    pub remaining: Vec<String>,
}

/// The texts of a [`CliArgs`].
pub struct CliModel {
    pub out: Option<Seq<char>>,
    pub input: Option<Seq<char>>,
    pub tokens: Option<Seq<char>>,
    pub timeout: Seq<char>,
    pub remaining: Seq<Seq<char>>,
}

pub open spec fn opt_string(text: Option<String>) -> Option<Seq<char>> {
    match text {
        Some(text) => Some(text@),
        None => None,
    }
}

impl View for CliArgs {
    type V = CliModel;

    open spec fn view(&self) -> CliModel {
        CliModel {
            out: opt_string(self.out),
            input: opt_string(self.input),
            tokens: opt_string(self.tokens),
            timeout: self.timeout@,
            remaining: texts(self.remaining@),
        }
    }
}

/// The first value of an argument.
pub open spec fn first_value(values: Option<Seq<Seq<char>>>) -> Option<Seq<char>> {
    match values {
        Some(list) if list.len() > 0 => Some(list[0]),
        _ => None,
    }
}

/// All values of an argument.
pub open spec fn all_values(values: Option<Seq<Seq<char>>>) -> Seq<Seq<char>> {
    match values {
        Some(list) => list,
        None => Seq::empty(),
    }
}

/// There are values for the five arguments of the fuzzer, and a timeout among them.
pub open spec fn complete(values: Seq<Option<Seq<Seq<char>>>>) -> bool {
    values.len() == 5 && first_value(values[3]) is Some
}

/// What the values of the five arguments of the fuzzer ask for.
pub open spec fn asked_for(values: Seq<Option<Seq<Seq<char>>>>) -> CliModel {
    CliModel {
        out: first_value(values[0]),
        input: first_value(values[1]),
        tokens: first_value(values[2]),
        timeout: first_value(values[3])->0,
        remaining: all_values(values[4]),
    }
}

fn take_first(values: Option<Vec<String>>) -> (r: Option<String>)
    ensures
        opt_string(r) == first_value(
            match values {
                Some(list) => Some(texts(list@)),
                None => None,
            },
        ),
{
    match values {
        Some(mut list) => {
            if list.len() > 0 {
                Some(list.swap_remove(0))
            } else {
                None
            }
        },
        None => None,
    }
}

impl CliArgs {
    /// Sorts out the values that were found for the arguments of [`command`].
    pub fn from_values(values: Vec<Option<Vec<String>>>) -> (r: CliArgs)
        requires
            complete(value_texts(values@)),
        ensures
            r@ == asked_for(value_texts(values@)),
            match values@[0] {
                Some(list) if list@.len() > 0 => r.out is Some && r.out->0@ == list@[0]@,
                _ => r.out is None,
            },
            match values@[1] {
                Some(list) if list@.len() > 0 => r.input is Some && r.input->0@ == list@[0]@,
                _ => r.input is None,
            },
            match values@[2] {
                Some(list) if list@.len() > 0 => r.tokens is Some && r.tokens->0@ == list@[0]@,
                _ => r.tokens is None,
            },
            r.timeout@ == values@[3]->0@[0]@,
            match values@[4] {
                Some(list) => r.remaining@.len() == list@.len() && forall|i: int|
                    0 <= i < list@.len() ==> (#[trigger] r.remaining@[i])@ == list@[i]@,
                None => r.remaining@.len() == 0,
            },
    {
        let ghost all = value_texts(values@);
        let mut values = values;
        let remaining = match values.pop().unwrap() {
            Some(list) => list,
            None => Vec::new(),
        };
        assert(texts(remaining@) == all_values(all[4]));
        let timeout = take_first(values.pop().unwrap()).unwrap();
        let tokens = take_first(values.pop().unwrap());
        let input = take_first(values.pop().unwrap());
        let out = take_first(values.pop().unwrap());
        CliArgs { out, input, tokens, timeout, remaining }
    }

    /// Reads a command line, the name of the program first. A line that is turned down
    /// gives what there is to say against it.
    pub fn parse(argv: &Vec<String>) -> (r: Result<CliArgs, String>)
        ensures
            match clap_values(fuzzer_command(), texts(argv@)) {
                Some(values) => r is Ok && r->Ok_0@ == asked_for(values),
                None => r is Err,
            },
    {
        let command = command();
        assert(command@.args.len() == fuzzer_command().args.len());
        assert(command@.args[3] == command.args@[3]@);
        let values = match clap_parse(&command, argv) {
            Ok(values) => values,
            Err(e) => return Err(e),
        };
        Ok(CliArgs::from_values(values))
    }
}

/// The names of the arguments differ in their lengths.
proof fn lemma_names_differ()
    ensures
        "out"@.len() == 3,
        "in"@.len() == 2,
        "tokens"@.len() == 6,
        "timeout"@.len() == 7,
        "remaining"@.len() == 9,
        forall|i: int|
            0 <= i < 5 ==> (#[trigger] fuzzer_command().args[i]).id == (if i == 0 {
                "out"@
            } else if i == 1 {
                "in"@
            } else if i == 2 {
                "tokens"@
            } else if i == 3 {
                "timeout"@
            } else {
                "remaining"@
            }),
{
    reveal_strlit("out");
    reveal_strlit("in");
    reveal_strlit("tokens");
    reveal_strlit("timeout");
    reveal_strlit("remaining");
}

/// A value that was given for an argument is the value that is found under its name, whatever
/// the other arguments are, and where none was given none is found.
///
/// The arguments go by their names in [`fuzzer_command`], so this also says that none of them
/// is taken for another.
pub proof fn lemma_a_value_is_found_under_its_name(
    values: Seq<Option<Seq<Seq<char>>>>,
    i: int,
)
    requires
        values.len() == fuzzer_command().args.len(),
        0 <= i < values.len(),
    ensures
        ({
            let id = fuzzer_command().args[i].id;
            let found = asked_for(values);
            let given = values[i] is Some && values[i]->0.len() > 0;
            &&& id == "out"@ ==> {
                &&& given ==> found.out == Some(values[i]->0[0])
                &&& !given ==> found.out is None
            }
            &&& id == "in"@ ==> {
                &&& given ==> found.input == Some(values[i]->0[0])
                &&& !given ==> found.input is None
            }
            &&& id == "tokens"@ ==> {
                &&& given ==> found.tokens == Some(values[i]->0[0])
                &&& !given ==> found.tokens is None
            }
            &&& id == "timeout"@ ==> (given ==> found.timeout == values[i]->0[0])
            &&& id == "remaining"@ ==> {
                &&& given ==> found.remaining == values[i]->0
                &&& !given ==> found.remaining.len() == 0
            }
        }),
{
    lemma_names_differ();
    assert(fuzzer_command().args[i].id.len() > 0);
}

/// The names of the arguments, in the order that their values come in, and the texts that a
/// call for help shows.
pub proof fn lemma_arguments_in_their_order(r: CommandSpec)
    requires
        call_ensures(command, (), r),
    ensures
        r.name@ == "mopt_cmplog"@,
        r.version@ == "0.1.0"@,
        r.author@ == "AFLplusplus team"@,
        r.about@ == "LibAFL-based fuzzer for Fuzzbench"@,
        r@.args.len() == 5,
        r@.args[0].id == "out"@,
        r@.args[1].id == "in"@,
        r@.args[2].id == "tokens"@,
        r@.args[3].id == "timeout"@,
        r@.args[4].id == "remaining"@,
        r@.args[0].help == Some("The directory to place finds in ('corpus')"@),
        r@.args[1].help == Some("The directory to read initial inputs from ('seeds')"@),
        r@.args[2].help == Some("A file to read tokens from, to be used during fuzzing"@),
        r@.args[3].help == Some("Timeout for each individual execution, in milliseconds"@),
        r@.args[4].help is None,
{
}

/// No two arguments of the fuzzer can be taken for one another, nor for the flags that ask
/// for help and for the version; all but one are given by a flag, and just the timeout has a
/// value when it is not given.
pub proof fn lemma_arguments_are_told_apart(i: int, j: int)
    requires
        0 <= i < 5,
        0 <= j < 5,
        i != j,
    ensures
        ({
            let a = fuzzer_command().args[i];
            let b = fuzzer_command().args[j];
            &&& a.id != b.id
            &&& a.short is Some ==> a.short != b.short && a.short != Some('h') && a.short != Some(
                'V',
            )
            &&& a.long is Some ==> a.long != b.long && a.long != Some("help"@) && a.long != Some(
                "version"@,
            )
            &&& a.short is Some <==> a.long is Some
            &&& a.short is Some <==> a.help is Some
            &&& a.short is None <==> a.id == "remaining"@
            &&& a.default_value == (if a.id == "timeout"@ {
                Some("1200"@)
            } else {
                None
            })
            &&& a.id == "out"@ ==> a.short == Some('o') && a.long == Some("output"@)
            &&& a.id == "in"@ ==> a.short == Some('i') && a.long == Some("input"@)
            &&& a.id == "tokens"@ ==> a.short == Some('x') && a.long == Some("tokens"@)
            &&& a.id == "timeout"@ ==> a.short == Some('t') && a.long == Some("timeout"@)
        }),
{
    lemma_names_differ();
    reveal_strlit("tokens");
    reveal_strlit("output");
    reveal_strlit("input");
    reveal_strlit("timeout");
    reveal_strlit("help");
    reveal_strlit("version");
    assert("output"@[0] == 'o');
    assert("tokens"@[0] == 't');
    assert("timeout"@[0] == 't');
    assert("version"@[0] == 'v');
    assert("help"@.len() == 4);
    assert(fuzzer_command().args[i].id.len() > 0);
    assert(fuzzer_command().args[j].id.len() > 0);
}

/// What [`CliArgs::from_values`] makes of one argument does not depend on the others: two
/// calls whose values agree on an argument give the same for it.
pub proof fn lemma_arguments_do_not_interfere(
    values: Vec<Option<Vec<String>>>,
    others: Vec<Option<Vec<String>>>,
    r: CliArgs,
    s: CliArgs,
)
    requires
        values@.len() == 5,
        others@.len() == 5,
        call_ensures(CliArgs::from_values, (values,), r),
        call_ensures(CliArgs::from_values, (others,), s),
    ensures
        values@[0] == others@[0] ==> r@.out == s@.out,
        values@[1] == others@[1] ==> r@.input == s@.input,
        values@[2] == others@[2] ==> r@.tokens == s@.tokens,
        values@[3] == others@[3] ==> r@.timeout == s@.timeout,
        values@[4] == others@[4] ==> r@.remaining == s@.remaining,
        values@[2] matches Some(list) ==> list@.len() > 0 ==> r.tokens is Some && r.tokens->0@
            == list@[0]@,
        values@[0] matches Some(list) ==> list@.len() > 0 ==> r.out is Some && r.out->0@
            == list@[0]@,
        values@[1] matches Some(list) ==> list@.len() > 0 ==> r.input is Some && r.input->0@
            == list@[0]@,
        values@[3] matches Some(list) ==> list@.len() > 0 ==> r.timeout@ == list@[0]@,
        values@[4] matches Some(list) ==> r.remaining@.len() == list@.len() && forall|i: int|
            0 <= i < list@.len() ==> (#[trigger] r.remaining@[i])@ == list@[i]@,
{
}

/// What [`CliArgs::parse`] gives for a line that clap accepts is what clap found for each
/// argument, and a line is turned down exactly where clap turns it down.
pub proof fn lemma_parsing_keeps_what_clap_found(argv: &Vec<String>, r: Result<CliArgs, String>)
    requires
        call_ensures(CliArgs::parse, (argv,), r),
    ensures
        ({
            let found = clap_values(fuzzer_command(), argv@.map_values(|s: String| s@));
            &&& r is Ok <==> found is Some
            &&& r matches Ok(args) ==> {
                &&& found->0[0] matches Some(list) ==> list.len() > 0 ==> opt_string(args.out)
                    == Some(list[0])
                &&& found->0[1] matches Some(list) ==> list.len() > 0 ==> opt_string(args.input)
                    == Some(list[0])
                &&& found->0[2] matches Some(list) ==> list.len() > 0 ==> opt_string(args.tokens)
                    == Some(list[0])
                &&& found->0[3] matches Some(list) ==> list.len() > 0 ==> args.timeout@ == list[0]
                &&& found->0[4] matches Some(list) ==> texts(args.remaining@) == list
                &&& found->0[0] is None ==> args.out is None
                &&& found->0[1] is None ==> args.input is None
                &&& found->0[2] is None ==> args.tokens is None
                &&& found->0[4] is None ==> args.remaining@.len() == 0
            }
        }),
{
    if let Ok(args) = r {
        assert(args@.remaining.len() == args.remaining@.len());
    }
}

} // verus!
