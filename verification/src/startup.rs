//! From the command line to the first thing that is done.
//!
//! Each [`Step`] either asks the caller for something about a directory, and goes on with
//! the answer, or says how the program continues.
use vstd::prelude::*;

use crate::cli::CliArgs;
use crate::timeout::{parse_millis, Timeout};

verus! {

/// Where the corpus is kept, below the output directory.
pub const CORPUS_DIR: &'static str = "queue";

/// Where crashes are kept, below the output directory.
pub const OBJECTIVE_DIR: &'static str = "crashes";

/// The comparisons of an input are logged in a run of their own, which may take this many
/// times as long.
pub const TRACING_FACTOR: u32 = 10;

/// The binary logarithm of the most mutations that are stacked on one input.
pub const MAX_STACK_POW: usize = 7;

/// The number of swarms that compete in the choice of mutations.
pub const SWARM_NUM: usize = 5;

/// All that fuzzing needs to know.
#[derive(Debug)]
pub struct FuzzPlan {
    pub out_dir: String,
    /// The directory of the corpus, below `out_dir`.
    pub corpus: &'static str,
    /// The directory of the crashes, below `out_dir`.
    pub objectives: &'static str,
    pub seed_dir: String,
    pub token_file: Option<String>,
    pub timeout_ms: u64,
}

impl FuzzPlan {
    /// How long one execution may take.
    pub fn timeout(&self) -> (r: Timeout)
        ensures
            r.well_formed(),
            r.millis() == self.timeout_ms,
            r.secs == self.timeout_ms / 1000,
            r.subsec_millis == self.timeout_ms % 1000,
    {
        Timeout::from_millis(self.timeout_ms)
    }

    /// How long an execution may take in which comparisons are logged.
    pub fn tracing_timeout(&self) -> (r: Timeout)
        ensures
            r.well_formed(),
            r.millis() == TRACING_FACTOR * self.timeout_ms,
            r.subsec_millis < 1000,
            r.secs * 1000 + r.subsec_millis == 10 * self.timeout_ms,
    {
        Timeout::from_millis(self.timeout_ms).times(TRACING_FACTOR).unwrap()
    }
}

/// Why the program ends without having done anything. It is said and no failure.
#[derive(Debug)]
pub enum Rejection {
    /// There is something else in the place of the output directory.
    OutDirInvalid(String),
    /// There is no directory of that name to read initial inputs from.
    InDirInvalid(String),
}

/// Why the program fails.
#[derive(Debug, Clone, Copy, PartialEq, Eq, Structural)]
pub enum Failure {
    OutputMissing,
    InputMissing,
    TimeoutInvalid,
}

impl Failure {
    pub open spec fn text(self) -> Seq<char> {
        match self {
            Failure::OutputMissing => "The --output parameter is missing"@,
            Failure::InputMissing => "The --input parameter is missing"@,
            Failure::TimeoutInvalid => "Could not parse timeout in milliseconds"@,
        }
    }

    /// What there is to say about this failure.
    pub fn message(&self) -> (r: &'static str)
        ensures
            r@ == self.text(),
            self is OutputMissing ==> r@ == "The --output parameter is missing"@,
            self is InputMissing ==> r@ == "The --input parameter is missing"@,
            self is TimeoutInvalid ==> r@ == "Could not parse timeout in milliseconds"@,
    {
        match self {
            Failure::OutputMissing => "The --output parameter is missing",
            Failure::InputMissing => "The --input parameter is missing",
            Failure::TimeoutInvalid => "Could not parse timeout in milliseconds",
        }
    }
}

/// The output directory is known, and is still to be created or looked at.
#[derive(Debug)]
pub struct OutDirPending {
    pub out: String,
    pub input: Option<String>,
    pub tokens: Option<String>,
    pub timeout: String,
}

/// The input directory is known, and is still to be looked at.
#[derive(Debug)]
pub struct InDirPending {
    pub out: String,
    pub input: String,
    pub tokens: Option<String>,
    pub timeout: String,
}

/// What is to be done next.
#[derive(Debug)]
pub enum Step {
    /// Execute these inputs once each, and end.
    RunTestcases(Vec<String>),
    /// Create the output directory; then go on with [`OutDirPending::created`].
    CreateOutDir(OutDirPending),
    /// Say that it exists, and find out whether it is a directory; then go on with
    /// [`OutDirPending::checked`].
    CheckOutDir(OutDirPending),
    /// Find out whether the input directory is one; then go on with
    /// [`InDirPending::checked`].
    CheckInDir(InDirPending),
    /// Fuzz.
    Fuzz(FuzzPlan),
    /// Say why, and end.
    Reject(Rejection),
    /// Fail.
    Fail(Failure),
}

/// The first step for a command line.
pub open spec fn begin_spec(args: CliArgs) -> Step {
    if args.remaining@.len() > 0 {
        Step::RunTestcases(args.remaining)
    } else {
        match args.out {
            Some(out) => Step::CreateOutDir(
                OutDirPending {
                    out,
                    input: args.input,
                    tokens: args.tokens,
                    timeout: args.timeout,
                },
            ),
            None => Step::Fail(Failure::OutputMissing),
        }
    }
}

/// The first step for a command line: inputs to execute come before everything else.
pub fn begin(args: CliArgs) -> (r: Step)
    ensures
        r == begin_spec(args),
        args.remaining@.len() > 0 ==> r == Step::RunTestcases(args.remaining),
        args.remaining@.len() == 0 && args.out is None ==> r == Step::Fail(Failure::OutputMissing),
        args.remaining@.len() == 0 && args.out is Some ==> {
            &&& r matches Step::CreateOutDir(pending)
            &&& pending.out == args.out->0
            &&& pending.input == args.input
            &&& pending.tokens == args.tokens
            &&& pending.timeout == args.timeout
        },
{
    if args.remaining.len() > 0 {
        return Step::RunTestcases(args.remaining);
    }
    match args.out {
        Some(out) => Step::CreateOutDir(
            OutDirPending { out, input: args.input, tokens: args.tokens, timeout: args.timeout },
        ),
        None => Step::Fail(Failure::OutputMissing),
    }
}

/// The first step for a command line as it was written, the name of the program first. A
/// line that is turned down gives what there is to say against it.
pub fn start(argv: &Vec<String>) -> (r: Result<Step, String>)
    ensures
        match crate::cli::clap_values(crate::cli::fuzzer_command(), crate::cli::texts(argv@)) {
            Some(values) => exists|args: CliArgs| {
                &&& args@ == crate::cli::asked_for(values)
                &&& r == Ok::<Step, String>(#[trigger] begin_spec(args))
            },
            None => r is Err,
        },
{
    match CliArgs::parse(argv) {
        Ok(args) => Ok(begin(args)),
        Err(text) => Err(text),
    }
}

impl OutDirPending {
    /// The step once there is an output directory.
    pub open spec fn ready_spec(self) -> Step {
        match self.input {
            Some(input) => Step::CheckInDir(
                InDirPending { out: self.out, input, tokens: self.tokens, timeout: self.timeout },
            ),
            None => Step::Fail(Failure::InputMissing),
        }
    }

    pub open spec fn created_spec(self, created: bool) -> Step {
        if created {
            self.ready_spec()
        } else {
            Step::CheckOutDir(self)
        }
    }

    pub open spec fn checked_spec(self, is_dir: bool) -> Step {
        if is_dir {
            self.ready_spec()
        } else {
            Step::Reject(Rejection::OutDirInvalid(self.out))
        }
    }

    fn ready(self) -> (r: Step)
        ensures
            r == self.ready_spec(),
            self.input is None ==> r == Step::Fail(Failure::InputMissing),
            self.input is Some ==> {
                &&& r matches Step::CheckInDir(pending)
                &&& pending.out == self.out
                &&& pending.input == self.input->0
                &&& pending.tokens == self.tokens
                &&& pending.timeout == self.timeout
            },
    {
        match self.input {
            Some(input) => Step::CheckInDir(
                InDirPending { out: self.out, input, tokens: self.tokens, timeout: self.timeout },
            ),
            None => Step::Fail(Failure::InputMissing),
        }
    }

    /// Goes on, given whether the output directory could be created.
    pub fn created(self, created: bool) -> (r: Step)
        ensures
            r == self.created_spec(created),
            !created ==> r == Step::CheckOutDir(self),
            created && self.input is None ==> r == Step::Fail(Failure::InputMissing),
            created && self.input is Some ==> {
                &&& r matches Step::CheckInDir(pending)
                &&& pending.out == self.out
                &&& pending.input == self.input->0
                &&& pending.tokens == self.tokens
                &&& pending.timeout == self.timeout
            },
    {
        if created {
            self.ready()
        } else {
            Step::CheckOutDir(self)
        }
    }

    /// Goes on, given whether what is in its place is a directory.
    pub fn checked(self, is_dir: bool) -> (r: Step)
        ensures
            r == self.checked_spec(is_dir),
            !is_dir ==> r == Step::Reject(Rejection::OutDirInvalid(self.out)),
            is_dir && self.input is None ==> r == Step::Fail(Failure::InputMissing),
            is_dir && self.input is Some ==> {
                &&& r matches Step::CheckInDir(pending)
                &&& pending.out == self.out
                &&& pending.input == self.input->0
                &&& pending.tokens == self.tokens
                &&& pending.timeout == self.timeout
            },
    {
        if is_dir {
            self.ready()
        } else {
            Step::Reject(Rejection::OutDirInvalid(self.out))
        }
    }
}

impl InDirPending {
    /// What there is to fuzz, with executions of `timeout_ms` milliseconds.
    pub open spec fn plan_spec(self, timeout_ms: u64) -> FuzzPlan {
        FuzzPlan {
            out_dir: self.out,
            corpus: CORPUS_DIR,
            objectives: OBJECTIVE_DIR,
            seed_dir: self.input,
            token_file: self.tokens,
            timeout_ms,
        }
    }

    pub open spec fn checked_spec(self, is_dir: bool) -> Step {
        if !is_dir {
            Step::Reject(Rejection::InDirInvalid(self.input))
        } else {
            match crate::timeout::millis_written(self.timeout@) {
                Some(timeout_ms) => Step::Fuzz(self.plan_spec(timeout_ms)),
                None => Step::Fail(Failure::TimeoutInvalid),
            }
        }
    }

    /// Goes on, given whether the input directory is one.
    pub fn checked(self, is_dir: bool) -> (r: Step)
        ensures
            r == self.checked_spec(is_dir),
            !is_dir ==> r == Step::Reject(Rejection::InDirInvalid(self.input)),
            is_dir ==> match crate::timeout::millis_written(self.timeout@) {
                Some(timeout_ms) => {
                    &&& r matches Step::Fuzz(plan)
                    &&& plan.out_dir == self.out
                    &&& plan.corpus@ == "queue"@
                    &&& plan.objectives@ == "crashes"@
                    &&& plan.seed_dir == self.input
                    &&& plan.token_file == self.tokens
                    &&& plan.timeout_ms == timeout_ms
                },
                None => r == Step::Fail(Failure::TimeoutInvalid),
            },
    {
        if !is_dir {
            return Step::Reject(Rejection::InDirInvalid(self.input));
        }
        match parse_millis(self.timeout.as_str()) {
            Some(timeout_ms) => Step::Fuzz(
                FuzzPlan {
                    out_dir: self.out,
                    corpus: CORPUS_DIR,
                    objectives: OBJECTIVE_DIR,
                    seed_dir: self.input,
                    token_file: self.tokens,
                    timeout_ms,
                },
            ),
            None => Step::Fail(Failure::TimeoutInvalid),
        }
    }
}

/// What a run finds out about its directories.
pub struct Answers {
    pub out_created: bool,
    pub out_is_dir: bool,
    pub in_is_dir: bool,
}

/// How far a step is from the end.
pub open spec fn remaining_questions(step: Step) -> nat {
    match step {
        Step::CreateOutDir(_) => 3,
        Step::CheckOutDir(_) => 2,
        Step::CheckInDir(_) => 1,
        _ => 0,
    }
}

/// The step that a run ends with, once all that is asked for has been answered.
pub open spec fn settled(step: Step, answers: Answers) -> Step
    decreases remaining_questions(step),
{
    match step {
        Step::CreateOutDir(pending) => settled(
            pending.created_spec(answers.out_created),
            answers,
        ),
        Step::CheckOutDir(pending) => settled(pending.checked_spec(answers.out_is_dir), answers),
        Step::CheckInDir(pending) => settled(pending.checked_spec(answers.in_is_dir), answers),
        _ => step,
    }
}

/// Every run ends in one of four ways, and this says which.
///
/// Inputs to execute win over everything else. Fuzzing starts exactly when both directories
/// were named and are there and the timeout is a number, and then with just these values.
/// Of several things that are wrong the first counts: no output directory named, something
/// else in its place, no input directory named, no such directory, no valid timeout.
pub proof fn lemma_where_startup_ends(args: CliArgs, answers: Answers)
    ensures
        ({
            let end = settled(begin_spec(args), answers);
            let has_out = answers.out_created || answers.out_is_dir;
            let millis = crate::timeout::millis_written(args.timeout@);
            &&& remaining_questions(end) == 0
            &&& args.remaining@.len() > 0 ==> end == Step::RunTestcases(args.remaining)
            &&& args.remaining@.len() == 0 ==> {
                &&& args.out is None ==> end == Step::Fail(Failure::OutputMissing)
                &&& args.out is Some && !has_out ==> end == Step::Reject(
                    Rejection::OutDirInvalid(args.out->0),
                )
                &&& args.out is Some && has_out && args.input is None ==> end == Step::Fail(
                    Failure::InputMissing,
                )
                &&& args.out is Some && has_out && args.input is Some && !answers.in_is_dir ==> end
                    == Step::Reject(Rejection::InDirInvalid(args.input->0))
                &&& args.out is Some && has_out && args.input is Some && answers.in_is_dir
                    && millis is None ==> end == Step::Fail(Failure::TimeoutInvalid)
                &&& args.out is Some && has_out && args.input is Some && answers.in_is_dir
                    && millis is Some ==> end == Step::Fuzz(
                    FuzzPlan {
                        out_dir: args.out->0,
                        corpus: CORPUS_DIR,
                        objectives: OBJECTIVE_DIR,
                        seed_dir: args.input->0,
                        token_file: args.tokens,
                        timeout_ms: millis->0,
                    },
                )
            }
        }),
{
    reveal_with_fuel(settled, 4);
}

/// What is fuzzed is what the command line asked for, whichever way the output directory came
/// to be there: the two directories, the dictionary and the timeout each come from their own
/// argument, and the timeout is the number that was read from its text.
pub proof fn lemma_fuzzing_is_what_was_asked_for(
    args: CliArgs,
    first: Step,
    created: bool,
    second: Step,
    third: Step,
    is_dir: bool,
    last: Step,
    plan: FuzzPlan,
    timeout: &str,
    millis: Option<u64>,
)
    requires
        call_ensures(begin, (args,), first),
        first is CreateOutDir,
        call_ensures(OutDirPending::created, (first->CreateOutDir_0, created), second),
        match second {
            Step::CheckOutDir(pending) => call_ensures(
                OutDirPending::checked,
                (pending, true),
                third,
            ),
            _ => third == second,
        },
        third is CheckInDir,
        call_ensures(InDirPending::checked, (third->CheckInDir_0, is_dir), last),
        last == Step::Fuzz(plan),
        call_ensures(parse_millis, (timeout,), millis),
        timeout@ == args.timeout@,
    ensures
        args.remaining@.len() == 0,
        is_dir,
        args.out == Some(plan.out_dir),
        args.input == Some(plan.seed_dir),
        args.tokens == plan.token_file,
        millis == Some(plan.timeout_ms),
{
}

/// Each question is about the directory that it is meant for: the output directory is created
/// and looked at under the name given with `--output`, and the input directory is looked at
/// under the one given with `--input`. A refusal names the directory that was asked about.
pub proof fn lemma_questions_name_their_directories(
    args: CliArgs,
    first: Step,
    created: bool,
    second: Step,
    third: Step,
    is_dir: bool,
    last: Step,
)
    requires
        call_ensures(begin, (args,), first),
        first is CreateOutDir,
        call_ensures(OutDirPending::created, (first->CreateOutDir_0, created), second),
        match second {
            Step::CheckOutDir(pending) => call_ensures(
                OutDirPending::checked,
                (pending, is_dir),
                third,
            ),
            _ => third == second,
        },
        match third {
            Step::CheckInDir(pending) => call_ensures(
                InDirPending::checked,
                (pending, is_dir),
                last,
            ),
            _ => last == third,
        },
    ensures
        args.out == Some(first->CreateOutDir_0.out),
        created <==> !(second is CheckOutDir),
        second matches Step::CheckOutDir(pending) ==> args.out == Some(pending.out),
        third matches Step::CheckInDir(pending) ==> args.input == Some(pending.input),
        last matches Step::Reject(Rejection::OutDirInvalid(name)) ==> {
            &&& args.out == Some(name)
            &&& !created
            &&& !is_dir
        },
        last matches Step::Reject(Rejection::InDirInvalid(name)) ==> {
            &&& args.input == Some(name)
            &&& !is_dir
        },
        last == Step::Fail(Failure::InputMissing) <==> args.input is None && (created || is_dir),
        !(last is RunTestcases),
        last != Step::Fail(Failure::OutputMissing),
{
}

/// The first step follows from what clap found on the command line, argument by argument.
pub proof fn lemma_the_line_decides_the_first_step(argv: &Vec<String>, r: Result<Step, String>)
    requires
        call_ensures(start, (argv,), r),
    ensures
        ({
            let found = crate::cli::clap_values(
                crate::cli::fuzzer_command(),
                argv@.map_values(|s: String| s@),
            );
            let files = found->0[4];
            let out = found->0[0];
            let runs = files is Some && files->0.len() > 0;
            let named = out is Some && out->0.len() > 0;
            &&& r is Ok <==> found is Some
            &&& r is Ok && runs ==> {
                &&& r->Ok_0 matches Step::RunTestcases(given)
                &&& given@.map_values(|s: String| s@) == files->0
            }
            &&& r is Ok && !runs && !named ==> r->Ok_0 == Step::Fail(Failure::OutputMissing)
            &&& r is Ok && !runs && named ==> {
                &&& r->Ok_0 matches Step::CreateOutDir(pending)
                &&& pending.out@ == out->0[0]
                &&& found->0[1] is None ==> pending.input is None
                &&& found->0[1] matches Some(list) ==> list.len() > 0 ==> pending.input is Some
                    && pending.input->0@ == list[0]
                &&& found->0[2] is None ==> pending.tokens is None
                &&& found->0[2] matches Some(list) ==> list.len() > 0 ==> pending.tokens is Some
                    && pending.tokens->0@ == list[0]
                &&& found->0[3] matches Some(list) ==> list.len() > 0 ==> pending.timeout@
                    == list[0]
            }
        }),
{
    let found = crate::cli::clap_values(crate::cli::fuzzer_command(), crate::cli::texts(argv@));
    if let Some(values) = found {
        let args = choose|args: CliArgs| {
            &&& args@ == crate::cli::asked_for(values)
            &&& r == Ok::<Step, String>(#[trigger] begin_spec(args))
        };
        assert(args@.remaining.len() == args.remaining@.len());
    }
}

/// Comparisons are logged in a run that may take just ten times as long as any other.
pub proof fn lemma_tracing_may_take_ten_times_as_long(plan: &FuzzPlan, r: Timeout, s: Timeout)
    requires
        call_ensures(FuzzPlan::timeout, (plan,), r),
        call_ensures(FuzzPlan::tracing_timeout, (plan,), s),
    ensures
        s.secs * 1000 + s.subsec_millis == 10 * (r.secs * 1000 + r.subsec_millis),
        r.secs * 1000 + r.subsec_millis == plan.timeout_ms,
        r.subsec_millis < 1000,
        s.subsec_millis < 1000,
{
}

/// No more than 128 mutations are stacked on one input, and five swarms compete in choosing
/// them.
pub proof fn lemma_mutations_are_limited()
    ensures
        vstd::arithmetic::power2::pow2(MAX_STACK_POW as nat) == 128,
        SWARM_NUM == 5,
{
    vstd::arithmetic::power2::lemma2_to64();
}

} // verus!
