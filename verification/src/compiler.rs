//! What the compiler wrapper does with the command line it is called with.
//!
//! The wrapper stands in for a C or C++ compiler. It is told apart by its own name, and
//! passes the command line on with the context-coverage instrumentation added.
use vstd::prelude::*;

verus! {

/// Asks the wrapper to instrument, but to leave the fuzzer's library out of the link.
pub const NO_LINK_FLAG: &'static str = "--libafl-no-link";

/// Asks a compiler to stop before the link.
pub const COMPILE_ONLY_FLAG: &'static str = "-c";

/// The static library that is linked into a fuzzer.
pub const RUNTIME_LIBRARY: &'static str = "naive_ctx";

/// A source file with a storage location for the variable that the instrumentation uses.
pub const STUB_PATH: &'static str = "/tmp/__afl_prev_ctx_stub.c";

/// What is in that file. The symbol is weak, so that the definition in the fuzzer's
/// library wins where that is linked, and stays exported from targets that hide theirs.
pub const STUB_SOURCE: &'static str =
    "__attribute__((weak, visibility(\"default\"))) unsigned int __afl_prev_ctx;\n";

/// The language that a compiler takes its input to be in.
#[derive(Debug, Clone, Copy, PartialEq, Eq, Structural)]
pub enum Language {
    C,
    Cpp,
}

/// Why a command line is not passed on.
#[derive(Debug, Clone, Copy, PartialEq, Eq, Structural)]
pub enum WrapperError {
    /// There is nothing on the command line but the name of the program.
    NoArguments,
    /// The name of the wrapper is not that of a C or C++ compiler.
    UnknownLanguage,
}

/// A pass that the compiler is to run.
#[derive(Debug, Clone, Copy, PartialEq, Eq, Structural)]
pub enum Pass {
    AutoTokens,
    Ctx,
}

/// One step in setting up the compiler behind the wrapper.
#[derive(Debug, Clone, Copy, PartialEq, Eq)]
pub enum WrapperStep {
    AddPass(Pass),
    SetCpp(bool),
    Silence(bool),
    NeedLibaflArg(bool),
    /// Hand over the command line.
    ParseArgs,
    /// Link the library of that name, which lies beside the wrapper.
    LinkStaticlib(&'static str),
    AddPassesLinkingArg(&'static str),
    AddArg(&'static str),
}

/// The character is `lower`, or `upper` in its place.
pub open spec fn is_either(c: char, lower: char, upper: char) -> bool {
    c == lower || c == upper
}

/// The name ends in two of a letter, each in either case.
pub open spec fn ends_in_pair(name: Seq<char>, lower: char, upper: char) -> bool {
    &&& name.len() >= 2
    &&& is_either(name[name.len() - 2], lower, upper)
    &&& is_either(name[name.len() - 1], lower, upper)
}

/// The language of the compiler that a wrapper of this name stands for: C for one that ends
/// in `cc`, C++ for one that ends in `++`, `pp` or `xx`.
pub open spec fn language_named(name: Seq<char>) -> Option<Language> {
    if ends_in_pair(name, 'c', 'C') {
        Some(Language::C)
    } else if ends_in_pair(name, '+', '+') || ends_in_pair(name, 'p', 'P') || ends_in_pair(
        name,
        'x',
        'X',
    ) {
        Some(Language::Cpp)
    } else {
        None
    }
}

fn either(c: char, lower: char, upper: char) -> (r: bool)
    ensures
        r == is_either(c, lower, upper),
{
    c == lower || c == upper
}

/// The language that the name of the wrapper stands for, if it stands for one.
pub fn language(wrapper_name: &str) -> (r: Option<Language>)
    ensures
        r == language_named(wrapper_name@),
        wrapper_name@.len() < 2 ==> r is None,
        wrapper_name@.len() >= 2 ==> {
            let a = wrapper_name@[wrapper_name@.len() - 2];
            let b = wrapper_name@[wrapper_name@.len() - 1];
            let cc = (a == 'c' || a == 'C') && (b == 'c' || b == 'C');
            let plus = a == '+' && b == '+';
            let pp = (a == 'p' || a == 'P') && (b == 'p' || b == 'P');
            let xx = (a == 'x' || a == 'X') && (b == 'x' || b == 'X');
            &&& r == Some(Language::C) <==> cc
            &&& r == Some(Language::Cpp) <==> plus || pp || xx
        },
{
    let len: usize = wrapper_name.unicode_len();
    if len < 2 {
        return None;
    }
    let a: char = wrapper_name.get_char(len - 2);
    let b: char = wrapper_name.get_char(len - 1);
    if either(a, 'c', 'C') && either(b, 'c', 'C') {
        Some(Language::C)
    } else if (a == '+' && b == '+') || (either(a, 'p', 'P') && either(b, 'p', 'P')) || (either(
        a,
        'x',
        'X',
    ) && either(b, 'x', 'X')) {
        Some(Language::Cpp)
    } else {
        None
    }
}

/// `flag` is one of the arguments.
pub open spec fn mentions(args: Seq<String>, flag: Seq<char>) -> bool {
    exists|i: int| 0 <= i < args.len() && (#[trigger] args[i])@ == flag
}

fn mentioned(args: &Vec<String>, flag: &str) -> (r: bool)
    ensures
        r == mentions(args@, flag@),
{
    let wanted: String = flag.to_owned();
    let mut i: usize = 0;
    while i < args.len()
        invariant
            i <= args.len(),
            wanted@ == flag@,
            forall|j: int| 0 <= j < i ==> (#[trigger] args@[j])@ != flag@,
        decreases args.len() - i,
    {
        if args[i] == wanted {
            return true;
        }
        i += 1;
    }
    false
}

/// A link without the fuzzer's library leaves the variable of the instrumentation
/// undefined, so it needs the stub. A compilation without a link must not get one: with a
/// second source file it would no longer have one output.
pub open spec fn stub_needed(args: Seq<String>) -> bool {
    mentions(args, NO_LINK_FLAG@) && !mentions(args, COMPILE_ONLY_FLAG@)
}

/// What a command line asks of the wrapper.
#[derive(Debug, Clone, Copy, PartialEq, Eq)]
pub struct Request {
    pub needs_stub: bool,
}

/// The steps that set up the compiler, in their order.
pub open spec fn wrapper_steps(language: Language, linux: bool, needs_stub: bool) -> Seq<
    WrapperStep,
> {
    let tokens = if linux {
        seq![WrapperStep::AddPass(Pass::AutoTokens)]
    } else {
        Seq::empty()
    };
    let common = seq![
        WrapperStep::SetCpp(language == Language::Cpp),
        WrapperStep::Silence(true),
        WrapperStep::NeedLibaflArg(true),
        WrapperStep::ParseArgs,
        WrapperStep::LinkStaticlib(RUNTIME_LIBRARY),
        WrapperStep::AddPassesLinkingArg("-lm"),
        WrapperStep::AddPass(Pass::Ctx),
        WrapperStep::AddArg("-fsanitize-coverage=trace-pc-guard"),
    ];
    let stub = if needs_stub {
        seq![WrapperStep::AddArg(STUB_PATH)]
    } else {
        Seq::empty()
    };
    tokens + common + stub
}

impl Request {
    /// Reads the command line, the name of the program included.
    pub fn read(args: &Vec<String>) -> (r: Result<Request, WrapperError>)
        ensures
            args.len() <= 1 ==> r == Err::<Request, WrapperError>(WrapperError::NoArguments),
            args.len() > 1 ==> r == Ok::<Request, WrapperError>(
                Request { needs_stub: stub_needed(args@) },
            ),
            r matches Ok(request) ==> (request.needs_stub <==> {
                &&& exists|i: int|
                    0 <= i < args@.len() && (#[trigger] args@[i])@ == "--libafl-no-link"@
                &&& forall|i: int| 0 <= i < args@.len() ==> (#[trigger] args@[i])@ != "-c"@
            }),
    {
        if args.len() > 1 {
            let no_link = mentioned(args, NO_LINK_FLAG);
            let compile_only = mentioned(args, COMPILE_ONLY_FLAG);
            Ok(Request { needs_stub: no_link && !compile_only })
        } else {
            Err(WrapperError::NoArguments)
        }
    }

    /// Whether the stub has to be written, given whether it is there already. It is the
    /// same every time, so one that is there will do.
    pub fn writes_stub(&self, exists: bool) -> (r: bool)
        ensures
            r == (self.needs_stub && !exists),
    {
        self.needs_stub && !exists
    }

    /// The steps that set up the compiler, for a wrapper of that name.
    pub fn steps(&self, wrapper_name: &str, linux: bool) -> (r: Result<
        Vec<WrapperStep>,
        WrapperError,
    >)
        ensures
            match language_named(wrapper_name@) {
                Some(language) => r is Ok && r->Ok_0@ == wrapper_steps(
                    language,
                    linux,
                    self.needs_stub,
                ),
                None => r == Err::<Vec<WrapperStep>, WrapperError>(WrapperError::UnknownLanguage),
            },
    {
        let language = match language(wrapper_name) {
            Some(language) => language,
            None => return Err(WrapperError::UnknownLanguage),
        };
        let mut steps: Vec<WrapperStep> = Vec::new();
        if linux {
            steps.push(WrapperStep::AddPass(Pass::AutoTokens));
        }
        steps.push(WrapperStep::SetCpp(language == Language::Cpp));
        steps.push(WrapperStep::Silence(true));
        steps.push(WrapperStep::NeedLibaflArg(true));
        steps.push(WrapperStep::ParseArgs);
        steps.push(WrapperStep::LinkStaticlib(RUNTIME_LIBRARY));
        steps.push(WrapperStep::AddPassesLinkingArg("-lm"));
        steps.push(WrapperStep::AddPass(Pass::Ctx));
        steps.push(WrapperStep::AddArg("-fsanitize-coverage=trace-pc-guard"));
        if self.needs_stub {
            steps.push(WrapperStep::AddArg(STUB_PATH));
        }
        assert(steps@ == wrapper_steps(language, linux, self.needs_stub));
        Ok(steps)
    }
}

/// The step that compiles the stub along with the rest.
pub open spec fn stub_step() -> WrapperStep {
    WrapperStep::AddArg(STUB_PATH)
}

/// The stub is compiled in exactly where it is needed; it then comes last, and all else is
/// as without it.
pub proof fn lemma_stub_only_where_needed(language: Language, linux: bool, needs_stub: bool)
    ensures
        wrapper_steps(language, linux, needs_stub).contains(stub_step()) <==> needs_stub,
        wrapper_steps(language, linux, true) == wrapper_steps(language, linux, false).push(
            stub_step(),
        ),
{
    let without = wrapper_steps(language, linux, false);
    let with_stub = wrapper_steps(language, linux, true);
    assert(with_stub == without.push(stub_step()));
    assert(with_stub[without.len() as int] == stub_step());
    reveal_strlit("-fsanitize-coverage=trace-pc-guard");
    reveal_strlit("/tmp/__afl_prev_ctx_stub.c");
    assert("-fsanitize-coverage=trace-pc-guard"@.len() != STUB_PATH@.len());
    assert(forall|i: int| 0 <= i < without.len() ==> without[i] != stub_step());
}

/// A compilation without a link is never given a second source file, whatever else is on
/// its command line.
pub proof fn lemma_compile_only_gets_no_stub(args: Seq<String>, language: Language, linux: bool)
    requires
        mentions(args, COMPILE_ONLY_FLAG@),
    ensures
        !wrapper_steps(language, linux, stub_needed(args)).contains(stub_step()),
{
    lemma_stub_only_where_needed(language, linux, stub_needed(args));
}

/// A number that is the same for a letter in either case.
pub open spec fn folded(c: char) -> int {
    if 'A' <= c <= 'Z' {
        c as int + 32
    } else {
        c as int
    }
}

/// The case of the letters in the name of the wrapper makes no difference.
pub proof fn lemma_case_makes_no_difference(a: Seq<char>, b: Seq<char>)
    requires
        a.len() == b.len(),
        forall|i: int| 0 <= i < a.len() ==> folded(#[trigger] a[i]) == folded(b[i]),
    ensures
        language_named(a) == language_named(b),
{
    if a.len() >= 2 {
        let m = a.len() - 2;
        let n = a.len() - 1;
        assert(folded(a[m]) == folded(b[m]));
        assert(folded(a[n]) == folded(b[n]));
    }
}

/// Every compiler that the wrapper sets up, whatever its language, its platform and the stub,
/// is set up with each of these steps once and with no other: the context-coverage pass
/// above all, and the tokens pass only on Linux.
pub proof fn lemma_every_compiler_gets_the_same_set_up(
    language: Language,
    linux: bool,
    needs_stub: bool,
)
    ensures
        ({
            let steps = wrapper_steps(language, linux, needs_stub);
            &&& steps.no_duplicates()
            &&& steps.contains(WrapperStep::AddPass(Pass::Ctx))
            &&& steps.contains(WrapperStep::AddPass(Pass::AutoTokens)) <==> linux
            &&& steps.contains(WrapperStep::SetCpp(true)) <==> language == Language::Cpp
            &&& steps.contains(WrapperStep::SetCpp(false)) <==> language == Language::C
            &&& steps.contains(WrapperStep::Silence(true))
            &&& steps.contains(WrapperStep::NeedLibaflArg(true))
            &&& steps.contains(WrapperStep::ParseArgs)
            &&& steps.contains(WrapperStep::LinkStaticlib("naive_ctx"))
            &&& steps.contains(WrapperStep::AddPassesLinkingArg("-lm"))
            &&& steps.contains(WrapperStep::AddArg("-fsanitize-coverage=trace-pc-guard"))
            &&& steps.contains(WrapperStep::AddArg("/tmp/__afl_prev_ctx_stub.c")) <==> needs_stub
            &&& steps.len() == 8 + (if linux {
                1int
            } else {
                0
            }) + (if needs_stub {
                1int
            } else {
                0
            })
        }),
{
    let steps = wrapper_steps(language, linux, needs_stub);
    let o: int = if linux {
        1
    } else {
        0
    };
    lemma_stub_only_where_needed(language, linux, needs_stub);
    reveal_strlit("-fsanitize-coverage=trace-pc-guard");
    reveal_strlit("/tmp/__afl_prev_ctx_stub.c");
    assert("-fsanitize-coverage=trace-pc-guard"@.len() != STUB_PATH@.len());
    assert(linux ==> steps[0] == WrapperStep::AddPass(Pass::AutoTokens));
    assert(steps[o] == WrapperStep::SetCpp(language == Language::Cpp));
    assert(steps[o + 1] == WrapperStep::Silence(true));
    assert(steps[o + 2] == WrapperStep::NeedLibaflArg(true));
    assert(steps[o + 3] == WrapperStep::ParseArgs);
    assert(steps[o + 4] == WrapperStep::LinkStaticlib("naive_ctx"));
    assert(steps[o + 5] == WrapperStep::AddPassesLinkingArg("-lm"));
    assert(steps[o + 6] == WrapperStep::AddPass(Pass::Ctx));
    assert(steps[o + 7] == WrapperStep::AddArg("-fsanitize-coverage=trace-pc-guard"));
}

/// The command line is handed over before anything is added to it: the runtime library, the
/// context-coverage pass and all further arguments come after it. How the compiler is to
/// take the line is settled before. On either side the steps have a fixed order.
pub proof fn lemma_additions_follow_the_command_line(
    language: Language,
    linux: bool,
    needs_stub: bool,
    i: int,
    j: int,
)
    requires
        0 <= i < wrapper_steps(language, linux, needs_stub).len(),
        0 <= j < wrapper_steps(language, linux, needs_stub).len(),
        wrapper_steps(language, linux, needs_stub)[i] is ParseArgs,
    ensures
        ({
            let step = wrapper_steps(language, linux, needs_stub)[j];
            match step {
                WrapperStep::SetCpp(_)
                | WrapperStep::Silence(_)
                | WrapperStep::NeedLibaflArg(_)
                | WrapperStep::AddPass(Pass::AutoTokens) => j < i,
                WrapperStep::ParseArgs => j == i,
                WrapperStep::LinkStaticlib(_)
                | WrapperStep::AddPassesLinkingArg(_)
                | WrapperStep::AddPass(Pass::Ctx)
                | WrapperStep::AddArg(_) => i < j,
            }
        }),
        ({
            let steps = wrapper_steps(language, linux, needs_stub);
            &&& steps[i - 3] == WrapperStep::SetCpp(language == Language::Cpp)
            &&& steps[i - 2] == WrapperStep::Silence(true)
            &&& steps[i - 1] == WrapperStep::NeedLibaflArg(true)
            &&& steps[i + 1] == WrapperStep::LinkStaticlib("naive_ctx")
            &&& steps[i + 2] == WrapperStep::AddPassesLinkingArg("-lm")
            &&& steps[i + 3] == WrapperStep::AddPass(Pass::Ctx)
            &&& steps[i + 4] == WrapperStep::AddArg("-fsanitize-coverage=trace-pc-guard")
        }),
{
}

/// Between the set-ups for C and for C++ there is no difference but the one step that says
/// which it is.
pub proof fn lemma_languages_differ_in_one_step(linux: bool, needs_stub: bool, i: int)
    requires
        0 <= i < wrapper_steps(Language::C, linux, needs_stub).len(),
    ensures
        ({
            let c = wrapper_steps(Language::C, linux, needs_stub);
            let cpp = wrapper_steps(Language::Cpp, linux, needs_stub);
            &&& c.len() == cpp.len()
            &&& c[i] == cpp[i] || (c[i] == WrapperStep::SetCpp(false) && cpp[i]
                == WrapperStep::SetCpp(true))
        }),
{
}

/// On Linux the tokens pass comes first, and all else is as elsewhere.
pub proof fn lemma_linux_adds_the_tokens_pass(language: Language, needs_stub: bool)
    ensures
        wrapper_steps(language, true, needs_stub) == seq![WrapperStep::AddPass(Pass::AutoTokens)]
            + wrapper_steps(language, false, needs_stub),
{
    assert(wrapper_steps(language, true, needs_stub) =~= seq![
        WrapperStep::AddPass(Pass::AutoTokens),
    ] + wrapper_steps(language, false, needs_stub));
}

/// What [`Request::steps`] gives is the same for any two names of wrappers for the same
/// language, and for a name of neither language nothing is set up at all.
pub proof fn lemma_steps_go_by_the_language_of_the_name(
    request: &Request,
    name: &str,
    other: &str,
    linux: bool,
    r: Result<Vec<WrapperStep>, WrapperError>,
    s: Result<Vec<WrapperStep>, WrapperError>,
)
    requires
        call_ensures(Request::steps, (request, name, linux), r),
        call_ensures(Request::steps, (request, other, linux), s),
        language_named(name@) == language_named(other@),
    ensures
        r is Ok <==> s is Ok,
        r is Ok <==> language_named(name@) is Some,
        r is Ok ==> r->Ok_0@ == s->Ok_0@,
        r is Ok ==> r->Ok_0@.contains(WrapperStep::AddPass(Pass::Ctx)),
        r is Ok ==> (r->Ok_0@.contains(WrapperStep::AddArg("/tmp/__afl_prev_ctx_stub.c"))
            <==> request.needs_stub),
        r is Err ==> r->Err_0 is UnknownLanguage,
{
    if let Some(language) = language_named(name@) {
        lemma_every_compiler_gets_the_same_set_up(language, linux, request.needs_stub);
    }
}

/// A build without the fuzzer's library is given the stub whenever it links, and it links
/// unless `-c` is on its command line, whatever else is there. No other build is given it.
pub proof fn lemma_links_without_the_runtime_get_the_stub(
    args: &Vec<String>,
    r: Result<Request, WrapperError>,
)
    requires
        call_ensures(Request::read, (args,), r),
        args@.len() > 1,
    ensures
        r is Ok,
        (exists|i: int| 0 <= i < args@.len() && (#[trigger] args@[i])@ == "--libafl-no-link"@) && (
        forall|i: int| 0 <= i < args@.len() ==> (#[trigger] args@[i])@ != "-c"@)
            ==> r->Ok_0.needs_stub,
        (forall|i: int| 0 <= i < args@.len() ==> (#[trigger] args@[i])@ != "--libafl-no-link"@)
            ==> !r->Ok_0.needs_stub,
        (exists|i: int| 0 <= i < args@.len() && (#[trigger] args@[i])@ == "-c"@)
            ==> !r->Ok_0.needs_stub,
        r->Ok_0.needs_stub == stub_needed(args@),
{
}

/// A further argument changes nothing about the stub unless it is one of the two flags that
/// the stub goes by.
pub proof fn lemma_other_arguments_leave_the_stub_alone(args: Seq<String>, more: String)
    requires
        more@ != "--libafl-no-link"@,
        more@ != "-c"@,
    ensures
        stub_needed(args.push(more)) == stub_needed(args),
{
    let all = args.push(more);
    assert forall|flag: Seq<char>| flag != more@ implies #[trigger] mentions(all, flag) == mentions(
        args,
        flag,
    ) by {
        if mentions(args, flag) {
            let i = choose|i: int| 0 <= i < args.len() && (#[trigger] args[i])@ == flag;
            assert(all[i]@ == flag);
        }
        if mentions(all, flag) {
            let i = choose|i: int| 0 <= i < all.len() && (#[trigger] all[i])@ == flag;
            assert(args[i]@ == flag);
        }
    }
}

/// With `--libafl-no-link` and without `-c` the stub is compiled in, and its source is the
/// last thing that the compiler is given.
pub proof fn lemma_needed_stub_is_compiled_last(
    args: Seq<String>,
    at: int,
    language: Language,
    linux: bool,
)
    requires
        0 <= at < args.len(),
        args[at]@ == "--libafl-no-link"@,
        forall|i: int| 0 <= i < args.len() ==> (#[trigger] args[i])@ != "-c"@,
    ensures
        wrapper_steps(language, linux, stub_needed(args)).last() == WrapperStep::AddArg(
            "/tmp/__afl_prev_ctx_stub.c",
        ),
{
}

/// The language goes by the last two characters of the name and by nothing before them:
/// twice a `c` is C; twice a `+`, a `p` or an `x` is C++; anything else, or less than two
/// characters, is neither.
pub proof fn lemma_language_goes_by_the_last_two(name: Seq<char>, a: char, b: char)
    ensures
        ({
            let r = language_named(name.push(a).push(b));
            let c = (a == 'c' || a == 'C') && (b == 'c' || b == 'C');
            let plus = a == '+' && b == '+';
            let p = (a == 'p' || a == 'P') && (b == 'p' || b == 'P');
            let x = (a == 'x' || a == 'X') && (b == 'x' || b == 'X');
            &&& r == Some(Language::C) <==> c
            &&& r == Some(Language::Cpp) <==> plus || p || x
        }),
        name.len() < 2 ==> language_named(name) is None,
{
    let all = name.push(a).push(b);
    assert(all[all.len() - 2] == a);
    assert(all[all.len() - 1] == b);
}

/// From the command line to the compiler: the stub is among the arguments that are added, and
/// is written where it is not there yet, exactly where the line asks for a link without the
/// fuzzer's library. The context-coverage pass is set up once in any case, after the line has
/// been handed over.
pub proof fn lemma_from_the_command_line_to_the_steps(
    args: &Vec<String>,
    request: Request,
    name: &str,
    linux: bool,
    steps: Vec<WrapperStep>,
    exists_already: bool,
    written: bool,
)
    requires
        call_ensures(Request::read, (args,), Ok::<Request, WrapperError>(request)),
        call_ensures(
            Request::steps,
            (&request, name, linux),
            Ok::<Vec<WrapperStep>, WrapperError>(steps),
        ),
        call_ensures(Request::writes_stub, (&request, exists_already), written),
    ensures
        steps@.contains(WrapperStep::AddArg("/tmp/__afl_prev_ctx_stub.c")) <==> {
            &&& exists|i: int|
                0 <= i < args@.len() && (#[trigger] args@[i])@ == "--libafl-no-link"@
            &&& forall|i: int| 0 <= i < args@.len() ==> (#[trigger] args@[i])@ != "-c"@
        },
        written <==> !exists_already && steps@.contains(
            WrapperStep::AddArg("/tmp/__afl_prev_ctx_stub.c"),
        ),
        steps@.no_duplicates(),
        steps@.contains(WrapperStep::AddPass(Pass::Ctx)),
        forall|i: int, j: int|
            0 <= i < steps@.len() && 0 <= j < steps@.len() && #[trigger] steps@[i]
                == WrapperStep::ParseArgs && #[trigger] steps@[j] == WrapperStep::AddPass(Pass::Ctx)
                ==> i < j,
{
    if let Some(language) = language_named(name@) {
        lemma_every_compiler_gets_the_same_set_up(language, linux, request.needs_stub);
    }
}

} // verus!
