use mopt_cmplog::compiler::{
    language, Language, Pass, Request, WrapperError, WrapperStep, RUNTIME_LIBRARY, STUB_PATH,
    STUB_SOURCE,
};

fn line(words: &[&str]) -> Vec<String> {
    words.iter().map(|w| w.to_string()).collect()
}

#[test]
fn language_goes_by_the_end_of_the_name() {
    for name in ["naive_ctx_cc", "cc", "CC", "afl-cC", "Cc"] {
        assert_eq!(language(name), Some(Language::C), "{}", name);
    }
    for name in ["clang++", "++", "naive_ctx_cpp", "PP", "naive_ctx_cxx", "libafl_cXX"] {
        assert_eq!(language(name), Some(Language::Cpp), "{}", name);
    }
    for name in ["", "c", "x", "clang", "cp", "+x", "cc ", "gcc-12", "\u{e7}c", "c\u{e7}", "\u{e7}"]
    {
        assert_eq!(language(name), None, "{}", name);
    }
}

#[test]
fn a_line_without_arguments_is_refused() {
    assert_eq!(Request::read(&line(&["naive_ctx_cc"])), Err(WrapperError::NoArguments));
    assert_eq!(Request::read(&vec![]), Err(WrapperError::NoArguments));
}

#[test]
fn stub_is_for_links_without_the_runtime() {
    let needs = |words: &[&str]| Request::read(&line(words)).unwrap().needs_stub;
    assert!(needs(&["cc", "--libafl-no-link", "a.c"]));
    assert!(needs(&["cc", "a.o", "-o", "a", "--libafl-no-link"]));
    assert!(!needs(&["cc", "--libafl-no-link", "-c", "a.c"]));
    assert!(!needs(&["cc", "-c", "a.c"]));
    assert!(!needs(&["cc", "--libafl", "a.c"]));
    assert!(!needs(&["cc", "--libafl-no-link=1", "a.c"]));
    assert!(needs(&["cc", "--libafl-no-link", "-cc", "a.c"]));
}

#[test]
fn stub_is_written_once() {
    let with = Request { needs_stub: true };
    let without = Request { needs_stub: false };
    assert!(with.writes_stub(false));
    assert!(!with.writes_stub(true));
    assert!(!without.writes_stub(false));
    assert!(!without.writes_stub(true));
    assert_eq!(STUB_PATH, "/tmp/__afl_prev_ctx_stub.c");
    assert_eq!(
        STUB_SOURCE,
        "__attribute__((weak, visibility(\"default\"))) unsigned int __afl_prev_ctx;\n"
    );
}

#[test]
fn steps_for_a_cpp_compiler_on_linux_with_the_stub() {
    let steps = Request { needs_stub: true }.steps("naive_ctx_cxx", true).unwrap();
    assert_eq!(
        steps,
        vec![
            WrapperStep::AddPass(Pass::AutoTokens),
            WrapperStep::SetCpp(true),
            WrapperStep::Silence(true),
            WrapperStep::NeedLibaflArg(true),
            WrapperStep::ParseArgs,
            WrapperStep::LinkStaticlib(RUNTIME_LIBRARY),
            WrapperStep::AddPassesLinkingArg("-lm"),
            WrapperStep::AddPass(Pass::Ctx),
            WrapperStep::AddArg("-fsanitize-coverage=trace-pc-guard"),
            WrapperStep::AddArg(STUB_PATH),
        ]
    );
    assert_eq!(RUNTIME_LIBRARY, "naive_ctx");
}

#[test]
fn steps_for_a_c_compiler_elsewhere_without_the_stub() {
    let steps = Request { needs_stub: false }.steps("naive_ctx_cc", false).unwrap();
    assert_eq!(steps.len(), 8);
    assert_eq!(steps[0], WrapperStep::SetCpp(false));
    assert_eq!(steps[7], WrapperStep::AddArg("-fsanitize-coverage=trace-pc-guard"));
}

#[test]
fn compile_only_lines_never_get_the_stub() {
    for flags in [&["-c"][..], &["--libafl-no-link", "-c"], &["-c", "--libafl-no-link", "x.c"]] {
        let mut words = vec!["naive_ctx_cc"];
        words.extend_from_slice(flags);
        let steps = Request::read(&line(&words)).unwrap().steps("naive_ctx_cc", true).unwrap();
        assert!(!steps.contains(&WrapperStep::AddArg(STUB_PATH)));
    }
}

#[test]
fn an_unknown_wrapper_name_is_refused() {
    assert_eq!(
        Request { needs_stub: true }.steps("clang", true),
        Err(WrapperError::UnknownLanguage)
    );
}
