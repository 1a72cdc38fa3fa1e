use toolchain_resolver::diagnostic::{
    candidates, default_bare_triple_check, default_bare_triple_report, update_bare_triple_check,
    Advice, DefaultTripleCheck, Diagnosis, TripleCheck,
};
use toolchain_resolver::errors::{handle_epipe, Error, ErrorKind, IoErrorKind};
use toolchain_resolver::report::{Level, Message};
use toolchain_resolver::triple::PartialTriple;

fn names(list: &[&str]) -> Vec<String> {
    list.iter().map(|s| s.to_string()).collect()
}

fn not_installed(name: &str) -> Error {
    Error { kind: ErrorKind::ToolchainNotInstalled(name.to_string()), cause: None }
}

fn diagnosed(checked: TripleCheck) -> Diagnosis {
    match checked {
        TripleCheck::Diagnosed(d) => d,
        TripleCheck::NotATriple => panic!("expected a diagnosis"),
    }
}

#[test]
fn update_check_suggests_the_one_candidate_but_the_default() {
    let installed =
        names(&["stable-x86_64-unknown-linux-gnu", "nightly-x86_64-unknown-linux-gnu"]);
    let checked = update_bare_triple_check(
        "x86_64-unknown-linux-gnu",
        &installed,
        Some("stable-x86_64-unknown-linux-gnu"),
    );
    let d = diagnosed(checked);
    assert_eq!(d.advice, Advice::UseToolchain("nightly-x86_64-unknown-linux-gnu".to_string()));
    assert_eq!(d.error, not_installed("x86_64-unknown-linux-gnu"));
    let query = PartialTriple::parse("x86_64-unknown-linux-gnu").unwrap();
    assert_eq!(
        candidates(&query, &installed, Some("stable-x86_64-unknown-linux-gnu")),
        names(&["nightly-x86_64-unknown-linux-gnu"])
    );
}

#[test]
fn update_check_passes_what_is_no_triple() {
    let installed = names(&["stable-x86_64-unknown-linux-gnu"]);
    for name in ["stable", "nightly-2019-01-01", "", "my-toolchain", "stable-x86_64-unknown-linux-gnu"] {
        assert_eq!(
            update_bare_triple_check(name, &installed, None),
            TripleCheck::NotATriple,
            "{:?}",
            name
        );
    }
}

#[test]
fn update_check_never_passes_a_triple() {
    let none: Vec<String> = Vec::new();
    for name in ["x86_64", "gnu", "unknown-linux", "x86_64-apple-darwin", "arm-linux-androideabi"] {
        let d = diagnosed(update_bare_triple_check(name, &none, None));
        assert_eq!(d.advice, Advice::NoCandidates);
        assert_eq!(d.error, not_installed(name));
    }
}

#[test]
fn update_check_lists_several_candidates_in_installed_order() {
    let installed = names(&[
        "nightly-x86_64-unknown-linux-gnu",
        "stable-x86_64-pc-windows-msvc",
        "beta-x86_64-unknown-linux-musl",
        "custom",
        "1.30.0-i686-unknown-linux-gnu",
        "stable-x86_64-unknown-linux-gnu",
    ]);
    let d = diagnosed(update_bare_triple_check("x86_64-unknown-linux", &installed, None));
    assert_eq!(
        d.advice,
        Advice::UseOneOf(names(&[
            "nightly-x86_64-unknown-linux-gnu",
            "beta-x86_64-unknown-linux-musl",
            "stable-x86_64-unknown-linux-gnu",
        ]))
    );
    let d = diagnosed(update_bare_triple_check("gnu", &installed, None));
    assert_eq!(
        d.advice,
        Advice::UseOneOf(names(&[
            "nightly-x86_64-unknown-linux-gnu",
            "1.30.0-i686-unknown-linux-gnu",
            "stable-x86_64-unknown-linux-gnu",
        ]))
    );
}

#[test]
fn update_check_excludes_the_default_even_if_it_matches() {
    let installed = names(&["stable-x86_64-unknown-linux-gnu"]);
    let d = diagnosed(update_bare_triple_check(
        "x86_64",
        &installed,
        Some("stable-x86_64-unknown-linux-gnu"),
    ));
    assert_eq!(d.advice, Advice::NoCandidates);
    let d = diagnosed(update_bare_triple_check("x86_64", &installed, Some("other")));
    assert_eq!(d.advice, Advice::UseToolchain("stable-x86_64-unknown-linux-gnu".to_string()));
}

#[test]
fn candidates_skip_names_that_describe_no_toolchain() {
    let installed = names(&["x86_64-unknown-linux-gnu", "", "gnu", "stable-gnu", "stable"]);
    let query = PartialTriple::parse("gnu").unwrap();
    assert_eq!(candidates(&query, &installed, None), names(&["stable-gnu"]));
}

#[test]
fn candidates_keep_repeated_names() {
    let installed = names(&["a-gnu", "b-msvc", "a-gnu"]);
    let query = PartialTriple::parse("gnu").unwrap();
    assert_eq!(candidates(&query, &installed, None), names(&["a-gnu", "a-gnu"]));
    assert_eq!(candidates(&query, &installed, Some("a-gnu")), Vec::<String>::new());
}

#[test]
fn default_check_merges_the_triple_into_the_default_channel() {
    assert_eq!(
        default_bare_triple_check("x86_64-unknown-linux-gnu", Some("stable-x86_64-apple-darwin")),
        DefaultTripleCheck::Lookup("stable-x86_64-unknown-linux-gnu".to_string())
    );
    assert_eq!(
        default_bare_triple_check("msvc", Some("nightly-2019-01-01")),
        DefaultTripleCheck::Lookup("nightly-2019-01-01-msvc".to_string())
    );
}

#[test]
fn default_check_passes_what_is_no_triple() {
    assert_eq!(
        default_bare_triple_check("stable", Some("stable-x86_64-apple-darwin")),
        DefaultTripleCheck::NotATriple
    );
    assert_eq!(default_bare_triple_check("", None), DefaultTripleCheck::NotATriple);
}

#[test]
fn default_check_without_usable_default_only_warns() {
    assert_eq!(default_bare_triple_check("x86_64", None), DefaultTripleCheck::NoDefault);
    assert_eq!(default_bare_triple_check("x86_64", Some("")), DefaultTripleCheck::NoDefault);
    assert_eq!(
        default_bare_triple_check("x86_64", Some("x86_64-unknown-linux-gnu")),
        DefaultTripleCheck::NoDefault
    );
}

#[test]
fn default_report_suggests_what_differs_from_the_default() {
    let reported = default_bare_triple_report(
        "x86_64-unknown-linux-gnu",
        "stable-x86_64-apple-darwin",
        Ok("stable-x86_64-unknown-linux-gnu".to_string()),
    )
    .unwrap();
    assert_eq!(
        reported.advice,
        Advice::UseToolchain("stable-x86_64-unknown-linux-gnu".to_string())
    );
    assert_eq!(reported.error, not_installed("x86_64-unknown-linux-gnu"));
}

#[test]
fn default_report_warns_when_the_default_comes_back() {
    let reported = default_bare_triple_report(
        "x86_64",
        "stable-x86_64-unknown-linux-gnu",
        Ok("stable-x86_64-unknown-linux-gnu".to_string()),
    )
    .unwrap();
    assert_eq!(reported.advice, Advice::AlreadyDefault);
    assert_eq!(reported.error, not_installed("x86_64"));
}

#[test]
fn default_report_hands_a_failed_lookup_on() {
    let failure = Error {
        kind: ErrorKind::Registry("could not read the toolchain directory".to_string()),
        cause: Some("permission denied".to_string()),
    };
    assert_eq!(
        default_bare_triple_report("x86_64", "stable", Err(failure.clone())),
        Err(failure)
    );
}

#[test]
fn diagnosis_messages_start_with_the_warning() {
    let d = Diagnosis {
        advice: Advice::UseToolchain("nightly-x86_64-unknown-linux-gnu".to_string()),
        error: not_installed("x86_64"),
    };
    let said = d.messages("x86_64");
    assert_eq!(
        said,
        vec![
            Message {
                level: Level::Warning,
                text: "(partial) target triple specified instead of toolchain name".to_string()
            },
            Message { level: Level::Output, text: String::new() },
            Message {
                level: Level::Output,
                text: "you may use the following toolchain: nightly-x86_64-unknown-linux-gnu"
                    .to_string()
            },
            Message { level: Level::Output, text: String::new() },
        ]
    );
}

#[test]
fn advice_messages_list_one_name_per_line() {
    let said = Advice::UseOneOf(names(&["a-gnu", "b-gnu", "c-gnu"])).messages("gnu");
    let texts: Vec<&str> = said.iter().map(|m| m.text.as_str()).collect();
    assert_eq!(
        texts,
        vec!["", "you may use one of the following toolchains:", "a-gnu", "b-gnu", "c-gnu", ""]
    );
    assert!(said.iter().all(|m| m.level == Level::Output));
}

#[test]
fn advice_messages_for_no_candidates_and_already_default() {
    assert_eq!(
        Advice::NoCandidates.messages("gnu"),
        vec![Message { level: Level::Failure, text: "no candidate toolchains found".to_string() }]
    );
    assert_eq!(
        Advice::AlreadyDefault.messages("gnu"),
        vec![Message {
            level: Level::Warning,
            text: "(partial) triple 'gnu' resolves to a toolchain that is already default"
                .to_string()
        }]
    );
}

#[test]
fn error_messages_name_the_toolchain() {
    assert_eq!(not_installed("gnu").message(), "toolchain 'gnu' is not installed");
    assert_eq!(Error::invalid_toolchain_name("a b").message(), "invalid toolchain name: 'a b'");
    assert_eq!(Error::new(ErrorKind::NoCandidateToolchains).message(), "no candidate toolchains found");
    assert_eq!(
        Error::new(ErrorKind::Io(IoErrorKind::NotFound, "no such file".to_string())).message(),
        "no such file"
    );
    assert_eq!(Error::new(ErrorKind::Registry("broken".to_string())).message(), "broken");
    assert_eq!(Error::toolchain_not_installed("x"), not_installed("x"));
}

#[test]
fn broken_pipe_is_no_failure() {
    let broken = Error::new(ErrorKind::Io(IoErrorKind::BrokenPipe, "broken pipe".to_string()));
    assert_eq!(handle_epipe(Err(broken)), Ok(()));
    let with_cause = Error {
        kind: ErrorKind::Io(IoErrorKind::BrokenPipe, "broken pipe".to_string()),
        cause: Some("reader left".to_string()),
    };
    assert_eq!(handle_epipe(Err(with_cause)), Ok(()));
}

#[test]
fn other_results_pass_through_epipe_handling() {
    assert_eq!(handle_epipe(Ok(())), Ok(()));
    let missing = Error::new(ErrorKind::Io(IoErrorKind::NotFound, "no such file".to_string()));
    assert_eq!(handle_epipe(Err(missing.clone())), Err(missing));
    let other = Error::new(ErrorKind::Io(IoErrorKind::Other, "broken pipe".to_string()));
    assert_eq!(handle_epipe(Err(other.clone())), Err(other));
    assert_eq!(handle_epipe(Err(not_installed("x"))), Err(not_installed("x")));
}
