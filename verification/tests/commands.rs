use toolchain_resolver::active::{ActiveToolchain, OverrideReason};
use toolchain_resolver::command::{
    doc_page, doc_topic_names, installed_targets, provision, ComponentStatus, Provision, Purpose,
};
use toolchain_resolver::errors::{Error, ErrorKind};
use toolchain_resolver::show::{
    label_active, label_failure, label_reason, show, show_active_toolchain, ShowLine,
};

fn names(list: &[&str]) -> Vec<String> {
    list.iter().map(|s| s.to_string()).collect()
}

fn plain(text: &str) -> ShowLine {
    ShowLine { bold: String::new(), plain: text.to_string() }
}

fn bold(text: &str) -> ShowLine {
    ShowLine { bold: text.to_string(), plain: String::new() }
}

fn component(name: &str, target: Option<&str>, installed: bool) -> ComponentStatus {
    ComponentStatus { name: name.to_string(), target: target.map(|t| t.to_string()), installed }
}

#[test]
fn distributed_toolchains_are_installed_from_the_server() {
    assert_eq!(provision(Purpose::Update, "stable", false, false), Provision::InstallFromDist);
    assert_eq!(provision(Purpose::Update, "stable", false, true), Provision::InstallFromDist);
    assert_eq!(provision(Purpose::SetDefault, "stable", false, false), Provision::InstallIfMissing);
    assert_eq!(provision(Purpose::SetOverride, "stable", false, true), Provision::InstallIfMissing);
}

#[test]
fn custom_toolchains_must_be_in_place() {
    assert_eq!(provision(Purpose::Update, "mine", true, true), Provision::UseInstalled);
    assert_eq!(provision(Purpose::SetDefault, "mine", true, true), Provision::UseInstalled);
    assert_eq!(
        provision(Purpose::Update, "mine", true, false),
        Provision::Fail(Error { kind: ErrorKind::InvalidToolchainName("mine".to_string()), cause: None })
    );
    assert_eq!(
        provision(Purpose::SetDefault, "mine", true, false),
        Provision::Fail(Error { kind: ErrorKind::ToolchainNotInstalled("mine".to_string()), cause: None })
    );
    assert_eq!(
        provision(Purpose::SetOverride, "mine", true, false),
        Provision::Fail(Error { kind: ErrorKind::ToolchainNotInstalled("mine".to_string()), cause: None })
    );
}

#[test]
fn targets_are_those_of_installed_standard_libraries() {
    let components = vec![
        component("rustc", Some("x86_64-unknown-linux-gnu"), true),
        component("rust-std", Some("x86_64-unknown-linux-gnu"), true),
        component("rust-std", Some("wasm32-unknown-unknown"), false),
        component("rust-docs", None, true),
        component("rust-std", Some("arm-linux-androideabi"), true),
        component("rust-std", None, false),
    ];
    assert_eq!(
        installed_targets(&components),
        names(&["x86_64-unknown-linux-gnu", "arm-linux-androideabi"])
    );
    assert_eq!(installed_targets(&Vec::new()), Vec::<String>::new());
}

#[test]
fn doc_page_is_the_index_of_the_first_topic_asked_for() {
    assert_eq!(doc_page(&Vec::new()), "index.html");
    assert_eq!(doc_page(&names(&["path"])), "index.html");
    assert_eq!(doc_page(&names(&["book"])), "book/index.html");
    assert_eq!(doc_page(&names(&["std", "path"])), "std/index.html");
    assert_eq!(doc_page(&names(&["unstable-book"])), "unstable-book/index.html");
    assert_eq!(doc_page(&names(&["std", "alloc", "core"])), "alloc/index.html");
    assert_eq!(doc_page(&names(&["test", "rustc"])), "rustc/index.html");
}

#[test]
fn doc_topics_are_fourteen_in_their_order() {
    assert_eq!(
        doc_topic_names(),
        vec![
            "alloc", "book", "cargo", "core", "edition-guide", "nomicon", "proc_macro",
            "reference", "rust-by-example", "rustc", "rustdoc", "std", "test", "unstable-book",
        ]
    );
    for topic in doc_topic_names() {
        assert_eq!(doc_page(&names(&[topic])), format!("{}/index.html", topic));
    }
}

#[test]
fn active_toolchain_is_labelled_with_what_made_it_active() {
    let by_default = ActiveToolchain { name: "stable-x86_64-apple-darwin".to_string(), reason: None };
    assert_eq!(label_active(&by_default), "stable-x86_64-apple-darwin (default)");
    let by_override = ActiveToolchain {
        name: "nightly".to_string(),
        reason: Some(OverrideReason { directory: "/home/me".to_string() }),
    };
    assert_eq!(label_active(&by_override), "nightly (directory override for '/home/me')");
    assert_eq!(
        show_active_toolchain(&Some(by_override)),
        Some("nightly (directory override for '/home/me')".to_string())
    );
    assert_eq!(show_active_toolchain(&None), None);
    assert_eq!(
        label_reason(&OverrideReason { directory: "/a b".to_string() }),
        "directory override for '/a b'"
    );
}

#[test]
fn failure_is_labelled_with_its_cause() {
    let bare = Error { kind: ErrorKind::ToolchainNotInstalled("x".to_string()), cause: None };
    assert_eq!(label_failure(&bare), "(error: toolchain 'x' is not installed)");
    let caused = Error {
        kind: ErrorKind::ToolchainNotInstalled("x".to_string()),
        cause: Some("directory override for '/p'".to_string()),
    };
    assert_eq!(
        label_failure(&caused),
        "(error: toolchain 'x' is not installed, directory override for '/p')"
    );
}

#[test]
fn overview_of_one_toolchain_has_no_headings() {
    let active = Ok(Some(ActiveToolchain { name: "stable".to_string(), reason: None }));
    let lines = show(
        "x86_64-unknown-linux-gnu",
        &names(&["stable"]),
        "stable",
        &names(&["x86_64-unknown-linux-gnu"]),
        &active,
        "rustc 1.33.0",
    );
    assert_eq!(
        lines,
        vec![
            ShowLine { bold: "Default host: ".to_string(), plain: "x86_64-unknown-linux-gnu".to_string() },
            plain(""),
            plain("stable (default)"),
            plain("rustc 1.33.0"),
        ]
    );
}

#[test]
fn overview_with_several_toolchains_has_headings() {
    let active = Ok(Some(ActiveToolchain {
        name: "nightly".to_string(),
        reason: Some(OverrideReason { directory: "/p".to_string() }),
    }));
    let lines = show(
        "x86_64-apple-darwin",
        &names(&["stable", "nightly"]),
        "stable",
        &names(&["x86_64-apple-darwin"]),
        &active,
        "rustc 1.35.0-nightly",
    );
    assert_eq!(
        lines,
        vec![
            ShowLine { bold: "Default host: ".to_string(), plain: "x86_64-apple-darwin".to_string() },
            plain(""),
            bold("installed toolchains"),
            bold("--------------------"),
            bold(""),
            plain("stable (default)"),
            plain("nightly"),
            plain(""),
            bold("active toolchain"),
            bold("----------------"),
            bold(""),
            plain("nightly (directory override for '/p')"),
            plain("rustc 1.35.0-nightly"),
            plain(""),
        ]
    );
}

#[test]
fn overview_lists_targets_when_there_are_several() {
    let lines = show(
        "h",
        &names(&["stable"]),
        "stable",
        &names(&["x86_64-unknown-linux-gnu", "wasm32-unknown-unknown"]),
        &Ok(None),
        "",
    );
    assert_eq!(
        lines,
        vec![
            ShowLine { bold: "Default host: ".to_string(), plain: "h".to_string() },
            plain(""),
            bold("installed targets for active toolchain"),
            bold("--------------------------------------"),
            bold(""),
            plain("x86_64-unknown-linux-gnu"),
            plain("wasm32-unknown-unknown"),
            plain(""),
            bold("active toolchain"),
            bold("----------------"),
            bold(""),
            plain("no active toolchain"),
            plain(""),
        ]
    );
}

#[test]
fn overview_reports_why_the_active_toolchain_is_unknown() {
    let failed = Err(Error {
        kind: ErrorKind::ToolchainNotInstalled("nightly".to_string()),
        cause: Some("directory override for '/p'".to_string()),
    });
    let lines = show("h", &Vec::new(), "", &Vec::new(), &failed, "");
    assert_eq!(
        lines,
        vec![
            ShowLine { bold: "Default host: ".to_string(), plain: "h".to_string() },
            plain(""),
            plain("(error: toolchain 'nightly' is not installed, directory override for '/p')"),
        ]
    );
}
