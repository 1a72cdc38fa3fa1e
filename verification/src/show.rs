//! The overview of the installation: the default host, the installed
//! toolchains, the targets of the active toolchain, and the active toolchain.

use crate::active::{ActiveToolchain, ActiveToolchainView, OverrideReason};
use crate::errors::{Error, ErrorView};
use crate::text::{glue, same_text, texts};
use vstd::prelude::*;

verus! {

/// A line of the overview: what of it is set in bold, then the rest.
#[derive(Clone, Debug, PartialEq, Eq, Hash)]
pub struct ShowLine {
    pub bold: String,
    pub plain: String,
}

/// A line as a mathematical value.
pub struct ShowLineView {
    pub bold: Seq<char>,
    pub plain: Seq<char>,
}

impl View for ShowLine {
    type V = ShowLineView;

    open spec fn view(&self) -> ShowLineView {
        ShowLineView { bold: self.bold@, plain: self.plain@ }
    }
}

/// What each line holds.
pub open spec fn line_views(lines: Seq<ShowLine>) -> Seq<ShowLineView> {
    Seq::new(lines.len(), |k: int| lines[k]@)
}

/// A line without bold.
pub open spec fn plain(text: Seq<char>) -> ShowLineView {
    ShowLineView { bold: Seq::empty(), plain: text }
}

/// A line all in bold.
pub open spec fn bold(text: Seq<char>) -> ShowLineView {
    ShowLineView { bold: text, plain: Seq::empty() }
}

/// As many dashes as `n`.
pub open spec fn dashes(n: nat) -> Seq<char> {
    Seq::new(n, |k: int| '-')
}

/// The heading of a section: its title, underlined, and an empty line, in bold.
pub open spec fn heading(title: Seq<char>) -> Seq<ShowLineView> {
    seq![bold(title), bold(dashes(title.len())), bold(Seq::empty())]
}

/// Why the override of `directory` makes a toolchain active, in words.
pub open spec fn reason_text(directory: Seq<char>) -> Seq<char> {
    "directory override for '"@ + directory + "'"@
}

/// The active toolchain with what made it so in brackets.
pub open spec fn active_label(active: ActiveToolchainView) -> Seq<char> {
    match active.reason {
        Some(directory) => active.name + " ("@ + reason_text(directory) + ")"@,
        None => active.name + " (default)"@,
    }
}

/// A failure with its cause, in brackets.
pub open spec fn failure_label(e: ErrorView) -> Seq<char> {
    match e.cause {
        Some(cause) => "(error: "@ + e.kind.text() + ", "@ + cause + ")"@,
        None => "(error: "@ + e.kind.text() + ")"@,
    }
}

/// Why an override makes a toolchain active, in words.
pub fn label_reason(reason: &OverrideReason) -> (label: String)
    ensures
        label@ == reason_text(reason.directory@),
{
    glue("directory override for '", reason.directory.as_str(), "'")
}

/// The active toolchain with what made it so in brackets.
pub fn label_active(active: &ActiveToolchain) -> (label: String)
    ensures
        label@ == active_label(active@),
{
    match &active.reason {
        Some(reason) => {
            let why = label_reason(reason);
            let mut label = glue(active.name.as_str(), " (", why.as_str());
            label.append(")");
            label
        },
        None => {
            let label = glue(active.name.as_str(), " (default)", "");
            proof {
                reveal_strlit("");
                assert(active.name@ + " (default)"@ + ""@ =~= active.name@ + " (default)"@);
            }
            label
        },
    }
}

/// A failure with its cause, in brackets.
pub fn label_failure(e: &Error) -> (label: String)
    ensures
        label@ == failure_label(e@),
{
    let said = e.message();
    let mut label = "(error: ".to_owned();
    label.append(said.as_str());
    match &e.cause {
        Some(cause) => {
            label.append(", ");
            label.append(cause.as_str());
        },
        None => {},
    }
    label.append(")");
    label
}

/// What the command that names the active toolchain prints: the toolchain with
/// what made it active, or nothing where no toolchain is active.
pub fn show_active_toolchain(found: &Option<ActiveToolchain>) -> (line: Option<String>)
    ensures
        match *found {
            Some(active) => line matches Some(text) && text@ == active_label(active@),
            None => line is None,
        },
{
    match found {
        Some(active) => Some(label_active(active)),
        None => None,
    }
}

/// The lines of a section: under its heading and before an empty line where
/// the overview has headings, bare where it has not.
pub open spec fn framed(title: Seq<char>, lines: Seq<ShowLineView>, headings: bool) -> Seq<
    ShowLineView,
> {
    if headings {
        heading(title) + lines + seq![plain(Seq::empty())]
    } else {
        lines
    }
}

/// An installed toolchain as it is listed: the default is marked.
pub open spec fn installed_line(name: Seq<char>, default_name: Seq<char>) -> ShowLineView {
    if name == default_name {
        plain(name + " (default)"@)
    } else {
        plain(name)
    }
}

/// What was found out about the active toolchain, as a mathematical value.
pub open spec fn found_view(found: Result<Option<ActiveToolchain>, Error>) -> Result<
    Option<ActiveToolchainView>,
    ErrorView,
> {
    match found {
        Ok(Some(active)) => Ok(Some(active@)),
        Ok(None) => Ok(None),
        Err(e) => Err(e@),
    }
}

/// What is said of the active toolchain: the toolchain, with what made it
/// active, and its compiler's version; that there is none; or why it could not
/// be found out.
pub open spec fn active_lines(
    found: Result<Option<ActiveToolchainView>, ErrorView>,
    version: Seq<char>,
) -> Seq<ShowLineView> {
    match found {
        Ok(Some(active)) => seq![plain(active_label(active)), plain(version)],
        Ok(None) => seq![plain("no active toolchain"@)],
        Err(e) => seq![plain(failure_label(e))],
    }
}

/// The overview. The default host comes first. The installed toolchains are
/// listed where there is more than one, and so are the targets of the active
/// toolchain; the active toolchain is always named. The sections have headings
/// where there is more than one section.
pub open spec fn show_lines(
    host: Seq<char>,
    installed: Seq<Seq<char>>,
    default_name: Seq<char>,
    targets: Seq<Seq<char>>,
    found: Result<Option<ActiveToolchainView>, ErrorView>,
    version: Seq<char>,
) -> Seq<ShowLineView> {
    let headings = installed.len() > 1 || targets.len() > 1;
    let toolchains = if installed.len() > 1 {
        framed(
            "installed toolchains"@,
            installed.map_values(|name: Seq<char>| installed_line(name, default_name)),
            headings,
        )
    } else {
        Seq::empty()
    };
    let platforms = if targets.len() > 1 {
        framed(
            "installed targets for active toolchain"@,
            targets.map_values(|target: Seq<char>| plain(target)),
            headings,
        )
    } else {
        Seq::empty()
    };
    seq![ShowLineView { bold: "Default host: "@, plain: host }, plain(Seq::empty())] + toolchains
        + platforms + framed("active toolchain"@, active_lines(found, version), headings)
}

/// A line without bold.
fn plain_line(text: String) -> (line: ShowLine)
    ensures
        line@ == plain(text@),
{
    ShowLine { bold: String::new(), plain: text }
}

/// A line all in bold.
fn bold_line(text: String) -> (line: ShowLine)
    ensures
        line@ == bold(text@),
{
    ShowLine { bold: text, plain: String::new() }
}

/// As many dashes as `title` has characters.
fn underline(title: &str) -> (line: String)
    ensures
        line@ == dashes(title@.len()),
{
    let n = title.unicode_len();
    let mut line = String::new();
    let mut i: usize = 0;
    assert(line@ =~= dashes(0));
    while i < n
        invariant
            i <= n,
            line@ == dashes(i as nat),
        decreases n - i,
    {
        line.append("-");
        proof {
            reveal_strlit("-");
            assert("-"@ =~= seq!['-']);
            assert(line@ =~= dashes((i + 1) as nat));
        }
        i += 1;
    }
    line
}

/// Puts a section at the end of the overview.
fn add_section(lines: &mut Vec<ShowLine>, title: &str, mut body: Vec<ShowLine>, headings: bool)
    ensures
        line_views(final(lines)@) == line_views(old(lines)@) + framed(
            title@,
            line_views(body@),
            headings,
        ),
{
    let ghost before = line_views(lines@);
    let ghost inner = line_views(body@);
    if headings {
        lines.push(bold_line(title.to_owned()));
        lines.push(bold_line(underline(title)));
        lines.push(bold_line(String::new()));
        assert(line_views(lines@) =~= before + heading(title@));
    }
    let ghost so_far = line_views(lines@);
    lines.append(&mut body);
    assert(line_views(lines@) =~= so_far + inner);
    if headings {
        lines.push(plain_line(String::new()));
        assert(line_views(lines@) =~= before + framed(title@, inner, headings));
    } else {
        assert(line_views(lines@) =~= before + framed(title@, inner, headings));
    }
}

/// The overview of the installation. `default_name` is looked at only where
/// more than one toolchain is installed, and `version` only where a toolchain
/// is active.
pub fn show(
    host: &str,
    installed: &Vec<String>,
    default_name: &str,
    targets: &Vec<String>,
    found: &Result<Option<ActiveToolchain>, Error>,
    version: &str,
) -> (lines: Vec<ShowLine>)
    ensures
        line_views(lines@) == show_lines(
            host@,
            texts(installed@),
            default_name@,
            texts(targets@),
            found_view(*found),
            version@,
        ),
{
    let headings = installed.len() > 1 || targets.len() > 1;
    let mut lines: Vec<ShowLine> = Vec::new();
    lines.push(ShowLine { bold: "Default host: ".to_owned(), plain: host.to_owned() });
    lines.push(plain_line(String::new()));
    let ghost opening = line_views(lines@);
    assert(opening =~= seq![
        ShowLineView { bold: "Default host: "@, plain: host@ },
        plain(Seq::empty()),
    ]);
    if installed.len() > 1 {
        let ghost names = texts(installed@);
        let ghost listed = |name: Seq<char>| installed_line(name, default_name@);
        let mut body: Vec<ShowLine> = Vec::new();
        let mut i: usize = 0;
        assert(line_views(body@) =~= names.take(0).map_values(listed));
        while i < installed.len()
            invariant
                i <= installed.len(),
                names == texts(installed@),
                listed == |name: Seq<char>| installed_line(name, default_name@),
                line_views(body@) == names.take(i as int).map_values(listed),
            decreases installed.len() - i,
        {
            let ghost before = line_views(body@);
            let name = &installed[i];
            if same_text(name.as_str(), default_name) {
                let marked = glue(name.as_str(), " (default)", "");
                proof {
                    reveal_strlit("");
                    assert(marked@ =~= name@ + " (default)"@);
                }
                body.push(plain_line(marked));
            } else {
                body.push(plain_line(name.clone()));
            }
            assert(line_views(body@) =~= before.push(listed(names[i as int])));
            assert(names.take(i + 1).map_values(listed) =~= names.take(i as int).map_values(
                listed,
            ).push(listed(names[i as int])));
            i += 1;
        }
        assert(names.take(i as int) =~= names);
        add_section(&mut lines, "installed toolchains", body, headings);
    }
    let ghost with_toolchains = line_views(lines@);
    if targets.len() > 1 {
        let ghost names = texts(targets@);
        let ghost listed = |target: Seq<char>| plain(target);
        let mut body: Vec<ShowLine> = Vec::new();
        let mut i: usize = 0;
        assert(line_views(body@) =~= names.take(0).map_values(listed));
        while i < targets.len()
            invariant
                i <= targets.len(),
                names == texts(targets@),
                listed == |target: Seq<char>| plain(target),
                line_views(body@) == names.take(i as int).map_values(listed),
            decreases targets.len() - i,
        {
            let ghost before = line_views(body@);
            body.push(plain_line(targets[i].clone()));
            assert(line_views(body@) =~= before.push(listed(names[i as int])));
            assert(names.take(i + 1).map_values(listed) =~= names.take(i as int).map_values(
                listed,
            ).push(listed(names[i as int])));
            i += 1;
        }
        assert(names.take(i as int) =~= names);
        add_section(&mut lines, "installed targets for active toolchain", body, headings);
    }
    let mut body: Vec<ShowLine> = Vec::new();
    match found {
        Ok(Some(active)) => {
            body.push(plain_line(label_active(active)));
            body.push(plain_line(version.to_owned()));
        },
        Ok(None) => {
            body.push(plain_line("no active toolchain".to_owned()));
        },
        Err(e) => {
            body.push(plain_line(label_failure(e)));
        },
    }
    assert(line_views(body@) =~= active_lines(found_view(*found), version@));
    add_section(&mut lines, "active toolchain", body, headings);
    lines
}

} // verus!
