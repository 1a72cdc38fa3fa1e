//! Failures that toolchain resolution reports.

use vstd::prelude::*;

verus! {

/// What went wrong in an I/O operation, as far as resolution cares.
#[derive(Clone, Copy, Debug, PartialEq, Eq, Hash, Structural)]
pub enum IoErrorKind {
    /// The reader of our output went away.
    BrokenPipe,
    /// The thing asked for is not there.
    NotFound,
    /// The operation was not allowed.
    PermissionDenied,
    /// Anything else.
    Other,
}

/// The kinds of failure.
#[derive(Clone, Debug, PartialEq, Eq, Hash)]
pub enum ErrorKind {
    /// Reading or writing failed; the text is what the system said.
    Io(IoErrorKind, String),
    /// A triple was given in place of a toolchain, and no installed toolchain
    /// goes with it.
    NoCandidateToolchains,
    /// The toolchain of this name is not installed.
    ToolchainNotInstalled(String),
    /// The name is no toolchain's name.
    InvalidToolchainName(String),
    /// The toolchain registry or the settings store failed; the text is what it
    /// said.
    Registry(String),
}

/// A failure, with what caused it where that is known.
#[derive(Clone, Debug, PartialEq, Eq, Hash)]
pub struct Error {
    pub kind: ErrorKind,
    pub cause: Option<String>,
}

/// A failure kind as a mathematical value.
pub enum ErrorKindView {
    Io(IoErrorKind, Seq<char>),
    NoCandidateToolchains,
    ToolchainNotInstalled(Seq<char>),
    InvalidToolchainName(Seq<char>),
    Registry(Seq<char>),
}

/// A failure as a mathematical value.
pub struct ErrorView {
    pub kind: ErrorKindView,
    pub cause: Option<Seq<char>>,
}

impl View for ErrorKind {
    type V = ErrorKindView;

    open spec fn view(&self) -> ErrorKindView {
        match *self {
            ErrorKind::Io(kind, said) => ErrorKindView::Io(kind, said@),
            ErrorKind::NoCandidateToolchains => ErrorKindView::NoCandidateToolchains,
            ErrorKind::ToolchainNotInstalled(name) => ErrorKindView::ToolchainNotInstalled(name@),
            ErrorKind::InvalidToolchainName(name) => ErrorKindView::InvalidToolchainName(name@),
            ErrorKind::Registry(said) => ErrorKindView::Registry(said@),
        }
    }
}

impl View for Error {
    type V = ErrorView;

    open spec fn view(&self) -> ErrorView {
        ErrorView {
            kind: self.kind@,
            cause: match self.cause {
                Some(cause) => Some(cause@),
                None => None,
            },
        }
    }
}

impl ErrorKindView {
    /// The failure in words.
    pub open spec fn text(self) -> Seq<char> {
        match self {
            ErrorKindView::Io(_, said) => said,
            ErrorKindView::NoCandidateToolchains => "no candidate toolchains found"@,
            ErrorKindView::ToolchainNotInstalled(name) => "toolchain '"@ + name
                + "' is not installed"@,
            ErrorKindView::InvalidToolchainName(name) => "invalid toolchain name: '"@ + name
                + "'"@,
            ErrorKindView::Registry(said) => said,
        }
    }
}

impl Error {
    /// The failure in words, without its cause.
    pub fn message(&self) -> (said: String)
        ensures
            said@ == self@.kind.text(),
    {
        match &self.kind {
            ErrorKind::Io(_, said) => said.clone(),
            ErrorKind::NoCandidateToolchains => "no candidate toolchains found".to_owned(),
            ErrorKind::ToolchainNotInstalled(name) => {
                let mut said = "toolchain '".to_owned();
                said.append(name.as_str());
                said.append("' is not installed");
                said
            },
            ErrorKind::InvalidToolchainName(name) => {
                let mut said = "invalid toolchain name: '".to_owned();
                said.append(name.as_str());
                said.append("'");
                said
            },
            ErrorKind::Registry(said) => said.clone(),
        }
    }

    /// A failure of the given kind of which no cause is known.
    pub fn new(kind: ErrorKind) -> (e: Error)
        ensures
            e.kind == kind,
            e.cause is None,
    {
        Error { kind, cause: None }
    }

    /// The failure to find the toolchain `name` installed.
    pub fn toolchain_not_installed(name: &str) -> (e: Error)
        ensures
            e@ == (ErrorView { kind: ErrorKindView::ToolchainNotInstalled(name@), cause: None }),
    {
        Error { kind: ErrorKind::ToolchainNotInstalled(name.to_owned()), cause: None }
    }

    /// The failure to read `name` as a toolchain's name.
    pub fn invalid_toolchain_name(name: &str) -> (e: Error)
        ensures
            e@ == (ErrorView { kind: ErrorKindView::InvalidToolchainName(name@), cause: None }),
    {
        Error { kind: ErrorKind::InvalidToolchainName(name.to_owned()), cause: None }
    }

    /// Whether the failure is a write to a reader that went away.
    pub open spec fn is_broken_pipe(self) -> bool {
        self.kind matches ErrorKind::Io(kind, _) && kind == IoErrorKind::BrokenPipe
    }
}

/// A command whose output went to a closed pipe has not failed: whoever read it
/// had seen enough. Every other result stays what it is.
pub fn handle_epipe(res: Result<(), Error>) -> (handled: Result<(), Error>)
    ensures
        handled == (match res {
            Err(e) if e.is_broken_pipe() => Ok(()),
            _ => res,
        }),
{
    match res {
        Err(Error { kind: ErrorKind::Io(IoErrorKind::BrokenPipe, _), cause: _ }) => Ok(()),
        res => res,
    }
}

} // verus!
