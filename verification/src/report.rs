//! What the user is told, in words: the findings of the checks as messages.

use crate::diagnostic::{Advice, AdviceView, Diagnosis};
use crate::text::{glue, texts};
use crate::unset::{UnsetNotice, UnsetNoticeView};
use vstd::prelude::*;

verus! {

/// How a message reaches the user.
#[derive(Clone, Copy, Debug, PartialEq, Eq, Hash, Structural)]
pub enum Level {
    /// A line of the command's output.
    Output,
    /// Something worth knowing.
    Info,
    /// Something that may not be what the user meant.
    Warning,
    /// Something that went wrong.
    Failure,
}

/// One message: a line of text and how it is to be shown.
#[derive(Clone, Debug, PartialEq, Eq, Hash)]
pub struct Message {
    pub level: Level,
    pub text: String,
}

/// A message as a mathematical value.
pub struct MessageView {
    pub level: Level,
    pub text: Seq<char>,
}

impl View for Message {
    type V = MessageView;

    open spec fn view(&self) -> MessageView {
        MessageView { level: self.level, text: self.text@ }
    }
}

/// What each message holds.
pub open spec fn message_views(messages: Seq<Message>) -> Seq<MessageView> {
    Seq::new(messages.len(), |k: int| messages[k]@)
}

/// A line of output.
pub open spec fn output(text: Seq<char>) -> MessageView {
    MessageView { level: Level::Output, text }
}

/// The warning that every triple given for a toolchain earns.
pub open spec fn triple_warning() -> MessageView {
    MessageView {
        level: Level::Warning,
        text: "(partial) target triple specified instead of toolchain name"@,
    }
}

/// The advice in words. `name` is the triple as the user gave it.
pub open spec fn advice_messages(advice: AdviceView, name: Seq<char>) -> Seq<MessageView> {
    match advice {
        AdviceView::NoCandidates => seq![
            MessageView { level: Level::Failure, text: "no candidate toolchains found"@ },
        ],
        AdviceView::UseToolchain(toolchain) => seq![
            output(Seq::empty()),
            output("you may use the following toolchain: "@ + toolchain),
            output(Seq::empty()),
        ],
        AdviceView::UseOneOf(toolchains) => seq![
            output(Seq::empty()),
            output("you may use one of the following toolchains:"@),
        ] + toolchains.map_values(|toolchain: Seq<char>| output(toolchain)) + seq![
            output(Seq::empty()),
        ],
        AdviceView::AlreadyDefault => seq![
            MessageView {
                level: Level::Warning,
                text: "(partial) triple '"@ + name
                    + "' resolves to a toolchain that is already default"@,
            },
        ],
    }
}

/// A notice about an override in words.
pub open spec fn notice_message(notice: UnsetNoticeView) -> MessageView {
    MessageView {
        level: Level::Info,
        text: match notice {
            UnsetNoticeView::NoNonexistentPaths => "no nonexistent paths detected"@,
            UnsetNoticeView::Removed(path) => "override toolchain for '"@ + path + "' removed"@,
            UnsetNoticeView::NotFound(path) => "no override toolchain for '"@ + path + "'"@,
            UnsetNoticeView::PathHint =>
                "you may use `--path <path>` option to remove override toolchain for a specific path"@,
        },
    }
}

impl Message {
    /// A line of output.
    pub fn output(text: String) -> (m: Message)
        ensures
            m@ == output(text@),
    {
        Message { level: Level::Output, text }
    }

    /// The warning that every triple given for a toolchain earns.
    pub fn triple_warning() -> (m: Message)
        ensures
            m@ == triple_warning(),
    {
        Message {
            level: Level::Warning,
            text: "(partial) target triple specified instead of toolchain name".to_owned(),
        }
    }
}

impl Advice {
    /// The advice in words. `name` is the triple as the user gave it.
    pub fn messages(&self, name: &str) -> (said: Vec<Message>)
        ensures
            message_views(said@) == advice_messages(self@, name@),
    {
        let mut said: Vec<Message> = Vec::new();
        match self {
            Advice::NoCandidates => {
                said.push(
                    Message {
                        level: Level::Failure,
                        text: "no candidate toolchains found".to_owned(),
                    },
                );
                assert(message_views(said@) =~= advice_messages(self@, name@));
            },
            Advice::UseToolchain(toolchain) => {
                said.push(Message::output(String::new()));
                said.push(
                    Message::output(glue("you may use the following toolchain: ", toolchain.as_str(), "")),
                );
                said.push(Message::output(String::new()));
                proof {
                    reveal_strlit("");
                    assert("you may use the following toolchain: "@ + toolchain@ + ""@
                        =~= "you may use the following toolchain: "@ + toolchain@);
                    assert(message_views(said@) =~= advice_messages(self@, name@));
                }
            },
            Advice::UseOneOf(toolchains) => {
                said.push(Message::output(String::new()));
                said.push(Message::output("you may use one of the following toolchains:".to_owned()));
                let ghost names = texts(toolchains@);
                let ghost line = |toolchain: Seq<char>| output(toolchain);
                let ghost head = message_views(said@);
                let mut i: usize = 0;
                assert(names.take(0).map_values(line) =~= Seq::empty());
                assert(message_views(said@) =~= head + names.take(0).map_values(line));
                while i < toolchains.len()
                    invariant
                        i <= toolchains.len(),
                        names == texts(toolchains@),
                        line == |toolchain: Seq<char>| output(toolchain),
                        message_views(said@) == head + names.take(i as int).map_values(line),
                    decreases toolchains.len() - i,
                {
                    let ghost before = message_views(said@);
                    said.push(Message::output(toolchains[i].clone()));
                    assert(message_views(said@) =~= before.push(output(names[i as int])));
                    assert(names.take(i + 1).map_values(line) =~= names.take(i as int).map_values(
                        line,
                    ).push(output(names[i as int])));
                    i += 1;
                }
                assert(names.take(i as int) =~= names);
                let ghost before = message_views(said@);
                said.push(Message::output(String::new()));
                assert(message_views(said@) =~= before.push(output(Seq::empty())));
                assert(message_views(said@) =~= advice_messages(self@, name@));
            },
            Advice::AlreadyDefault => {
                said.push(
                    Message {
                        level: Level::Warning,
                        text: glue(
                            "(partial) triple '",
                            name,
                            "' resolves to a toolchain that is already default",
                        ),
                    },
                );
                assert(message_views(said@) =~= advice_messages(self@, name@));
            },
        }
        said
    }
}

impl Diagnosis {
    /// All that the user is told of a triple given for a toolchain: the warning,
    /// then the advice. `name` is the triple as the user gave it.
    pub fn messages(&self, name: &str) -> (said: Vec<Message>)
        ensures
            message_views(said@) == seq![triple_warning()] + advice_messages(self.advice@, name@),
    {
        let mut said: Vec<Message> = Vec::new();
        said.push(Message::triple_warning());
        let mut advice = self.advice.messages(name);
        let ghost first = message_views(said@);
        let ghost rest = message_views(advice@);
        said.append(&mut advice);
        assert(message_views(said@) =~= first + rest);
        said
    }
}

impl UnsetNotice {
    /// The notice in words.
    pub fn message(&self) -> (m: Message)
        ensures
            m@ == notice_message(self@),
    {
        let text = match self {
            UnsetNotice::NoNonexistentPaths => "no nonexistent paths detected".to_owned(),
            UnsetNotice::Removed(path) => glue("override toolchain for '", path.as_str(), "' removed"),
            UnsetNotice::NotFound(path) => glue("no override toolchain for '", path.as_str(), "'"),
            UnsetNotice::PathHint =>
                "you may use `--path <path>` option to remove override toolchain for a specific path".to_owned(),
        };
        Message { level: Level::Info, text }
    }
}

} // verus!
