//! The conversations on the chat platform.

use vstd::prelude::*;
use vstd::string::*;

verus! {

/// The conversation that a batch or a reply goes to.
#[derive(Clone, Copy, Debug, PartialEq, Eq, Hash, Structural)]
pub struct Destination {
    pub chat_id: i64,
}

/// What is known of a conversation's kind and of who is in it.
#[derive(Debug, PartialEq, Eq)]
pub enum ChatKind {
    /// A conversation with one person.
    Private { username: Option<String>, first_name: Option<String>, last_name: Option<String> },
    /// A group, a supergroup or a channel.
    Public { title: Option<String> },
}

/// A `ChatKind` as plain mathematical values.
pub enum ChatKindView {
    Private {
        username: Option<Seq<char>>,
        first_name: Option<Seq<char>>,
        last_name: Option<Seq<char>>,
    },
    Public { title: Option<Seq<char>> },
}

/// The characters of an optional string.
pub open spec fn optional_text(text: Option<String>) -> Option<Seq<char>> {
    match text {
        Some(s) => Some(s@),
        None => None,
    }
}

/// The characters of an optional text, and none where there is no text.
pub open spec fn text_or_empty(text: Option<Seq<char>>) -> Seq<char> {
    match text {
        Some(s) => s,
        None => Seq::empty(),
    }
}

impl View for ChatKind {
    type V = ChatKindView;

    open spec fn view(&self) -> ChatKindView {
        match *self {
            ChatKind::Private { username, first_name, last_name } => ChatKindView::Private {
                username: optional_text(username),
                first_name: optional_text(first_name),
                last_name: optional_text(last_name),
            },
            ChatKind::Public { title } => ChatKindView::Public { title: optional_text(title) },
        }
    }
}

impl ChatKindView {
    /// How a conversation is named in the log: `first last <username>` for a person,
    /// the title for a group or channel; a part that is not known is left empty.
    pub open spec fn label(self) -> Seq<char> {
        match self {
            ChatKindView::Private { username, first_name, last_name } => text_or_empty(first_name)
                + " "@ + text_or_empty(last_name) + " <"@ + text_or_empty(username) + ">"@,
            ChatKindView::Public { title } => text_or_empty(title),
        }
    }
}

/// Appends an optional text to `target`, and nothing when there is none.
fn append_optional(target: &mut String, text: &Option<String>)
    ensures
        final(target)@ == old(target)@ + text_or_empty(optional_text(*text)),
{
    match text {
        Some(s) => {
            target.append(s.as_str());
        },
        None => {
            assert(target@ + Seq::<char>::empty() =~= target@);
        },
    }
}

impl ChatKind {
    /// The name under which the conversation appears in the log.
    pub fn label(&self) -> (label: String)
        ensures
            label@ == self@.label(),
    {
        let mut label = String::new();
        match self {
            ChatKind::Private { username, first_name, last_name } => {
                append_optional(&mut label, first_name);
                label.append(" ");
                append_optional(&mut label, last_name);
                label.append(" <");
                append_optional(&mut label, username);
                label.append(">");
                assert(label@ =~= self@.label());
            },
            ChatKind::Public { title } => {
                append_optional(&mut label, title);
                assert(label@ =~= self@.label());
            },
        }
        label
    }
}

} // verus!
