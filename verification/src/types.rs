//! The messages, users and contents that pass through a channel.
use vstd::hash_map::StringHashMap;
use vstd::prelude::*;

use crate::json::{Field, FieldValue, Fields};
use crate::text::texts;

verus! {

/// The kind of a channel.
#[derive(Clone, Debug, PartialEq, Eq)]
pub enum ChannelType {
    /// A channel that goes by its own name.
    Custom(String),
}

/// Someone who takes part in a channel.
#[derive(Clone, Debug, PartialEq, Eq)]
pub struct ChannelUser {
    /// How the platform identifies the user.
    pub platform_id: String,
    /// The name to show.
    pub display_name: String,
    /// The local user that this one is known to be, if any.
    pub openfang_user: Option<String>,
}

/// What a message says.
#[derive(Clone, Debug, PartialEq, Eq)]
pub enum ChannelContent {
    /// Plain text.
    Text(String),
    /// A command with its arguments.
    Command { name: String, args: Vec<String> },
}

/// A moment, in seconds since the Unix epoch and nanoseconds after that second.
#[derive(Clone, Copy, Debug, PartialEq, Eq)]
pub struct Timestamp {
    pub seconds: i64,
    pub nanos: u32,
}

/// A message that came in through a channel.
pub struct ChannelMessage {
    /// The channel that the message came through.
    pub channel: ChannelType,
    /// How the platform identifies the message.
    pub platform_message_id: String,
    /// Who wrote the message.
    pub sender: ChannelUser,
    /// What the message says.
    pub content: ChannelContent,
    /// The agent that the message is meant for, if it names one.
    pub target_agent: Option<String>,
    /// When the message came in.
    pub timestamp: Timestamp,
    /// Whether the message comes out of a group.
    pub is_group: bool,
    /// The thread that the message belongs to, if any.
    pub thread_id: Option<String>,
    /// What else the platform says about the message.
    pub metadata: StringHashMap<FieldValue>,
}

/// The specification of a `ChannelType`.
pub enum ChannelTypeView {
    Custom(Seq<char>),
}

/// The specification of a `ChannelUser`.
pub struct UserView {
    pub platform_id: Seq<char>,
    pub display_name: Seq<char>,
    pub openfang_user: Option<Seq<char>>,
}

/// The specification of a `ChannelContent`.
pub enum ContentView {
    Text(Seq<char>),
    Command { name: Seq<char>, args: Seq<Seq<char>> },
}

/// The specification of a `ChannelMessage`.
pub struct MessageView {
    pub channel: ChannelTypeView,
    pub platform_message_id: Seq<char>,
    pub sender: UserView,
    pub content: ContentView,
    pub target_agent: Option<Seq<char>>,
    pub timestamp: Timestamp,
    pub is_group: bool,
    pub thread_id: Option<Seq<char>>,
    pub metadata: Fields,
}

/// The text of a string that may be missing.
pub open spec fn optional_text(text: Option<String>) -> Option<Seq<char>> {
    match text {
        Some(text) => Some(text@),
        None => None,
    }
}

impl View for ChannelType {
    type V = ChannelTypeView;

    open spec fn view(&self) -> ChannelTypeView {
        match self {
            ChannelType::Custom(name) => ChannelTypeView::Custom(name@),
        }
    }
}

impl View for ChannelUser {
    type V = UserView;

    open spec fn view(&self) -> UserView {
        UserView {
            platform_id: self.platform_id@,
            display_name: self.display_name@,
            openfang_user: optional_text(self.openfang_user),
        }
    }
}

impl View for ChannelContent {
    type V = ContentView;

    open spec fn view(&self) -> ContentView {
        match self {
            ChannelContent::Text(text) => ContentView::Text(text@),
            ChannelContent::Command { name, args } => ContentView::Command {
                name: name@,
                args: texts(args@),
            },
        }
    }
}

/// The fields that a map of values holds.
pub open spec fn stored_fields(values: Map<Seq<char>, FieldValue>) -> Fields {
    values.map_values(|value: FieldValue| value@)
}

impl View for ChannelMessage {
    type V = MessageView;

    open spec fn view(&self) -> MessageView {
        MessageView {
            channel: self.channel@,
            platform_message_id: self.platform_message_id@,
            sender: self.sender@,
            content: self.content@,
            target_agent: optional_text(self.target_agent),
            timestamp: self.timestamp,
            is_group: self.is_group,
            thread_id: optional_text(self.thread_id),
            metadata: stored_fields(self.metadata@),
        }
    }
}

} // verus!
