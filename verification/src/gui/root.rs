//! The root of the component tree: the channel list beside the content
//! area, and the messages of both under one type.

use crate::config::AppConfig;
use crate::gui::channels::ChannelsView;
use crate::gui::content::ContentView;
use crate::gui::{
    embed, forward, lemma_retagged_is_mapped, map_node, map_task, no_preview, nodes_of, Component,
    Element, Node, PreviewUnsupported, Task,
};
use vstd::prelude::*;

verus! {

/// The messages of the root: its own, and those of each part under the
/// part's tag.
#[derive(Debug, Clone, Copy, PartialEq, Eq)]
pub enum Message {
    /// Leave the application.
    Exit,
    /// A message of the channel list.
    Channels(super::channels::Message),
    /// A message of the content area.
    Content(super::content::Message),
}

/// The root component. It owns one instance of each part.
#[derive(Debug, Clone, PartialEq, Eq)]
pub struct RootView {
    pub channels: ChannelsView,
    pub content: ContentView,
}

/// The tag that puts a message of the channel list among the root's.
pub open spec fn channels_tag() -> spec_fn(super::channels::Message) -> Message {
    |message: super::channels::Message| Message::Channels(message)
}

/// The tag that puts a message of the content area among the root's.
pub open spec fn content_tag() -> spec_fn(super::content::Message) -> Message {
    |message: super::content::Message| Message::Content(message)
}

/// The message of the channel list that a root message holds, if it holds
/// one.
pub open spec fn channels_message(message: Message) -> Option<super::channels::Message> {
    match message {
        Message::Channels(inner) => Some(inner),
        _ => None,
    }
}

/// The message of the content area that a root message holds, if it holds
/// one.
pub open spec fn content_message(message: Message) -> Option<super::content::Message> {
    match message {
        Message::Content(inner) => Some(inner),
        _ => None,
    }
}

impl Default for RootView {
    fn default() -> (r: Self)
        ensures
            r.channels.channels@.len() == 0,
    {
        RootView { channels: ChannelsView::default(), content: ContentView {  } }
    }
}

impl RootView {
    /// The root as the application starts it: an empty channel list and an
    /// empty content area, whatever the configuration says.
    pub fn new(_config: AppConfig) -> (r: Self)
        ensures
            r.channels.channels@.len() == 0,
    {
        RootView { channels: ChannelsView::default(), content: ContentView {  } }
    }
}

impl Component for RootView {
    type Message = Message;

    open spec fn takes(message: Message) -> bool {
        match message {
            Message::Exit => true,
            Message::Channels(inner) => ChannelsView::takes(inner),
            Message::Content(inner) => ContentView::takes(inner),
        }
    }

    open spec fn next(self, message: Message) -> (Self, Task<Message>) {
        match message {
            Message::Exit => (self, Task::CloseLatestWindow),
            Message::Channels(inner) => {
                let (channels, task) = self.channels.next(inner);
                (RootView { channels, content: self.content }, map_task(task, channels_tag()))
            },
            Message::Content(inner) => {
                let (content, task) = self.content.next(inner);
                (RootView { channels: self.channels, content }, map_task(task, content_tag()))
            },
        }
    }

    open spec fn shown(&self) -> Node<Message> {
        Node::Row(
            seq![
                map_node(self.channels.shown(), channels_tag()),
                Node::VerticalRule { width: 0 },
                map_node(self.content.shown(), content_tag()),
            ],
        )
    }

    open spec fn initial() -> Option<(Self, Task<Message>)> {
        None
    }

    fn preview() -> (r: Result<(Self, Task<Message>), PreviewUnsupported>) {
        no_preview()
    }

    fn update(&mut self, message: Message) -> (task: Task<Message>) {
        match message {
            Message::Exit => Task::CloseLatestWindow,
            Message::Channels(inner) => {
                let to_root = |m: super::channels::Message| -> (r: Message)
                    ensures
                        r == Message::Channels(m),
                    { Message::Channels(m) };
                forward(&mut self.channels, inner, to_root)
            },
            Message::Content(inner) => {
                let to_root = |m: super::content::Message| -> (r: Message)
                    ensures
                        r == Message::Content(m),
                    { Message::Content(m) };
                forward(&mut self.content, inner, to_root)
            },
        }
    }

    fn view(&self) -> (tree: Element<Message>) {
        let to_channels = |m: super::channels::Message| -> (r: Message)
            ensures
                r == Message::Channels(m),
            { Message::Channels(m) };
        let to_content = |m: super::content::Message| -> (r: Message)
            ensures
                r == Message::Content(m),
            { Message::Content(m) };
        let left = embed(&self.channels, &to_channels);
        let right = embed(&self.content, &to_content);
        proof {
            lemma_retagged_is_mapped(self.channels.shown(), left@, to_channels, channels_tag());
            lemma_retagged_is_mapped(self.content.shown(), right@, to_content, content_tag());
        }
        let mut parts: Vec<Element<Message>> = Vec::new();
        parts.push(left);
        parts.push(Element::VerticalRule { width: 0 });
        parts.push(right);
        proof {
            assert(nodes_of(parts@) =~= self.shown()->Row_0);
        }
        Element::Row(parts)
    }
}

/// Tagging a message of a part and taking it out again gives the message
/// back, and the other part finds nothing of its own in the tagged message.
pub proof fn lemma_tag_round_trip(
    of_channels: super::channels::Message,
    of_content: super::content::Message,
)
    ensures
        channels_message(channels_tag()(of_channels)) == Some(of_channels),
        content_message(channels_tag()(of_channels)) is None,
        content_message(content_tag()(of_content)) == Some(of_content),
        channels_message(content_tag()(of_content)) is None,
{
}

/// A root message belongs to at most one part, and a message that a part
/// finds in it is the one that was tagged.
pub proof fn lemma_one_origin(message: Message)
    ensures
        !(channels_message(message) is Some && content_message(message) is Some),
        channels_message(message) matches Some(inner) ==> message == channels_tag()(inner),
        content_message(message) matches Some(inner) ==> message == content_tag()(inner),
        message is Exit <==> channels_message(message) is None && content_message(message) is None,
{
}

/// A tagged message reaches the part that it came from and no other: that
/// part moves as its own `update` says, the other part stays as it is, and
/// the task is the part's task under the same tag.
pub proof fn lemma_routes_to_origin(
    root: RootView,
    of_channels: super::channels::Message,
    of_content: super::content::Message,
)
    ensures
        root.next(channels_tag()(of_channels)).0.channels == root.channels.next(of_channels).0,
        root.next(channels_tag()(of_channels)).0.content == root.content,
        root.next(channels_tag()(of_channels)).1 == map_task(
            root.channels.next(of_channels).1,
            channels_tag(),
        ),
        root.next(content_tag()(of_content)).0.content == root.content.next(of_content).0,
        root.next(content_tag()(of_content)).0.channels == root.channels,
        root.next(content_tag()(of_content)).1 == map_task(
            root.content.next(of_content).1,
            content_tag(),
        ),
{
}

/// The parts have no messages, so none can be sent to them: the root takes
/// `Exit` and nothing else, and `update` of a part is never reached.
pub proof fn lemma_parts_take_no_message(
    message: Message,
    of_channels: super::channels::Message,
    of_content: super::content::Message,
)
    ensures
        !ChannelsView::takes(of_channels),
        !ContentView::takes(of_content),
        RootView::takes(message) <==> message is Exit,
{
}

} // verus!
