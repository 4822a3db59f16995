//! The area that shows the content of a note.

use crate::gui::{no_preview, nodes_of, Component, Element, Node, PreviewUnsupported, Task};
use core::convert::Infallible;
use vstd::prelude::*;

verus! {

/// The messages of the content area: there is none yet, and no value of
/// this type can be made.
#[derive(Debug, Clone, Copy, PartialEq, Eq)]
pub enum Message {
    Never(Infallible),
}

/// The content area.
#[derive(Debug, Default, Clone, PartialEq, Eq)]
pub struct ContentView {}

/// What the content area shows: a heading and a line below it.
pub open spec fn content_tree() -> Node<Message> {
    Node::Column(
        seq![
            Node::Text { content: "Content Area"@, size: Some(24u16) },
            Node::Text { content: "This is where the content will be displayed."@, size: None },
        ],
    )
}

impl Component for ContentView {
    type Message = Message;

    open spec fn takes(message: Message) -> bool {
        false
    }

    open spec fn next(self, message: Message) -> (Self, Task<Message>) {
        (self, Task::Idle)
    }

    open spec fn shown(&self) -> Node<Message> {
        content_tree()
    }

    open spec fn initial() -> Option<(Self, Task<Message>)> {
        None
    }

    fn preview() -> (r: Result<(Self, Task<Message>), PreviewUnsupported>) {
        no_preview()
    }

    fn update(&mut self, message: Message) -> (task: Task<Message>) {
        match message {
            Message::Never(_) => Task::Idle,
        }
    }

    fn view(&self) -> (tree: Element<Message>) {
        let mut lines: Vec<Element<Message>> = Vec::new();
        lines.push(Element::Text { content: String::from_str("Content Area"), size: Some(24) });
        lines.push(
            Element::Text {
                content: String::from_str("This is where the content will be displayed."),
                size: None,
            },
        );
        proof {
            assert(nodes_of(lines@) =~= content_tree()->Column_0);
        }
        Element::Column(lines)
    }
}

} // verus!
