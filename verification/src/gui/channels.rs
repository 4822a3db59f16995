//! The list of channels.

use crate::gui::{no_preview, nodes_of, Component, Element, Node, PreviewUnsupported, Task};
use crate::schema::Channels;
use core::convert::Infallible;
use vstd::prelude::*;

verus! {

/// The messages of the channel list: there is none yet, and no value of
/// this type can be made.
#[derive(Debug, Clone, Copy, PartialEq, Eq)]
pub enum Message {
    Never(Infallible),
}

/// The channel list.
#[derive(Debug, Clone, PartialEq, Eq)]
pub struct ChannelsView {
    pub channels: Channels,
}

impl Default for ChannelsView {
    fn default() -> (r: Self)
        ensures
            r.channels@.len() == 0,
    {
        ChannelsView { channels: Vec::new() }
    }
}

/// The number of rows that the list shows.
pub const ROWS: u32 = 20;

/// The character of a decimal digit.
pub open spec fn digit_char(d: nat) -> char {
    if d == 0 {
        '0'
    } else if d == 1 {
        '1'
    } else if d == 2 {
        '2'
    } else if d == 3 {
        '3'
    } else if d == 4 {
        '4'
    } else if d == 5 {
        '5'
    } else if d == 6 {
        '6'
    } else if d == 7 {
        '7'
    } else if d == 8 {
        '8'
    } else {
        '9'
    }
}

/// A number in decimal notation, without leading zeros.
pub open spec fn decimal(n: nat) -> Seq<char>
    decreases n,
{
    if n < 10 {
        seq![digit_char(n)]
    } else {
        decimal(n / 10).push(digit_char(n % 10))
    }
}

/// The text of the row with the given number, counted from one.
pub open spec fn row_text(number: nat) -> Seq<char> {
    decimal(number) + " vertical scrollable  "@
}

/// What the channel list shows: its rows one below the other, scrollable.
pub open spec fn channels_tree() -> Node<Message> {
    Node::Scrollable(
        Box::new(
            Node::Column(
                Seq::new(
                    ROWS as nat,
                    |i: int| Node::Text { content: row_text((i + 1) as nat), size: None },
                ),
            ),
        ),
    )
}

/// The decimal digit `d` as a string.
fn digit_str(d: u32) -> (r: &'static str)
    requires
        d < 10,
    ensures
        r@ == seq![digit_char(d as nat)],
{
    proof {
        reveal_strlit("0");
        reveal_strlit("1");
        reveal_strlit("2");
        reveal_strlit("3");
        reveal_strlit("4");
        reveal_strlit("5");
        reveal_strlit("6");
        reveal_strlit("7");
        reveal_strlit("8");
        reveal_strlit("9");
    }
    let r = match d {
        0 => "0",
        1 => "1",
        2 => "2",
        3 => "3",
        4 => "4",
        5 => "5",
        6 => "6",
        7 => "7",
        8 => "8",
        _ => "9",
    };
    assert(r@ =~= seq![digit_char(d as nat)]);
    r
}

/// Writes a number in decimal notation.
pub fn decimal_string(n: u32) -> (r: String)
    ensures
        r@ == decimal(n as nat),
    decreases n,
{
    if n < 10 {
        String::from_str(digit_str(n))
    } else {
        let mut text = decimal_string(n / 10);
        text.append(digit_str(n % 10));
        assert(text@ =~= decimal(n as nat));
        text
    }
}

/// The label of the row with the given number.
pub fn row_label(number: u32) -> (r: String)
    ensures
        r@ == row_text(number as nat),
{
    let mut text = decimal_string(number);
    text.append(" vertical scrollable  ");
    text
}

impl Component for ChannelsView {
    type Message = Message;

    open spec fn takes(message: Message) -> bool {
        false
    }

    open spec fn next(self, message: Message) -> (Self, Task<Message>) {
        (self, Task::Idle)
    }

    open spec fn shown(&self) -> Node<Message> {
        channels_tree()
    }

    open spec fn initial() -> Option<(Self, Task<Message>)> {
        None
    }

    fn preview() -> (r: Result<(Self, Task<Message>), PreviewUnsupported>) {
        no_preview()
    }

    fn update(&mut self, message: Message) -> (task: Task<Message>) {
        match message {
            Message::Never(_) => Task::Idle,
        }
    }

    fn view(&self) -> (tree: Element<Message>) {
        let mut rows: Vec<Element<Message>> = Vec::new();
        let mut i: u32 = 0;
        while i < ROWS
            invariant
                i <= ROWS,
                rows@.len() == i,
                forall|j: int|
                    0 <= j < i ==> #[trigger] rows@[j] == (Element::<Message>::Text {
                        content: rows@[j]->Text_content,
                        size: None,
                    }) && rows@[j]->Text_content@ == row_text((j + 1) as nat),
            decreases ROWS - i,
        {
            rows.push(Element::Text { content: row_label(i + 1), size: None });
            i = i + 1;
        }
        proof {
            assert(nodes_of(rows@) =~= channels_tree()->Scrollable_0->Column_0);
        }
        let column = Element::Column(rows);
        assert(column@ == *channels_tree()->Scrollable_0);
        Element::Scrollable(Box::new(column))
    }
}

} // verus!
