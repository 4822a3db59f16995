use noted_desktop::config::AppConfig;
use noted_desktop::gui::channels::{decimal_string, row_label, ChannelsView, ROWS};
use noted_desktop::gui::content::ContentView;
use noted_desktop::gui::root::Message;
use noted_desktop::gui::{
    embed, forward, no_preview, Component, Element, Node, PreviewUnsupported, RootView, Task,
};
use noted_desktop::schema::{Channel, ChannelGroup};

fn text(content: &str, size: Option<u16>) -> Element<u8> {
    Element::Text { content: content.to_string(), size }
}

/// A component with messages, to send some through the generic parts.
#[derive(Debug, Clone, PartialEq, Eq)]
struct Counter {
    count: u32,
}

impl Component for Counter {
    type Message = u32;

    // The four descriptions below exist for proofs only: nothing runs them.
    fn takes(_message: u32) -> bool {
        unreachable!()
    }

    fn next(self, _message: u32) -> (Self, Task<u32>) {
        unreachable!()
    }

    fn shown(&self) -> Node<u32> {
        unreachable!()
    }

    fn initial() -> Option<(Self, Task<u32>)> {
        unreachable!()
    }

    fn preview() -> Result<(Self, Task<u32>), PreviewUnsupported> {
        no_preview()
    }

    fn update(&mut self, message: u32) -> Task<u32> {
        self.count += message;
        if self.count >= 10 {
            Task::CloseLatestWindow
        } else if message == 0 {
            Task::Idle
        } else {
            Task::Done(message - 1)
        }
    }

    fn view(&self) -> Element<u32> {
        Element::Row(vec![
            Element::Text { content: self.count.to_string(), size: None },
            Element::Button { label: "+1".to_string(), on_press: 1 },
        ])
    }
}

#[test]
fn decimal_strings_have_no_leading_zeros() {
    assert_eq!(decimal_string(0), "0");
    assert_eq!(decimal_string(7), "7");
    assert_eq!(decimal_string(10), "10");
    assert_eq!(decimal_string(20), "20");
    assert_eq!(decimal_string(909), "909");
    assert_eq!(decimal_string(u32::MAX), "4294967295");
}

#[test]
fn row_labels_end_in_two_spaces() {
    assert_eq!(row_label(1), "1 vertical scrollable  ");
    assert_eq!(row_label(20), "20 vertical scrollable  ");
}

#[test]
fn channel_list_shows_twenty_rows() {
    let view = ChannelsView::default();
    assert!(view.channels.is_empty());
    assert_eq!(ROWS, 20);
    match view.view() {
        Element::Scrollable(inner) => match *inner {
            Element::Column(rows) => {
                assert_eq!(rows.len(), 20);
                for (i, row) in rows.iter().enumerate() {
                    let expected = format!("{} vertical scrollable  ", i + 1);
                    assert_eq!(*row, Element::Text { content: expected, size: None });
                }
            }
            other => panic!("not a column: {other:?}"),
        },
        other => panic!("not scrollable: {other:?}"),
    }
}

#[test]
fn channel_list_shows_the_same_whatever_it_holds() {
    let empty = ChannelsView::default();
    let filled = ChannelsView {
        channels: vec![ChannelGroup {
            name: Some("work".to_string()),
            channels: vec![Channel { id: 7, name: "inbox".to_string() }],
        }],
    };
    assert_eq!(empty.view(), filled.view());
}

#[test]
fn content_area_shows_a_heading_and_a_line() {
    let view = ContentView::default();
    assert_eq!(
        view.view(),
        Element::Column(vec![
            Element::Text { content: "Content Area".to_string(), size: Some(24) },
            Element::Text {
                content: "This is where the content will be displayed.".to_string(),
                size: None,
            },
        ])
    );
}

#[test]
fn view_is_the_same_each_time() {
    let root = RootView::new(AppConfig::default());
    let before = root.clone();
    let first = root.view();
    let second = root.view();
    assert_eq!(first, second);
    assert_eq!(root, before);
}

#[test]
fn root_shows_the_parts_side_by_side() {
    let root = RootView::new(AppConfig::default());
    assert_eq!(root, RootView::default());
    match root.view() {
        Element::Row(parts) => {
            assert_eq!(parts.len(), 3);
            assert!(matches!(&parts[0], Element::Scrollable(_)));
            assert_eq!(parts[1], Element::VerticalRule { width: 0 });
            match &parts[2] {
                Element::Column(lines) => {
                    assert_eq!(lines.len(), 2);
                    assert_eq!(
                        lines[0],
                        Element::Text { content: "Content Area".to_string(), size: Some(24) }
                    );
                }
                other => panic!("not a column: {other:?}"),
            }
            match &parts[0] {
                Element::Scrollable(inner) => match &**inner {
                    Element::Column(rows) => {
                        assert_eq!(rows.len(), 20);
                        assert_eq!(
                            rows[19],
                            Element::Text {
                                content: "20 vertical scrollable  ".to_string(),
                                size: None,
                            }
                        );
                    }
                    other => panic!("not a column: {other:?}"),
                },
                other => panic!("not scrollable: {other:?}"),
            }
        }
        other => panic!("not a row: {other:?}"),
    }
}

#[test]
fn exit_closes_the_window_and_keeps_the_state() {
    let mut root = RootView::new(AppConfig::default());
    let before = root.clone();
    assert_eq!(root.update(Message::Exit), Task::CloseLatestWindow);
    assert_eq!(root, before);
}

#[test]
fn components_without_an_initial_state_cannot_be_previewed() {
    assert_eq!(RootView::preview(), Err(PreviewUnsupported::NoInitialState));
    assert_eq!(ChannelsView::preview(), Err(PreviewUnsupported::NoInitialState));
    assert_eq!(ContentView::preview(), Err(PreviewUnsupported::NoInitialState));
    assert_eq!(Counter::preview(), Err(PreviewUnsupported::NoInitialState));
}

#[test]
fn task_map_retags_the_message_only() {
    assert_eq!(Task::Done(3u8).map(|m| (m, "tag")), Task::Done((3u8, "tag")));
    assert_eq!(Task::<u8>::Idle.map(|m| (m, "tag")), Task::Idle);
    assert_eq!(Task::<u8>::CloseLatestWindow.map(|m| (m, "tag")), Task::CloseLatestWindow);
}

#[test]
fn element_map_keeps_the_structure() {
    let tree = Element::Row(vec![
        Element::Column(vec![
            text("a", Some(3)),
            Element::Button { label: "one".to_string(), on_press: 1u8 },
        ]),
        Element::VerticalRule { width: 2 },
        Element::Scrollable(Box::new(Element::Button { label: "two".to_string(), on_press: 2u8 })),
        Element::Column(vec![]),
    ]);
    let mapped = tree.map(&|m: u8| Some(u32::from(m) + 10));
    assert_eq!(
        mapped,
        Element::Row(vec![
            Element::Column(vec![
                Element::Text { content: "a".to_string(), size: Some(3) },
                Element::Button { label: "one".to_string(), on_press: Some(11u32) },
            ]),
            Element::VerticalRule { width: 2 },
            Element::Scrollable(Box::new(Element::Button {
                label: "two".to_string(),
                on_press: Some(12u32),
            })),
            Element::Column(vec![]),
        ])
    );
}

#[test]
fn element_map_keeps_the_order_of_items() {
    let tree = Element::Column(vec![
        Element::Button { label: "a".to_string(), on_press: 1u8 },
        Element::Button { label: "b".to_string(), on_press: 2u8 },
        Element::Button { label: "c".to_string(), on_press: 3u8 },
    ]);
    match tree.map(&|m: u8| m * 2) {
        Element::Column(items) => {
            assert_eq!(items.len(), 3);
            assert_eq!(items[0], Element::Button { label: "a".to_string(), on_press: 2u8 });
            assert_eq!(items[1], Element::Button { label: "b".to_string(), on_press: 4u8 });
            assert_eq!(items[2], Element::Button { label: "c".to_string(), on_press: 6u8 });
        }
        other => panic!("not a column: {other:?}"),
    }
}

#[test]
fn forward_updates_the_part_and_retags_its_task() {
    let mut part = Counter { count: 0 };
    assert_eq!(forward(&mut part, 3, |m: u32| ("part", m)), Task::Done(("part", 2)));
    assert_eq!(part.count, 3);
    assert_eq!(forward(&mut part, 0, |m: u32| ("part", m)), Task::Idle);
    assert_eq!(part.count, 3);
    assert_eq!(forward(&mut part, 7, |m: u32| ("part", m)), Task::CloseLatestWindow);
    assert_eq!(part.count, 10);
}

#[test]
fn embed_retags_what_the_part_shows() {
    let part = Counter { count: 4 };
    assert_eq!(
        embed(&part, &|m: u32| ("part", m)),
        Element::Row(vec![
            Element::Text { content: "4".to_string(), size: None },
            Element::Button { label: "+1".to_string(), on_press: ("part", 1) },
        ])
    );
    assert_eq!(part, Counter { count: 4 });
}
