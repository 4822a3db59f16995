//! The component tree of the window: what a component is, what it asks of
//! the runtime, and the description of what it shows.

use vstd::prelude::*;

pub mod channels;
pub mod content;
pub mod root;

pub use root::RootView;

verus! {

broadcast use vstd::std_specs::vec::group_vec_axioms, vstd::seq::axiom_seq_index_decreases;

/// What a component asks the runtime to do after an update.
#[derive(Debug, Clone, PartialEq, Eq)]
pub enum Task<M> {
    /// Nothing.
    Idle,
    /// Close the window that was opened last.
    CloseLatestWindow,
    /// Deliver a message to the component that returned the task.
    Done(M),
}

/// Whether `after` is `before` with each message replaced by one that `tag`
/// may give for it.
pub open spec fn task_retagged<M, N, F: Fn(M) -> N>(before: Task<M>, after: Task<N>, tag: F) -> bool {
    match before {
        Task::Idle => after is Idle,
        Task::CloseLatestWindow => after is CloseLatestWindow,
        Task::Done(message) => after matches Task::Done(tagged) && tag.ensures((message,), tagged),
    }
}

/// `task` with each message replaced by its image under `tag`.
pub open spec fn map_task<M, N>(task: Task<M>, tag: spec_fn(M) -> N) -> Task<N> {
    match task {
        Task::Idle => Task::Idle,
        Task::CloseLatestWindow => Task::CloseLatestWindow,
        Task::Done(message) => Task::Done(tag(message)),
    }
}

impl<M> Task<M> {
    /// Moves the task into another message space: what it asks of the
    /// runtime stays, and a message that it delivers goes through `tag`.
    pub fn map<N, F: Fn(M) -> N>(self, tag: F) -> (r: Task<N>)
        requires
            forall|message: M| tag.requires((message,)),
        ensures
            task_retagged(self, r, tag),
    {
        match self {
            Task::Idle => Task::Idle,
            Task::CloseLatestWindow => Task::CloseLatestWindow,
            Task::Done(message) => Task::Done(tag(message)),
        }
    }
}

/// A description of what a component shows. `M` is the type of the messages
/// that the widgets in it can send.
#[derive(Debug, PartialEq, Eq)]
pub enum Element<M> {
    /// A line of text, in the given size or in the default one.
    Text { content: String, size: Option<u16> },
    /// A button that sends `on_press` when it is pressed.
    Button { label: String, on_press: M },
    /// A vertical line of the given width.
    VerticalRule { width: u16 },
    /// The items one below the other.
    Column(Vec<Element<M>>),
    /// The items side by side.
    Row(Vec<Element<M>>),
    /// The content, scrolled vertically where it does not fit.
    Scrollable(Box<Element<M>>),
}

/// The mathematical value of an [`Element`].
pub enum Node<M> {
    Text { content: Seq<char>, size: Option<u16> },
    Button { label: Seq<char>, on_press: M },
    VerticalRule { width: u16 },
    Column(Seq<Node<M>>),
    Row(Seq<Node<M>>),
    Scrollable(Box<Node<M>>),
}

/// The nodes that a list of elements stands for.
pub open spec fn nodes_of<M>(items: Seq<Element<M>>) -> Seq<Node<M>>
    decreases items, 1int,
{
    Seq::new(
        items.len(),
        |i: int|
            if 0 <= i < items.len() {
                node_of(items[i])
            } else {
                Node::VerticalRule { width: 0 }
            },
    )
}

/// The node that an element stands for.
pub open spec fn node_of<M>(e: Element<M>) -> Node<M>
    decreases e, 0int,
{
    match e {
        Element::Text { content, size } => Node::Text { content: content@, size },
        Element::Button { label, on_press } => Node::Button { label: label@, on_press },
        Element::VerticalRule { width } => Node::VerticalRule { width },
        Element::Column(items) => Node::Column(nodes_of(items@)),
        Element::Row(items) => Node::Row(nodes_of(items@)),
        Element::Scrollable(inner) => Node::Scrollable(Box::new(node_of(*inner))),
    }
}

impl<M> View for Element<M> {
    type V = Node<M>;

    open spec fn view(&self) -> Node<M> {
        node_of(*self)
    }
}

/// Whether `after` is `before` with each message replaced by one that `tag`
/// may give for it, and nothing else changed.
pub open spec fn retagged<M, N, F: Fn(M) -> N>(before: Node<M>, after: Node<N>, tag: F) -> bool
    decreases before, 0int,
{
    match before {
        Node::Text { content, size } => after == (Node::<N>::Text { content, size }),
        Node::Button { label, on_press } => after matches Node::Button {
            label: same,
            on_press: tagged,
        } && same == label && tag.ensures((on_press,), tagged),
        Node::VerticalRule { width } => after == (Node::<N>::VerticalRule { width }),
        Node::Column(items) => after matches Node::Column(others) && all_retagged(
            items,
            others,
            tag,
        ),
        Node::Row(items) => after matches Node::Row(others) && all_retagged(items, others, tag),
        Node::Scrollable(inner) => after matches Node::Scrollable(other) && retagged(
            *inner,
            *other,
            tag,
        ),
    }
}

/// Whether the two lists have the same length and each node of `after` is
/// the node of `before` at its place, retagged.
pub open spec fn all_retagged<M, N, F: Fn(M) -> N>(
    before: Seq<Node<M>>,
    after: Seq<Node<N>>,
    tag: F,
) -> bool
    decreases before, 1int,
{
    &&& after.len() == before.len()
    &&& forall|i: int| 0 <= i < before.len() ==> retagged(before[i], #[trigger] after[i], tag)
}

impl<M> Element<M> {
    /// Moves the description into another message space: its structure and
    /// texts stay, and each message in it goes through `tag`.
    pub fn map<N, F: Fn(M) -> N>(self, tag: &F) -> (r: Element<N>)
        requires
            forall|message: M| tag.requires((message,)),
        ensures
            retagged(self@, r@, *tag),
        decreases self, 0int,
    {
        match self {
            Element::Text { content, size } => Element::Text { content, size },
            Element::Button { label, on_press } => Element::Button { label, on_press: tag(on_press) },
            Element::VerticalRule { width } => Element::VerticalRule { width },
            Element::Column(items) => Element::Column(map_all(items, tag)),
            Element::Row(items) => Element::Row(map_all(items, tag)),
            Element::Scrollable(inner) => Element::Scrollable(Box::new((*inner).map(tag))),
        }
    }
}

/// Moves each description of a list into another message space, in order.
fn map_all<M, N, F: Fn(M) -> N>(items: Vec<Element<M>>, tag: &F) -> (r: Vec<Element<N>>)
    requires
        forall|message: M| tag.requires((message,)),
    ensures
        all_retagged(nodes_of(items@), nodes_of(r@), *tag),
    decreases items, 1int,
{
    let ghost before = items@;
    let mut out: Vec<Element<N>> = Vec::new();
    for item in it: items
        invariant
            it.seq() == before,
            forall|message: M| tag.requires((message,)),
            out@.len() == it.index(),
            forall|j: int| 0 <= j < out@.len() ==> retagged(node_of(before[j]), #[trigger] node_of(out@[j]), *tag),
    {
        out.push(item.map(tag));
    }
    proof {
        assert(out@.len() == before.len());
        assert forall|i: int| 0 <= i < before.len() implies retagged(
            nodes_of(before)[i],
            #[trigger] nodes_of(out@)[i],
            *tag,
        ) by {
            assert(retagged(node_of(before[i]), node_of(out@[i]), *tag));
        }
    }
    out
}

/// `node` with each message replaced by its image under `tag`.
pub open spec fn map_node<M, N>(node: Node<M>, tag: spec_fn(M) -> N) -> Node<N>
    decreases node, 0int,
{
    match node {
        Node::Text { content, size } => Node::Text { content, size },
        Node::Button { label, on_press } => Node::Button { label, on_press: tag(on_press) },
        Node::VerticalRule { width } => Node::VerticalRule { width },
        Node::Column(items) => Node::Column(map_nodes(items, tag)),
        Node::Row(items) => Node::Row(map_nodes(items, tag)),
        Node::Scrollable(inner) => Node::Scrollable(Box::new(map_node(*inner, tag))),
    }
}

/// The nodes of `items`, each with its messages replaced by their images
/// under `tag`.
pub open spec fn map_nodes<M, N>(items: Seq<Node<M>>, tag: spec_fn(M) -> N) -> Seq<Node<N>>
    decreases items, 1int,
{
    Seq::new(
        items.len(),
        |i: int|
            if 0 <= i < items.len() {
                map_node(items[i], tag)
            } else {
                Node::VerticalRule { width: 0 }
            },
    )
}

/// Whether `tag` gives, for each message, the message that `image` names.
pub open spec fn computes<M, N, F: Fn(M) -> N>(tag: F, image: spec_fn(M) -> N) -> bool {
    forall|message: M, tagged: N| #[trigger]
        tag.ensures((message,), tagged) ==> tagged == image(message)
}

/// A task retagged by a function that computes `image` is the task mapped
/// by `image`.
pub proof fn lemma_task_retagged_is_mapped<M, N, F: Fn(M) -> N>(
    before: Task<M>,
    after: Task<N>,
    tag: F,
    image: spec_fn(M) -> N,
)
    requires
        computes(tag, image),
        task_retagged(before, after, tag),
    ensures
        after == map_task(before, image),
{
}

/// A description retagged by a function that computes `image` is the
/// description mapped by `image`: the structure and the texts are kept, and
/// each message is replaced by its image.
pub proof fn lemma_retagged_is_mapped<M, N, F: Fn(M) -> N>(
    before: Node<M>,
    after: Node<N>,
    tag: F,
    image: spec_fn(M) -> N,
)
    requires
        computes(tag, image),
        retagged(before, after, tag),
    ensures
        after == map_node(before, image),
    decreases before, 0int,
{
    match before {
        Node::Column(items) => {
            lemma_all_retagged_is_mapped(items, after->Column_0, tag, image);
        },
        Node::Row(items) => {
            lemma_all_retagged_is_mapped(items, after->Row_0, tag, image);
        },
        Node::Scrollable(inner) => {
            lemma_retagged_is_mapped(*inner, *after->Scrollable_0, tag, image);
        },
        _ => {},
    }
}

/// The same of a list of descriptions.
pub proof fn lemma_all_retagged_is_mapped<M, N, F: Fn(M) -> N>(
    before: Seq<Node<M>>,
    after: Seq<Node<N>>,
    tag: F,
    image: spec_fn(M) -> N,
)
    requires
        computes(tag, image),
        all_retagged(before, after, tag),
    ensures
        after == map_nodes(before, image),
    decreases before, 1int,
{
    assert forall|i: int| 0 <= i < before.len() implies #[trigger] after[i] == map_nodes(
        before,
        image,
    )[i] by {
        lemma_retagged_is_mapped(before[i], after[i], tag, image);
    }
    assert(after =~= map_nodes(before, image));
}

/// Why a component cannot be shown alone.
#[derive(Debug, Clone, Copy, PartialEq, Eq, Structural)]
pub enum PreviewUnsupported {
    /// The component defines no state to start a preview from.
    NoInitialState,
}

/// What a preview starts with, given the start that the component defines:
/// that start, or the answer that there is none.
pub open spec fn start_of<S>(initial: Option<S>) -> Result<S, PreviewUnsupported> {
    match initial {
        Some(start) => Ok(start),
        None => Err(PreviewUnsupported::NoInitialState),
    }
}

/// The preview of a component that defines no start for one.
pub fn no_preview<S>() -> (r: Result<S, PreviewUnsupported>)
    ensures
        r == start_of(None::<S>),
{
    Err(PreviewUnsupported::NoInitialState)
}

/// A unit of the user interface: a state machine that takes messages and
/// shows its state.
pub trait Component: Sized {
    /// The messages that the component takes.
    type Message;

    /// Whether `message` can be sent to the component. A component without
    /// messages takes none.
    spec fn takes(message: Self::Message) -> bool;

    /// The state after `message` and the task that comes with it.
    spec fn next(self, message: Self::Message) -> (Self, Task<Self::Message>);

    /// What the component shows in this state.
    spec fn shown(&self) -> Node<Self::Message>;

    /// Takes one message: changes the state and says what the runtime is to
    /// do next.
    fn update(&mut self, message: Self::Message) -> (task: Task<Self::Message>)
        requires
            Self::takes(message),
        ensures
            (*final(self), task) == old(self).next(message),
    ;

    /// Describes what the component shows. The description depends on the
    /// state alone, and the state stays as it is.
    fn view(&self) -> (tree: Element<Self::Message>)
        ensures
            tree@ == self.shown(),
    ;

    /// The state and the task that a preview of the component starts with,
    /// where the component defines them.
    spec fn initial() -> Option<(Self, Task<Self::Message>)>;

    /// The state and the task that a preview of the component starts with.
    /// A component that defines none cannot be previewed, and says so.
    fn preview() -> (r: Result<(Self, Task<Self::Message>), PreviewUnsupported>)
        ensures
            r == start_of(Self::initial()),
    ;
}

/// Hands a message to the part that it belongs to and moves the part's task
/// into the owner's message space: the part is updated as its own `update`
/// says, and its task comes back retagged.
pub fn forward<C: Component, R, F: Fn(C::Message) -> R>(
    part: &mut C,
    message: C::Message,
    tag: F,
) -> (task: Task<R>)
    requires
        C::takes(message),
        forall|inner: C::Message| tag.requires((inner,)),
    ensures
        *final(part) == old(part).next(message).0,
        task_retagged(old(part).next(message).1, task, tag),
{
    let task = part.update(message);
    task.map(tag)
}

/// Describes a part in its owner's message space: what the part shows,
/// retagged.
pub fn embed<C: Component, R, F: Fn(C::Message) -> R>(part: &C, tag: &F) -> (tree: Element<R>)
    requires
        forall|inner: C::Message| tag.requires((inner,)),
    ensures
        retagged(part.shown(), tree@, *tag),
{
    part.view().map(tag)
}

} // verus!
