use vstd::prelude::*;

use crate::output::{ActionOutput, EventOutput, NodeView, RecordOutput, ValueOutput, Descriptor};
use crate::text::{event_text, header_text, record_text};

verus! {

/// Mathematical view of an open span's registry entry.
pub ghost struct SpanState<M> {
    /// Outstanding reasons the span must stay open: handles plus entries.
    pub ref_count: nat,
    /// Fixed at creation: no open parent was given.
    pub is_root: bool,
    /// The contexts saved by the threads that entered this span.
    pub stack: Seq<u64>,
    /// The caller's handle of the span's call site.
    pub handle: M,
}

/// Mathematical view of the whole tracer state.
pub ghost struct TracerView<M> {
    /// The next span id to hand out.
    pub counter: u64,
    /// The open spans, by id.
    pub spans: Map<u64, SpanState<M>>,
    /// The output nodes that may still be rendered, by span id.
    pub nodes: Map<u64, NodeView<M>>,
}

/// A nested span referred to from `parent`'s contents was opened after it.
pub open spec fn child_in_range<M>(a: ActionOutput<M>, parent: u64, bound: u64) -> bool {
    match a {
        ActionOutput::Span(c) => parent < c && c < bound,
        _ => true,
    }
}

impl<M> TracerView<M> {
    pub open spec fn wf(self) -> bool {
        &&& forall|k: u64| #[trigger]
            self.spans.contains_key(k) ==> k < self.counter && 1 <= self.spans[k].ref_count
                <= usize::MAX
        &&& forall|k: u64| #[trigger]
            self.nodes.contains_key(k) ==> self.nodes[k].id == k && k < self.counter
        &&& forall|k: u64, i: int|
            self.nodes.contains_key(k) && 0 <= i < self.nodes[k].contents.len()
                ==> child_in_range(#[trigger] self.nodes[k].contents[i], k, self.counter)
    }

    pub open spec fn is_open(self, id: u64) -> bool {
        self.spans.contains_key(id)
    }

    /// The same state with the entry of `id` replaced.
    pub open spec fn with_span(self, id: u64, st: SpanState<M>) -> TracerView<M> {
        TracerView { spans: self.spans.insert(id, st), ..self }
    }

    /// The same state with `a` appended to the contents of node `id`.
    pub open spec fn with_action(self, id: u64, a: ActionOutput<M>) -> TracerView<M> {
        let n = self.nodes[id];
        TracerView {
            nodes: self.nodes.insert(id, NodeView { contents: n.contents.push(a), ..n }),
            ..self
        }
    }
}

/// The lines of the block of span `id` at nesting depth `depth`: its header,
/// its initial values one level deeper, then each element of its contents.
pub open spec fn render_span<M>(
    nodes: Map<u64, NodeView<M>>,
    bound: u64,
    id: u64,
    depth: nat,
) -> Seq<Seq<char>>
    decreases bound - id, 1int, 0int,
{
    if nodes.contains_key(id) && id < bound {
        let n = nodes[id];
        seq![header_text(depth, id), record_text(depth + 1, n.values)] + render_items(
            nodes,
            bound,
            id,
            n.contents.len(),
            depth + 1,
        )
    } else {
        Seq::empty()
    }
}

/// The lines of the first `len` elements of the contents of node `id`.
pub open spec fn render_items<M>(
    nodes: Map<u64, NodeView<M>>,
    bound: u64,
    id: u64,
    len: nat,
    depth: nat,
) -> Seq<Seq<char>>
    decreases bound - id, 0int, len,
{
    if len == 0 || !nodes.contains_key(id) || id >= bound || len > nodes[id].contents.len() {
        Seq::empty()
    } else {
        render_items(nodes, bound, id, (len - 1) as nat, depth) + render_action(
            nodes,
            bound,
            id,
            nodes[id].contents[len - 1],
            depth,
        )
    }
}

/// The lines of one element of the contents of node `parent`.
pub open spec fn render_action<M>(
    nodes: Map<u64, NodeView<M>>,
    bound: u64,
    parent: u64,
    a: ActionOutput<M>,
    depth: nat,
) -> Seq<Seq<char>>
    decreases bound - parent, 0int, 0int,
{
    match a {
        ActionOutput::Span(c) => if parent < c && c <= bound {
            render_span(nodes, bound, c, depth)
        } else {
            Seq::empty()
        },
        ActionOutput::Record(r) => seq![record_text(depth, r.values@)],
        ActionOutput::Event(e) => seq![event_text(depth, e.descriptor.name@, e.values@)],
    }
}

/// The ids of the nodes in the tree of span `id`, in the order they are rendered.
pub open spec fn tree_span<M>(nodes: Map<u64, NodeView<M>>, bound: u64, id: u64) -> Seq<u64>
    decreases bound - id, 1int, 0int,
{
    if nodes.contains_key(id) && id < bound {
        seq![id] + tree_items(nodes, bound, id, nodes[id].contents.len())
    } else {
        Seq::empty()
    }
}

pub open spec fn tree_items<M>(nodes: Map<u64, NodeView<M>>, bound: u64, id: u64, len: nat) -> Seq<
    u64,
>
    decreases bound - id, 0int, len,
{
    if len == 0 || !nodes.contains_key(id) || id >= bound || len > nodes[id].contents.len() {
        Seq::empty()
    } else {
        tree_items(nodes, bound, id, (len - 1) as nat) + tree_action(
            nodes,
            bound,
            id,
            nodes[id].contents[len - 1],
        )
    }
}

pub open spec fn tree_action<M>(
    nodes: Map<u64, NodeView<M>>,
    bound: u64,
    parent: u64,
    a: ActionOutput<M>,
) -> Seq<u64>
    decreases bound - parent, 0int, 0int,
{
    match a {
        ActionOutput::Span(c) => if parent < c && c <= bound {
            tree_span(nodes, bound, c)
        } else {
            Seq::empty()
        },
        _ => Seq::empty(),
    }
}

/// Drops one reference to open span `id`. At zero the span leaves the
/// registry; a root's tree is then rendered and its nodes are discarded.
pub open spec fn release<M>(s: TracerView<M>, id: u64) -> (TracerView<M>, Seq<Seq<char>>) {
    let st = s.spans[id];
    if st.ref_count > 1 {
        (s.with_span(id, SpanState { ref_count: (st.ref_count - 1) as nat, ..st }), Seq::empty())
    } else if st.is_root {
        (
            TracerView {
                spans: s.spans.remove(id),
                nodes: s.nodes.remove_keys(tree_span(s.nodes, s.counter, id).to_set()),
                ..s
            },
            render_span(s.nodes, s.counter, id, 0),
        )
    } else {
        (TracerView { spans: s.spans.remove(id), ..s }, Seq::empty())
    }
}

/// Opening a span: it gets id `s.counter`. It is linked into the given parent
/// when that parent is open, and is a root otherwise. Its node is made when it
/// is a root or when the parent still has a node to link it into.
pub open spec fn open_step<M>(
    s: TracerView<M>,
    descriptor: Descriptor<M>,
    parent: Option<u64>,
    values: Seq<ValueOutput>,
) -> TracerView<M> {
    let id = s.counter;
    let linked = parent is Some && s.spans.contains_key(parent->Some_0);
    let st = SpanState { ref_count: 1, is_root: !linked, stack: Seq::empty(), handle: descriptor.handle };
    let node = NodeView { id, descriptor, values, contents: Seq::empty() };
    let s1 = TracerView { counter: (s.counter + 1) as u64, spans: s.spans.insert(id, st), ..s };
    if !linked {
        TracerView { nodes: s.nodes.insert(id, node), ..s1 }
    } else if s.nodes.contains_key(parent->Some_0) {
        TracerView { nodes: s.nodes.insert(id, node), ..s1 }.with_action(
            parent->Some_0,
            ActionOutput::Span(id),
        )
    } else {
        s1
    }
}

/// Appending to open span `id`'s node, when it has one; otherwise nothing.
pub open spec fn append_step<M>(s: TracerView<M>, id: u64, a: ActionOutput<M>) -> TracerView<M> {
    if s.spans.contains_key(id) && s.nodes.contains_key(id) {
        s.with_action(id, a)
    } else {
        s
    }
}

pub open spec fn record_step<M>(s: TracerView<M>, id: u64, values: Vec<ValueOutput>) -> TracerView<M> {
    append_step(s, id, ActionOutput::Record(RecordOutput { values }))
}

/// An event goes into the current span when that span is open, and is
/// rendered on its own as a root otherwise.
pub open spec fn event_step<M>(s: TracerView<M>, cell: Option<u64>, e: EventOutput<M>) -> (
    TracerView<M>,
    Seq<Seq<char>>,
) {
    if cell is Some && s.spans.contains_key(cell->Some_0) {
        (append_step(s, cell->Some_0, ActionOutput::Event(e)), Seq::empty())
    } else {
        (s, seq![event_text(0, e.descriptor.name@, e.values@)])
    }
}

/// Entering open span `id` from a thread whose current span is `cell`.
/// A span whose count is at the machine limit is left as it is.
pub open spec fn enter_step<M>(s: TracerView<M>, cell: Option<u64>, id: u64) -> (
    TracerView<M>,
    Option<u64>,
) {
    if s.spans.contains_key(id) && s.spans[id].ref_count < usize::MAX {
        let st = s.spans[id];
        let stack = match cell {
            Some(c) => st.stack.push(c),
            None => st.stack,
        };
        (s.with_span(id, SpanState { ref_count: st.ref_count + 1, stack, ..st }), Some(id))
    } else {
        (s, cell)
    }
}

/// Exiting open span `id`: the thread's current span becomes the last saved
/// context (none when the stack is empty), then one reference is dropped.
pub open spec fn exit_step<M>(s: TracerView<M>, cell: Option<u64>, id: u64) -> (
    TracerView<M>,
    Option<u64>,
    Seq<Seq<char>>,
) {
    if s.spans.contains_key(id) {
        let st = s.spans[id];
        let restored = if st.stack.len() > 0 {
            Some(st.stack.last())
        } else {
            None
        };
        let s1 = s.with_span(id, SpanState { stack: st.stack.drop_last(), ..st });
        let s1 = if st.stack.len() > 0 { s1 } else { s };
        let r = release(s1, id);
        (r.0, restored, r.1)
    } else {
        (s, cell, Seq::empty())
    }
}

/// A new handle to open span `id`; a count at the machine limit stays.
pub open spec fn clone_step<M>(s: TracerView<M>, id: u64) -> TracerView<M> {
    if s.spans.contains_key(id) && s.spans[id].ref_count < usize::MAX {
        let st = s.spans[id];
        s.with_span(id, SpanState { ref_count: st.ref_count + 1, ..st })
    } else {
        s
    }
}

/// Dropping a handle to span `id`: whether it closed, and what was rendered.
pub open spec fn close_step<M>(s: TracerView<M>, id: u64) -> (TracerView<M>, bool, Seq<Seq<char>>) {
    if s.spans.contains_key(id) {
        let r = release(s, id);
        (r.0, s.spans[id].ref_count == 1, r.1)
    } else {
        (s, false, Seq::empty())
    }
}

} // verus!
