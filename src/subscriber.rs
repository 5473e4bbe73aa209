use vstd::prelude::*;

use std::collections::HashMap;

use crate::level::Level;
use crate::model::{
    clone_step, close_step, enter_step, event_step, exit_step, open_step, record_step, release,
    render_span, tree_span, SpanState, TracerView,
};
use crate::output::{ActionOutput, Descriptor, EventOutput, RecordOutput, RootOutput, SpanOutput, ValueOutput};
use crate::text::{event_line, event_text, header_line, record_line};

verus! {

broadcast use vstd::std_specs::hash::group_hash_axioms;

/// Registry entry of an open span.
struct OpenSpanDetails<M> {
    ref_count: usize,
    is_root: bool,
    cur_stack: Vec<u64>,
    handle: M,
}

impl<M> View for OpenSpanDetails<M> {
    type V = SpanState<M>;

    closed spec fn view(&self) -> SpanState<M> {
        SpanState {
            ref_count: self.ref_count as nat,
            is_root: self.is_root,
            stack: self.cur_stack@,
            handle: self.handle,
        }
    }
}

/// Everything the tracer shares between threads: the id counter, the open
/// spans and the arena of output nodes.
struct SharedState<M> {
    counter: u64,
    map: HashMap<u64, OpenSpanDetails<M>>,
    nodes: HashMap<u64, SpanOutput<M>>,
}

/// A structured tracer. It correlates span and event notifications into a tree
/// per top-level unit of work and renders that tree as text when the unit
/// completes. The caller serialises access to it (one lock around it) and
/// passes in the calling thread's current-span cell where one is needed.
pub struct MySubscriber<M> {
    threshold: Level,
    state: SharedState<M>,
}

impl<M> View for MySubscriber<M> {
    type V = TracerView<M>;

    closed spec fn view(&self) -> TracerView<M> {
        TracerView {
            counter: self.state.counter,
            spans: self.state.map@.map_values(|d: OpenSpanDetails<M>| d@),
            nodes: self.state.nodes@.map_values(|n: SpanOutput<M>| n@),
        }
    }
}

impl<M: Copy> MySubscriber<M> {
    /// The least verbose level the tracer is interested in.
    pub closed spec fn threshold(&self) -> Level {
        self.threshold
    }

    pub open spec fn wf(&self) -> bool {
        self@.wf()
    }

    /// A tracer with no spans, interested in `Debug` and `Trace`.
    pub fn new() -> (r: Self)
        ensures
            r.wf(),
            r@.counter == 1,
            r@.spans == Map::<u64, SpanState<M>>::empty(),
            r@.nodes == Map::<u64, crate::output::NodeView<M>>::empty(),
            r.threshold() == Level::Debug,
    {
        Self::with_threshold(Level::Debug)
    }

    /// A tracer with no spans, interested in `threshold` and more verbose levels.
    pub fn with_threshold(threshold: Level) -> (r: Self)
        ensures
            r.wf(),
            r@.counter == 1,
            r@.spans == Map::<u64, SpanState<M>>::empty(),
            r@.nodes == Map::<u64, crate::output::NodeView<M>>::empty(),
            r.threshold() == threshold,
    {
        let r = MySubscriber {
            threshold,
            state: SharedState { counter: 1, map: HashMap::new(), nodes: HashMap::new() },
        };
        assert(r@.spans =~= Map::<u64, SpanState<M>>::empty());
        assert(r@.nodes =~= Map::<u64, crate::output::NodeView<M>>::empty());
        r
    }

    /// Whether a call site of level `level` is traced at all.
    pub fn enabled(&self, level: Level) -> (r: bool)
        ensures
            r == (level.spec_rank() >= self.threshold().spec_rank()),
    {
        level.at_least(&self.threshold)
    }

    /// Whether another span can still be given an id.
    pub fn can_open(&self) -> (r: bool)
        ensures
            r == (self@.counter < u64::MAX),
    {
        self.state.counter < u64::MAX
    }

    /// Appends `a` to the contents of node `id`.
    fn push_action(&mut self, id: u64, a: ActionOutput<M>)
        requires
            old(self)@.nodes.contains_key(id),
        ensures
            final(self)@ == old(self)@.with_action(id, a),
            final(self).threshold == old(self).threshold,
    {
        let ghost a0 = a;
        let removed = self.state.nodes.remove(&id);
        if let Some(mut n) = removed {
            n.contents.push(a);
            self.state.nodes.insert(id, n);
        }
        assert(self@.nodes =~= old(self)@.with_action(id, a0).nodes);
        assert(self@.spans =~= old(self)@.spans);
    }

    /// Opens a span of call site `descriptor` with its initial `values`,
    /// under `parent` when that span is open. Returns the new span's id.
    pub fn new_span(&mut self, descriptor: Descriptor<M>, parent: Option<u64>, values: Vec<ValueOutput>) -> (r: u64)
        requires
            old(self).wf(),
            old(self)@.counter < u64::MAX,
        ensures
            r == old(self)@.counter,
            final(self)@ == open_step(old(self)@, descriptor, parent, values@),
            final(self).wf(),
            final(self).threshold() == old(self).threshold(),
    {
        let ghost s0 = self@;
        let ghost d0 = descriptor;
        let id = self.state.counter;
        self.state.counter = id + 1;
        let handle = descriptor.handle;
        let linked = match parent {
            Some(p) => self.state.map.contains_key(&p),
            None => false,
        };
        let node = SpanOutput { id, descriptor, values, contents: Vec::new() };
        if !linked {
            self.state.nodes.insert(id, node);
        } else {
            let p = parent.unwrap();
            if self.state.nodes.contains_key(&p) {
                self.state.nodes.insert(id, node);
                self.push_action(p, ActionOutput::Span(id));
            }
        }
        self.state.map.insert(
            id,
            OpenSpanDetails { ref_count: 1, is_root: !linked, cur_stack: Vec::new(), handle },
        );
        proof {
            let t = open_step(s0, d0, parent, values@);
            assert(self@.spans =~= t.spans);
            assert(self@.nodes =~= t.nodes);
        }
        id
    }

    /// Appends the `values` recorded on span `id` to its contents. Returns
    /// whether `id` was open; a record for a closed span is dropped.
    pub fn record(&mut self, id: u64, values: Vec<ValueOutput>) -> (r: bool)
        requires
            old(self).wf(),
        ensures
            r == old(self)@.is_open(id),
            final(self)@ == record_step(old(self)@, id, values),
            final(self).wf(),
            final(self).threshold() == old(self).threshold(),
    {
        let open = self.state.map.contains_key(&id);
        if open && self.state.nodes.contains_key(&id) {
            self.push_action(id, ActionOutput::Record(RecordOutput { values }));
        }
        open
    }

    /// Counts one more handle to span `id`. Returns whether it was counted:
    /// false when `id` is not open or its count is at the machine limit.
    pub fn clone_span(&mut self, id: u64) -> (r: bool)
        requires
            old(self).wf(),
        ensures
            r == (old(self)@.is_open(id) && old(self)@.spans[id].ref_count < usize::MAX),
            final(self)@ == clone_step(old(self)@, id),
            final(self).wf(),
            final(self).threshold() == old(self).threshold(),
    {
        let ghost s0 = self@;
        let removed = self.state.map.remove(&id);
        match removed {
            Some(mut d) => {
                let counted = d.ref_count < usize::MAX;
                if counted {
                    d.ref_count = d.ref_count + 1;
                }
                self.state.map.insert(id, d);
                assert(self@.spans =~= clone_step(s0, id).spans);
                counted
            },
            None => {
                assert(self@.spans =~= s0.spans);
                false
            },
        }
    }
}


/// The text of each line.
pub open spec fn texts(v: Seq<String>) -> Seq<Seq<char>> {
    v.map_values(|s: String| s@)
}

/// What rendering a completed root produces.
pub open spec fn render_root<M>(s: TracerView<M>, root: RootOutput<M>) -> Seq<Seq<char>> {
    match root {
        RootOutput::Span(id) => render_span(s.nodes, s.counter, id, 0),
        RootOutput::Event(e) => seq![event_text(0, e.descriptor.name@, e.values@)],
    }
}

proof fn lemma_texts_push(v: Seq<String>, x: String)
    ensures
        texts(v.push(x)) == texts(v).push(x@),
{
    assert(texts(v.push(x)) =~= texts(v).push(x@));
}

impl<M: Copy> MySubscriber<M> {
    /// Renders the tree of span `id` at nesting depth `depth`, and lists the
    /// ids of its nodes.
    fn output_span(&self, id: u64, depth: u64, lines: &mut Vec<String>, ids: &mut Vec<u64>)
        requires
            self@.wf(),
            depth + (self@.counter - id) <= u64::MAX,
        ensures
            texts(final(lines)@) == texts(old(lines)@) + render_span(
                self@.nodes,
                self@.counter,
                id,
                depth as nat,
            ),
            final(ids)@ == old(ids)@ + tree_span(self@.nodes, self@.counter, id),
        decreases self@.counter - id, 1int, 0int,
    {
        let ghost nodes = self@.nodes;
        let ghost bound = self@.counter;
        if id >= self.state.counter {
            assert(texts(lines@) =~= texts(lines@) + Seq::<Seq<char>>::empty());
            assert(ids@ =~= ids@ + Seq::<u64>::empty());
            return;
        }
        match self.state.nodes.get(&id) {
            None => {
                assert(texts(lines@) =~= texts(lines@) + Seq::<Seq<char>>::empty());
                assert(ids@ =~= ids@ + Seq::<u64>::empty());
            },
            Some(n) => {
                let ghost l0 = texts(lines@);
                let ghost i0 = ids@;
                assert(nodes[id] == n@);
                let h = header_line(depth, id);
                proof { lemma_texts_push(lines@, h); }
                lines.push(h);
                ids.push(id);
                let rl = record_line(depth + 1, &n.values);
                proof { lemma_texts_push(lines@, rl); }
                lines.push(rl);
                let ghost head = seq![
                    crate::text::header_text(depth as nat, id),
                    crate::text::record_text((depth + 1) as nat, n.values@),
                ];
                assert(texts(lines@) =~= l0 + head);
                let mut i: usize = 0;
                while i < n.contents.len()
                    invariant
                        self@.wf(),
                        nodes == self@.nodes,
                        bound == self@.counter,
                        id < bound,
                        nodes.contains_key(id),
                        nodes[id] == n@,
                        depth + (bound - id) <= u64::MAX,
                        i <= n.contents@.len(),
                        texts(lines@) == l0 + head + crate::model::render_items(
                            nodes,
                            bound,
                            id,
                            i as nat,
                            (depth + 1) as nat,
                        ),
                        ids@ == i0 + seq![id] + crate::model::tree_items(nodes, bound, id, i as nat),
                    decreases n.contents@.len() - i,
                {
                    assert(crate::model::child_in_range(nodes[id].contents[i as int], id, bound));
                    self.output_action(id, &n.contents[i], depth + 1, lines, ids);
                    i = i + 1;
                    assert(texts(lines@) =~= l0 + head + crate::model::render_items(
                        nodes,
                        bound,
                        id,
                        i as nat,
                        (depth + 1) as nat,
                    ));
                    assert(ids@ =~= i0 + seq![id] + crate::model::tree_items(nodes, bound, id, i as nat));
                }
                assert(texts(lines@) =~= l0 + render_span(nodes, bound, id, depth as nat));
                assert(ids@ =~= i0 + tree_span(nodes, bound, id));
            },
        }
    }

    /// Renders one element of the contents of node `parent`.
    fn output_action(
        &self,
        parent: u64,
        a: &ActionOutput<M>,
        depth: u64,
        lines: &mut Vec<String>,
        ids: &mut Vec<u64>,
    )
        requires
            self@.wf(),
            crate::model::child_in_range(*a, parent, self@.counter),
            depth + (self@.counter - parent) <= u64::MAX + 1,
        ensures
            texts(final(lines)@) == texts(old(lines)@) + crate::model::render_action(
                self@.nodes,
                self@.counter,
                parent,
                *a,
                depth as nat,
            ),
            final(ids)@ == old(ids)@ + crate::model::tree_action(
                self@.nodes,
                self@.counter,
                parent,
                *a,
            ),
        decreases self@.counter - parent, 0int, 0int,
    {
        match a {
            ActionOutput::Span(c) => {
                self.output_span(*c, depth, lines, ids);
            },
            ActionOutput::Record(r) => {
                let l = record_line(depth, &r.values);
                proof { lemma_texts_push(lines@, l); }
                lines.push(l);
                assert(ids@ =~= old(ids)@ + Seq::<u64>::empty());
            },
            ActionOutput::Event(e) => {
                let l = event_line(depth, &e.descriptor.name, &e.values);
                proof { lemma_texts_push(lines@, l); }
                lines.push(l);
                assert(ids@ =~= old(ids)@ + Seq::<u64>::empty());
            },
        }
    }

    /// Renders a completed root: a span's whole tree, or a lone event.
    pub fn output(&self, root: &RootOutput<M>) -> (r: Vec<String>)
        requires
            self.wf(),
        ensures
            texts(r@) == render_root(self@, *root),
    {
        let mut lines: Vec<String> = Vec::new();
        assert(texts(lines@) =~= Seq::<Seq<char>>::empty());
        match root {
            RootOutput::Span(id) => {
                let mut ids: Vec<u64> = Vec::new();
                self.output_span(*id, 0, &mut lines, &mut ids);
            },
            RootOutput::Event(e) => {
                let l = event_line(0, &e.descriptor.name, &e.values);
                proof { lemma_texts_push(lines@, l); }
                lines.push(l);
            },
        }
        lines
    }

    /// Drops one reference to open span `id`; see `release`.
    fn release(&mut self, id: u64) -> (r: Vec<String>)
        requires
            old(self).wf(),
            old(self)@.is_open(id),
        ensures
            final(self)@ == release(old(self)@, id).0,
            texts(r@) == release(old(self)@, id).1,
            final(self).wf(),
            final(self).threshold == old(self).threshold,
    {
        let ghost s0 = self@;
        let mut lines: Vec<String> = Vec::new();
        assert(texts(lines@) =~= Seq::<Seq<char>>::empty());
        let removed = self.state.map.remove(&id);
        let mut d = removed.unwrap();
        assert(s0.spans[id] == d@);
        if d.ref_count > 1 {
            d.ref_count = d.ref_count - 1;
            self.state.map.insert(id, d);
            assert(self@.spans =~= release(s0, id).0.spans);
        } else {
            assert(self@.spans =~= s0.spans.remove(id));
            if d.is_root {
                let mut ids: Vec<u64> = Vec::new();
                self.output_span(id, 0, &mut lines, &mut ids);
                assert(ids@ =~= tree_span(s0.nodes, s0.counter, id));
                let ghost n0 = self.state.nodes@;
                let mut i: usize = 0;
                while i < ids.len()
                    invariant
                        i <= ids@.len(),
                        self.state.counter == s0.counter,
                        self@.spans == s0.spans.remove(id),
                        self.state.nodes@ == n0.remove_keys(ids@.take(i as int).to_set()),
                        s0.nodes == n0.map_values(|n: SpanOutput<M>| n@),
                        s0.wf(),
                        self.threshold == old(self).threshold,
                    decreases ids@.len() - i,
                {
                    let ghost before = self.state.nodes@;
                    self.state.nodes.remove(&ids[i]);
                    i = i + 1;
                    proof {
                        assert(ids@.take(i as int) =~= ids@.take(i - 1).push(ids@[i - 1]));
                        ids@.take(i - 1).lemma_push_to_set_commute(ids@[i - 1]);
                    }
                    assert(self.state.nodes@ =~= n0.remove_keys(ids@.take(i as int).to_set()));
                }
                assert(ids@.take(ids@.len() as int) =~= ids@);
                assert(self@.nodes =~= s0.nodes.remove_keys(ids@.to_set()));
            }
        }
        lines
    }

    /// Enters open span `id` on a thread whose current-span cell is `cur`:
    /// the span gains a reference, saves the thread's context, and becomes
    /// the thread's current span.
    pub fn enter(&mut self, cur: &mut Option<u64>, id: u64)
        requires
            old(self).wf(),
        ensures
            (final(self)@, *final(cur)) == enter_step(old(self)@, *old(cur), id),
            final(self).wf(),
            final(self).threshold() == old(self).threshold(),
    {
        let ghost s0 = self@;
        let removed = self.state.map.remove(&id);
        match removed {
            Some(mut d) => {
                if d.ref_count < usize::MAX {
                    d.ref_count = d.ref_count + 1;
                    if let Some(c) = *cur {
                        d.cur_stack.push(c);
                    }
                    *cur = Some(id);
                }
                self.state.map.insert(id, d);
                assert(self@.spans =~= enter_step(s0, *old(cur), id).0.spans);
            },
            None => {
                assert(self@.spans =~= s0.spans);
            },
        }
    }

    /// Exits span `id` on a thread whose current-span cell is `cur`: the cell
    /// gets back the context the span saved last, and the span loses a
    /// reference. Returns the rendered block when a root closed.
    pub fn exit(&mut self, cur: &mut Option<u64>, id: u64) -> (r: Vec<String>)
        requires
            old(self).wf(),
        ensures
            final(self)@ == exit_step(old(self)@, *old(cur), id).0,
            *final(cur) == exit_step(old(self)@, *old(cur), id).1,
            texts(r@) == exit_step(old(self)@, *old(cur), id).2,
            final(self).wf(),
            final(self).threshold() == old(self).threshold(),
    {
        let ghost s0 = self@;
        let removed = self.state.map.remove(&id);
        match removed {
            Some(mut d) => {
                *cur = d.cur_stack.pop();
                self.state.map.insert(id, d);
                let ghost st = s0.spans[id];
                assert(self@.spans =~= if st.stack.len() > 0 {
                    s0.with_span(id, SpanState { stack: st.stack.drop_last(), ..st }).spans
                } else {
                    s0.spans
                });
                self.release(id)
            },
            None => {
                assert(self@.spans =~= s0.spans);
                let lines: Vec<String> = Vec::new();
                assert(texts(lines@) =~= Seq::<Seq<char>>::empty());
                lines
            },
        }
    }

    /// Drops a handle to span `id`. Returns whether the span closed, and the
    /// rendered block when a root closed.
    pub fn try_close(&mut self, id: u64) -> (r: (bool, Vec<String>))
        requires
            old(self).wf(),
        ensures
            final(self)@ == close_step(old(self)@, id).0,
            r.0 == close_step(old(self)@, id).1,
            texts(r.1@) == close_step(old(self)@, id).2,
            final(self).wf(),
            final(self).threshold() == old(self).threshold(),
    {
        if self.state.map.contains_key(&id) {
            let closing = match self.state.map.get(&id) {
                Some(d) => d.ref_count == 1,
                None => false,
            };
            let lines = self.release(id);
            (closing, lines)
        } else {
            let lines: Vec<String> = Vec::new();
            assert(texts(lines@) =~= Seq::<Seq<char>>::empty());
            (false, lines)
        }
    }

    /// An event of call site `descriptor` with `values`, on a thread whose
    /// current-span cell is `cur`. It is appended to the current span when
    /// that span is open; otherwise it is rendered at once as its own block,
    /// which is returned.
    pub fn event(&mut self, cur: Option<u64>, descriptor: Descriptor<M>, values: Vec<ValueOutput>) -> (r: Vec<String>)
        requires
            old(self).wf(),
        ensures
            final(self)@ == event_step(old(self)@, cur, EventOutput { descriptor, values }).0,
            texts(r@) == event_step(old(self)@, cur, EventOutput { descriptor, values }).1,
            final(self).wf(),
            final(self).threshold() == old(self).threshold(),
    {
        let ghost e0 = EventOutput { descriptor, values };
        let mut lines: Vec<String> = Vec::new();
        assert(texts(lines@) =~= Seq::<Seq<char>>::empty());
        let current = match cur {
            Some(c) => if self.state.map.contains_key(&c) {
                Some(c)
            } else {
                None
            },
            None => None,
        };
        match current {
            Some(c) => {
                if self.state.nodes.contains_key(&c) {
                    self.push_action(c, ActionOutput::Event(EventOutput { descriptor, values }));
                }
            },
            None => {
                let l = event_line(0, &descriptor.name, &values);
                proof { lemma_texts_push(lines@, l); }
                lines.push(l);
            },
        }
        lines
    }

    /// The calling thread's current span, with its call site's handle, when
    /// the cell `cur` names an open span.
    pub fn current_span(&self, cur: Option<u64>) -> (r: Option<(u64, M)>)
        requires
            self.wf(),
        ensures
            r == (if cur is Some && self@.is_open(cur->Some_0) {
                Some((cur->Some_0, self@.spans[cur->Some_0].handle))
            } else {
                None
            }),
    {
        match cur {
            Some(c) => match self.state.map.get(&c) {
                Some(d) => Some((c, d.handle)),
                None => None,
            },
            None => None,
        }
    }
}

} // verus!
