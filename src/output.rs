use vstd::prelude::*;

use crate::level::Level;

verus! {

/// A field captured at a point in time: its name and its rendered value.
pub struct ValueOutput {
    pub name: String,
    pub value: String,
}

impl ValueOutput {
    pub fn new(name: String, value: String) -> (r: ValueOutput)
        ensures
            r.name@ == name@,
            r.value@ == value@,
    {
        ValueOutput { name, value }
    }
}

/// What the tracer knows of a call site: a display name, its level, and an
/// opaque handle that the caller chooses and gets back unchanged.
pub struct Descriptor<M> {
    pub name: String,
    pub level: Level,
    pub handle: M,
}

/// A later amendment of fields onto a span that is still open.
pub struct RecordOutput {
    pub values: Vec<ValueOutput>,
}

/// A point-in-time occurrence, never itself a parent.
pub struct EventOutput<M> {
    pub descriptor: Descriptor<M>,
    pub values: Vec<ValueOutput>,
}

/// One element of a span's contents. A nested span is referred to by its id
/// and lives in the tracer's node arena under that id.
pub enum ActionOutput<M> {
    Span(u64),
    Record(RecordOutput),
    Event(EventOutput<M>),
}

/// The output node of a span: its initial values and everything appended to it.
pub struct SpanOutput<M> {
    pub id: u64,
    pub descriptor: Descriptor<M>,
    pub values: Vec<ValueOutput>,
    pub contents: Vec<ActionOutput<M>>,
}

/// A completed top-level unit of work, ready to be rendered.
pub enum RootOutput<M> {
    Span(u64),
    Event(EventOutput<M>),
}

/// Mathematical view of a span's output node.
pub ghost struct NodeView<M> {
    pub id: u64,
    pub descriptor: Descriptor<M>,
    pub values: Seq<ValueOutput>,
    pub contents: Seq<ActionOutput<M>>,
}

impl<M> View for SpanOutput<M> {
    type V = NodeView<M>;

    open spec fn view(&self) -> NodeView<M> {
        NodeView {
            id: self.id,
            descriptor: self.descriptor,
            values: self.values@,
            contents: self.contents@,
        }
    }
}

} // verus!
