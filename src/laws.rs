use vstd::prelude::*;

use crate::model::{
    close_step, enter_step, event_step, exit_step, render_span, TracerView,
};
use crate::output::EventOutput;
use crate::text::event_text;

verus! {

/// One notification of a thread's enter/exit sequence.
pub enum Step {
    Enter(u64),
    Exit(u64),
}

/// A well-paired enter/exit sequence: `Block` enters `id`, runs `inner`,
/// exits `id`, then runs `rest`.
pub enum Nesting {
    Done,
    Block { id: u64, inner: Box<Nesting>, rest: Box<Nesting> },
}

/// The notifications of a nesting, in order.
pub open spec fn steps(n: Nesting) -> Seq<Step>
    decreases n,
{
    match n {
        Nesting::Done => Seq::empty(),
        Nesting::Block { id, inner, rest } => seq![Step::Enter(id)] + steps(*inner) + seq![
            Step::Exit(id),
        ] + steps(*rest),
    }
}

/// The number of blocks of a nesting.
pub open spec fn size(n: Nesting) -> nat
    decreases n,
{
    match n {
        Nesting::Done => 0,
        Nesting::Block { id, inner, rest } => 1 + size(*inner) + size(*rest),
    }
}

/// Every span that the nesting enters is in `dom`.
pub open spec fn ids_in(n: Nesting, dom: Set<u64>) -> bool
    decreases n,
{
    match n {
        Nesting::Done => true,
        Nesting::Block { id, inner, rest } => dom.contains(id) && ids_in(*inner, dom) && ids_in(
            *rest,
            dom,
        ),
    }
}

/// The spans entered at the top level of the nesting hold no saved context.
pub open spec fn tops_clear<M>(s: TracerView<M>, n: Nesting) -> bool
    decreases n,
{
    match n {
        Nesting::Done => true,
        Nesting::Block { id, inner, rest } => s.spans[id].stack.len() == 0 && tops_clear(s, *rest),
    }
}

/// Every open span's count has room for `k` more references.
pub open spec fn counts_fit<M>(s: TracerView<M>, k: nat) -> bool {
    forall|j: u64| #[trigger] s.spans.contains_key(j) ==> s.spans[j].ref_count + k <= usize::MAX
}

/// The state and current-span cell after a thread's notifications.
pub open spec fn run<M>(s: TracerView<M>, cell: Option<u64>, ops: Seq<Step>) -> (
    TracerView<M>,
    Option<u64>,
)
    decreases ops.len(),
{
    if ops.len() == 0 {
        (s, cell)
    } else {
        match ops[0] {
            Step::Enter(id) => {
                let r = enter_step(s, cell, id);
                run(r.0, r.1, ops.drop_first())
            },
            Step::Exit(id) => {
                let r = exit_step(s, cell, id);
                run(r.0, r.1, ops.drop_first())
            },
        }
    }
}

proof fn lemma_run_concat<M>(s: TracerView<M>, cell: Option<u64>, a: Seq<Step>, b: Seq<Step>)
    ensures
        run(s, cell, a + b) == run(run(s, cell, a).0, run(s, cell, a).1, b),
    decreases a.len(),
{
    if a.len() == 0 {
        assert(a + b =~= b);
    } else {
        assert((a + b).drop_first() =~= a.drop_first() + b);
        match a[0] {
            Step::Enter(id) => {
                let r = enter_step(s, cell, id);
                lemma_run_concat(r.0, r.1, a.drop_first(), b);
            },
            Step::Exit(id) => {
                let r = exit_step(s, cell, id);
                lemma_run_concat(r.0, r.1, a.drop_first(), b);
            },
        }
    }
}

proof fn lemma_run_single<M>(s: TracerView<M>, cell: Option<u64>, op: Step)
    ensures
        run(s, cell, seq![op]) == (match op {
            Step::Enter(id) => enter_step(s, cell, id),
            Step::Exit(id) => {
                let r = exit_step(s, cell, id);
                (r.0, r.1)
            },
        }),
{
    assert(seq![op].drop_first() =~= Seq::<Step>::empty());
    match op {
        Step::Enter(id) => {
            let r = enter_step(s, cell, id);
            assert(run(r.0, r.1, Seq::<Step>::empty()) == (r.0, r.1));
        },
        Step::Exit(id) => {
            let r = exit_step(s, cell, id);
            assert(run(r.0, r.1, Seq::<Step>::empty()) == (r.0, r.1));
        },
    }
}

/// Stack discipline: on a single thread, a well-paired sequence of enters and
/// exits of open spans leaves the thread's current-span cell, and the whole
/// tracer state, as they were before it. Single thread means here: when the
/// thread starts outside any span, the spans it enters at the top level hold
/// no context saved by another thread.
pub proof fn lemma_well_paired_restores<M>(s: TracerView<M>, cell: Option<u64>, n: Nesting)
    requires
        s.wf(),
        ids_in(n, s.spans.dom()),
        counts_fit(s, size(n)),
        cell is None ==> tops_clear(s, n),
    ensures
        run(s, cell, steps(n)) == (s, cell),
    decreases n,
{
    match n {
        Nesting::Done => {
        },
        Nesting::Block { id, inner, rest } => {
            let st = s.spans[id];
            let e = enter_step(s, cell, id);
            assert(st.ref_count < usize::MAX);
            let s1 = e.0;
            assert(s1.spans.dom() =~= s.spans.dom());
            assert(s1.wf());
            assert(counts_fit(s1, size(*inner)));
            lemma_well_paired_restores(s1, Some(id), *inner);
            let x = exit_step(s1, Some(id), id);
            let st1 = s1.spans[id];
            assert(st1.ref_count == st.ref_count + 1);
            match cell {
                Some(c) => {
                    assert(st1.stack == st.stack.push(c));
                    assert(st1.stack.drop_last() =~= st.stack);
                    assert(x.1 == Some(c));
                },
                None => {
                    assert(st.stack.len() == 0);
                    assert(st1.stack.len() == 0);
                    assert(x.1 == cell);
                },
            }
            assert(x.0.spans[id] == st);
            assert(x.0.spans =~= s.spans);
            assert(x.0 == s);
            assert(x.1 == cell);
            assert(counts_fit(s, size(*rest)));
            lemma_well_paired_restores(s, cell, *rest);
            let a = seq![Step::Enter(id)];
            let b = steps(*inner);
            let c = seq![Step::Exit(id)];
            let d = steps(*rest);
            lemma_run_single(s, cell, Step::Enter(id));
            lemma_run_concat(s, cell, a, b);
            lemma_run_concat(s, cell, a + b, c);
            lemma_run_single(s1, Some(id), Step::Exit(id));
            lemma_run_concat(s, cell, a + b + c, d);
        },
    }
}

/// Dropping the last reference to an open span closes it exactly once: the
/// span leaves the registry, a root's tree is rendered, and any later exit or
/// close of that id changes nothing and renders nothing. A count above one is
/// only decremented.
pub proof fn lemma_close_exactly_once<M>(s: TracerView<M>, id: u64, cell: Option<u64>)
    requires
        s.wf(),
        s.is_open(id),
    ensures
        s.spans[id].ref_count == 1 ==> {
            let c = close_step(s, id);
            &&& c.1
            &&& !c.0.is_open(id)
            &&& c.2 == (if s.spans[id].is_root {
                render_span(s.nodes, s.counter, id, 0)
            } else {
                Seq::empty()
            })
            &&& close_step(c.0, id) == (c.0, false, Seq::<Seq<char>>::empty())
            &&& exit_step(c.0, cell, id) == (c.0, cell, Seq::<Seq<char>>::empty())
        },
        s.spans[id].ref_count > 1 ==> {
            let c = close_step(s, id);
            &&& !c.1
            &&& c.0.is_open(id)
            &&& c.0.spans[id].ref_count == s.spans[id].ref_count - 1
            &&& c.2 == Seq::<Seq<char>>::empty()
        },
{
}

/// An event emitted while the thread is in no open span is rendered at once
/// as a block of its own holding only that event, and leaves the state as it is.
pub proof fn lemma_rootless_event<M>(s: TracerView<M>, cell: Option<u64>, e: EventOutput<M>)
    requires
        cell is None || !s.is_open(cell->Some_0),
    ensures
        event_step(s, cell, e) == (s, seq![event_text(0, e.descriptor.name@, e.values@)]),
{
}

} // verus!
