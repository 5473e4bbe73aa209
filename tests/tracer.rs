use squad_tracer::level::Level;
use squad_tracer::output::{Descriptor, EventOutput, RootOutput, ValueOutput};
use squad_tracer::subscriber::MySubscriber;

fn desc(name: &str, handle: u32) -> Descriptor<u32> {
    Descriptor { name: name.to_string(), level: Level::Debug, handle }
}

fn val(name: &str, value: &str) -> ValueOutput {
    ValueOutput::new(name.to_string(), value.to_string())
}

#[test]
fn nested_span_renders_inside_parent() {
    let mut t: MySubscriber<u32> = MySubscriber::new();
    let mut cell: Option<u64> = None;
    let a = t.new_span(desc("a", 1), cell, vec![]);
    t.enter(&mut cell, a);
    let b = t.new_span(desc("b", 2), cell, vec![]);
    t.enter(&mut cell, b);
    assert!(t.exit(&mut cell, b).is_empty());
    assert_eq!(t.try_close(b), (true, vec![]));
    assert!(t.exit(&mut cell, a).is_empty());
    let (closed, lines) = t.try_close(a);
    assert!(closed);
    assert_eq!(
        lines,
        vec![
            "===== 1 =====".to_string(),
            " | Record: []".to_string(),
            " | ===== 2 =====".to_string(),
            " |  | Record: []".to_string(),
        ]
    );
    assert_eq!(cell, None);
}

#[test]
fn siblings_keep_creation_order() {
    let mut t: MySubscriber<u32> = MySubscriber::new();
    let mut cell: Option<u64> = None;
    let a = t.new_span(desc("a", 1), None, vec![]);
    t.enter(&mut cell, a);
    let b = t.new_span(desc("b", 2), cell, vec![val("n", "1")]);
    let c = t.new_span(desc("c", 3), cell, vec![val("n", "2")]);
    assert_eq!(t.try_close(c).0, true);
    assert_eq!(t.try_close(b).0, true);
    t.exit(&mut cell, a);
    let (_, lines) = t.try_close(a);
    assert_eq!(
        lines,
        vec![
            "===== 1 =====".to_string(),
            " | Record: []".to_string(),
            " | ===== 2 =====".to_string(),
            " |  | Record: [n=1]".to_string(),
            " | ===== 3 =====".to_string(),
            " |  | Record: [n=2]".to_string(),
        ]
    );
}

#[test]
fn rootless_event_is_its_own_block() {
    let mut t: MySubscriber<u32> = MySubscriber::new();
    let lines = t.event(None, desc("ev", 9), vec![val("msg", "\"hi\"")]);
    assert_eq!(lines, vec!["Event: ev [msg=\"hi\"]".to_string()]);
}

#[test]
fn event_for_closed_current_span_is_a_root() {
    let mut t: MySubscriber<u32> = MySubscriber::new();
    let a = t.new_span(desc("a", 1), None, vec![]);
    assert_eq!(t.try_close(a).0, true);
    let lines = t.event(Some(a), desc("late", 2), vec![]);
    assert_eq!(lines, vec!["Event: late []".to_string()]);
}

#[test]
fn concurrent_roots_do_not_mix() {
    let mut t: MySubscriber<u32> = MySubscriber::new();
    let mut cell1: Option<u64> = None;
    let mut cell2: Option<u64> = None;
    let a = t.new_span(desc("a", 1), cell1, vec![val("who", "\"a\"")]);
    let b = t.new_span(desc("b", 2), cell2, vec![val("who", "\"b\"")]);
    t.enter(&mut cell1, a);
    t.enter(&mut cell2, b);
    assert!(t.event(cell1, desc("e", 3), vec![val("x", "1")]).is_empty());
    assert!(t.event(cell2, desc("e", 3), vec![val("x", "2")]).is_empty());
    assert!(t.exit(&mut cell2, b).is_empty());
    assert!(t.exit(&mut cell1, a).is_empty());
    let (closed_b, lines_b) = t.try_close(b);
    let (closed_a, lines_a) = t.try_close(a);
    assert!(closed_a && closed_b);
    assert_eq!(
        lines_a,
        vec![
            "===== 1 =====".to_string(),
            " | Record: [who=\"a\"]".to_string(),
            " | Event: e [x=1]".to_string(),
        ]
    );
    assert_eq!(
        lines_b,
        vec![
            "===== 2 =====".to_string(),
            " | Record: [who=\"b\"]".to_string(),
            " | Event: e [x=2]".to_string(),
        ]
    );
}

#[test]
fn appends_render_in_order() {
    let mut t: MySubscriber<u32> = MySubscriber::new();
    let mut cell: Option<u64> = None;
    let s = t.new_span(desc("s", 1), None, vec![val("user", "\"bob\"")]);
    t.enter(&mut cell, s);
    assert!(t.event(cell, desc("e", 2), vec![val("msg", "\"hi\"")]).is_empty());
    assert!(t.record(s, vec![val("status", "\"ok\"")]));
    t.exit(&mut cell, s);
    let (closed, lines) = t.try_close(s);
    assert!(closed);
    assert_eq!(
        lines,
        vec![
            "===== 1 =====".to_string(),
            " | Record: [user=\"bob\"]".to_string(),
            " | Event: e [msg=\"hi\"]".to_string(),
            " | Record: [status=\"ok\"]".to_string(),
        ]
    );
}

#[test]
fn well_paired_enters_restore_the_cell() {
    let mut t: MySubscriber<u32> = MySubscriber::new();
    let a = t.new_span(desc("a", 1), None, vec![]);
    let b = t.new_span(desc("b", 2), None, vec![]);
    let mut cell: Option<u64> = None;
    t.enter(&mut cell, a);
    assert_eq!(cell, Some(a));
    t.enter(&mut cell, b);
    assert_eq!(cell, Some(b));
    t.enter(&mut cell, a);
    t.exit(&mut cell, a);
    assert_eq!(cell, Some(b));
    t.exit(&mut cell, b);
    assert_eq!(cell, Some(a));
    t.exit(&mut cell, a);
    assert_eq!(cell, None);

    let mut other: Option<u64> = Some(b);
    t.enter(&mut other, a);
    t.exit(&mut other, a);
    assert_eq!(other, Some(b));
    assert_eq!(t.current_span(Some(a)), Some((a, 1)));
}

#[test]
fn close_happens_exactly_once() {
    let mut t: MySubscriber<u32> = MySubscriber::new();
    let a = t.new_span(desc("a", 1), None, vec![]);
    assert!(t.clone_span(a));
    assert_eq!(t.try_close(a), (false, vec![]));
    let (closed, lines) = t.try_close(a);
    assert!(closed);
    assert_eq!(lines, vec!["===== 1 =====".to_string(), " | Record: []".to_string()]);
    assert_eq!(t.try_close(a), (false, vec![]));
    let mut cell: Option<u64> = Some(7);
    assert!(t.exit(&mut cell, a).is_empty());
    assert_eq!(cell, Some(7));
    assert!(!t.clone_span(a));
}

#[test]
fn exit_to_zero_renders_root() {
    let mut t: MySubscriber<u32> = MySubscriber::new();
    let mut cell: Option<u64> = None;
    let a = t.new_span(desc("a", 1), None, vec![]);
    t.enter(&mut cell, a);
    assert_eq!(t.try_close(a), (false, vec![]));
    let lines = t.exit(&mut cell, a);
    assert_eq!(lines, vec!["===== 1 =====".to_string(), " | Record: []".to_string()]);
    assert_eq!(t.current_span(Some(a)), None);
}

#[test]
fn record_on_unknown_span_is_dropped() {
    let mut t: MySubscriber<u32> = MySubscriber::new();
    assert!(!t.record(42, vec![val("x", "1")]));
    let a = t.new_span(desc("a", 1), None, vec![]);
    assert!(t.record(a, vec![]));
}

#[test]
fn closed_parent_makes_child_a_root() {
    let mut t: MySubscriber<u32> = MySubscriber::new();
    let a = t.new_span(desc("a", 1), None, vec![]);
    assert!(t.try_close(a).0);
    let b = t.new_span(desc("b", 2), Some(a), vec![]);
    let (closed, lines) = t.try_close(b);
    assert!(closed);
    assert_eq!(lines, vec!["===== 2 =====".to_string(), " | Record: []".to_string()]);
}

#[test]
fn explicit_parent_other_than_current() {
    let mut t: MySubscriber<u32> = MySubscriber::new();
    let mut cell: Option<u64> = None;
    let a = t.new_span(desc("a", 1), None, vec![]);
    let b = t.new_span(desc("b", 2), None, vec![]);
    t.enter(&mut cell, b);
    let c = t.new_span(desc("c", 3), Some(a), vec![]);
    t.exit(&mut cell, b);
    assert!(t.try_close(c).0);
    let (_, lines_b) = t.try_close(b);
    assert_eq!(lines_b, vec!["===== 2 =====".to_string(), " | Record: []".to_string()]);
    let (_, lines_a) = t.try_close(a);
    assert_eq!(
        lines_a,
        vec![
            "===== 1 =====".to_string(),
            " | Record: []".to_string(),
            " | ===== 3 =====".to_string(),
            " |  | Record: []".to_string(),
        ]
    );
}

#[test]
fn child_outliving_root_is_discarded() {
    let mut t: MySubscriber<u32> = MySubscriber::new();
    let a = t.new_span(desc("a", 1), None, vec![]);
    let b = t.new_span(desc("b", 2), Some(a), vec![]);
    let (_, lines) = t.try_close(a);
    assert_eq!(
        lines,
        vec![
            "===== 1 =====".to_string(),
            " | Record: []".to_string(),
            " | ===== 2 =====".to_string(),
            " |  | Record: []".to_string(),
        ]
    );
    assert!(t.record(b, vec![val("late", "1")]));
    assert!(t.event(Some(b), desc("e", 3), vec![]).is_empty());
    assert_eq!(t.try_close(b), (true, vec![]));
}

#[test]
fn multi_digit_ids_and_several_values() {
    let mut t: MySubscriber<u32> = MySubscriber::new();
    let mut last = 0;
    for _ in 0..12 {
        last = t.new_span(desc("s", 0), None, vec![]);
    }
    assert_eq!(last, 12);
    t.record(last, vec![val("a", "1"), val("b", "2"), val("c", "3")]);
    let (_, lines) = t.try_close(last);
    assert_eq!(
        lines,
        vec![
            "===== 12 =====".to_string(),
            " | Record: []".to_string(),
            " | Record: [a=1, b=2, c=3]".to_string(),
        ]
    );
}

#[test]
fn level_gate() {
    let t: MySubscriber<u32> = MySubscriber::new();
    assert!(t.enabled(Level::Debug));
    assert!(t.enabled(Level::Trace));
    assert!(!t.enabled(Level::Info));
    assert!(!t.enabled(Level::Error));
    let w: MySubscriber<u32> = MySubscriber::with_threshold(Level::Warn);
    assert!(w.enabled(Level::Warn));
    assert!(w.enabled(Level::Info));
    assert!(!w.enabled(Level::Error));
}

#[test]
fn output_of_root_event_and_span() {
    let mut t: MySubscriber<u32> = MySubscriber::new();
    let a = t.new_span(desc("a", 1), None, vec![val("k", "v")]);
    let lines = t.output(&RootOutput::Span(a));
    assert_eq!(lines, vec!["===== 1 =====".to_string(), " | Record: [k=v]".to_string()]);
    let ev = EventOutput { descriptor: desc("ping", 5), values: vec![] };
    assert_eq!(t.output(&RootOutput::Event(ev)), vec!["Event: ping []".to_string()]);
    assert!(t.can_open());
}
