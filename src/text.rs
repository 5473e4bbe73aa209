use vstd::prelude::*;
use vstd::string::StringExecFns;

use crate::output::ValueOutput;

verus! {

/// The decimal digit `d`, as text.
pub open spec fn digit_text(d: nat) -> Seq<char> {
    if d == 0 { "0"@ }
    else if d == 1 { "1"@ }
    else if d == 2 { "2"@ }
    else if d == 3 { "3"@ }
    else if d == 4 { "4"@ }
    else if d == 5 { "5"@ }
    else if d == 6 { "6"@ }
    else if d == 7 { "7"@ }
    else if d == 8 { "8"@ }
    else { "9"@ }
}

/// `n` written in decimal, without leading zeros.
pub open spec fn decimal(n: nat) -> Seq<char>
    decreases n,
{
    if n < 10 {
        digit_text(n)
    } else {
        decimal(n / 10) + digit_text(n % 10)
    }
}

/// The prefix of a line at nesting depth `depth`: one ` | ` per level.
pub open spec fn indent(depth: nat) -> Seq<char>
    decreases depth,
{
    if depth == 0 {
        Seq::empty()
    } else {
        indent((depth - 1) as nat) + " | "@
    }
}

pub open spec fn value_text(v: ValueOutput) -> Seq<char> {
    v.name@ + "="@ + v.value@
}

/// The values, each as `name=value`, separated by `, `.
pub open spec fn joined(vs: Seq<ValueOutput>) -> Seq<char>
    decreases vs.len(),
{
    if vs.len() == 0 {
        Seq::empty()
    } else if vs.len() == 1 {
        value_text(vs[0])
    } else {
        joined(vs.drop_last()) + ", "@ + value_text(vs.last())
    }
}

pub open spec fn values_text(vs: Seq<ValueOutput>) -> Seq<char> {
    "["@ + joined(vs) + "]"@
}

/// The line that opens a span's block.
pub open spec fn header_text(depth: nat, id: u64) -> Seq<char> {
    indent(depth) + "===== "@ + decimal(id as nat) + " ====="@
}

/// The line of a set of recorded values.
pub open spec fn record_text(depth: nat, vs: Seq<ValueOutput>) -> Seq<char> {
    indent(depth) + "Record: "@ + values_text(vs)
}

/// The line of an event: its call site's name, then its values.
pub open spec fn event_text(depth: nat, name: Seq<char>, vs: Seq<ValueOutput>) -> Seq<char> {
    indent(depth) + "Event: "@ + name + " "@ + values_text(vs)
}

fn digit_str(d: u64) -> (r: &'static str)
    requires
        d < 10,
    ensures
        r@ == digit_text(d as nat),
{
    if d == 0 { "0" }
    else if d == 1 { "1" }
    else if d == 2 { "2" }
    else if d == 3 { "3" }
    else if d == 4 { "4" }
    else if d == 5 { "5" }
    else if d == 6 { "6" }
    else if d == 7 { "7" }
    else if d == 8 { "8" }
    else { "9" }
}

fn push_decimal(s: &mut String, n: u64)
    ensures
        final(s)@ == old(s)@ + decimal(n as nat),
    decreases n,
{
    if n >= 10 {
        push_decimal(s, n / 10);
    }
    s.append(digit_str(n % 10));
    assert(final(s)@ =~= old(s)@ + decimal(n as nat));
}

fn push_indent(s: &mut String, depth: u64)
    ensures
        final(s)@ == old(s)@ + indent(depth as nat),
{
    let ghost s0 = s@;
    let mut i: u64 = 0;
    while i < depth
        invariant
            i <= depth,
            s@ == s0 + indent(i as nat),
        decreases depth - i,
    {
        s.append(" | ");
        i = i + 1;
        assert(s@ =~= s0 + indent(i as nat));
    }
}

fn push_values(s: &mut String, vs: &Vec<ValueOutput>)
    ensures
        final(s)@ == old(s)@ + values_text(vs@),
{
    let ghost s0 = s@;
    s.append("[");
    let mut i: usize = 0;
    while i < vs.len()
        invariant
            i <= vs@.len(),
            s@ == s0 + "["@ + joined(vs@.take(i as int)),
        decreases vs@.len() - i,
    {
        let ghost before = s@;
        if i > 0 {
            s.append(", ");
        }
        s.append(vs[i].name.as_str());
        s.append("=");
        s.append(vs[i].value.as_str());
        i = i + 1;
        proof {
            let t = vs@.take(i as int);
            assert(t.drop_last() =~= vs@.take(i - 1));
            assert(t.last() == vs@[i - 1]);
            if i == 1 {
                assert(joined(vs@.take(0)) =~= Seq::<char>::empty());
            }
        }
        assert(s@ =~= s0 + "["@ + joined(vs@.take(i as int)));
    }
    assert(vs@.take(vs@.len() as int) =~= vs@);
    s.append("]");
    assert(s@ =~= s0 + values_text(vs@));
}

/// Builds the header line of span `id` at nesting depth `depth`.
pub fn header_line(depth: u64, id: u64) -> (r: String)
    ensures
        r@ == header_text(depth as nat, id),
{
    let mut s = String::new();
    push_indent(&mut s, depth);
    s.append("===== ");
    push_decimal(&mut s, id);
    s.append(" =====");
    assert(s@ =~= header_text(depth as nat, id));
    s
}

/// Builds the line of a set of recorded values at nesting depth `depth`.
pub fn record_line(depth: u64, vs: &Vec<ValueOutput>) -> (r: String)
    ensures
        r@ == record_text(depth as nat, vs@),
{
    let mut s = String::new();
    push_indent(&mut s, depth);
    s.append("Record: ");
    push_values(&mut s, vs);
    assert(s@ =~= record_text(depth as nat, vs@));
    s
}

/// Builds the line of an event at nesting depth `depth`.
pub fn event_line(depth: u64, name: &String, vs: &Vec<ValueOutput>) -> (r: String)
    ensures
        r@ == event_text(depth as nat, name@, vs@),
{
    let mut s = String::new();
    push_indent(&mut s, depth);
    s.append("Event: ");
    s.append(name.as_str());
    s.append(" ");
    push_values(&mut s, vs);
    assert(s@ =~= event_text(depth as nat, name@, vs@));
    s
}

} // verus!
