//! Bindings, shadowing, integer arithmetic and the three loop forms. Each
//! computation hands back what a demo prints, in the order it prints it.
use vstd::prelude::*;

verus! {

/// Seconds in three hours.
pub const THREE_HOURS_IN_SECONDS: u32 = 60 * 60 * 3;

/// The two values that a shadowed binding takes, starting from `x`: first it
/// is shadowed by `x + 1` (the outer value), then inside a nested scope by
/// twice that (the inner value). Returns `(inner, outer)`: the nested shadow
/// leaves the outer binding untouched.
pub fn shadowed_values(x: u32) -> (r: (u32, u32))
    requires
        2 * (x + 1) <= u32::MAX,
    ensures
        r.0 == 2 * (x + 1),
        r.1 == x + 1,
{
    let x = x + 1;
    let inner: u32;
    {
        let x = x * 2;
        inner = x;
    }
    (inner, x)
}

/// Results of the integer operations of the data-type demo.
#[derive(Debug, Clone, Copy, PartialEq, Eq, Structural)]
pub struct IntegerResults {
    pub sum: i32,
    pub product: i32,
    pub truncated: i32,
    pub remainder: i32,
}

/// `5 + 10`, `4 * 30`, `-5 / 3` (division rounds toward zero) and `43 % 5`.
pub fn integer_arithmetic() -> (r: IntegerResults)
    ensures
        r.sum == 15,
        r.product == 120,
        r.truncated == -1,
        r.remainder == 3,
{
    let sum: i32 = 5 + 10;
    let product: i32 = 4 * 30;
    let dividend: i32 = -5;
    let truncated: i32 = dividend / 3;
    let remainder: i32 = 43 % 5;
    IntegerResults { sum, product, truncated, remainder }
}

/// The value of a conditional expression: `5` when `condition` holds, else `6`.
pub fn pick_number(condition: bool) -> (r: u32)
    ensures
        r == (if condition { 5u32 } else { 6u32 }),
{
    if condition {
        5
    } else {
        6
    }
}

/// One line of the labeled-loop demo: the outer counter at the start of a
/// pass, or the inner counter at the start of an inner step.
#[derive(Debug, Clone, Copy, PartialEq, Eq, Structural)]
pub enum LoopEvent {
    Count(u32),
    Remaining(u32),
}

/// What an outer pass that runs to completion reports for counter `c`.
pub open spec fn full_pass(c: u32) -> Seq<LoopEvent> {
    seq![LoopEvent::Count(c), LoopEvent::Remaining(10), LoopEvent::Remaining(9)]
}

/// What the outer passes `0..k` report, when all of them run to completion.
pub open spec fn full_passes(k: nat) -> Seq<LoopEvent>
    decreases k,
{
    if k == 0 {
        seq![]
    } else {
        full_passes((k - 1) as nat) + full_pass((k - 1) as u32)
    }
}

/// Everything the labeled-loop demo reports: passes 0 and 1 end when the
/// inner counter reaches 9; pass 2 leaves the outer loop by its label
/// before the inner counter moves.
pub open spec fn labeled_loop_events() -> Seq<LoopEvent> {
    full_passes(2) + seq![LoopEvent::Count(2), LoopEvent::Remaining(10)]
}

/// The labeled-loop events written out: the outer counter goes 0, 1, 2 and
/// the run stops on pass 2 before the inner counter reaches 9.
pub proof fn labeled_loop_events_listed()
    ensures
        labeled_loop_events() == seq![
            LoopEvent::Count(0),
            LoopEvent::Remaining(10),
            LoopEvent::Remaining(9),
            LoopEvent::Count(1),
            LoopEvent::Remaining(10),
            LoopEvent::Remaining(9),
            LoopEvent::Count(2),
            LoopEvent::Remaining(10),
        ],
{
    reveal_with_fuel(full_passes, 3);
    assert(labeled_loop_events() =~= seq![
        LoopEvent::Count(0),
        LoopEvent::Remaining(10),
        LoopEvent::Remaining(9),
        LoopEvent::Count(1),
        LoopEvent::Remaining(10),
        LoopEvent::Remaining(9),
        LoopEvent::Count(2),
        LoopEvent::Remaining(10),
    ]);
}

/// Runs an outer loop that counts passes from 0 and an inner loop that counts
/// down from 10. The inner loop ends itself when its counter is 9; once the
/// outer counter is 2 it leaves the outer loop by name. Returns the events in
/// order and the outer counter at the end, which is 2.
pub fn loops_with_label() -> (r: (Vec<LoopEvent>, u32))
    ensures
        r.0@ == labeled_loop_events(),
        r.1 == 2,
{
    let mut events: Vec<LoopEvent> = Vec::new();
    let mut count: u32 = 0;
    'counting_up: loop
        invariant_except_break
            events@ == full_passes(count as nat),
        invariant
            count <= 2,
        ensures
            count == 2,
            events@ == labeled_loop_events(),
        decreases 2 - count,
    {
        events.push(LoopEvent::Count(count));
        let mut remaining: u32 = 10;
        loop
            invariant_except_break
                remaining == 10 ==> events@ == full_passes(count as nat) + seq![
                    LoopEvent::Count(count),
                ],
                remaining == 9 ==> count < 2 && events@ == full_passes(count as nat) + seq![
                    LoopEvent::Count(count),
                    LoopEvent::Remaining(10),
                ],
            invariant
                count <= 2,
                9 <= remaining <= 10,
            ensures
                count < 2,
                events@ == full_passes(count as nat) + full_pass(count),
            decreases remaining,
        {
            events.push(LoopEvent::Remaining(remaining));
            if remaining == 9 {
                break;
            }
            if count == 2 {
                assert(events@ =~= labeled_loop_events());
                break 'counting_up;
            }
            remaining -= 1;
        }
        assert(full_passes((count + 1) as nat) =~= full_passes(count as nat) + full_pass(count));
        count += 1;
    }
    (events, count)
}

/// The numbers a countdown from `number` reports before it reaches zero:
/// `number, number - 1, ..., 1`.
pub fn countdown(number: u32) -> (r: Vec<u32>)
    ensures
        r@.len() == number,
        forall|i: int| 0 <= i < r@.len() ==> r@[i] == number - i,
{
    let mut out: Vec<u32> = Vec::new();
    let mut n: u32 = number;
    while n != 0
        invariant
            n <= number,
            out@.len() == number - n,
            forall|i: int| 0 <= i < out@.len() ==> out@[i] == number - i,
        decreases n,
    {
        out.push(n);
        n -= 1;
    }
    out
}

/// The numbers of the half-open range `start..end`, from the largest down.
pub fn reversed_range(start: u32, end: u32) -> (r: Vec<u32>)
    ensures
        start >= end ==> r@.len() == 0,
        start < end ==> r@.len() == end - start,
        forall|i: int| 0 <= i < r@.len() ==> r@[i] == end - 1 - i,
{
    let mut out: Vec<u32> = Vec::new();
    let mut n: u32 = end;
    while n > start
        invariant
            n <= end,
            start < end ==> start <= n,
            start >= end ==> n == end,
            out@.len() == end - n,
            forall|i: int| 0 <= i < out@.len() ==> out@[i] == end - 1 - i,
        decreases n,
    {
        n -= 1;
        out.push(n);
    }
    out
}

} // verus!
