use vstd::prelude::*;
use crate::grid::Grid;
use crate::machine::{Fault, HEAP_SIZE, Machine, TickResponse, apply, step, wrap};
use crate::opcode::{Op, hex_value, is_hex_digit, op_of};
use crate::vector::PVec;

verus! {

/// The cell that the next step of `m` lands on, if it is on the grid.
pub open spec fn lands_on(g: &Grid, m: Machine, c: char) -> bool {
    &&& g.in_bounds(m.ptr.x + m.vel.x, m.ptr.y + m.vel.y)
    &&& g.cell(m.ptr.x + m.vel.x, m.ptr.y + m.vel.y) == c
}

/// Outside string mode, a step that stays on the grid runs the operation of
/// the cell it lands on, with the pointer already there.
pub proof fn lemma_step_runs_cell(g: &Grid, m: Machine, c: char)
    requires
        g.wf(),
        m.wf(),
        !m.in_str,
        lands_on(g, m, c),
    ensures
        step(g, m) == apply(
            op_of(c),
            (Machine { ptr: (PVec { x: (m.ptr.x + m.vel.x) as i64, y: (m.ptr.y + m.vel.y) as i64 }), ..m }),
        ),
{
}

/// A step onto a hexadecimal digit outside string mode pushes the digit's
/// value, so the stack grows by one, and moves the pointer by the velocity.
pub proof fn lemma_digit_pushes_value(g: &Grid, m: Machine, c: char)
    requires
        g.wf(),
        m.wf(),
        !m.in_str,
        is_hex_digit(c),
        lands_on(g, m, c),
    ensures
        step(g, m).1 == TickResponse::Continue,
        step(g, m).0.stack == m.stack.push(hex_value(c)),
        step(g, m).0.stack.len() == m.stack.len() + 1,
        step(g, m).0.ptr.x == m.ptr.x + m.vel.x,
        step(g, m).0.ptr.y == m.ptr.y + m.vel.y,
        step(g, m).0.vel == m.vel,
        step(g, m).0.heap == m.heap,
{
}

/// With `b` pushed and then `a`, a step onto `+`, `-` or `*` replaces the
/// two with `b + a`, `b - a` or `b * a` modulo 2^64.
pub proof fn lemma_wrapping_arithmetic(g: &Grid, m: Machine, c: char, s: Seq<u64>, b: u64, a: u64)
    requires
        g.wf(),
        m.wf(),
        !m.in_str,
        lands_on(g, m, c),
        m.stack == s.push(b).push(a),
        c == '+' || c == '-' || c == '*',
    ensures
        step(g, m).1 == TickResponse::Continue,
        step(g, m).0.stack.len() == m.stack.len() - 1,
        c == '+' ==> step(g, m).0.stack == s.push(wrap(b + a)),
        c == '-' ==> step(g, m).0.stack == s.push(wrap(b - a)),
        c == '*' ==> step(g, m).0.stack == s.push(wrap(b * a)),
{
    assert(s.push(b).push(a).subrange(0, s.len() as int) =~= s);
}

/// With `b` pushed and then `a`, a step onto `/` or `%` faults when `a` is
/// zero and otherwise replaces the two with `b / a` or `b % a`.
pub proof fn lemma_division(g: &Grid, m: Machine, c: char, s: Seq<u64>, b: u64, a: u64)
    requires
        g.wf(),
        m.wf(),
        !m.in_str,
        lands_on(g, m, c),
        m.stack == s.push(b).push(a),
        c == '/' || c == '%',
    ensures
        a == 0 ==> step(g, m).1 == TickResponse::Panic(Fault::ArithmeticFault),
        a != 0 ==> step(g, m).1 == TickResponse::Continue,
        a != 0 && c == '/' ==> step(g, m).0.stack == s.push(b / a),
        a != 0 && c == '%' ==> step(g, m).0.stack == s.push(b % a),
{
    assert(s.push(b).push(a).subrange(0, s.len() as int) =~= s);
}

/// Storing `v` at an address below the bank size and then recalling that
/// address pushes `v` back.
pub proof fn lemma_memory_round_trip(m: Machine, s: Seq<u64>, v: u64, addr: u64)
    requires
        m.wf(),
        addr < HEAP_SIZE,
        m.stack == s.push(v).push(addr),
    ensures
        apply(op_of('s'), m).1 == TickResponse::Continue,
        apply(op_of('s'), m).0.stack == s,
        ({
            let stored = apply(op_of('s'), m).0;
            let recalled = apply(op_of('r'), stored.with_stack(stored.stack.push(addr)));
            &&& recalled.1 == TickResponse::Continue
            &&& recalled.0.stack == s.push(v)
        }),
{
    assert(s.push(v).push(addr).subrange(0, s.len() as int) =~= s);
    let stored = apply(op_of('s'), m).0;
    assert(stored.with_stack(stored.stack.push(addr)).stack.drop_last() =~= s);
}

/// A store whose address is past the bank faults, whatever value lies below
/// the address; a recall of such an address faults, whatever lies below it.
/// A store with nothing below the address underflows first.
pub proof fn lemma_memory_bounds(m: Machine)
    requires
        m.stack.len() >= 1,
        m.top() >= HEAP_SIZE,
    ensures
        m.stack.len() >= 2 ==> apply(op_of('s'), m).1 == TickResponse::Panic(Fault::MemoryFault),
        m.stack.len() == 1 ==> apply(op_of('s'), m).1 == TickResponse::Panic(Fault::StackUnderflow),
        apply(op_of('r'), m).1 == TickResponse::Panic(Fault::MemoryFault),
{
}

/// A recall of an address below the bank size pushes what the memory holds
/// there and leaves the memory as it is.
pub proof fn lemma_recall_reads_memory(m: Machine, s: Seq<u64>, addr: u64)
    requires
        m.wf(),
        addr < HEAP_SIZE,
        m.stack == s.push(addr),
    ensures
        apply(op_of('r'), m).1 == TickResponse::Continue,
        apply(op_of('r'), m).0.stack == s.push(m.heap[addr as int]),
        apply(op_of('r'), m).0.heap == m.heap,
{
    assert(s.push(addr).drop_last() =~= s);
}

/// A step changes a memory word only by a store to that word: outside string
/// mode, onto an `s` cell, with the word's address on top of the stack.
/// So a stored value stays until the next store to its address.
pub proof fn lemma_step_keeps_memory(g: &Grid, m: Machine, addr: int)
    requires
        g.wf(),
        m.wf(),
        0 <= addr < HEAP_SIZE,
        step(g, m).0.heap[addr] != m.heap[addr],
    ensures
        !m.in_str,
        lands_on(g, m, 's'),
        m.stack.len() >= 2,
        m.top() == addr,
{
    let nx = m.ptr.x + m.vel.x;
    let ny = m.ptr.y + m.vel.y;
    let c = g.cell(nx, ny);
    if op_of(c) != Op::Store {
        assert(step(g, m).0.heap == m.heap);
    }
    assert(op_of(c) == Op::Store ==> c == 's');
}

/// While moving horizontally, `<` and `>` leave the velocity as it is, and
/// `v` and `^` turn down and up; while moving vertically, the other way round.
pub proof fn lemma_turns(m: Machine)
    requires
        m.wf(),
    ensures
        m.vel.y == 0 ==> apply(op_of('<'), m).0.vel == m.vel,
        m.vel.y == 0 ==> apply(op_of('>'), m).0.vel == m.vel,
        m.vel.y == 0 ==> apply(op_of('v'), m).0.vel == (PVec { x: 0, y: 1 }),
        m.vel.y == 0 ==> apply(op_of('^'), m).0.vel == (PVec { x: 0, y: -1i64 }),
        m.vel.x == 0 ==> apply(op_of('v'), m).0.vel == m.vel,
        m.vel.x == 0 ==> apply(op_of('^'), m).0.vel == m.vel,
        m.vel.x == 0 ==> apply(op_of('<'), m).0.vel == (PVec { x: -1i64, y: 0 }),
        m.vel.x == 0 ==> apply(op_of('>'), m).0.vel == (PVec { x: 1, y: 0 }),
{
}

/// A step whose move leaves the grid, on any side, faults with the position
/// it would reach, outputs nothing and changes nothing.
pub proof fn lemma_leaving_the_grid(g: &Grid, m: Machine)
    requires
        g.wf(),
        m.wf(),
        !g.in_bounds(m.ptr.x + m.vel.x, m.ptr.y + m.vel.y),
    ensures
        step(g, m).0 == m,
        step(g, m).1 == TickResponse::Panic(
            (Fault::StructuralFault { x: (m.ptr.x + m.vel.x) as i64, y: (m.ptr.y + m.vel.y) as i64 }),
        ),
        !(step(g, m).1 is Print),
{
}

} // verus!
