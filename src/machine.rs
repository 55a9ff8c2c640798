use vstd::prelude::*;
use crate::grid::Grid;
use crate::opcode::{Op, op_of, escape_value, floor_sqrt, decode, escape, isqrt};
use crate::vector::PVec;

verus! {

/// Number of words in the memory bank.
pub const HEAP_SIZE: usize = 1024;

/// 2^64: arithmetic on stack values is taken modulo this.
pub const WORD: u128 = 0x1_0000_0000_0000_0000;

/// A condition that ends a run.
#[derive(Clone, Copy, Debug, PartialEq, Eq, Structural)]
pub enum Fault {
    /// The pointer would leave the grid; it carries the position it would reach.
    StructuralFault { x: i64, y: i64 },
    /// An operation needed more values than the stack holds.
    StackUnderflow,
    /// Division or remainder by zero.
    ArithmeticFault,
    /// A store or recall at an address past the memory bank.
    MemoryFault,
}

/// What a fault says to a person.
pub open spec fn fault_text(f: Fault) -> Seq<char> {
    match f {
        Fault::StructuralFault { .. } => "pointer left the grid"@,
        Fault::StackUnderflow => "empty stack"@,
        Fault::ArithmeticFault => "division by zero"@,
        Fault::MemoryFault => "memory address out of bounds"@,
    }
}

impl Fault {
    /// A description of the fault for a person to read.
    pub fn description(&self) -> (r: &'static str)
        ensures
            r@ == fault_text(*self),
    {
        match self {
            Fault::StructuralFault { .. } => "pointer left the grid",
            Fault::StackUnderflow => "empty stack",
            Fault::ArithmeticFault => "division by zero",
            Fault::MemoryFault => "memory address out of bounds",
        }
    }
}

/// What one step hands back to the driver.
#[derive(Clone, Copy, Debug, PartialEq, Eq, Structural)]
pub enum TickResponse {
    /// Nothing to report: the state changed, the run goes on.
    Continue,
    /// The program stopped with this result.
    Return(i64),
    /// The program output this word.
    Print(u64),
    /// The run cannot go on.
    Panic(Fault),
}

/// The mutable state of one run.
pub struct InterpretationState {
    pub ptr: PVec,
    pub vel: PVec,
    pub in_str: bool,
    pub escaped: bool,
    pub stack: Vec<u64>,
    pub heap: [u64; HEAP_SIZE],
}

/// The state of a run, as values.
pub struct Machine {
    pub ptr: PVec,
    pub vel: PVec,
    pub in_str: bool,
    pub escaped: bool,
    /// Bottom first: the top of the stack is the last element.
    pub stack: Seq<u64>,
    pub heap: Seq<u64>,
}

impl View for InterpretationState {
    type V = Machine;

    open spec fn view(&self) -> Machine {
        Machine {
            ptr: self.ptr,
            vel: self.vel,
            in_str: self.in_str,
            escaped: self.escaped,
            stack: self.stack@,
            heap: self.heap@,
        }
    }
}

/// One of the four unit directions.
pub open spec fn is_direction(v: PVec) -> bool {
    ||| v.x == 0 && (v.y == 1 || v.y == -1)
    ||| v.y == 0 && (v.x == 1 || v.x == -1)
}

/// The opposite direction.
pub open spec fn reversed(v: PVec) -> PVec {
    PVec { x: (-v.x) as i64, y: (-v.y) as i64 }
}

/// `v` mod 2^64.
pub open spec fn wrap(v: int) -> u64 {
    (v % (WORD as int)) as u64
}

impl Machine {
    /// The velocity is a unit direction, the memory bank has its size, and a
    /// step's move cannot overflow a coordinate.
    pub open spec fn wf(self) -> bool {
        &&& is_direction(self.vel)
        &&& self.heap.len() == HEAP_SIZE
        &&& i64::MIN < self.ptr.x < i64::MAX
        &&& i64::MIN < self.ptr.y < i64::MAX
    }

    pub open spec fn with_stack(self, stack: Seq<u64>) -> Machine {
        Machine { stack, ..self }
    }

    pub open spec fn with_vel(self, vel: PVec) -> Machine {
        Machine { vel, ..self }
    }

    pub open spec fn top(self) -> u64 {
        self.stack.last()
    }

    pub open spec fn second(self) -> u64 {
        self.stack[self.stack.len() - 2]
    }

    /// The stack without its top value.
    pub open spec fn popped(self) -> Seq<u64> {
        self.stack.drop_last()
    }

    /// The stack without its top two values.
    pub open spec fn popped2(self) -> Seq<u64> {
        self.stack.subrange(0, self.stack.len() - 2)
    }
}

/// The initial state of a run that starts at `(x0, y0)` moving right.
pub open spec fn initial(x0: i64, y0: i64) -> Machine {
    Machine {
        ptr: PVec { x: x0, y: y0 },
        vel: PVec { x: 1, y: 0 },
        in_str: false,
        escaped: false,
        stack: Seq::empty(),
        heap: Seq::new(HEAP_SIZE as nat, |i: int| 0u64),
    }
}

/// The result of a binary operation on `b` (pushed first) and `a`; `None`
/// where it is undefined: division by zero.
pub open spec fn binary(op: Op, b: u64, a: u64) -> Option<u64> {
    match op {
        Op::Add => Some(wrap(b + a)),
        Op::Sub => Some(wrap(b - a)),
        Op::Mul => Some(wrap(b * a)),
        Op::Div => if a == 0 { None } else { Some(b / a) },
        Op::Rem => if a == 0 { None } else { Some(b % a) },
        Op::Greater => Some((if b > a { 1u64 } else { 0u64 })),
        _ => None,
    }
}

pub open spec fn is_binary(op: Op) -> bool {
    op is Add || op is Sub || op is Mul || op is Div || op is Rem || op is Greater
}

pub open spec fn underflow(m: Machine) -> (Machine, TickResponse) {
    (m, TickResponse::Panic(Fault::StackUnderflow))
}

pub open spec fn go_on(m: Machine) -> (Machine, TickResponse) {
    (m, TickResponse::Continue)
}

/// What an operation does to a state whose pointer is already on its cell.
pub open spec fn apply(op: Op, m: Machine) -> (Machine, TickResponse) {
    let n = m.stack.len();
    match op {
        Op::TurnDown => go_on(if m.vel.y == 0 { m.with_vel(PVec { x: 0, y: 1 }) } else { m }),
        Op::TurnUp => go_on(if m.vel.y == 0 { m.with_vel(PVec { x: 0, y: -1i64 }) } else { m }),
        Op::TurnLeft => go_on(if m.vel.x == 0 { m.with_vel(PVec { x: -1i64, y: 0 }) } else { m }),
        Op::TurnRight => go_on(if m.vel.x == 0 { m.with_vel(PVec { x: 1, y: 0 }) } else { m }),
        Op::Add | Op::Sub | Op::Mul | Op::Div | Op::Rem | Op::Greater => {
            if n < 2 {
                underflow(m)
            } else {
                match binary(op, m.second(), m.top()) {
                    Some(v) => go_on(m.with_stack(m.popped2().push(v))),
                    None => (m, TickResponse::Panic(Fault::ArithmeticFault)),
                }
            }
        },
        Op::Digit(d) => go_on(m.with_stack(m.stack.push(d))),
        Op::Print => if n < 1 {
            underflow(m)
        } else {
            (m.with_stack(m.popped()), TickResponse::Print(m.top()))
        },
        Op::StringMode => go_on(Machine { in_str: true, ..m }),
        Op::Exit => if n < 1 {
            underflow(m)
        } else {
            (m.with_stack(m.popped()), TickResponse::Return(m.top() as i64))
        },
        Op::Not => if n < 1 {
            underflow(m)
        } else {
            go_on(m.with_stack(m.popped().push((if m.top() == 0 { 1u64 } else { 0u64 }))))
        },
        Op::Dup => if n < 1 {
            underflow(m)
        } else {
            go_on(m.with_stack(m.stack.push(m.top())))
        },
        Op::Drop => if n < 1 {
            underflow(m)
        } else {
            go_on(m.with_stack(m.popped()))
        },
        Op::Swap => if n < 2 {
            underflow(m)
        } else {
            go_on(m.with_stack(m.popped2().push(m.top()).push(m.second())))
        },
        Op::MirrorH => if m.vel.x == 0 {
            go_on(m)
        } else if n < 1 {
            underflow(m)
        } else if m.top() != 0 {
            go_on(m.with_stack(m.popped()).with_vel(reversed(m.vel)))
        } else {
            go_on(m.with_stack(m.popped()))
        },
        Op::MirrorV => if m.vel.y == 0 {
            go_on(m)
        } else if n < 1 {
            underflow(m)
        } else if m.top() != 0 {
            go_on(m.with_stack(m.popped()).with_vel(reversed(m.vel)))
        } else {
            go_on(m.with_stack(m.popped()))
        },
        Op::Store => if n < 2 {
            underflow(m)
        } else if m.top() >= HEAP_SIZE {
            (m, TickResponse::Panic(Fault::MemoryFault))
        } else {
            go_on(Machine { stack: m.popped2(), heap: m.heap.update(m.top() as int, m.second()), ..m })
        },
        Op::Recall => if n < 1 {
            underflow(m)
        } else if m.top() >= HEAP_SIZE {
            (m, TickResponse::Panic(Fault::MemoryFault))
        } else {
            go_on(m.with_stack(m.popped().push(m.heap[m.top() as int])))
        },
        Op::Sqrt => if n < 1 {
            underflow(m)
        } else {
            go_on(m.with_stack(m.popped().push(floor_sqrt(m.top()))))
        },
        Op::Over => if n < 2 {
            underflow(m)
        } else {
            go_on(m.with_stack(m.popped2().push(m.second()).push(m.top()).push(m.second())))
        },
        Op::Nop => go_on(m),
    }
}

/// What a character does in string mode.
pub open spec fn string_step(c: char, m: Machine) -> (Machine, TickResponse) {
    if m.escaped {
        go_on(Machine { stack: m.stack.push(escape_value(c)), escaped: false, ..m })
    } else if c == '"' {
        go_on(Machine { in_str: false, ..m })
    } else if c == '\\' {
        go_on(Machine { escaped: true, ..m })
    } else {
        go_on(m.with_stack(m.stack.push(c as u64)))
    }
}

/// One step: move the pointer by the velocity, then run the cell it lands on.
/// A move off the grid faults and changes nothing.
pub open spec fn step(g: &Grid, m: Machine) -> (Machine, TickResponse) {
    let nx = m.ptr.x + m.vel.x;
    let ny = m.ptr.y + m.vel.y;
    if !g.in_bounds(nx, ny) {
        (m, TickResponse::Panic(Fault::StructuralFault { x: nx as i64, y: ny as i64 }))
    } else {
        let moved = Machine { ptr: PVec { x: nx as i64, y: ny as i64 }, ..m };
        let c = g.cell(nx, ny);
        if m.in_str {
            string_step(c, moved)
        } else {
            apply(op_of(c), moved)
        }
    }
}

impl InterpretationState {
    /// A fresh run at `(x0, y0)`: moving right, empty stack, zeroed memory.
    pub fn new(x0: i64, y0: i64) -> (r: InterpretationState)
        ensures
            r@ == initial(x0, y0),
    {
        let r = InterpretationState {
            ptr: PVec { x: x0, y: y0 },
            vel: PVec { x: 1, y: 0 },
            in_str: false,
            escaped: false,
            stack: Vec::new(),
            heap: [0u64; HEAP_SIZE],
        };
        assert(r.heap@ =~= initial(x0, y0).heap);
        assert(r.stack@ =~= Seq::<u64>::empty());
        r
    }

    pub open spec fn wf(&self) -> bool {
        self@.wf()
    }
}

/// Takes the top value off a nonempty stack.
fn pop_top(stack: &mut Vec<u64>) -> (a: u64)
    requires
        old(stack)@.len() > 0,
    ensures
        a == old(stack)@.last(),
        final(stack)@ == old(stack)@.drop_last(),
{
    match stack.pop() {
        Some(a) => a,
        None => 0,
    }
}

/// Runs one character in string mode.
fn string_char(c: char, state: &mut InterpretationState) -> (r: TickResponse)
    ensures
        (final(state)@, r) == string_step(c, old(state)@),
{
    if state.escaped {
        state.stack.push(escape(c));
        state.escaped = false;
    } else if c == '"' {
        state.in_str = false;
    } else if c == '\\' {
        state.escaped = true;
    } else {
        state.stack.push(c as u64);
    }
    TickResponse::Continue
}

/// The value of a binary operation, or `None` where it is undefined.
fn binary_exec(op: Op, b: u64, a: u64) -> (r: Option<u64>)
    requires
        is_binary(op),
    ensures
        r == binary(op, b, a),
{
    match op {
        Op::Add => {
            let r = b.wrapping_add(a);
            assert(r == wrap(b + a)) by {
                if b + a >= WORD {
                    assert((b + a) % (WORD as int) == b + a - WORD);
                }
            }
            Some(r)
        },
        Op::Sub => {
            let r = b.wrapping_sub(a);
            assert(r == wrap(b - a)) by {
                if b < a {
                    assert((b - a) % (WORD as int) == b - a + WORD);
                }
            }
            Some(r)
        },
        Op::Mul => Some(b.wrapping_mul(a)),
        Op::Div => if a == 0 { None } else { Some(b / a) },
        Op::Rem => if a == 0 { None } else { Some(b % a) },
        _ => Some((if b > a { 1u64 } else { 0u64 })),
    }
}

/// Runs an operation on a state whose pointer is already on its cell.
fn apply_op(op: Op, state: &mut InterpretationState) -> (r: TickResponse)
    requires
        old(state).wf(),
    ensures
        (final(state)@, r) == apply(op, old(state)@),
{
    let ghost m = old(state)@;
    let n = state.stack.len();
    match op {
        Op::TurnDown => {
            if state.vel.y == 0 {
                state.vel = PVec { x: 0, y: 1 };
            }
        },
        Op::TurnUp => {
            if state.vel.y == 0 {
                state.vel = PVec { x: 0, y: -1 };
            }
        },
        Op::TurnLeft => {
            if state.vel.x == 0 {
                state.vel = PVec { x: -1, y: 0 };
            }
        },
        Op::TurnRight => {
            if state.vel.x == 0 {
                state.vel = PVec { x: 1, y: 0 };
            }
        },
        Op::Add | Op::Sub | Op::Mul | Op::Div | Op::Rem | Op::Greater => {
            if n < 2 {
                return TickResponse::Panic(Fault::StackUnderflow);
            }
            let a = state.stack[n - 1];
            let b = state.stack[n - 2];
            match binary_exec(op, b, a) {
                Some(v) => {
                    state.stack.truncate(n - 2);
                    state.stack.push(v);
                    assert(state.stack@ =~= m.popped2().push(v));
                },
                None => {
                    return TickResponse::Panic(Fault::ArithmeticFault);
                },
            }
        },
        Op::Digit(d) => {
            state.stack.push(d);
        },
        Op::Print => {
            if n < 1 {
                return TickResponse::Panic(Fault::StackUnderflow);
            }
            let a = pop_top(&mut state.stack);
            return TickResponse::Print(a);
        },
        Op::StringMode => {
            state.in_str = true;
        },
        Op::Exit => {
            if n < 1 {
                return TickResponse::Panic(Fault::StackUnderflow);
            }
            let a = pop_top(&mut state.stack);
            return TickResponse::Return(#[verifier::truncate] (a as i64));
        },
        Op::Not => {
            if n < 1 {
                return TickResponse::Panic(Fault::StackUnderflow);
            }
            let a = pop_top(&mut state.stack);
            state.stack.push(if a == 0 { 1 } else { 0 });
        },
        Op::Dup => {
            if n < 1 {
                return TickResponse::Panic(Fault::StackUnderflow);
            }
            let a = state.stack[n - 1];
            state.stack.push(a);
        },
        Op::Drop => {
            if n < 1 {
                return TickResponse::Panic(Fault::StackUnderflow);
            }
            pop_top(&mut state.stack);
        },
        Op::Swap => {
            if n < 2 {
                return TickResponse::Panic(Fault::StackUnderflow);
            }
            let a = pop_top(&mut state.stack);
            let b = pop_top(&mut state.stack);
            assert(state.stack@ =~= m.popped2());
            state.stack.push(a);
            state.stack.push(b);
        },
        Op::MirrorH | Op::MirrorV => {
            let active = if matches!(op, Op::MirrorH) { state.vel.x != 0 } else { state.vel.y != 0 };
            if active {
                if n < 1 {
                    return TickResponse::Panic(Fault::StackUnderflow);
                }
                let condition = pop_top(&mut state.stack);
                if condition != 0 {
                    state.vel.mul_assign(-1);
                }
            }
        },
        Op::Store => {
            if n < 2 {
                return TickResponse::Panic(Fault::StackUnderflow);
            }
            let address = state.stack[n - 1];
            if address >= HEAP_SIZE as u64 {
                return TickResponse::Panic(Fault::MemoryFault);
            }
            let address = pop_top(&mut state.stack);
            let value = pop_top(&mut state.stack);
            assert(state.stack@ =~= m.popped2());
            state.heap[address as usize] = value;
        },
        Op::Recall => {
            if n < 1 {
                return TickResponse::Panic(Fault::StackUnderflow);
            }
            let address = state.stack[n - 1];
            if address >= HEAP_SIZE as u64 {
                return TickResponse::Panic(Fault::MemoryFault);
            }
            pop_top(&mut state.stack);
            let value = state.heap[address as usize];
            state.stack.push(value);
        },
        Op::Sqrt => {
            if n < 1 {
                return TickResponse::Panic(Fault::StackUnderflow);
            }
            let a = pop_top(&mut state.stack);
            state.stack.push(isqrt(a));
        },
        Op::Over => {
            if n < 2 {
                return TickResponse::Panic(Fault::StackUnderflow);
            }
            let a = pop_top(&mut state.stack);
            let b = pop_top(&mut state.stack);
            assert(state.stack@ =~= m.popped2());
            state.stack.push(b);
            state.stack.push(a);
            state.stack.push(b);
        },
        Op::Nop => {},
    }
    TickResponse::Continue
}

/// Runs one step of the program: moves the pointer by the velocity and runs
/// the cell it lands on.
pub fn tick(grid: &Grid, state: &mut InterpretationState) -> (r: TickResponse)
    requires
        grid.wf(),
        old(state).wf(),
    ensures
        final(state).wf(),
        (final(state)@, r) == step(grid, old(state)@),
{
    let next = state.ptr.add(state.vel);
    if next.x < 0 || next.y < 0 || next.x as u64 >= grid.width as u64 || next.y as u64
        >= grid.height as u64 {
        return TickResponse::Panic(Fault::StructuralFault { x: next.x, y: next.y });
    }
    state.ptr = next;
    let c = grid.at(next.x as usize, next.y as usize);
    if state.in_str {
        string_char(c, state)
    } else {
        apply_op(decode(c), state)
    }
}

} // verus!
