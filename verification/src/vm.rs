//! The stack-machine interpreter: fetches bytes from a chunk, decodes
//! them, and executes them over an operand stack.
//!
//! The meaning of a chunk is pinned down by the recursive
//! specification interpreter `run_from`; the executable loop in
//! `Vm::run` is proved to return exactly what `run_from` says.

use vstd::prelude::*;

use crate::chunk::Chunk;
use crate::compiler::compile;
use crate::opcode::decode_spec;
use crate::opcode::encode_spec;
use crate::opcode::CouldNotDecodeOpcode;
use crate::opcode::Opcode;
use crate::tokenizer::spec_scan;
use crate::tokenizer::TokenType;
use crate::value::add_bits;
use crate::value::div_bits;
use crate::value::mul_bits;
use crate::value::neg_bits;
use crate::value::sub_bits;
use crate::value::Value;

verus! {

/// The top-level error of one `interpret` run: compilation failed, or
/// execution did.
#[derive(Clone, Copy, Debug, PartialEq)]
pub enum Error {
    Compile(CompileErr),
    Runtime(RuntimeErr),
}

/// The errors of turning source text into a chunk. `StackEmpty` is
/// unreachable in the current compiler and reserved for cross-layer
/// reuse; `BadToken` reports a lexically invalid token, `Other` a
/// required token that was not found, each with its 1-based source
/// line.
#[derive(Clone, Copy, Debug, PartialEq)]
pub enum CompileErr {
    StackEmpty,
    BadToken { line: usize },
    Other { line: usize, msg: &'static str },
}

/// The errors of executing a chunk: a byte outside the instruction
/// set, or an instruction that needed an operand the stack did not
/// hold.
#[derive(Clone, Copy, Debug, PartialEq, Eq, Structural)]
pub enum RuntimeErr {
    CouldNotDecodeOpcode(CouldNotDecodeOpcode),
    StackEmpty,
}

impl From<CompileErr> for Error {
    fn from(e: CompileErr) -> (r: Error) {
        Error::Compile(e)
    }
}

impl vstd::std_specs::convert::FromSpecImpl<CompileErr> for Error {
    open spec fn obeys_from_spec() -> bool {
        true
    }

    open spec fn from_spec(e: CompileErr) -> Error {
        Error::Compile(e)
    }
}

impl From<RuntimeErr> for Error {
    fn from(e: RuntimeErr) -> (r: Error) {
        Error::Runtime(e)
    }
}

impl vstd::std_specs::convert::FromSpecImpl<RuntimeErr> for Error {
    open spec fn obeys_from_spec() -> bool {
        true
    }

    open spec fn from_spec(e: RuntimeErr) -> Error {
        Error::Runtime(e)
    }
}

impl From<CouldNotDecodeOpcode> for RuntimeErr {
    fn from(e: CouldNotDecodeOpcode) -> (r: RuntimeErr) {
        RuntimeErr::CouldNotDecodeOpcode(e)
    }
}

impl vstd::std_specs::convert::FromSpecImpl<CouldNotDecodeOpcode> for RuntimeErr {
    open spec fn obeys_from_spec() -> bool {
        true
    }

    open spec fn from_spec(e: CouldNotDecodeOpcode) -> RuntimeErr {
        RuntimeErr::CouldNotDecodeOpcode(e)
    }
}

/// What executing a chunk from a given state comes to.
pub enum Outcome {
    /// A `Return` instruction was executed; `result` is the encoding
    /// of the value it popped and reported.
    Done { result: u64 },
    /// Execution stopped at a runtime error.
    Fail { err: RuntimeErr },
    /// The instruction stream ran out before a `Return` was executed,
    /// or a `Constant` tag stood last with no operand byte.
    OutOfCode,
    /// A `Constant` instruction named a pool index with no value.
    BadConstant,
}

/// The meaning of a chunk's byte stream: execute `code` from
/// instruction pointer `ip` with the operand stack `stack` (encodings
/// of the stacked values, bottom first) and the constant pool
/// `consts`, until a `Return` delivers a result, a runtime error
/// stops the run, or the stream is exhausted. Binary operators pop
/// the right operand first and preserve operand order: the earlier
/// push is the left operand.
pub open spec fn run_from(code: Seq<u8>, consts: Seq<u64>, ip: int, stack: Seq<u64>) -> Outcome
    decreases code.len() - ip,
{
    if ip < 0 || ip >= code.len() {
        Outcome::OutOfCode
    } else {
        match decode_spec(code[ip]) {
            None => Outcome::Fail {
                err: RuntimeErr::CouldNotDecodeOpcode(
                    CouldNotDecodeOpcode { opcode: code[ip] },
                ),
            },
            Some(op) => match op {
                Opcode::Constant => {
                    if ip + 1 >= code.len() {
                        Outcome::OutOfCode
                    } else if code[ip + 1] >= consts.len() {
                        Outcome::BadConstant
                    } else {
                        run_from(code, consts, ip + 2, stack.push(consts[code[ip + 1] as int]))
                    }
                },
                Opcode::Negate => {
                    if stack.len() == 0 {
                        Outcome::Fail { err: RuntimeErr::StackEmpty }
                    } else {
                        run_from(code, consts, ip + 1, stack.drop_last().push(neg_bits(stack.last())))
                    }
                },
                Opcode::Return => {
                    if stack.len() == 0 {
                        Outcome::Fail { err: RuntimeErr::StackEmpty }
                    } else {
                        Outcome::Done { result: stack.last() }
                    }
                },
                Opcode::Add => {
                    if stack.len() < 2 {
                        Outcome::Fail { err: RuntimeErr::StackEmpty }
                    } else {
                        run_from(code, consts, ip + 1,
                            stack.take(stack.len() - 2).push(
                                add_bits(stack[stack.len() - 2], stack.last())))
                    }
                },
                Opcode::Sub => {
                    if stack.len() < 2 {
                        Outcome::Fail { err: RuntimeErr::StackEmpty }
                    } else {
                        run_from(code, consts, ip + 1,
                            stack.take(stack.len() - 2).push(
                                sub_bits(stack[stack.len() - 2], stack.last())))
                    }
                },
                Opcode::Mul => {
                    if stack.len() < 2 {
                        Outcome::Fail { err: RuntimeErr::StackEmpty }
                    } else {
                        run_from(code, consts, ip + 1,
                            stack.take(stack.len() - 2).push(
                                mul_bits(stack[stack.len() - 2], stack.last())))
                    }
                },
                Opcode::Div => {
                    if stack.len() < 2 {
                        Outcome::Fail { err: RuntimeErr::StackEmpty }
                    } else {
                        run_from(code, consts, ip + 1,
                            stack.take(stack.len() - 2).push(
                                div_bits(stack[stack.len() - 2], stack.last())))
                    }
                },
            },
        }
    }
}

/// What executing a whole chunk comes to: `run_from` at instruction
/// pointer 0 with an empty operand stack.
pub open spec fn chunk_outcome(c: Chunk) -> Outcome {
    run_from(c.code@, c.constants_bits(), 0, Seq::<u64>::empty())
}

/// A chunk on which execution is defined: it reaches a result or a
/// runtime error without running off the instruction stream or
/// naming a missing pool constant.
pub open spec fn chunk_runnable(c: Chunk) -> bool {
    chunk_outcome(c) matches Outcome::Done { .. } || chunk_outcome(c) matches Outcome::Fail { .. }
}

/// The virtual machine: the chunk being executed, the instruction
/// pointer (index of the next byte of `chunk.code` to fetch), and the
/// operand stack, where every intermediate and final value lives.
#[derive(Debug)]
pub struct Vm {
    pub chunk: Chunk,
    pub ip: usize,
    pub stack: Vec<Value>,
}

impl Vm {
    /// The operand stack as the sequence of the values' encodings,
    /// bottom first.
    pub open spec fn stack_bits(self) -> Seq<u64> {
        self.stack@.map_values(|v: Value| v.0)
    }

    /// Reset the operand stack to empty. The chunk and instruction
    /// pointer are left as they are.
    pub fn init(&mut self)
        ensures
            final(self).stack@ == Seq::<Value>::empty(),
            final(self).chunk == old(self).chunk,
            final(self).ip == old(self).ip,
    {
        self.stack.clear();
    }

    /// A machine with an empty chunk, instruction pointer 0, and an
    /// empty operand stack.
    pub fn new() -> (vm: Vm)
        ensures
            vm.chunk.code@ == Seq::<u8>::empty(),
            vm.chunk.lines@ == Seq::<usize>::empty(),
            vm.chunk.constants@ == Seq::<Value>::empty(),
            vm.ip == 0,
            vm.stack@ == Seq::<Value>::empty(),
    {
        let mut vm = Vm { chunk: Chunk::new(), ip: 0, stack: Vec::new() };
        vm.init();
        vm
    }

    /// Fetch the next byte of the instruction stream and advance the
    /// instruction pointer past it.
    fn read_byte(&mut self) -> (byte: u8)
        requires
            old(self).ip < old(self).chunk.code@.len(),
        ensures
            byte == old(self).chunk.code@[old(self).ip as int],
            final(self).ip == old(self).ip + 1,
            final(self).chunk == old(self).chunk,
            final(self).stack == old(self).stack,
    {
        let n = self.chunk.code.len();
        assert(self.ip < n);
        let byte = self.chunk.code[self.ip];
        self.ip = self.ip + 1;
        byte
    }

    /// Read the inline constant-pool index at the instruction pointer
    /// and fetch a copy of the pool value it names.
    fn read_constant(&mut self) -> (v: Value)
        requires
            old(self).ip < old(self).chunk.code@.len(),
            old(self).chunk.code@[old(self).ip as int] < old(self).chunk.constants@.len(),
        ensures
            v == old(self).chunk.constants@[old(self).chunk.code@[old(self).ip as int] as int],
            final(self).ip == old(self).ip + 1,
            final(self).chunk == old(self).chunk,
            final(self).stack == old(self).stack,
    {
        let i = self.read_byte();
        self.chunk.constants[i as usize]
    }

    /// Pop the top of the operand stack; an empty stack is the
    /// `StackEmpty` runtime error.
    fn pop(&mut self) -> (r: Result<Value, RuntimeErr>)
        ensures
            old(self).stack@.len() == 0 ==> r == Err::<Value, RuntimeErr>(RuntimeErr::StackEmpty)
                && final(self).stack@ == old(self).stack@,
            old(self).stack@.len() > 0 ==> r == Ok::<Value, RuntimeErr>(old(self).stack@.last())
                && final(self).stack@ == old(self).stack@.drop_last(),
            final(self).chunk == old(self).chunk,
            final(self).ip == old(self).ip,
    {
        match self.stack.pop() {
            Some(v) => Ok(v),
            None => Err(RuntimeErr::StackEmpty),
        }
    }

    /// Pop the two topmost operands: the later push (`b`, the right
    /// operand) comes off first, the earlier push (`a`, the left
    /// operand) second. With fewer than two operands the result is
    /// the `StackEmpty` runtime error.
    fn pop_two(&mut self) -> (r: Result<(Value, Value), RuntimeErr>)
        ensures
            old(self).stack@.len() >= 2 ==> r == Ok::<(Value, Value), RuntimeErr>((
                old(self).stack@[old(self).stack@.len() - 2],
                old(self).stack@.last(),
            )) && final(self).stack@ == old(self).stack@.take(old(self).stack@.len() - 2),
            old(self).stack@.len() < 2 ==> r == Err::<(Value, Value), RuntimeErr>(
                RuntimeErr::StackEmpty,
            ),
            final(self).chunk == old(self).chunk,
            final(self).ip == old(self).ip,
    {
        let b = match self.pop() {
            Ok(v) => v,
            Err(e) => {
                return Err(e);
            },
        };
        let a = match self.pop() {
            Ok(v) => v,
            Err(e) => {
                return Err(e);
            },
        };
        proof {
            assert(self.stack@ =~= old(self).stack@.take(old(self).stack@.len() - 2));
        }
        Ok((a, b))
    }

    /// The fetch-decode-execute loop: runs the installed chunk from
    /// the current state until a `Return` delivers the result or a
    /// runtime error stops the run, returning exactly what the
    /// specification interpreter `run_from` says for the starting
    /// state.
    #[verifier::loop_isolation(false)]
    fn run(&mut self) -> (r: Result<Value, Error>)
        requires
            ({
                let o = run_from(
                    old(self).chunk.code@,
                    old(self).chunk.constants_bits(),
                    old(self).ip as int,
                    old(self).stack_bits(),
                );
                o matches Outcome::Done { .. } || o matches Outcome::Fail { .. }
            }),
        ensures
            final(self).chunk == old(self).chunk,
            (run_from(
                old(self).chunk.code@,
                old(self).chunk.constants_bits(),
                old(self).ip as int,
                old(self).stack_bits(),
            ) matches Outcome::Done { result } ==> r matches Ok(v) && v.0 == result),
            (run_from(
                old(self).chunk.code@,
                old(self).chunk.constants_bits(),
                old(self).ip as int,
                old(self).stack_bits(),
            ) matches Outcome::Fail { err } ==> r == Err::<Value, Error>(Error::Runtime(err))),
    {
        let ghost code = self.chunk.code@;
        let ghost consts = self.chunk.constants_bits();
        let ghost entry = run_from(code, consts, self.ip as int, self.stack_bits());
        loop
            invariant
                self.chunk == old(self).chunk,
                self.ip <= code.len(),
                run_from(code, consts, self.ip as int, self.stack_bits()) == entry,
            decreases code.len() - self.ip,
        {
            let ghost ip0 = self.ip as int;
            let ghost st0 = self.stack_bits();
            // Were the instruction pointer at or past the end, the
            // outcome here would be OutOfCode, which the precondition
            // rules out.
            assert(self.ip < self.chunk.code.len());
            let instruction = self.read_byte();
            match Opcode::decode(instruction) {
                Ok(Opcode::Return) => {
                    return match self.pop() {
                        Ok(v) => Ok(v),
                        Err(e) => Err(Error::Runtime(e)),
                    };
                },
                Ok(Opcode::Negate) => {
                    match self.pop() {
                        Ok(x) => {
                            self.stack.push(x.negate());
                            proof {
                                assert(self.stack_bits() =~= st0.drop_last().push(
                                    neg_bits(st0.last()),
                                ));
                            }
                        },
                        Err(e) => {
                            return Err(Error::Runtime(e));
                        },
                    }
                },
                Ok(Opcode::Constant) => {
                    // A missing operand byte would make the outcome
                    // OutOfCode, an out-of-range pool index
                    // BadConstant; the precondition rules both out.
                    assert(self.ip < self.chunk.code.len());
                    assert(self.chunk.code@[self.ip as int] < self.chunk.constants@.len());
                    let constant = self.read_constant();
                    self.stack.push(constant);
                    proof {
                        assert(self.stack_bits() =~= st0.push(consts[code[ip0 + 1] as int]));
                    }
                },
                Ok(Opcode::Add) => {
                    match self.pop_two() {
                        Ok((a, b)) => {
                            self.stack.push(a.add(b));
                            proof {
                                assert(self.stack_bits() =~= st0.take(st0.len() - 2).push(
                                    add_bits(st0[st0.len() - 2], st0.last()),
                                ));
                            }
                        },
                        Err(e) => {
                            return Err(Error::Runtime(e));
                        },
                    }
                },
                Ok(Opcode::Sub) => {
                    match self.pop_two() {
                        Ok((a, b)) => {
                            self.stack.push(a.sub(b));
                            proof {
                                assert(self.stack_bits() =~= st0.take(st0.len() - 2).push(
                                    sub_bits(st0[st0.len() - 2], st0.last()),
                                ));
                            }
                        },
                        Err(e) => {
                            return Err(Error::Runtime(e));
                        },
                    }
                },
                Ok(Opcode::Mul) => {
                    match self.pop_two() {
                        Ok((a, b)) => {
                            self.stack.push(a.mul(b));
                            proof {
                                assert(self.stack_bits() =~= st0.take(st0.len() - 2).push(
                                    mul_bits(st0[st0.len() - 2], st0.last()),
                                ));
                            }
                        },
                        Err(e) => {
                            return Err(Error::Runtime(e));
                        },
                    }
                },
                Ok(Opcode::Div) => {
                    match self.pop_two() {
                        Ok((a, b)) => {
                            self.stack.push(a.div(b));
                            proof {
                                assert(self.stack_bits() =~= st0.take(st0.len() - 2).push(
                                    div_bits(st0[st0.len() - 2], st0.last()),
                                ));
                            }
                        },
                        Err(e) => {
                            return Err(Error::Runtime(e));
                        },
                    }
                },
                Err(e) => {
                    return Err(Error::Runtime(RuntimeErr::CouldNotDecodeOpcode(e)));
                },
            }
        }
    }

    /// Install a chunk and execute it from the start with a cleared
    /// operand stack, returning the value its `Return` instruction
    /// reports, or the runtime error that stopped the run. The caller
    /// hands over a chunk whose execution is defined
    /// (`chunk_runnable`): one that neither runs off the instruction
    /// stream nor names a missing pool constant.
    pub fn interpret_chunk(&mut self, chunk: Chunk) -> (r: Result<Value, Error>)
        requires
            chunk_runnable(chunk),
        ensures
            final(self).chunk == chunk,
            (chunk_outcome(chunk) matches Outcome::Done { result } ==> r matches Ok(v) && v.0
                == result),
            (chunk_outcome(chunk) matches Outcome::Fail { err } ==> r == Err::<Value, Error>(
                Error::Runtime(err),
            )),
    {
        self.chunk = chunk;
        self.ip = 0;
        self.init();
        proof {
            assert(self.stack_bits() =~= Seq::<u64>::empty());
        }
        self.run()
    }

    /// Compile one unit of source text into a fresh chunk and run
    /// it. The operand stack is cleared at the start of every call,
    /// so no value leaks from one run into the next. Compilation
    /// errors come back as `Error::Compile`; since the compiler emits
    /// only the terminating `Return` instruction so far, a run of a
    /// well-formed source always stops at the `StackEmpty` runtime
    /// error.
    pub fn interpret(&mut self, source: Vec<u8>) -> (r: Result<Value, Error>)
        requires
            source@.len() < usize::MAX,
        ensures
            ({
                let s = spec_scan(source@, 0, 1);
                if s.token_type == TokenType::Error {
                    r matches Err(Error::Compile(e)) && e == (CompileErr::BadToken {
                        line: s.line as usize,
                    })
                } else if s.token_type == TokenType::Eof {
                    r == Err::<Value, Error>(Error::Runtime(RuntimeErr::StackEmpty))
                } else {
                    r matches Err(Error::Compile(CompileErr::Other { line, msg })) && line == s.line
                        && msg@ == "Expected end of expression."@
                }
            }),
    {
        self.chunk = Chunk::new();
        self.ip = 0;
        self.init();
        match compile(source, &mut self.chunk) {
            Err(e) => Err(Error::Compile(e)),
            Ok(()) => {
                proof {
                    assert(self.stack_bits() =~= Seq::<u64>::empty());
                    assert(self.chunk.constants_bits() =~= Seq::<u64>::empty());
                }
                self.run()
            },
        }
    }
}

/// Stack underflow is caught, never ignored: executing any
/// instruction that needs an operand — `Negate`, `Add`, `Sub`, `Mul`,
/// `Div` or `Return` — as the first instruction of a chunk, when the
/// operand stack is still empty, comes to the `StackEmpty` runtime
/// error.
pub proof fn lemma_stack_underflow(c: Chunk)
    requires
        c.code@.len() > 0,
        decode_spec(c.code@[0]) matches Some(op) && op != Opcode::Constant,
    ensures
        chunk_outcome(c) == (Outcome::Fail { err: RuntimeErr::StackEmpty }),
{
}

/// Operand order is preserved for the non-commutative operators: on
/// a stack that holds `a` pushed before `b`, `Sub` followed by
/// `Return` reports `a - b` — the later push is the right operand —
/// and `Div` likewise reports `a / b`.
pub proof fn lemma_operand_order(a: u64, b: u64)
    ensures
        run_from(
            seq![encode_spec(Opcode::Sub), encode_spec(Opcode::Return)],
            Seq::<u64>::empty(),
            0,
            seq![a, b],
        ) == (Outcome::Done { result: sub_bits(a, b) }),
        run_from(
            seq![encode_spec(Opcode::Div), encode_spec(Opcode::Return)],
            Seq::<u64>::empty(),
            0,
            seq![a, b],
        ) == (Outcome::Done { result: div_bits(a, b) }),
{
    reveal_with_fuel(run_from, 3);
    assert(seq![a, b].take(0) =~= Seq::<u64>::empty());
}

impl Default for Vm {
    /// A machine with an empty chunk, instruction pointer 0, and an
    /// empty operand stack, as `Vm::new` builds it.
    fn default() -> (vm: Vm)
        ensures
            vm.chunk.code@ == Seq::<u8>::empty(),
            vm.chunk.lines@ == Seq::<usize>::empty(),
            vm.chunk.constants@ == Seq::<Value>::empty(),
            vm.ip == 0,
            vm.stack@ == Seq::<Value>::empty(),
    {
        Vm::new()
    }
}

} // verus!

