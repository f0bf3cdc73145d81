//! Script signatures: the instructions that they consist of, and the stack that these leave.
use vstd::pervasive::unreached;
use vstd::prelude::*;
use vstd::slice::slice_subrange;

use crate::error::Error;
use crate::inner::result_model;
use crate::stack::{
    pushed_model, pushed_stack_model, Element, ElementModel, Instruction, InstructionModel, Stack,
};

verus! {

/// The bytes that stand before a push of `len` bytes, in the shortest form that there is: the
/// length itself, or an opcode and the length in one, two or four bytes, the lowest first.
pub open spec fn push_header(len: nat) -> Seq<u8> {
    if len <= 75 {
        seq![len as u8]
    } else if len <= 0xff {
        seq![0x4cu8, len as u8]
    } else if len <= 0xffff {
        seq![0x4du8, (len % 0x100) as u8, (len / 0x100) as u8]
    } else {
        seq![
            0x4eu8,
            (len % 0x100) as u8,
            (len / 0x100 % 0x100) as u8,
            (len / 0x1_0000 % 0x100) as u8,
            (len / 0x100_0000) as u8,
        ]
    }
}

/// The bytes of an instruction, where a push has the shortest form.
pub open spec fn encoding(instruction: InstructionModel) -> Seq<u8> {
    match instruction {
        InstructionModel::PushBytes(bytes) => push_header(bytes.len()) + bytes,
        InstructionModel::Op(code) => seq![code],
        InstructionModel::Malformed => seq![],
    }
}

/// Whether an instruction can stand in a script. A push is not of one of the single bytes for
/// which there are opcodes of their own, and its length fits four bytes. The opcodes up to 0x4e
/// are the pushes.
pub open spec fn is_minimal(instruction: InstructionModel) -> bool {
    match instruction {
        InstructionModel::PushBytes(bytes) => {
            &&& bytes.len() <= 0xffff_ffff
            &&& bytes.len() == 1 ==> bytes[0] != 0x81 && !(1 <= bytes[0] <= 16)
        },
        InstructionModel::Op(code) => code > 0x4e,
        InstructionModel::Malformed => false,
    }
}

/// Whether a script starts with an instruction.
pub open spec fn starts_with(script: Seq<u8>, instruction: InstructionModel) -> bool {
    &&& is_minimal(instruction)
    &&& encoding(instruction).len() <= script.len()
    &&& script.take(encoding(instruction).len() as int) == encoding(instruction)
}

/// Whether the end of the push that a script starts with can be counted in `usize`, if its length
/// is given in four bytes. Where `usize` has 64 bits it always can.
pub open spec fn is_countable(script: Seq<u8>) -> bool {
    script.len() >= 5 && script[0] == 0x4e ==> script[1] + 0x100 * script[2] + 0x1_0000 * script[3]
        + 0x100_0000 * script[4] + 5 <= usize::MAX
}

/// Calls `bitcoin::Script::instructions_minimal` and takes the first item of that iterator, with
/// every error as [`Instruction::Malformed`]. There is none if the script is empty. It is an
/// instruction if the script starts with that instruction, and an error if the script starts with
/// none: because it is cut short, or because it starts with a push that is not in its shortest
/// form. A script for which the iterator would overflow `usize` is left out.
#[verifier::external_body]
fn first_instruction(script: &[u8]) -> (first: Option<Instruction>)
    requires
        is_countable(script@),
    ensures
        first is None == (script@.len() == 0),
        first matches Some(i) ==> if i is Malformed {
            forall|j: InstructionModel| !#[trigger] starts_with(script@, j)
        } else {
            starts_with(script@, i@)
        },
{
    let script = bitcoin::Script::from(script.to_vec());
    let first = match script.instructions_minimal().next() {
        Some(Ok(bitcoin::blockdata::script::Instruction::PushBytes(bytes))) => {
            Some(Instruction::PushBytes(bytes.to_vec()))
        },
        Some(Ok(bitcoin::blockdata::script::Instruction::Op(op))) => {
            Some(Instruction::Op(op.into_u8()))
        },
        Some(Err(_)) => Some(Instruction::Malformed),
        None => None,
    };
    first
}

/// The number of bytes of an instruction.
fn encoded_len(instruction: &Instruction) -> (len: usize)
    requires
        encoding(instruction@).len() <= usize::MAX,
    ensures
        len == encoding(instruction@).len(),
{
    match instruction {
        Instruction::PushBytes(bytes) => {
            let len: usize = bytes.len();
            if len <= 75 {
                len + 1
            } else if len <= 0xff {
                len + 2
            } else if len <= 0xffff {
                len + 3
            } else {
                len + 5
            }
        },
        Instruction::Op(_) => 1,
        Instruction::Malformed => 0,
    }
}

/// The script that a list of instructions makes.
pub open spec fn encodings(instructions: Seq<InstructionModel>) -> Seq<u8>
    decreases instructions.len(),
{
    if instructions.len() == 0 {
        seq![]
    } else {
        encoding(instructions[0]) + encodings(instructions.drop_first())
    }
}

/// Whether every one of these instructions can stand in a script.
pub open spec fn all_minimal(instructions: Seq<InstructionModel>) -> bool {
    forall|i: int| 0 <= i < instructions.len() ==> is_minimal(#[trigger] instructions[i])
}

/// Whether a script consists of these instructions.
pub open spec fn consists_of(script: Seq<u8>, instructions: Seq<InstructionModel>) -> bool {
    script == encodings(instructions) && all_minimal(instructions)
}

/// Whether every one of these instructions leaves an item on the stack.
pub open spec fn all_push(instructions: Seq<InstructionModel>) -> bool {
    forall|i: int| 0 <= i < instructions.len() ==> pushed_model(#[trigger] instructions[i]) is Some
}

/// Whether a script consists of these instructions, all of which leave an item on the stack.
pub open spec fn only_pushes(script: Seq<u8>, instructions: Seq<InstructionModel>) -> bool {
    consists_of(script, instructions) && all_push(instructions)
}

/// The stack that a script signature leaves. It has to consist of instructions that each leave an
/// item.
pub open spec fn script_sig_model(script_sig: Seq<u8>) -> Result<Seq<ElementModel>, Error> {
    if exists|instructions: Seq<InstructionModel>| only_pushes(script_sig, instructions) {
        Ok(
            pushed_stack_model(
                choose|instructions: Seq<InstructionModel>| only_pushes(script_sig, instructions),
            ),
        )
    } else {
        Err(Error::ExpectedPush)
    }
}

/// Whether reading a script signature comes to `rest`, past instructions that each leave an item.
pub open spec fn comes_to(
    script_sig: Seq<u8>,
    instructions: Seq<InstructionModel>,
    rest: Seq<u8>,
) -> bool {
    &&& script_sig == encodings(instructions) + rest
    &&& all_minimal(instructions)
    &&& all_push(instructions)
}

/// Whether a script signature can be read with positions counted in `usize`. Where `usize` has 64
/// bits it always can.
pub open spec fn is_readable(script_sig: Seq<u8>) -> bool {
    forall|instructions: Seq<InstructionModel>, rest: Seq<u8>| #[trigger]
        comes_to(script_sig, instructions, rest) ==> is_countable(rest)
}

/// A script starts with one instruction at most.
proof fn lemma_one_first(script: Seq<u8>, a: InstructionModel, b: InstructionModel)
    requires
        starts_with(script, a),
        starts_with(script, b),
    ensures
        a == b,
{
    let a_bytes = encoding(a);
    let b_bytes = encoding(b);
    assert forall|i: int| 0 <= i < a_bytes.len() implies a_bytes[i] == script[i] by {
        assert(script.take(a_bytes.len() as int)[i] == script[i]);
    }
    assert forall|i: int| 0 <= i < b_bytes.len() implies b_bytes[i] == script[i] by {
        assert(script.take(b_bytes.len() as int)[i] == script[i]);
    }
    match (a, b) {
        (InstructionModel::PushBytes(x), InstructionModel::PushBytes(y)) => {
            let header = push_header(x.len());
            assert(a_bytes[0] == header[0]);
            assert(b_bytes[0] == push_header(y.len())[0]);
            if x.len() > 75 {
                assert(a_bytes[1] == header[1]);
                assert(b_bytes[1] == push_header(y.len())[1]);
            }
            if x.len() > 0xff {
                assert(a_bytes[2] == header[2]);
                assert(b_bytes[2] == push_header(y.len())[2]);
            }
            if x.len() > 0xffff {
                assert(a_bytes[3] == header[3]);
                assert(b_bytes[3] == push_header(y.len())[3]);
                assert(a_bytes[4] == header[4]);
                assert(b_bytes[4] == push_header(y.len())[4]);
            }
            assert(x.len() == y.len());
            assert forall|i: int| 0 <= i < x.len() implies x[i] == y[i] by {
                assert(x[i] == a_bytes[header.len() + i]);
                assert(y[i] == b_bytes[header.len() + i]);
            }
            assert(x =~= y);
        },
        (InstructionModel::PushBytes(x), InstructionModel::Op(code)) => {
            assert(a_bytes[0] == push_header(x.len())[0]);
            assert(b_bytes[0] == code);
        },
        (InstructionModel::Op(code), InstructionModel::PushBytes(y)) => {
            assert(b_bytes[0] == push_header(y.len())[0]);
            assert(a_bytes[0] == code);
        },
        (InstructionModel::Op(x), InstructionModel::Op(y)) => {
            assert(a_bytes[0] == x);
            assert(b_bytes[0] == y);
        },
        _ => {},
    }
}

/// A script that consists of instructions starts with the first of them, and the rest of the
/// script consists of the others.
proof fn lemma_first(instructions: Seq<InstructionModel>, rest: Seq<u8>)
    requires
        instructions.len() > 0,
        is_minimal(instructions[0]),
    ensures
        ({
            let script = encodings(instructions) + rest;
            let len = encoding(instructions[0]).len() as int;
            &&& len > 0
            &&& starts_with(script, instructions[0])
            &&& script.skip(len) == encodings(instructions.drop_first()) + rest
        }),
{
    let script = encodings(instructions) + rest;
    let first = encoding(instructions[0]);
    assert(script.take(first.len() as int) =~= first);
    assert(script.skip(first.len() as int) =~= encodings(instructions.drop_first()) + rest);
}

/// Two ways to read a script agree as far as the shorter one goes.
proof fn lemma_common_start(
    done: Seq<InstructionModel>,
    rest: Seq<u8>,
    all: Seq<InstructionModel>,
    more: Seq<u8>,
)
    requires
        done.len() <= all.len(),
        all_minimal(done),
        all_minimal(all),
        encodings(done) + rest == encodings(all) + more,
    ensures
        all.take(done.len() as int) == done,
        encodings(all.skip(done.len() as int)) + more == rest,
    decreases done.len(),
{
    if done.len() == 0 {
        assert(encodings(done) + rest =~= rest);
        assert(all.skip(0) =~= all);
        assert(all.take(0) =~= done);
    } else {
        lemma_first(done, rest);
        lemma_first(all, more);
        lemma_one_first(encodings(done) + rest, done[0], all[0]);
        lemma_common_start(done.drop_first(), rest, all.drop_first(), more);
        assert(all.take(done.len() as int) =~= seq![all[0]] + all.drop_first().take(
            done.len() - 1,
        ));
        assert(done =~= seq![done[0]] + done.drop_first());
        assert(all.skip(done.len() as int) =~= all.drop_first().skip(done.len() - 1));
    }
}

/// A list of instructions that a whole script consists of is at least as long as one that leaves
/// something over, and goes on with what is left over.
proof fn lemma_whole(done: Seq<InstructionModel>, rest: Seq<u8>, all: Seq<InstructionModel>)
    requires
        all_minimal(done),
        consists_of(encodings(done) + rest, all),
    ensures
        done.len() <= all.len(),
        all.take(done.len() as int) == done,
        consists_of(rest, all.skip(done.len() as int)),
{
    let none: Seq<u8> = seq![];
    assert(encodings(all) + none =~= encodings(all));
    if all.len() < done.len() {
        lemma_common_start(all, none, done, rest);
        lemma_first(done.skip(all.len() as int), rest);
    }
    lemma_common_start(done, rest, all, none);
    let more = all.skip(done.len() as int);
    assert(encodings(more) + none =~= encodings(more));
}

/// The script that one more instruction makes.
proof fn lemma_encodings_push(instructions: Seq<InstructionModel>, last: InstructionModel)
    ensures
        encodings(instructions.push(last)) == encodings(instructions) + encoding(last),
    decreases instructions.len(),
{
    let all = instructions.push(last);
    if instructions.len() == 0 {
        assert(all.drop_first() =~= seq![]);
        assert(encodings(all.drop_first()) =~= seq![]);
        assert(encodings(all) =~= encoding(last));
        assert(encodings(instructions) + encoding(last) =~= encoding(last));
    } else {
        lemma_encodings_push(instructions.drop_first(), last);
        assert(all.drop_first() =~= instructions.drop_first().push(last));
        assert(encodings(all) =~= encodings(instructions) + encoding(last));
    }
}

/// A script consists of one list of instructions at most.
pub proof fn law_one_reading(
    script: Seq<u8>,
    a: Seq<InstructionModel>,
    b: Seq<InstructionModel>,
)
    requires
        consists_of(script, a),
        consists_of(script, b),
    ensures
        a == b,
{
    let none: Seq<u8> = seq![];
    assert(encodings(a) + none =~= script);
    lemma_whole(a, none, b);
    let more = b.skip(a.len() as int);
    if more.len() > 0 {
        lemma_first(more, none);
    }
    assert(b =~= a);
}

/// A script signature that consists of instructions which each leave an item leaves the stack of
/// these items.
pub proof fn law_script_sig_stack(script_sig: Seq<u8>, instructions: Seq<InstructionModel>)
    requires
        only_pushes(script_sig, instructions),
    ensures
        script_sig_model(script_sig) == Ok::<Seq<ElementModel>, Error>(
            pushed_stack_model(instructions),
        ),
{
    let chosen = choose|chosen: Seq<InstructionModel>| only_pushes(script_sig, chosen);
    law_one_reading(script_sig, instructions, chosen);
}

/// Whether a script starts with no instruction, or with one that leaves no item.
pub open spec fn starts_badly(script: Seq<u8>) -> bool {
    &&& script.len() > 0
    &&& forall|i: InstructionModel| #[trigger]
        starts_with(script, i) ==> pushed_model(i) is None
}

/// A script signature is refused if reading it comes to a place where it cannot be read, where a
/// push is not in its shortest form, or where an instruction leaves no item.
pub proof fn law_script_sig_is_refused_at(
    script_sig: Seq<u8>,
    instructions: Seq<InstructionModel>,
    rest: Seq<u8>,
)
    requires
        comes_to(script_sig, instructions, rest),
        starts_badly(rest),
    ensures
        script_sig_model(script_sig) == Err::<Seq<ElementModel>, Error>(Error::ExpectedPush),
{
    assert forall|all: Seq<InstructionModel>| !only_pushes(script_sig, all) by {
        if only_pushes(script_sig, all) {
            lemma_whole(instructions, rest, all);
            let more = all.skip(instructions.len() as int);
            assert(more.len() > 0);
            assert(pushed_model(all[instructions.len() as int]) is Some);
            lemma_first(more, seq![]);
            assert(encodings(more) + seq![] =~= rest);
        }
    }
}

/// A script signature that is accepted leaves an empty stack exactly if it is empty itself.
pub proof fn law_script_sig_leaves_items(script_sig: Seq<u8>)
    ensures
        script_sig_model(script_sig) matches Ok(stack) ==> ((stack.len() == 0) <==> (
        script_sig.len() == 0)),
{
    if exists|instructions: Seq<InstructionModel>| only_pushes(script_sig, instructions) {
        let instructions = choose|instructions: Seq<InstructionModel>|
            only_pushes(script_sig, instructions);
        if instructions.len() > 0 {
            lemma_first(instructions, seq![]);
        }
    }
}

/// Every script signature can be read where `usize` has 64 bits. Elsewhere one can that holds no
/// opcode for a push with a length of four bytes.
pub proof fn law_is_readable(script_sig: Seq<u8>)
    requires
        usize::BITS == 64 || !script_sig.contains(0x4e),
    ensures
        is_readable(script_sig),
{
    assert forall|instructions: Seq<InstructionModel>, rest: Seq<u8>| #[trigger]
        comes_to(script_sig, instructions, rest) implies is_countable(rest) by {
        if rest.len() > 0 {
            assert(script_sig[encodings(instructions).len() as int] == rest[0]);
        }
    }
}

/// A script signature cannot be read if reading comes to a push, with a length of four bytes, whose
/// end is beyond the range of `usize`.
pub proof fn law_is_not_readable(
    script_sig: Seq<u8>,
    instructions: Seq<InstructionModel>,
    rest: Seq<u8>,
)
    requires
        comes_to(script_sig, instructions, rest),
        rest.len() >= 5,
        rest[0] == 0x4e,
        rest[1] + 256 * rest[2] + 65536 * rest[3] + 16777216 * rest[4] + 5 > usize::MAX,
    ensures
        !is_readable(script_sig),
{
}

/// Whether the end of the push that a script starts with can be counted in `usize`.
fn countable(script: &[u8]) -> (yes: bool)
    ensures
        yes == is_countable(script@),
{
    if script.len() >= 5 && script[0] == 0x4e {
        let len: u64 = script[1] as u64 + 0x100 * (script[2] as u64) + 0x1_0000 * (script[3] as u64)
            + 0x100_0000 * (script[4] as u64);
        len + 5 <= usize::MAX as u64
    } else {
        true
    }
}

/// Whether the places of a script signature that reading comes to before `done` can be counted.
spec fn countable_before(script_sig: Seq<u8>, done: nat) -> bool {
    forall|instructions: Seq<InstructionModel>, rest: Seq<u8>| #[trigger]
        comes_to(script_sig, instructions, rest) && instructions.len() < done ==> is_countable(rest)
}

/// Reading comes to one place after so many instructions.
proof fn lemma_countable_at(script_sig: Seq<u8>, done: Seq<InstructionModel>, rest: Seq<u8>)
    requires
        comes_to(script_sig, done, rest),
        countable_before(script_sig, done.len()),
        is_countable(rest),
    ensures
        countable_before(script_sig, done.len() + 1),
{
    assert forall|instructions: Seq<InstructionModel>, more: Seq<u8>| #[trigger]
        comes_to(script_sig, instructions, more) && instructions.len() < done.len()
            + 1 implies is_countable(more) by {
        if instructions.len() == done.len() {
            lemma_common_start(done, rest, instructions, more);
            assert(encodings(instructions.skip(done.len() as int)) + more =~= more);
        }
    }
}

/// Reading comes to no place after one where it ends.
proof fn lemma_readable(script_sig: Seq<u8>, done: Seq<InstructionModel>, rest: Seq<u8>)
    requires
        comes_to(script_sig, done, rest),
        countable_before(script_sig, done.len() + 1),
        rest.len() == 0 || starts_badly(rest),
    ensures
        is_readable(script_sig),
{
    assert forall|instructions: Seq<InstructionModel>, more: Seq<u8>| #[trigger]
        comes_to(script_sig, instructions, more) implies is_countable(more) by {
        if instructions.len() > done.len() {
            lemma_common_start(done, rest, instructions, more);
            let next = instructions.skip(done.len() as int);
            assert(pushed_model(instructions[done.len() as int]) is Some);
            lemma_first(next, more);
        }
    }
}

/// Reads a script signature, if it can be read.
fn read(script_sig: &[u8]) -> (stack: Option<Result<Stack, Error>>)
    ensures
        stack is Some == is_readable(script_sig@),
        stack matches Some(result) ==> result_model(result) == script_sig_model(script_sig@),
{
    let mut elements: Vec<Element> = Vec::new();
    let mut at: usize = 0;
    let ghost mut done: Seq<InstructionModel> = seq![];
    assert(encodings(done) + script_sig@ =~= script_sig@);
    assert(script_sig@.skip(0) =~= script_sig@);
    while at < script_sig.len()
        invariant
            at <= script_sig@.len(),
            comes_to(script_sig@, done, script_sig@.skip(at as int)),
            countable_before(script_sig@, done.len()),
            elements@.len() == done.len(),
            forall|i: int|
                0 <= i < done.len() ==> pushed_model(#[trigger] done[i]) == Some(elements@[i]@),
        decreases script_sig@.len() - at,
    {
        let ghost rest = script_sig@.skip(at as int);
        let script = slice_subrange(script_sig, at, script_sig.len());
        assert(script@ =~= rest);
        if !countable(script) {
            return None;
        }
        proof {
            lemma_countable_at(script_sig@, done, rest);
        }
        match first_instruction(script) {
            Some(instruction) => match Element::from_instruction(&instruction) {
                Ok(element) => {
                    let len: usize = encoded_len(&instruction);
                    proof {
                        lemma_encodings_push(done, instruction@);
                        assert(rest =~= encoding(instruction@) + rest.skip(len as int));
                        assert(script_sig@.skip(at + len) =~= rest.skip(len as int));
                        assert(encodings(done) + rest =~= encodings(done.push(instruction@))
                            + rest.skip(len as int));
                        done = done.push(instruction@);
                    }
                    elements.push(element);
                    at += len;
                },
                Err(e) => {
                    proof {
                        assert forall|i: InstructionModel| #[trigger]
                            starts_with(rest, i) implies pushed_model(i) is None by {
                            if !(instruction is Malformed) {
                                lemma_one_first(rest, i, instruction@);
                            }
                        }
                        lemma_readable(script_sig@, done, rest);
                        law_script_sig_is_refused_at(script_sig@, done, rest);
                    }
                    return Some(Err(e));
                },
            },
            None => {},
        }
    }
    let stack = Stack(elements);
    proof {
        assert(script_sig@ =~= encodings(done));
        lemma_countable_at(script_sig@, done, script_sig@.skip(at as int));
        lemma_readable(script_sig@, done, script_sig@.skip(at as int));
        law_script_sig_stack(script_sig@, done);
        assert(stack@ =~= pushed_stack_model(done));
    }
    Some(Ok(stack))
}

/// Whether a script signature can be read with positions counted in `usize`.
pub fn readable(script_sig: &[u8]) -> (yes: bool)
    ensures
        yes == is_readable(script_sig@),
{
    match read(script_sig) {
        Some(_) => true,
        None => false,
    }
}

/// Whether the items of a stack are those that instructions leave.
spec fn left_by(stack: Seq<ElementModel>, instructions: Seq<InstructionModel>) -> bool {
    &&& stack.len() == instructions.len()
    &&& forall|i: int|
        0 <= i < instructions.len() ==> match #[trigger] stack[i] {
            ElementModel::Satisfied => instructions[i] == InstructionModel::Op(0x51),
            ElementModel::Dissatisfied => instructions[i] matches InstructionModel::PushBytes(bytes)
                && bytes.len() == 0,
            ElementModel::Push(held) => instructions[i] == InstructionModel::PushBytes(held)
                && held.len() > 0,
        }
}

proof fn lemma_left_by(instructions: Seq<InstructionModel>)
    requires
        all_minimal(instructions),
        all_push(instructions),
    ensures
        left_by(pushed_stack_model(instructions), instructions),
{
    let stack = pushed_stack_model(instructions);
    assert forall|i: int| 0 <= i < instructions.len() implies match #[trigger] stack[i] {
        ElementModel::Satisfied => instructions[i] == InstructionModel::Op(0x51),
        ElementModel::Dissatisfied => instructions[i] matches InstructionModel::PushBytes(bytes)
            && bytes.len() == 0,
        ElementModel::Push(held) => instructions[i] == InstructionModel::PushBytes(held)
            && held.len() > 0,
    } by {
        assert(is_minimal(instructions[i]) && pushed_model(instructions[i]) is Some);
        assert(seq![1u8].len() == 1 && seq![1u8][0] == 1);
    }
}

/// The stack that a script signature leaves.
pub fn script_sig_stack(script_sig: &[u8]) -> (stack: Result<Stack, Error>)
    requires
        is_readable(script_sig@),
    ensures
        result_model(stack) == script_sig_model(script_sig@),
        stack matches Ok(s) ==> ((s@.len() == 0) <==> (script_sig@.len() == 0)),
        // Each instruction leaves its own item, in order.
        forall|instructions: Seq<InstructionModel>| #[trigger]
            only_pushes(script_sig@, instructions) ==> {
                &&& stack matches Ok(s)
                &&& s.0@.len() == instructions.len()
                &&& forall|i: int|
                    0 <= i < instructions.len() ==> match #[trigger] s.0@[i] {
                        Element::Satisfied => instructions[i] == InstructionModel::Op(0x51),
                        Element::Dissatisfied => instructions[i] matches InstructionModel::PushBytes(
                            bytes,
                        ) && bytes.len() == 0,
                        Element::Push(held) => instructions[i] == InstructionModel::PushBytes(held@)
                            && held@.len() > 0,
                    }
            },
{
    proof {
        law_script_sig_leaves_items(script_sig@);
        assert forall|instructions: Seq<InstructionModel>| #[trigger]
            only_pushes(script_sig@, instructions) implies script_sig_model(script_sig@) == Ok::<
            Seq<ElementModel>,
            Error,
        >(pushed_stack_model(instructions)) && left_by(
            pushed_stack_model(instructions),
            instructions,
        ) by {
            law_script_sig_stack(script_sig@, instructions);
            lemma_left_by(instructions);
        }
    }
    match read(script_sig) {
        Some(stack) => {
            proof {
                if stack is Ok {
                    let s = stack->Ok_0;
                    assert forall|i: int| 0 <= i < s.0@.len() implies s@[i] == (
                    #[trigger] s.0@[i])@ by {}
                }
            }
            stack
        },
        None => unreached(),
    }
}

} // verus!
