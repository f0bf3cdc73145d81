//! What holds of every spend, said of the bytes that it is made of.
use vstd::prelude::*;

use crate::error::Error;
use crate::inner::OutcomeModel;
use crate::script_sig::{
    all_push, encoding, encodings, is_minimal, law_script_sig_is_refused_at, law_script_sig_stack,
    only_pushes, push_header, script_sig_model, starts_badly, starts_with,
};
use crate::stack::{
    element_model, pushed_model, pushed_stack_model, witness_stack_model, ElementModel,
    InstructionModel,
};
use crate::txdata::{from_stacks_model, from_txdata_model};

verus! {

/// Whether an item on the stack stands for a byte string: it is these very bytes, but for the
/// empty byte string and the byte string `[1]`, which are the two booleans.
pub open spec fn stands_for(item: ElementModel, bytes: Seq<u8>) -> bool {
    match item {
        ElementModel::Satisfied => bytes.len() == 1 && bytes[0] == 1,
        ElementModel::Dissatisfied => bytes.len() == 0,
        ElementModel::Push(held) => held == bytes && bytes.len() > 0 && !(bytes.len() == 1
            && bytes[0] == 1),
    }
}

/// Whether the items of a stack stand for these byte strings, one for one and in order.
pub open spec fn holds(stack: Seq<ElementModel>, items: Seq<Seq<u8>>) -> bool {
    &&& stack.len() == items.len()
    &&& forall|i: int|
        #![trigger stack[i]]
        #![trigger items[i]]
        0 <= i < items.len() ==> stands_for(stack[i], items[i])
}

/// The shortest way to push a byte string: the opcode for the number one, or its length and the
/// bytes themselves.
pub open spec fn push_item(bytes: Seq<u8>) -> Seq<u8> {
    if bytes.len() == 1 && bytes[0] == 1 {
        seq![0x51u8]
    } else {
        push_header(bytes.len()) + bytes
    }
}

/// Whether a byte string can stand in a script signature. The numbers -1 and 2 to 16 cannot, as
/// they would have to be pushed by opcodes that are not known here.
pub open spec fn is_pushable(bytes: Seq<u8>) -> bool {
    &&& bytes.len() <= 0xffff_ffff
    &&& bytes.len() == 1 ==> bytes[0] != 0x81 && !(2 <= bytes[0] <= 16)
}

/// Whether all these byte strings can stand in a script signature.
pub open spec fn all_pushable(items: Seq<Seq<u8>>) -> bool {
    forall|i: int| 0 <= i < items.len() ==> is_pushable(#[trigger] items[i])
}

/// The script that pushes these byte strings.
pub open spec fn push_script(items: Seq<Seq<u8>>) -> Seq<u8> {
    items.map_values(|item: Seq<u8>| push_item(item)).flatten()
}

/// On the stack the empty byte string and the byte string `[1]` are booleans. Every other byte
/// string stands there byte for byte.
pub proof fn law_items_keep_their_bytes(item: ElementModel, bytes: Seq<u8>)
    ensures
        stands_for(item, bytes) <==> element_model(bytes) == item,
        bytes.len() == 0 ==> element_model(bytes) == ElementModel::Dissatisfied,
        bytes.len() == 1 && bytes[0] == 1 ==> element_model(bytes) == ElementModel::Satisfied,
        bytes.len() == 1 && bytes[0] != 1 ==> element_model(bytes) == ElementModel::Push(bytes),
        bytes.len() > 1 ==> element_model(bytes) == ElementModel::Push(bytes),
        element_model(bytes) is Dissatisfied ==> bytes.len() == 0,
        element_model(bytes) is Satisfied ==> bytes == seq![1u8],
{
    if bytes.len() == 1 && bytes[0] == 1 {
        assert(bytes =~= seq![1u8]);
    } else {
        assert(seq![1u8].len() == 1 && seq![1u8][0] == 1);
    }
}

/// Two byte strings that are the same item on the stack are equal.
pub proof fn law_items_tell_bytes_apart(a: Seq<u8>, b: Seq<u8>)
    requires
        element_model(a) == element_model(b),
    ensures
        a == b,
{
    law_items_keep_their_bytes(element_model(a), a);
    law_items_keep_their_bytes(element_model(b), b);
    assert(a =~= b);
}

/// The stack of a witness has one item for each of the witness, in order: the booleans for `[1]`
/// and the empty byte string, and every other byte string byte for byte.
pub proof fn law_witness_items(witness: Seq<Seq<u8>>)
    ensures
        witness_stack_model(witness).len() == witness.len(),
        forall|i: int|
            0 <= i < witness.len() ==> match #[trigger] witness_stack_model(witness)[i] {
                ElementModel::Satisfied => witness[i].len() == 1 && witness[i][0] == 1,
                ElementModel::Dissatisfied => witness[i].len() == 0,
                ElementModel::Push(bytes) => bytes == witness[i] && bytes.len() > 0 && !(
                bytes.len() == 1 && bytes[0] == 1),
            },
        holds(witness_stack_model(witness), witness),
{
    assert forall|i: int| 0 <= i < witness.len() implies stands_for(
        #[trigger] witness_stack_model(witness)[i],
        witness[i],
    ) by {
        law_items_keep_their_bytes(element_model(witness[i]), witness[i]);
    }
}

/// One stack at most stands for a list of byte strings.
proof fn lemma_one_stack(a: Seq<ElementModel>, b: Seq<ElementModel>, items: Seq<Seq<u8>>)
    requires
        holds(a, items),
        holds(b, items),
    ensures
        a == b,
{
    assert forall|i: int| 0 <= i < items.len() implies a[i] == b[i] by {
        law_items_keep_their_bytes(a[i], items[i]);
        law_items_keep_their_bytes(b[i], items[i]);
    }
    assert(a =~= b);
}

/// Two witnesses that leave the same stack are equal.
pub proof fn law_stacks_tell_witnesses_apart(a: Seq<Seq<u8>>, b: Seq<Seq<u8>>)
    requires
        witness_stack_model(a) == witness_stack_model(b),
    ensures
        a == b,
{
    law_witness_items(a);
    law_witness_items(b);
    assert forall|i: int| 0 <= i < a.len() implies a[i] == b[i] by {
        assert(witness_stack_model(a)[i] == witness_stack_model(b)[i]);
        assert(a[i] =~= b[i]);
    }
    assert(a =~= b);
}

/// The bytes before a push give its length: alone up to 75, then after the opcode 0x4c in one byte,
/// after 0x4d in two and after 0x4e in four, the lowest first. Each form is for lengths for which
/// those before it are too short.
pub proof fn law_push_headers(len: nat)
    requires
        len <= 0xffff_ffff,
    ensures
        ({
            let header = push_header(len);
            ||| header.len() == 1 && header[0] == len && len <= 75
            ||| header.len() == 2 && header[0] == 0x4c && header[1] == len && 76 <= len
            ||| header.len() == 3 && header[0] == 0x4d && header[1] + 256 * header[2] == len
                && 256 <= len
            ||| header.len() == 5 && header[0] == 0x4e && header[1] + 256 * header[2] + 65536
                * header[3] + 16777216 * header[4] == len && 65536 <= len
        }),
{
}

/// Every byte string can stand in a script signature, if its length can be given in four bytes, but
/// for the numbers -1 and 2 to 16. It is pushed by the bytes that give its length and its own, and
/// the number one by its opcode.
pub proof fn law_pushes_of_items(bytes: Seq<u8>)
    requires
        bytes.len() <= 0xffff_ffff,
    ensures
        bytes.len() != 1 ==> is_pushable(bytes),
        bytes.len() == 1 ==> is_pushable(bytes) == (bytes[0] < 2 || bytes[0] > 16 && bytes[0]
            != 0x81),
        bytes.len() != 1 ==> push_item(bytes) == push_header(bytes.len()) + bytes,
        bytes.len() == 1 && bytes[0] != 1 ==> push_item(bytes) == seq![1u8, bytes[0]],
        bytes.len() == 1 && bytes[0] == 1 ==> push_item(bytes) == seq![0x51u8],
        bytes.len() <= 75 && bytes.len() != 1 ==> push_item(bytes) == seq![bytes.len() as u8]
            + bytes,
{
    if bytes.len() == 1 && bytes[0] != 1 {
        assert(push_item(bytes) =~= seq![1u8, bytes[0]]);
    }
}

/// Pushing byte strings one after another is one script after another.
pub proof fn law_push_scripts_join(a: Seq<Seq<u8>>, b: Seq<Seq<u8>>)
    ensures
        push_script(a + b) == push_script(a) + push_script(b),
        all_pushable(a + b) == (all_pushable(a) && all_pushable(b)),
    decreases a.len(),
{
    let piece = |item: Seq<u8>| push_item(item);
    if a.len() == 0 {
        assert(a + b =~= b);
        assert(push_script(a) + push_script(b) =~= push_script(b));
    } else {
        law_push_scripts_join(a.drop_first(), b);
        assert((a + b).map_values(piece).drop_first() =~= (a.drop_first() + b).map_values(piece));
        assert(a.map_values(piece).drop_first() =~= a.drop_first().map_values(piece));
        assert(push_script(a + b) =~= push_script(a) + push_script(b));
    }
    if all_pushable(a + b) {
        assert forall|i: int| 0 <= i < a.len() implies is_pushable(#[trigger] a[i]) by {
            assert((a + b)[i] == a[i]);
        }
        assert forall|i: int| 0 <= i < b.len() implies is_pushable(#[trigger] b[i]) by {
            assert((a + b)[a.len() + i] == b[i]);
        }
    }
}

/// One byte string is pushed by its own push alone.
pub proof fn law_one_push(item: Seq<u8>)
    ensures
        push_script(seq![item]) == push_item(item),
{
    let pieces = seq![item].map_values(|item: Seq<u8>| push_item(item));
    pieces.lemma_flatten_one_element();
    assert(pieces.first() == push_item(item));
}

/// The instruction that pushes a byte string in the shortest way.
spec fn item_instruction(bytes: Seq<u8>) -> InstructionModel {
    if bytes.len() == 1 && bytes[0] == 1 {
        InstructionModel::Op(0x51)
    } else {
        InstructionModel::PushBytes(bytes)
    }
}

spec fn item_instructions(items: Seq<Seq<u8>>) -> Seq<InstructionModel> {
    items.map_values(|item: Seq<u8>| item_instruction(item))
}

proof fn lemma_item_instruction(bytes: Seq<u8>)
    requires
        is_pushable(bytes),
    ensures
        is_minimal(item_instruction(bytes)),
        encoding(item_instruction(bytes)) == push_item(bytes),
        pushed_model(item_instruction(bytes)) == Some(element_model(bytes)),
{
    law_items_keep_their_bytes(element_model(bytes), bytes);
}

proof fn lemma_push_script(items: Seq<Seq<u8>>)
    requires
        all_pushable(items),
    ensures
        only_pushes(push_script(items), item_instructions(items)),
    decreases items.len(),
{
    let instructions = item_instructions(items);
    let pieces = items.map_values(|item: Seq<u8>| push_item(item));
    assert forall|i: int| 0 <= i < instructions.len() implies is_minimal(
        #[trigger] instructions[i],
    ) && pushed_model(instructions[i]) is Some by {
        lemma_item_instruction(items[i]);
    }
    if items.len() > 0 {
        let tail = items.drop_first();
        assert forall|i: int| 0 <= i < tail.len() implies is_pushable(#[trigger] tail[i]) by {
            assert(tail[i] == items[i + 1]);
        }
        lemma_push_script(tail);
        lemma_item_instruction(items[0]);
        assert(instructions.drop_first() =~= item_instructions(tail));
        assert(pieces.drop_first() =~= tail.map_values(|item: Seq<u8>| push_item(item)));
        assert(pieces.first() == push_item(items[0]));
    }
}

/// A script signature that pushes byte strings, each in the shortest way, leaves a stack with one
/// item for each of them, in order.
pub proof fn law_pushed_items_are_read(items: Seq<Seq<u8>>, stack: Seq<ElementModel>)
    requires
        all_pushable(items),
        holds(stack, items),
    ensures
        script_sig_model(push_script(items)) == Ok::<Seq<ElementModel>, Error>(stack),
{
    let instructions = item_instructions(items);
    lemma_push_script(items);
    law_script_sig_stack(push_script(items), instructions);
    let read = pushed_stack_model(instructions);
    assert forall|i: int| 0 <= i < items.len() implies stands_for(read[i], items[i]) by {
        lemma_item_instruction(items[i]);
        law_items_keep_their_bytes(element_model(items[i]), items[i]);
        assert(instructions[i] == item_instruction(items[i]));
    }
    lemma_one_stack(read, stack, items);
}

/// The stack that instructions leave has one item for each of them, in order: the number one leaves
/// the item for `[1]`, and a push leaves its bytes.
pub proof fn law_instruction_items(script_sig: Seq<u8>, instructions: Seq<InstructionModel>)
    requires
        script_sig == instructions.map_values(|i: InstructionModel| encoding(i)).flatten(),
        forall|i: int|
            0 <= i < instructions.len() ==> is_minimal(#[trigger] instructions[i]) && (
            instructions[i] is PushBytes || instructions[i] == InstructionModel::Op(0x51)),
    ensures
        ({
            let result = script_sig_model(script_sig);
            &&& result is Ok
            &&& result->Ok_0.len() == instructions.len()
            &&& forall|i: int|
                0 <= i < instructions.len() ==> match #[trigger] instructions[i] {
                    InstructionModel::PushBytes(bytes) => if bytes.len() == 0 {
                        result->Ok_0[i] == ElementModel::Dissatisfied
                    } else {
                        result->Ok_0[i] == ElementModel::Push(bytes)
                    },
                    _ => result->Ok_0[i] == ElementModel::Satisfied,
                }
        }),
{
    lemma_encodings(instructions);
    assert(all_push(instructions));
    law_script_sig_stack(script_sig, instructions);
    let stack = pushed_stack_model(instructions);
    assert forall|i: int| 0 <= i < instructions.len() implies match #[trigger] instructions[i] {
        InstructionModel::PushBytes(bytes) => if bytes.len() == 0 {
            stack[i] == ElementModel::Dissatisfied
        } else {
            stack[i] == ElementModel::Push(bytes)
        },
        _ => stack[i] == ElementModel::Satisfied,
    } by {
        if let InstructionModel::PushBytes(bytes) = instructions[i] {
            law_items_keep_their_bytes(element_model(bytes), bytes);
        }
    }
}

/// The script that instructions make is their bytes, one after another.
proof fn lemma_encodings(instructions: Seq<InstructionModel>)
    ensures
        encodings(instructions) == instructions.map_values(
            |i: InstructionModel| encoding(i),
        ).flatten(),
    decreases instructions.len(),
{
    let pieces = instructions.map_values(|i: InstructionModel| encoding(i));
    if instructions.len() > 0 {
        lemma_encodings(instructions.drop_first());
        assert(pieces.drop_first() =~= instructions.drop_first().map_values(
            |i: InstructionModel| encoding(i),
        ));
    }
}

/// Every script signature that is accepted pushes byte strings, each in the shortest way, and its
/// stack stands for them.
pub proof fn law_accepted_script_sig(script_sig: Seq<u8>, stack: Seq<ElementModel>) -> (items: Seq<
    Seq<u8>,
>)
    requires
        script_sig_model(script_sig) == Ok::<Seq<ElementModel>, Error>(stack),
    ensures
        all_pushable(items),
        script_sig == push_script(items),
        holds(stack, items),
{
    let instructions = choose|instructions: Seq<InstructionModel>|
        only_pushes(script_sig, instructions);
    let items = instructions.map_values(
        |i: InstructionModel|
            match i {
                InstructionModel::PushBytes(bytes) => bytes,
                _ => seq![1u8],
            },
    );
    assert forall|i: int| 0 <= i < items.len() implies item_instruction(#[trigger] items[i])
        == instructions[i] && is_pushable(items[i]) && stands_for(stack[i], items[i]) by {
        assert(is_minimal(instructions[i]) && pushed_model(instructions[i]) is Some);
        law_items_keep_their_bytes(element_model(items[i]), items[i]);
    }
    lemma_push_script(items);
    assert(item_instructions(items) =~= instructions);
    items
}

/// Two script signatures that leave the same stack are equal.
pub proof fn law_stacks_tell_script_sigs_apart(a: Seq<u8>, b: Seq<u8>)
    requires
        script_sig_model(a) is Ok,
        script_sig_model(a) == script_sig_model(b),
    ensures
        a == b,
{
    let stack = script_sig_model(a)->Ok_0;
    let a_items = law_accepted_script_sig(a, stack);
    let b_items = law_accepted_script_sig(b, stack);
    assert forall|i: int| 0 <= i < a_items.len() implies a_items[i] == b_items[i] by {
        assert(stands_for(stack[i], a_items[i]) && stands_for(stack[i], b_items[i]));
        assert(a_items[i] =~= b_items[i]);
    }
    assert(a_items =~= b_items);
}

/// Whether the bytes of a script start in a way that leaves no item on the stack: with an opcode
/// that is neither a push nor the number one, with a push that is cut short, or with a push that
/// has a shorter form.
pub open spec fn is_bad_start(rest: Seq<u8>) -> bool {
    &&& rest.len() > 0
    &&& {
        let code = rest[0];
        ||| code > 0x4e && code != 0x51
        ||| code <= 75 && rest.len() < 1 + code
        ||| code == 1 && rest.len() >= 2 && (rest[1] == 0x81 || 1 <= rest[1] <= 16)
        ||| code == 0x4c && (rest.len() < 2 || rest[1] < 76 || rest.len() < 2 + rest[1])
        ||| code == 0x4d && (rest.len() < 3 || rest[1] + 256 * rest[2] < 256 || rest.len() < 3
            + rest[1] + 256 * rest[2])
        ||| code == 0x4e && (rest.len() < 5 || rest[1] + 256 * rest[2] + 65536 * rest[3] + 16777216
            * rest[4] < 65536 || rest.len() < 5 + rest[1] + 256 * rest[2] + 65536 * rest[3]
            + 16777216 * rest[4])
    }
}

proof fn lemma_bad_start(rest: Seq<u8>)
    requires
        is_bad_start(rest),
    ensures
        starts_badly(rest),
{
    assert forall|i: InstructionModel| #[trigger] starts_with(rest, i) implies pushed_model(
        i,
    ) is None by {
        let bytes = encoding(i);
        assert forall|j: int| 0 <= j < bytes.len() implies bytes[j] == rest[j] by {
            assert(rest.take(bytes.len() as int)[j] == rest[j]);
        }
        match i {
            InstructionModel::PushBytes(held) => {
                let header = push_header(held.len());
                law_push_headers(held.len());
                assert(bytes[0] == header[0]);
                if header.len() > 1 {
                    assert(bytes[1] == header[1]);
                }
                if header.len() > 2 {
                    assert(bytes[2] == header[2]);
                }
                if header.len() > 3 {
                    assert(bytes[3] == header[3]);
                    assert(bytes[4] == header[4]);
                }
                if held.len() == 1 {
                    assert(bytes[1] == held[0]);
                }
                assert(false);
            },
            InstructionModel::Op(code) => {
                assert(bytes[0] == code);
            },
            InstructionModel::Malformed => {},
        }
    }
}

/// A script signature is refused, whatever the output and the witness are, if after some pushes it
/// goes on with anything else: another opcode, a push that is cut short, or a push that has a
/// shorter form.
pub proof fn law_other_script_sigs_are_refused(
    spk: Seq<u8>,
    items: Seq<Seq<u8>>,
    rest: Seq<u8>,
    witness: Seq<Seq<u8>>,
)
    requires
        all_pushable(items),
        is_bad_start(rest),
    ensures
        script_sig_model(push_script(items) + rest) == Err::<Seq<ElementModel>, Error>(
            Error::ExpectedPush,
        ),
        from_txdata_model(spk, push_script(items) + rest, witness) == Err::<OutcomeModel, Error>(
            Error::ExpectedPush,
        ),
{
    lemma_push_script(items);
    lemma_bad_start(rest);
    law_script_sig_is_refused_at(push_script(items) + rest, item_instructions(items), rest);
}

/// A spend by bytes is the spend by the stacks that stand for them: of the byte strings that the
/// script signature pushes, and of those of the witness.
pub proof fn law_bytes_are_spent_as_stacks(
    spk: Seq<u8>,
    items: Seq<Seq<u8>>,
    ssig: Seq<ElementModel>,
    witness: Seq<Seq<u8>>,
    wit: Seq<ElementModel>,
)
    requires
        all_pushable(items),
        holds(ssig, items),
        holds(wit, witness),
    ensures
        from_txdata_model(spk, push_script(items), witness) == from_stacks_model(spk, ssig, wit),
{
    law_pushed_items_are_read(items, ssig);
    law_witness_items(witness);
    lemma_one_stack(witness_stack_model(witness), wit, witness);
}

} // verus!
