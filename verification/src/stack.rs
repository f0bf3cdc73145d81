//! The items that an input puts on the stack.
use vstd::prelude::*;
use vstd::slice::slice_to_vec;

use crate::error::Error;

verus! {

/// One step through a script.
#[derive(PartialEq, Eq, Debug)]
pub enum Instruction {
    /// A push of these bytes.
    PushBytes(Vec<u8>),
    /// Another opcode.
    Op(u8),
    /// From here on the script cannot be read, or holds a push that is not minimal.
    Malformed,
}

/// What an [`Instruction`] stands for.
pub enum InstructionModel {
    PushBytes(Seq<u8>),
    Op(u8),
    Malformed,
}

impl View for Instruction {
    type V = InstructionModel;

    open spec fn view(&self) -> InstructionModel {
        match self {
            Instruction::PushBytes(bytes) => InstructionModel::PushBytes(bytes@),
            Instruction::Op(code) => InstructionModel::Op(*code),
            Instruction::Malformed => InstructionModel::Malformed,
        }
    }
}

/// The opcode that pushes the number one.
pub const OP_TRUE: u8 = 0x51;

/// The opcode that pushes the empty byte string.
pub const OP_FALSE: u8 = 0x00;

/// An item on the stack.
#[derive(PartialEq, Eq, Debug)]
pub enum Element {
    /// The byte string `[1]`, which is what a satisfied fragment leaves.
    Satisfied,
    /// The empty byte string, which is what a dissatisfied fragment leaves.
    Dissatisfied,
    /// Any other byte string.
    Push(Vec<u8>),
}

/// What an [`Element`] stands for.
pub enum ElementModel {
    Satisfied,
    Dissatisfied,
    Push(Seq<u8>),
}

impl View for Element {
    type V = ElementModel;

    open spec fn view(&self) -> ElementModel {
        match self {
            Element::Satisfied => ElementModel::Satisfied,
            Element::Dissatisfied => ElementModel::Dissatisfied,
            Element::Push(bytes) => ElementModel::Push(bytes@),
        }
    }
}

/// The item that a byte string is on the stack.
pub open spec fn element_model(bytes: Seq<u8>) -> ElementModel {
    if bytes == seq![1u8] {
        ElementModel::Satisfied
    } else if bytes.len() == 0 {
        ElementModel::Dissatisfied
    } else {
        ElementModel::Push(bytes)
    }
}

/// The item that an instruction leaves on the stack, if it is a push or the number one.
pub open spec fn pushed_model(instruction: InstructionModel) -> Option<ElementModel> {
    match instruction {
        InstructionModel::PushBytes(bytes) => Some(element_model(bytes)),
        InstructionModel::Op(code) => if code == OP_TRUE {
            Some(ElementModel::Satisfied)
        } else {
            None
        },
        InstructionModel::Malformed => None,
    }
}

impl Element {
    /// The item that a byte string is on the stack.
    pub fn from_bytes(bytes: &[u8]) -> (element: Element)
        ensures
            element@ == element_model(bytes@),
            match element {
                Element::Satisfied => bytes@.len() == 1 && bytes@[0] == 1,
                Element::Dissatisfied => bytes@.len() == 0,
                Element::Push(held) => held@ == bytes@ && bytes@.len() > 0 && !(bytes@.len() == 1
                    && bytes@[0] == 1),
            },
    {
        if bytes.len() == 1 && bytes[0] == 1 {
            assert(bytes@ =~= seq![1u8]);
            Element::Satisfied
        } else if bytes.len() == 0 {
            Element::Dissatisfied
        } else {
            assert(bytes@ != seq![1u8]) by {
                assert(seq![1u8].len() == 1 && seq![1u8][0] == 1);
            }
            Element::Push(slice_to_vec(bytes))
        }
    }

    /// The item that an instruction leaves on the stack.
    ///
    /// Of the numbers only one is supported, since scripts of interest use no other.
    pub fn from_instruction(instruction: &Instruction) -> (element: Result<Element, Error>)
        ensures
            match pushed_model(instruction@) {
                Some(model) => element matches Ok(e) && e@ == model,
                None => element == Err::<Element, Error>(Error::ExpectedPush),
            },
            match *instruction {
                Instruction::PushBytes(bytes) => match element {
                    Ok(Element::Satisfied) => bytes@.len() == 1 && bytes@[0] == 1,
                    Ok(Element::Dissatisfied) => bytes@.len() == 0,
                    Ok(Element::Push(held)) => held@ == bytes@ && bytes@.len() > 0 && !(bytes@.len()
                        == 1 && bytes@[0] == 1),
                    Err(_) => false,
                },
                Instruction::Op(code) => if code == 0x51 {
                    element == Ok::<Element, Error>(Element::Satisfied)
                } else {
                    element == Err::<Element, Error>(Error::ExpectedPush)
                },
                Instruction::Malformed => element == Err::<Element, Error>(Error::ExpectedPush),
            },
    {
        match instruction {
            Instruction::PushBytes(bytes) => Ok(Element::from_bytes(bytes.as_slice())),
            Instruction::Op(code) => if *code == OP_TRUE {
                Ok(Element::Satisfied)
            } else {
                Err(Error::ExpectedPush)
            },
            Instruction::Malformed => Err(Error::ExpectedPush),
        }
    }

    /// The bytes of an item that is not a boolean.
    pub fn as_push(&self) -> (bytes: Result<&[u8], Error>)
        ensures
            match self@ {
                ElementModel::Push(model) => bytes matches Ok(b) && b@ == model,
                _ => bytes == Err::<&[u8], Error>(Error::UnexpectedStackBoolean),
            },
            match *self {
                Element::Push(held) => bytes matches Ok(b) && b@ == held@,
                _ => bytes is Err,
            },
    {
        match self {
            Element::Push(bytes) => Ok(bytes.as_slice()),
            _ => Err(Error::UnexpectedStackBoolean),
        }
    }
}

/// The items on a stack, the top one last.
#[derive(PartialEq, Eq, Debug)]
pub struct Stack(pub Vec<Element>);

impl View for Stack {
    type V = Seq<ElementModel>;

    open spec fn view(&self) -> Seq<ElementModel> {
        self.0@.map_values(|e: Element| e@)
    }
}

impl vstd::std_specs::convert::FromSpecImpl<Vec<Element>> for Stack {
    open spec fn obeys_from_spec() -> bool {
        true
    }

    open spec fn from_spec(elements: Vec<Element>) -> Stack {
        Stack(elements)
    }
}

impl From<Vec<Element>> for Stack {
    fn from(elements: Vec<Element>) -> (stack: Stack) {
        Stack(elements)
    }
}

/// The stack that a list of instructions leaves, when each of them leaves an item.
pub open spec fn pushed_stack_model(instructions: Seq<InstructionModel>) -> Seq<ElementModel> {
    instructions.map_values(|i: InstructionModel| pushed_model(i)->0)
}

/// The stack of the items of a witness.
pub open spec fn witness_stack_model(witness: Seq<Seq<u8>>) -> Seq<ElementModel> {
    witness.map_values(|item: Seq<u8>| element_model(item))
}

/// The byte strings of a witness.
pub open spec fn witness_model(witness: Seq<Vec<u8>>) -> Seq<Seq<u8>> {
    witness.map_values(|item: Vec<u8>| item@)
}

/// Pushes of byte strings leave the same stack as a witness of these byte strings.
pub proof fn law_pushes_are_a_witness(items: Seq<Seq<u8>>)
    ensures
        pushed_stack_model(items.map_values(|item: Seq<u8>| InstructionModel::PushBytes(item)))
            == witness_stack_model(items),
{
    assert(pushed_stack_model(
        items.map_values(|item: Seq<u8>| InstructionModel::PushBytes(item)),
    ) =~= witness_stack_model(items));
}

impl Stack {
    /// Whether no item is left.
    pub fn is_empty(&self) -> (empty: bool)
        ensures
            empty == (self@.len() == 0),
            empty == (self.0@.len() == 0),
    {
        self.0.len() == 0
    }

    /// The number of items.
    pub fn len(&self) -> (len: usize)
        ensures
            len == self@.len(),
            len == self.0@.len(),
    {
        self.0.len()
    }

    /// Takes the top item.
    pub fn pop(&mut self) -> (top: Option<Element>)
        ensures
            match top {
                Some(element) => old(self)@.len() > 0 && element@ == old(self)@.last()
                    && final(self)@ == old(self)@.drop_last(),
                None => old(self)@.len() == 0 && final(self)@ == old(self)@,
            },
            match top {
                Some(element) => old(self).0@ == final(self).0@.push(element),
                None => old(self).0@.len() == 0 && final(self).0@.len() == 0,
            },
    {
        let ghost before = self.0@;
        let top = self.0.pop();
        assert(top is Some ==> self@ =~= before.map_values(|e: Element| e@).drop_last());
        assert(top is None ==> self@ =~= before.map_values(|e: Element| e@));
        top
    }

    /// The stack of the items of a witness.
    pub fn from_witness(witness: &[Vec<u8>]) -> (stack: Stack)
        ensures
            stack@ == witness_stack_model(witness_model(witness@)),
            stack.0@.len() == witness@.len(),
            forall|i: int|
                0 <= i < witness@.len() ==> match #[trigger] stack.0@[i] {
                    Element::Satisfied => witness@[i]@.len() == 1 && witness@[i]@[0] == 1,
                    Element::Dissatisfied => witness@[i]@.len() == 0,
                    Element::Push(held) => held@ == witness@[i]@ && held@.len() > 0 && !(held@.len()
                        == 1 && held@[0] == 1),
                },
    {
        let mut elements: Vec<Element> = Vec::new();
        let mut i: usize = 0;
        while i < witness.len()
            invariant
                i <= witness@.len(),
                elements@.len() == i,
                forall|j: int|
                    0 <= j < i ==> (#[trigger] elements@[j])@ == element_model(witness@[j]@),
                forall|j: int|
                    0 <= j < i ==> match #[trigger] elements@[j] {
                        Element::Satisfied => witness@[j]@.len() == 1 && witness@[j]@[0] == 1,
                        Element::Dissatisfied => witness@[j]@.len() == 0,
                        Element::Push(held) => held@ == witness@[j]@ && held@.len() > 0 && !(
                        held@.len() == 1 && held@[0] == 1),
                    },
            decreases witness@.len() - i,
        {
            elements.push(Element::from_bytes(witness[i].as_slice()));
            i += 1;
        }
        let stack = Stack(elements);
        assert(stack@ =~= witness_stack_model(witness_model(witness@)));
        stack
    }
}

} // verus!
