//! Great Communications Protocol

pub mod class;
pub mod class_core;

pub use class::{spec_class_id, spec_find_class, spec_find_verb, Class, ClassId, Classes, Verb, VerbDescriptor};

use vstd::prelude::*;
use vstd::slice::slice_subrange;

use crate::bytes::{le32, u32_from_le_at, u32_le};

verus! {

/// CommandPrelude: the class and verb that open every command.
#[derive(Debug, Clone, Copy, PartialEq, Eq, Structural)]
pub struct CommandPrelude {
    pub class: u32,
    pub verb: u32,
}

impl CommandPrelude {
    /// The 8 bytes of the prelude: class then verb, little-endian.
    pub open spec fn spec_bytes(&self) -> Seq<u8> {
        u32_le(self.class) + u32_le(self.verb)
    }

    /// The 8 bytes of the prelude.
    pub fn as_bytes(&self) -> (r: Vec<u8>)
        ensures
            r@ == self.spec_bytes(),
    {
        let mut v: Vec<u8> = Vec::new();
        crate::bytes::push_u32_le(&mut v, self.class);
        crate::bytes::push_u32_le(&mut v, self.verb);
        assert(v@ =~= self.spec_bytes());
        v
    }

    /// Reads a prelude from exactly 8 bytes.
    pub fn read_from(bytes: &[u8]) -> (r: Option<CommandPrelude>)
        ensures
            bytes@.len() == 8 ==> r == Some(spec_prelude(bytes@)),
            bytes@.len() != 8 ==> r is None,
    {
        if bytes.len() == 8 {
            Some(read_prelude(bytes))
        } else {
            None
        }
    }
}

/// The prelude in the first 8 bytes of `b`.
pub open spec fn spec_prelude(b: Seq<u8>) -> CommandPrelude {
    CommandPrelude { class: le32(b.subrange(0, 4)), verb: le32(b.subrange(4, 8)) }
}

fn read_prelude(bytes: &[u8]) -> (r: CommandPrelude)
    requires
        bytes@.len() >= 8,
    ensures
        r == spec_prelude(bytes@),
{
    CommandPrelude { class: u32_from_le_at(bytes, 0), verb: u32_from_le_at(bytes, 4) }
}

/// A command: its prelude and the bytes of its arguments.
#[derive(Debug)]
pub struct Command<'a> {
    pub prelude: CommandPrelude,
    pub arguments: &'a [u8],
}

impl<'a> Command<'a> {
    /// Splits a command into its 8 byte prelude and its arguments; `None`
    /// when there are fewer than 8 bytes.
    pub fn parse(byte_slice: &'a [u8]) -> (r: Option<Command<'a>>)
        ensures
            byte_slice@.len() < 8 ==> r is None,
            byte_slice@.len() >= 8 ==> (r matches Some(command) && command.prelude == spec_prelude(
                byte_slice@,
            ) && command.arguments@ == byte_slice@.skip(8)),
    {
        if byte_slice.len() < 8 {
            return None;
        }
        let prelude = read_prelude(byte_slice);
        let arguments = slice_subrange(byte_slice, 8, byte_slice.len());
        assert(arguments@ =~= byte_slice@.skip(8));
        Some(Command { prelude, arguments })
    }

    pub fn class(&self) -> (r: ClassId)
        ensures
            r == spec_class_id(self.prelude.class),
    {
        ClassId::from(self.prelude.class)
    }
}

/// Parsing the bytes of a prelude followed by arguments gives that prelude
/// and those arguments back.
pub proof fn lemma_command_encoding_roundtrip(prelude: CommandPrelude, arguments: Seq<u8>)
    ensures
        spec_prelude(prelude.spec_bytes() + arguments) == prelude,
        (prelude.spec_bytes() + arguments).skip(8) == arguments,
{
    let b = prelude.spec_bytes() + arguments;
    assert(b.subrange(0, 4) =~= u32_le(prelude.class));
    assert(b.subrange(4, 8) =~= u32_le(prelude.verb));
    crate::bytes::lemma_u32_le_roundtrip(prelude.class);
    crate::bytes::lemma_u32_le_roundtrip(prelude.verb);
    assert(b.skip(8) =~= arguments);
}

} // verus!
