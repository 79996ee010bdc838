//! Great Communications Protocol Class Registry

pub mod class_core;
pub mod greatdancer;

use vstd::prelude::*;

verus! {

// - Classes ------------------------------------------------------------------

/// The classes a device supports.
#[derive(Copy, Clone)]
pub struct Classes<'a>(pub &'a [Class<'a>]);

impl<'a> Classes<'a> {
    /// The first class with the given id.
    pub fn class(&self, id: ClassId) -> (r: Option<&'a Class<'a>>)
        ensures
            r == spec_find_class(self.0@, id),
    {
        let classes = self.0;
        let mut i: usize = 0;
        assert(classes@.skip(0) =~= classes@);
        while i < classes.len()
            invariant
                classes == self.0,
                i <= classes@.len(),
                spec_find_class(classes@, id) == spec_find_class(classes@.skip(i as int), id),
            decreases classes@.len() - i,
        {
            assert(classes@.skip(i as int).drop_first() =~= classes@.skip(i + 1));
            if classes[i].id == id {
                assert(classes@.skip(i as int)[0] == classes@[i as int]);
                return Some(&classes[i]);
            }
            i = i + 1;
        }
        None
    }

    pub fn new() -> (r: Self)
        ensures
            r.0@.len() == 0,
    {
        Self(&[])
    }
}

/// The first class in `classes` with id `id`.
pub open spec fn spec_find_class<'a>(classes: Seq<Class<'a>>, id: ClassId) -> Option<&'a Class<'a>>
    decreases classes.len(),
{
    if classes.len() == 0 {
        None
    } else if classes[0].id == id {
        Some(&classes[0])
    } else {
        spec_find_class(classes.drop_first(), id)
    }
}

// - Class --------------------------------------------------------------------

#[derive(Copy, Clone)]
pub struct Class<'a> {
    pub id: ClassId,
    pub name: &'a str,
    pub docs: &'a str,
    pub verbs: &'a [Verb<'a>],
}

impl<'a> Class<'a> {
    /// The first verb of the class with the given id.
    pub fn verb(&self, id: u32) -> (r: Option<&'a Verb<'a>>)
        ensures
            r == spec_find_verb(self.verbs@, id),
    {
        let verbs = self.verbs;
        let mut i: usize = 0;
        assert(verbs@.skip(0) =~= verbs@);
        while i < verbs.len()
            invariant
                verbs == self.verbs,
                i <= verbs@.len(),
                spec_find_verb(verbs@, id) == spec_find_verb(verbs@.skip(i as int), id),
            decreases verbs@.len() - i,
        {
            assert(verbs@.skip(i as int).drop_first() =~= verbs@.skip(i + 1));
            if verbs[i].id == id {
                assert(verbs@.skip(i as int)[0] == verbs@[i as int]);
                return Some(&verbs[i]);
            }
            i = i + 1;
        }
        None
    }
}

/// The first verb in `verbs` with id `id`.
pub open spec fn spec_find_verb<'a>(verbs: Seq<Verb<'a>>, id: u32) -> Option<&'a Verb<'a>>
    decreases verbs.len(),
{
    if verbs.len() == 0 {
        None
    } else if verbs[0].id == id {
        Some(&verbs[0])
    } else {
        spec_find_verb(verbs.drop_first(), id)
    }
}

// - Verb ---------------------------------------------------------------------

/// Verb
#[derive(Copy, Clone)]
pub struct Verb<'a> {
    pub id: u32,
    pub name: &'a str,
    pub in_signature: &'a str,
    pub in_param_names: &'a str,
    pub out_signature: &'a str,
    pub out_param_names: &'a str,
    pub doc: &'a str,
}

/// Verb Descriptor
#[derive(Debug, Clone, Copy, PartialEq, Eq, Structural)]
pub enum VerbDescriptor {
    OutSignature,
    InSignature,
    Doc,
    OutParamNames,
    InParamNames,
    Unknown(u8),
}

/// The verb descriptor numbered `value`.
pub open spec fn spec_verb_descriptor(value: u8) -> VerbDescriptor {
    if value == 0 {
        VerbDescriptor::OutSignature
    } else if value == 1 {
        VerbDescriptor::InSignature
    } else if value == 2 {
        VerbDescriptor::Doc
    } else if value == 3 {
        VerbDescriptor::OutParamNames
    } else if value == 4 {
        VerbDescriptor::InParamNames
    } else {
        VerbDescriptor::Unknown(value)
    }
}

impl VerbDescriptor {
    pub fn from(value: u8) -> (r: VerbDescriptor)
        ensures
            r == spec_verb_descriptor(value),
    {
        match value {
            0 => VerbDescriptor::OutSignature,
            1 => VerbDescriptor::InSignature,
            2 => VerbDescriptor::Doc,
            3 => VerbDescriptor::OutParamNames,
            4 => VerbDescriptor::InParamNames,
            _ => VerbDescriptor::Unknown(value),
        }
    }
}

// - ClassId ------------------------------------------------------------------

/// ClassId
#[derive(Debug, PartialEq, Eq, Copy, Clone, Structural)]
#[allow(non_camel_case_types)]
pub enum ClassId {
    Core,
    firmware,
    gpio,
    greatdancer,
    moondancer,
    unsupported(u32),
}

/// The class with number `value`; numbers of no known class are
/// `unsupported`.
pub open spec fn spec_class_id(value: u32) -> ClassId {
    if value == 0x0000 {
        ClassId::Core
    } else if value == 0x0001 {
        ClassId::firmware
    } else if value == 0x0103 {
        ClassId::gpio
    } else if value == 0x0104 {
        ClassId::greatdancer
    } else if value == 0x0120 {
        ClassId::moondancer
    } else {
        ClassId::unsupported(value)
    }
}

/// The number of class `id`.
pub open spec fn spec_class_number(id: ClassId) -> u32 {
    match id {
        ClassId::Core => 0x0000,
        ClassId::firmware => 0x0001,
        ClassId::gpio => 0x0103,
        ClassId::greatdancer => 0x0104,
        ClassId::moondancer => 0x0120,
        ClassId::unsupported(value) => value,
    }
}

impl ClassId {
    pub fn from(value: u32) -> (r: ClassId)
        ensures
            r == spec_class_id(value),
    {
        match value {
            0x0000 => ClassId::Core,
            0x0001 => ClassId::firmware,
            0x0103 => ClassId::gpio,
            0x0104 => ClassId::greatdancer,
            0x0120 => ClassId::moondancer,
            _ => ClassId::unsupported(value),
        }
    }

    pub fn into_u32(&self) -> (r: u32)
        ensures
            r == spec_class_number(*self),
    {
        match self {
            ClassId::Core => 0x0000,
            ClassId::firmware => 0x0001,
            ClassId::gpio => 0x0103,
            ClassId::greatdancer => 0x0104,
            ClassId::moondancer => 0x0120,
            ClassId::unsupported(value) => *value,
        }
    }
}

/// Converting a class number to a class id and back gives the number back;
/// a class id comes back from its number unless it is `unsupported` with
/// the number of a known class.
pub proof fn lemma_class_id_roundtrip(value: u32, id: ClassId)
    ensures
        spec_class_number(spec_class_id(value)) == value,
        spec_class_id(spec_class_number(id)) == id <==> !(id matches ClassId::unsupported(v)
            && spec_class_id(v) != ClassId::unsupported(v)),
{
}

} // verus!
