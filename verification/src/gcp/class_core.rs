//! Core class of the Great Communications Protocol: board information and
//! API introspection.

use vstd::prelude::*;
use vstd::string::StringSliceAdditionalSpecFns;

use crate::bytes::{copy_bytes, le32, lemma_u32_le_roundtrip, push_u32_le, u32_from_le_at, u32_le};
use crate::error::{view_result, GreatError, GreatResult};
use crate::firmware::BoardInformation;
use crate::gcp::class::{
    spec_class_id, spec_class_number, spec_find_class, spec_find_verb, spec_verb_descriptor, Class,
    ClassId, Classes, Verb, VerbDescriptor,
};

verus! {

pub const CLASS_DOCS: &'static str = "Core API\0";

/// The verbs of the core class.
pub open spec fn spec_verbs() -> Seq<Verb<'static>> {
    seq![
        Verb {
            id: 0x0,
            name: "read_board_id\0",
            doc: "Return the board id.\0",
            in_signature: "\0",
            in_param_names: "\0",
            out_signature: "\0",
            out_param_names: "\0",
        },
        Verb {
            id: 0x1,
            name: "read_version_string\0",
            doc: "Return the board version string.\0",
            in_signature: "\0",
            in_param_names: "\0",
            out_signature: "\0",
            out_param_names: "\0",
        },
        Verb {
            id: 0x2,
            name: "read_part_id\0",
            doc: "Return the board part id.\0",
            in_signature: "\0",
            in_param_names: "\0",
            out_signature: "\0",
            out_param_names: "\0",
        },
        Verb {
            id: 0x3,
            name: "read_serial_number\0",
            doc: "Return the board serial number.\0",
            in_signature: "\0",
            in_param_names: "\0",
            out_signature: "\0",
            out_param_names: "\0",
        },
        Verb {
            id: 0x4,
            name: "get_available_classes\0",
            doc: "Return the classes supported by the board.\0",
            in_signature: "\0",
            in_param_names: "\0",
            out_signature: "\0",
            out_param_names: "\0",
        },
        Verb {
            id: 0x5,
            name: "get_available_verbs\0",
            doc: "Return the verbs supported by the given class.\0",
            in_signature: "<I\0",
            in_param_names: "class_number\0",
            out_signature: "\0",
            out_param_names: "\0",
        },
        Verb {
            id: 0x6,
            name: "get_verb_name\0",
            doc: "Return the name of the given class and verb.\0",
            in_signature: "<II\0",
            in_param_names: "class_number, verb_number\0",
            out_signature: "\0",
            out_param_names: "\0",
        },
        Verb {
            id: 0x7,
            name: "get_verb_descriptor\0",
            doc: "Returns the descriptor of the given class, verb and descriptor.\0",
            in_signature: "<III\0",
            in_param_names: "class_number, verb_number, descriptor_number\0",
            out_signature: "\0",
            out_param_names: "\0",
        },
        Verb {
            id: 0x8,
            name: "get_class_name\0",
            doc: "Return the name of the given class.\0",
            in_signature: "<I\0",
            in_param_names: "class_number\0",
            out_signature: "\0",
            out_param_names: "\0",
        },
        Verb {
            id: 0x9,
            name: "get_class_docs\0",
            doc: "Return the documentation for the given class.\0",
            in_signature: "<I\0",
            in_param_names: "class_number\0",
            out_signature: "\0",
            out_param_names: "\0",
        },
    ]
}

pub fn verbs() -> (r: [Verb<'static>; 10])
    ensures
        r@ == spec_verbs(),
{
    let r = [
        Verb {
            id: 0x0,
            name: "read_board_id\0",
            doc: "Return the board id.\0",
            in_signature: "\0",
            in_param_names: "\0",
            out_signature: "\0",
            out_param_names: "\0",
        },
        Verb {
            id: 0x1,
            name: "read_version_string\0",
            doc: "Return the board version string.\0",
            in_signature: "\0",
            in_param_names: "\0",
            out_signature: "\0",
            out_param_names: "\0",
        },
        Verb {
            id: 0x2,
            name: "read_part_id\0",
            doc: "Return the board part id.\0",
            in_signature: "\0",
            in_param_names: "\0",
            out_signature: "\0",
            out_param_names: "\0",
        },
        Verb {
            id: 0x3,
            name: "read_serial_number\0",
            doc: "Return the board serial number.\0",
            in_signature: "\0",
            in_param_names: "\0",
            out_signature: "\0",
            out_param_names: "\0",
        },
        Verb {
            id: 0x4,
            name: "get_available_classes\0",
            doc: "Return the classes supported by the board.\0",
            in_signature: "\0",
            in_param_names: "\0",
            out_signature: "\0",
            out_param_names: "\0",
        },
        Verb {
            id: 0x5,
            name: "get_available_verbs\0",
            doc: "Return the verbs supported by the given class.\0",
            in_signature: "<I\0",
            in_param_names: "class_number\0",
            out_signature: "\0",
            out_param_names: "\0",
        },
        Verb {
            id: 0x6,
            name: "get_verb_name\0",
            doc: "Return the name of the given class and verb.\0",
            in_signature: "<II\0",
            in_param_names: "class_number, verb_number\0",
            out_signature: "\0",
            out_param_names: "\0",
        },
        Verb {
            id: 0x7,
            name: "get_verb_descriptor\0",
            doc: "Returns the descriptor of the given class, verb and descriptor.\0",
            in_signature: "<III\0",
            in_param_names: "class_number, verb_number, descriptor_number\0",
            out_signature: "\0",
            out_param_names: "\0",
        },
        Verb {
            id: 0x8,
            name: "get_class_name\0",
            doc: "Return the name of the given class.\0",
            in_signature: "<I\0",
            in_param_names: "class_number\0",
            out_signature: "\0",
            out_param_names: "\0",
        },
        Verb {
            id: 0x9,
            name: "get_class_docs\0",
            doc: "Return the documentation for the given class.\0",
            in_signature: "<I\0",
            in_param_names: "class_number\0",
            out_signature: "\0",
            out_param_names: "\0",
        },
    ];
    assert(r@ =~= spec_verbs());
    r
}

/// The class's entry in the class table, listing `verbs`: the class's own
/// table is `verbs()`.
pub fn class<'a>(verbs: &'a [Verb<'a>]) -> (r: Class<'a>)
    ensures
        r.id == ClassId::Core,
        r.name@ == "core"@,
        r.docs@ == CLASS_DOCS@,
        r.verbs == verbs,
{
    Class { id: ClassId::Core, name: "core", docs: CLASS_DOCS, verbs }
}


// - verb implementations: board ----------------------------------------------

pub fn read_board_id(_arguments: &[u8], board_information: &BoardInformation) -> (r: GreatResult<Vec<u8>>)
    ensures
        view_result(r) == Ok::<Seq<u8>, GreatError>(board_information.board_id@),
{
    Ok(copy_bytes(board_information.board_id.as_slice()))
}

pub fn read_version_string(_arguments: &[u8], board_information: &BoardInformation) -> (r: GreatResult<Vec<u8>>)
    ensures
        view_result(r) == Ok::<Seq<u8>, GreatError>(board_information.version_string.spec_bytes()),
{
    Ok(copy_bytes(board_information.version_string.as_bytes()))
}

pub fn read_part_id(_arguments: &[u8], board_information: &BoardInformation) -> (r: GreatResult<Vec<u8>>)
    ensures
        view_result(r) == Ok::<Seq<u8>, GreatError>(board_information.part_id@),
{
    Ok(copy_bytes(board_information.part_id.as_slice()))
}

pub fn read_serial_number(_arguments: &[u8], board_information: &BoardInformation) -> (r: GreatResult<Vec<u8>>)
    ensures
        view_result(r) == Ok::<Seq<u8>, GreatError>(board_information.serial_number@),
{
    Ok(copy_bytes(board_information.serial_number.as_slice()))
}

// - verb implementations: api ------------------------------------------------

/// The class numbers of `classes`, each as four little-endian bytes.
pub open spec fn spec_class_ids_bytes(classes: Seq<Class>) -> Seq<u8>
    decreases classes.len(),
{
    if classes.len() == 0 {
        Seq::empty()
    } else {
        spec_class_ids_bytes(classes.drop_last()) + u32_le(spec_class_number(classes.last().id))
    }
}

/// The verb numbers of `verbs`, each as four little-endian bytes.
pub open spec fn spec_verb_ids_bytes(verbs: Seq<Verb>) -> Seq<u8>
    decreases verbs.len(),
{
    if verbs.len() == 0 {
        Seq::empty()
    } else {
        spec_verb_ids_bytes(verbs.drop_last()) + u32_le(verbs.last().id)
    }
}

/// The class named by the first four argument bytes.
pub open spec fn spec_argument_class<'a>(arguments: Seq<u8>, classes: Seq<Class<'a>>) -> Option<
    &'a Class<'a>,
> {
    spec_find_class(classes, spec_class_id(le32(arguments.subrange(0, 4))))
}

/// The response to `get_available_verbs`.
pub open spec fn spec_get_available_verbs(arguments: Seq<u8>, classes: Seq<Class>) -> Result<
    Seq<u8>,
    GreatError,
> {
    if arguments.len() != 4 {
        Err(GreatError::GcpInvalidArguments)
    } else {
        match spec_argument_class(arguments, classes) {
            None => Err(GreatError::GcpClassNotFound),
            Some(class) => Ok(spec_verb_ids_bytes(class.verbs@)),
        }
    }
}

/// The class and verb named by the first eight argument bytes.
pub open spec fn spec_argument_verb<'a>(arguments: Seq<u8>, classes: Seq<Class<'a>>) -> Result<
    &'a Verb<'a>,
    GreatError,
> {
    match spec_argument_class(arguments, classes) {
        None => Err(GreatError::GcpClassNotFound),
        Some(class) => match spec_find_verb(class.verbs@, le32(arguments.subrange(4, 8))) {
            None => Err(GreatError::GcpVerbNotFound(class.id, le32(arguments.subrange(4, 8)))),
            Some(verb) => Ok(verb),
        },
    }
}

/// The response to `get_verb_name`.
pub open spec fn spec_get_verb_name(arguments: Seq<u8>, classes: Seq<Class>) -> Result<
    Seq<u8>,
    GreatError,
> {
    if arguments.len() != 8 {
        Err(GreatError::GcpInvalidArguments)
    } else {
        match spec_argument_verb(arguments, classes) {
            Err(e) => Err(e),
            Ok(verb) => Ok(verb.name.spec_bytes()),
        }
    }
}

/// The response to `get_verb_descriptor`.
pub open spec fn spec_get_verb_descriptor(arguments: Seq<u8>, classes: Seq<Class>) -> Result<
    Seq<u8>,
    GreatError,
> {
    if arguments.len() != 9 {
        Err(GreatError::GcpInvalidArguments)
    } else {
        match spec_argument_verb(arguments, classes) {
            Err(e) => Err(e),
            Ok(verb) => match spec_verb_descriptor(arguments[8]) {
                VerbDescriptor::InSignature => Ok(verb.in_signature.spec_bytes()),
                VerbDescriptor::InParamNames => Ok(verb.in_param_names.spec_bytes()),
                VerbDescriptor::OutSignature => Ok(verb.out_signature.spec_bytes()),
                VerbDescriptor::OutParamNames => Ok(verb.out_param_names.spec_bytes()),
                VerbDescriptor::Doc => Ok(verb.doc.spec_bytes()),
                VerbDescriptor::Unknown(_) => Err(GreatError::GcpUnknownVerbDescriptor),
            },
        }
    }
}

/// The response to `get_class_name` (`docs == false`) or `get_class_docs`.
pub open spec fn spec_get_class_string(arguments: Seq<u8>, classes: Seq<Class>, docs: bool) -> Result<
    Seq<u8>,
    GreatError,
> {
    if arguments.len() != 4 {
        Err(GreatError::GcpInvalidArguments)
    } else {
        match spec_argument_class(arguments, classes) {
            None => Err(GreatError::GcpClassNotFound),
            Some(class) => Ok(if docs {
                class.docs.spec_bytes()
            } else {
                class.name.spec_bytes()
            }),
        }
    }
}

pub fn get_available_classes(_arguments: &[u8], classes: &Classes) -> (r: GreatResult<Vec<u8>>)
    ensures
        view_result(r) == Ok::<Seq<u8>, GreatError>(spec_class_ids_bytes(classes.0@)),
{
    let list = classes.0;
    let mut v: Vec<u8> = Vec::new();
    let mut i: usize = 0;
    while i < list.len()
        invariant
            i <= list@.len(),
            v@ == spec_class_ids_bytes(list@.take(i as int)),
        decreases list@.len() - i,
    {
        assert(list@.take(i + 1).drop_last() =~= list@.take(i as int));
        push_u32_le(&mut v, list[i].id.into_u32());
        i = i + 1;
    }
    assert(list@.take(list@.len() as int) =~= list@);
    Ok(v)
}

/// The verb numbers of a class, each as four little-endian bytes.
fn verb_ids_bytes(verbs: &[Verb]) -> (r: Vec<u8>)
    ensures
        r@ == spec_verb_ids_bytes(verbs@),
{
    let mut v: Vec<u8> = Vec::new();
    let mut i: usize = 0;
    while i < verbs.len()
        invariant
            i <= verbs@.len(),
            v@ == spec_verb_ids_bytes(verbs@.take(i as int)),
        decreases verbs@.len() - i,
    {
        assert(verbs@.take(i + 1).drop_last() =~= verbs@.take(i as int));
        push_u32_le(&mut v, verbs[i].id);
        i = i + 1;
    }
    assert(verbs@.take(verbs@.len() as int) =~= verbs@);
    v
}

/// The class named by the first four bytes of the arguments.
fn argument_class<'a>(arguments: &[u8], classes: &Classes<'a>) -> (r: Option<&'a Class<'a>>)
    requires
        arguments@.len() >= 4,
    ensures
        r == spec_argument_class(arguments@, classes.0@),
{
    let class_number = u32_from_le_at(arguments, 0);
    classes.class(ClassId::from(class_number))
}

/// The verb named by the first eight bytes of the arguments.
fn argument_verb<'a>(arguments: &[u8], classes: &Classes<'a>) -> (r: GreatResult<&'a Verb<'a>>)
    requires
        arguments@.len() >= 8,
    ensures
        r == spec_argument_verb(arguments@, classes.0@),
{
    let class = match argument_class(arguments, classes) {
        Some(class) => class,
        None => {
            return Err(GreatError::GcpClassNotFound);
        },
    };
    let verb_number = u32_from_le_at(arguments, 4);
    match class.verb(verb_number) {
        Some(verb) => Ok(verb),
        None => Err(GreatError::GcpVerbNotFound(class.id, verb_number)),
    }
}

pub fn get_available_verbs(arguments: &[u8], classes: &Classes) -> (r: GreatResult<Vec<u8>>)
    ensures
        view_result(r) == spec_get_available_verbs(arguments@, classes.0@),
{
    if arguments.len() != 4 {
        return Err(GreatError::GcpInvalidArguments);
    }
    let class = match argument_class(arguments, classes) {
        Some(class) => class,
        None => {
            return Err(GreatError::GcpClassNotFound);
        },
    };
    Ok(verb_ids_bytes(class.verbs))
}

pub fn get_verb_name(arguments: &[u8], classes: &Classes) -> (r: GreatResult<Vec<u8>>)
    ensures
        view_result(r) == spec_get_verb_name(arguments@, classes.0@),
{
    if arguments.len() != 8 {
        return Err(GreatError::GcpInvalidArguments);
    }
    let verb = argument_verb(arguments, classes)?;
    Ok(copy_bytes(verb.name.as_bytes()))
}

pub fn get_verb_descriptor(arguments: &[u8], classes: &Classes) -> (r: GreatResult<Vec<u8>>)
    ensures
        view_result(r) == spec_get_verb_descriptor(arguments@, classes.0@),
{
    if arguments.len() != 9 {
        return Err(GreatError::GcpInvalidArguments);
    }
    let verb = match argument_verb(arguments, classes) {
        Ok(verb) => verb,
        Err(e) => {
            return Err(e);
        },
    };
    match VerbDescriptor::from(arguments[8]) {
        VerbDescriptor::InSignature => Ok(copy_bytes(verb.in_signature.as_bytes())),
        VerbDescriptor::InParamNames => Ok(copy_bytes(verb.in_param_names.as_bytes())),
        VerbDescriptor::OutSignature => Ok(copy_bytes(verb.out_signature.as_bytes())),
        VerbDescriptor::OutParamNames => Ok(copy_bytes(verb.out_param_names.as_bytes())),
        VerbDescriptor::Doc => Ok(copy_bytes(verb.doc.as_bytes())),
        VerbDescriptor::Unknown(_value) => Err(GreatError::GcpUnknownVerbDescriptor),
    }
}

pub fn get_class_name(arguments: &[u8], classes: &Classes) -> (r: GreatResult<Vec<u8>>)
    ensures
        view_result(r) == spec_get_class_string(arguments@, classes.0@, false),
{
    if arguments.len() != 4 {
        return Err(GreatError::GcpInvalidArguments);
    }
    match argument_class(arguments, classes) {
        Some(class) => Ok(copy_bytes(class.name.as_bytes())),
        None => Err(GreatError::GcpClassNotFound),
    }
}

pub fn get_class_docs(arguments: &[u8], classes: &Classes) -> (r: GreatResult<Vec<u8>>)
    ensures
        view_result(r) == spec_get_class_string(arguments@, classes.0@, true),
{
    if arguments.len() != 4 {
        return Err(GreatError::GcpInvalidArguments);
    }
    match argument_class(arguments, classes) {
        Some(class) => Ok(copy_bytes(class.docs.as_bytes())),
        None => Err(GreatError::GcpClassNotFound),
    }
}

// - dispatch -----------------------------------------------------------------

/// The core class: the classes the board registered, and what the board
/// reports about itself.
#[derive(Clone, Copy)]
pub struct Core<'a> {
    pub classes: Classes<'a>,
    pub board_information: BoardInformation<'a>,
}

/// The response to verb `verb_number` of the core class.
pub open spec fn spec_core_dispatch(
    classes: Seq<Class>,
    board_information: BoardInformation,
    verb_number: u32,
    arguments: Seq<u8>,
) -> Result<Seq<u8>, GreatError> {
    if verb_number == 0x0 {
        Ok(board_information.board_id@)
    } else if verb_number == 0x1 {
        Ok(board_information.version_string.spec_bytes())
    } else if verb_number == 0x2 {
        Ok(board_information.part_id@)
    } else if verb_number == 0x3 {
        Ok(board_information.serial_number@)
    } else if verb_number == 0x4 {
        Ok(spec_class_ids_bytes(classes))
    } else if verb_number == 0x5 {
        spec_get_available_verbs(arguments, classes)
    } else if verb_number == 0x6 {
        spec_get_verb_name(arguments, classes)
    } else if verb_number == 0x7 {
        spec_get_verb_descriptor(arguments, classes)
    } else if verb_number == 0x8 {
        spec_get_class_string(arguments, classes, false)
    } else if verb_number == 0x9 {
        spec_get_class_string(arguments, classes, true)
    } else {
        Err(GreatError::GcpVerbNotFound(ClassId::Core, verb_number))
    }
}

impl<'a> Core<'a> {
    pub fn new(classes: Classes<'a>, board_information: BoardInformation<'a>) -> (r: Self)
        ensures
            r.classes == classes,
            r.board_information == board_information,
    {
        Self { classes, board_information }
    }

    /// Answers verb `verb_number` of the core class.
    pub fn dispatch(&self, verb_number: u32, arguments: &[u8]) -> (r: GreatResult<Vec<u8>>)
        ensures
            view_result(r) == spec_core_dispatch(
                self.classes.0@,
                self.board_information,
                verb_number,
                arguments@,
            ),
    {
        match verb_number {
            0x0 => read_board_id(arguments, &self.board_information),
            0x1 => read_version_string(arguments, &self.board_information),
            0x2 => read_part_id(arguments, &self.board_information),
            0x3 => read_serial_number(arguments, &self.board_information),
            0x4 => get_available_classes(arguments, &self.classes),
            0x5 => get_available_verbs(arguments, &self.classes),
            0x6 => get_verb_name(arguments, &self.classes),
            0x7 => get_verb_descriptor(arguments, &self.classes),
            0x8 => get_class_name(arguments, &self.classes),
            0x9 => get_class_docs(arguments, &self.classes),
            _ => Err(GreatError::GcpVerbNotFound(ClassId::Core, verb_number)),
        }
    }
}

// - laws ---------------------------------------------------------------------

/// The class list is four bytes per class.
pub proof fn lemma_class_ids_bytes_len(classes: Seq<Class>)
    ensures
        spec_class_ids_bytes(classes).len() == 4 * classes.len(),
    decreases classes.len(),
{
    if classes.len() > 0 {
        lemma_class_ids_bytes_len(classes.drop_last());
    }
}

/// The host can read the class list back: the `i`th four bytes of the
/// answer to `get_available_classes` decode to the number of the `i`th
/// registered class.
pub proof fn lemma_class_list_decodes(classes: Seq<Class>, i: int)
    requires
        0 <= i < classes.len(),
    ensures
        spec_class_ids_bytes(classes).len() == 4 * classes.len(),
        le32(spec_class_ids_bytes(classes).subrange(4 * i, 4 * i + 4)) == spec_class_number(
            classes[i].id,
        ),
    decreases classes.len(),
{
    let prefix = classes.drop_last();
    let bytes = spec_class_ids_bytes(classes);
    lemma_class_ids_bytes_len(classes);
    lemma_class_ids_bytes_len(prefix);
    lemma_u32_le_roundtrip(spec_class_number(classes.last().id));
    if i < classes.len() - 1 {
        lemma_class_list_decodes(prefix, i);
        assert(bytes.subrange(4 * i, 4 * i + 4) =~= spec_class_ids_bytes(prefix).subrange(
            4 * i,
            4 * i + 4,
        ));
    } else {
        assert(bytes.subrange(4 * i, 4 * i + 4) =~= u32_le(spec_class_number(classes.last().id)));
    }
}

/// The verb list is four bytes per verb.
pub proof fn lemma_verb_ids_bytes_len(verbs: Seq<Verb>)
    ensures
        spec_verb_ids_bytes(verbs).len() == 4 * verbs.len(),
    decreases verbs.len(),
{
    if verbs.len() > 0 {
        lemma_verb_ids_bytes_len(verbs.drop_last());
    }
}

/// The host can read a verb list back: the `i`th four bytes of the
/// answer to `get_available_verbs` decode to the id of the class's `i`th
/// verb.
pub proof fn lemma_verb_list_decodes(verbs: Seq<Verb>, i: int)
    requires
        0 <= i < verbs.len(),
    ensures
        spec_verb_ids_bytes(verbs).len() == 4 * verbs.len(),
        le32(spec_verb_ids_bytes(verbs).subrange(4 * i, 4 * i + 4)) == verbs[i].id,
    decreases verbs.len(),
{
    let prefix = verbs.drop_last();
    let bytes = spec_verb_ids_bytes(verbs);
    lemma_verb_ids_bytes_len(verbs);
    lemma_verb_ids_bytes_len(prefix);
    lemma_u32_le_roundtrip(verbs.last().id);
    if i < verbs.len() - 1 {
        lemma_verb_list_decodes(prefix, i);
        assert(bytes.subrange(4 * i, 4 * i + 4) =~= spec_verb_ids_bytes(prefix).subrange(
            4 * i,
            4 * i + 4,
        ));
    } else {
        assert(bytes.subrange(4 * i, 4 * i + 4) =~= u32_le(verbs.last().id));
    }
}

/// Every verb a class lists can be looked up by its id: asking for the
/// name of the class's `i`th verb finds a verb with that id.
pub proof fn lemma_listed_verbs_are_found(verbs: Seq<Verb>, i: int)
    requires
        0 <= i < verbs.len(),
    ensures
        spec_find_verb(verbs, verbs[i].id) matches Some(verb) && verb.id == verbs[i].id,
    decreases verbs.len(),
{
    if verbs[0].id != verbs[i].id {
        lemma_listed_verbs_are_found(verbs.drop_first(), i - 1);
    }
}

/// Each verb descriptor number answers the field it names: for a verb
/// that the registry holds, descriptor 0 is the verb's out signature, 1
/// its in signature, 2 its documentation, 3 the names of its out
/// parameters and 4 the names of its in parameters; any other number is
/// refused as an unknown descriptor. The core class answers verb 7, named
/// `get_verb_descriptor` in its verb table, in the same way.
pub proof fn lemma_verb_descriptor_numbers<'a>(
    arguments: Seq<u8>,
    classes: Seq<Class<'a>>,
    board_information: BoardInformation,
    class: &'a Class<'a>,
    verb: &'a Verb<'a>,
)
    requires
        arguments.len() == 9,
        spec_find_class(classes, spec_class_id(le32(arguments.subrange(0, 4)))) == Some(class),
        spec_find_verb(class.verbs@, le32(arguments.subrange(4, 8))) == Some(verb),
    ensures
        spec_verbs()[7].id == 7,
        spec_verbs()[7].name@ == "get_verb_descriptor\0"@,
        spec_core_dispatch(classes, board_information, 7, arguments) == spec_get_verb_descriptor(
            arguments,
            classes,
        ),
        arguments[8] == 0 ==> spec_get_verb_descriptor(arguments, classes) == Ok::<
            Seq<u8>,
            GreatError,
        >(verb.out_signature.spec_bytes()),
        arguments[8] == 1 ==> spec_get_verb_descriptor(arguments, classes) == Ok::<
            Seq<u8>,
            GreatError,
        >(verb.in_signature.spec_bytes()),
        arguments[8] == 2 ==> spec_get_verb_descriptor(arguments, classes) == Ok::<
            Seq<u8>,
            GreatError,
        >(verb.doc.spec_bytes()),
        arguments[8] == 3 ==> spec_get_verb_descriptor(arguments, classes) == Ok::<
            Seq<u8>,
            GreatError,
        >(verb.out_param_names.spec_bytes()),
        arguments[8] == 4 ==> spec_get_verb_descriptor(arguments, classes) == Ok::<
            Seq<u8>,
            GreatError,
        >(verb.in_param_names.spec_bytes()),
        arguments[8] >= 5 ==> spec_get_verb_descriptor(arguments, classes) == Err::<
            Seq<u8>,
            GreatError,
        >(GreatError::GcpUnknownVerbDescriptor),
{
    reveal_strlit("get_verb_descriptor\0");
}

} // verus!
