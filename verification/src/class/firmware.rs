//! The firmware class: the common API for updating the firmware on a
//! libgreat device.

use vstd::prelude::*;

use crate::bytes::{push_u32_le, u32_le};
use crate::error::{view_result, GreatError, GreatResult};
use crate::gcp::{Class, ClassId, Verb};

verus! {

pub const CLASS_DOCS: &'static str = "Common API for updating firmware on a libgreat device.\0";

/// The verbs of the firmware class.
pub open spec fn spec_verbs() -> Seq<Verb<'static>> {
    seq![
        Verb {
            id: 0x0,
            name: "initialize\0",
            doc: "Prepare the board to have its firmware programmed.\0",
            in_signature: "\0",
            in_param_names: "\0",
            out_signature: "<II\0",
            out_param_names: "page_size, total_size\0",
        },
    ]
}

pub fn verbs() -> (r: [Verb<'static>; 1])
    ensures
        r@ == spec_verbs(),
{
    let r = [
        Verb {
            id: 0x0,
            name: "initialize\0",
            doc: "Prepare the board to have its firmware programmed.\0",
            in_signature: "\0",
            in_param_names: "\0",
            out_signature: "<II\0",
            out_param_names: "page_size, total_size\0",
        },
    ];
    assert(r@ =~= spec_verbs());
    r
}

/// The class's entry in the class table, listing `verbs`: the class's own
/// table is `verbs()`.
pub fn class<'a>(verbs: &'a [Verb<'a>]) -> (r: Class<'a>)
    ensures
        r.id == ClassId::firmware,
        r.name@ == "firmware"@,
        r.docs@ == CLASS_DOCS@,
        r.verbs == verbs,
{
    Class { id: ClassId::firmware, name: "firmware", docs: CLASS_DOCS, verbs }
}

// - verb implementations -----------------------------------------------------

/// The response to `initialize`: the page size, then the total size, each
/// as a little-endian `u32`.
pub open spec fn spec_initialize_response() -> Seq<u8> {
    u32_le(8) + u32_le(1)
}

/// The response of a verb that takes one little-endian `u32` address and
/// answers `response`.
pub open spec fn spec_address_verb(arguments: Seq<u8>, response: Seq<u8>) -> Result<Seq<u8>, GreatError> {
    if arguments.len() == 4 {
        Ok(response)
    } else {
        Err(GreatError::GcpInvalidArguments)
    }
}

pub fn initialize(_arguments: &[u8]) -> (r: GreatResult<Vec<u8>>)
    ensures
        view_result(r) == Ok::<Seq<u8>, GreatError>(spec_initialize_response()),
{
    let page_size: u32 = 8;
    let total_size: u32 = 1;
    let mut response: Vec<u8> = Vec::new();
    push_u32_le(&mut response, page_size);
    push_u32_le(&mut response, total_size);
    Ok(response)
}

pub fn full_erase(_arguments: &[u8]) -> (r: GreatResult<Vec<u8>>)
    ensures
        view_result(r) == Ok::<Seq<u8>, GreatError>(Seq::empty()),
{
    Ok(Vec::new())
}

/// Takes exactly one little-endian `u32` address.
pub fn page_erase(arguments: &[u8]) -> (r: GreatResult<Vec<u8>>)
    ensures
        view_result(r) == spec_address_verb(arguments@, Seq::empty()),
{
    if arguments.len() != 4 {
        return Err(GreatError::GcpInvalidArguments);
    }
    Ok(Vec::new())
}

/// Takes a little-endian `u32` address followed by the page data.
pub fn write_page(arguments: &[u8]) -> (r: GreatResult<Vec<u8>>)
    ensures
        view_result(r) == (if arguments@.len() >= 4 {
            Ok::<Seq<u8>, GreatError>(Seq::empty())
        } else {
            Err(GreatError::GcpInvalidArguments)
        }),
{
    if arguments.len() < 4 {
        return Err(GreatError::GcpInvalidArguments);
    }
    Ok(Vec::new())
}

/// The page contents `read_page` answers: eight zero bytes.
pub open spec fn spec_page_data() -> Seq<u8> {
    seq![0u8, 0, 0, 0, 0, 0, 0, 0]
}

/// Takes exactly one little-endian `u32` address.
pub fn read_page(arguments: &[u8]) -> (r: GreatResult<Vec<u8>>)
    ensures
        view_result(r) == spec_address_verb(arguments@, spec_page_data()),
{
    if arguments.len() != 4 {
        return Err(GreatError::GcpInvalidArguments);
    }
    let data: Vec<u8> = vec![0x0, 0x0, 0x0, 0x0, 0x0, 0x0, 0x0, 0x0];
    assert(data@ =~= spec_page_data());
    Ok(data)
}

// - dispatch -----------------------------------------------------------------

/// The response to verb `verb_number` of the firmware class.
pub open spec fn spec_dispatch(verb_number: u32, arguments: Seq<u8>) -> Result<Seq<u8>, GreatError> {
    if verb_number == 0x0 {
        Ok(spec_initialize_response())
    } else if verb_number == 0x1 {
        Ok(Seq::empty())
    } else if verb_number == 0x2 {
        spec_address_verb(arguments, Seq::empty())
    } else if verb_number == 0x3 {
        if arguments.len() >= 4 {
            Ok(Seq::empty())
        } else {
            Err(GreatError::GcpInvalidArguments)
        }
    } else if verb_number == 0x4 {
        spec_address_verb(arguments, spec_page_data())
    } else {
        Err(GreatError::GcpVerbNotFound(ClassId::firmware, verb_number))
    }
}

/// Answers verb `verb_number` of the firmware class.
pub fn dispatch(verb_number: u32, arguments: &[u8]) -> (r: GreatResult<Vec<u8>>)
    ensures
        view_result(r) == spec_dispatch(verb_number, arguments@),
{
    match verb_number {
        0x0 => initialize(arguments),
        0x1 => full_erase(arguments),
        0x2 => page_erase(arguments),
        0x3 => write_page(arguments),
        0x4 => read_page(arguments),
        _ => Err(GreatError::GcpVerbNotFound(ClassId::firmware, verb_number)),
    }
}

} // verus!
