//! Core API used to query information about the device, and perform a
//! few standard functions.

use vstd::prelude::*;

use crate::gcp::{ClassId, Command};

verus! {

/// Core API used to query information about the device, and perform a
/// few standard functions.
#[derive(Debug, PartialEq, Eq, Copy, Clone, Structural)]
#[allow(non_camel_case_types)]
pub enum Core {
    // - board information --
    /// Return the board id
    read_board_id,
    /// Return the board version string
    read_version_string,
    /// Return the board's processor id ?
    read_part_id,
    /// Return the board's serial number ?
    read_serial_number,
    // - api introspection --
    /// Return the list of classes supported by the board.
    get_available_classes,
    /// Return the list of verbs supported by the given class.
    get_available_verbs,
    /// Return the name of the given verb.
    get_verb_name,
    /// Return the descriptor for the given verb and descriptor id.
    get_verb_descriptor,
    /// Return the name of the given class.
    get_class_name,
    /// Return the documentation for the given class.
    get_class_docs,
    /// Unsupported verb
    reserved(u32),
}

/// The core verb numbered `verb`.
pub open spec fn spec_core_verb(verb: u32) -> Core {
    if verb == 0x0 {
        Core::read_board_id
    } else if verb == 0x1 {
        Core::read_version_string
    } else if verb == 0x2 {
        Core::read_part_id
    } else if verb == 0x3 {
        Core::read_serial_number
    } else if verb == 0x4 {
        Core::get_available_classes
    } else if verb == 0x5 {
        Core::get_available_verbs
    } else if verb == 0x6 {
        Core::get_verb_name
    } else if verb == 0x7 {
        Core::get_verb_descriptor
    } else if verb == 0x8 {
        Core::get_class_name
    } else if verb == 0x9 {
        Core::get_class_docs
    } else {
        Core::reserved(verb)
    }
}

impl Core {
    pub fn from(verb: u32) -> (r: Core)
        ensures
            r == spec_core_verb(verb),
    {
        match verb {
            0x0 => Core::read_board_id,
            0x1 => Core::read_version_string,
            0x2 => Core::read_part_id,
            0x3 => Core::read_serial_number,
            0x4 => Core::get_available_classes,
            0x5 => Core::get_available_verbs,
            0x6 => Core::get_verb_name,
            0x7 => Core::get_verb_descriptor,
            0x8 => Core::get_class_name,
            0x9 => Core::get_class_docs,
            _ => Core::reserved(verb),
        }
    }
}

/// The board id.
pub open spec fn spec_board_id() -> Seq<u8> {
    seq![0x00u8, 0x00, 0x00, 0x00]
}

/// The board version string, NUL-terminated.
pub open spec fn spec_version_string() -> Seq<u8> {
    seq![0x76u8, 0x32, 0x30, 0x32, 0x31, 0x2e, 0x32, 0x2e, 0x31, 0x00]
}

/// The board part id.
pub open spec fn spec_part_id() -> Seq<u8> {
    seq![0x30u8, 0x0a, 0x00, 0xa0, 0x5e, 0x4f, 0x60, 0x00]
}

/// The board serial number.
pub open spec fn spec_serial_number() -> Seq<u8> {
    seq![
        0x00u8, 0x00, 0x00, 0x00, 0x00, 0x00, 0x00, 0x00,
        0xe6, 0x67, 0xcc, 0x57, 0x57, 0x53, 0x6f, 0x30,
    ]
}

/// The response to a core verb; verbs without an implementation answer
/// nothing.
pub open spec fn spec_core_response(verb: Core) -> Seq<u8> {
    match verb {
        Core::read_board_id => spec_board_id(),
        Core::read_version_string => spec_version_string(),
        Core::read_part_id => spec_part_id(),
        Core::read_serial_number => spec_serial_number(),
        _ => Seq::empty(),
    }
}

/// Dispatch
pub struct Dispatch {}

impl Dispatch {
    pub fn new() -> Self {
        Self {}
    }

    /// Answers a command of the core class.
    pub fn dispatch(&self, command: Command) -> (r: Vec<u8>)
        ensures
            r@ == spec_core_response(spec_core_verb(command.prelude.verb)),
    {
        let verb = Core::from(command.prelude.verb);
        match verb {
            Core::read_board_id => read_board_id(),
            Core::read_version_string => read_version_string(),
            Core::read_part_id => read_part_id(),
            Core::read_serial_number => read_serial_number(),
            Core::get_available_verbs => get_available_verbs(command.arguments),
            Core::get_verb_name => get_verb_name(command.arguments),
            Core::get_verb_descriptor => get_verb_descriptor(command.arguments),
            Core::get_class_name => get_class_name(command.arguments),
            Core::get_class_docs => get_class_docs(command.arguments),
            _ => Vec::new(),
        }
    }

    /// Answers a verb of the core class.
    pub fn handle(&self, _class: ClassId, verb: Core) -> (r: Vec<u8>)
        ensures
            r@ == spec_core_response(verb),
    {
        match verb {
            Core::read_board_id => read_board_id(),
            Core::read_version_string => read_version_string(),
            Core::read_part_id => read_part_id(),
            Core::read_serial_number => read_serial_number(),
            _ => Vec::new(),
        }
    }
}

// - verb implementations: api ------------------------------------------------

pub fn get_available_classes(_arguments: &[u8]) -> (r: Vec<u8>)
    ensures
        r@.len() == 0,
{
    Vec::new()
}

pub fn get_class_name(_arguments: &[u8]) -> (r: Vec<u8>)
    ensures
        r@.len() == 0,
{
    Vec::new()
}

pub fn get_class_docs(_arguments: &[u8]) -> (r: Vec<u8>)
    ensures
        r@.len() == 0,
{
    Vec::new()
}

pub fn get_available_verbs(_arguments: &[u8]) -> (r: Vec<u8>)
    ensures
        r@.len() == 0,
{
    Vec::new()
}

pub fn get_verb_name(_arguments: &[u8]) -> (r: Vec<u8>)
    ensures
        r@.len() == 0,
{
    Vec::new()
}

pub fn get_verb_descriptor(_arguments: &[u8]) -> (r: Vec<u8>)
    ensures
        r@.len() == 0,
{
    Vec::new()
}

// - verb implementations: board ----------------------------------------------

pub fn read_board_id() -> (r: Vec<u8>)
    ensures
        r@ == spec_board_id(),
{
    let r = vec![0x00, 0x00, 0x00, 0x00];
    assert(r@ =~= spec_board_id());
    r
}

pub fn read_version_string() -> (r: Vec<u8>)
    ensures
        r@ == spec_version_string(),
{
    let r = vec![0x76, 0x32, 0x30, 0x32, 0x31, 0x2e, 0x32, 0x2e, 0x31, 0x00];
    assert(r@ =~= spec_version_string());
    r
}

pub fn read_part_id() -> (r: Vec<u8>)
    ensures
        r@ == spec_part_id(),
{
    let r = vec![0x30, 0x0a, 0x00, 0xa0, 0x5e, 0x4f, 0x60, 0x00];
    assert(r@ =~= spec_part_id());
    r
}

pub fn read_serial_number() -> (r: Vec<u8>)
    ensures
        r@ == spec_serial_number(),
{
    let r = vec![
        0x00, 0x00, 0x00, 0x00, 0x00, 0x00, 0x00, 0x00,
        0xe6, 0x67, 0xcc, 0x57, 0x57, 0x53, 0x6f, 0x30,
    ];
    assert(r@ =~= spec_serial_number());
    r
}

} // verus!
