use cynthion::firmware::BoardInformation;
use cynthion::gcp::class::class_core::{Core as CoreVerb, Dispatch};
use cynthion::gcp::class_core;
use cynthion::gcp::{Class, ClassId, Classes, Command, CommandPrelude, VerbDescriptor};
use cynthion::error::GreatError;

use std::any::Any;

// - fixtures -----------------------------------------------------------------

const COMMAND_NO_ARGS: [u8; 8] = [
    0x01, 0x00, 0x00, 0x00, // class = 1
    0x02, 0x00, 0x00, 0x00, // verb = 2
];
const COMMAND_READ_BOARD_ID: [u8; 8] = [
    0x00, 0x00, 0x00, 0x00, // class = 0 (core)
    0x00, 0x00, 0x00, 0x00, // verb = 0 (read_board_id)
];
const COMMAND_GET_CLASS_NAME: [u8; 12] = [
    0x00, 0x00, 0x00, 0x00, // class = 0 (core)
    0x08, 0x00, 0x00, 0x00, // verb = 8 (get_class_name)
    0x01, 0x00, 0x00, 0x00, // arg0: class_number = 1
];
const COMMAND_GET_VERB_DESCRIPTOR: [u8; 17] = [
    0x00, 0x00, 0x00, 0x00, // class = 0 (core)
    0x07, 0x00, 0x00, 0x00, // verb = 7 (get_verb_descriptor)
    0x01, 0x00, 0x00, 0x00, // arg0: class_number = 1
    0x00, 0x00, 0x00, 0x00, // arg1: verb_number = 0
    0x01, // arg2: descriptor = 1 (in_signature)
];

// - test_parse_* --

#[test]
fn test_parse_as_bytes() {
    let prelude: CommandPrelude = CommandPrelude { class: 1, verb: 2 };
    let bytes = prelude.as_bytes();
    println!("test_as_bytes: {:?}", bytes);

    assert_eq!(bytes, [0x01, 0x00, 0x00, 0x00, 0x02, 0x00, 0x00, 0x00]);
}

#[test]
fn test_parse_from_bytes_no_args() {
    let prelude: CommandPrelude =
        CommandPrelude::read_from(&COMMAND_NO_ARGS[..]).expect("failed parsing command");
    println!("test_from_bytes: {:?}", prelude);

    assert_eq!(prelude.class, 1);
    assert_eq!(prelude.verb, 2);
}

#[test]
fn test_parse_no_args() {
    let command = Command::parse(&COMMAND_NO_ARGS[..]).expect("failed parsing command");
    println!("test_parse_no_args: {:?}", command);

    assert_eq!(command.prelude.class, 1);
    assert_eq!(command.prelude.verb, 2);
}

#[test]
fn test_parse_get_class_name() {
    let command = Command::parse(&COMMAND_GET_CLASS_NAME[..]).expect("failed parsing command");
    println!("test_parse_get_class_name: {:?}", command);

    assert_eq!(command.prelude.class, 0);
    assert_eq!(command.prelude.verb, 8);
}

#[test]
fn test_parse_get_verb_descriptor() {
    let command =
        Command::parse(&COMMAND_GET_VERB_DESCRIPTOR[..]).expect("failed parsing command");
    println!("test_parse_get_verb_descriptor: {:?}", command);

    assert_eq!(command.prelude.class, 0);
    assert_eq!(command.prelude.verb, 7);
}

// - test_dispatch_* --

#[test]
fn test_dispatch_read_board_id() {
    let command = Command::parse(&COMMAND_READ_BOARD_ID[..]).expect("failed parsing command");
    println!("\ntest_dispatch_read_board_id: {:?}", command);

    let dispatch = Dispatch::new();
    let response = dispatch.dispatch(command);
    println!("  -> {:?}", response);

    assert_eq!(response.as_slice(), [0, 0, 0, 0]);
}

#[test]
fn test_dispatch_get_verb_descriptor() {
    let command =
        Command::parse(&COMMAND_GET_VERB_DESCRIPTOR[..]).expect("failed parsing command");
    println!("\ntest_dispatch_get_verb_descriptor: {:?}", command);

    let context: (u32, u32, u32) = (23, 42, 12);
    let dispatch = Dispatch::new();
    let response = dispatch.dispatch(command);
    println!("  -> {:?}", response);
    println!("  -> {:?}", context);

    let command =
        Command::parse(&COMMAND_GET_VERB_DESCRIPTOR[..]).expect("failed parsing command");
    let dispatch = Dispatch::new();
    let response = dispatch.dispatch(command);
    println!("  -> {:?}", response);
    println!("  -> {:?}", context);
}

// - figure out introspection --

#[test]
fn test_introspection() {
    let core_verbs = class_core::verbs();
    let registry = [
        Class { id: ClassId::Core, name: "core\0", docs: class_core::CLASS_DOCS, verbs: &core_verbs },
        Class { id: ClassId::firmware, name: "firmware\0", docs: "\0", verbs: &[] },
        Class { id: ClassId::gpio, name: "gpio\0", docs: "\0", verbs: &[] },
    ];
    let classes = Classes(&registry);

    let available = class_core::get_available_classes(&[], &classes).unwrap();
    for class in available.iter() {
        println!("class: {}", class);
    }
    assert_eq!(available, [0, 0, 0, 0, 1, 0, 0, 0, 0x03, 0x01, 0, 0]);

    let verbs = class_core::get_available_verbs(&[0, 0, 0, 0], &classes).unwrap();
    for verb in verbs.iter() {
        println!("verb: {}", verb);
    }
    let mut expected = Vec::new();
    for id in 0u32..10 {
        expected.extend_from_slice(&id.to_le_bytes());
    }
    assert_eq!(verbs, expected);
}

// - test_any --

#[derive(Debug, Clone, Copy)]
struct State {
    value: u32,
}

struct Device {}

impl Device {
    fn new() -> Self {
        Self {}
    }

    fn handle_setup<'a>(&self, some_state: &'a mut dyn Any) -> Option<&'a mut dyn Any> {
        if let Some(state) = some_state.downcast_mut::<State>() {
            println!("handle_setup() state: {:?}", state);
            state.value = 42;
            return Some(some_state);
        }
        Some(some_state)
    }
}

#[test]
fn test_any() {
    let device = Device::new();
    let mut my_state = State { value: 23 };
    println!("my_state: {:?}", my_state);

    let any_state: Option<&mut dyn Any> = device.handle_setup(&mut my_state);
    let any_state = any_state.unwrap();
    println!("any_state: {:?}", any_state);

    if let Some(my_state) = any_state.downcast_mut::<State>() {
        println!("&mut my_state: {:?}", my_state);
    }

    println!("my_state: {:?}", my_state);

    assert_eq!(true, true);
}

// - core class ---------------------------------------------------------------

fn board_information() -> BoardInformation<'static> {
    BoardInformation {
        board_id: [0x00, 0x00, 0x00, 0x00],
        version_string: "v2023.0.1\0",
        part_id: [0x30, 0xa, 0x00, 0xa0, 0x5e, 0x4f, 0x60, 0x00],
        serial_number: [
            0x00, 0x00, 0x00, 0x00, 0x00, 0x00, 0x00, 0x00, 0xe6, 0x67, 0xcc, 0x57, 0x57, 0x53,
            0x6f, 0x30,
        ],
    }
}

#[test]
fn test_core_reads_board_information() {
    let info = board_information();
    let core_verbs = class_core::verbs();
    let registry = [Class { id: ClassId::Core, name: "core\0", docs: class_core::CLASS_DOCS, verbs: &core_verbs }];
    let core = class_core::Core::new(Classes(&registry), info);

    assert_eq!(core.dispatch(0, &[]).unwrap(), [0, 0, 0, 0]);
    assert_eq!(core.dispatch(1, &[]).unwrap(), b"v2023.0.1\0");
    assert_eq!(core.dispatch(2, &[]).unwrap(), [0x30, 0xa, 0x00, 0xa0, 0x5e, 0x4f, 0x60, 0x00]);
    assert_eq!(core.dispatch(3, &[]).unwrap(), info.serial_number);
    assert_eq!(core.dispatch(4, &[]).unwrap(), [0, 0, 0, 0]);
    assert_eq!(core.dispatch(10, &[]), Err(GreatError::GcpVerbNotFound(ClassId::Core, 10)));
}

#[test]
fn test_core_introspection_errors() {
    let core_verbs = class_core::verbs();
    let registry = [Class { id: ClassId::Core, name: "core\0", docs: class_core::CLASS_DOCS, verbs: &core_verbs }];
    let classes = Classes(&registry);

    // wrong argument lengths
    assert_eq!(class_core::get_available_verbs(&[0, 0, 0], &classes), Err(GreatError::GcpInvalidArguments));
    assert_eq!(class_core::get_verb_name(&[0, 0, 0, 0], &classes), Err(GreatError::GcpInvalidArguments));
    assert_eq!(class_core::get_verb_descriptor(&[0; 8], &classes), Err(GreatError::GcpInvalidArguments));
    assert_eq!(class_core::get_class_name(&[], &classes), Err(GreatError::GcpInvalidArguments));
    assert_eq!(class_core::get_class_docs(&[0; 5], &classes), Err(GreatError::GcpInvalidArguments));

    // unknown class, unknown verb, unknown descriptor
    assert_eq!(class_core::get_class_name(&[1, 0, 0, 0], &classes), Err(GreatError::GcpClassNotFound));
    assert_eq!(class_core::get_verb_name(&[0, 0, 0, 0, 42, 0, 0, 0], &classes), Err(GreatError::GcpVerbNotFound(ClassId::Core, 42)));
    assert_eq!(
        class_core::get_verb_descriptor(&[0, 0, 0, 0, 5, 0, 0, 0, 9], &classes),
        Err(GreatError::GcpUnknownVerbDescriptor)
    );
}

#[test]
fn test_core_introspection_answers() {
    let core_verbs = class_core::verbs();
    let registry = [Class { id: ClassId::Core, name: "core\0", docs: class_core::CLASS_DOCS, verbs: &core_verbs }];
    let classes = Classes(&registry);

    assert_eq!(class_core::get_class_name(&[0, 0, 0, 0], &classes).unwrap(), b"core\0");
    assert_eq!(class_core::get_class_docs(&[0, 0, 0, 0], &classes).unwrap(), b"Core API\0");
    assert_eq!(class_core::get_verb_name(&[0, 0, 0, 0, 6, 0, 0, 0], &classes).unwrap(), b"get_verb_name\0");
    // descriptor 1: in_signature of get_available_verbs
    assert_eq!(class_core::get_verb_descriptor(&[0, 0, 0, 0, 5, 0, 0, 0, 1], &classes).unwrap(), b"<I\0");
    // descriptor 4: in_param_names
    assert_eq!(
        class_core::get_verb_descriptor(&[0, 0, 0, 0, 7, 0, 0, 0, 4], &classes).unwrap(),
        b"class_number, verb_number, descriptor_number\0"
    );
    // descriptor 2: doc
    assert_eq!(
        class_core::get_verb_descriptor(&[0, 0, 0, 0, 0, 0, 0, 0, 2], &classes).unwrap(),
        b"Return the board id.\0"
    );
}

#[test]
fn test_prelude_round_trip() {
    let prelude = CommandPrelude { class: 0x0104, verb: 0xdeadbeef };
    let mut bytes = prelude.as_bytes();
    bytes.extend_from_slice(&[1, 2, 3]);
    let command = Command::parse(&bytes).unwrap();
    assert_eq!(command.prelude, prelude);
    assert_eq!(command.arguments, &[1, 2, 3]);
    assert_eq!(command.class(), ClassId::greatdancer);
    assert!(Command::parse(&bytes[..7]).is_none());
    assert!(CommandPrelude::read_from(&bytes[..9]).is_none());
}

#[test]
fn test_class_ids() {
    assert_eq!(ClassId::from(0x0000), ClassId::Core);
    assert_eq!(ClassId::from(0x0001), ClassId::firmware);
    assert_eq!(ClassId::from(0x0103), ClassId::gpio);
    assert_eq!(ClassId::from(0x0104), ClassId::greatdancer);
    assert_eq!(ClassId::from(0x0120), ClassId::moondancer);
    assert_eq!(ClassId::from(0x0200), ClassId::unsupported(0x0200));
    assert_eq!(ClassId::greatdancer.into_u32(), 0x0104);
    assert_eq!(ClassId::unsupported(7).into_u32(), 7);
    assert_eq!(VerbDescriptor::from(3), VerbDescriptor::OutParamNames);
    assert_eq!(VerbDescriptor::from(9), VerbDescriptor::Unknown(9));
}

#[test]
fn test_class_core_dispatch_and_handle() {
    let dispatch = Dispatch::new();
    assert_eq!(dispatch.handle(ClassId::Core, CoreVerb::read_version_string), b"v2021.2.1\0");
    assert_eq!(dispatch.handle(ClassId::Core, CoreVerb::get_class_docs), Vec::<u8>::new());
    assert_eq!(CoreVerb::from(0x20), CoreVerb::reserved(0x20));
    let command = Command::parse(&[0, 0, 0, 0, 3, 0, 0, 0]).unwrap();
    assert_eq!(
        dispatch.dispatch(command),
        [0, 0, 0, 0, 0, 0, 0, 0, 0xe6, 0x67, 0xcc, 0x57, 0x57, 0x53, 0x6f, 0x30]
    );
}
