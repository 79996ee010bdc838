//! Information a board reports about itself.

use vstd::prelude::*;

verus! {

// - BoardInfo ----------------------------------------------------------------

/// BoardInformation
#[derive(Clone, Copy)]
pub struct BoardInformation<'a> {
    pub board_id: [u8; 4],
    pub version_string: &'a str,
    pub part_id: [u8; 8],
    pub serial_number: [u8; 16],
}

/// What the Cynthion firmware reports about the board.
pub fn board_information() -> (r: BoardInformation<'static>)
    ensures
        r.board_id@ == seq![0x00u8, 0x00, 0x00, 0x00],
        r.version_string@ == "v2023.0.1\0"@,
        r.part_id@ == seq![0x30u8, 0xa, 0x00, 0xa0, 0x5e, 0x4f, 0x60, 0x00],
        r.serial_number@ == seq![
            0x00u8, 0x00, 0x00, 0x00, 0x00, 0x00, 0x00, 0x00,
            0xe6, 0x67, 0xcc, 0x57, 0x57, 0x53, 0x6f, 0x30,
        ],
{
    let r = BoardInformation {
        board_id: [0x00, 0x00, 0x00, 0x00],
        version_string: "v2023.0.1\0",
        part_id: [0x30, 0xa, 0x00, 0xa0, 0x5e, 0x4f, 0x60, 0x00],
        serial_number: [
            0x00, 0x00, 0x00, 0x00, 0x00, 0x00, 0x00, 0x00,
            0xe6, 0x67, 0xcc, 0x57, 0x57, 0x53, 0x6f, 0x30,
        ],
    };
    assert(r.board_id@ =~= seq![0x00u8, 0x00, 0x00, 0x00]);
    assert(r.part_id@ =~= seq![0x30u8, 0xa, 0x00, 0xa0, 0x5e, 0x4f, 0x60, 0x00]);
    assert(r.serial_number@ =~= seq![
        0x00u8, 0x00, 0x00, 0x00, 0x00, 0x00, 0x00, 0x00,
        0xe6, 0x67, 0xcc, 0x57, 0x57, 0x53, 0x6f, 0x30,
    ]);
    r
}

} // verus!
