//! The controller's command protocol: named command bytes, the fixed
//! initialization sequence, and the addressing-and-chunking write plan
//! that streams a packed frame buffer into display memory.
use vstd::prelude::*;
use crate::{CTRL_COMMAND, CTRL_DATA, BUFFER_LEN, CHUNK_LEN, WIDTH, PAGES};

verus! {

/// Enter display-off state.
pub const CMD_DISPLAY_OFF: u8 = 0xAE;

/// Program the display clock divider; takes one parameter byte.
pub const CMD_SET_DISPLAY_CLOCK_DIV: u8 = 0xD5;

/// Set the multiplex ratio; takes one parameter byte.
pub const CMD_SET_MULTIPLEX: u8 = 0xA8;

/// Set the vertical display offset; takes one parameter byte.
pub const CMD_SET_DISPLAY_OFFSET: u8 = 0xD3;

/// Set the display start line to line 0.
pub const CMD_SET_START_LINE: u8 = 0x40;

/// Configure the charge pump; takes one parameter byte.
pub const CMD_CHARGE_PUMP: u8 = 0x8D;

/// Select the memory addressing mode; takes one parameter byte.
pub const CMD_MEMORY_MODE: u8 = 0x20;

/// Segment remap command with the remap bit set (mirrors the horizontal
/// axis); the base command byte is 0xA0 and its low bit enables the remap.
pub const CMD_SEG_REMAP_ON: u8 = 0xA1;

/// Scan the COM outputs in reverse (decreasing) order.
pub const CMD_COM_SCAN_DEC: u8 = 0xC8;

/// Configure the COM pin layout; takes one parameter byte.
pub const CMD_SET_COM_PINS: u8 = 0xDA;

/// Set the display contrast; takes one parameter byte.
pub const CMD_SET_CONTRAST: u8 = 0x81;

/// Set the pre-charge period; takes one parameter byte.
pub const CMD_SET_PRECHARGE: u8 = 0xD9;

/// Set the VCOMH deselect level; takes one parameter byte.
pub const CMD_SET_VCOM_DETECT: u8 = 0xD8;

/// Resume display from RAM contents (disable the all-pixels-on override).
pub const CMD_DISPLAY_ALL_ON_RESUME: u8 = 0xA4;

/// Normal (non-inverted) display polarity.
pub const CMD_NORMAL_DISPLAY: u8 = 0xA6;

/// Enable display output.
pub const CMD_DISPLAY_ON: u8 = 0xAF;

/// Set the column address window; takes start and end parameter bytes.
pub const CMD_COLUMN_ADDR: u8 = 0x21;

/// Set the page address window; takes start and end parameter bytes.
pub const CMD_PAGE_ADDR: u8 = 0x22;

/// Number of single-byte command writes in the initialization sequence.
pub const INIT_WRITE_COUNT: usize = 25;

/// Number of single-byte command writes that open the addressing window
/// before a frame transfer.
pub const ADDRESS_WRITE_COUNT: usize = 6;

/// Number of pixel-data writes per frame transfer.
pub const DATA_CHUNK_COUNT: usize = 32;

/// One register write on the bus: a control byte that tags the write as a
/// command or as pixel data, and the payload bytes sent with it.
pub struct BusWrite {
    pub control: u8,
    pub bytes: Vec<u8>,
}

impl BusWrite {
    /// A command-tagged write carrying a single command or parameter byte.
    pub open spec fn is_command_byte(self, b: u8) -> bool {
        &&& self.control == CTRL_COMMAND
        &&& self.bytes@ == seq![b]
    }
}

/// The byte carried by the `i`th command write of the initialization
/// sequence: each command that takes a parameter is followed immediately
/// by that parameter as its own command-tagged write.
pub open spec fn init_byte(i: int) -> u8 {
    if i == 0 { CMD_DISPLAY_OFF }
    else if i == 1 { CMD_SET_DISPLAY_CLOCK_DIV }
    else if i == 2 { 0x80 }
    else if i == 3 { CMD_SET_MULTIPLEX }
    else if i == 4 { 0x1F }
    else if i == 5 { CMD_SET_DISPLAY_OFFSET }
    else if i == 6 { 0x00 }
    else if i == 7 { CMD_SET_START_LINE }
    else if i == 8 { CMD_CHARGE_PUMP }
    else if i == 9 { 0x14 }
    else if i == 10 { CMD_MEMORY_MODE }
    else if i == 11 { 0x00 }
    else if i == 12 { CMD_SEG_REMAP_ON }
    else if i == 13 { CMD_COM_SCAN_DEC }
    else if i == 14 { CMD_SET_COM_PINS }
    else if i == 15 { 0x02 }
    else if i == 16 { CMD_SET_CONTRAST }
    else if i == 17 { 0x8F }
    else if i == 18 { CMD_SET_PRECHARGE }
    else if i == 19 { 0xF1 }
    else if i == 20 { CMD_SET_VCOM_DETECT }
    else if i == 21 { 0x40 }
    else if i == 22 { CMD_DISPLAY_ALL_ON_RESUME }
    else if i == 23 { CMD_NORMAL_DISPLAY }
    else { CMD_DISPLAY_ON }
}

/// The byte carried by the `i`th command write that opens the addressing
/// window: full column range 0..=127, then full page range 0..=3.
pub open spec fn address_byte(i: int) -> u8 {
    if i == 0 { CMD_COLUMN_ADDR }
    else if i == 1 { 0x00 }
    else if i == 2 { (WIDTH - 1) as u8 }
    else if i == 3 { CMD_PAGE_ADDR }
    else if i == 4 { 0x00 }
    else { (PAGES - 1) as u8 }
}

fn command_write(b: u8) -> (w: BusWrite)
    ensures
        w.is_command_byte(b),
{
    let mut bytes: Vec<u8> = Vec::new();
    bytes.push(b);
    BusWrite { control: CTRL_COMMAND, bytes }
}

fn init_byte_at(i: usize) -> (b: u8)
    requires
        i < INIT_WRITE_COUNT,
    ensures
        b == init_byte(i as int),
{
    if i == 0 { CMD_DISPLAY_OFF }
    else if i == 1 { CMD_SET_DISPLAY_CLOCK_DIV }
    else if i == 2 { 0x80 }
    else if i == 3 { CMD_SET_MULTIPLEX }
    else if i == 4 { 0x1F }
    else if i == 5 { CMD_SET_DISPLAY_OFFSET }
    else if i == 6 { 0x00 }
    else if i == 7 { CMD_SET_START_LINE }
    else if i == 8 { CMD_CHARGE_PUMP }
    else if i == 9 { 0x14 }
    else if i == 10 { CMD_MEMORY_MODE }
    else if i == 11 { 0x00 }
    else if i == 12 { CMD_SEG_REMAP_ON }
    else if i == 13 { CMD_COM_SCAN_DEC }
    else if i == 14 { CMD_SET_COM_PINS }
    else if i == 15 { 0x02 }
    else if i == 16 { CMD_SET_CONTRAST }
    else if i == 17 { 0x8F }
    else if i == 18 { CMD_SET_PRECHARGE }
    else if i == 19 { 0xF1 }
    else if i == 20 { CMD_SET_VCOM_DETECT }
    else if i == 21 { 0x40 }
    else if i == 22 { CMD_DISPLAY_ALL_ON_RESUME }
    else if i == 23 { CMD_NORMAL_DISPLAY }
    else { CMD_DISPLAY_ON }
}

fn address_byte_at(i: usize) -> (b: u8)
    requires
        i < ADDRESS_WRITE_COUNT,
    ensures
        b == address_byte(i as int),
{
    if i == 0 { CMD_COLUMN_ADDR }
    else if i == 1 { 0x00 }
    else if i == 2 { (WIDTH - 1) as u8 }
    else if i == 3 { CMD_PAGE_ADDR }
    else if i == 4 { 0x00 }
    else { (PAGES - 1) as u8 }
}

/// The fixed ordered command sequence that brings the controller from an
/// unknown power-on state into its operational mode. Every write is
/// command-tagged and carries exactly one byte, in the golden order given
/// by `init_byte`; reordering or omitting a byte corrupts the controller
/// configuration, so the order is pinned write by write.
pub fn init_sequence() -> (ws: Vec<BusWrite>)
    ensures
        ws@.len() == INIT_WRITE_COUNT,
        forall|i: int| 0 <= i < INIT_WRITE_COUNT ==>
            (#[trigger] ws@[i]).is_command_byte(init_byte(i)),
{
    let mut ws: Vec<BusWrite> = Vec::new();
    let mut i: usize = 0;
    while i < INIT_WRITE_COUNT
        invariant
            i <= INIT_WRITE_COUNT,
            ws@.len() == i,
            forall|j: int| 0 <= j < i ==> (#[trigger] ws@[j]).is_command_byte(init_byte(j)),
        decreases INIT_WRITE_COUNT - i,
    {
        let b = init_byte_at(i);
        ws.push(command_write(b));
        i = i + 1;
    }
    ws
}

/// The write plan that pushes a packed 512-byte frame buffer into display
/// memory: six command writes open the full column and page addressing
/// window, then the buffer follows as 32 data-tagged writes of 16 bytes
/// each, in ascending buffer order.
pub fn frame_write_sequence(buf: &Vec<u8>) -> (ws: Vec<BusWrite>)
    requires
        buf@.len() == BUFFER_LEN,
    ensures
        ws@.len() == ADDRESS_WRITE_COUNT + DATA_CHUNK_COUNT,
        forall|i: int| 0 <= i < ADDRESS_WRITE_COUNT ==>
            (#[trigger] ws@[i]).is_command_byte(address_byte(i)),
        forall|i: int| ADDRESS_WRITE_COUNT <= i < ADDRESS_WRITE_COUNT + DATA_CHUNK_COUNT ==> {
            &&& (#[trigger] ws@[i]).control == CTRL_DATA
            &&& ws@[i].bytes@ == buf@.subrange(
                    CHUNK_LEN * (i - ADDRESS_WRITE_COUNT),
                    CHUNK_LEN * (i - ADDRESS_WRITE_COUNT) + CHUNK_LEN,
                )
        },
{
    let mut ws: Vec<BusWrite> = Vec::new();
    let mut i: usize = 0;
    while i < ADDRESS_WRITE_COUNT
        invariant
            i <= ADDRESS_WRITE_COUNT,
            ws@.len() == i,
            forall|j: int| 0 <= j < i ==> (#[trigger] ws@[j]).is_command_byte(address_byte(j)),
        decreases ADDRESS_WRITE_COUNT - i,
    {
        let b = address_byte_at(i);
        ws.push(command_write(b));
        i = i + 1;
    }
    let mut k: usize = 0;
    while k < DATA_CHUNK_COUNT
        invariant
            buf@.len() == BUFFER_LEN,
            k <= DATA_CHUNK_COUNT,
            ws@.len() == ADDRESS_WRITE_COUNT + k,
            forall|j: int| 0 <= j < ADDRESS_WRITE_COUNT ==>
                (#[trigger] ws@[j]).is_command_byte(address_byte(j)),
            forall|j: int| ADDRESS_WRITE_COUNT <= j < ADDRESS_WRITE_COUNT + k ==> {
                &&& (#[trigger] ws@[j]).control == CTRL_DATA
                &&& ws@[j].bytes@ == buf@.subrange(
                        CHUNK_LEN * (j - ADDRESS_WRITE_COUNT),
                        CHUNK_LEN * (j - ADDRESS_WRITE_COUNT) + CHUNK_LEN,
                    )
            },
        decreases DATA_CHUNK_COUNT - k,
    {
        let start = CHUNK_LEN * k;
        let mut chunk: Vec<u8> = Vec::new();
        let mut j: usize = 0;
        while j < CHUNK_LEN
            invariant
                buf@.len() == BUFFER_LEN,
                k < DATA_CHUNK_COUNT,
                start == CHUNK_LEN * k,
                j <= CHUNK_LEN,
                chunk@ == buf@.subrange(start as int, start + j),
            decreases CHUNK_LEN - j,
        {
            chunk.push(buf[start + j]);
            proof {
                assert(chunk@ =~= buf@.subrange(start as int, start + j + 1));
            }
            j = j + 1;
        }
        ws.push(BusWrite { control: CTRL_DATA, bytes: chunk });
        k = k + 1;
    }
    ws
}

/// A zero-filled screen buffer; sending it blanks every pixel of the
/// display before any image is loaded.
pub fn blank_buffer() -> (v: Vec<u8>)
    ensures
        v@.len() == BUFFER_LEN,
        forall|i: int| 0 <= i < BUFFER_LEN ==> v@[i] == 0u8,
{
    let mut v: Vec<u8> = Vec::new();
    let mut i: usize = 0;
    while i < BUFFER_LEN
        invariant
            i <= BUFFER_LEN,
            v@.len() == i,
            forall|j: int| 0 <= j < i ==> v@[j] == 0u8,
        decreases BUFFER_LEN - i,
    {
        v.push(0u8);
        i = i + 1;
    }
    v
}

} // verus!
