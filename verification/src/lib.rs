//! Logic for driving a 128x32 monochrome OLED panel over an I2C bus:
//! the controller's fixed initialization command sequence, the conversion
//! of a 24-bit RGB image into the controller's page-packed 1-bit frame
//! buffer, and the addressing-and-chunking plan for streaming a frame.
//!
//! The bus transport itself is not here: every operation is described as
//! a list of tagged register writes that a caller performs in order,
//! aborting on the first failure.
use vstd::prelude::*;

pub mod encoder;
pub mod protocol;

verus! {

/// Control byte tagging a bus write as a command write.
pub const CTRL_COMMAND: u8 = 0x00;

/// Control byte tagging a bus write as a pixel-data write.
pub const CTRL_DATA: u8 = 0x40;

/// Fixed 7-bit bus address of the display controller.
pub const DEVICE_ADDRESS: u16 = 0x3C;

/// Display width in pixels; also the number of bytes per page.
pub const WIDTH: usize = 128;

/// Display height in pixels.
pub const HEIGHT: usize = 32;

/// Number of 8-row pages the display memory is organized in.
pub const PAGES: usize = 4;

/// Length of a packed screen buffer: one byte per page and column.
pub const BUFFER_LEN: usize = 512;

/// Each pixel-data write carries this many buffer bytes.
pub const CHUNK_LEN: usize = 16;

/// One vertical strip of a page covers this many rows.
pub const ROWS_PER_PAGE: usize = 8;

} // verus!
