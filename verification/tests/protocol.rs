use oled_display::protocol::{blank_buffer, frame_write_sequence, init_sequence};
use oled_display::{CTRL_COMMAND, CTRL_DATA};

#[test]
fn init_sequence_matches_golden_order() {
    let golden: Vec<u8> = vec![
        0xAE, // display off
        0xD5, 0x80, // display clock divider
        0xA8, 0x1F, // multiplex ratio for 32 rows
        0xD3, 0x00, // display offset
        0x40, // start line 0
        0x8D, 0x14, // charge pump, switch-cap mode
        0x20, 0x00, // horizontal addressing mode
        0xA1, // segment remap enabled
        0xC8, // COM scan reversed
        0xDA, 0x02, // COM pin configuration
        0x81, 0x8F, // contrast
        0xD9, 0xF1, // pre-charge
        0xD8, 0x40, // VCOMH deselect level
        0xA4, // resume from RAM
        0xA6, // normal polarity
        0xAF, // display on
    ];
    let ws = init_sequence();
    assert_eq!(ws.len(), golden.len());
    for (i, w) in ws.iter().enumerate() {
        assert_eq!(w.control, CTRL_COMMAND);
        assert_eq!(w.bytes, vec![golden[i]]);
    }
}

#[test]
fn frame_transfer_addresses_then_chunks_in_order() {
    let mut buf: Vec<u8> = Vec::new();
    for i in 0..512 {
        buf.push((i % 251) as u8);
    }
    let ws = frame_write_sequence(&buf);
    assert_eq!(ws.len(), 6 + 32);
    let addressing: Vec<u8> = vec![0x21, 0x00, 0x7F, 0x22, 0x00, 0x03];
    for i in 0..6 {
        assert_eq!(ws[i].control, CTRL_COMMAND);
        assert_eq!(ws[i].bytes, vec![addressing[i]]);
    }
    for k in 0..32 {
        let w = &ws[6 + k];
        assert_eq!(w.control, CTRL_DATA);
        assert_eq!(w.bytes.len(), 16);
        assert_eq!(w.bytes, buf[16 * k..16 * k + 16].to_vec());
    }
}

#[test]
fn blank_buffer_is_512_zero_bytes() {
    let v = blank_buffer();
    assert_eq!(v.len(), 512);
    assert!(v.iter().all(|&b| b == 0x00));
}

#[test]
fn blank_frame_transfer_sends_only_zero_data() {
    let ws = frame_write_sequence(&blank_buffer());
    for w in ws.iter().skip(6) {
        assert_eq!(w.control, CTRL_DATA);
        assert!(w.bytes.iter().all(|&b| b == 0x00));
    }
}
