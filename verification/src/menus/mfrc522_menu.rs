//! The menu of the RFID reader: read a tag into the buffer, write the
//! buffer to a tag, or clear the buffer.
//!
//! Opening the SPI device and talking to the reader happen outside the
//! library; the menu holds only the cursor and the one-byte buffer.

use crate::nav::MenuState;
use crate::nav::SelectionState;
use vstd::prelude::*;

verus! {

/// The operations the RFID menu offers, in display order.
#[derive(Clone, Copy, Debug, PartialEq, Eq, Structural)]
pub enum Mfrc522Options {
    Read,
    Write,
    Clear,
}

/// How many operations the RFID menu shows.
pub const MFRC522_MENU_LEN: usize = 3;

/// The RFID reader menu; it opens with the first entry selected.
#[derive(Debug)]
pub struct Mfrc522Menu {
    pub state: SelectionState,
    pub buffer: Option<u8>,
}

impl Mfrc522Menu {
    pub fn new() -> (r: Mfrc522Menu)
        ensures
            r.state.selected == Some(0usize),
            r.buffer is None,
    {
        let mut state = SelectionState::new();
        state.select_first();
        Mfrc522Menu { state, buffer: None }
    }

    pub fn get_len(&self) -> (r: usize)
        ensures
            r == MFRC522_MENU_LEN,
    {
        MFRC522_MENU_LEN
    }

    /// The breadcrumb name of this panel.
    pub fn label(&self) -> (r: String)
        ensures
            r@ == "mfrc522"@,
    {
        String::from_str("mfrc522")
    }
}

} // verus!
