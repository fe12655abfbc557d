//! The frames of one board among several on the bus: each board answers a
//! block of frame ids shifted by its board id.

use vstd::prelude::*;
use crate::lin_slave_driver::{LinSlaveHandler, bytes_view};
use crate::signals::Rgb;

verus! {

/// Frame ids of consecutive boards lie this far apart.
pub const LIN_FRAME_ID_OFFSET: u8 = 5;

/// Local frame id of the RGB color command.
pub const LIN_FRAME_RGB: u8 = 0;

/// Local frame id of the indicator lights command.
pub const LIN_FRAME_LEDS: u8 = 1;

/// Local frame id of the light sensor response.
pub const LIN_FRAME_PHOTORES: u8 = 2;

/// Local frame id of the temperature response.
pub const LIN_FRAME_TEMP: u8 = 3;

/// The frames that a board knows.
#[derive(Clone, Copy, Debug, PartialEq, Eq, Structural)]
pub enum LocalFrameId {
    Rgb,
    Leds,
    Photores,
    Temp,
}

/// The local frame that a bus frame id stands for on board `board_id`.
pub open spec fn local_frame_spec(board_id: u8, frame_id: u8) -> Option<LocalFrameId> {
    let offset = LIN_FRAME_ID_OFFSET * board_id;
    if frame_id < offset {
        None
    } else {
        let local = frame_id - offset;
        if local == LIN_FRAME_RGB {
            Some(LocalFrameId::Rgb)
        } else if local == LIN_FRAME_LEDS {
            Some(LocalFrameId::Leds)
        } else if local == LIN_FRAME_PHOTORES {
            Some(LocalFrameId::Photores)
        } else if local == LIN_FRAME_TEMP {
            Some(LocalFrameId::Temp)
        } else {
            None
        }
    }
}

impl LocalFrameId {
    /// Maps a bus frame id to a local one by subtracting the board's offset.
    pub fn from_frame_id(board_id: u8, frame_id: u8) -> (r: Option<LocalFrameId>)
        ensures
            r == local_frame_spec(board_id, frame_id),
    {
        let offset: u16 = (LIN_FRAME_ID_OFFSET as u16) * (board_id as u16);
        if (frame_id as u16) < offset {
            return None;
        }
        let shifted_frame_id = ((frame_id as u16) - offset) as u8;
        if shifted_frame_id == LIN_FRAME_RGB {
            Some(LocalFrameId::Rgb)
        } else if shifted_frame_id == LIN_FRAME_LEDS {
            Some(LocalFrameId::Leds)
        } else if shifted_frame_id == LIN_FRAME_PHOTORES {
            Some(LocalFrameId::Photores)
        } else if shifted_frame_id == LIN_FRAME_TEMP {
            Some(LocalFrameId::Temp)
        } else {
            None
        }
    }
}

/// The two little-endian bytes of a 16-bit value.
pub open spec fn le_bytes(v: u16) -> Seq<u8> {
    seq![(v & 0xFFu16) as u8, ((v >> 8u16) & 0xFFu16) as u8]
}

/// The four indicator light states carried by a command byte: bit `i` of
/// the byte, kept in place (zero is off).
pub open spec fn leds_of(mask: u8) -> Seq<u8> {
    seq![mask & 1u8, mask & 2u8, mask & 4u8, mask & 8u8]
}

/// Splits a command byte into the four indicator light states.
pub fn leds_from_mask(mask: u8) -> (r: [u8; 4])
    ensures
        r@ == leds_of(mask),
{
    let r = [mask & 1, mask & 2, mask & 4, mask & 8];
    assert(r@ =~= leds_of(mask));
    r
}

/// The two little-endian bytes of a 16-bit value.
pub fn split_u16(v: u16) -> (r: [u8; 2])
    ensures
        r@ == le_bytes(v),
{
    let r = [(v & 0xFF) as u8, ((v >> 8) & 0xFF) as u8];
    assert(r@ =~= le_bytes(v));
    r
}

/// Frame handling of one board: the latest light sensor and temperature
/// readings to answer with, and the commands received and not yet taken.
pub struct LinHandler {
    pub board_id: u8,
    pub photores: [u8; 2],
    pub temp: [u8; 2],
    pub color: Option<Rgb>,
    pub leds: Option<u8>,
}

impl LinHandler {
    /// A handler for board `board_id` with both readings zero and no
    /// command pending.
    pub fn new(board_id: u8) -> (r: LinHandler)
        ensures
            r.board_id == board_id,
            r.photores@ == seq![0u8, 0u8],
            r.temp@ == seq![0u8, 0u8],
            r.color is None,
            r.leds is None,
    {
        let r = LinHandler { board_id, photores: [0; 2], temp: [0; 2], color: None, leds: None };
        assert(r.photores@ =~= seq![0u8, 0u8]);
        assert(r.temp@ =~= seq![0u8, 0u8]);
        r
    }

    /// Takes in a new light sensor reading, in millivolts.
    pub fn update_photoresistor(&mut self, millivolts: u16)
        ensures
            final(self).photores@ == le_bytes(millivolts),
            final(self).board_id == old(self).board_id,
            final(self).temp == old(self).temp,
            final(self).color == old(self).color,
            final(self).leds == old(self).leds,
    {
        self.photores = split_u16(millivolts);
    }

    /// Takes in a new temperature reading; `None` is a failed reading,
    /// answered as 0xFFFF.
    pub fn update_temperature(&mut self, value: Option<u16>)
        ensures
            final(self).temp@ == (match value {
                Some(t) => le_bytes(t),
                None => seq![0xFFu8, 0xFFu8],
            }),
            final(self).board_id == old(self).board_id,
            final(self).photores == old(self).photores,
            final(self).color == old(self).color,
            final(self).leds == old(self).leds,
    {
        match value {
            Some(temperature) => {
                self.temp = split_u16(temperature);
            },
            None => {
                self.temp = [0xFF, 0xFF];
                assert(self.temp@ =~= seq![0xFFu8, 0xFFu8]);
            },
        }
    }

    /// Takes the color command received last, if one is pending.
    pub fn take_color(&mut self) -> (r: Option<Rgb>)
        ensures
            r == old(self).color,
            final(self).color is None,
            final(self).board_id == old(self).board_id,
            final(self).photores == old(self).photores,
            final(self).temp == old(self).temp,
            final(self).leds == old(self).leds,
    {
        let r = self.color;
        self.color = None;
        r
    }

    /// Takes the indicator light command received last, if one is pending.
    pub fn take_leds(&mut self) -> (r: Option<[u8; 4]>)
        ensures
            match r {
                Some(a) => old(self).leds matches Some(m) && a@ == leds_of(m),
                None => old(self).leds is None,
            },
            final(self).leds is None,
            final(self).board_id == old(self).board_id,
            final(self).photores == old(self).photores,
            final(self).temp == old(self).temp,
            final(self).color == old(self).color,
    {
        let r = match self.leds {
            Some(m) => Some(leds_from_mask(m)),
            None => None,
        };
        self.leds = None;
        r
    }
}

impl LinSlaveHandler for LinHandler {
    open spec fn response_spec(&self, frame_id: u8) -> Option<Seq<u8>> {
        match local_frame_spec(self.board_id, frame_id) {
            Some(LocalFrameId::Photores) => Some(self.photores@),
            Some(LocalFrameId::Temp) => Some(self.temp@),
            _ => None,
        }
    }

    open spec fn frame_size_spec(&self, frame_id: u8) -> Option<nat> {
        match local_frame_spec(self.board_id, frame_id) {
            Some(LocalFrameId::Rgb) => Some(3),
            Some(LocalFrameId::Leds) => Some(1),
            _ => None,
        }
    }

    open spec fn after_command(&self, frame_id: u8, data: Seq<u8>) -> LinHandler {
        match local_frame_spec(self.board_id, frame_id) {
            Some(LocalFrameId::Rgb) => if data.len() >= 3 {
                LinHandler { color: Some(Rgb { r: data[0], g: data[1], b: data[2] }), ..*self }
            } else {
                *self
            },
            Some(LocalFrameId::Leds) => if data.len() >= 1 {
                LinHandler { leds: Some(data[0]), ..*self }
            } else {
                *self
            },
            _ => *self,
        }
    }

    fn master_frame_size(&mut self, frame_id: u8) -> (r: Option<usize>) {
        match LocalFrameId::from_frame_id(self.board_id, frame_id) {
            Some(LocalFrameId::Rgb) => Some(3),
            Some(LocalFrameId::Leds) => Some(1),
            _ => None,
        }
    }

    fn process_master_frame(&mut self, frame_id: u8, data: &[u8]) {
        match LocalFrameId::from_frame_id(self.board_id, frame_id) {
            Some(LocalFrameId::Rgb) => {
                if data.len() >= 3 {
                    self.color = Some(Rgb { r: data[0], g: data[1], b: data[2] });
                }
            },
            Some(LocalFrameId::Leds) => {
                if data.len() >= 1 {
                    self.leds = Some(data[0]);
                }
            },
            _ => {},
        }
    }

    fn make_slave_response(&mut self, frame_id: u8) -> (r: Option<Vec<u8>>) {
        match LocalFrameId::from_frame_id(self.board_id, frame_id) {
            Some(LocalFrameId::Photores) => {
                let v = vec![self.photores[0], self.photores[1]];
                assert(v@ =~= self.photores@);
                Some(v)
            },
            Some(LocalFrameId::Temp) => {
                let v = vec![self.temp[0], self.temp[1]];
                assert(v@ =~= self.temp@);
                Some(v)
            },
            _ => None,
        }
    }
}

} // verus!
