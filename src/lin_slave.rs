//! The frames of a board alone on the bus, whose frame ids are not shifted.

use vstd::prelude::*;
use crate::lin_slave_driver::LinSlaveHandler;
use crate::lin_slave_handler::{le_bytes, split_u16};
use crate::signals::{Command, Rgb};

verus! {

/// Frame id of the RGB color command.
pub const LIN_FRAME_RGB: u8 = 0;

/// Frame id of the indicator lights command.
pub const LIN_FRAME_LEDS: u8 = 1;

/// Frame id of the light sensor response.
pub const LIN_FRAME_PHOTORES: u8 = 2;

/// The cached response data and the commands not yet taken.
pub struct FrameResponses {
    pub photores: [u8; 2],
    pub color: Option<Rgb>,
    pub leds: Option<u8>,
}

/// The command that a frame with a correct checksum carries.
pub open spec fn command_spec(frame_id: u8, data: Seq<u8>) -> Option<Command> {
    if frame_id == LIN_FRAME_RGB {
        Some(Command::Color(Rgb { r: data[0], g: data[1], b: data[2] }))
    } else if frame_id == LIN_FRAME_LEDS {
        Some(Command::Leds(data[0]))
    } else {
        None
    }
}

/// The command carried by a received command frame.
pub fn lin_slave_process(frame_id: u8, data: &[u8]) -> (r: Option<Command>)
    requires
        frame_id == LIN_FRAME_RGB ==> data@.len() >= 3,
        frame_id == LIN_FRAME_LEDS ==> data@.len() >= 1,
    ensures
        r == command_spec(frame_id, data@),
{
    if frame_id == LIN_FRAME_RGB {
        Some(Command::Color(Rgb { r: data[0], g: data[1], b: data[2] }))
    } else if frame_id == LIN_FRAME_LEDS {
        Some(Command::Leds(data[0]))
    } else {
        None
    }
}

/// The response data for a frame id, taking in a fresh light sensor reading
/// (millivolts) first when one is at hand; the cache keeps the last one.
pub fn lin_slave_response(frame_id: u8, state: &mut FrameResponses, fresh: Option<u16>) -> (r:
    Option<Vec<u8>>)
    ensures
        frame_id == LIN_FRAME_PHOTORES ==> match fresh {
            Some(mv) => final(state).photores@ == le_bytes(mv),
            None => final(state).photores == old(state).photores,
        },
        frame_id != LIN_FRAME_PHOTORES ==> final(state).photores == old(state).photores,
        final(state).color == old(state).color,
        final(state).leds == old(state).leds,
        match r {
            Some(v) => frame_id == LIN_FRAME_PHOTORES && v@ == final(state).photores@,
            None => frame_id != LIN_FRAME_PHOTORES,
        },
{
    if frame_id == LIN_FRAME_PHOTORES {
        if let Some(millivolts) = fresh {
            state.photores = split_u16(millivolts);
        }
        let v = vec![state.photores[0], state.photores[1]];
        assert(v@ =~= state.photores@);
        Some(v)
    } else {
        None
    }
}

/// The number of data bytes of a command frame id.
pub fn lin_command_size(frame_id: u8) -> (r: Option<usize>)
    ensures
        r == (if frame_id == LIN_FRAME_RGB {
            Some(3usize)
        } else if frame_id == LIN_FRAME_LEDS {
            Some(1usize)
        } else {
            None
        }),
{
    if frame_id == LIN_FRAME_RGB {
        Some(3)
    } else if frame_id == LIN_FRAME_LEDS {
        Some(1)
    } else {
        None
    }
}

impl FrameResponses {
    /// Light sensor response zero, no command pending.
    pub fn new() -> (r: FrameResponses)
        ensures
            r.photores@ == seq![0u8, 0u8],
            r.color is None,
            r.leds is None,
    {
        let r = FrameResponses { photores: [0; 2], color: None, leds: None };
        assert(r.photores@ =~= seq![0u8, 0u8]);
        r
    }

    /// Takes in a new light sensor reading, in millivolts.
    pub fn update_photoresistor(&mut self, millivolts: u16)
        ensures
            final(self).photores@ == le_bytes(millivolts),
            final(self).color == old(self).color,
            final(self).leds == old(self).leds,
    {
        self.photores = split_u16(millivolts);
    }

    /// Takes the command received last, colors first, if one is pending.
    pub fn take_command(&mut self) -> (r: Option<Command>)
        ensures
            r == (match old(self).color {
                Some(c) => Some(Command::Color(c)),
                None => match old(self).leds {
                    Some(m) => Some(Command::Leds(m)),
                    None => None,
                },
            }),
            final(self).photores == old(self).photores,
            old(self).color is Some ==> final(self).color is None && final(self).leds
                == old(self).leds,
            old(self).color is None ==> final(self).color is None && final(self).leds is None,
    {
        match self.color {
            Some(c) => {
                self.color = None;
                Some(Command::Color(c))
            },
            None => match self.leds {
                Some(m) => {
                    self.leds = None;
                    Some(Command::Leds(m))
                },
                None => None,
            },
        }
    }
}

impl LinSlaveHandler for FrameResponses {
    open spec fn response_spec(&self, frame_id: u8) -> Option<Seq<u8>> {
        if frame_id == LIN_FRAME_PHOTORES {
            Some(self.photores@)
        } else {
            None
        }
    }

    open spec fn frame_size_spec(&self, frame_id: u8) -> Option<nat> {
        if frame_id == LIN_FRAME_RGB {
            Some(3)
        } else if frame_id == LIN_FRAME_LEDS {
            Some(1)
        } else {
            None
        }
    }

    open spec fn after_command(&self, frame_id: u8, data: Seq<u8>) -> FrameResponses {
        if frame_id == LIN_FRAME_RGB && data.len() >= 3 {
            FrameResponses { color: Some(Rgb { r: data[0], g: data[1], b: data[2] }), ..*self }
        } else if frame_id == LIN_FRAME_LEDS && data.len() >= 1 {
            FrameResponses { leds: Some(data[0]), ..*self }
        } else {
            *self
        }
    }

    fn master_frame_size(&mut self, frame_id: u8) -> (r: Option<usize>) {
        lin_command_size(frame_id)
    }

    fn process_master_frame(&mut self, frame_id: u8, data: &[u8]) {
        if (frame_id == LIN_FRAME_RGB && data.len() >= 3) || (frame_id == LIN_FRAME_LEDS
            && data.len() >= 1) {
            match lin_slave_process(frame_id, data) {
                Some(Command::Color(c)) => {
                    self.color = Some(c);
                },
                Some(Command::Leds(m)) => {
                    self.leds = Some(m);
                },
                None => {},
            }
        }
    }

    fn make_slave_response(&mut self, frame_id: u8) -> (r: Option<Vec<u8>>) {
        lin_slave_response(frame_id, self, None)
    }
}

} // verus!
