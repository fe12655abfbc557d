//! The LIN slave engine: finds frame starts in a raw byte stream, answers
//! response frames and checks command frames, delegating the frame contents
//! to a handler.

use vstd::prelude::*;
use crate::lin_frame::{Pid, checksum_of, valid_pid_byte, checksum_matches, data_with_checksum};

verus! {

/// The bytes of an optional response, as a sequence.
pub open spec fn bytes_view(r: Option<Vec<u8>>) -> Option<Seq<u8>> {
    match r {
        Some(v) => Some(v@),
        None => None,
    }
}

/// What a board does with the frames addressed to it.
pub trait LinSlaveHandler: Sized {
    /// The data bytes with which the slave answers a frame id, if it answers.
    spec fn response_spec(&self, frame_id: u8) -> Option<Seq<u8>>;

    /// The number of data bytes that the master sends with a frame id, if the
    /// slave accepts it as a command.
    spec fn frame_size_spec(&self, frame_id: u8) -> Option<nat>;

    /// The handler after it has accepted a command with a correct checksum.
    spec fn after_command(&self, frame_id: u8, data: Seq<u8>) -> Self;

    /// Expected size of the master's frame with this id.
    fn master_frame_size(&mut self, frame_id: u8) -> (r: Option<usize>)
        ensures
            *final(self) == *old(self),
            r matches Some(n) ==> n <= 8 && old(self).frame_size_spec(frame_id) == Some(n as nat),
            r is None ==> old(self).frame_size_spec(frame_id) is None,
    ;

    /// Processes the data of a command frame received from the master.
    fn process_master_frame(&mut self, frame_id: u8, data: &[u8])
        ensures
            *final(self) == old(self).after_command(frame_id, data@),
    ;

    /// Prepares the data for the master's request of this frame id.
    fn make_slave_response(&mut self, frame_id: u8) -> (r: Option<Vec<u8>>)
        ensures
            *final(self) == *old(self),
            bytes_view(r) == old(self).response_spec(frame_id),
            r matches Some(v) ==> v@.len() <= 8,
    ;
}

/// Where the engine stands in the byte stream.
pub enum Phase {
    /// Waiting for a break byte (0x00).
    Break,
    /// A break was seen; waiting for the sync byte (0x55).
    Sync,
    /// The sync byte was seen; the next byte is the protected identifier.
    Pid,
    /// Receiving `len` data bytes and a checksum of a command frame.
    Command { pid: Pid, len: usize, received: Vec<u8> },
}

/// The mathematical state of the engine.
pub enum PhaseModel {
    Break,
    Sync,
    Pid,
    Command { pid: u8, len: nat, received: Seq<u8> },
}

/// One received byte: the next state, the handler after it, and the bytes
/// to transmit, if any.
pub open spec fn step_spec<H: LinSlaveHandler>(m: PhaseModel, h: H, b: u8) -> (
    PhaseModel,
    H,
    Option<Seq<u8>>,
) {
    match m {
        PhaseModel::Break => (
            if b == 0 {
                PhaseModel::Sync
            } else {
                PhaseModel::Break
            },
            h,
            None,
        ),
        PhaseModel::Sync => (
            if b == 0x55 {
                PhaseModel::Pid
            } else {
                PhaseModel::Break
            },
            h,
            None,
        ),
        PhaseModel::Pid => {
            if !valid_pid_byte(b) {
                (PhaseModel::Break, h, None)
            } else {
                let id = b & 0x3fu8;
                match h.response_spec(id) {
                    Some(d) => (PhaseModel::Break, h, Some(d.push(checksum_of(b, d)))),
                    None => match h.frame_size_spec(id) {
                        Some(n) => (PhaseModel::Command { pid: b, len: n, received: seq![] }, h, None),
                        None => (PhaseModel::Break, h, None),
                    },
                }
            }
        },
        PhaseModel::Command { pid, len, received } => {
            if received.len() == len {
                let handled = if checksum_of(pid, received) == b {
                    h.after_command(pid & 0x3fu8, received)
                } else {
                    h
                };
                (PhaseModel::Break, handled, None)
            } else {
                (PhaseModel::Command { pid, len, received: received.push(b) }, h, None)
            }
        },
    }
}

/// The LIN slave engine.
pub struct LinSlave {
    phase: Phase,
}

impl LinSlave {
    /// The engine's state.
    pub closed spec fn model(&self) -> PhaseModel {
        match self.phase {
            Phase::Break => PhaseModel::Break,
            Phase::Sync => PhaseModel::Sync,
            Phase::Pid => PhaseModel::Pid,
            Phase::Command { pid, len, received } => PhaseModel::Command {
                pid: pid@,
                len: len as nat,
                received: received@,
            },
        }
    }

    /// A command frame in progress has at most eight data bytes, not all of
    /// them received yet, behind a valid identifier.
    pub closed spec fn wf(&self) -> bool {
        match self.phase {
            Phase::Command { pid, len, received } => len <= 8 && received@.len() <= len
                && valid_pid_byte(pid@),
            _ => true,
        }
    }

    /// An engine waiting for a break.
    pub fn new() -> (r: LinSlave)
        ensures
            r.wf(),
            r.model() == PhaseModel::Break,
    {
        LinSlave { phase: Phase::Break }
    }

    /// Consumes one byte received from the bus; returns the bytes to
    /// transmit when the byte completed the header of a response frame.
    pub fn on_byte<H: LinSlaveHandler>(&mut self, handler: &mut H, b: u8) -> (r: Option<Vec<u8>>)
        requires
            old(self).wf(),
        ensures
            final(self).wf(),
            step_spec(old(self).model(), *old(handler), b) == (
                final(self).model(),
                *final(handler),
                bytes_view(r),
            ),
    {
        let mut phase = Phase::Break;
        std::mem::swap(&mut self.phase, &mut phase);
        match phase {
            Phase::Break => {
                if b == 0 {
                    self.phase = Phase::Sync;
                }
                None
            },
            Phase::Sync => {
                if b == 0x55 {
                    self.phase = Phase::Pid;
                }
                None
            },
            Phase::Pid => {
                match Pid::decode(b) {
                    None => None,
                    Some(pid) => {
                        let id = pid.get_id();
                        match handler.make_slave_response(id) {
                            Some(data) => Some(data_with_checksum(pid, data.as_slice())),
                            None => {
                                match handler.master_frame_size(id) {
                                    Some(len) => {
                                        self.phase = Phase::Command {
                                            pid,
                                            len,
                                            received: Vec::new(),
                                        };
                                        None
                                    },
                                    None => None,
                                }
                            },
                        }
                    },
                }
            },
            Phase::Command { pid, len, received } => {
                if received.len() == len {
                    if checksum_matches(pid, received.as_slice(), b) {
                        handler.process_master_frame(pid.get_id(), received.as_slice());
                    }
                } else {
                    let mut received = received;
                    received.push(b);
                    self.phase = Phase::Command { pid, len, received };
                }
                None
            },
        }
    }
}

} // verus!
