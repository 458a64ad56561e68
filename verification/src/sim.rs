//! A simulated transport and delay for driving the driver
//! deterministically: the scripted transport answers each combined
//! write-read with the next canned response and records every transaction
//! it performs, so a test can check both what the driver wrote and in what
//! order.

use vstd::prelude::*;

use crate::traits::Delay;
use crate::traits::Transport;

verus! {

/// The error a simulated transport reports for a transaction scripted to
/// fail, or once its script has run out of responses.
#[derive(Clone, Copy, Debug, PartialEq, Eq, Structural)]
pub struct SimError;

/// One scripted answer for a combined write-read transaction.
#[derive(Clone, Copy, Debug, PartialEq, Eq, Structural)]
pub enum SimResponse {
    /// Answer with this register word, least-significant byte first.
    Word(u16),
    /// Fail the transaction.
    Failure,
}

/// One transaction as the simulated transport performed it.
#[derive(Clone, Debug, PartialEq, Eq)]
pub enum SimEvent {
    /// A write of these bytes to this address.
    Write { address: u8, bytes: Vec<u8> },
    /// A combined transaction at this address: these bytes written, those
    /// read back.
    WriteRead { address: u8, written: Vec<u8>, read: Vec<u8> },
}

/// A scripted transport: writes always succeed, and each combined
/// write-read consumes the next scripted response, failing once the script
/// is exhausted. Every performed transaction is recorded.
pub struct SimTransport {
    responses: Vec<SimResponse>,
    cursor: usize,
    events: Vec<SimEvent>,
}

impl SimTransport {
    /// The scripted responses, in the order they answer write-reads.
    pub closed spec fn spec_responses(&self) -> Seq<SimResponse> {
        self.responses@
    }

    /// How many scripted responses have been consumed.
    pub closed spec fn spec_responses_used(&self) -> int {
        self.cursor as int
    }

    /// The transactions performed so far, oldest first.
    pub closed spec fn spec_events(&self) -> Seq<SimEvent> {
        self.events@
    }

    /// A transport that answers consecutive write-reads with the given
    /// responses, in order.
    pub fn new(responses: Vec<SimResponse>) -> (r: SimTransport)
        ensures
            r.spec_responses() == responses@,
            r.spec_responses_used() == 0,
            r.spec_events() == Seq::<SimEvent>::empty(),
    {
        SimTransport { responses, cursor: 0, events: Vec::new() }
    }

    /// The transactions performed so far, oldest first.
    pub fn events(&self) -> (r: &Vec<SimEvent>)
        ensures
            r@ == self.spec_events(),
    {
        &self.events
    }

    /// How many scripted responses have been consumed.
    pub fn responses_used(&self) -> (r: usize)
        ensures
            r as int == self.spec_responses_used(),
    {
        self.cursor
    }
}

impl Transport for SimTransport {
    type Error = SimError;

    fn write(&mut self, address: u8, bytes: &[u8]) -> Result<(), SimError> {
        let copy = vstd::slice::slice_to_vec(bytes);
        self.events.push(SimEvent::Write { address, bytes: copy });
        Ok(())
    }

    fn write_read(&mut self, address: u8, write_bytes: &[u8], read_buffer: &mut [u8; 2]) -> Result<
        (),
        SimError,
    > {
        if self.cursor >= self.responses.len() {
            return Err(SimError);
        }
        let response = self.responses[self.cursor];
        self.cursor = self.cursor + 1;
        match response {
            SimResponse::Word(w) => {
                read_buffer[0] = (w & 0xFF) as u8;
                read_buffer[1] = (w >> 8) as u8;
                let written = vstd::slice::slice_to_vec(write_bytes);
                let mut read: Vec<u8> = Vec::new();
                read.push((w & 0xFF) as u8);
                read.push((w >> 8) as u8);
                self.events.push(SimEvent::WriteRead { address, written, read });
                Ok(())
            },
            SimResponse::Failure => Err(SimError),
        }
    }
}

/// A delay that performs no pause and records each requested duration.
pub struct SimDelay {
    delays: Vec<u32>,
}

impl SimDelay {
    /// The requested pauses, in milliseconds, oldest first.
    pub closed spec fn spec_delays(&self) -> Seq<u32> {
        self.delays@
    }

    /// A fresh delay recorder.
    pub fn new() -> (r: SimDelay)
        ensures
            r.spec_delays() == Seq::<u32>::empty(),
    {
        SimDelay { delays: Vec::new() }
    }

    /// The requested pauses, in milliseconds, oldest first.
    pub fn delays(&self) -> (r: &Vec<u32>)
        ensures
            r@ == self.spec_delays(),
    {
        &self.delays
    }
}

impl Delay for SimDelay {
    fn delay_ms(&mut self, ms: u32) {
        self.delays.push(ms);
    }
}

} // verus!
