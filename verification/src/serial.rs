//! Serial port stub: the contract surface exists, but no transport is wired
//! up, so every operation leaves the port unchanged.

use vstd::prelude::*;

verus! {

pub struct Serial {
    pub dummy: u8,
}

impl Serial {
    pub fn new() -> (r: Serial)
        ensures
            r.dummy == 0,
    {
        Serial { dummy: 0 }
    }

    pub fn init(&mut self)
        ensures
            *final(self) == *old(self),
    {
    }

    pub fn set_baud(&mut self, baud: u8)
        ensures
            *final(self) == *old(self),
    {
        let _ = baud;
    }

    pub fn transmit_char(&mut self)
        ensures
            *final(self) == *old(self),
    {
    }

    pub fn receive_char(&mut self)
        ensures
            *final(self) == *old(self),
    {
    }
}

} // verus!
