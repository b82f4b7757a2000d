//! SPI channels.

use vstd::prelude::*;

use crate::WiringXError;

verus! {

/// A claimed SPI channel, set up at a fixed speed.
#[derive(Debug)]
pub struct Spi {
    channel: i32,
    speed: i32,
}

/// The greatest length of one exchange that the native library takes.
pub const MAX_TRANSFER: usize = 2147483647;

impl View for Spi {
    type V = (i32, i32);

    closed spec fn view(&self) -> (i32, i32) {
        (self.channel, self.speed)
    }
}

impl Spi {
    pub(crate) fn new(channel: i32, speed: i32) -> (r: Spi)
        ensures
            r@ == (channel, speed),
    {
        Spi { channel, speed }
    }

    /// Returns the channel number.
    pub fn channel(&self) -> (r: i32)
        ensures
            r == self@.0,
    {
        self.channel
    }

    /// Returns the speed in Hertz.
    pub fn speed(&self) -> (r: i32)
        ensures
            r == self@.1,
    {
        self.speed
    }

    /// The length to hand the native library for an exchange of `len` bytes,
    /// or `Transfer` where it cannot take that many at once.
    pub fn transfer_len(&self, len: usize) -> (r: Result<i32, WiringXError>)
        ensures
            len <= MAX_TRANSFER ==> r == Ok::<i32, WiringXError>(len as i32),
            len > MAX_TRANSFER ==> r == Err::<i32, WiringXError>(WiringXError::Transfer),
    {
        if len <= MAX_TRANSFER {
            Ok(len as i32)
        } else {
            Err(WiringXError::Transfer)
        }
    }

    /// Completes a full-duplex exchange: on success the bytes sent in `data`
    /// are replaced by the bytes `received`; on failure `data` is left as it
    /// was. Either way its length is kept.
    pub fn read_write(&self, data: &mut Vec<u8>, received: &[u8], status: i32) -> (r: Result<
        (),
        WiringXError,
    >)
        requires
            received@.len() == old(data)@.len(),
        ensures
            final(data)@.len() == old(data)@.len(),
            status < 0 ==> r == Err::<(), WiringXError>(WiringXError::Transfer) && final(data)@
                == old(data)@,
            status >= 0 ==> r == Ok::<(), WiringXError>(()) && final(data)@ == received@,
    {
        if status < 0 {
            return Err(WiringXError::Transfer);
        }
        let mut i: usize = 0;
        while i < data.len()
            invariant
                data@.len() == received@.len(),
                i <= data@.len(),
                forall|j: int| 0 <= j < i ==> data@[j] == received@[j],
            decreases data@.len() - i,
        {
            data.set(i, received[i]);
            i += 1;
        }
        assert(data@ =~= received@);
        Ok(())
    }
}

} // verus!
