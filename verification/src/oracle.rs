use vstd::prelude::*;

verus! {

/// Failure of the external randomness source.
#[derive(Clone, Copy, PartialEq, Eq, Structural, Debug)]
pub enum RandomReadErr {
    FailGetRandomSource,
}

impl RandomReadErr {
    /// Decodes the status code with which the randomness source answers a
    /// request: zero is success, one is failure. Any other code is
    /// unrecognized and must be rejected by the caller before decoding.
    pub fn from_status_code(status_code: u32) -> (r: Result<(), RandomReadErr>)
        requires
            status_code == 0 || status_code == 1,
        ensures
            r == (if status_code == 0 {
                Ok::<(), RandomReadErr>(())
            } else {
                Err::<(), RandomReadErr>(RandomReadErr::FailGetRandomSource)
            }),
    {
        if status_code == 0 {
            Ok(())
        } else {
            Err(RandomReadErr::FailGetRandomSource)
        }
    }
}

/// The external randomness oracle: returns one 32-byte random block on
/// demand, or fails when the source is unavailable.
///
/// The host implements this trait. Nothing is (or can be) promised about the
/// returned bytes, so every caller in the engine is verified for every
/// possible answer.
pub trait FetchRandom {
    fn fetch_random(&mut self) -> Result<[u8; 32], RandomReadErr>;
}

} // verus!
