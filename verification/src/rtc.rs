use vstd::prelude::*;

verus! {

/// The real-time-clock registers of an MBC3 cartridge.
#[derive(Clone, Copy, PartialEq, Eq, Structural, Debug)]
pub struct Rtc {
    pub seconds: u8,
    pub minutes: u8,
    pub hours: u8,
    pub days_low: u8,
    pub days_high: u8,
}

impl Rtc {
    /// All registers zero.
    pub fn new() -> (r: Rtc)
        ensures
            r == (Rtc { seconds: 0, minutes: 0, hours: 0, days_low: 0, days_high: 0 }),
    {
        Rtc { seconds: 0, minutes: 0, hours: 0, days_low: 0, days_high: 0 }
    }

    /// Reads the registers from the first five bytes, in the order seconds,
    /// minutes, hours, low day count, high day count.
    pub fn from_bytes(bytes: &[u8]) -> (r: Rtc)
        requires
            bytes@.len() >= 5,
        ensures
            r == Rtc::from_seq(bytes@),
    {
        Rtc {
            seconds: bytes[0],
            minutes: bytes[1],
            hours: bytes[2],
            days_low: bytes[3],
            days_high: bytes[4],
        }
    }

    pub open spec fn from_seq(bytes: Seq<u8>) -> Rtc {
        Rtc {
            seconds: bytes[0],
            minutes: bytes[1],
            hours: bytes[2],
            days_low: bytes[3],
            days_high: bytes[4],
        }
    }

    pub open spec fn to_seq(self) -> Seq<u8> {
        seq![self.seconds, self.minutes, self.hours, self.days_low, self.days_high]
    }

    /// The registers as five bytes, in the order `from_bytes` reads them.
    pub fn to_bytes(self) -> (r: [u8; 5])
        ensures
            r@ == self.to_seq(),
    {
        let r = [self.seconds, self.minutes, self.hours, self.days_low, self.days_high];
        assert(r@ =~= self.to_seq());
        r
    }
}

/// Writing the registers out as bytes and reading them back gives the same registers.
pub proof fn lemma_rtc_bytes_roundtrip(rtc: Rtc)
    ensures
        Rtc::from_seq(rtc.to_seq()) == rtc,
{
}

} // verus!
