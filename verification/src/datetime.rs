//! The time value that callers hand to the chip and get back from it.

use vstd::prelude::*;
use crate::registers::BASE_YEAR;

verus! {

/// A point in time as the chip keeps it: seven plain fields.
///
/// The type holds whatever it is given. Ranges are checked where a value
/// is packed into registers; [`DateTime::rejected`] says what that check
/// finds.
#[derive(Debug, Clone, Copy, PartialEq, Eq)]
pub struct DateTime {
    /// Seconds, 0 to 59.
    pub seconds: u8,
    /// Minutes, 0 to 59.
    pub minutes: u8,
    /// Hours, 0 to 23.
    pub hours: u8,
    /// Day of the week, 1 to 7, in the numbering of the caller's choice.
    pub weekday: u8,
    /// Day of the month, 1 to 31.
    pub date: u8,
    /// Month, 1 to 12.
    pub month: u8,
    /// Year in full, such as 2024.
    pub year: u16,
}

impl DateTime {
    /// The first field value that the registers refuse, looking at
    /// seconds, minutes, hours, day of the month, month and year in this
    /// order; `None` when the registers take every field.
    ///
    /// The checks are those of the register setters: an upper bound for
    /// each field and the century of the year register. The day of the
    /// week is never refused.
    pub open spec fn rejected(&self) -> Option<u16> {
        if self.seconds > 59 {
            Some(self.seconds as u16)
        } else if self.minutes > 59 {
            Some(self.minutes as u16)
        } else if self.hours > 23 {
            Some(self.hours as u16)
        } else if self.date > 31 {
            Some(self.date as u16)
        } else if self.month > 12 {
            Some(self.month as u16)
        } else if !(BASE_YEAR <= self.year <= BASE_YEAR + 99) {
            Some(self.year)
        } else {
            None
        }
    }
}

} // verus!
