//! Radio quantities held in integer units: frequency in hertz, signal
//! strength in dBm, signal-to-noise ratio in tenths of a decibel.
use vstd::prelude::*;

verus! {

/// Frequency (Hz).
#[derive(PartialEq, Eq, Structural, Debug, Clone, Copy)]
pub struct Frequency(u32);

impl View for Frequency {
    type V = u32;

    closed spec fn view(&self) -> u32 {
        self.0
    }
}

impl Frequency {
    pub fn from_hz(hz: u32) -> (r: Self)
        ensures
            r@ == hz,
    {
        Frequency(hz)
    }

    pub fn hz(&self) -> (r: u32)
        ensures
            r == self@,
    {
        self.0
    }
}

/// Signal-to-noise ratio, in tenths of a decibel.
#[derive(PartialEq, Eq, Structural, Debug, Clone, Copy)]
pub struct Snr(i32);

impl View for Snr {
    type V = i32;

    closed spec fn view(&self) -> i32 {
        self.0
    }
}

impl Snr {
    pub fn from_centi_db(centi_db: i32) -> (r: Self)
        ensures
            r@ == centi_db,
    {
        Snr(centi_db)
    }

    pub fn centi_db(&self) -> (r: i32)
        ensures
            r == self@,
    {
        self.0
    }
}

/// Received signal strength (dBm).
#[derive(PartialEq, Eq, Structural, Debug, Clone, Copy)]
pub struct Rssi(i32);

impl View for Rssi {
    type V = i32;

    closed spec fn view(&self) -> i32 {
        self.0
    }
}

impl Rssi {
    pub fn from_dbm(dbm: i32) -> (r: Self)
        ensures
            r@ == dbm,
    {
        Rssi(dbm)
    }

    pub fn dbm(&self) -> (r: i32)
        ensures
            r == self@,
    {
        self.0
    }

    /// The strength in tenths of a dBm.
    pub fn centi_dbm(&self) -> (r: i32)
        requires
            i32::MIN <= self@ * 10 <= i32::MAX,
        ensures
            r == self@ * 10,
    {
        self.0 * 10
    }
}

} // verus!
