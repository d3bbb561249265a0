//! The sensor, bound to the address it answers on.

use vstd::prelude::*;
use crate::config::{Transform, Update, UpdateView};
use crate::discovery::Scan;
use crate::init::{Init, InitView};
use crate::temperature::Reading;

verus! {

/// A MAX30205 sensor at a known bus address.
#[derive(Debug, PartialEq, Eq)]
pub struct MAX30205 {
    addr: u8,
}

impl View for MAX30205 {
    type V = u8;

    /// The bus address of the sensor.
    closed spec fn view(&self) -> u8 {
        self.addr
    }
}

impl MAX30205 {
    /// The sensor at `addr`, once it has been initialised.
    pub(crate) fn at(addr: u8) -> (sensor: MAX30205)
        ensures
            sensor@ == addr,
    {
        MAX30205 { addr }
    }

    /// Begins the search for a device on the expected addresses. The result of
    /// the search is the first address on which something answered; that it is a
    /// MAX30205 is not known, as any other device may sit on the same address.
    pub fn scan() -> (scan: Scan)
        ensures
            scan@ == 0,
    {
        Scan::start()
    }

    /// Begins the initialisation of the sensor at `addr`, which ends power
    /// saving and clears the alarm thresholds. Its result is the sensor, or the
    /// error of the first write that failed.
    pub fn new(addr: u8) -> (init: Init)
        ensures
            init@ == (InitView { address: addr, index: 0 }),
    {
        Init::start(addr)
    }

    /// Begins the change `trans` to the Configuration register.
    fn transform_config(&self, trans: Transform) -> (update: Update)
        ensures
            update@ == (UpdateView { address: self@, transform: trans }),
    {
        Update::start(self.addr, trans)
    }

    /// Begins the transition into power saving mode. In power saving mode the
    /// sensor takes no new samples, so that every reading returns the same
    /// temperature, until power saving is left again or one new sample is asked
    /// for.
    pub fn power_down(&self) -> (update: Update)
        ensures
            update@ == (UpdateView { address: self@, transform: Transform::PowerDown }),
    {
        self.transform_config(Transform::PowerDown)
    }

    /// Begins the transition out of power saving mode, back to continuous
    /// sampling.
    pub fn power_up(&self) -> (update: Update)
        ensures
            update@ == (UpdateView { address: self@, transform: Transform::PowerUp }),
    {
        self.transform_config(Transform::PowerUp)
    }

    /// Begins the request for one new sample from a sensor that is in power
    /// saving mode. On a sensor that is not, it has no effect.
    pub fn update_once(&self) -> (update: Update)
        ensures
            update@ == (UpdateView { address: self@, transform: Transform::UpdateOnce }),
    {
        self.transform_config(Transform::UpdateOnce)
    }

    /// Begins a reading of the temperature.
    pub fn get_temperature(&self) -> (reading: Reading)
        ensures
            reading@ == self@,
    {
        Reading::start(self.addr)
    }
}

} // verus!
