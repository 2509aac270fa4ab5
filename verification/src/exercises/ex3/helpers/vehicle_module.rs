//! A vehicle, and what can be asked of one.

use vstd::prelude::*;
use vstd::string::*;

verus! {

/// The makers that are known.
#[derive(Debug)]
pub enum VehicleMan {
    Toyota,
    Mercedes,
    Volks,
}

/// The colours a vehicle comes in.
#[derive(Debug)]
pub enum VehicleColor {
    Red,
    Green,
    Blue,
    Black,
    White,
    Gray,
}

/// What can be asked of a vehicle.
pub trait VehicleTraits {
    /// The date on which the vehicle was made.
    fn get_man_date(&self) -> String;
}

/// A vehicle with its maker, model, colour and date of manufacture.
#[derive(Debug)]
pub struct Vehicle {
    pub Brand: VehicleMan,
    pub Model: String,
    pub Color: VehicleColor,
    pub ManDate: String,
}

impl VehicleTraits for Vehicle {
    fn get_man_date(&self) -> (date: String)
        ensures
            date@ == self.ManDate@,
    {
        let man_date: &String = &self.ManDate;
        man_date.clone()
    }
}

} // verus!
