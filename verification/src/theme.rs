//! The vaporwave palette.

use vstd::prelude::*;

verus! {

/// A colour as red, green and blue intensities.
#[derive(Debug, Clone, Copy, PartialEq, Eq, Structural)]
pub struct Rgb(pub u8, pub u8, pub u8);

/// The palette the terminal UI draws with.
pub struct Theme;

impl Theme {
    /// The background colour.
    pub fn background() -> (c: Rgb)
        ensures
            c == Rgb(10, 5, 25),
    {
        Rgb(10, 5, 25)
    }
    /// The pink colour.
    pub fn pink() -> (c: Rgb)
        ensures
            c == Rgb(255, 0, 128),
    {
        Rgb(255, 0, 128)
    }
    /// The cyan colour.
    pub fn cyan() -> (c: Rgb)
        ensures
            c == Rgb(0, 255, 255),
    {
        Rgb(0, 255, 255)
    }
    /// The purple colour.
    pub fn purple() -> (c: Rgb)
        ensures
            c == Rgb(153, 0, 255),
    {
        Rgb(153, 0, 255)
    }
    /// The lavender colour.
    pub fn lavender() -> (c: Rgb)
        ensures
            c == Rgb(180, 130, 255),
    {
        Rgb(180, 130, 255)
    }
    /// The text colour.
    pub fn text() -> (c: Rgb)
        ensures
            c == Rgb(220, 210, 255),
    {
        Rgb(220, 210, 255)
    }
    /// The dim colour.
    pub fn dim() -> (c: Rgb)
        ensures
            c == Rgb(80, 70, 120),
    {
        Rgb(80, 70, 120)
    }
    /// The green colour.
    pub fn green() -> (c: Rgb)
        ensures
            c == Rgb(0, 255, 128),
    {
        Rgb(0, 255, 128)
    }
    /// The red colour.
    pub fn red() -> (c: Rgb)
        ensures
            c == Rgb(255, 50, 50),
    {
        Rgb(255, 50, 50)
    }
    /// The yellow colour.
    pub fn yellow() -> (c: Rgb)
        ensures
            c == Rgb(255, 220, 50),
    {
        Rgb(255, 220, 50)
    }
}

} // verus!
