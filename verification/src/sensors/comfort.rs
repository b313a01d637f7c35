//! Comfort verdicts for temperature and humidity.
//!
//! The user picks a comfortable range for each reading; where a reading sits
//! against its range is a `Position`. The two readings are judged together on
//! purpose: a room at 27 °C is only mildly unpleasant, while 27 °C at 75 %
//! humidity is muggy, and the useful advice is different — an air conditioner
//! deals with both at once, while a dehumidifier alone would leave it hot.

use vstd::prelude::*;

verus! {

/// Where a reading sits relative to a comfort range.
#[derive(Debug, Clone, Copy, PartialEq, Eq, Structural)]
pub enum Position {
    /// Below the range: too cold, or too dry.
    Below,
    /// Inside the range, endpoints included.
    Inside,
    /// Above the range: too warm, or too humid.
    Above,
}

impl Position {
    /// Whether this reading is one the user asked to be told about.
    pub open spec fn spec_is_uncomfortable(self) -> bool {
        self != Position::Inside
    }

    /// Whether this reading is one the user asked to be told about.
    #[verifier::when_used_as_spec(spec_is_uncomfortable)]
    pub fn is_uncomfortable(self) -> (uncomfortable: bool)
        ensures
            uncomfortable == self.spec_is_uncomfortable(),
    {
        !matches!(self, Position::Inside)
    }
}

/// Which reading a range describes.
///
/// The same range logic serves both, but the words differ: a reading under the
/// range is "Cool" for temperature and "Dry" for humidity.
#[derive(Debug, Clone, Copy, PartialEq, Eq, Structural)]
pub enum Dimension {
    Temperature,
    Humidity,
}

impl Dimension {
    /// One-word description of where a reading sits, for a card.
    pub fn word(self, position: Position) -> (word: &'static str)
        ensures
            word@ == (match (self, position) {
                (_, Position::Inside) => "Comfortable"@,
                (Dimension::Temperature, Position::Below) => "Cool"@,
                (Dimension::Temperature, Position::Above) => "Warm"@,
                (Dimension::Humidity, Position::Below) => "Dry"@,
                (Dimension::Humidity, Position::Above) => "Humid"@,
            }),
    {
        match (self, position) {
            (_, Position::Inside) => "Comfortable",
            (Dimension::Temperature, Position::Below) => "Cool",
            (Dimension::Temperature, Position::Above) => "Warm",
            (Dimension::Humidity, Position::Below) => "Dry",
            (Dimension::Humidity, Position::Above) => "Humid",
        }
    }
}

/// How comfortable the room is, on both dimensions at once.
///
/// A dimension is `None` when the device did not report that reading, which is
/// not the same as it being comfortable: a monitor with no humidity sensor
/// should not be told its humidity is fine.
#[derive(Debug, Clone, Copy, PartialEq, Eq, Structural)]
pub struct Comfort {
    pub temperature: Option<Position>,
    pub humidity: Option<Position>,
}

/// Whether a reading was reported and is outside its range.
pub open spec fn off(position: Option<Position>) -> bool {
    position matches Some(p) && p.spec_is_uncomfortable()
}

fn is_off(position: Option<Position>) -> (off_range: bool)
    ensures
        off_range == off(position),
{
    match position {
        Some(p) => p.is_uncomfortable(),
        None => false,
    }
}

impl Comfort {
    /// Whether either reading is outside its range.
    pub fn is_uncomfortable(self) -> (uncomfortable: bool)
        ensures
            uncomfortable == (off(self.temperature) || off(self.humidity)),
    {
        is_off(self.temperature) || is_off(self.humidity)
    }

    /// Whether both readings are outside their ranges.
    ///
    /// This is what separates "a bit warm" from "warm and muggy", and it is
    /// why the alert for the pair is more urgent than the alert for one.
    pub fn is_doubly_uncomfortable(self) -> (doubly: bool)
        ensures
            doubly == (off(self.temperature) && off(self.humidity)),
    {
        is_off(self.temperature) && is_off(self.humidity)
    }

    /// Short description of the room, for example "The room is warm and humid".
    pub fn headline(self) -> (headline: &'static str)
        ensures
            headline@ == (match (self.temperature, self.humidity) {
                (Some(Position::Above), Some(Position::Above)) => "The room is warm and humid"@,
                (Some(Position::Above), Some(Position::Below)) => "The room is warm and dry"@,
                (Some(Position::Below), Some(Position::Above)) => "The room is cool and humid"@,
                (Some(Position::Below), Some(Position::Below)) => "The room is cool and dry"@,
                (Some(Position::Above), _) => "The room is warm"@,
                (Some(Position::Below), _) => "The room is cool"@,
                (_, Some(Position::Above)) => "The room is humid"@,
                (_, Some(Position::Below)) => "The room is dry"@,
                _ => "The room is comfortable"@,
            }),
    {
        match (self.temperature, self.humidity) {
            (Some(Position::Above), Some(Position::Above)) => "The room is warm and humid",
            (Some(Position::Above), Some(Position::Below)) => "The room is warm and dry",
            (Some(Position::Below), Some(Position::Above)) => "The room is cool and humid",
            (Some(Position::Below), Some(Position::Below)) => "The room is cool and dry",
            (Some(Position::Above), _) => "The room is warm",
            (Some(Position::Below), _) => "The room is cool",
            (_, Some(Position::Above)) => "The room is humid",
            (_, Some(Position::Below)) => "The room is dry",
            _ => "The room is comfortable",
        }
    }

    /// What to do about it, in terms of appliances someone actually owns.
    ///
    /// Air conditioning cools and dries, so it is the single answer to a warm,
    /// humid room; a warm dry room wants cooling without losing more
    /// moisture; a cool humid room is where a dehumidifier earns its place,
    /// because heating alone would leave the damp.
    pub fn advice(self) -> (advice: &'static str)
        ensures
            advice@ == (match (self.temperature, self.humidity) {
                (Some(Position::Above), Some(Position::Above)) =>
                    "Turn on the air conditioning — it cools and dehumidifies in one go."@,
                (Some(Position::Above), Some(Position::Below)) =>
                    "Cool the room, and run a humidifier so cooling does not dry it further."@,
                (Some(Position::Below), Some(Position::Above)) =>
                    "Warm the room and run a dehumidifier; heating alone will leave it damp."@,
                (Some(Position::Below), Some(Position::Below)) =>
                    "Warm the room and run a humidifier — heating dries the air further."@,
                (Some(Position::Above), _) => "Cool the room with air conditioning or a fan."@,
                (Some(Position::Below), _) => "Warm the room."@,
                (_, Some(Position::Above)) =>
                    "Run a dehumidifier or ventilate to bring the moisture down."@,
                (_, Some(Position::Below)) => "Run a humidifier to bring the moisture up."@,
                _ => "Nothing to do — temperature and humidity are both in range."@,
            }),
    {
        match (self.temperature, self.humidity) {
            (Some(Position::Above), Some(Position::Above)) => {
                "Turn on the air conditioning — it cools and dehumidifies in one go."
            },
            (Some(Position::Above), Some(Position::Below)) => {
                "Cool the room, and run a humidifier so cooling does not dry it further."
            },
            (Some(Position::Below), Some(Position::Above)) => {
                "Warm the room and run a dehumidifier; heating alone will leave it damp."
            },
            (Some(Position::Below), Some(Position::Below)) => {
                "Warm the room and run a humidifier — heating dries the air further."
            },
            (Some(Position::Above), _) => "Cool the room with air conditioning or a fan.",
            (Some(Position::Below), _) => "Warm the room.",
            (_, Some(Position::Above)) => "Run a dehumidifier or ventilate to bring the moisture down.",
            (_, Some(Position::Below)) => "Run a humidifier to bring the moisture up.",
            _ => "Nothing to do — temperature and humidity are both in range.",
        }
    }
}

/// A reading the device did not report is never called uncomfortable, and a
/// room uncomfortable on both readings is uncomfortable.
pub proof fn missing_readings_are_not_judged(comfort: Comfort)
    ensures
        comfort.temperature is None ==> (off(comfort.temperature) || off(comfort.humidity)) == off(
            comfort.humidity,
        ),
        comfort.humidity is None ==> (off(comfort.temperature) && off(comfort.humidity)) == false,
        (comfort.temperature is None && comfort.humidity is None) ==> !(off(comfort.temperature)
            || off(comfort.humidity)),
        (off(comfort.temperature) && off(comfort.humidity)) ==> (off(comfort.temperature) || off(
            comfort.humidity,
        )),
{
}

} // verus!
