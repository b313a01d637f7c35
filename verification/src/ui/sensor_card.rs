//! The small sensor cards of the main tab.

use vstd::prelude::*;

verus! {

/// How much room a sensor card gets.
#[derive(Debug, Clone, Copy, PartialEq, Eq, Structural)]
pub enum CardSize {
    Narrow,
    Compact,
}

impl CardSize {
    /// The class that sizes the card.
    pub fn css_class(self) -> (class: &'static str)
        ensures
            class@ == (match self {
                CardSize::Narrow => "narrow-sensor-card"@,
                CardSize::Compact => "compact-sensor-card"@,
            }),
    {
        match self {
            CardSize::Narrow => "narrow-sensor-card",
            CardSize::Compact => "compact-sensor-card",
        }
    }

    /// Size of the card's icon, in pixels.
    pub fn icon_pixel_size(self) -> (pixels: i32)
        ensures
            pixels == (match self {
                CardSize::Narrow => 36i32,
                CardSize::Compact => 28i32,
            }),
    {
        match self {
            CardSize::Narrow => 36,
            CardSize::Compact => 28,
        }
    }

    /// Gap between the icon and the text, in pixels.
    pub fn spacing(self) -> (pixels: i32)
        ensures
            pixels == (match self {
                CardSize::Narrow => 10i32,
                CardSize::Compact => 8i32,
            }),
    {
        match self {
            CardSize::Narrow => 10,
            CardSize::Compact => 8,
        }
    }
}

/// The classes of a sensor card: its size and the colour of its reading.
pub fn css_classes(size: CardSize, status_class: &'static str) -> (classes: [&'static str; 5])
    ensures
        classes[0]@ == "card"@,
        classes[1]@ == "metric-card"@,
        classes[2]@ == "sensor-card"@,
        classes[3]@ == (match size {
            CardSize::Narrow => "narrow-sensor-card"@,
            CardSize::Compact => "compact-sensor-card"@,
        }),
        classes[4] == status_class,
{
    ["card", "metric-card", "sensor-card", size.css_class(), status_class]
}

} // verus!
