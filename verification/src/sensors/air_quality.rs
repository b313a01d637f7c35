use vstd::prelude::*;

verus! {

/// Unit a gas sensor reports in.
///
/// AirGradient's own firmware exposes VOC and NOx as a unitless sensor index,
/// while some compatible local-server implementations report a concentration
/// in parts per billion, so the unit travels with the value.
#[derive(Debug, Clone, Copy, PartialEq, Eq, Structural)]
pub enum GasUnit {
    /// Unitless sensor index.
    Index,
    /// Parts per billion.
    Ppb,
}

impl GasUnit {
    /// Short label shown on a card.
    pub fn as_str(self) -> (label: &'static str)
        ensures
            label@ == (match self {
                GasUnit::Index => "index"@,
                GasUnit::Ppb => "ppb"@,
            }),
    {
        match self {
            GasUnit::Index => "index",
            GasUnit::Ppb => "ppb",
        }
    }
}

} // verus!
