use vstd::prelude::*;

verus! {

/// Which direction of a transition on the gating pin counts as one edge.
pub enum EdgePolarity {
    Rising,
    Falling,
}

/// An external edge trigger: the watched GPIO index and the
/// transition direction it counts.
pub struct EdgeTrigger {
    pub index: u8,
    pub polarity: EdgePolarity,
}

/// When an armed channel may begin emitting its pulse train.
///
/// The trigger is chosen once, when the shared program is compiled; both
/// channels run the same compiled shape and each supplies its own arm count
/// at arm time.
pub enum Trigger {
    Edge(EdgeTrigger),
    Immediate,
}

} // verus!
