use vstd::prelude::*;

verus! {

/// The external market a chamber position is deployed on.
/// Names every integrated backend protocol.
#[derive(Clone, Copy, Debug, PartialEq, Eq, Structural)]
pub enum ChamberMarket {
    Tulip,
}

} // verus!
