//! The strategy: what a user of the engine writes.

use vstd::prelude::*;
use crate::DataNumberType;
use crate::PortfolioNumberType;
use crate::broker::slippage::SlippageModel;
use crate::data::slice::Slice;
use crate::rtengine::EngineHandle;

verus! {

/// A strategy. The engine calls `on_data` once for every cycle whose slice
/// holds data, with the slice and a handle through which the strategy reads
/// the time, the cash and the holdings, looks at what became of its orders,
/// and submits new ones. An order submitted here is first considered in the
/// next cycle.
pub trait Algo: Clone {
    type NumberType: DataNumberType + PortfolioNumberType;

    type Slippage: SlippageModel<NumberType = Self::NumberType>;

    fn on_data(
        &self,
        slice: Slice<Self::NumberType>,
        engine: &mut EngineHandle<Self::NumberType, Self::Slippage>,
    );
}

} // verus!
