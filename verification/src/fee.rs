//! Fee estimates: from what an execution charged and used to gas amounts and an overall fee.

use vstd::prelude::*;
use crate::execution::{ExecutionInfo, FeeType, FeeError, GasVector, SimulationError};

verus! {

/// Unit prices of computation gas and of data-availability gas, per fee token.
#[derive(Clone, Copy, Debug, PartialEq, Eq, Structural)]
pub struct GasPrices {
    pub eth_l1_gas_price: u128,
    pub strk_l1_gas_price: u128,
    pub eth_l1_data_gas_price: u128,
    pub strk_l1_data_gas_price: u128,
}

impl GasPrices {
    /// The price of one unit of computation gas in the given token.
    pub open spec fn gas_price(&self, fee_type: FeeType) -> u128 {
        match fee_type {
            FeeType::Eth => self.eth_l1_gas_price,
            FeeType::Strk => self.strk_l1_gas_price,
        }
    }

    /// The price of one unit of data-availability gas in the given token.
    pub open spec fn data_gas_price(&self, fee_type: FeeType) -> u128 {
        match fee_type {
            FeeType::Eth => self.eth_l1_data_gas_price,
            FeeType::Strk => self.strk_l1_data_gas_price,
        }
    }

    /// The price of one unit of computation gas in the given token.
    pub fn get_gas_price_by_fee_type(&self, fee_type: &FeeType) -> (price: u128)
        ensures
            price == self.gas_price(*fee_type),
    {
        match fee_type {
            FeeType::Eth => self.eth_l1_gas_price,
            FeeType::Strk => self.strk_l1_gas_price,
        }
    }

    /// The price of one unit of data-availability gas in the given token.
    pub fn get_data_gas_price_by_fee_type(&self, fee_type: &FeeType) -> (price: u128)
        ensures
            price == self.data_gas_price(*fee_type),
    {
        match fee_type {
            FeeType::Eth => self.eth_l1_data_gas_price,
            FeeType::Strk => self.strk_l1_data_gas_price,
        }
    }
}

/// What a transaction is estimated to cost.
#[derive(Clone, Copy, Debug, PartialEq, Eq, Structural)]
pub struct FeeEstimate {
    pub gas_consumed: u128,
    pub gas_price: u128,
    pub data_gas_consumed: u128,
    pub data_gas_price: u128,
    pub overall_fee: u128,
    pub fee_type: FeeType,
}

/// The product of two amounts, held at the largest amount where it would exceed it.
pub open spec fn sat_mul(a: u128, b: u128) -> u128 {
    if a * b > u128::MAX {
        u128::MAX
    } else {
        (a * b) as u128
    }
}

/// The sum of two amounts, held at the largest amount where it would exceed it.
pub open spec fn sat_add(a: u128, b: u128) -> u128 {
    if a + b > u128::MAX {
        u128::MAX
    } else {
        (a + b) as u128
    }
}

/// The difference of two amounts, held at zero where it would fall below it.
pub open spec fn sat_sub(a: u128, b: u128) -> u128 {
    if a < b {
        0
    } else {
        (a - b) as u128
    }
}

/// The larger of two amounts.
pub open spec fn larger(a: u128, b: u128) -> u128 {
    if a >= b {
        a
    } else {
        b
    }
}

/// The gas that a charged fee and the data-availability gas used amount to, before any
/// minimum applies: the fee less the cost of the data gas, divided by the gas price, which
/// counts as 1 where it is 0.
pub open spec fn consumption(fee: u128, da_gas: GasVector, gas_price: u128, data_gas_price: u128)
    -> GasVector {
    GasVector {
        l1_gas: sat_sub(fee, sat_mul(da_gas.l1_data_gas, data_gas_price)) / larger(gas_price, 1),
        l1_data_gas: da_gas.l1_data_gas,
    }
}

/// The minimum that applies to each amount: that of the vector, or none.
pub open spec fn floor_of(minimal: Option<GasVector>) -> GasVector {
    match minimal {
        Some(vector) => vector,
        None => GasVector { l1_gas: 0, l1_data_gas: 0 },
    }
}

/// The estimate for a charged fee: the consumption raised to the minimum, and the overall
/// fee computed anew from the raised amounts.
pub open spec fn estimate_of(
    fee: u128,
    da_gas: GasVector,
    gas_price: u128,
    data_gas_price: u128,
    fee_type: FeeType,
    minimal: Option<GasVector>,
) -> FeeEstimate {
    let used = consumption(fee, da_gas, gas_price, data_gas_price);
    let floor = floor_of(minimal);
    let gas_consumed = larger(used.l1_gas, floor.l1_gas);
    let data_gas_consumed = larger(used.l1_data_gas, floor.l1_data_gas);
    FeeEstimate {
        gas_consumed,
        gas_price,
        data_gas_consumed,
        data_gas_price,
        overall_fee: sat_add(
            sat_mul(gas_consumed, gas_price),
            sat_mul(data_gas_consumed, data_gas_price),
        ),
        fee_type,
    }
}

/// The fee that an estimate starts from: the fee charged, or, where none was charged, the
/// fee that the resource-cost model gives.
pub open spec fn effective_fee(actual_fee: u128, priced_resources: Result<u128, FeeError>)
    -> Result<u128, FeeError> {
    if actual_fee == 0 {
        priced_resources
    } else {
        Ok(actual_fee)
    }
}

/// Multiplies two amounts, saturating at the largest amount.
pub fn saturating_mul(a: u128, b: u128) -> (product: u128)
    ensures
        product == sat_mul(a, b),
{
    match a.checked_mul(b) {
        Some(product) => product,
        None => u128::MAX,
    }
}

/// Computes the fee estimate of an execution.
///
/// `priced_resources` is what the resource-cost model gives for the resources that the
/// execution used. It is read only where the execution charged no fee, and then replaces
/// the fee in `tx_info`; where it is an error then, that error is returned and `tx_info`
/// stays as it was.
pub fn from_tx_info_and_gas_price(
    tx_info: &mut ExecutionInfo,
    gas_prices: &GasPrices,
    fee_type: FeeType,
    minimal_l1_gas_amount_vector: Option<GasVector>,
    priced_resources: Result<u128, FeeError>,
) -> (estimate: Result<FeeEstimate, SimulationError>)
    ensures
        match effective_fee(old(tx_info).actual_fee, priced_resources) {
            Ok(fee) => {
                &&& estimate == Ok::<FeeEstimate, SimulationError>(
                    estimate_of(
                        fee,
                        old(tx_info).da_gas,
                        gas_prices.gas_price(fee_type),
                        gas_prices.data_gas_price(fee_type),
                        fee_type,
                        minimal_l1_gas_amount_vector,
                    ),
                )
                &&& final(tx_info).actual_fee == fee
            },
            Err(e) => {
                &&& estimate == Err::<FeeEstimate, SimulationError>(
                    SimulationError::FeeComputation(e),
                )
                &&& final(tx_info).actual_fee == old(tx_info).actual_fee
            },
        },
        final(tx_info).da_gas == old(tx_info).da_gas,
        final(tx_info).actual_resources == old(tx_info).actual_resources,
        final(tx_info).revert_error == old(tx_info).revert_error,
{
    let gas_price = gas_prices.get_gas_price_by_fee_type(&fee_type);
    let data_gas_price = gas_prices.get_data_gas_price_by_fee_type(&fee_type);
    if tx_info.actual_fee == 0 {
        match priced_resources {
            Ok(fee) => {
                tx_info.actual_fee = fee;
            },
            Err(e) => {
                return Err(SimulationError::FeeComputation(e));
            },
        }
    }
    let data_gas_consumed = tx_info.da_gas.l1_data_gas;
    let data_gas_fee = saturating_mul(data_gas_consumed, data_gas_price);
    let unit_price: u128 = if gas_price < 1 {
        1
    } else {
        gas_price
    };
    let gas_consumed = tx_info.actual_fee.saturating_sub(data_gas_fee) / unit_price;

    let (minimal_gas_consumed, minimal_data_gas_consumed) = match minimal_l1_gas_amount_vector {
        Some(vector) => (vector.l1_gas, vector.l1_data_gas),
        None => (0, 0),
    };

    let gas_consumed = if gas_consumed >= minimal_gas_consumed {
        gas_consumed
    } else {
        minimal_gas_consumed
    };
    let data_gas_consumed = if data_gas_consumed >= minimal_data_gas_consumed {
        data_gas_consumed
    } else {
        minimal_data_gas_consumed
    };
    let overall_fee = saturating_mul(gas_consumed, gas_price).saturating_add(
        saturating_mul(data_gas_consumed, data_gas_price),
    );

    Ok(
        FeeEstimate {
            gas_consumed,
            gas_price,
            data_gas_consumed,
            data_gas_price,
            overall_fee,
            fee_type,
        },
    )
}

/// A fee below the cost of the data-availability gas leaves no computation gas: the
/// consumption is zero, and the estimate reports the minimum alone.
pub proof fn lemma_fee_below_data_cost_consumes_no_gas(
    fee: u128,
    da_gas: GasVector,
    gas_price: u128,
    data_gas_price: u128,
    fee_type: FeeType,
    minimal: Option<GasVector>,
)
    requires
        fee < sat_mul(da_gas.l1_data_gas, data_gas_price),
    ensures
        consumption(fee, da_gas, gas_price, data_gas_price).l1_gas == 0,
        estimate_of(fee, da_gas, gas_price, data_gas_price, fee_type, None).gas_consumed == 0,
        estimate_of(fee, da_gas, gas_price, data_gas_price, fee_type, minimal).gas_consumed
            == floor_of(minimal).l1_gas,
{
    let unit = larger(gas_price, 1);
    assert(0u128 / unit == 0) by (nonlinear_arith)
        requires
            unit >= 1,
    ;
}

/// The amounts that an estimate reports are, each for itself, the larger of the amount
/// consumed and the minimal amount.
pub proof fn lemma_estimate_is_floored_consumption(
    fee: u128,
    da_gas: GasVector,
    gas_price: u128,
    data_gas_price: u128,
    fee_type: FeeType,
    minimal: GasVector,
)
    ensures
        ({
            let used = consumption(fee, da_gas, gas_price, data_gas_price);
            let estimate = estimate_of(
                fee,
                da_gas,
                gas_price,
                data_gas_price,
                fee_type,
                Some(minimal),
            );
            &&& estimate.gas_consumed == larger(used.l1_gas, minimal.l1_gas)
            &&& estimate.data_gas_consumed == larger(used.l1_data_gas, minimal.l1_data_gas)
            &&& estimate.gas_consumed >= used.l1_gas
            &&& estimate.gas_consumed >= minimal.l1_gas
            &&& estimate.data_gas_consumed >= used.l1_data_gas
            &&& estimate.data_gas_consumed >= minimal.l1_data_gas
            &&& estimate.gas_consumed == used.l1_gas || estimate.gas_consumed == minimal.l1_gas
            &&& estimate.data_gas_consumed == used.l1_data_gas || estimate.data_gas_consumed
                == minimal.l1_data_gas
        }),
{
}

} // verus!
