use starknet_simulation::execution::{
    ExecutionInfo, FeeError, FeeType, GasVector, ResourceUsage, SimulationError,
};
use starknet_simulation::fee::{
    from_tx_info_and_gas_price, saturating_mul, FeeEstimate, GasPrices,
};

fn prices() -> GasPrices {
    GasPrices {
        eth_l1_gas_price: 10,
        strk_l1_gas_price: 4,
        eth_l1_data_gas_price: 5,
        strk_l1_data_gas_price: 2,
    }
}

fn info(actual_fee: u128, data_gas: u128) -> ExecutionInfo {
    ExecutionInfo {
        actual_fee,
        da_gas: GasVector { l1_gas: 0, l1_data_gas: data_gas },
        actual_resources: ResourceUsage {
            n_steps: 100,
            n_memory_holes: 2,
            l1_gas_usage: 3,
            l1_blob_gas_usage: 4,
        },
        revert_error: None,
    }
}

#[test]
fn gas_prices_are_picked_by_fee_type() {
    let prices = prices();
    assert_eq!(prices.get_gas_price_by_fee_type(&FeeType::Eth), 10);
    assert_eq!(prices.get_gas_price_by_fee_type(&FeeType::Strk), 4);
    assert_eq!(prices.get_data_gas_price_by_fee_type(&FeeType::Eth), 5);
    assert_eq!(prices.get_data_gas_price_by_fee_type(&FeeType::Strk), 2);
}

#[test]
fn saturating_mul_is_exact_or_saturates() {
    assert_eq!(saturating_mul(6, 7), 42);
    assert_eq!(saturating_mul(0, u128::MAX), 0);
    assert_eq!(saturating_mul(u128::MAX, 1), u128::MAX);
    assert_eq!(saturating_mul(u128::MAX, 2), u128::MAX);
    assert_eq!(saturating_mul(1 << 64, 1 << 64), u128::MAX);
    assert_eq!(saturating_mul(1 << 64, (1 << 63) + 5), ((1u128 << 63) + 5) << 64);
}

#[test]
fn estimate_splits_fee_into_gas_and_data_gas() {
    let mut tx_info = info(1000, 10);
    let estimate =
        from_tx_info_and_gas_price(&mut tx_info, &prices(), FeeType::Eth, None, Ok(77)).unwrap();
    assert_eq!(
        estimate,
        FeeEstimate {
            gas_consumed: 95,
            gas_price: 10,
            data_gas_consumed: 10,
            data_gas_price: 5,
            overall_fee: 1000,
            fee_type: FeeType::Eth,
        }
    );
    assert_eq!(tx_info, info(1000, 10));
}

#[test]
fn estimate_in_the_second_token_uses_its_prices() {
    let mut tx_info = info(1000, 10);
    let estimate =
        from_tx_info_and_gas_price(&mut tx_info, &prices(), FeeType::Strk, None, Ok(77)).unwrap();
    assert_eq!(
        estimate,
        FeeEstimate {
            gas_consumed: 245,
            gas_price: 4,
            data_gas_consumed: 10,
            data_gas_price: 2,
            overall_fee: 1000,
            fee_type: FeeType::Strk,
        }
    );
}

#[test]
fn division_rounds_down_and_overall_fee_is_recomputed() {
    let mut tx_info = info(1009, 10);
    let estimate =
        from_tx_info_and_gas_price(&mut tx_info, &prices(), FeeType::Eth, None, Ok(0)).unwrap();
    assert_eq!(estimate.gas_consumed, 95);
    assert_eq!(estimate.overall_fee, 1000);
}

#[test]
fn fee_below_data_gas_cost_gives_zero_gas() {
    let mut tx_info = info(49, 10);
    let estimate =
        from_tx_info_and_gas_price(&mut tx_info, &prices(), FeeType::Eth, None, Ok(0)).unwrap();
    assert_eq!(estimate.gas_consumed, 0);
    assert_eq!(estimate.data_gas_consumed, 10);
    assert_eq!(estimate.overall_fee, 50);
}

#[test]
fn fee_below_saturated_data_gas_cost_gives_zero_gas() {
    let mut tx_info = info(u128::MAX - 1, u128::MAX);
    let estimate =
        from_tx_info_and_gas_price(&mut tx_info, &prices(), FeeType::Eth, None, Ok(0)).unwrap();
    assert_eq!(estimate.gas_consumed, 0);
    assert_eq!(estimate.data_gas_consumed, u128::MAX);
    assert_eq!(estimate.overall_fee, u128::MAX);
}

#[test]
fn zero_gas_price_counts_as_one() {
    let prices = GasPrices {
        eth_l1_gas_price: 0,
        strk_l1_gas_price: 0,
        eth_l1_data_gas_price: 5,
        strk_l1_data_gas_price: 0,
    };
    let mut tx_info = info(1000, 10);
    let estimate =
        from_tx_info_and_gas_price(&mut tx_info, &prices, FeeType::Eth, None, Ok(0)).unwrap();
    assert_eq!(estimate.gas_consumed, 950);
    assert_eq!(estimate.gas_price, 0);
    assert_eq!(estimate.overall_fee, 50);
}

#[test]
fn minimal_gas_vector_floors_both_amounts() {
    let minimal = GasVector { l1_gas: 200, l1_data_gas: 3 };
    let mut tx_info = info(1000, 10);
    let estimate =
        from_tx_info_and_gas_price(&mut tx_info, &prices(), FeeType::Eth, Some(minimal), Ok(0))
            .unwrap();
    assert_eq!(estimate.gas_consumed, 200);
    assert_eq!(estimate.data_gas_consumed, 10);
    assert_eq!(estimate.overall_fee, 200 * 10 + 10 * 5);

    let minimal = GasVector { l1_gas: 20, l1_data_gas: 30 };
    let mut tx_info = info(1000, 10);
    let estimate =
        from_tx_info_and_gas_price(&mut tx_info, &prices(), FeeType::Eth, Some(minimal), Ok(0))
            .unwrap();
    assert_eq!(estimate.gas_consumed, 95);
    assert_eq!(estimate.data_gas_consumed, 30);
    assert_eq!(estimate.overall_fee, 95 * 10 + 30 * 5);
}

#[test]
fn minimal_gas_vector_equal_to_consumption_changes_nothing() {
    let minimal = GasVector { l1_gas: 95, l1_data_gas: 10 };
    let mut tx_info = info(1000, 10);
    let estimate =
        from_tx_info_and_gas_price(&mut tx_info, &prices(), FeeType::Eth, Some(minimal), Ok(0))
            .unwrap();
    assert_eq!(estimate.gas_consumed, 95);
    assert_eq!(estimate.data_gas_consumed, 10);
    assert_eq!(estimate.overall_fee, 1000);
}

#[test]
fn overall_fee_saturates() {
    let prices = GasPrices {
        eth_l1_gas_price: u128::MAX,
        strk_l1_gas_price: 1,
        eth_l1_data_gas_price: 1,
        strk_l1_data_gas_price: 1,
    };
    let minimal = GasVector { l1_gas: 2, l1_data_gas: 0 };
    let mut tx_info = info(1000, 10);
    let estimate =
        from_tx_info_and_gas_price(&mut tx_info, &prices, FeeType::Eth, Some(minimal), Ok(0))
            .unwrap();
    assert_eq!(estimate.gas_consumed, 2);
    assert_eq!(estimate.overall_fee, u128::MAX);
}

#[test]
fn zero_fee_is_replaced_by_the_priced_resources() {
    let mut tx_info = info(0, 10);
    let estimate =
        from_tx_info_and_gas_price(&mut tx_info, &prices(), FeeType::Eth, None, Ok(1000)).unwrap();
    assert_eq!(tx_info.actual_fee, 1000);
    assert_eq!(estimate.gas_consumed, 95);
    assert_eq!(estimate.overall_fee, 1000);
    assert!(estimate.overall_fee > 0);
}

#[test]
fn zero_fee_that_cannot_be_priced_is_a_fee_error() {
    let mut tx_info = info(0, 10);
    let result = from_tx_info_and_gas_price(
        &mut tx_info,
        &prices(),
        FeeType::Eth,
        None,
        Err(FeeError::UnpricedResource),
    );
    assert_eq!(result, Err(SimulationError::FeeComputation(FeeError::UnpricedResource)));
    assert_eq!(tx_info, info(0, 10));
    let result = from_tx_info_and_gas_price(
        &mut tx_info,
        &prices(),
        FeeType::Eth,
        None,
        Err(FeeError::MissingL1GasUsage),
    );
    assert_eq!(result, Err(SimulationError::FeeComputation(FeeError::MissingL1GasUsage)));
}

#[test]
fn charged_fee_ignores_a_pricing_failure() {
    let mut tx_info = info(1000, 10);
    let result = from_tx_info_and_gas_price(
        &mut tx_info,
        &prices(),
        FeeType::Eth,
        None,
        Err(FeeError::UnpricedResource),
    );
    assert_eq!(result.unwrap().overall_fee, 1000);
}
