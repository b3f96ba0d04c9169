use uniswap_lens::amm::Dex;
use uniswap_lens::pool_lens::{
    check_storage_lens_supported, filter_ticks_in_range, populated_ticks_from_call,
    populated_ticks_in_range_call, populated_ticks_in_range_v4_call, positions_slots_call,
    static_slots_call, tick_bitmap_slots_call, ticks_slots_call, Address, Error, LensCall, PoolKey,
    PopulatedTick, PositionKey, I24_MAX, I24_MIN,
};

fn addr(last: u8) -> Address {
    let mut a = [0u8; 20];
    a[19] = last;
    a
}

fn tick(t: i32, gross: u128) -> PopulatedTick {
    PopulatedTick {
        tick: t,
        liquidity_net: -(gross as i128),
        liquidity_gross: gross,
        fee_growth_outside0_x128: [1u8; 32],
        fee_growth_outside1_x128: [2u8; 32],
    }
}

#[test]
fn test_storage_lens_dex_not_supported() {
    let pool = addr(1);
    for dex in [Dex::SlipStream, Dex::Algebra] {
        assert!(matches!(static_slots_call(dex, pool), Err(Error::DexNotSupported)));
        assert!(matches!(ticks_slots_call(dex, pool, 0, 0), Err(Error::DexNotSupported)));
        assert!(matches!(tick_bitmap_slots_call(dex, pool), Err(Error::DexNotSupported)));
    }
}

#[test]
fn storage_lens_support_per_dex() {
    assert_eq!(check_storage_lens_supported(Dex::UniswapV3), Ok(()));
    assert_eq!(check_storage_lens_supported(Dex::PancakeSwapV3), Ok(()));
    assert_eq!(check_storage_lens_supported(Dex::UniswapV4), Ok(()));
    assert_eq!(check_storage_lens_supported(Dex::SlipStream), Err(Error::DexNotSupported));
    assert_eq!(check_storage_lens_supported(Dex::Algebra), Err(Error::DexNotSupported));
}

#[test]
fn storage_lens_calls_carry_dex_code() {
    let pool = addr(7);
    assert_eq!(
        static_slots_call(Dex::UniswapV3, pool),
        Ok(LensCall::StaticSlots { dex: 0, pool })
    );
    assert_eq!(
        ticks_slots_call(Dex::PancakeSwapV3, pool, -60, 120),
        Ok(LensCall::TicksSlots { dex: 1, pool, tick_lower: -60, tick_upper: 120 })
    );
    assert_eq!(
        tick_bitmap_slots_call(Dex::UniswapV4, pool),
        Ok(LensCall::TickBitmapSlots { dex: 3, pool })
    );
}

#[test]
fn positions_slots_accepted_for_every_dex() {
    let pool = addr(3);
    let positions = vec![
        PositionKey { owner: addr(9), tick_lower: -887220, tick_upper: 887220 },
        PositionKey { owner: addr(10), tick_lower: I24_MIN, tick_upper: I24_MAX },
    ];
    assert_eq!(
        positions_slots_call(Dex::SlipStream, pool, positions.clone()),
        LensCall::PositionsSlots { dex: 2, pool, positions: positions.clone() }
    );
    assert_eq!(
        positions_slots_call(Dex::UniswapV3, pool, positions.clone()),
        LensCall::PositionsSlots { dex: 0, pool, positions: positions.clone() }
    );
    assert_eq!(
        positions_slots_call(Dex::Algebra, pool, positions.clone()),
        LensCall::PositionsSlots { dex: 4, pool, positions }
    );
}

#[test]
fn populated_ticks_calls() {
    let pool = addr(4);
    assert_eq!(
        populated_ticks_in_range_call(Dex::SlipStream, pool, -10, 10),
        LensCall::PopulatedTicksInRange { dex: 2, pool, tick_lower: -10, tick_upper: 10 }
    );
    assert_eq!(
        populated_ticks_in_range_call(Dex::Algebra, pool, -600, 600),
        LensCall::PopulatedTicksInRange { dex: 4, pool, tick_lower: -600, tick_upper: 600 }
    );
    let key = PoolKey {
        currency0: [0u8; 20],
        currency1: addr(0x48),
        fee: 3000,
        tick_spacing: 60,
        hooks: [0u8; 20],
    };
    assert_eq!(
        populated_ticks_in_range_v4_call(addr(0x90), key, -199_980, -193_980),
        LensCall::PopulatedTicksInRangeV4 {
            pool_manager: addr(0x90),
            pool_key: key,
            tick_lower: -199_980,
            tick_upper: -193_980,
        }
    );
}

#[test]
fn filter_keeps_range_inclusive_and_order() {
    let ticks = vec![tick(-120, 1), tick(-60, 2), tick(0, 3), tick(60, 4), tick(120, 5), tick(-60, 6)];
    let kept = filter_ticks_in_range(ticks, -60, 60);
    assert_eq!(kept, vec![tick(-60, 2), tick(0, 3), tick(60, 4), tick(-60, 6)]);
}

#[test]
fn filter_inverted_range_is_empty() {
    let ticks = vec![tick(-1, 1), tick(0, 2), tick(1, 3)];
    assert!(filter_ticks_in_range(ticks, 1, -1).is_empty());
}

#[test]
fn filter_is_idempotent_and_sound() {
    let ticks = vec![tick(-199_980, 1), tick(-200_000, 2), tick(-196_260, 3), tick(-193_980, 4), tick(-193_920, 5)];
    let once = filter_ticks_in_range(ticks, -199_980, -193_980);
    for t in &once {
        assert!(t.tick >= -199_980 && t.tick <= -193_980);
    }
    let twice = filter_ticks_in_range(once.clone(), -199_980, -193_980);
    assert_eq!(once, twice);
    assert_eq!(once.len(), 3);
}

#[test]
fn filter_keeps_everything_in_full_range() {
    let ticks = vec![tick(I24_MIN, 1), tick(0, 2), tick(I24_MAX, 3)];
    assert_eq!(filter_ticks_in_range(ticks.clone(), I24_MIN, I24_MAX), ticks);
}

#[test]
fn filter_concat_is_concat_of_filters() {
    let a = vec![tick(5, 1), tick(50, 2)];
    let b = vec![tick(-5, 3), tick(10, 4)];
    let mut ab = a.clone();
    ab.extend(b.clone());
    let mut parts = filter_ticks_in_range(a, 0, 10);
    parts.extend(filter_ticks_in_range(b, 0, 10));
    assert_eq!(filter_ticks_in_range(ab, 0, 10), parts);
}

#[test]
fn finish_call_filters_ok_and_passes_err() {
    let ok: Result<Vec<PopulatedTick>, String> = Ok(vec![tick(1, 1), tick(100, 2)]);
    assert_eq!(populated_ticks_from_call(ok, 0, 10), Ok(vec![tick(1, 1)]));
    let err: Result<Vec<PopulatedTick>, String> = Err("reverted".to_string());
    assert_eq!(populated_ticks_from_call(err, 0, 10), Err("reverted".to_string()));
}
