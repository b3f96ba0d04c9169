//! Planning of the ephemeral lens calls that read a pool, and selection of the
//! populated ticks that such a call returns.
//!
//! A lens call deploys a contract whose constructor reads the pool and hands
//! back the result; sending it is I/O and is left to the caller. What is decided
//! here is which lens to deploy, with which arguments, whether the DEX allows it,
//! and which of the returned ticks belong to the requested range.
use vstd::prelude::*;

use crate::amm::{dex_code, Dex};

verus! {

/// A 20-byte account address.
pub type Address = [u8; 20];

/// A 256-bit word, as its 32 big-endian bytes.
pub type Word = [u8; 32];

/// The smallest value of a signed 24-bit integer, the type of a tick.
pub const I24_MIN: i32 = -8388608i32;

/// The largest value of a signed 24-bit integer, the type of a tick.
pub const I24_MAX: i32 = 8388607i32;

/// Whether `v` fits in a signed 24-bit integer, as every tick does.
pub open spec fn is_i24(v: i32) -> bool {
    I24_MIN <= v <= I24_MAX
}

/// Whether every tick of `ticks` fits in a signed 24-bit integer.
pub open spec fn ticks_are_i24(ticks: Seq<PopulatedTick>) -> bool {
    forall|i: int| 0 <= i < ticks.len() ==> is_i24(#[trigger] ticks[i].tick)
}

/// The errors that the lens raises by its own rules.
#[derive(Debug, Clone, Copy, PartialEq, Eq, Structural)]
pub enum Error {
    /// The storage lenses do not know the storage layout of this DEX's pools.
    DexNotSupported,
}

/// A tick of a pool that holds liquidity, as a lens reports it.
#[derive(Debug, Clone, Copy, PartialEq, Eq)]
pub struct PopulatedTick {
    pub tick: i32,
    pub liquidity_net: i128,
    pub liquidity_gross: u128,
    pub fee_growth_outside0_x128: Word,
    pub fee_growth_outside1_x128: Word,
}

/// A populated tick of a Uniswap V4 pool; it carries the same fields.
pub type PopulatedTickV4 = PopulatedTick;

/// The key that identifies a Uniswap V4 pool inside its pool manager.
#[derive(Debug, Clone, Copy, PartialEq, Eq)]
pub struct PoolKey {
    pub currency0: Address,
    pub currency1: Address,
    /// The fee, a 24-bit unsigned integer.
    pub fee: u32,
    /// The tick spacing, a 24-bit signed integer.
    pub tick_spacing: i32,
    pub hooks: Address,
}

/// The key of a liquidity position: its owner and its tick bounds.
#[derive(Debug, Clone, Copy, PartialEq, Eq)]
pub struct PositionKey {
    pub owner: Address,
    pub tick_lower: i32,
    pub tick_upper: i32,
}

/// An ephemeral lens deployment: which lens contract, with which constructor
/// arguments. `dex` is the one-byte code of the DEX.
#[derive(Debug, PartialEq, Eq)]
pub enum LensCall {
    PopulatedTicksInRange { dex: u8, pool: Address, tick_lower: i32, tick_upper: i32 },
    PopulatedTicksInRangeV4 {
        pool_manager: Address,
        pool_key: PoolKey,
        tick_lower: i32,
        tick_upper: i32,
    },
    StaticSlots { dex: u8, pool: Address },
    TicksSlots { dex: u8, pool: Address, tick_lower: i32, tick_upper: i32 },
    TickBitmapSlots { dex: u8, pool: Address },
    PositionsSlots { dex: u8, pool: Address, positions: Vec<PositionKey> },
}

/// Whether the storage lenses (static slots, ticks, tick bitmap) can read the
/// pools of `dex`: all but SlipStream and Algebra, whose storage layouts differ.
pub open spec fn storage_lens_supported(dex: Dex) -> bool {
    !(dex == Dex::SlipStream || dex == Dex::Algebra)
}

/// Checks that the storage lenses can read the pools of `amm`.
pub fn check_storage_lens_supported(amm: Dex) -> (res: Result<(), Error>)
    ensures
        storage_lens_supported(amm) <==> res is Ok,
        !storage_lens_supported(amm) ==> res == Err::<(), Error>(Error::DexNotSupported),
{
    match amm {
        Dex::SlipStream | Dex::Algebra => Err(Error::DexNotSupported),
        _ => Ok(()),
    }
}

/// The one-byte code of `amm`, as the lens contracts take it.
fn dex_byte(amm: Dex) -> (code: u8)
    ensures
        code == dex_code(amm),
{
    u8::from(amm)
}

/// The lens that lists the populated ticks of a pool between `tick_lower` and
/// `tick_upper`.
pub fn populated_ticks_in_range_call(
    amm: Dex,
    pool: Address,
    tick_lower: i32,
    tick_upper: i32,
) -> (call: LensCall)
    ensures
        call == (LensCall::PopulatedTicksInRange {
            dex: dex_code(amm),
            pool,
            tick_lower,
            tick_upper,
        }),
{
    LensCall::PopulatedTicksInRange { dex: dex_byte(amm), pool, tick_lower, tick_upper }
}

/// The lens that lists the populated ticks of a Uniswap V4 pool between
/// `tick_lower` and `tick_upper`.
pub fn populated_ticks_in_range_v4_call(
    pool_manager: Address,
    pool_key: PoolKey,
    tick_lower: i32,
    tick_upper: i32,
) -> (call: LensCall)
    ensures
        call == (LensCall::PopulatedTicksInRangeV4 {
            pool_manager,
            pool_key,
            tick_lower,
            tick_upper,
        }),
{
    LensCall::PopulatedTicksInRangeV4 { pool_manager, pool_key, tick_lower, tick_upper }
}

/// The lens that reads the static storage slots of a pool; refused for a DEX
/// whose storage layout the lens does not know.
pub fn static_slots_call(amm: Dex, pool: Address) -> (res: Result<LensCall, Error>)
    ensures
        storage_lens_supported(amm) ==> res == Ok::<LensCall, Error>(
            LensCall::StaticSlots { dex: dex_code(amm), pool },
        ),
        !storage_lens_supported(amm) ==> res == Err::<LensCall, Error>(Error::DexNotSupported),
{
    match check_storage_lens_supported(amm) {
        Err(e) => Err(e),
        Ok(()) => Ok(LensCall::StaticSlots { dex: dex_byte(amm), pool }),
    }
}

/// The lens that reads the storage slots of the `ticks` mapping between
/// `tick_lower` and `tick_upper`; refused for a DEX whose storage layout the
/// lens does not know.
pub fn ticks_slots_call(
    amm: Dex,
    pool: Address,
    tick_lower: i32,
    tick_upper: i32,
) -> (res: Result<LensCall, Error>)
    ensures
        storage_lens_supported(amm) ==> res == Ok::<LensCall, Error>(
            LensCall::TicksSlots { dex: dex_code(amm), pool, tick_lower, tick_upper },
        ),
        !storage_lens_supported(amm) ==> res == Err::<LensCall, Error>(Error::DexNotSupported),
{
    match check_storage_lens_supported(amm) {
        Err(e) => Err(e),
        Ok(()) => Ok(LensCall::TicksSlots { dex: dex_byte(amm), pool, tick_lower, tick_upper }),
    }
}

/// The lens that reads the storage slots of the `tickBitmap` mapping; refused
/// for a DEX whose storage layout the lens does not know.
pub fn tick_bitmap_slots_call(amm: Dex, pool: Address) -> (res: Result<LensCall, Error>)
    ensures
        storage_lens_supported(amm) ==> res == Ok::<LensCall, Error>(
            LensCall::TickBitmapSlots { dex: dex_code(amm), pool },
        ),
        !storage_lens_supported(amm) ==> res == Err::<LensCall, Error>(Error::DexNotSupported),
{
    match check_storage_lens_supported(amm) {
        Err(e) => Err(e),
        Ok(()) => Ok(LensCall::TickBitmapSlots { dex: dex_byte(amm), pool }),
    }
}

/// The lens that reads the storage slots of the `positions` mapping for the
/// given position keys; it is accepted for every DEX.
pub fn positions_slots_call(amm: Dex, pool: Address, positions: Vec<PositionKey>) -> (call:
    LensCall)
    ensures
        call == (LensCall::PositionsSlots { dex: dex_code(amm), pool, positions }),
{
    LensCall::PositionsSlots { dex: dex_byte(amm), pool, positions }
}

/// Whether `tick` lies in the closed range from `tick_lower` to `tick_upper`.
pub open spec fn tick_in_range(tick: i32, tick_lower: i32, tick_upper: i32) -> bool {
    tick_lower <= tick && tick <= tick_upper
}

/// The ticks of `ticks` that lie in the closed range from `tick_lower` to
/// `tick_upper`, in their order.
pub open spec fn ticks_in_range(ticks: Seq<PopulatedTick>, tick_lower: i32, tick_upper: i32) -> Seq<
    PopulatedTick,
> {
    ticks.filter(in_range_pred(tick_lower, tick_upper))
}

/// The predicate on ticks that holds of those in the closed range from
/// `tick_lower` to `tick_upper`.
pub open spec fn in_range_pred(tick_lower: i32, tick_upper: i32) -> spec_fn(PopulatedTick) -> bool {
    |t: PopulatedTick| tick_in_range(t.tick, tick_lower, tick_upper)
}

/// Keeps the ticks that lie between `tick_lower` and `tick_upper`, both
/// included, in the order in which they come.
pub fn filter_ticks_in_range(ticks: Vec<PopulatedTick>, tick_lower: i32, tick_upper: i32) -> (res:
    Vec<PopulatedTick>)
    ensures
        res@ == ticks_in_range(ticks@, tick_lower, tick_upper),
        res@ == ticks@.filter(|t: PopulatedTick| tick_lower <= t.tick && t.tick <= tick_upper),
        forall|i: int|
            0 <= i < ticks@.len() && tick_lower <= ticks@[i].tick && ticks@[i].tick <= tick_upper
                ==> #[trigger] res@.contains(ticks@[i]),
        forall|t: PopulatedTick| #[trigger] res@.contains(t) ==> ticks@.contains(t),
        forall|i: int|
            0 <= i < res@.len() ==> (tick_lower <= #[trigger] res@[i].tick && res@[i].tick <= tick_upper),
        ticks_are_i24(ticks@) ==> ticks_are_i24(res@),
        is_i24(tick_lower) && is_i24(tick_upper) ==> ticks_are_i24(res@),
{
    let ghost pred = in_range_pred(tick_lower, tick_upper);
    let mut res: Vec<PopulatedTick> = Vec::new();
    let n = ticks.len();
    let mut i: usize = 0;
    while i < n
        invariant
            n == ticks.len(),
            i <= n,
            pred == in_range_pred(tick_lower, tick_upper),
            res@ == ticks@.take(i as int).filter(pred),
        decreases n - i,
    {
        let t = ticks[i];
        proof {
            assert(ticks@.take(i as int + 1) =~= ticks@.take(i as int).push(t));
            ticks@.take(i as int).lemma_filter_push(t, pred);
        }
        let keep = t.tick >= tick_lower && t.tick <= tick_upper;
        assert(keep == pred(t));
        if keep {
            res.push(t);
        }
        i = i + 1;
    }
    assert(ticks@.take(n as int) =~= ticks@);
    proof {
        lemma_ticks_in_range_sound(ticks@, tick_lower, tick_upper);
        lemma_ticks_in_range_keeps_i24(ticks@, tick_lower, tick_upper);
        lemma_ticks_in_range_complete(ticks@, tick_lower, tick_upper);
        lemma_ticks_in_range_is_range_filter(ticks@, tick_lower, tick_upper);
    }
    res
}

/// Finishes a populated-ticks lens call: on success keeps the ticks between
/// `tick_lower` and `tick_upper`, on failure hands the error back unchanged.
pub fn populated_ticks_from_call<E>(
    result: Result<Vec<PopulatedTick>, E>,
    tick_lower: i32,
    tick_upper: i32,
) -> (res: Result<Vec<PopulatedTick>, E>)
    ensures
        result is Ok <==> res is Ok,
        result matches Ok(ticks) ==> res matches Ok(kept) && kept@ == ticks_in_range(
            ticks@,
            tick_lower,
            tick_upper,
        ),
        result matches Ok(ticks) ==> res matches Ok(kept) && kept@ == ticks@.filter(
            |t: PopulatedTick| tick_lower <= t.tick && t.tick <= tick_upper,
        ),
        res matches Ok(kept) ==> forall|i: int|
            0 <= i < kept@.len() ==> (tick_lower <= #[trigger] kept@[i].tick && kept@[i].tick <= tick_upper),
        (result matches Ok(ticks) && ticks_are_i24(ticks@)) ==> ticks_are_i24(res->Ok_0@),
        (is_i24(tick_lower) && is_i24(tick_upper) && res is Ok) ==> ticks_are_i24(res->Ok_0@),
        result matches Err(e) ==> res matches Err(e2) && e2 == e,
{
    match result {
        Ok(ticks) => Ok(filter_ticks_in_range(ticks, tick_lower, tick_upper)),
        Err(err) => Err(err),
    }
}

/// Every tick that the selection keeps lies in the requested range.
pub proof fn lemma_ticks_in_range_sound(ticks: Seq<PopulatedTick>, tick_lower: i32, tick_upper: i32)
    ensures
        forall|i: int|
            #![trigger ticks_in_range(ticks, tick_lower, tick_upper)[i]]
            0 <= i < ticks_in_range(ticks, tick_lower, tick_upper).len() ==> tick_lower
                <= ticks_in_range(ticks, tick_lower, tick_upper)[i].tick
                && ticks_in_range(ticks, tick_lower, tick_upper)[i].tick <= tick_upper,
{
    broadcast use vstd::seq_lib::group_filter_ensures;

    let kept = ticks_in_range(ticks, tick_lower, tick_upper);
    assert forall|i: int| 0 <= i < kept.len() implies tick_lower <= #[trigger] kept[i].tick
        && kept[i].tick <= tick_upper by {
        ticks.lemma_filter_pred(in_range_pred(tick_lower, tick_upper), i);
    }
}

/// The selection drops no tick of the range, and keeps only ticks that were
/// given; it is never longer than what it was given.
pub proof fn lemma_ticks_in_range_complete(ticks: Seq<PopulatedTick>, tick_lower: i32, tick_upper: i32)
    ensures
        forall|i: int|
            0 <= i < ticks.len() && (tick_lower <= ticks[i].tick && ticks[i].tick <= tick_upper)
                ==> #[trigger] ticks_in_range(ticks, tick_lower, tick_upper).contains(ticks[i]),
        forall|t: PopulatedTick| #[trigger]
            ticks_in_range(ticks, tick_lower, tick_upper).contains(t) ==> ticks.contains(t),
        ticks_in_range(ticks, tick_lower, tick_upper).len() <= ticks.len(),
{
    broadcast use vstd::seq_lib::group_filter_ensures;

    let pred = in_range_pred(tick_lower, tick_upper);
    assert forall|i: int|
        0 <= i < ticks.len() && (tick_lower <= ticks[i].tick && ticks[i].tick <= tick_upper) implies #[trigger] ticks_in_range(ticks, tick_lower, tick_upper).contains(ticks[i]) by {
        ticks.lemma_filter_contains(pred, i);
    }
    assert forall|t: PopulatedTick| #[trigger]
        ticks_in_range(ticks, tick_lower, tick_upper).contains(t) implies ticks.contains(t) by {
        ticks.lemma_filter_contains_rev(pred, t);
    }
}

/// Selecting from two batches of ticks one after the other gives the
/// selection from the whole, in the same order.
pub proof fn lemma_ticks_in_range_concat(
    a: Seq<PopulatedTick>,
    b: Seq<PopulatedTick>,
    tick_lower: i32,
    tick_upper: i32,
)
    ensures
        ticks_in_range(a + b, tick_lower, tick_upper) == ticks_in_range(a, tick_lower, tick_upper)
            + ticks_in_range(b, tick_lower, tick_upper),
{
    Seq::filter_distributes_over_add(a, b, in_range_pred(tick_lower, tick_upper));
}

/// When every tick lies in the range, the selection keeps them all, in order.
pub proof fn lemma_ticks_in_range_keeps_all(ticks: Seq<PopulatedTick>, tick_lower: i32, tick_upper: i32)
    requires
        forall|i: int|
            0 <= i < ticks.len() ==> (tick_lower <= #[trigger] ticks[i].tick && ticks[i].tick <= tick_upper),
    ensures
        ticks_in_range(ticks, tick_lower, tick_upper) == ticks,
    decreases ticks.len(),
{
    reveal(Seq::filter);
    if ticks.len() > 0 {
        let rest = ticks.drop_last();
        assert forall|i: int| 0 <= i < rest.len() implies (tick_lower <= #[trigger] rest[i].tick && rest[i].tick <= tick_upper) by {
            assert(rest[i] == ticks[i]);
        }
        lemma_ticks_in_range_keeps_all(rest, tick_lower, tick_upper);
        assert((tick_lower <= ticks[ticks.len() - 1].tick && ticks[ticks.len() - 1].tick <= tick_upper));
        assert(rest.push(ticks.last()) =~= ticks);
    }
}

/// Selecting the ticks of a range twice gives what selecting once gives.
pub proof fn lemma_ticks_in_range_idempotent(ticks: Seq<PopulatedTick>, tick_lower: i32, tick_upper: i32)
    ensures
        ticks_in_range(ticks_in_range(ticks, tick_lower, tick_upper), tick_lower, tick_upper)
            == ticks_in_range(ticks, tick_lower, tick_upper),
{
    lemma_ticks_in_range_sound(ticks, tick_lower, tick_upper);
    lemma_ticks_in_range_keeps_all(
        ticks_in_range(ticks, tick_lower, tick_upper),
        tick_lower,
        tick_upper,
    );
}

/// A range whose lower bound lies above its upper bound holds no tick.
pub proof fn lemma_ticks_in_range_inverted(ticks: Seq<PopulatedTick>, tick_lower: i32, tick_upper: i32)
    requires
        tick_lower > tick_upper,
    ensures
        ticks_in_range(ticks, tick_lower, tick_upper).len() == 0,
{
    lemma_ticks_in_range_sound(ticks, tick_lower, tick_upper);
    let kept = ticks_in_range(ticks, tick_lower, tick_upper);
    if kept.len() > 0 {
        assert((tick_lower <= kept[0].tick && kept[0].tick <= tick_upper));
    }
}

/// The selection keeps ticks that fit in 24 bits: those it is given do, or
/// the bounds of the range do.
pub proof fn lemma_ticks_in_range_keeps_i24(ticks: Seq<PopulatedTick>, tick_lower: i32, tick_upper: i32)
    ensures
        ticks_are_i24(ticks) ==> ticks_are_i24(ticks_in_range(ticks, tick_lower, tick_upper)),
        is_i24(tick_lower) && is_i24(tick_upper) ==> ticks_are_i24(
            ticks_in_range(ticks, tick_lower, tick_upper),
        ),
{
    lemma_ticks_in_range_sound(ticks, tick_lower, tick_upper);
    lemma_ticks_in_range_complete(ticks, tick_lower, tick_upper);
    let kept = ticks_in_range(ticks, tick_lower, tick_upper);
    if ticks_are_i24(ticks) {
        assert forall|i: int| 0 <= i < kept.len() implies is_i24(#[trigger] kept[i].tick) by {
            assert(kept.contains(kept[i]));
            assert(ticks.contains(kept[i]));
            let j = choose|j: int| 0 <= j < ticks.len() && ticks[j] == kept[i];
            assert(is_i24(ticks[j].tick));
        }
    }
    if is_i24(tick_lower) && is_i24(tick_upper) {
        assert forall|i: int| 0 <= i < kept.len() implies is_i24(#[trigger] kept[i].tick) by {
            assert((tick_lower <= kept[i].tick && kept[i].tick <= tick_upper));
        }
    }
}

/// The selection is the sequence of given ticks `t` with
/// `tick_lower <= t.tick <= tick_upper`, both bounds included, in their order.
pub proof fn lemma_ticks_in_range_is_range_filter(
    ticks: Seq<PopulatedTick>,
    tick_lower: i32,
    tick_upper: i32,
)
    ensures
        ticks_in_range(ticks, tick_lower, tick_upper) == ticks.filter(
            |t: PopulatedTick| tick_lower <= t.tick && t.tick <= tick_upper,
        ),
{
    assert(in_range_pred(tick_lower, tick_upper) =~= (|t: PopulatedTick|
        tick_lower <= t.tick && t.tick <= tick_upper));
}

/// A single tick is kept exactly when `tick_lower <= tick <= tick_upper`.
pub proof fn lemma_ticks_in_range_single(t: PopulatedTick, tick_lower: i32, tick_upper: i32)
    ensures
        (tick_lower <= t.tick && t.tick <= tick_upper) ==> ticks_in_range(
            seq![t],
            tick_lower,
            tick_upper,
        ) == seq![t],
        !(tick_lower <= t.tick && t.tick <= tick_upper) ==> ticks_in_range(
            seq![t],
            tick_lower,
            tick_upper,
        ).len() == 0,
{
    reveal_with_fuel(Seq::filter, 2);
    assert(seq![t].drop_last() =~= Seq::<PopulatedTick>::empty());
    assert(seq![t].last() == t);
}

} // verus!
