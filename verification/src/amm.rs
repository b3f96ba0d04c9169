//! DEX identifiers and their one-byte encoding.
use vstd::prelude::*;

verus! {

/// The decentralized exchanges whose pools the lens understands.
///
/// On the wire each DEX is identified by one byte: `UniswapV3` is 0,
/// `PancakeSwapV3` is 1, `SlipStream` is 2, `UniswapV4` is 3 and `Algebra` is 4,
/// the byte that follows the others in declaration order (the value a `u8`
/// layout gives the fifth variant). Decoding accepts only bytes 0 to 3: byte 4
/// and every byte above it name no DEX, so `Algebra` is sent but never decoded.
#[derive(Debug, Clone, Copy, PartialEq, Eq, Structural)]
pub enum Dex {
    UniswapV3,
    PancakeSwapV3,
    SlipStream,
    UniswapV4,
    Algebra,
}

/// The error returned when a byte names no known DEX.
#[derive(Debug, Clone, Copy, PartialEq, Eq, Structural)]
pub struct DexFromU8Error;

/// The byte that identifies `dex`.
pub open spec fn dex_code(dex: Dex) -> u8 {
    match dex {
        Dex::UniswapV3 => 0,
        Dex::PancakeSwapV3 => 1,
        Dex::SlipStream => 2,
        Dex::UniswapV4 => 3,
        Dex::Algebra => 4,
    }
}

/// The DEX that the byte `value` identifies, or an error when it names none.
pub open spec fn dex_from_code(value: u8) -> Result<Dex, DexFromU8Error> {
    if value == 0 {
        Ok(Dex::UniswapV3)
    } else if value == 1 {
        Ok(Dex::PancakeSwapV3)
    } else if value == 2 {
        Ok(Dex::SlipStream)
    } else if value == 3 {
        Ok(Dex::UniswapV4)
    } else {
        Err(DexFromU8Error)
    }
}

impl From<Dex> for u8 {
    fn from(dex: Dex) -> (code: u8) {
        match dex {
            Dex::UniswapV3 => 0,
            Dex::PancakeSwapV3 => 1,
            Dex::SlipStream => 2,
            Dex::UniswapV4 => 3,
            Dex::Algebra => 4,
        }
    }
}

impl vstd::std_specs::convert::FromSpecImpl<Dex> for u8 {
    open spec fn obeys_from_spec() -> bool {
        true
    }

    open spec fn from_spec(dex: Dex) -> u8 {
        dex_code(dex)
    }
}

impl TryFrom<u8> for Dex {
    type Error = DexFromU8Error;

    fn try_from(value: u8) -> (res: Result<Dex, DexFromU8Error>) {
        match value {
            0 => Ok(Dex::UniswapV3),
            1 => Ok(Dex::PancakeSwapV3),
            2 => Ok(Dex::SlipStream),
            3 => Ok(Dex::UniswapV4),
            _ => Err(DexFromU8Error),
        }
    }
}

impl vstd::std_specs::convert::TryFromSpecImpl<u8> for Dex {
    open spec fn obeys_try_from_spec() -> bool {
        true
    }

    open spec fn try_from_spec(value: u8) -> Result<Dex, DexFromU8Error> {
        dex_from_code(value)
    }
}

/// Decoding the byte of a DEX other than `Algebra` gives that DEX back; the
/// byte of `Algebra`, 4, decodes to an error.
pub proof fn lemma_dex_code_roundtrip(dex: Dex)
    ensures
        dex != Dex::Algebra ==> dex_from_code(dex_code(dex)) == Ok::<Dex, DexFromU8Error>(dex),
        dex == Dex::Algebra ==> dex_code(dex) == 4 && dex_from_code(dex_code(dex)) == Err::<
            Dex,
            DexFromU8Error,
        >(DexFromU8Error),
{
}

/// A byte decodes to a DEX exactly when it is below 4, and the DEX it decodes
/// to is encoded as that same byte.
pub proof fn lemma_code_dex_roundtrip(value: u8)
    ensures
        dex_from_code(value).is_ok() <==> value < 4,
        value >= 4 ==> dex_from_code(value) == Err::<Dex, DexFromU8Error>(DexFromU8Error),
        dex_from_code(value) matches Ok(dex) ==> dex_code(dex) == value,
{
}

/// Distinct DEXes are encoded as distinct bytes.
pub proof fn lemma_dex_code_injective(a: Dex, b: Dex)
    ensures
        dex_code(a) == dex_code(b) <==> a == b,
{
}

} // verus!
