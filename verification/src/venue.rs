//! A route in the form that each venue takes it.

use vstd::prelude::*;
use vstd::std_specs::convert::{FromSpecImpl, TryFromSpec, TryFromSpecImpl};
use core::num::ParseIntError;
use crate::swap::SwapOperation;
use crate::text::{parse_u64, parse_u64_of};

verus! {

/// An asset as Astroport names it: a token contract or a native denomination.
#[derive(Debug, Clone, PartialEq, Eq)]
pub enum AssetInfo {
    Token { contract_addr: String },
    NativeToken { denom: String },
}

/// One hop of an Astroport route.
#[derive(Debug, Clone, PartialEq, Eq)]
pub enum AstroportSwapOperation {
    NativeSwap { offer_denom: String, ask_denom: String },
    AstroSwap { offer_asset_info: AssetInfo, ask_asset_info: AssetInfo },
}

impl From<SwapOperation> for AstroportSwapOperation {
    /// The hop as a swap between two native denominations. The pool is not
    /// carried over: Astroport finds it from the pair.
    fn from(swap_operation: SwapOperation) -> (hop: AstroportSwapOperation) {
        AstroportSwapOperation::AstroSwap {
            offer_asset_info: AssetInfo::NativeToken { denom: swap_operation.denom_in },
            ask_asset_info: AssetInfo::NativeToken { denom: swap_operation.denom_out },
        }
    }
}

impl FromSpecImpl<SwapOperation> for AstroportSwapOperation {
    open spec fn obeys_from_spec() -> bool {
        true
    }

    open spec fn from_spec(swap_operation: SwapOperation) -> AstroportSwapOperation {
        AstroportSwapOperation::AstroSwap {
            offer_asset_info: AssetInfo::NativeToken { denom: swap_operation.denom_in },
            ask_asset_info: AssetInfo::NativeToken { denom: swap_operation.denom_out },
        }
    }
}

/// One hop of an Osmosis route that fixes the input: the pool by its number
/// and the denomination that comes out of it.
#[derive(Debug, Clone, PartialEq, Eq)]
pub struct OsmosisSwapAmountInRoute {
    pub pool_id: u64,
    pub token_out_denom: String,
}

/// One hop of an Osmosis route that fixes the output: the pool by its number
/// and the denomination that goes into it.
#[derive(Debug, Clone, PartialEq, Eq)]
pub struct OsmosisSwapAmountOutRoute {
    pub pool_id: u64,
    pub token_in_denom: String,
}

impl TryFrom<SwapOperation> for OsmosisSwapAmountInRoute {
    type Error = ParseIntError;

    /// The hop with its pool read as a number; fails where the pool is none.
    fn try_from(swap_operation: SwapOperation) -> (hop: Result<Self, ParseIntError>) {
        match parse_u64(swap_operation.pool.as_str()) {
            Ok(pool_id) => Ok(
                OsmosisSwapAmountInRoute { pool_id, token_out_denom: swap_operation.denom_out },
            ),
            Err(e) => Err(e),
        }
    }
}

impl TryFromSpecImpl<SwapOperation> for OsmosisSwapAmountInRoute {
    open spec fn obeys_try_from_spec() -> bool {
        true
    }

    open spec fn try_from_spec(swap_operation: SwapOperation) -> Result<Self, ParseIntError> {
        match parse_u64_of(swap_operation.pool@) {
            Ok(pool_id) => Ok(
                OsmosisSwapAmountInRoute { pool_id, token_out_denom: swap_operation.denom_out },
            ),
            Err(e) => Err(e),
        }
    }
}

impl TryFrom<SwapOperation> for OsmosisSwapAmountOutRoute {
    type Error = ParseIntError;

    /// The hop with its pool read as a number; fails where the pool is none.
    fn try_from(swap_operation: SwapOperation) -> (hop: Result<Self, ParseIntError>) {
        match parse_u64(swap_operation.pool.as_str()) {
            Ok(pool_id) => Ok(
                OsmosisSwapAmountOutRoute { pool_id, token_in_denom: swap_operation.denom_in },
            ),
            Err(e) => Err(e),
        }
    }
}

impl TryFromSpecImpl<SwapOperation> for OsmosisSwapAmountOutRoute {
    open spec fn obeys_try_from_spec() -> bool {
        true
    }

    open spec fn try_from_spec(swap_operation: SwapOperation) -> Result<Self, ParseIntError> {
        match parse_u64_of(swap_operation.pool@) {
            Ok(pool_id) => Ok(
                OsmosisSwapAmountOutRoute { pool_id, token_in_denom: swap_operation.denom_in },
            ),
            Err(e) => Err(e),
        }
    }
}

/// The hops of a route, each converted for a venue: all of them in order
/// where every hop converts, else the error of the first hop that does not.
pub open spec fn converted<T: TryFrom<SwapOperation, Error = ParseIntError>>(
    swap_operations: Seq<SwapOperation>,
) -> Result<Seq<T>, ParseIntError>
    decreases swap_operations.len(),
{
    if swap_operations.len() == 0 {
        Ok(Seq::empty())
    } else {
        match converted::<T>(swap_operations.drop_last()) {
            Err(e) => Err(e),
            Ok(hops) => match T::try_from_spec(swap_operations.last()) {
                Err(e) => Err(e),
                Ok(hop) => Ok(hops.push(hop)),
            },
        }
    }
}

/// Converts a route hop by hop into the form of a venue. Fails with the error
/// of the first hop that the venue's form cannot take.
pub fn convert_swap_operations<T>(swap_operations: Vec<SwapOperation>) -> (hops: Result<
    Vec<T>,
    ParseIntError,
>) where T: TryFrom<SwapOperation, Error = ParseIntError>
    ensures
        T::obeys_try_from_spec() ==> (match hops {
            Ok(v) => Ok::<Seq<T>, ParseIntError>(v@),
            Err(e) => Err::<Seq<T>, ParseIntError>(e),
        }) == converted::<T>(swap_operations@),
{
    let ghost all = swap_operations@;
    let mut rest = swap_operations;
    let mut hops: Vec<T> = Vec::new();
    // The route is taken apart from its end, so the hops come out reversed.
    let mut reversed: Vec<SwapOperation> = Vec::new();
    while rest.len() > 0
        invariant
            rest@.len() + reversed@.len() == all.len(),
            forall|i: int| 0 <= i < rest@.len() ==> rest@[i] == all[i],
            forall|i: int|
                0 <= i < reversed@.len() ==> reversed@[i] == all[all.len() - 1 - i],
        decreases rest.len(),
    {
        let op = rest.pop().unwrap();
        reversed.push(op);
    }
    while reversed.len() > 0
        invariant
            all == swap_operations@,
            hops@.len() + reversed@.len() == all.len(),
            forall|i: int|
                0 <= i < reversed@.len() ==> reversed@[i] == all[all.len() - 1 - i],
            T::obeys_try_from_spec() ==> converted::<T>(all.take(hops@.len() as int)) == Ok::<
                Seq<T>,
                ParseIntError,
            >(hops@),
        decreases reversed.len(),
    {
        let ghost k = hops@.len() as int;
        let op = reversed.pop().unwrap();
        proof {
            assert(op == all[k]);
            assert(all.take(k + 1).drop_last() == all.take(k));
            assert(all.take(k + 1).last() == op);
        }
        match T::try_from(op) {
            Ok(hop) => {
                hops.push(hop);
            },
            Err(e) => {
                proof {
                    if T::obeys_try_from_spec() {
                        lemma_conversion_failure_stays::<T>(all, k + 1);
                    }
                }
                return Err(e);
            },
        }
    }
    proof {
        assert(all.take(hops@.len() as int) == all);
    }
    Ok(hops)
}

/// Once the conversion has failed on a prefix of the route, it fails in the
/// same way on the whole route.
pub proof fn lemma_conversion_failure_stays<T: TryFrom<SwapOperation, Error = ParseIntError>>(
    swap_operations: Seq<SwapOperation>,
    k: int,
)
    requires
        0 <= k <= swap_operations.len(),
        converted::<T>(swap_operations.take(k)) is Err,
    ensures
        converted::<T>(swap_operations) == converted::<T>(swap_operations.take(k)),
    decreases swap_operations.len(),
{
    if k == swap_operations.len() {
        assert(swap_operations.take(k) == swap_operations);
    } else {
        assert(swap_operations.drop_last().take(k) == swap_operations.take(k));
        lemma_conversion_failure_stays::<T>(swap_operations.drop_last(), k);
    }
}

} // verus!
