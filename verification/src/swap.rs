use vstd::prelude::*;
use crate::asset::Asset;
use crate::error::{ContractError, SkipError};

verus! {

/// One hop of a swap: from `denom_in` to `denom_out` through `pool`.
#[derive(Debug, PartialEq, Eq)]
pub struct SwapOperation {
    pub pool: String,
    pub denom_in: String,
    pub denom_out: String,
    pub interface: Option<Vec<u8>>,
}

/// A swap of everything sent, through the operations, on one venue.
#[derive(Debug, PartialEq, Eq)]
pub struct SwapExactAssetIn {
    pub swap_venue_name: String,
    pub operations: Vec<SwapOperation>,
}

/// A swap for an exact amount out, refunding what is left of the asset in.
#[derive(Debug, PartialEq, Eq)]
pub struct SwapExactAssetOut {
    pub swap_venue_name: String,
    pub operations: Vec<SwapOperation>,
    pub refund_address: Option<String>,
}

/// One route of a split swap: the part of the asset in that it takes, and its operations.
#[derive(Debug, PartialEq, Eq)]
pub struct Route {
    pub offer_asset: Asset,
    pub operations: Vec<SwapOperation>,
}

/// A swap of the asset in split over several routes on one venue.
#[derive(Debug, PartialEq, Eq)]
pub struct SmartSwapExactAssetIn {
    pub swap_venue_name: String,
    pub routes: Vec<Route>,
}

/// The swap that a user asks for.
#[derive(Debug, PartialEq, Eq)]
pub enum Swap {
    SwapExactAssetIn(SwapExactAssetIn),
    SwapExactAssetOut(SwapExactAssetOut),
    SmartSwapExactAssetIn(SmartSwapExactAssetIn),
}

/// A party that takes `basis_points_fee` ten-thousandths of the minimum amount out.
#[derive(Debug, PartialEq, Eq)]
pub struct Affiliate {
    pub basis_points_fee: u128,
    pub address: String,
}

/// The result of checking that operations lead from `denom_in` to `denom_out`.
pub open spec fn spec_validate_swap_operations(
    ops: Seq<SwapOperation>,
    denom_in: Seq<char>,
    denom_out: Seq<char>,
) -> Result<(), SkipError> {
    if ops.len() == 0 {
        Err(SkipError::SwapOperationsEmpty)
    } else if ops[0].denom_in@ != denom_in {
        Err(SkipError::SwapOperationsAssetInDenomMismatch)
    } else if ops.last().denom_out@ != denom_out {
        Err(SkipError::SwapOperationsAssetOutDenomMismatch)
    } else {
        Ok(())
    }
}

/// Checks that the operations are not empty, that the first takes `denom_in` and that the
/// last gives `denom_out`.
pub fn validate_swap_operations(
    ops: &Vec<SwapOperation>,
    denom_in: &String,
    denom_out: &String,
) -> (res: Result<(), SkipError>)
    ensures
        res == spec_validate_swap_operations(ops@, denom_in@, denom_out@),
{
    if ops.len() == 0 {
        return Err(SkipError::SwapOperationsEmpty);
    }
    if ops[0].denom_in != *denom_in {
        return Err(SkipError::SwapOperationsAssetInDenomMismatch);
    }
    if ops[ops.len() - 1].denom_out != *denom_out {
        return Err(SkipError::SwapOperationsAssetOutDenomMismatch);
    }
    Ok(())
}

/// The total amount that the routes offer.
pub open spec fn routes_total(routes: Seq<Route>) -> int
    decreases routes.len(),
{
    if routes.len() == 0 {
        0
    } else {
        routes_total(routes.drop_last()) + routes.last().offer_asset.amount_of()
    }
}

pub proof fn lemma_routes_total_nonneg(routes: Seq<Route>)
    ensures
        routes_total(routes) >= 0,
    decreases routes.len(),
{
    if routes.len() > 0 {
        lemma_routes_total_nonneg(routes.drop_last());
    }
}

pub proof fn lemma_routes_total_bounds(routes: Seq<Route>, i: int)
    requires
        0 <= i < routes.len(),
    ensures
        routes_total(routes) >= routes[i].offer_asset.amount_of(),
        routes_total(routes) >= 0,
    decreases routes.len(),
{
    lemma_routes_total_nonneg(routes);
    lemma_routes_total_nonneg(routes.drop_last());
    if i < routes.len() - 1 {
        lemma_routes_total_bounds(routes.drop_last(), i);
    }
}

/// Replacing one route changes the total by the difference of the two offers.
pub proof fn lemma_routes_total_update(routes: Seq<Route>, i: int, r: Route)
    requires
        0 <= i < routes.len(),
    ensures
        routes_total(routes.update(i, r)) == routes_total(routes)
            - routes[i].offer_asset.amount_of() + r.offer_asset.amount_of(),
    decreases routes.len(),
{
    if i < routes.len() - 1 {
        lemma_routes_total_update(routes.drop_last(), i, r);
        assert(routes.update(i, r).drop_last() =~= routes.drop_last().update(i, r));
    } else {
        assert(routes.update(i, r).drop_last() =~= routes.drop_last());
    }
}

/// The index of the route that offers the most: the last such route when several offer
/// the same largest amount.
pub open spec fn is_largest_route_index(routes: Seq<Route>, i: int) -> bool {
    &&& 0 <= i < routes.len()
    &&& forall|j: int|
        0 <= j < routes.len() ==> #[trigger] routes[j].offer_asset.amount_of()
            <= routes[i].offer_asset.amount_of()
    &&& forall|j: int|
        i < j < routes.len() ==> #[trigger] routes[j].offer_asset.amount_of()
            < routes[i].offer_asset.amount_of()
}

impl SmartSwapExactAssetIn {
    /// The total amount that the routes offer.
    pub fn amount(&self) -> (res: u128)
        requires
            routes_total(self.routes@) <= u128::MAX,
        ensures
            res == routes_total(self.routes@),
    {
        let mut total: u128 = 0;
        let mut i: usize = 0;
        while i < self.routes.len()
            invariant
                i <= self.routes@.len(),
                routes_total(self.routes@) <= u128::MAX,
                total == routes_total(self.routes@.take(i as int)),
            decreases self.routes@.len() - i,
        {
            assert(self.routes@.take(i + 1).drop_last() =~= self.routes@.take(i as int));
            proof {
                lemma_routes_total_bounds(self.routes@, i as int);
                lemma_routes_prefix_total(self.routes@, i + 1);
            }
            total = total + self.routes[i].offer_asset.amount();
            i = i + 1;
        }
        assert(self.routes@.take(i as int) =~= self.routes@);
        total
    }

    /// The index of the route that offers the most (the last one among equals).
    pub fn largest_route_index(&self) -> (res: Result<usize, SkipError>)
        ensures
            self.routes@.len() == 0 ==> res == Err::<usize, SkipError>(SkipError::RoutesEmpty),
            self.routes@.len() > 0 ==> res is Ok && is_largest_route_index(
                self.routes@,
                res->Ok_0 as int,
            ),
    {
        if self.routes.len() == 0 {
            return Err(SkipError::RoutesEmpty);
        }
        let mut best: usize = 0;
        let mut i: usize = 1;
        while i < self.routes.len()
            invariant
                1 <= i <= self.routes@.len(),
                best < i,
                forall|j: int|
                    0 <= j < i ==> #[trigger] self.routes@[j].offer_asset.amount_of()
                        <= self.routes@[best as int].offer_asset.amount_of(),
                forall|j: int|
                    best < j < i ==> #[trigger] self.routes@[j].offer_asset.amount_of()
                        < self.routes@[best as int].offer_asset.amount_of(),
            decreases self.routes@.len() - i,
        {
            if self.routes[i].offer_asset.amount() >= self.routes[best].offer_asset.amount() {
                best = i;
            }
            i = i + 1;
        }
        Ok(best)
    }
}

/// The total of a prefix of the routes is at most the total of all of them.
pub proof fn lemma_routes_prefix_total(routes: Seq<Route>, n: int)
    requires
        0 <= n <= routes.len(),
    ensures
        routes_total(routes.take(n)) <= routes_total(routes),
    decreases routes.len() - n,
{
    if n < routes.len() {
        lemma_routes_prefix_total(routes, n + 1);
        assert(routes.take(n + 1).drop_last() =~= routes.take(n));
    } else {
        assert(routes.take(n) =~= routes);
    }
}

/// The route that offers the most (the last one among equals).
pub open spec fn largest_route(routes: Seq<Route>) -> int {
    choose|i: int| is_largest_route_index(routes, i)
}

/// A largest route, by induction on the number of routes.
proof fn largest_route_witness(routes: Seq<Route>) -> (best: int)
    requires
        routes.len() > 0,
    ensures
        is_largest_route_index(routes, best),
    decreases routes.len(),
{
    if routes.len() == 1 {
        0
    } else {
        let prev = routes.drop_last();
        let b = largest_route_witness(prev);
        let n = routes.len() - 1;
        assert forall|j: int| 0 <= j < n implies #[trigger] routes[j] == prev[j] by {}
        if routes[n].offer_asset.amount_of() >= routes[b].offer_asset.amount_of() {
            assert forall|j: int| 0 <= j < routes.len() implies #[trigger] routes[j].offer_asset.amount_of()
                <= routes[n].offer_asset.amount_of() by {
                if j < n {
                    assert(prev[j].offer_asset.amount_of() <= prev[b].offer_asset.amount_of());
                }
            }
            n
        } else {
            assert forall|j: int| 0 <= j < routes.len() implies #[trigger] routes[j].offer_asset.amount_of()
                <= routes[b].offer_asset.amount_of() by {
                if j < n {
                    assert(prev[j].offer_asset.amount_of() <= prev[b].offer_asset.amount_of());
                }
            }
            assert forall|j: int| b < j < routes.len() implies #[trigger] routes[j].offer_asset.amount_of()
                < routes[b].offer_asset.amount_of() by {
                if j < n {
                    assert(prev[j].offer_asset.amount_of() < prev[b].offer_asset.amount_of());
                }
            }
            b
        }
    }
}

/// A non-empty list of routes has exactly one largest route, in the sense of
/// `is_largest_route_index`.
pub proof fn lemma_largest_route(routes: Seq<Route>)
    requires
        routes.len() > 0,
    ensures
        is_largest_route_index(routes, largest_route(routes)),
        forall|i: int| is_largest_route_index(routes, i) ==> i == largest_route(routes),
{
    let best = largest_route_witness(routes);
    assert(is_largest_route_index(routes, best));
    let l = largest_route(routes);
    assert forall|i: int| is_largest_route_index(routes, i) implies i == l by {
        if i < l {
            assert(routes[l].offer_asset.amount_of() < routes[i].offer_asset.amount_of());
        } else if i > l {
            assert(routes[i].offer_asset.amount_of() < routes[l].offer_asset.amount_of());
        }
    }
}

/// Why the routes cannot be made to offer `amount`: there are none, or the largest route
/// offers less than the excess that it has to give up.
pub open spec fn routes_adjust_error(routes: Seq<Route>, amount: u128) -> Option<ContractError> {
    let total = routes_total(routes);
    let l = largest_route(routes);
    let offer = routes[l].offer_asset.amount_of();
    if routes.len() == 0 {
        Some(ContractError::Skip(SkipError::RoutesEmpty))
    } else if total > amount && total - amount > offer {
        Some(
            ContractError::Skip(
                SkipError::Overflow(
                    crate::error::Overflow {
                        operation: crate::error::OverflowOperation::Sub,
                        operand1: offer,
                        operand2: (total - amount) as u128,
                    },
                ),
            ),
        )
    } else {
        None
    }
}

/// The routes made to offer `amount`: unchanged when they already do, else the largest
/// route takes the shortfall or gives up the excess.
pub open spec fn adjusted_routes(routes: Seq<Route>, amount: u128) -> Seq<Route> {
    let total = routes_total(routes);
    let l = largest_route(routes);
    if total == amount {
        routes
    } else {
        routes.update(
            l,
            Route {
                offer_asset: routes[l].offer_asset.with_amount(
                    (routes[l].offer_asset.amount_of() + amount - total) as u128,
                ),
                operations: routes[l].operations,
            },
        )
    }
}

/// Adjusted routes offer exactly the amount asked for.
pub proof fn lemma_adjusted_routes_total(routes: Seq<Route>, amount: u128)
    requires
        routes_adjust_error(routes, amount) is None,
        routes_total(routes) <= u128::MAX,
    ensures
        routes_total(adjusted_routes(routes, amount)) == amount,
        adjusted_routes(routes, amount).len() == routes.len(),
{
    if routes_total(routes) != amount {
        lemma_largest_route(routes);
        let l = largest_route(routes);
        lemma_routes_total_bounds(routes, l);
        lemma_routes_total_update(
            routes,
            l,
            Route {
                offer_asset: routes[l].offer_asset.with_amount(
                    (routes[l].offer_asset.amount_of() + amount - routes_total(routes)) as u128,
                ),
                operations: routes[l].operations,
            },
        );
    }
}

/// Makes the routes offer `amount` in total, by changing only the route that offers the
/// most: it gets the shortfall, or gives up the excess, which fails when that route offers
/// less than the excess. Fails on an empty list of routes.
pub fn match_routes_to_amount(swap: &mut SmartSwapExactAssetIn, amount: u128) -> (res: Result<
    (),
    ContractError,
>)
    requires
        routes_total(old(swap).routes@) <= u128::MAX,
    ensures
        final(swap).swap_venue_name == old(swap).swap_venue_name,
        match routes_adjust_error(old(swap).routes@, amount) {
            Some(e) => res == Err::<(), ContractError>(e) && final(swap).routes@ == old(swap).routes@,
            None => res is Ok && final(swap).routes@ == adjusted_routes(old(swap).routes@, amount),
        },
{
    if swap.routes.len() == 0 {
        return Err(ContractError::Skip(SkipError::RoutesEmpty));
    }
    let total = swap.amount();
    if total == amount {
        return Ok(());
    }
    let idx = match swap.largest_route_index() {
        Ok(i) => i,
        Err(e) => {
            return Err(ContractError::Skip(e));
        },
    };
    let ghost old_routes = swap.routes@;
    proof {
        lemma_largest_route(old_routes);
        lemma_routes_total_bounds(old_routes, idx as int);
    }
    let mut route = swap.routes.remove(idx);
    let r = if total < amount {
        route.offer_asset.add(amount - total)
    } else {
        route.offer_asset.sub(total - amount)
    };
    match r {
        Ok(()) => {
            swap.routes.insert(idx, route);
            proof {
                assert(swap.routes@ =~= old_routes.update(idx as int, route));
            }
            Ok(())
        },
        Err(e) => {
            swap.routes.insert(idx, route);
            assert(swap.routes@ =~= old_routes);
            Err(ContractError::Skip(e))
        },
    }
}

} // verus!
