//! Stock levels and the changes that orders make to them.

use vstd::prelude::*;

verus! {

/// A change to one product's stock: `delta` pieces are added to what is on
/// the shelf (taken from it, when `delta` is negative).
#[derive(Clone, Copy, Debug, PartialEq, Eq, Structural)]
pub struct StockChange {
    pub product_id: u128,
    pub delta: i64,
}

/// The stock of every product after `changes` were applied in turn to
/// `levels`. A change to a product that the shop does not hold changes nothing.
pub open spec fn stock_after(levels: Map<u128, int>, changes: Seq<StockChange>) -> Map<u128, int>
    decreases changes.len(),
{
    if changes.len() == 0 {
        levels
    } else {
        let before = stock_after(levels, changes.drop_last());
        let change = changes.last();
        if before.dom().contains(change.product_id) {
            before.insert(change.product_id, before[change.product_id] + change.delta)
        } else {
            before
        }
    }
}

/// By how many pieces `changes` together move the stock of one product.
pub open spec fn net_change(changes: Seq<StockChange>, product_id: u128) -> int
    decreases changes.len(),
{
    if changes.len() == 0 {
        0
    } else if changes.last().product_id == product_id {
        net_change(changes.drop_last(), product_id) + changes.last().delta
    } else {
        net_change(changes.drop_last(), product_id)
    }
}

/// Applying changes moves each product by the sum of its changes, and
/// neither adds a product nor removes one.
pub proof fn lemma_stock_after_adds_net_change(levels: Map<u128, int>, changes: Seq<StockChange>)
    ensures
        stock_after(levels, changes).dom() =~= levels.dom(),
        forall|p: u128|
            levels.dom().contains(p) ==> #[trigger] stock_after(levels, changes)[p] == levels[p]
                + net_change(changes, p),
    decreases changes.len(),
{
    if changes.len() > 0 {
        lemma_stock_after_adds_net_change(levels, changes.drop_last());
    }
}

/// Changes that touch no row of a product leave its sum at zero.
pub proof fn lemma_net_change_of_untouched(changes: Seq<StockChange>, product_id: u128)
    requires
        forall|i: int| 0 <= i < changes.len() ==> (#[trigger] changes[i]).product_id != product_id,
    ensures
        net_change(changes, product_id) == 0,
    decreases changes.len(),
{
    if changes.len() > 0 {
        lemma_net_change_of_untouched(changes.drop_last(), product_id);
    }
}

/// When exactly one change touches a product, that change is its sum.
pub proof fn lemma_net_change_of_single(changes: Seq<StockChange>, at: int)
    requires
        0 <= at < changes.len(),
        forall|i: int|
            0 <= i < changes.len() && i != at ==> (#[trigger] changes[i]).product_id
                != changes[at].product_id,
    ensures
        net_change(changes, changes[at].product_id) == changes[at].delta,
    decreases changes.len(),
{
    if at == changes.len() - 1 {
        lemma_net_change_of_untouched(changes.drop_last(), changes[at].product_id);
    } else {
        lemma_net_change_of_single(changes.drop_last(), at);
    }
}

/// Changes that undo each other row by row sum to nothing for every product.
pub proof fn lemma_net_change_cancels(taken: Seq<StockChange>, returned: Seq<StockChange>, product_id: u128)
    requires
        taken.len() == returned.len(),
        forall|i: int|
            0 <= i < taken.len() ==> (#[trigger] taken[i]).product_id == returned[i].product_id
                && taken[i].delta + returned[i].delta == 0,
    ensures
        net_change(taken, product_id) + net_change(returned, product_id) == 0,
    decreases taken.len(),
{
    if taken.len() > 0 {
        lemma_net_change_cancels(taken.drop_last(), returned.drop_last(), product_id);
        assert(taken.last() == taken[taken.len() - 1]);
    }
}

} // verus!
