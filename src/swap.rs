use vstd::prelude::*;
use crate::balances::{Extraction, ExtractionModel};
use crate::types::{Direction, ParseTx, ParseTxModel, TxType};

verus! {

/// The swap record for an extraction. A positive change of the tracked
/// balance is a buy, paid for by the reference authority's base-asset
/// balance; any other change, zero included, is a sell.
pub open spec fn swap_of(x: ExtractionModel) -> ParseTxModel {
    if x.post_tracked - x.pre_tracked > 0 {
        ParseTxModel {
            type_tx: TxType::Swap,
            direction: Some(Direction::Buy),
            amount_in: x.post_reference - x.pre_reference,
            amount_out: x.post_tracked - x.pre_tracked,
            mint: x.mint,
        }
    } else {
        ParseTxModel {
            type_tx: TxType::Swap,
            direction: Some(Direction::Sell),
            amount_in: x.pre_tracked - x.post_tracked,
            amount_out: x.pre_reference - x.post_reference,
            mint: x.mint,
        }
    }
}

/// Turns extracted balances into a swap record.
pub fn classify_swap(x: &Extraction) -> (r: ParseTx)
    ensures
        r@ == swap_of(x@),
        r.type_tx == TxType::Swap,
        x.post_tracked > x.pre_tracked ==> r.direction == Some(Direction::Buy),
        x.post_tracked <= x.pre_tracked ==> r.direction == Some(Direction::Sell),
{
    let pre_tracked = x.pre_tracked as i128;
    let post_tracked = x.post_tracked as i128;
    let pre_reference = x.pre_reference as i128;
    let post_reference = x.post_reference as i128;
    let token_delta = post_tracked - pre_tracked;
    if token_delta > 0 {
        ParseTx {
            type_tx: TxType::Swap,
            direction: Some(Direction::Buy),
            amount_in: post_reference - pre_reference,
            amount_out: token_delta,
            mint: x.mint.clone(),
        }
    } else {
        ParseTx {
            type_tx: TxType::Swap,
            direction: Some(Direction::Sell),
            amount_in: pre_tracked - post_tracked,
            amount_out: pre_reference - post_reference,
            mint: x.mint.clone(),
        }
    }
}

} // verus!
