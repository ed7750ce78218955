use vstd::prelude::*;
use crate::balances::{owners_known, ExtractionModel};
use crate::logs::{log_class_of, some_line_has, LogClass};
use crate::parse::{classification_of, parse_result_view, tx_parse_outcome};
use crate::swap::swap_of;
use crate::types::{
    null_swap_model, Config, Direction, Field, ParseTx, ParseTxModel, TransactionMeta,
    TxParseError, TxType,
};

verus! {

/// Classifying the same fetch result twice gives identical records: two
/// results that each meet the contract of `tx_parse` on one input are equal.
pub proof fn lemma_classification_idempotent(
    fetched: Result<Option<TransactionMeta>, String>,
    cfg: Config,
    first: Result<ParseTx, TxParseError>,
    second: Result<ParseTx, TxParseError>,
)
    requires
        parse_result_view(first) == tx_parse_outcome(fetched, cfg),
        parse_result_view(second) == tx_parse_outcome(fetched, cfg),
    ensures
        parse_result_view(first) == parse_result_view(second),
{
}

/// Logs that name both the excluded and the required program always give
/// the null-swap record, never a swap.
pub proof fn lemma_exclusion_precedence(meta: TransactionMeta, cfg: Config)
    requires
        meta.log_messages matches Field::Present(lines) && some_line_has(lines@, cfg.excluded_id@)
            && some_line_has(lines@, cfg.required_id@),
    ensures
        classification_of(meta, cfg) == Ok::<ParseTxModel, TxParseError>(null_swap_model()),
{
}

/// Both amounts of a swap are non-negative when the tracked balance does not
/// fall and the reference balance moves the way the direction implies:
/// up on a buy, not up when the tracked balance stays put.
pub proof fn lemma_amounts_non_negative(x: ExtractionModel)
    requires
        x.post_tracked >= x.pre_tracked,
        x.post_tracked > x.pre_tracked ==> x.post_reference >= x.pre_reference,
        x.post_tracked == x.pre_tracked ==> x.pre_reference >= x.post_reference,
    ensures
        swap_of(x).amount_in >= 0,
        swap_of(x).amount_out >= 0,
{
}

/// A positive change of the tracked balance is a buy, any other change a
/// sell; a swap record always has one of the two.
pub proof fn lemma_direction_determined(x: ExtractionModel)
    ensures
        swap_of(x).type_tx == TxType::Swap,
        x.post_tracked - x.pre_tracked > 0 ==> swap_of(x).direction == Some(Direction::Buy),
        x.post_tracked - x.pre_tracked <= 0 ==> swap_of(x).direction == Some(Direction::Sell),
{
}

/// Absent and not-requested logs give the same error.
pub proof fn lemma_missing_logs_one_error(meta: TransactionMeta, cfg: Config)
    requires
        meta.log_messages is Absent || meta.log_messages is NotRequested,
    ensures
        classification_of(meta, cfg) == Err::<ParseTxModel, TxParseError>(
            TxParseError::LogsUnavailable,
        ),
{
}

/// For a relevant transaction, an absent or not-requested balance list
/// gives the same error; the post list is read before the pre list.
pub proof fn lemma_missing_balances_one_error(meta: TransactionMeta, cfg: Config)
    requires
        meta.log_messages matches Field::Present(lines) && log_class_of(lines@, cfg)
            == LogClass::Relevant,
        meta.inner_instructions is Present,
        (meta.post_token_balances is Absent || meta.post_token_balances is NotRequested) || (
        meta.post_token_balances matches Field::Present(ps) && owners_known(ps@) && (
        meta.pre_token_balances is Absent || meta.pre_token_balances is NotRequested)),
    ensures
        classification_of(meta, cfg) == Err::<ParseTxModel, TxParseError>(
            TxParseError::BalancesUnavailable,
        ),
{
}

} // verus!
