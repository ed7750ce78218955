use vstd::prelude::*;
use crate::balances::{extract_balances, extraction_of};
use crate::logs::{log_class_of, scan_logs, LogClass};
use crate::swap::{classify_swap, swap_of};
use crate::types::{
    null_swap_model, Config, Field, ParseTx, ParseTxModel, TransactionMeta, TxParseError,
};

verus! {

/// Outcome of classifying a metadata record.
///
/// Logs are read first; a transaction that names the excluded program, or
/// neither program, is a null swap. A relevant one needs its inner
/// instructions and both balance lists.
pub open spec fn classification_of(meta: TransactionMeta, cfg: Config) -> Result<
    ParseTxModel,
    TxParseError,
> {
    match meta.log_messages {
        Field::Present(lines) => match log_class_of(lines@, cfg) {
            LogClass::Relevant => if !(meta.inner_instructions is Present) {
                Err(TxParseError::LogsUnavailable)
            } else {
                match extraction_of(meta.pre_token_balances, meta.post_token_balances, cfg) {
                    Ok(x) => Ok(swap_of(x)),
                    Err(e) => Err(e),
                }
            },
            _ => Ok(null_swap_model()),
        },
        _ => Err(TxParseError::LogsUnavailable),
    }
}

/// Outcome of classifying what a transaction fetch returned.
pub open spec fn tx_parse_outcome(
    fetched: Result<Option<TransactionMeta>, String>,
    cfg: Config,
) -> Result<ParseTxModel, TxParseError> {
    match fetched {
        Err(detail) => Err(TxParseError::FetchFailed(detail)),
        Ok(None) => Err(TxParseError::MetadataMissing),
        Ok(Some(meta)) => classification_of(meta, cfg),
    }
}

/// Value of a classification result.
pub open spec fn parse_result_view(r: Result<ParseTx, TxParseError>) -> Result<
    ParseTxModel,
    TxParseError,
> {
    match r {
        Ok(p) => Ok(p@),
        Err(e) => Err(e),
    }
}

/// Classifies one transaction from its metadata record.
pub fn classify_meta(meta: &TransactionMeta, cfg: &Config) -> (r: Result<ParseTx, TxParseError>)
    ensures
        parse_result_view(r) == classification_of(*meta, *cfg),
{
    let class = match scan_logs(&meta.log_messages, cfg) {
        Ok(c) => c,
        Err(e) => return Err(e),
    };
    match class {
        LogClass::Relevant => {},
        _ => return Ok(ParseTx::null_swap()),
    }
    match &meta.inner_instructions {
        Field::Present(_) => {},
        _ => return Err(TxParseError::LogsUnavailable),
    }
    match extract_balances(&meta.pre_token_balances, &meta.post_token_balances, cfg) {
        Ok(x) => Ok(classify_swap(&x)),
        Err(e) => Err(e),
    }
}

/// The metadata record of a fetch result, or why there is none.
pub fn gate_metadata(fetched: Result<Option<TransactionMeta>, String>) -> (r: Result<
    TransactionMeta,
    TxParseError,
>)
    ensures
        match fetched {
            Err(detail) => r == Err::<TransactionMeta, TxParseError>(
                TxParseError::FetchFailed(detail),
            ),
            Ok(None) => r matches Err(TxParseError::MetadataMissing),
            Ok(Some(meta)) => r == Ok::<TransactionMeta, TxParseError>(meta),
        },
{
    match fetched {
        Err(detail) => Err(TxParseError::FetchFailed(detail)),
        Ok(None) => Err(TxParseError::MetadataMissing),
        Ok(Some(meta)) => Ok(meta),
    }
}

/// Classifies a transaction from the result of fetching it: a failed fetch
/// or a record without metadata is reported, anything else is classified.
pub fn tx_parse(fetched: Result<Option<TransactionMeta>, String>, cfg: &Config) -> (r: Result<
    ParseTx,
    TxParseError,
>)
    ensures
        parse_result_view(r) == tx_parse_outcome(fetched, *cfg),
{
    match gate_metadata(fetched) {
        Ok(meta) => classify_meta(&meta, cfg),
        Err(e) => Err(e),
    }
}

} // verus!
