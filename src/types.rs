use vstd::prelude::*;

verus! {

/// A field that a transaction source may report, omit, or not have been
/// asked for. The three states stay apart so that a caller can tell a
/// misconfigured request from a gap in the upstream data.
#[derive(Clone, Debug)]
pub enum Field<T> {
    Present(T),
    Absent,
    NotRequested,
}

/// One entry of a pre- or post-transaction token-balance list.
///
/// `amount` is the balance in the token's smallest unit; `None` stands for a
/// balance that the source reported as null, which counts as zero where it is
/// read.
#[derive(Clone, Debug)]
pub struct TokenBalance {
    pub owner: Field<String>,
    pub mint: String,
    pub amount: Option<u64>,
}

/// The parts of a transaction's metadata record that classification reads.
///
/// `inner_instructions` holds the number of inner-instruction groups: only
/// its presence is looked at.
#[derive(Clone, Debug)]
pub struct TransactionMeta {
    pub log_messages: Field<Vec<String>>,
    pub inner_instructions: Field<usize>,
    pub pre_token_balances: Field<Vec<TokenBalance>>,
    pub post_token_balances: Field<Vec<TokenBalance>>,
}

/// The five addresses and program identifiers that classification is
/// configured with.
#[derive(Clone, Debug)]
pub struct Config {
    /// Program whose presence in the logs marks a transaction routed through
    /// an intermediary that is not reported.
    pub excluded_id: String,
    /// Program whose presence in the logs marks a relevant swap.
    pub required_id: String,
    /// Mint of the base asset held by the reference authority.
    pub base_asset_mint: String,
    /// Account whose balance change decides the direction.
    pub tracked_account: String,
    /// Account holding the pool's base-asset balance.
    pub reference_authority: String,
}

/// Classification label of a transaction.
#[derive(Clone, Copy, Debug, PartialEq, Eq, Structural)]
pub enum TxType {
    /// Not a recognized swap (label `""`).
    NotSwap,
    /// A swap of the recognized program family (label `"Swap"`).
    Swap,
}

/// Direction of a swap, seen from the tracked account.
#[derive(Clone, Copy, Debug, PartialEq, Eq, Structural)]
pub enum Direction {
    Buy,
    Sell,
}

impl TxType {
    /// The label of the classification: empty for a transaction that is not
    /// a recognized swap.
    pub fn label(&self) -> (r: &'static str)
        ensures
            *self == TxType::NotSwap ==> r@.len() == 0,
            *self == TxType::Swap ==> r@ == seq!['S', 'w', 'a', 'p'],
    {
        match self {
            TxType::NotSwap => {
                proof {
                    reveal_strlit("");
                }
                ""
            },
            TxType::Swap => {
                proof {
                    reveal_strlit("Swap");
                }
                "Swap"
            },
        }
    }
}

impl Direction {
    /// The label of the direction: `buy` or `sell`.
    pub fn label(&self) -> (r: &'static str)
        ensures
            *self == Direction::Buy ==> r@ == seq!['b', 'u', 'y'],
            *self == Direction::Sell ==> r@ == seq!['s', 'e', 'l', 'l'],
    {
        match self {
            Direction::Buy => {
                proof {
                    reveal_strlit("buy");
                }
                "buy"
            },
            Direction::Sell => {
                proof {
                    reveal_strlit("sell");
                }
                "sell"
            },
        }
    }
}

/// The outcome of classifying one transaction.
///
/// Amounts are in the smallest unit of the asset they measure and are
/// signed: no clamping is done on unexpected balance movements.
#[derive(Clone, Debug)]
pub struct ParseTx {
    pub type_tx: TxType,
    pub direction: Option<Direction>,
    pub amount_in: i128,
    pub amount_out: i128,
    pub mint: String,
}

/// Mathematical value of a [`ParseTx`].
pub ghost struct ParseTxModel {
    pub type_tx: TxType,
    pub direction: Option<Direction>,
    pub amount_in: int,
    pub amount_out: int,
    pub mint: Seq<char>,
}

impl View for ParseTx {
    type V = ParseTxModel;

    open spec fn view(&self) -> ParseTxModel {
        ParseTxModel {
            type_tx: self.type_tx,
            direction: self.direction,
            amount_in: self.amount_in as int,
            amount_out: self.amount_out as int,
            mint: self.mint@,
        }
    }
}

/// Why a transaction could not be classified.
#[derive(Clone, Debug)]
pub enum TxParseError {
    /// The signature text is not a well-formed transaction signature.
    InvalidSignature,
    /// The transaction could not be fetched; carries the fetcher's message.
    FetchFailed(String),
    /// The transaction carries no metadata.
    MetadataMissing,
    /// Log messages (or the inner instructions that go with them) were
    /// absent or not requested.
    LogsUnavailable,
    /// A token-balance list was absent or not requested.
    BalancesUnavailable,
    /// A token-balance entry does not say who owns it.
    OwnerUnavailable,
}

/// The record reported for a transaction that is not a recognized swap.
pub open spec fn null_swap_model() -> ParseTxModel {
    ParseTxModel {
        type_tx: TxType::NotSwap,
        direction: None,
        amount_in: 0,
        amount_out: 0,
        mint: Seq::empty(),
    }
}

impl ParseTx {
    /// The record for a transaction that is not a recognized swap.
    pub fn null_swap() -> (r: ParseTx)
        ensures
            r@ == null_swap_model(),
    {
        ParseTx {
            type_tx: TxType::NotSwap,
            direction: None,
            amount_in: 0,
            amount_out: 0,
            mint: String::new(),
        }
    }
}

} // verus!
