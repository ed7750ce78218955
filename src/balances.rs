use vstd::prelude::*;
use crate::types::{Config, Field, TokenBalance, TxParseError};

verus! {

/// The entry's owner is known and equals `addr`.
pub open spec fn owner_is(e: TokenBalance, addr: Seq<char>) -> bool {
    e.owner matches Field::Present(o) && o@ == addr
}

/// The entry's balance, a null balance counting as zero.
pub open spec fn amount_of(e: TokenBalance) -> nat {
    match e.amount {
        Some(a) => a as nat,
        None => 0,
    }
}

/// The entry belongs to the tracked account.
pub open spec fn is_tracked(e: TokenBalance, cfg: Config) -> bool {
    owner_is(e, cfg.tracked_account@)
}

/// The entry is the reference authority's balance of the base asset.
pub open spec fn is_reference(e: TokenBalance, cfg: Config) -> bool {
    owner_is(e, cfg.reference_authority@) && e.mint@ == cfg.base_asset_mint@
}

/// Every entry says who owns it.
pub open spec fn owners_known(s: Seq<TokenBalance>) -> bool {
    forall|i: int| 0 <= i < s.len() ==> (#[trigger] s[i]).owner is Present
}

/// Balance of the last tracked-account entry, zero if there is none.
pub open spec fn tracked_amount_in(s: Seq<TokenBalance>, cfg: Config) -> nat
    decreases s.len(),
{
    if s.len() == 0 {
        0
    } else if is_tracked(s.last(), cfg) {
        amount_of(s.last())
    } else {
        tracked_amount_in(s.drop_last(), cfg)
    }
}

/// Mint of the last tracked-account entry, empty if there is none.
pub open spec fn tracked_mint_in(s: Seq<TokenBalance>, cfg: Config) -> Seq<char>
    decreases s.len(),
{
    if s.len() == 0 {
        Seq::empty()
    } else if is_tracked(s.last(), cfg) {
        s.last().mint@
    } else {
        tracked_mint_in(s.drop_last(), cfg)
    }
}

/// Balance of the last reference-authority base-asset entry, zero if there
/// is none.
pub open spec fn reference_amount_in(s: Seq<TokenBalance>, cfg: Config) -> nat
    decreases s.len(),
{
    if s.len() == 0 {
        0
    } else if is_reference(s.last(), cfg) {
        amount_of(s.last())
    } else {
        reference_amount_in(s.drop_last(), cfg)
    }
}

/// What one walk over a balance list finds.
#[derive(Clone, Debug)]
pub struct BalanceWalk {
    /// Mint of the tracked account's entry, empty if it has none.
    pub mint: String,
    pub tracked_amount: u64,
    pub reference_amount: u64,
}

/// The entry's balance, a null balance counting as zero.
pub fn amount_or_zero(e: &TokenBalance) -> (r: u64)
    ensures
        r as nat == amount_of(*e),
{
    match e.amount {
        Some(a) => a,
        None => 0,
    }
}

/// Walks one balance list, later entries overriding earlier ones for the
/// same role. An entry of unknown owner fails the walk.
pub fn walk_balances(entries: &Vec<TokenBalance>, cfg: &Config) -> (r: Result<
    BalanceWalk,
    TxParseError,
>)
    ensures
        r is Ok <==> owners_known(entries@),
        r is Err ==> r matches Err(TxParseError::OwnerUnavailable),
        r matches Ok(w) ==> {
            &&& w.mint@ == tracked_mint_in(entries@, *cfg)
            &&& w.tracked_amount as nat == tracked_amount_in(entries@, *cfg)
            &&& w.reference_amount as nat == reference_amount_in(entries@, *cfg)
        },
{
    let mut mint = String::new();
    let mut tracked_amount: u64 = 0;
    let mut reference_amount: u64 = 0;
    let mut i: usize = 0;
    while i < entries.len()
        invariant
            i <= entries.len(),
            owners_known(entries@.subrange(0, i as int)),
            mint@ == tracked_mint_in(entries@.subrange(0, i as int), *cfg),
            tracked_amount as nat == tracked_amount_in(entries@.subrange(0, i as int), *cfg),
            reference_amount as nat == reference_amount_in(entries@.subrange(0, i as int), *cfg),
        decreases entries.len() - i,
    {
        let e = &entries[i];
        proof {
            let s = entries@.subrange(0, i as int + 1);
            assert(s.drop_last() =~= entries@.subrange(0, i as int));
            assert(s.last() == entries@[i as int]);
        }
        match &e.owner {
            Field::Present(owner) => {
                if *owner == cfg.tracked_account {
                    mint = e.mint.clone();
                    tracked_amount = amount_or_zero(e);
                }
                if *owner == cfg.reference_authority && e.mint == cfg.base_asset_mint {
                    reference_amount = amount_or_zero(e);
                }
            },
            _ => {
                assert(!owners_known(entries@));
                return Err(TxParseError::OwnerUnavailable);
            },
        }
        i = i + 1;
    }
    assert(entries@.subrange(0, entries@.len() as int) =~= entries@);
    Ok(BalanceWalk { mint, tracked_amount, reference_amount })
}

} // verus!

verus! {

/// The four amounts and the mint that the classifier works from.
#[derive(Clone, Debug)]
pub struct Extraction {
    pub mint: String,
    pub pre_tracked: u64,
    pub post_tracked: u64,
    pub pre_reference: u64,
    pub post_reference: u64,
}

/// Mathematical value of an [`Extraction`].
pub ghost struct ExtractionModel {
    pub mint: Seq<char>,
    pub pre_tracked: int,
    pub post_tracked: int,
    pub pre_reference: int,
    pub post_reference: int,
}

impl View for Extraction {
    type V = ExtractionModel;

    open spec fn view(&self) -> ExtractionModel {
        ExtractionModel {
            mint: self.mint@,
            pre_tracked: self.pre_tracked as int,
            post_tracked: self.post_tracked as int,
            pre_reference: self.pre_reference as int,
            post_reference: self.post_reference as int,
        }
    }
}

/// Outcome of extraction: the post list is read first, then the pre list;
/// the mint comes from the post list alone.
pub open spec fn extraction_of(
    pre: Field<Vec<TokenBalance>>,
    post: Field<Vec<TokenBalance>>,
    cfg: Config,
) -> Result<ExtractionModel, TxParseError> {
    match post {
        Field::Present(ps) => if !owners_known(ps@) {
            Err(TxParseError::OwnerUnavailable)
        } else {
            match pre {
                Field::Present(qs) => if !owners_known(qs@) {
                    Err(TxParseError::OwnerUnavailable)
                } else {
                    Ok(
                        ExtractionModel {
                            mint: tracked_mint_in(ps@, cfg),
                            pre_tracked: tracked_amount_in(qs@, cfg) as int,
                            post_tracked: tracked_amount_in(ps@, cfg) as int,
                            pre_reference: reference_amount_in(qs@, cfg) as int,
                            post_reference: reference_amount_in(ps@, cfg) as int,
                        },
                    )
                },
                _ => Err(TxParseError::BalancesUnavailable),
            }
        },
        _ => Err(TxParseError::BalancesUnavailable),
    }
}

/// Value of an extraction result.
pub open spec fn extraction_result_view(r: Result<Extraction, TxParseError>) -> Result<
    ExtractionModel,
    TxParseError,
> {
    match r {
        Ok(x) => Ok(x@),
        Err(e) => Err(e),
    }
}

/// Extracts the tracked account's and the reference authority's balances
/// before and after the transaction.
pub fn extract_balances(
    pre: &Field<Vec<TokenBalance>>,
    post: &Field<Vec<TokenBalance>>,
    cfg: &Config,
) -> (r: Result<Extraction, TxParseError>)
    ensures
        extraction_result_view(r) == extraction_of(*pre, *post, *cfg),
{
    let post_walk = match post {
        Field::Present(ps) => match walk_balances(ps, cfg) {
            Ok(w) => w,
            Err(e) => return Err(e),
        },
        _ => return Err(TxParseError::BalancesUnavailable),
    };
    let pre_walk = match pre {
        Field::Present(qs) => match walk_balances(qs, cfg) {
            Ok(w) => w,
            Err(e) => return Err(e),
        },
        _ => return Err(TxParseError::BalancesUnavailable),
    };
    Ok(
        Extraction {
            mint: post_walk.mint,
            pre_tracked: pre_walk.tracked_amount,
            post_tracked: post_walk.tracked_amount,
            pre_reference: pre_walk.reference_amount,
            post_reference: post_walk.reference_amount,
        },
    )
}

} // verus!
