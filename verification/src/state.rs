//! Persisted ledger records: the singleton configuration, one staked-token
//! reference, and the per-depositor holder record.

use vstd::prelude::*;
use crate::credit::Credit;

verus! {

/// Token kind for the first stakeable collection.
pub const KIND_MONKEEZ: u64 = 0;

/// Token kind for the second stakeable collection.
pub const KIND_KONGZ: u64 = 1;

/// Singleton administrative configuration. Identifiers are the principals
/// of the owner and of the three collaborating token collections.
#[derive(Clone, Debug, PartialEq)]
pub struct Config {
    pub owner: String,
    pub monkeez_nft: String,
    pub kongz_nft: String,
    pub reward_nft: String,
}

impl Config {
    /// The stakeable collection a token kind belongs to, if the kind is known.
    pub fn staked_nft_addr(&self, selector: u64) -> (r: Option<String>)
        ensures
            selector == KIND_MONKEEZ ==> (r matches Some(a) && a@ == self.monkeez_nft@),
            selector == KIND_KONGZ ==> (r matches Some(a) && a@ == self.kongz_nft@),
            selector >= 2 ==> r is None,
    {
        match selector {
            0 => Some(self.monkeez_nft.clone()),
            1 => Some(self.kongz_nft.clone()),
            _ => None,
        }
    }
}

/// One staked token: its kind selects the collection, its id the token.
#[derive(Clone, Debug, PartialEq)]
pub struct TokenInfo {
    pub token_kind: u64,
    pub token_id: String,
}

impl TokenInfo {
    /// Whether this reference is for exactly the given (kind, id) pair.
    pub fn is_match(&self, token_kind: u64, token_id: &String) -> (r: bool)
        ensures
            r == self.spec_is_match(token_kind, token_id@),
    {
        self.token_kind == token_kind && self.token_id == *token_id
    }

    pub open spec fn spec_is_match(&self, token_kind: u64, token_id: Seq<char>) -> bool {
        self.token_kind == token_kind && self.token_id@ == token_id
    }
}

/// Per-depositor record: the staked tokens, the accrual checkpoint, and the
/// cumulative earned and released credit.
#[derive(Clone, Debug, PartialEq)]
pub struct Holder {
    pub token_ids: Vec<TokenInfo>,
    pub last_reward_time: u64,
    pub last_reward_earned: Credit,
    pub last_reward_release: Credit,
}

impl Holder {
    /// Well-formedness: every staked token has a known kind, and released
    /// credit never exceeds earned credit.
    pub open spec fn wf(&self) -> bool {
        &&& forall|i: int|
            0 <= i < self.token_ids@.len() ==> (#[trigger] self.token_ids@[i]).token_kind < 2
        &&& self.last_reward_release.atto <= self.last_reward_earned.atto
    }

    /// The all-zero record a depositor starts from on first contact.
    pub fn new() -> (r: Holder)
        ensures
            r.token_ids@.len() == 0,
            r.last_reward_time == 0,
            r.last_reward_earned.atto == 0,
            r.last_reward_release.atto == 0,
            r.wf(),
    {
        Holder {
            token_ids: Vec::new(),
            last_reward_time: 0,
            last_reward_earned: Credit::zero(),
            last_reward_release: Credit::zero(),
        }
    }
}

} // verus!
