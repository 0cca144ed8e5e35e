//! Request and response shapes of the staking protocol, as plain values.
//! The host wiring decodes the wire format into these and encodes the
//! responses back out.

use vstd::prelude::*;

verus! {

/// Initial configuration: the three collaborating collections.
#[derive(Clone, Debug, PartialEq)]
pub struct InstantiateMsg {
    pub monkeez_nft: String,
    pub kongz_nft: String,
    pub reward_nft: String,
}

/// A custody-receive notification: `sender` deposited token `token_id`
/// of the collection that delivered the notice, with `hook` the decoded
/// intent payload (`None` when the payload was absent or malformed).
#[derive(Clone, Debug, PartialEq)]
pub struct Cw721ReceiveInfo {
    pub sender: String,
    pub token_id: String,
    pub hook: Option<Cw721HookMsg>,
}

/// The mutating requests.
#[derive(Clone, Debug, PartialEq)]
pub enum ExecuteMsg {
    Receive(Cw721ReceiveInfo),
    Unstake { token_kind: u64, token_id: String },
    ClaimReward {},
    Update {
        owner: Option<String>,
        monkeez_nft: Option<String>,
        kongz_nft: Option<String>,
        reward_token: Option<String>,
    },
}

/// The intent a custody-receive notification may carry.
#[derive(Clone, Copy, Debug, PartialEq, Eq, Structural)]
pub enum Cw721HookMsg {
    Stake {},
}

/// The read-only requests.
#[derive(Clone, Debug, PartialEq)]
pub enum QueryMsg {
    Config {},
    Reward { staker: String },
}

/// The configuration, with identifiers in their external form.
#[derive(Clone, Debug, PartialEq)]
pub struct ConfigResponse {
    pub owner: String,
    pub monkeez_nft: String,
    pub kongz_nft: String,
    pub reward_nft: String,
}

/// The whole-unit credit currently claimable by a staker.
#[derive(Clone, Copy, Debug, PartialEq, Eq, Structural)]
pub struct RewardResponse {
    pub reward_amount: u128,
}

/// A validated stake request, distilled from a custody-receive notice:
/// which depositor staked which token of which kind.
#[derive(Clone, Debug, PartialEq)]
pub struct StakeRequest {
    pub depositor: String,
    pub token_id: String,
    pub nft_kind: u64,
}

/// One mint instruction for the reward collection: mint `token_id` to
/// `owner` on collection `collection`. Fire-and-forget; the ledger has
/// already recorded the released credit when it is dispatched.
#[derive(Clone, Debug, PartialEq)]
pub struct MintInstruction {
    pub collection: String,
    pub token_id: String,
    pub owner: String,
}

} // verus!
