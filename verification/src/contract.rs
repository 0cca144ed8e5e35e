//! The ledger's state transitions: accrual, stake, unstake, claim, the
//! administrative update, and the read-only reports.
//!
//! Every transition here is pure with respect to the host: it takes the
//! loaded records and the block time as plain values and says exactly how
//! the records change. The host wiring loads and persists them around each
//! call and performs the two outward interactions (the ownership query
//! before a stake, the mint instructions after a claim).

use vstd::prelude::*;
use crate::credit::{ratio_atto, Credit, CREDIT_SCALE};
use crate::duration::{duration_of, lemma_duration_positive, staking_time};
use crate::error::ContractError;
use crate::msg::{ConfigResponse, Cw721HookMsg, Cw721ReceiveInfo, InstantiateMsg, MintInstruction,
    RewardResponse, StakeRequest};
use crate::state::{Config, Holder, TokenInfo};

verus! {

/// The credit, in `10^-18` units, a holder accrues between its checkpoint
/// and `now`: elapsed seconds over the current composition's duration, or
/// nothing at all while no token is staked.
pub open spec fn accrual_delta(h: Holder, now: u64) -> int
    recommends
        h.wf(),
        now >= h.last_reward_time,
{
    if h.token_ids@.len() == 0 {
        0
    } else {
        ratio_atto(now - h.last_reward_time, duration_of(h.token_ids@))
    }
}

/// The whole-unit credit a claim at `now` would release: earned credit
/// brought up to date, less what was already released, truncated.
pub open spec fn claimable_after_accrual(h: Holder, now: u64) -> int
    recommends
        h.wf(),
        now >= h.last_reward_time,
{
    ((h.last_reward_earned.atto + accrual_delta(h, now)) - h.last_reward_release.atto) / (
    CREDIT_SCALE as int)
}

/// Brings a holder's earned credit up to `now` against the current
/// composition and advances the checkpoint. An empty composition accrues
/// nothing and the checkpoint stays put.
pub fn update_reward(holder: &mut Holder, now: u64)
    requires
        old(holder).wf(),
        now >= old(holder).last_reward_time,
        old(holder).last_reward_earned.atto + accrual_delta(*old(holder), now) <= u128::MAX,
    ensures
        final(holder).token_ids == old(holder).token_ids,
        final(holder).last_reward_release == old(holder).last_reward_release,
        final(holder).last_reward_earned.atto == old(holder).last_reward_earned.atto
            + accrual_delta(*old(holder), now),
        final(holder).last_reward_time == if old(holder).token_ids@.len() == 0 {
            old(holder).last_reward_time
        } else {
            now
        },
        final(holder).wf(),
{
    if holder.token_ids.len() == 0 {
        return ;
    }
    proof {
        lemma_duration_positive(holder.token_ids@);
    }
    let d: u64 = staking_time(&holder.token_ids).unwrap();
    let diff: u64 = now - holder.last_reward_time;
    let reward = Credit::from_ratio(diff, d);
    holder.last_reward_earned = holder.last_reward_earned.plus(reward);
    holder.last_reward_time = now;
}

/// A holder as the stake transition first checkpoints it: a record that
/// never accrued before starts its clock at `now`, so pre-account time is
/// never credited.
pub open spec fn stake_checkpoint(h: Holder, now: u64) -> Holder {
    if h.last_reward_time == 0 {
        Holder { last_reward_time: now, ..h }
    } else {
        h
    }
}

/// Credits the depositor for time held under the pre-addition composition,
/// then appends the new token. The depositor must be the token's on-record
/// owner as the ownership oracle reported it (`token_owner`); on a mismatch
/// nothing changes.
pub fn execute_stake(
    holder: &mut Holder,
    now: u64,
    sender: &String,
    token_owner: &String,
    token_id: String,
    nft_kind: u64,
) -> (r: Result<(), ContractError>)
    requires
        old(holder).wf(),
        nft_kind < 2,
        now >= old(holder).last_reward_time,
        old(holder).last_reward_earned.atto + accrual_delta(
            stake_checkpoint(*old(holder), now),
            now,
        ) <= u128::MAX,
    ensures
        sender@ != token_owner@ ==> r == Err::<(), ContractError>(ContractError::Unauthorized)
            && *final(holder) == *old(holder),
        sender@ == token_owner@ ==> ({
            let h1 = stake_checkpoint(*old(holder), now);
            &&& r == Ok::<(), ContractError>(())
            &&& final(holder).token_ids@ == h1.token_ids@.push(
                (TokenInfo { token_kind: nft_kind, token_id: token_id }),
            )
            &&& final(holder).last_reward_earned.atto == h1.last_reward_earned.atto
                + accrual_delta(h1, now)
            &&& final(holder).last_reward_release == h1.last_reward_release
            &&& final(holder).last_reward_time == if h1.token_ids@.len() == 0 {
                h1.last_reward_time
            } else {
                now
            }
        }),
        final(holder).wf(),
{
    if *sender != *token_owner {
        return Err(ContractError::Unauthorized);
    }
    if holder.last_reward_time == 0 {
        holder.last_reward_time = now;
    }
    proof {
        assert(*holder == stake_checkpoint(*old(holder), now));
    }
    update_reward(holder, now);
    holder.token_ids.push(TokenInfo { token_kind: nft_kind, token_id });
    Ok(())
}

/// Whether some entry of the list is for exactly this (kind, id) pair.
pub open spec fn has_token(tokens: Seq<TokenInfo>, kind: u64, id: Seq<char>) -> bool {
    exists|i: int| 0 <= i < tokens.len() && (#[trigger] tokens[i]).spec_is_match(kind, id)
}

/// Credits the depositor for time held up to this moment under the full
/// current composition, the departing token included, then removes the
/// first matching entry. An unknown kind or an absent (kind, id) leaves
/// the record untouched.
pub fn execute_unstake(holder: &mut Holder, now: u64, token_kind: u64, token_id: &String) -> (r:
    Result<(), ContractError>)
    requires
        old(holder).wf(),
        now >= old(holder).last_reward_time,
        old(holder).last_reward_earned.atto + accrual_delta(*old(holder), now) <= u128::MAX,
    ensures
        (token_kind >= 2 || !has_token(old(holder).token_ids@, token_kind, token_id@)) ==> r
            == Err::<(), ContractError>(ContractError::InvalidToken) && *final(holder) == *old(
            holder,
        ),
        (token_kind < 2 && has_token(old(holder).token_ids@, token_kind, token_id@)) ==> ({
            &&& r == Ok::<(), ContractError>(())
            &&& exists|i: int|
                {
                    &&& 0 <= i < old(holder).token_ids@.len()
                    &&& (#[trigger] old(holder).token_ids@[i]).spec_is_match(
                        token_kind,
                        token_id@,
                    )
                    &&& forall|j: int|
                        0 <= j < i ==> !(#[trigger] old(holder).token_ids@[j]).spec_is_match(
                            token_kind,
                            token_id@,
                        )
                    &&& final(holder).token_ids@ == old(holder).token_ids@.remove(i)
                }
            &&& final(holder).last_reward_earned.atto == old(holder).last_reward_earned.atto
                + accrual_delta(*old(holder), now)
            &&& final(holder).last_reward_release == old(holder).last_reward_release
            &&& final(holder).last_reward_time == now
        }),
        final(holder).wf(),
{
    if token_kind >= 2 {
        return Err(ContractError::InvalidToken);
    }
    let n: usize = holder.token_ids.len();
    let mut idx: usize = 0;
    let mut found: bool = false;
    while idx < n && !found
        invariant
            0 <= idx <= n,
            n == holder.token_ids@.len(),
            *holder == *old(holder),
            found ==> idx < n && holder.token_ids@[idx as int].spec_is_match(
                token_kind,
                token_id@,
            ),
            forall|j: int|
                0 <= j < idx ==> !(#[trigger] holder.token_ids@[j]).spec_is_match(
                    token_kind,
                    token_id@,
                ),
        decreases n - idx + if found {
            0int
        } else {
            1int
        },
    {
        if holder.token_ids[idx].is_match(token_kind, token_id) {
            found = true;
        } else {
            idx = idx + 1;
        }
    }
    if !found {
        return Err(ContractError::InvalidToken);
    }
    update_reward(holder, now);
    holder.token_ids.remove(idx);
    proof {
        assert(holder.token_ids@ == old(holder).token_ids@.remove(idx as int));
        assert forall|p: int| 0 <= p < holder.token_ids@.len() implies (#[trigger] holder
            .token_ids@[p]).token_kind < 2 by {
            if p < idx {
                assert(holder.token_ids@[p] == old(holder).token_ids@[p]);
            } else {
                assert(holder.token_ids@[p] == old(holder).token_ids@[p + 1]);
            }
        }
    }
    Ok(())
}

/// The character for one decimal digit.
pub open spec fn dec_digit_char(d: int) -> char
    recommends
        0 <= d <= 9,
{
    if d == 0 {
        '0'
    } else if d == 1 {
        '1'
    } else if d == 2 {
        '2'
    } else if d == 3 {
        '3'
    } else if d == 4 {
        '4'
    } else if d == 5 {
        '5'
    } else if d == 6 {
        '6'
    } else if d == 7 {
        '7'
    } else if d == 8 {
        '8'
    } else {
        '9'
    }
}

/// The decimal digits of a non-negative number, most significant first,
/// without leading zeros (a lone zero for zero itself).
pub open spec fn dec_digits(n: int) -> Seq<char>
    recommends
        n >= 0,
    decreases n,
{
    if n <= 9 {
        seq![dec_digit_char(n)]
    } else {
        dec_digits(n / 10) + seq![dec_digit_char(n % 10)]
    }
}

/// The id minted for one reward token: the fixed prefix followed by the
/// decimal digits of the sequence number, globally unique because the
/// sequence never repeats.
pub open spec fn token_id_chars(n: u64) -> Seq<char> {
    "baybe_ape_"@ + dec_digits(n as int)
}

/// Relies on std's `format!`: formatting a `u64` with `{}` yields exactly
/// its decimal digits, here appended to the fixed reward-token prefix.
#[verifier::external_body]
fn mint_token_id(n: u64) -> (r: String)
    ensures
        r@ == token_id_chars(n),
{
    format!("baybe_ape_{}", n)
}

/// Brings the holder's credit up to date, converts every whole unit of
/// unreleased credit into one mint instruction with a fresh sequence-derived
/// id, and records the released amount. The instructions are handed back for
/// the host to dispatch after the ledger state is persisted (optimistic
/// issuance: released credit is not rolled back if a mint later fails).
pub fn execute_claim_reward(
    holder: &mut Holder,
    new_token_id: &mut u64,
    now: u64,
    sender: &String,
    reward_collection: &String,
) -> (msgs: Vec<MintInstruction>)
    requires
        old(holder).wf(),
        now >= old(holder).last_reward_time,
        old(holder).last_reward_earned.atto + accrual_delta(*old(holder), now) <= u128::MAX,
        *old(new_token_id) + claimable_after_accrual(*old(holder), now) <= u64::MAX,
    ensures
        ({
            let c = claimable_after_accrual(*old(holder), now);
            &&& final(holder).token_ids == old(holder).token_ids
            &&& final(holder).last_reward_earned.atto == old(holder).last_reward_earned.atto
                + accrual_delta(*old(holder), now)
            &&& final(holder).last_reward_time == if old(holder).token_ids@.len() == 0 {
                old(holder).last_reward_time
            } else {
                now
            }
            &&& final(holder).last_reward_release.atto == old(holder).last_reward_release.atto + c
                * (CREDIT_SCALE as int)
            &&& *final(new_token_id) == *old(new_token_id) + c
            &&& msgs@.len() == c
            &&& forall|i: int|
                0 <= i < c ==> {
                    &&& (#[trigger] msgs@[i]).token_id@ == token_id_chars(
                        (*old(new_token_id) + i + 1) as u64,
                    )
                    &&& msgs@[i].owner@ == sender@
                    &&& msgs@[i].collection@ == reward_collection@
                }
            &&& final(holder).wf()
        }),
{
    update_reward(holder, now);
    let avail = holder.last_reward_earned.minus(holder.last_reward_release);
    let claim_units: u128 = avail.whole();
    proof {
        vstd::arithmetic::div_mod::lemma_fundamental_div_mod(
            avail.atto as int,
            CREDIT_SCALE as int,
        );
        vstd::arithmetic::div_mod::lemma_mod_bound(avail.atto as int, CREDIT_SCALE as int);
        vstd::arithmetic::mul::lemma_mul_is_commutative(
            CREDIT_SCALE as int,
            claim_units as int,
        );
    }
    let claimable: u64 = claim_units as u64;
    let mut msgs: Vec<MintInstruction> = Vec::new();
    holder.last_reward_release = holder.last_reward_release.plus(Credit::from_whole(claimable));
    let mut i: u64 = 0;
    while i < claimable
        invariant
            0 <= i <= claimable,
            *new_token_id == *old(new_token_id) + i,
            *old(new_token_id) + claimable <= u64::MAX,
            msgs@.len() == i,
            forall|j: int|
                0 <= j < i ==> {
                    &&& (#[trigger] msgs@[j]).token_id@ == token_id_chars(
                        (*old(new_token_id) + j + 1) as u64,
                    )
                    &&& msgs@[j].owner@ == sender@
                    &&& msgs@[j].collection@ == reward_collection@
                },
        decreases claimable - i,
    {
        *new_token_id = *new_token_id + 1;
        msgs.push(
            MintInstruction {
                collection: reward_collection.clone(),
                token_id: mint_token_id(*new_token_id),
                owner: sender.clone(),
            },
        );
        i = i + 1;
    }
    msgs
}

/// Holding any defined composition for exactly its duration accrues
/// exactly one whole credit, no more and no less: the duration is the
/// reward velocity's reciprocal by construction.
pub proof fn lemma_full_period_accrues_one_credit(h: Holder, now: u64)
    requires
        h.wf(),
        h.token_ids@.len() >= 1,
        now - h.last_reward_time == duration_of(h.token_ids@),
    ensures
        accrual_delta(h, now) == CREDIT_SCALE,
{
    lemma_duration_positive(h.token_ids@);
    vstd::arithmetic::div_mod::lemma_div_multiples_vanish(
        CREDIT_SCALE as int,
        duration_of(h.token_ids@),
    );
}

/// While a holder's unreleased credit, brought up to date, is still under
/// one whole unit, a claim releases nothing: it issues no mint instruction
/// and leaves the released counter exactly where it was.
pub proof fn lemma_small_claim_is_empty(h: Holder, now: u64)
    requires
        h.wf(),
        now >= h.last_reward_time,
        h.last_reward_earned.atto + accrual_delta(h, now) - h.last_reward_release.atto
            < CREDIT_SCALE,
    ensures
        claimable_after_accrual(h, now) == 0,
{
    let x = (h.last_reward_earned.atto + accrual_delta(h, now)) - h.last_reward_release.atto;
    if h.token_ids@.len() > 0 {
        lemma_duration_positive(h.token_ids@);
        vstd::arithmetic::div_mod::lemma_div_pos_is_pos(
            (now - h.last_reward_time) * (CREDIT_SCALE as int),
            duration_of(h.token_ids@),
        );
    }
    vstd::arithmetic::div_mod::lemma_basic_div(x, CREDIT_SCALE as int);
}

/// The initial state: the instantiating principal becomes the owner, the
/// three collection identifiers are taken as given, and the mint sequence
/// starts at zero.
pub fn instantiate(sender: String, msg: InstantiateMsg) -> (r: (Config, u64))
    ensures
        r.0.owner@ == sender@,
        r.0.monkeez_nft@ == msg.monkeez_nft@,
        r.0.kongz_nft@ == msg.kongz_nft@,
        r.0.reward_nft@ == msg.reward_nft@,
        r.1 == 0,
{
    (
        Config {
            owner: sender,
            monkeez_nft: msg.monkeez_nft,
            kongz_nft: msg.kongz_nft,
            reward_nft: msg.reward_nft,
        },
        0,
    )
}

/// Validates a custody-receive notification: the payload must carry the
/// stake intent and the notifying collection (`info_sender`) must be one of
/// the two stakeable collections, the first deciding the kind if both match.
/// The distilled request names the depositor, the token, and its kind; the
/// caller must still confirm ownership with the oracle before staking.
pub fn receive_cw721(config: &Config, info_sender: &String, cw721_msg: Cw721ReceiveInfo) -> (r:
    Result<StakeRequest, ContractError>)
    ensures
        !(cw721_msg.hook matches Some(h) && h is Stake) ==> r == Err::<
            StakeRequest,
            ContractError,
        >(ContractError::MissingIntent),
        (cw721_msg.hook matches Some(h) && h is Stake) ==> {
            &&& info_sender@ == config.monkeez_nft@ ==> (r matches Ok(q) && q.depositor@
                == cw721_msg.sender@ && q.token_id@ == cw721_msg.token_id@ && q.nft_kind == 0)
            &&& (info_sender@ != config.monkeez_nft@ && info_sender@ == config.kongz_nft@) ==> (
            r matches Ok(q) && q.depositor@ == cw721_msg.sender@ && q.token_id@
                == cw721_msg.token_id@ && q.nft_kind == 1)
            &&& (info_sender@ != config.monkeez_nft@ && info_sender@ != config.kongz_nft@) ==> r
                == Err::<StakeRequest, ContractError>(ContractError::Unauthorized)
        },
{
    match cw721_msg.hook {
        Some(Cw721HookMsg::Stake {}) => {
            if *info_sender == config.monkeez_nft {
                Ok(
                    StakeRequest {
                        depositor: cw721_msg.sender,
                        token_id: cw721_msg.token_id,
                        nft_kind: 0,
                    },
                )
            } else if *info_sender == config.kongz_nft {
                Ok(
                    StakeRequest {
                        depositor: cw721_msg.sender,
                        token_id: cw721_msg.token_id,
                        nft_kind: 1,
                    },
                )
            } else {
                Err(ContractError::Unauthorized)
            }
        },
        None => Err(ContractError::MissingIntent),
    }
}

/// Overwrites exactly the supplied configuration fields, provided the
/// caller is the current owner; any other caller changes nothing and is
/// rejected.
pub fn execute_update(
    config: &Config,
    sender: &String,
    owner: Option<String>,
    monkeez_nft: Option<String>,
    kongz_nft: Option<String>,
    reward_token: Option<String>,
) -> (r: Result<Config, ContractError>)
    ensures
        sender@ != config.owner@ <==> r == Err::<Config, ContractError>(
            ContractError::Unauthorized,
        ),
        sender@ == config.owner@ ==> (r matches Ok(c) && {
            &&& c.owner@ == if owner is Some {
                owner->0@
            } else {
                config.owner@
            }
            &&& c.monkeez_nft@ == if monkeez_nft is Some {
                monkeez_nft->0@
            } else {
                config.monkeez_nft@
            }
            &&& c.kongz_nft@ == if kongz_nft is Some {
                kongz_nft->0@
            } else {
                config.kongz_nft@
            }
            &&& c.reward_nft@ == if reward_token is Some {
                reward_token->0@
            } else {
                config.reward_nft@
            }
        }),
{
    if *sender != config.owner {
        return Err(ContractError::Unauthorized);
    }
    let new_owner = match owner {
        Some(o) => o,
        None => config.owner.clone(),
    };
    let new_monkeez = match monkeez_nft {
        Some(m) => m,
        None => config.monkeez_nft.clone(),
    };
    let new_kongz = match kongz_nft {
        Some(k) => k,
        None => config.kongz_nft.clone(),
    };
    let new_reward = match reward_token {
        Some(t) => t,
        None => config.reward_nft.clone(),
    };
    Ok(
        Config {
            owner: new_owner,
            monkeez_nft: new_monkeez,
            kongz_nft: new_kongz,
            reward_nft: new_reward,
        },
    )
}

/// The configuration as a read-only report.
pub fn query_config(config: &Config) -> (r: ConfigResponse)
    ensures
        r.owner@ == config.owner@,
        r.monkeez_nft@ == config.monkeez_nft@,
        r.kongz_nft@ == config.kongz_nft@,
        r.reward_nft@ == config.reward_nft@,
{
    ConfigResponse {
        owner: config.owner.clone(),
        monkeez_nft: config.monkeez_nft.clone(),
        kongz_nft: config.kongz_nft.clone(),
        reward_nft: config.reward_nft.clone(),
    }
}

/// The claimable amount a read-only reward query reports: the holder's
/// credit brought up to date in a scratch copy, less released credit, in
/// whole units. Nothing is persisted by a query.
pub fn query_reward(holder: &Holder, now: u64) -> (r: RewardResponse)
    requires
        holder.wf(),
        now >= holder.last_reward_time,
        holder.last_reward_earned.atto + accrual_delta(*holder, now) <= u128::MAX,
    ensures
        r.reward_amount == claimable_after_accrual(*holder, now),
{
    let mut earned = holder.last_reward_earned;
    if holder.token_ids.len() > 0 {
        proof {
            lemma_duration_positive(holder.token_ids@);
        }
        let d: u64 = staking_time(&holder.token_ids).unwrap();
        earned = earned.plus(Credit::from_ratio(now - holder.last_reward_time, d));
    }
    RewardResponse { reward_amount: earned.minus(holder.last_reward_release).whole() }
}

} // verus!
