use wagmi_staking::contract::{
    execute_claim_reward, execute_stake, execute_unstake, execute_update, instantiate,
    query_config, query_reward, receive_cw721, update_reward,
};
use wagmi_staking::credit::{Credit, CREDIT_SCALE};
use wagmi_staking::duration::{
    staking_time, KONGZ_STAKE_SECONDS, MONKEEZ_STAKE_SECONDS, SATURATED_STAKE_SECONDS,
};
use wagmi_staking::error::ContractError;
use wagmi_staking::msg::{Cw721HookMsg, Cw721ReceiveInfo, InstantiateMsg};
use wagmi_staking::state::{Config, Holder, TokenInfo};

fn token(kind: u64, id: &str) -> TokenInfo {
    TokenInfo {
        token_kind: kind,
        token_id: id.to_string(),
    }
}

fn holder_with(tokens: Vec<TokenInfo>, last: u64, earned_atto: u128, released_atto: u128) -> Holder {
    Holder {
        token_ids: tokens,
        last_reward_time: last,
        last_reward_earned: Credit { atto: earned_atto },
        last_reward_release: Credit { atto: released_atto },
    }
}

fn sample_config() -> Config {
    Config {
        owner: "owner".to_string(),
        monkeez_nft: "monkeez".to_string(),
        kongz_nft: "kongz".to_string(),
        reward_nft: "reward".to_string(),
    }
}

#[test]
fn single_monkeez_duration_and_full_accrual() {
    let mut h = holder_with(vec![token(0, "m1")], 1000, 0, 0);
    assert_eq!(staking_time(&h.token_ids), Ok(84 * 86400));
    update_reward(&mut h, 1000 + 84 * 86400);
    assert_eq!(h.last_reward_earned.atto, CREDIT_SCALE);
    assert_eq!(h.last_reward_time, 1000 + 84 * 86400);
}

#[test]
fn single_kongz_duration() {
    let h = holder_with(vec![token(1, "k1")], 0, 0, 0);
    assert_eq!(staking_time(&h.token_ids), Ok(126 * 86400));
    assert_eq!(KONGZ_STAKE_SECONDS, 126 * 86400);
    assert_eq!(MONKEEZ_STAKE_SECONDS, 84 * 86400);
}

#[test]
fn mixed_pair_duration_truncates() {
    // t1 = (84d + 126d)/2 = 105d, t2 = 52.5d, k = 0.9, 52.5d * 0.9 = 47.25d
    let h = holder_with(vec![token(0, "m1"), token(1, "k1")], 0, 0, 0);
    assert_eq!(staking_time(&h.token_ids), Ok(4_082_400));
    assert_eq!(4_082_400, 47 * 86400 + 21600);
}

#[test]
fn duration_nonincreasing_up_to_ten_then_saturated() {
    let mut previous = u64::MAX;
    let expected = [
        7_257_600, 3_265_920, 1_935_360, 1_270_080, 870_912, 604_800, 414_720, 272_160, 161_280,
        72_576,
    ];
    for n in 1..=10u64 {
        let tokens: Vec<TokenInfo> = (0..n).map(|i| token(0, &format!("m{}", i))).collect();
        let d = staking_time(&tokens).unwrap();
        assert_eq!(d, expected[(n - 1) as usize]);
        assert!(d <= previous);
        previous = d;
    }
    for n in [11u64, 12, 25] {
        let tokens: Vec<TokenInfo> = (0..n)
            .map(|i| token(i % 2, &format!("t{}", i)))
            .collect();
        assert_eq!(staking_time(&tokens), Ok(SATURATED_STAKE_SECONDS));
    }
}

#[test]
fn empty_stake_has_no_duration() {
    let no_tokens: Vec<TokenInfo> = vec![];
    assert_eq!(staking_time(&no_tokens), Err(ContractError::AccrualUndefined));
}

#[test]
fn accrual_skipped_while_no_tokens_staked() {
    let mut h = holder_with(vec![], 500, 3, 7);
    update_reward(&mut h, 9_999);
    assert_eq!(h.last_reward_time, 500);
    assert_eq!(h.last_reward_earned.atto, 3);
    assert_eq!(h.last_reward_release.atto, 7);
}

#[test]
fn accrual_same_instant_is_a_no_op() {
    let mut h = holder_with(vec![token(0, "m1")], 2000, 0, 0);
    update_reward(&mut h, 2500);
    let earned_once = h.last_reward_earned.atto;
    update_reward(&mut h, 2500);
    assert_eq!(h.last_reward_earned.atto, earned_once);
}

#[test]
fn claim_with_fractional_balance_releases_whole_part() {
    // earned - released = 2.7: exactly two mints, released rises by 2, 0.7 kept
    let mut h = holder_with(vec![], 0, 2_700_000_000_000_000_000, 0);
    let mut seq: u64 = 0;
    let msgs = execute_claim_reward(
        &mut h,
        &mut seq,
        0,
        &"alice".to_string(),
        &"reward".to_string(),
    );
    assert_eq!(msgs.len(), 2);
    assert_eq!(msgs[0].token_id, "baybe_ape_1");
    assert_eq!(msgs[1].token_id, "baybe_ape_2");
    assert!(msgs[0].token_id < msgs[1].token_id);
    assert_eq!(msgs[0].owner, "alice");
    assert_eq!(msgs[0].collection, "reward");
    assert_eq!(seq, 2);
    assert_eq!(h.last_reward_release.atto, 2 * CREDIT_SCALE);
    assert_eq!(h.last_reward_earned.atto, 2_700_000_000_000_000_000);
}

#[test]
fn claim_below_one_unit_releases_nothing() {
    let mut h = holder_with(vec![], 0, 900_000_000_000_000_000, 0);
    let mut seq: u64 = 5;
    let msgs = execute_claim_reward(
        &mut h,
        &mut seq,
        0,
        &"alice".to_string(),
        &"reward".to_string(),
    );
    assert!(msgs.is_empty());
    assert_eq!(seq, 5);
    assert_eq!(h.last_reward_release.atto, 0);
}

#[test]
fn claim_sequence_continues_across_holders() {
    let mut h1 = holder_with(vec![], 0, CREDIT_SCALE, 0);
    let mut h2 = holder_with(vec![], 0, CREDIT_SCALE, 0);
    let mut seq: u64 = 0;
    let first = execute_claim_reward(&mut h1, &mut seq, 0, &"a".to_string(), &"r".to_string());
    let second = execute_claim_reward(&mut h2, &mut seq, 0, &"b".to_string(), &"r".to_string());
    assert_eq!(first[0].token_id, "baybe_ape_1");
    assert_eq!(second[0].token_id, "baybe_ape_2");
    assert_eq!(seq, 2);
}

#[test]
fn stake_rejected_when_oracle_owner_differs() {
    let mut h = Holder::new();
    let before = h.clone();
    let r = execute_stake(
        &mut h,
        100,
        &"alice".to_string(),
        &"mallory".to_string(),
        "m1".to_string(),
        0,
    );
    assert_eq!(r, Err(ContractError::Unauthorized));
    assert_eq!(h, before);
}

#[test]
fn stake_initializes_checkpoint_and_appends() {
    let mut h = Holder::new();
    let r = execute_stake(
        &mut h,
        1000,
        &"alice".to_string(),
        &"alice".to_string(),
        "m1".to_string(),
        0,
    );
    assert_eq!(r, Ok(()));
    assert_eq!(h.last_reward_time, 1000);
    assert_eq!(h.last_reward_earned.atto, 0);
    assert_eq!(h.token_ids, vec![token(0, "m1")]);
}

#[test]
fn unstake_absent_token_changes_nothing() {
    let mut h = holder_with(vec![token(0, "m1")], 100, 42, 0);
    let before = h.clone();
    let r = execute_unstake(&mut h, 200, 0, &"m2".to_string());
    assert_eq!(r, Err(ContractError::InvalidToken));
    assert_eq!(h, before);
    let r2 = execute_unstake(&mut h, 200, 1, &"m1".to_string());
    assert_eq!(r2, Err(ContractError::InvalidToken));
    assert_eq!(h, before);
}

#[test]
fn unstake_unknown_kind_is_invalid() {
    let mut h = holder_with(vec![token(0, "m1")], 100, 0, 0);
    let before = h.clone();
    assert_eq!(
        execute_unstake(&mut h, 200, 2, &"m1".to_string()),
        Err(ContractError::InvalidToken)
    );
    assert_eq!(h, before);
}

#[test]
fn unstake_accrues_under_departing_composition() {
    // both tokens held for exactly one mixed-pair duration: one whole credit
    let mut h = holder_with(vec![token(0, "m1"), token(1, "k1")], 0, 0, 0);
    let r = execute_unstake(&mut h, 4_082_400, 1, &"k1".to_string());
    assert_eq!(r, Ok(()));
    assert_eq!(h.token_ids, vec![token(0, "m1")]);
    assert_eq!(h.last_reward_earned.atto, CREDIT_SCALE);
    assert_eq!(h.last_reward_time, 4_082_400);
}

#[test]
fn unstake_removes_only_first_match() {
    let mut h = holder_with(vec![token(0, "dup"), token(0, "dup")], 0, 0, 0);
    assert_eq!(execute_unstake(&mut h, 0, 0, &"dup".to_string()), Ok(()));
    assert_eq!(h.token_ids.len(), 1);
}

#[test]
fn end_to_end_stake_query_claim() {
    let t0: u64 = 1000;
    let mut h = Holder::new();
    execute_stake(
        &mut h,
        t0,
        &"alice".to_string(),
        &"alice".to_string(),
        "m1".to_string(),
        0,
    )
    .unwrap();
    assert_eq!(h.last_reward_time, t0);
    assert_eq!(h.last_reward_earned.atto, 0);

    let at = t0 + 7_257_600;
    assert_eq!(query_reward(&h, at).reward_amount, 1);

    let mut seq: u64 = 0;
    let msgs = execute_claim_reward(&mut h, &mut seq, at, &"alice".to_string(), &"reward".to_string());
    assert_eq!(msgs.len(), 1);
    assert_eq!(msgs[0].token_id, "baybe_ape_1");
    assert_eq!(msgs[0].owner, "alice");
    assert_eq!(h.last_reward_release.atto, CREDIT_SCALE);
    assert_eq!(h.last_reward_earned.atto, CREDIT_SCALE);
}

#[test]
fn query_reward_does_not_mutate() {
    let h = holder_with(vec![token(0, "m1")], 0, 0, 0);
    let r1 = query_reward(&h, 3_628_800);
    assert_eq!(r1.reward_amount, 0); // half a duration: 0.5 credit, floor 0
    assert_eq!(h.last_reward_time, 0);
    assert_eq!(h.last_reward_earned.atto, 0);
}

#[test]
fn instantiate_sets_owner_and_zero_sequence() {
    let (cfg, seq) = instantiate(
        "deployer".to_string(),
        InstantiateMsg {
            monkeez_nft: "monkeez".to_string(),
            kongz_nft: "kongz".to_string(),
            reward_nft: "reward".to_string(),
        },
    );
    assert_eq!(seq, 0);
    assert_eq!(cfg.owner, "deployer");
    assert_eq!(cfg.monkeez_nft, "monkeez");
    assert_eq!(cfg.kongz_nft, "kongz");
    assert_eq!(cfg.reward_nft, "reward");
    assert_eq!(query_config(&cfg).owner, "deployer");
}

#[test]
fn receive_routes_collections_to_kinds() {
    let cfg = sample_config();
    let notice = |hook| Cw721ReceiveInfo {
        sender: "alice".to_string(),
        token_id: "t1".to_string(),
        hook,
    };
    let q = receive_cw721(&cfg, &"monkeez".to_string(), notice(Some(Cw721HookMsg::Stake {})))
        .unwrap();
    assert_eq!(q.nft_kind, 0);
    assert_eq!(q.depositor, "alice");
    assert_eq!(q.token_id, "t1");
    let q = receive_cw721(&cfg, &"kongz".to_string(), notice(Some(Cw721HookMsg::Stake {})))
        .unwrap();
    assert_eq!(q.nft_kind, 1);
    assert_eq!(
        receive_cw721(&cfg, &"other".to_string(), notice(Some(Cw721HookMsg::Stake {}))),
        Err(ContractError::Unauthorized)
    );
    assert_eq!(
        receive_cw721(&cfg, &"monkeez".to_string(), notice(None)),
        Err(ContractError::MissingIntent)
    );
}

#[test]
fn update_config_unauthorized_changes_nothing() {
    let cfg = sample_config();
    let r = execute_update(
        &cfg,
        &"mallory".to_string(),
        Some("mallory".to_string()),
        None,
        None,
        None,
    );
    assert_eq!(r, Err(ContractError::Unauthorized));
    assert_eq!(cfg, sample_config());
}

#[test]
fn update_config_overwrites_only_supplied_fields() {
    let cfg = sample_config();
    let updated = execute_update(
        &cfg,
        &"owner".to_string(),
        Some("new_owner".to_string()),
        None,
        Some("kongz2".to_string()),
        None,
    )
    .unwrap();
    assert_eq!(updated.owner, "new_owner");
    assert_eq!(updated.monkeez_nft, "monkeez");
    assert_eq!(updated.kongz_nft, "kongz2");
    assert_eq!(updated.reward_nft, "reward");
}

#[test]
fn token_info_matches_on_kind_and_id() {
    let t = token(0, "m1");
    assert!(t.is_match(0, &"m1".to_string()));
    assert!(!t.is_match(1, &"m1".to_string()));
    assert!(!t.is_match(0, &"m2".to_string()));
}

#[test]
fn staked_nft_addr_selects_collection() {
    let cfg = sample_config();
    assert_eq!(cfg.staked_nft_addr(0), Some("monkeez".to_string()));
    assert_eq!(cfg.staked_nft_addr(1), Some("kongz".to_string()));
    assert_eq!(cfg.staked_nft_addr(2), None);
}

#[test]
fn error_reasons_are_stable() {
    assert_eq!(ContractError::Unauthorized.reason(), "unauthorized");
    assert_eq!(ContractError::InvalidToken.reason(), "invalid token");
    assert_eq!(ContractError::MissingIntent.reason(), "missing stake hook");
    assert_eq!(ContractError::AccrualUndefined.reason(), "no tokens staked");
    assert_eq!(ContractError::StorageFailure.reason(), "storage failure");
}

#[test]
fn credit_arithmetic_truncates_at_18_digits() {
    let c = Credit::from_ratio(1, 3);
    assert_eq!(c.atto, 333_333_333_333_333_333);
    assert_eq!(c.whole(), 0);
    let d = Credit::from_whole(2).plus(Credit::from_ratio(7, 10));
    assert_eq!(d.atto, 2_700_000_000_000_000_000);
    assert_eq!(d.whole(), 2);
    assert_eq!(d.minus(Credit::from_whole(1)).atto, 1_700_000_000_000_000_000);
}
