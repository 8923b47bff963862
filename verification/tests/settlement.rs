use crowdfund::contract::CrowdfundContract;
use crowdfund::effect::{Effect, Event};
use crowdfund::error::{Abort, ContractError, Failure};
use crowdfund::fee::fee_amount;
use crowdfund::ledger::Entry;
use crowdfund::metadata::PlatformConfig;
use crowdfund::principal::{Principal, PrincipalKind};
use crowdfund::status::Status;

fn account(n: u128) -> Principal {
    Principal { kind: PrincipalKind::Account, hi: 0, lo: n }
}

fn asset() -> Principal {
    Principal { kind: PrincipalKind::Contract, hi: 7, lo: 7 }
}

fn creator() -> Principal {
    account(1)
}

fn platform() -> Principal {
    account(99)
}

const DEADLINE: u64 = 1_000;

/// A campaign of the given goal that closes at `DEADLINE`.
fn campaign(goal: i128, fee_bps: Option<u32>) -> CrowdfundContract {
    let mut c = CrowdfundContract::new();
    let config = fee_bps.map(|fee_bps| PlatformConfig { address: platform(), fee_bps });
    c.initialize(
        creator(),
        creator(),
        asset(),
        goal,
        DEADLINE,
        1,
        String::from("Orchard"),
        String::from("Plant a hundred trees"),
        config,
        0,
    )
    .unwrap();
    c
}

fn give(c: &mut CrowdfundContract, who: Principal, amount: i128, now: u64) -> Vec<Effect> {
    c.contribute(who, who, amount, None, now).unwrap()
}

fn received(effects: &Vec<Effect>) -> i128 {
    effects
        .iter()
        .map(|e| match *e {
            Effect::Collect { amount, .. } => amount,
            _ => 0,
        })
        .sum()
}

fn paid(effects: &Vec<Effect>) -> i128 {
    effects
        .iter()
        .map(|e| match *e {
            Effect::Pay { amount, .. } => amount,
            _ => 0,
        })
        .sum()
}

#[test]
fn contribution_reports_transfer_and_event() {
    let mut c = campaign(1_000_000, None);
    let alice = account(2);
    let effects = give(&mut c, alice, 250, 10);
    assert_eq!(
        effects,
        vec![
            Effect::Collect { from: alice, amount: 250 },
            Effect::Emit(Event::Contributed { contributor: alice, amount: 250 }),
        ]
    );
    assert!(c.is_well_formed());
}

#[test]
fn contribution_at_the_deadline_succeeds_and_one_past_it_fails() {
    let mut c = campaign(1_000_000, None);
    let alice = account(2);
    assert!(c.contribute(alice, alice, 10, None, DEADLINE).is_ok());
    assert_eq!(
        c.contribute(alice, alice, 10, None, DEADLINE + 1),
        Err(Failure::Rejected(ContractError::CampaignEnded))
    );
    assert_eq!(c.total_raised(), 10);
}

#[test]
fn contribution_below_the_minimum_is_invalid() {
    let mut c = CrowdfundContract::new();
    c.initialize(
        creator(),
        creator(),
        asset(),
        1_000,
        DEADLINE,
        50,
        String::new(),
        String::new(),
        None,
        0,
    )
    .unwrap();
    let alice = account(2);
    assert_eq!(
        c.contribute(alice, alice, 49, None, 1),
        Err(Failure::Rejected(ContractError::InvalidAmount))
    );
    assert!(c.contribute(alice, alice, 50, None, 1).is_ok());
}

#[test]
fn nothing_works_before_initialization() {
    let mut c = CrowdfundContract::new();
    let alice = account(2);
    let missing = Err(Failure::Aborted(Abort::NotInitialized));
    assert_eq!(c.contribute(alice, alice, 10, None, 1), missing);
    assert_eq!(c.pledge(alice, alice, 10, 1), missing);
    assert_eq!(c.collect_pledges(1, &vec![]), missing);
    assert_eq!(c.withdraw(alice, 1), missing);
    assert_eq!(c.refund(alice, 1), missing);
    assert_eq!(c.refund_single(alice, alice, 1), missing);
    assert_eq!(c.update_metadata(alice, None, None, None), missing);
    assert_eq!(c.add_roadmap_item(alice, 5, String::from("x"), 1), missing);
    assert_eq!(c.add_to_whitelist(alice, &vec![alice]), missing);
    assert_eq!(c.pledges_due(1), Err(Failure::Aborted(Abort::NotInitialized)));
    assert!(!c.is_initialized());
    assert!(c.is_well_formed());
}

#[test]
fn fee_above_one_hundred_percent_aborts_initialization() {
    let mut c = CrowdfundContract::new();
    let config = Some(PlatformConfig { address: platform(), fee_bps: 10_001 });
    let r = c.initialize(
        creator(),
        creator(),
        asset(),
        1_000,
        DEADLINE,
        1,
        String::new(),
        String::new(),
        config,
        0,
    );
    assert_eq!(r, Err(Failure::Aborted(Abort::FeeTooHigh)));
    assert!(!c.is_initialized());
}

#[test]
fn referral_is_tallied_unless_it_names_the_contributor() {
    let mut c = campaign(1_000_000, None);
    let alice = account(2);
    let rita = account(3);
    let effects = c.contribute(alice, alice, 400, Some(rita), 5).unwrap();
    assert_eq!(
        effects,
        vec![
            Effect::Collect { from: alice, amount: 400 },
            Effect::Emit(Event::Contributed { contributor: alice, amount: 400 }),
            Effect::Emit(Event::Referral { referrer: rita, contributor: alice, amount: 400 }),
        ]
    );
    c.contribute(alice, alice, 100, Some(rita), 6).unwrap();
    assert_eq!(c.referred(rita), 500);

    let own = c.contribute(alice, alice, 70, Some(alice), 7).unwrap();
    assert_eq!(own.len(), 2);
    assert_eq!(c.referred(alice), 0);
    assert_eq!(c.contribution(alice), 570);
}

#[test]
fn rate_limit_holds_a_contributor_back_until_the_cooldown_is_over() {
    let mut c = campaign(1_000_000, None);
    c.set_rate_limit(creator(), Some(60)).unwrap();
    let alice = account(2);
    let bob = account(3);
    give(&mut c, alice, 10, 100);
    assert_eq!(
        c.contribute(alice, alice, 10, None, 159),
        Err(Failure::Rejected(ContractError::RateLimitExceeded))
    );
    // Another contributor is not held back.
    assert!(c.contribute(bob, bob, 10, None, 159).is_ok());
    assert!(c.contribute(alice, alice, 10, None, 160).is_ok());
    // The cooldown now runs from the latest contribution.
    assert_eq!(
        c.contribute(alice, alice, 10, None, 200),
        Err(Failure::Rejected(ContractError::RateLimitExceeded))
    );
    c.set_rate_limit(creator(), None).unwrap();
    assert!(c.contribute(alice, alice, 10, None, 200).is_ok());
    assert_eq!(c.contribution(alice), 30);
}

#[test]
fn contribution_that_would_leave_the_range_overflows() {
    let mut c = campaign(1_000_000, None);
    let alice = account(2);
    let bob = account(3);
    give(&mut c, alice, i128::MAX - 5, 1);
    assert_eq!(
        c.contribute(bob, bob, 6, None, 1),
        Err(Failure::Rejected(ContractError::Overflow))
    );
    assert_eq!(c.pledge(bob, bob, 6, 1), Err(Failure::Rejected(ContractError::Overflow)));
    assert!(c.contribute(bob, bob, 5, None, 1).is_ok());
    assert_eq!(c.total_raised(), i128::MAX);
    assert!(c.is_well_formed());
}

#[test]
fn referral_tally_that_would_leave_the_range_overflows() {
    let mut c = campaign(i128::MAX, None);
    let alice = account(2);
    let bob = account(3);
    let carl = account(4);
    let rita = account(5);
    c.contribute(alice, alice, i128::MAX - 10, Some(rita), 1).unwrap();
    give(&mut c, bob, 5, 1);
    // Alice takes her funds back; what she gave stays attributed to Rita.
    c.refund_single(alice, alice, DEADLINE + 1).unwrap();
    assert_eq!(c.status(), Status::Active);
    assert_eq!(c.referred(rita), i128::MAX - 10);
    assert_eq!(
        c.contribute(carl, carl, 20, Some(rita), DEADLINE),
        Err(Failure::Rejected(ContractError::Overflow))
    );
    assert_eq!(c.total_raised(), 5);
    assert!(c.contribute(carl, carl, 10, Some(rita), DEADLINE).is_ok());
    assert_eq!(c.referred(rita), i128::MAX);
    assert!(c.is_well_formed());
}

#[test]
fn whitelist_gates_contributions_and_pledges() {
    let mut c = campaign(1_000_000, None);
    let alice = account(2);
    let bob = account(3);
    assert_eq!(
        c.add_to_whitelist(creator(), &vec![]),
        Err(Failure::Aborted(Abort::EmptyWhitelist))
    );
    assert!(c.contribute(bob, bob, 10, None, 1).is_ok());
    c.add_to_whitelist(creator(), &vec![alice]).unwrap();
    assert!(c.is_whitelisted(alice));
    assert!(!c.is_whitelisted(bob));
    assert_eq!(
        c.contribute(bob, bob, 10, None, 1),
        Err(Failure::Aborted(Abort::NotWhitelisted))
    );
    assert_eq!(c.pledge(bob, bob, 10, 1), Err(Failure::Aborted(Abort::NotWhitelisted)));
    assert!(c.contribute(alice, alice, 10, None, 1).is_ok());
    c.add_to_whitelist(creator(), &vec![bob, alice]).unwrap();
    assert!(c.pledge(bob, bob, 10, 1).is_ok());
}

#[test]
fn pledge_records_an_obligation_without_moving_funds() {
    let mut c = campaign(1_000, None);
    let pat = account(4);
    let effects = c.pledge(pat, pat, 300, 5).unwrap();
    assert_eq!(effects, vec![Effect::Emit(Event::Pledged { pledger: pat, amount: 300 })]);
    c.pledge(pat, pat, 200, 6).unwrap();
    assert_eq!(c.pledged(pat), 500);
    assert_eq!(c.total_pledged(), 500);
    assert_eq!(c.total_raised(), 0);
    assert_eq!(c.contribution(pat), 0);
    assert_eq!(
        c.pledge(pat, pat, 0, 6),
        Err(Failure::Rejected(ContractError::InvalidAmount))
    );
    assert_eq!(
        c.pledge(pat, pat, 1, DEADLINE + 1),
        Err(Failure::Rejected(ContractError::CampaignEnded))
    );
}

#[test]
fn pledges_are_collected_once_the_goal_is_within_reach() {
    let mut c = campaign(1_000, None);
    let alice = account(2);
    let pat = account(4);
    let quinn = account(5);
    give(&mut c, alice, 400, 1);
    c.pledge(pat, pat, 500, 2).unwrap();
    c.pledge(quinn, quinn, 100, 3).unwrap();

    assert_eq!(
        c.pledges_due(DEADLINE),
        Err(Failure::Rejected(ContractError::CampaignStillActive))
    );
    assert_eq!(
        c.collect_pledges(DEADLINE, &vec![true, true]),
        Err(Failure::Rejected(ContractError::CampaignStillActive))
    );

    let due = c.pledges_due(DEADLINE + 1).unwrap();
    assert_eq!(
        due,
        vec![Entry { who: pat, amount: 500 }, Entry { who: quinn, amount: 100 }]
    );

    let effects = c.collect_pledges(DEADLINE + 1, &vec![true, true]).unwrap();
    assert_eq!(
        effects,
        vec![
            Effect::Collect { from: pat, amount: 500 },
            Effect::Collect { from: quinn, amount: 100 },
            Effect::Emit(Event::PledgesCollected { amount: 600 }),
        ]
    );
    assert_eq!(c.total_raised(), 1_000);
    assert_eq!(c.total_pledged(), 0);
    assert_eq!(c.pledged(pat), 0);
    assert_eq!(c.contribution(pat), 500);
    assert_eq!(c.contribution(quinn), 100);
    assert!(c.is_well_formed());

    let out = c.withdraw(creator(), DEADLINE + 2).unwrap();
    assert_eq!(paid(&out), 1_000);
}

#[test]
fn pledges_short_of_the_goal_are_not_collected() {
    let mut c = campaign(1_000, None);
    let alice = account(2);
    let pat = account(4);
    give(&mut c, alice, 400, 1);
    c.pledge(pat, pat, 599, 2).unwrap();
    assert_eq!(
        c.collect_pledges(DEADLINE + 1, &vec![true]),
        Err(Failure::Rejected(ContractError::GoalNotReached))
    );
    assert_eq!(c.total_raised(), 400);
    assert_eq!(c.pledged(pat), 599);
}

#[test]
fn a_pledge_that_could_not_be_pulled_stays_outstanding() {
    let mut c = campaign(1_000, None);
    let pat = account(4);
    let quinn = account(5);
    let rae = account(6);
    c.pledge(pat, pat, 500, 2).unwrap();
    c.pledge(quinn, quinn, 300, 3).unwrap();
    c.pledge(rae, rae, 400, 4).unwrap();

    // Quinn's transfer failed, and nothing is known of Rae's.
    let effects = c.collect_pledges(DEADLINE + 1, &vec![true, false]).unwrap();
    assert_eq!(
        effects,
        vec![
            Effect::Collect { from: pat, amount: 500 },
            Effect::Emit(Event::PledgesCollected { amount: 500 }),
        ]
    );
    assert_eq!(c.total_raised(), 500);
    assert_eq!(c.total_pledged(), 700);
    assert_eq!(c.pledged(quinn), 300);
    assert_eq!(c.pledged(rae), 400);
    assert!(c.is_well_formed());

    // A second round picks up what is left.
    let again = c.collect_pledges(DEADLINE + 2, &vec![true, true, true]).unwrap();
    assert_eq!(received(&again), 700);
    assert_eq!(c.total_raised(), 1_200);
    assert_eq!(c.total_pledged(), 0);
}

#[test]
fn withdraw_at_exactly_the_goal_pays_the_creator_everything() {
    let mut c = campaign(1_000_000, None);
    let alice = account(2);
    let bob = account(3);
    give(&mut c, alice, 600_000, 1);
    give(&mut c, bob, 400_000, 2);
    assert_eq!(c.total_raised(), 1_000_000);

    let effects = c.withdraw(creator(), DEADLINE + 1).unwrap();
    assert_eq!(
        effects,
        vec![
            Effect::Pay { to: creator(), amount: 1_000_000 },
            Effect::Emit(Event::Withdrawn { creator: creator(), amount: 1_000_000 }),
        ]
    );
    assert_eq!(c.total_raised(), 0);
    assert_eq!(c.status(), Status::Successful);
    // The record of who gave what stays.
    assert_eq!(c.contribution(alice), 600_000);
    assert!(c.is_well_formed());
}

#[test]
fn withdraw_splits_off_the_platform_fee() {
    let mut c = campaign(1_000_000, Some(250));
    let alice = account(2);
    give(&mut c, alice, 1_000_001, 1);
    let effects = c.withdraw(creator(), DEADLINE + 1).unwrap();
    assert_eq!(
        effects,
        vec![
            Effect::Pay { to: platform(), amount: 25_000 },
            Effect::Emit(Event::FeeTransferred { platform: platform(), fee: 25_000 }),
            Effect::Pay { to: creator(), amount: 975_001 },
            Effect::Emit(Event::Withdrawn { creator: creator(), amount: 1_000_001 }),
        ]
    );
}

#[test]
fn withdraw_mints_a_reward_for_every_contributor_with_a_balance() {
    let mut c = campaign(100, None);
    let nft = Principal { kind: PrincipalKind::Contract, hi: 1, lo: 1 };
    c.set_reward_nft_contract(creator(), Some(nft)).unwrap();
    let alice = account(2);
    let bob = account(3);
    give(&mut c, alice, 60, 1);
    give(&mut c, bob, 40, 2);
    let effects = c.withdraw(creator(), DEADLINE + 1).unwrap();
    assert_eq!(
        effects,
        vec![
            Effect::Pay { to: creator(), amount: 100 },
            Effect::Emit(Event::Withdrawn { creator: creator(), amount: 100 }),
            Effect::Mint { contract: nft, to: alice },
            Effect::Emit(Event::NftMinted { to: alice }),
            Effect::Mint { contract: nft, to: bob },
            Effect::Emit(Event::NftMinted { to: bob }),
        ]
    );
}

#[test]
fn fee_is_the_floor_of_total_times_rate_over_ten_thousand() {
    let totals: [i128; 4] = [0, 1, 10_000, 999_999];
    let rates: [u32; 3] = [0, 1, 10_000];
    let fees: [[i128; 3]; 4] = [[0, 0, 0], [0, 0, 1], [0, 1, 10_000], [0, 99, 999_999]];
    for (i, total) in totals.iter().enumerate() {
        for (j, rate) in rates.iter().enumerate() {
            assert_eq!(fee_amount(*total, *rate), fees[i][j]);
        }
    }
    assert_eq!(fee_amount(i128::MAX, 10_000), i128::MAX);
    assert_eq!(fee_amount(i128::MAX, 1), i128::MAX / 10_000);
    assert_eq!(fee_amount(123_456_789, 333), 4_111_111);
}

#[test]
fn fee_and_payout_add_up_to_the_total() {
    let totals: [i128; 4] = [1, 10_000, 999_999, 5];
    let rates: [u32; 3] = [0, 1, 10_000];
    for total in totals {
        for rate in rates {
            let mut c = campaign(1, Some(rate));
            let alice = account(2);
            give(&mut c, alice, total, 1);
            let effects = c.withdraw(creator(), DEADLINE + 1).unwrap();
            let fee = total * (rate as i128) / 10_000;
            assert_eq!(effects[0], Effect::Pay { to: platform(), amount: fee });
            assert_eq!(effects[2], Effect::Pay { to: creator(), amount: total - fee });
            assert_eq!(paid(&effects), total);
        }
    }
}

#[test]
fn refund_single_returns_the_balance_and_closes_the_campaign() {
    let mut c = campaign(1_000_000, None);
    let alice = account(2);
    give(&mut c, alice, 300_000, 1);
    let effects = c.refund_single(alice, alice, DEADLINE + 1).unwrap();
    assert_eq!(
        effects,
        vec![
            Effect::Pay { to: alice, amount: 300_000 },
            Effect::Emit(Event::Refunded { contributor: alice, amount: 300_000 }),
        ]
    );
    assert_eq!(c.contribution(alice), 0);
    assert_eq!(c.total_raised(), 0);
    assert_eq!(c.status(), Status::Refunded);
}

#[test]
fn refund_single_leaves_the_campaign_open_while_others_are_owed() {
    let mut c = campaign(1_000_000, None);
    let alice = account(2);
    let bob = account(3);
    give(&mut c, alice, 300_000, 1);
    give(&mut c, bob, 200_000, 2);

    assert_eq!(
        c.refund_single(alice, alice, DEADLINE),
        Err(Failure::Rejected(ContractError::CampaignStillActive))
    );
    c.refund_single(alice, alice, DEADLINE + 1).unwrap();
    assert_eq!(c.status(), Status::Active);
    assert_eq!(c.total_raised(), 200_000);

    // A second claim is a no-op.
    assert_eq!(c.refund_single(alice, alice, DEADLINE + 2), Ok(vec![]));
    assert_eq!(c.total_raised(), 200_000);
    assert_eq!(c.contribution(bob), 200_000);

    // So is the claim of one who never gave.
    assert_eq!(c.refund_single(account(8), account(8), DEADLINE + 2), Ok(vec![]));

    c.refund_single(bob, bob, DEADLINE + 3).unwrap();
    assert_eq!(c.status(), Status::Refunded);
    assert_eq!(
        c.refund_single(bob, bob, DEADLINE + 4),
        Err(Failure::Aborted(Abort::NotActive))
    );
}

#[test]
fn refund_single_is_refused_once_the_goal_is_met() {
    let mut c = campaign(500, None);
    let alice = account(2);
    give(&mut c, alice, 500, 1);
    assert_eq!(
        c.refund_single(alice, alice, DEADLINE + 1),
        Err(Failure::Rejected(ContractError::GoalReached))
    );
}

#[test]
fn batch_refund_pays_everyone_back_in_order() {
    let mut c = campaign(1_000_000, None);
    let alice = account(2);
    let bob = account(3);
    give(&mut c, alice, 300, 1);
    give(&mut c, bob, 200, 2);
    c.refund_single(alice, alice, DEADLINE + 1).unwrap();
    let effects = c.refund(creator(), DEADLINE + 2).unwrap();
    assert_eq!(
        effects,
        vec![
            Effect::Pay { to: bob, amount: 200 },
            Effect::Emit(Event::Refunded { contributor: bob, amount: 200 }),
        ]
    );
    assert_eq!(c.status(), Status::Refunded);
    assert_eq!(c.total_raised(), 0);
    assert_eq!(c.contribution(bob), 0);
    assert!(c.is_well_formed());
}

#[test]
fn batch_refund_of_an_empty_campaign_closes_it() {
    let mut c = campaign(10, None);
    assert_eq!(c.refund(creator(), DEADLINE + 1), Ok(vec![]));
    assert_eq!(c.status(), Status::Refunded);
}

#[test]
fn a_settled_campaign_refuses_everything() {
    let alice = account(2);
    let mut won = campaign(100, None);
    give(&mut won, alice, 100, 1);
    won.withdraw(creator(), DEADLINE + 1).unwrap();
    let mut lost = campaign(100, None);
    give(&mut lost, alice, 50, 1);
    lost.refund(creator(), DEADLINE + 1).unwrap();

    for c in [&mut won, &mut lost] {
        let status = c.status();
        let closed = Err(Failure::Aborted(Abort::NotActive));
        assert_eq!(c.contribute(alice, alice, 10, None, 1), closed);
        assert_eq!(c.pledge(alice, alice, 10, 1), closed);
        assert_eq!(c.collect_pledges(DEADLINE + 2, &vec![]), closed);
        assert_eq!(c.withdraw(creator(), DEADLINE + 2), closed);
        assert_eq!(c.refund(creator(), DEADLINE + 2), closed);
        assert_eq!(c.refund_single(alice, alice, DEADLINE + 2), closed);
        assert_eq!(c.update_metadata(creator(), Some(String::from("x")), None, None), closed);
        assert_eq!(c.add_roadmap_item(creator(), DEADLINE + 9, String::from("x"), 1), closed);
        assert_eq!(c.add_to_whitelist(creator(), &vec![alice]), closed);
        assert_eq!(c.set_rate_limit(creator(), Some(1)), closed);
        assert_eq!(c.set_reward_nft_contract(creator(), None), closed);
        assert_eq!(
            c.initialize(
                creator(),
                creator(),
                asset(),
                5,
                DEADLINE,
                1,
                String::new(),
                String::new(),
                None,
                0
            ),
            Err(Failure::Rejected(ContractError::AlreadyInitialized))
        );
        assert_eq!(c.status(), status);
        assert_eq!(c.total_raised(), 0);
        assert_eq!(c.title(), "Orchard");
    }
}

#[test]
fn what_comes_in_goes_out() {
    // One campaign that is withdrawn, with a fee and collected pledges.
    let mut c = campaign(1_000, Some(300));
    let alice = account(2);
    let pat = account(4);
    let mut inbound = 0;
    let mut outbound = 0;
    inbound += received(&give(&mut c, alice, 700, 1));
    c.pledge(pat, pat, 333, 2).unwrap();
    inbound += received(&c.collect_pledges(DEADLINE + 1, &vec![true]).unwrap());
    assert_eq!(inbound - outbound, c.total_raised());
    outbound += paid(&c.withdraw(creator(), DEADLINE + 2).unwrap());
    assert_eq!(inbound, 1_033);
    assert_eq!(outbound, 1_033);
    assert_eq!(c.total_raised(), 0);

    // One that is refunded by pull, claim by claim.
    let mut d = campaign(1_000, None);
    let bob = account(3);
    let mut inbound = 0;
    let mut outbound = 0;
    inbound += received(&give(&mut d, alice, 300, 1));
    inbound += received(&give(&mut d, bob, 200, 2));
    inbound += received(&give(&mut d, alice, 50, 3));
    outbound += paid(&d.refund_single(alice, alice, DEADLINE + 1).unwrap());
    assert_eq!(outbound, 350);
    assert_eq!(inbound - outbound, d.total_raised());
    outbound += paid(&d.refund_single(bob, bob, DEADLINE + 1).unwrap());
    assert_eq!(inbound, outbound);
    assert_eq!(d.status(), Status::Refunded);
}
