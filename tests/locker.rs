use honey_locker::pubkey::Pubkey;
use honey_locker::token::{TokenAccount, TokenInstruction};
use honey_locker::ve_honey::admission::{Proof, ProofType, WhitelistEntry};
use honey_locker::ve_honey::admin_ops::{AddProof, CastVote, GovernorAuthority, SetVoteDelegate};
use honey_locker::ve_honey::error::ProtocolError;
use honey_locker::ve_honey::escrow::Escrow;
use honey_locker::ve_honey::lock_ops::{
    assert_valid_proof, check_accounts, handler, lock, Creator, Lock, LockNft, WhitelistProof,
};
use honey_locker::ve_honey::locker::{Locker, LockerParams};
use honey_locker::ve_honey::migration::{AddedLockerFields, LegacyLocker, LegacyLockerParams, MigrateLocker};
use honey_locker::ve_honey::nft_receipt::NftReceipt;
use honey_locker::ve_honey::release_ops::{CloseReceipt, Exit};
use honey_locker::ve_honey::supply::LockerBook;

const NOW: i64 = 1_700_000_000;
const YEAR: u64 = 31_536_000;
const DAY: i64 = 86_400;

fn key(b: u8) -> Pubkey {
    Pubkey::new([b; 32])
}

fn params() -> LockerParams {
    LockerParams {
        min_stake_duration: 0,
        max_stake_duration: YEAR,
        whitelist_enabled: false,
        multiplier: 10,
        proposal_activation_min_votes: 0,
        nft_stake_duration_unit: DAY,
        nft_stake_base_reward: 100,
        nft_stake_duration_count: 10,
        nft_reward_halving_starts_at: 3,
    }
}

fn locker() -> Locker {
    let mut l = Locker::default();
    l.token_mint = key(2);
    l.governor = key(20);
    l.params = params();
    l
}

fn escrow() -> Escrow {
    let mut e = Escrow::default();
    e.locker = key(1);
    e.owner = key(5);
    e.tokens = key(6);
    e.vote_delegate = key(5);
    e
}

#[test]
fn half_max_lock_has_half_power() {
    let mut l = locker();
    let mut e = escrow();
    e.lock(&mut l, 1000, 15_768_000, NOW).unwrap();
    let p = params();
    assert_eq!(e.voting_power_at_time(&p, NOW), Some(5000));
    assert_eq!(e.voting_power_at_time(&p, NOW + 1000), Some(5000));
    assert_eq!(e.voting_power_at_time(&p, NOW + 15_767_999), Some(5000));
    assert_eq!(e.voting_power(&p, NOW + 15_768_000), Ok(0));
}

#[test]
fn voting_power_boundaries() {
    let p = params();
    let mut e = escrow();
    e.amount = 7;
    e.escrow_started_at = NOW;
    e.escrow_ends_at = NOW + YEAR as i64 + 5;
    assert_eq!(p.calculate_voter_power(&e, NOW - 1), Some(0));
    assert_eq!(p.calculate_voter_power(&e, e.escrow_ends_at), Some(0));
    assert_eq!(p.calculate_voter_power(&e, NOW + 3), Some(70));
    assert_eq!(p.calculate_voter_power(&e, 0), None);
    e.escrow_started_at = 0;
    assert_eq!(p.calculate_voter_power(&e, NOW + 3), Some(0));
}

#[test]
fn voting_power_fails_on_unrepresentable_lockup() {
    let p = params();
    let mut e = escrow();
    e.amount = 7;
    e.escrow_started_at = -10;
    e.escrow_ends_at = i64::MAX;
    assert_eq!(p.calculate_voter_power(&e, 5), None);
    let mut zero_max = params();
    zero_max.max_stake_duration = 0;
    e.escrow_started_at = 1;
    assert_eq!(zero_max.calculate_voter_power(&e, 5), None);
}

#[test]
fn refresh_cannot_shorten() {
    let mut l = locker();
    let mut e = escrow();
    e.lock(&mut l, 1000, YEAR as i64, NOW).unwrap();
    let before = e;
    assert_eq!(e.lock(&mut l, 0, 100, NOW + 10), Err(ProtocolError::RefreshCannotShorten));
    assert_eq!(e.escrow_ends_at, before.escrow_ends_at);
    assert_eq!(l.locked_supply, 1000);
    e.lock(&mut l, 0, YEAR as i64, NOW + 10).unwrap();
    assert_eq!(e.escrow_ends_at, NOW + 10 + YEAR as i64);
    assert_eq!(e.amount, 1000);
}

#[test]
fn lock_duration_bounds() {
    let mut l = locker();
    l.params.min_stake_duration = 100;
    let mut e = escrow();
    assert_eq!(e.lock(&mut l, 1, 99, NOW), Err(ProtocolError::LockupDurationTooShort));
    assert_eq!(e.lock(&mut l, 1, YEAR as i64 + 1, NOW), Err(ProtocolError::LockupDurationTooLong));
    assert_eq!(e.lock(&mut l, 1, -5, NOW), Err(ProtocolError::LockupDurationTooShort));
    l.params.min_stake_duration = 0;
    assert_eq!(e.lock(&mut l, 1, -5, NOW), Err(ProtocolError::LockupDurationTooShort));
}

#[test]
fn halving_reward_curve() {
    let p = params();
    assert_eq!(p.calculate_reward_amount(0), None);
    assert_eq!(p.calculate_reward_amount(DAY - 1), Some(0));
    assert_eq!(p.calculate_reward_amount(DAY), Some(100));
    assert_eq!(p.calculate_reward_amount(3 * DAY), Some(300));
    assert_eq!(p.calculate_reward_amount(4 * DAY), Some(350));
    assert_eq!(p.calculate_nft_max_stake_duration(), Some(10 * DAY));
    assert_eq!(p.calculate_max_reward_amount(), Some(397));
    assert_eq!(p.calculate_reward_amount(100 * DAY), Some(397));
}

#[test]
fn halving_reward_is_monotonic() {
    let p = params();
    let mut prev = 0;
    for d in 1..40 {
        let r = p.calculate_reward_amount(d * DAY / 3).unwrap();
        assert!(r >= prev);
        prev = r;
    }
}

#[test]
fn halving_reward_edge_cases() {
    let mut p = params();
    p.nft_stake_duration_unit = 0;
    assert_eq!(p.calculate_reward_amount(5), None);
    p.nft_stake_duration_unit = -3;
    assert_eq!(p.calculate_reward_amount(5), Some(0));
    let mut big = params();
    big.nft_stake_base_reward = u64::MAX;
    big.nft_reward_halving_starts_at = 10;
    assert_eq!(big.calculate_reward_amount(DAY), Some(u64::MAX));
    assert_eq!(big.calculate_reward_amount(2 * DAY), None);
}

#[test]
fn lock_nft_funds_reward_and_issues_receipt() {
    let mut l = locker();
    let mut e = escrow();
    let (receipt, reward) = e.lock_nft(&mut l, key(1), 10 * DAY, NOW).unwrap();
    assert_eq!(reward, 397);
    assert_eq!(receipt.receipt_id, 0);
    assert_eq!(receipt.vest_started_at, NOW);
    assert_eq!(receipt.vest_ends_at, NOW + 10 * DAY);
    assert_eq!(e.amount, 397);
    assert_eq!(e.receipt_count, 1);
    assert_eq!(e.escrow_ends_at, NOW + 10 * DAY);
    assert!(e.escrow_ends_at >= receipt.vest_ends_at);
    assert_eq!(l.locked_supply, 397);
    assert_eq!(e.lock_nft(&mut l, key(1), 9 * DAY, NOW).err(), Some(ProtocolError::LockupDurationTooShort));
}

#[test]
fn lock_nft_cannot_shorten() {
    let mut l = locker();
    let mut e = escrow();
    e.escrow_ends_at = NOW + YEAR as i64 + 1;
    assert_eq!(e.lock_nft(&mut l, key(1), 10 * DAY, NOW).err(), Some(ProtocolError::RefreshCannotShorten));
}

#[test]
fn lock_nft_covers_vesting_even_with_short_max_duration() {
    let mut l = locker();
    l.params.max_stake_duration = 1;
    let mut e = escrow();
    let (receipt, _) = e.lock_nft(&mut l, key(1), 10 * DAY, NOW).unwrap();
    assert_eq!(e.escrow_ends_at, receipt.vest_ends_at);
}

#[test]
fn lock_nft_duration_out_of_range() {
    let mut l = locker();
    l.params.nft_stake_duration_unit = i64::MAX;
    l.params.nft_stake_duration_count = 2;
    let mut e = escrow();
    assert_eq!(e.lock_nft(&mut l, key(1), 10 * DAY, NOW).err(), Some(ProtocolError::MathOverflow));
}

#[test]
fn receipt_claims_vested_reward() {
    let mut l = locker();
    let mut e = escrow();
    let (mut receipt, _) = e.lock_nft(&mut l, key(1), 10 * DAY, NOW).unwrap();
    assert_eq!(receipt.calculate_reward_amount_at_time(&l.params, NOW + 4 * DAY), Some(350));
    assert_eq!(receipt.claim(&mut l, &mut e, NOW + 4 * DAY), Ok(350));
    assert_eq!(receipt.claimed_amount, 350);
    assert_eq!(e.amount, 47);
    assert_eq!(l.locked_supply, 47);
    assert_eq!(receipt.claim(&mut l, &mut e, NOW + 4 * DAY + 5), Err(ProtocolError::ClaimError));
    assert_eq!(receipt.calculate_remaining_reward_amount(&l.params), Some(47));
    assert_eq!(receipt.claim(&mut l, &mut e, NOW + 50 * DAY), Ok(47));
    assert_eq!(e.amount, 0);
    assert_eq!(e.escrow_started_at, 0);
    assert_eq!(e.escrow_ends_at, 0);
}

#[test]
fn supply_matches_escrows_through_a_sequence() {
    let mut book = LockerBook::new(key(1), locker());
    let a = book.open_escrow(key(5), key(6), 1);
    let b = book.open_escrow(key(7), key(8), 2);
    book.lock(a, 1000, 1000, NOW).unwrap();
    book.lock(b, 250, 5000, NOW).unwrap();
    let mut receipt = book.lock_nft(b, 10 * DAY, NOW).unwrap();
    assert!(book.lock(a, 5, 10, NOW).is_err());
    book.claim(b, &mut receipt, NOW + 2 * DAY).unwrap();
    book.exit(a, 400).unwrap();
    assert!(book.exit(a, 10_000).is_err());
    let sum: u64 = book.escrows.iter().map(|e| e.amount).sum();
    assert_eq!(book.locker.locked_supply, sum);
    assert_eq!(sum, 600 + 250 + 397 - 200);
}

fn lock_ctx() -> Lock {
    Lock {
        locker_key: key(1),
        locker: locker(),
        escrow: escrow(),
        locked_tokens: TokenAccount { key: key(6), mint: key(2), owner: key(30), amount: 0 },
        escrow_owner: key(5),
        source_tokens: TokenAccount { key: key(9), mint: key(2), owner: key(5), amount: 5000 },
        source_tokens_authority: key(5),
    }
}

#[test]
fn lock_context_transfers_and_reports() {
    let mut ctx = lock_ctx();
    assert_eq!(ctx.validate(), Ok(()));
    let out = ctx.process(300, 1000, NOW).unwrap();
    match out.transfer {
        Some(TokenInstruction::Transfer { amount, from, to, .. }) => {
            assert_eq!(amount, 300);
            assert!(from == key(9) && to == key(6));
        }
        _ => panic!("expected a transfer"),
    }
    assert_eq!(out.event.locker_supply, 300);
    assert_eq!(out.event.next_escrow_ends_at, NOW + 1000);
    let refresh = ctx.process(0, 2000, NOW).unwrap();
    assert!(refresh.transfer.is_none());
    let mut bad = lock_ctx();
    bad.source_tokens.mint = key(3);
    assert_eq!(bad.validate(), Err(ProtocolError::InvalidLockerMint));
}

#[test]
fn lock_whitelist() {
    let ctx = lock_ctx();
    let this = key(40);
    assert_eq!(ctx.check_whitelisted(this, None), Err(ProtocolError::MustProvideWhitelist));
    let direct = WhitelistProof { program_id: this, entry: None };
    assert_eq!(ctx.check_whitelisted(this, Some(direct)), Ok(()));
    let missing = WhitelistProof { program_id: key(41), entry: None };
    assert_eq!(ctx.check_whitelisted(this, Some(missing)), Err(ProtocolError::ProgramNotWhitelisted));
    let any_owner = WhitelistEntry { locker: key(1), bump: 0, program_id: key(41), owner: Pubkey::default_key() };
    let ok = WhitelistProof { program_id: key(41), entry: Some(any_owner) };
    assert_eq!(ctx.check_whitelisted(this, Some(ok)), Ok(()));
    let other_owner = WhitelistEntry { owner: key(42), ..any_owner };
    let refused = WhitelistProof { program_id: key(41), entry: Some(other_owner) };
    assert_eq!(ctx.check_whitelisted(this, Some(refused)), Err(ProtocolError::EscrowOwnerNotWhitelisted));
}

#[test]
fn lock_nft_context_transfers_reward() {
    let mut ctx = LockNft {
        locker_key: key(1),
        locker: locker(),
        escrow: escrow(),
        escrow_owner: key(5),
        locked_tokens: TokenAccount { key: key(6), mint: key(2), owner: key(30), amount: 0 },
        locker_treasury: TokenAccount { key: key(31), mint: key(2), owner: key(1), amount: 10_000 },
    };
    assert_eq!(ctx.validate(), Ok(()));
    let out = ctx.process(10 * DAY, NOW).unwrap();
    match out.transfer {
        Some(TokenInstruction::Transfer { amount, from, .. }) => {
            assert_eq!(amount, 397);
            assert!(from == key(31));
        }
        _ => panic!("expected a transfer"),
    }
    assert!(out.receipt.locker == key(1));
    assert!(out.receipt.owner == key(5));
}

#[test]
fn proof_types() {
    assert_eq!(Proof::read_type(3), Ok(ProofType { bits: 3 }));
    assert_eq!(Proof::read_type(4), Err(ProtocolError::InvariantViolated));
    let mut proof = Proof { locker: key(1), proof_type: 0, proof_address: key(50) };
    proof.reset_type(ProofType::mint());
    assert_eq!(proof.proof_type, 2);
    assert_eq!(proof.contains_type(ProofType::mint()), Ok(()));
    assert_eq!(proof.contains_type(ProofType::creator()), Err(ProtocolError::InvalidProofType));
    assert!(ProofType { bits: 3 }.contains(ProofType::creator()));
    assert_eq!(ProofType::from_bits(8), None);
}

#[test]
fn nft_admission() {
    let proof = Proof { locker: key(1), proof_type: 1, proof_address: key(50) };
    assert_eq!(assert_valid_proof(key(60), key(61), &proof, ProofType::creator()), Err(ProtocolError::InvalidProof));
    assert_eq!(assert_valid_proof(key(60), key(60), &proof, ProofType::creator()), Ok(()));
    let creators = vec![
        Creator { proof_key: key(60), verified: false },
        Creator { proof_key: key(61), verified: true },
    ];
    assert_eq!(check_accounts(key(60), &proof, key(62), &creators), Err(ProtocolError::InvalidProof));
    let creators = vec![Creator { proof_key: key(60), verified: true }];
    assert_eq!(check_accounts(key(60), &proof, key(62), &creators), Ok(()));
    let mint_proof = Proof { proof_type: 2, ..proof };
    assert_eq!(check_accounts(key(60), &mint_proof, key(60), &Vec::new()), Ok(()));
}

fn exit_ctx(e: Escrow, l: Locker) -> Exit {
    Exit {
        locker_key: key(1),
        locker: l,
        escrow_key: key(70),
        escrow: e,
        escrow_owner: key(5),
        locked_tokens: TokenAccount { key: key(6), mint: key(2), owner: key(70), amount: 0 },
        destination_tokens: TokenAccount { key: key(71), mint: key(2), owner: key(5), amount: 0 },
    }
}

#[test]
fn exit_keeps_what_receipts_owe() {
    let mut l = locker();
    let mut e = escrow();
    e.lock(&mut l, 1000, 1000, NOW).unwrap();
    let (receipt, _) = e.lock_nft(&mut l, key(1), 10 * DAY, NOW).unwrap();
    let mut ctx = exit_ctx(e, l);
    assert_eq!(ctx.validate(NOW), Err(ProtocolError::EscrowNotEnded));
    let after = e.escrow_ends_at + 1;
    assert_eq!(ctx.validate(after), Ok(()));
    assert_eq!(ctx.check_receipts(&Vec::new()), Err(ProtocolError::InvalidRemainingAccounts));
    let receipts = vec![receipt];
    assert_eq!(ctx.check_receipts(&receipts), Ok(1000));
    let out = ctx.process(&receipts, after).unwrap();
    match out.transfer {
        TokenInstruction::Transfer { amount, .. } => assert_eq!(amount, 1000),
        _ => panic!("expected a transfer"),
    }
    assert_eq!(ctx.escrow.amount, 397);
    assert_eq!(ctx.locker.locked_supply, 397);
    assert_eq!(out.event.released_amount, 397);
    assert_eq!(ctx.process(&receipts, after).err(), Some(ProtocolError::EscrowNoBalance));
}

#[test]
fn exit_rejects_duplicate_receipts() {
    let mut l = locker();
    let mut e = escrow();
    let (r0, _) = e.lock_nft(&mut l, key(1), 10 * DAY, NOW).unwrap();
    e.lock_nft(&mut l, key(1), 10 * DAY, NOW).unwrap();
    let ctx = exit_ctx(e, l);
    assert_eq!(ctx.check_receipts(&vec![r0, r0]), Err(ProtocolError::InvariantViolated));
    let foreign = NftReceipt { owner: key(99), ..r0 };
    assert_eq!(ctx.check_receipts(&vec![foreign, r0]), Err(ProtocolError::InvalidAccountOwner));
}

#[test]
fn close_receipt_needs_full_claim() {
    let mut l = locker();
    let mut e = escrow();
    let (mut receipt, _) = e.lock_nft(&mut l, key(1), 10 * DAY, NOW).unwrap();
    let end = receipt.vest_ends_at;
    let ctx = CloseReceipt { locker_key: key(1), locker: l, escrow: e, nft_receipt: receipt, escrow_owner: key(5) };
    assert_eq!(ctx.validate(end), Err(ProtocolError::ReceiptNotEnded));
    assert_eq!(ctx.validate(end + 1), Err(ProtocolError::CloseNonZeroReceipt));
    receipt.claim(&mut l, &mut e, end + 1).unwrap();
    let mut ctx = CloseReceipt { locker_key: key(1), locker: l, escrow: e, nft_receipt: receipt, escrow_owner: key(5) };
    assert_eq!(ctx.validate(end + 1), Ok(()));
    ctx.process().unwrap();
    assert_eq!(ctx.escrow.receipt_count, 0);
    assert_eq!(ctx.process(), Err(ProtocolError::ReceiptCountError));
}

#[test]
fn vote_with_power() {
    let mut l = locker();
    let mut e = escrow();
    e.lock(&mut l, 1000, 15_768_000, NOW).unwrap();
    let ctx = CastVote {
        locker_key: key(1),
        locker: l,
        escrow: e,
        vote_delegate: key(5),
        governor: key(20),
        proposal_key: key(21),
        proposal_governor: key(20),
        proposal_active: true,
        vote_proposal: key(21),
        vote_voter: key(5),
    };
    assert_eq!(ctx.validate(), Ok(()));
    assert_eq!(ctx.process(NOW + 5), Ok(Some(5000)));
    assert_eq!(ctx.process(NOW + 15_768_000), Ok(None));
    let inactive = CastVote { proposal_active: false, ..ctx };
    assert_eq!(inactive.validate(), Err(ProtocolError::ProposalMustBeActive));
}

#[test]
fn delegate_and_proofs() {
    let mut ctx = SetVoteDelegate { escrow: escrow(), escrow_owner: key(5) };
    assert_eq!(ctx.validate(), Ok(()));
    let ev = ctx.process(key(77));
    assert!(ev.old_delegate == key(5) && ev.new_delegate == key(77));
    assert!(ctx.escrow.vote_delegate == key(77));
    let authority = GovernorAuthority { governor: key(20), governor_smart_wallet: key(22), smart_wallet: key(22) };
    let mut add = AddProof {
        locker_key: key(1),
        locker: locker(),
        proof: Proof::default(),
        address: key(50),
        authority,
    };
    assert_eq!(add.validate(), Ok(()));
    assert_eq!(add.process(9), Err(ProtocolError::InvariantViolated));
    add.process(1).unwrap();
    assert_eq!(add.proof.proof_type, 1);
    assert!(add.proof.proof_address == key(50));
    let wrong = AddProof { authority: GovernorAuthority { smart_wallet: key(23), ..authority }, ..add };
    assert_eq!(wrong.validate(), Err(ProtocolError::SmartWalletMismatch));
}

#[test]
fn migration_carries_supply() {
    let legacy = LegacyLocker {
        base: key(1),
        bump: 3,
        token_mint: key(2),
        locked_supply: 12_345,
        admin: key(4),
        params: LegacyLockerParams { min_stake_duration: 5, max_stake_duration: 9, whitelist_enabled: true, multiplier: 2 },
    };
    let ctx = MigrateLocker { locker: legacy, new_base: key(8), governor: key(20) };
    let added = AddedLockerFields {
        wl_token_mint: key(9),
        proposal_activation_min_votes: 77,
        nft_stake_duration_unit: DAY,
        nft_stake_base_reward: 100,
        nft_stake_duration_count: 10,
        nft_reward_halving_starts_at: 3,
    };
    let l = ctx.process(4, added);
    assert_eq!(l.locked_supply, 12_345);
    assert_eq!(l.params.max_stake_duration, 9);
    assert_eq!(l.params.proposal_activation_min_votes, 77);
    assert!(l.base == key(8));
}

struct Lcg(u64);

impl Lcg {
    fn next(&mut self, bound: u64) -> u64 {
        self.0 = self.0.wrapping_mul(6364136223846793005).wrapping_add(1442695040888963407);
        (self.0 >> 33) % bound
    }
}

#[test]
fn supply_conserved_over_random_sequences() {
    for seed in 1..20u64 {
        let mut rng = Lcg(seed);
        let mut book = LockerBook::new(key(1), locker());
        for owner in 0..4u8 {
            book.open_escrow(key(100 + owner), key(110 + owner), owner);
        }
        let mut receipts: Vec<(usize, NftReceipt)> = Vec::new();
        let mut now = NOW;
        for _ in 0..60 {
            now += rng.next(3 * DAY as u64) as i64;
            let i = rng.next(4) as usize;
            match rng.next(4) {
                0 => {
                    let _ = book.lock(i, rng.next(10_000), rng.next(YEAR) as i64, now);
                }
                1 => {
                    if let Ok(r) = book.lock_nft(i, 10 * DAY, now) {
                        receipts.push((i, r));
                    }
                }
                2 => {
                    let _ = book.exit(i, rng.next(5_000));
                }
                _ => {
                    if !receipts.is_empty() {
                        let k = rng.next(receipts.len() as u64) as usize;
                        let (owner, mut r) = receipts[k];
                        if book.claim(owner, &mut r, now).is_ok() {
                            receipts[k] = (owner, r);
                        }
                    }
                }
            }
            let sum: u64 = book.escrows.iter().map(|e| e.amount).sum();
            assert_eq!(book.locker.locked_supply, sum);
        }
    }
}

#[test]
fn lock_end_never_moves_back() {
    let mut rng = Lcg(7);
    let mut l = locker();
    let mut e = escrow();
    let mut now = NOW;
    let mut last_end = e.escrow_ends_at;
    for _ in 0..200 {
        now += rng.next(DAY as u64 * 30) as i64;
        let duration = rng.next(YEAR) as i64;
        let wanted_end = now + duration;
        if rng.next(5) == 0 {
            let _ = e.lock_nft(&mut l, key(1), 10 * DAY, now);
        } else {
            let result = e.lock(&mut l, rng.next(100), duration, now);
            if wanted_end < last_end {
                assert_eq!(result, Err(ProtocolError::RefreshCannotShorten));
            } else {
                assert_eq!(result, Ok(()));
                assert_eq!(e.escrow_ends_at, wanted_end);
            }
        }
        assert!(e.escrow_ends_at >= last_end);
        last_end = e.escrow_ends_at;
    }
}

#[test]
fn lock_entry_checks_whitelist_when_enabled() {
    let mut ctx = lock_ctx();
    ctx.locker.params.whitelist_enabled = true;
    assert_eq!(lock(&mut ctx, key(40), None, 10, 100, NOW).err(), Some(ProtocolError::MustProvideWhitelist));
    assert_eq!(ctx.escrow.amount, 0);
    let direct = WhitelistProof { program_id: key(40), entry: None };
    assert!(lock(&mut ctx, key(40), Some(direct), 10, 100, NOW).is_ok());
    ctx.locker.params.whitelist_enabled = false;
    assert!(lock(&mut ctx, key(40), None, 10, 200, NOW).is_ok());
    assert_eq!(ctx.escrow.amount, 20);
    ctx.escrow_owner = key(99);
    assert_eq!(lock(&mut ctx, key(40), None, 10, 300, NOW).err(), Some(ProtocolError::InvalidAccountOwner));
}

#[test]
fn nft_handler_needs_admission() {
    let mut ctx = LockNft {
        locker_key: key(1),
        locker: locker(),
        escrow: escrow(),
        escrow_owner: key(5),
        locked_tokens: TokenAccount { key: key(6), mint: key(2), owner: key(30), amount: 0 },
        locker_treasury: TokenAccount { key: key(31), mint: key(2), owner: key(1), amount: 10_000 },
    };
    let proof = Proof { locker: key(1), proof_type: 2, proof_address: key(50) };
    let refused = handler(&mut ctx, key(60), &proof, key(61), &Vec::new(), 10 * DAY, NOW);
    assert_eq!(refused.err(), Some(ProtocolError::InvalidProof));
    assert_eq!(ctx.escrow.receipt_count, 0);
    let out = handler(&mut ctx, key(60), &proof, key(60), &Vec::new(), 10 * DAY, NOW).unwrap();
    assert_eq!(out.receipt.receipt_id, 0);
    assert_eq!(ctx.escrow.receipt_count, 1);
    assert_eq!(ctx.locker.locked_supply, 397);
}

#[test]
fn exit_to_empty_clears_lock_times() {
    let mut book = LockerBook::new(key(1), locker());
    let a = book.open_escrow(key(5), key(6), 1);
    book.lock(a, 100, 1000, NOW).unwrap();
    book.exit(a, 40).unwrap();
    assert_eq!(book.escrows[a].escrow_ends_at, NOW + 1000);
    book.exit(a, 60).unwrap();
    assert_eq!(book.escrows[a].amount, 0);
    assert_eq!(book.escrows[a].escrow_started_at, 0);
    assert_eq!(book.escrows[a].escrow_ends_at, 0);
    assert_eq!(book.locker.locked_supply, 0);
}

#[test]
fn transfer_between_escrows_keeps_supply() {
    let mut book = LockerBook::new(key(1), locker());
    let a = book.open_escrow(key(5), key(6), 1);
    let b = book.open_escrow(key(7), key(8), 2);
    book.lock(a, 100, 1000, NOW).unwrap();
    book.transfer(a, b, 30).unwrap();
    assert_eq!(book.escrows[a].amount, 70);
    assert_eq!(book.escrows[b].amount, 30);
    assert_eq!(book.escrows[b].escrow_ends_at, NOW + 1000);
    assert_eq!(book.locker.locked_supply, 100);
    assert_eq!(book.transfer(a, b, 71), Err(ProtocolError::MathOverflow));
}
