//! The program's scenarios, run against the library on a small in-memory ledger that
//! carries out the token calls each instruction returns.

use anchor_lang::prelude::Pubkey;
use anchor_spl::associated_token::get_associated_token_address_with_program_id;
use q3_26_escrow::constants::{ESCROW_SEED, MAX_ESCROW_DURATION};
use q3_26_escrow::error::{ConstraintError, EscrowError, ProgramFailure};
use q3_26_escrow::instructions::make::Make;
use q3_26_escrow::instructions::refund::Refund;
use q3_26_escrow::instructions::take::Take;
use q3_26_escrow::instructions::update::Update;
use q3_26_escrow::state::{Address, Escrow, Mint, TokenAccount};
use q3_26_escrow::token::{TokenCall, TokenInstruction};
use q3_26_escrow::{make_at, refund_at, take_at, update_at};
use std::collections::HashMap;
use std::str::FromStr;

type TxResult = Result<(), ProgramFailure>;

const SEED: u64 = 42;
const SUPPLY: u64 = 1_000_000_000;
const DEPOSIT: u64 = 1_000_000;
const RECEIVE: u64 = 1_000_000;
const TEN_DAYS: i64 = 864_000;
const START_TIMESTAMP: i64 = 1_788_683_523;
const DECIMALS: u8 = 6;

fn addr(key: &Pubkey) -> Address {
    Address { bytes: key.to_bytes() }
}

fn key(a: &Address) -> Pubkey {
    Pubkey::new_from_array(a.bytes)
}

struct Keypair {
    key: Pubkey,
}

impl Keypair {
    fn new() -> Self {
        Keypair { key: Pubkey::new_unique() }
    }

    fn pubkey(&self) -> Pubkey {
        self.key
    }

    fn insecure_clone(&self) -> Keypair {
        Keypair { key: self.key }
    }
}

struct Setup {
    program_id: Pubkey,
    token_program: Pubkey,
    maker: Keypair,
    taker: Keypair,
    mint_a: Pubkey,
    mint_b: Pubkey,
    maker_ata_a: Pubkey,
    maker_ata_b: Pubkey,
    taker_ata_a: Pubkey,
    taker_ata_b: Pubkey,
    escrow: Pubkey,
    vault: Pubkey,
    now: i64,
    mints: HashMap<Pubkey, u8>,
    tokens: HashMap<Pubkey, TokenAccount>,
    escrow_data: Option<Escrow>,
}

impl Setup {
    fn new() -> Self {
        let program_id = Pubkey::from_str("F7rM6r4imQypkGyrRnukZfB1iv8YHkPYKUzDSGE85U7A").unwrap();
        let token_program = anchor_spl::token::ID;
        let maker = Keypair::new();
        let taker = Keypair::new();
        let mint_a = Pubkey::new_unique();
        let mint_b = Pubkey::new_unique();
        let ata = |wallet: &Pubkey, mint: &Pubkey| {
            get_associated_token_address_with_program_id(wallet, mint, &token_program)
        };
        let (escrow, _) = Pubkey::find_program_address(
            &[&ESCROW_SEED, maker.pubkey().as_ref(), &SEED.to_le_bytes()],
            &program_id,
        );
        let mut setup = Setup {
            program_id,
            token_program,
            maker_ata_a: ata(&maker.pubkey(), &mint_a),
            maker_ata_b: ata(&maker.pubkey(), &mint_b),
            taker_ata_a: ata(&taker.pubkey(), &mint_a),
            taker_ata_b: ata(&taker.pubkey(), &mint_b),
            vault: ata(&escrow, &mint_a),
            maker,
            taker,
            mint_a,
            mint_b,
            escrow,
            now: 0,
            mints: HashMap::new(),
            tokens: HashMap::new(),
            escrow_data: None,
        };
        setup.mints.insert(mint_a, DECIMALS);
        setup.mints.insert(mint_b, DECIMALS);
        let (maker_pk, taker_pk) = (setup.maker.pubkey(), setup.taker.pubkey());
        setup.create_ata(&maker_pk, &mint_a);
        setup.create_ata(&taker_pk, &mint_b);
        setup.mint_to(&setup.maker_ata_a.clone(), SUPPLY);
        setup.mint_to(&setup.taker_ata_b.clone(), SUPPLY);
        setup.warp_to(START_TIMESTAMP);
        setup
    }

    fn ata(&self, wallet: &Pubkey, mint: &Pubkey) -> Pubkey {
        get_associated_token_address_with_program_id(wallet, mint, &self.token_program)
    }

    fn empty_ata(&self, wallet: &Pubkey, mint: &Pubkey) -> TokenAccount {
        TokenAccount {
            key: addr(&self.ata(wallet, mint)),
            program: addr(&self.token_program),
            mint: addr(mint),
            owner: addr(wallet),
            amount: 0,
        }
    }

    fn create_ata(&mut self, wallet: &Pubkey, mint: &Pubkey) -> Pubkey {
        let account = self.empty_ata(wallet, mint);
        let k = key(&account.key);
        self.tokens.entry(k).or_insert(account);
        k
    }

    fn mint_to(&mut self, account: &Pubkey, amount: u64) {
        self.tokens.get_mut(account).unwrap().amount += amount;
    }

    fn mint(&self, mint: &Pubkey) -> Mint {
        Mint { key: addr(mint), program: addr(&self.token_program), decimals: self.mints[mint] }
    }

    fn account(&self, k: &Pubkey) -> TokenAccount {
        *self.tokens.get(k).expect("token account")
    }

    /// The account if it exists, else the one `init_if_needed` creates.
    fn account_or_created(&self, k: &Pubkey, wallet: &Pubkey, mint: &Pubkey) -> (TokenAccount, bool) {
        match self.tokens.get(k) {
            Some(a) => (*a, false),
            None => {
                assert_eq!(*k, self.ata(wallet, mint));
                (self.empty_ata(wallet, mint), true)
            },
        }
    }

    /// Carries out token calls as the token program would.
    fn apply(&mut self, calls: &[TokenCall]) {
        for call in calls {
            assert_eq!(key(&call.token_program), self.token_program);
            match call.instruction {
                TokenInstruction::TransferChecked { from, mint, to, authority, amount, decimals } => {
                    let source = self.account(&key(&from));
                    assert_eq!(source.mint, mint);
                    assert_eq!(source.owner, authority);
                    assert_eq!(self.mints[&key(&mint)], decimals);
                    assert!(source.amount >= amount, "insufficient funds");
                    assert_eq!(self.account(&key(&to)).mint, mint);
                    self.tokens.get_mut(&key(&from)).unwrap().amount -= amount;
                    self.tokens.get_mut(&key(&to)).unwrap().amount += amount;
                },
                TokenInstruction::CloseAccount { account, authority, .. } => {
                    let a = self.account(&key(&account));
                    assert_eq!(a.owner, authority);
                    assert_eq!(a.amount, 0, "non-native account has balance");
                    self.tokens.remove(&key(&account));
                },
            }
            if !call.signer_seeds.is_empty() {
                let seeds: Vec<&[u8]> = call.signer_seeds.iter().map(|s| s.as_slice()).collect();
                let signer = Pubkey::create_program_address(&seeds, &self.program_id).unwrap();
                assert_eq!(signer, self.escrow);
            }
        }
    }

    // --- instructions ---

    fn make(&mut self, expiration: i64) -> TxResult {
        let maker = self.maker.pubkey();
        let mut accounts = Make {
            maker: addr(&maker),
            escrow_key: addr(&self.escrow),
            escrow: self.escrow_data,
            mint_a: self.mint(&self.mint_a),
            mint_b: self.mint(&self.mint_b),
            maker_ata_a: self.account(&self.maker_ata_a),
            vault: addr(&self.vault),
            vault_in_use: self.tokens.contains_key(&self.vault),
            token_program: addr(&self.token_program),
        };
        let calls = make_at(&mut accounts, &addr(&self.program_id), self.now, SEED, DEPOSIT, RECEIVE, expiration)?;
        let escrow = self.escrow;
        let mint_a = self.mint_a;
        self.create_ata(&escrow, &mint_a);
        self.apply(&calls);
        self.escrow_data = accounts.escrow;
        Ok(())
    }

    fn refund(&mut self) -> TxResult {
        let maker = self.maker.insecure_clone();
        self.refund_as(&maker)
    }

    fn refund_as(&mut self, signer: &Keypair) -> TxResult {
        self.refund_with_mint_a(signer, self.mint_a)
    }

    fn refund_with_mint_a(&mut self, signer: &Keypair, mint_a: Pubkey) -> TxResult {
        let mut accounts = Refund {
            maker: addr(&signer.pubkey()),
            mint_a: self.mint(&mint_a),
            maker_ata_a: self.account(&self.ata(&signer.pubkey(), &mint_a)),
            escrow_key: addr(&self.escrow),
            escrow: self.escrow_data,
            vault: self.account(&self.vault),
            token_program: addr(&self.token_program),
        };
        let calls = refund_at(&mut accounts, &addr(&self.program_id), self.now)?;
        self.apply(&calls);
        self.escrow_data = accounts.escrow;
        Ok(())
    }

    fn take(&mut self) -> TxResult {
        self.take_with(self.maker_ata_b, self.mint_a, self.mint_b)
    }

    fn take_with_maker_ata_b(&mut self, maker_ata_b: Pubkey) -> TxResult {
        self.take_with(maker_ata_b, self.mint_a, self.mint_b)
    }

    fn take_with_mints(&mut self, mint_a: Pubkey, mint_b: Pubkey) -> TxResult {
        let maker_ata_b = self.ata(&self.maker.pubkey(), &mint_b);
        self.take_with(maker_ata_b, mint_a, mint_b)
    }

    fn take_with(&mut self, maker_ata_b: Pubkey, mint_a: Pubkey, mint_b: Pubkey) -> TxResult {
        let taker = self.taker.pubkey();
        let maker = self.maker.pubkey();
        let (taker_ata_a, new_taker_ata_a) =
            self.account_or_created(&self.ata(&taker, &mint_a), &taker, &mint_a);
        let (maker_ata_b, new_maker_ata_b) = self.account_or_created(&maker_ata_b, &maker, &mint_b);
        let mut accounts = Take {
            taker: addr(&taker),
            maker: addr(&maker),
            mint_a: self.mint(&mint_a),
            mint_b: self.mint(&mint_b),
            taker_ata_a,
            taker_ata_b: self.account(&self.ata(&taker, &mint_b)),
            maker_ata_b,
            escrow_key: addr(&self.escrow),
            escrow: self.escrow_data,
            vault: self.account(&self.ata(&self.escrow, &mint_a)),
            token_program: addr(&self.token_program),
        };
        let calls = take_at(&mut accounts, &addr(&self.program_id), self.now)?;
        if new_taker_ata_a {
            self.tokens.insert(key(&taker_ata_a.key), taker_ata_a);
        }
        if new_maker_ata_b {
            self.tokens.insert(key(&maker_ata_b.key), maker_ata_b);
        }
        self.apply(&calls);
        self.escrow_data = accounts.escrow;
        Ok(())
    }

    fn update(&mut self, expiration: i64) -> TxResult {
        let maker = self.maker.insecure_clone();
        self.update_as(&maker, expiration)
    }

    fn update_as(&mut self, signer: &Keypair, expiration: i64) -> TxResult {
        let mut accounts = Update {
            maker: addr(&signer.pubkey()),
            escrow_key: addr(&self.escrow),
            escrow: self.escrow_data,
        };
        update_at(&mut accounts, &addr(&self.program_id), self.now, expiration)?;
        self.escrow_data = accounts.escrow;
        Ok(())
    }

    // --- fixtures ---

    fn new_foreign_mint(&mut self) -> Pubkey {
        let mint = Pubkey::new_unique();
        self.mints.insert(mint, DECIMALS);
        let (maker_pk, taker_pk, escrow) = (self.maker.pubkey(), self.taker.pubkey(), self.escrow);
        for owner in [maker_pk, taker_pk, escrow] {
            self.create_ata(&owner, &mint);
        }
        mint
    }

    fn new_attacker(&mut self) -> Keypair {
        let attacker = Keypair::new();
        let (mint_a, mint_b) = (self.mint_a, self.mint_b);
        let attacker_pk = attacker.pubkey();
        for mint in [mint_a, mint_b] {
            self.create_ata(&attacker_pk, &mint);
        }
        attacker
    }

    fn create_destination_atas(&mut self) {
        let (taker_pk, maker_pk) = (self.taker.pubkey(), self.maker.pubkey());
        let (mint_a, mint_b) = (self.mint_a, self.mint_b);
        self.create_ata(&taker_pk, &mint_a);
        self.create_ata(&maker_pk, &mint_b);
    }

    // --- state readers ---

    fn token_amount(&self, ata: &Pubkey) -> u64 {
        self.account(ata).amount
    }

    fn escrow_state(&self) -> Escrow {
        self.escrow_data.unwrap()
    }

    fn escrow_exists(&self) -> bool {
        self.escrow_data.is_some()
    }

    fn now(&self) -> i64 {
        self.now
    }

    fn warp_to(&mut self, unix_timestamp: i64) {
        self.now = unix_timestamp;
    }

    fn assert_closed(&self, k: &Pubkey) {
        if *k == self.escrow {
            assert!(self.escrow_data.is_none());
        } else {
            assert!(!self.tokens.contains_key(k));
        }
    }
}

fn assert_escrow_error(result: TxResult, expected: EscrowError) {
    assert_eq!(result, Err(ProgramFailure::Escrow(expected)));
}

fn assert_anchor_error(result: TxResult, expected: ConstraintError) {
    assert_eq!(result, Err(ProgramFailure::Constraint(expected)));
}

fn assert_take_settled(setup: &Setup) {
    setup.assert_closed(&setup.escrow);
    setup.assert_closed(&setup.vault);
    assert_eq!(setup.token_amount(&setup.maker_ata_a), SUPPLY - DEPOSIT);
    assert_eq!(setup.token_amount(&setup.taker_ata_a), DEPOSIT);
    assert_eq!(setup.token_amount(&setup.taker_ata_b), SUPPLY - RECEIVE);
    assert_eq!(setup.token_amount(&setup.maker_ata_b), RECEIVE);
}

fn assert_no_state_change(setup: &Setup) {
    assert!(!setup.escrow_exists(), "escrow account should not have been created");
    assert_eq!(setup.token_amount(&setup.maker_ata_a), SUPPLY);
}

// --- make ---

#[test]
fn test_make() {
    let mut setup = Setup::new();
    assert_eq!(setup.token_amount(&setup.maker_ata_a), SUPPLY);

    let expiration = setup.now().saturating_add(TEN_DAYS);
    setup.make(expiration).expect("make should succeed");

    let escrow = setup.escrow_state();
    assert_eq!((escrow.id, escrow.token_b_wanted_amount), (SEED, RECEIVE));
    assert_eq!(escrow.expiration, expiration);
    assert_eq!(escrow.maker, addr(&setup.maker.pubkey()));
    assert_eq!(setup.token_amount(&setup.maker_ata_a), SUPPLY - DEPOSIT);
    assert_eq!(setup.token_amount(&setup.vault), DEPOSIT);
}

#[test]
fn test_make_succeeds_at_max_expiration() {
    let mut setup = Setup::new();

    let expiration = setup.now().saturating_add(MAX_ESCROW_DURATION);
    setup.make(expiration).expect("make should succeed");

    assert_eq!(setup.escrow_state().expiration, expiration);
}

#[test]
fn test_make_fails_when_expiration_in_the_past() {
    let mut setup = Setup::new();

    let expiration = setup.now().saturating_sub(TEN_DAYS);
    assert_escrow_error(setup.make(expiration), EscrowError::ExpirationInThePast);

    assert_no_state_change(&setup);
}

#[test]
fn test_make_fails_when_expiration_equals_now() {
    let mut setup = Setup::new();

    let expiration = setup.now();
    assert_escrow_error(setup.make(expiration), EscrowError::ExpirationInThePast);

    assert_no_state_change(&setup);
}

#[test]
fn test_make_fails_when_expiration_exceeds_max() {
    let mut setup = Setup::new();

    let expiration = setup.now().saturating_add(MAX_ESCROW_DURATION).saturating_add(1);
    assert_escrow_error(setup.make(expiration), EscrowError::ExpirationTooFar);

    assert_no_state_change(&setup);
}

// --- refund ---

#[test]
fn test_refund() {
    let mut setup = Setup::new();

    let expiration = setup.now().saturating_add(TEN_DAYS);
    setup.make(expiration).expect("make should succeed");
    setup.warp_to(expiration);
    setup.refund().expect("refund should succeed");

    setup.assert_closed(&setup.escrow);
    setup.assert_closed(&setup.vault);
    assert_eq!(setup.token_amount(&setup.maker_ata_a), SUPPLY);
}

#[test]
fn test_refund_fails_when_offer_is_active() {
    let mut setup = Setup::new();

    let expiration = setup.now().saturating_add(TEN_DAYS);
    setup.make(expiration).expect("make should succeed");

    setup.warp_to(expiration.saturating_sub(1));
    assert_escrow_error(setup.refund(), EscrowError::OfferIsActive);

    assert!(setup.escrow_exists(), "escrow should still be open");
    assert_eq!(setup.token_amount(&setup.vault), DEPOSIT);
    assert_eq!(setup.token_amount(&setup.maker_ata_a), SUPPLY - DEPOSIT);
}

#[test]
fn test_refund_fails_for_non_maker() {
    let mut setup = Setup::new();

    let expiration = setup.now().saturating_add(TEN_DAYS);
    setup.make(expiration).expect("make should succeed");
    setup.warp_to(expiration);

    let attacker = setup.new_attacker();
    assert_anchor_error(setup.refund_as(&attacker), ConstraintError::ConstraintSeeds);

    assert!(setup.escrow_exists(), "escrow should still be open");
    assert_eq!(setup.token_amount(&setup.vault), DEPOSIT);
    setup.refund().expect("the real maker can still refund");
    assert_eq!(setup.token_amount(&setup.maker_ata_a), SUPPLY);
}

#[test]
fn test_refund_fails_with_foreign_mint_a() {
    let mut setup = Setup::new();

    let expiration = setup.now().saturating_add(TEN_DAYS);
    setup.make(expiration).expect("make should succeed");
    setup.warp_to(expiration);

    let foreign_mint = setup.new_foreign_mint();
    let maker = setup.maker.insecure_clone();
    assert_anchor_error(
        setup.refund_with_mint_a(&maker, foreign_mint),
        ConstraintError::ConstraintHasOne,
    );

    assert!(setup.escrow_exists(), "escrow should still be open");
    assert_eq!(setup.token_amount(&setup.vault), DEPOSIT);
}

// --- take ---

#[test]
fn test_take() {
    let mut setup = Setup::new();

    let expiration = setup.now().saturating_add(TEN_DAYS);
    setup.make(expiration).expect("make should succeed");

    setup.take().expect("take should succeed");

    assert_take_settled(&setup);
}

#[test]
fn test_take_succeeds_when_destination_atas_exist() {
    let mut setup = Setup::new();

    let expiration = setup.now().saturating_add(TEN_DAYS);
    setup.make(expiration).expect("make should succeed");

    setup.create_destination_atas();
    setup.take().expect("take should succeed");

    assert_take_settled(&setup);
}

#[test]
fn test_take_succeeds_just_before_expiration() {
    let mut setup = Setup::new();

    let expiration = setup.now().saturating_add(TEN_DAYS);
    setup.make(expiration).expect("make should succeed");

    setup.warp_to(expiration.saturating_sub(1));
    setup.take().expect("take should succeed one second before expiration");

    assert_take_settled(&setup);
}

#[test]
fn test_take_fails_when_offer_has_expired() {
    let mut setup = Setup::new();

    let expiration = setup.now().saturating_add(TEN_DAYS);
    setup.make(expiration).expect("make should succeed");

    setup.create_destination_atas();
    setup.warp_to(expiration);
    assert_escrow_error(setup.take(), EscrowError::OfferExpired);

    assert!(setup.escrow_exists(), "escrow should still be open");
    assert_eq!(setup.token_amount(&setup.vault), DEPOSIT);
    assert_eq!(setup.token_amount(&setup.maker_ata_a), SUPPLY - DEPOSIT);
    assert_eq!(setup.token_amount(&setup.taker_ata_a), 0);
    assert_eq!(setup.token_amount(&setup.taker_ata_b), SUPPLY);
    assert_eq!(setup.token_amount(&setup.maker_ata_b), 0);
}

#[test]
fn test_take_fails_when_payment_is_redirected() {
    let mut setup = Setup::new();

    let expiration = setup.now().saturating_add(TEN_DAYS);
    setup.make(expiration).expect("make should succeed");

    let attacker = setup.new_attacker();
    let attacker_ata_b = setup.ata(&attacker.pubkey(), &setup.mint_b);
    assert_anchor_error(
        setup.take_with_maker_ata_b(attacker_ata_b),
        ConstraintError::ConstraintTokenOwner,
    );

    assert!(setup.escrow_exists(), "escrow should still be open");
    assert_eq!(setup.token_amount(&setup.vault), DEPOSIT);
    assert_eq!(setup.token_amount(&attacker_ata_b), 0);
}

#[test]
fn test_take_fails_with_foreign_mint_a() {
    let mut setup = Setup::new();

    let expiration = setup.now().saturating_add(TEN_DAYS);
    setup.make(expiration).expect("make should succeed");

    let foreign_mint = setup.new_foreign_mint();
    let mint_b = setup.mint_b;
    assert_anchor_error(
        setup.take_with_mints(foreign_mint, mint_b),
        ConstraintError::ConstraintHasOne,
    );

    assert_eq!(setup.token_amount(&setup.vault), DEPOSIT);
}

#[test]
fn test_take_fails_with_foreign_mint_b() {
    let mut setup = Setup::new();

    let expiration = setup.now().saturating_add(TEN_DAYS);
    setup.make(expiration).expect("make should succeed");

    let foreign_mint = setup.new_foreign_mint();
    let mint_a = setup.mint_a;
    assert_anchor_error(
        setup.take_with_mints(mint_a, foreign_mint),
        ConstraintError::ConstraintHasOne,
    );

    assert_eq!(setup.token_amount(&setup.vault), DEPOSIT);
    assert_eq!(setup.token_amount(&setup.taker_ata_b), SUPPLY);
}

// --- update ---

#[test]
fn test_update_extends_expiration() {
    let mut setup = Setup::new();

    let expiration = setup.now().saturating_add(TEN_DAYS);
    setup.make(expiration).expect("make should succeed");

    let extended = expiration.saturating_add(TEN_DAYS);
    setup.update(extended).expect("update should succeed");

    assert_eq!(setup.escrow_state().expiration, extended);
    assert_eq!(setup.token_amount(&setup.vault), DEPOSIT);
}

#[test]
fn test_update_succeeds_at_max_expiration() {
    let mut setup = Setup::new();

    let expiration = setup.now().saturating_add(TEN_DAYS);
    setup.make(expiration).expect("make should succeed");

    let max_expiration = setup.now().saturating_add(MAX_ESCROW_DURATION);
    setup.update(max_expiration).expect("update should succeed at the inclusive bound");

    assert_eq!(setup.escrow_state().expiration, max_expiration);
}

#[test]
fn test_update_fails_when_expiration_exceeds_max() {
    let mut setup = Setup::new();

    let expiration = setup.now().saturating_add(TEN_DAYS);
    setup.make(expiration).expect("make should succeed");

    let too_far = setup.now().saturating_add(MAX_ESCROW_DURATION).saturating_add(1);
    assert_escrow_error(setup.update(too_far), EscrowError::ExpirationTooFar);

    assert_eq!(setup.escrow_state().expiration, expiration);
}

#[test]
fn test_update_fails_when_expiration_is_not_extended() {
    let mut setup = Setup::new();

    let expiration = setup.now().saturating_add(TEN_DAYS);
    setup.make(expiration).expect("make should succeed");

    assert_escrow_error(setup.update(expiration), EscrowError::ExpirationNotExtended);
    assert_escrow_error(setup.update(expiration.saturating_sub(1)), EscrowError::ExpirationNotExtended);

    assert_eq!(setup.escrow_state().expiration, expiration);
}

#[test]
fn test_update_fails_when_expiration_in_the_past() {
    let mut setup = Setup::new();

    let expiration = setup.now().saturating_add(TEN_DAYS);
    setup.make(expiration).expect("make should succeed");

    let past = setup.now().saturating_sub(1);
    assert_escrow_error(setup.update(past), EscrowError::ExpirationInThePast);

    assert_eq!(setup.escrow_state().expiration, expiration);
}

#[test]
fn test_update_fails_when_offer_has_expired() {
    let mut setup = Setup::new();

    let expiration = setup.now().saturating_add(TEN_DAYS);
    setup.make(expiration).expect("make should succeed");

    setup.warp_to(expiration);
    assert_escrow_error(
        setup.update(expiration.saturating_add(TEN_DAYS)),
        EscrowError::OfferExpired,
    );

    assert_eq!(setup.escrow_state().expiration, expiration);
}

#[test]
fn test_update_fails_for_non_maker() {
    let mut setup = Setup::new();

    let expiration = setup.now().saturating_add(TEN_DAYS);
    setup.make(expiration).expect("make should succeed");

    let attacker = setup.new_attacker();
    assert_anchor_error(
        setup.update_as(&attacker, expiration.saturating_add(TEN_DAYS)),
        ConstraintError::ConstraintSeeds,
    );

    assert_eq!(setup.escrow_state().expiration, expiration);
}
