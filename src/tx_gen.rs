//! Producing signed ERC-20 transfers: account keys, the transfer call, the
//! signed legacy transaction, and the batches handed to the queue.
use vstd::prelude::*;
use alloy::network::TxSignerSync;
use alloy::primitives::{Address, Bytes, TxKind, B256, U256};
use alloy::signers::local::PrivateKeySigner;
use alloy_consensus::{SignableTransaction, TxLegacy};
use alloy_signer_local::coins_bip39::English;
use alloy_signer_local::MnemonicBuilder;
use rand::Rng;
use crate::config::TxGenWorkerConfig;
use crate::nonce_map::NonceMap;

verus! {

/// The secret key at child `index` of the standard Ethereum derivation path
/// of a BIP-39 phrase, or `None` when the phrase or index is not valid.
pub uninterp spec fn mnemonic_secret(phrase: Seq<char>, index: u32) -> Option<Seq<u8>>;

/// The address of a secret key, or `None` when the bytes are no valid key.
pub uninterp spec fn secret_address(secret: Seq<u8>) -> Option<Seq<u8>>;

/// The EIP-2718 bytes of a legacy transaction with these fields, signed with
/// `secret`, or `None` when the bytes are no valid key.
pub uninterp spec fn signed_legacy(
    secret: Seq<u8>,
    chain_id: u64,
    nonce: u64,
    gas_price: u128,
    gas_limit: u64,
    to: Seq<u8>,
    value: u128,
    input: Seq<u8>,
) -> Option<Seq<u8>>;

/// Relies on `MnemonicBuilder::<English>` with `phrase` and `index`, then
/// `build`: the key follows from the phrase and the index alone.
#[verifier::external_body]
fn derive_secret(phrase: &str, index: u32) -> (r: Option<[u8; 32]>)
    ensures
        match r {
            Some(k) => mnemonic_secret(phrase@, index) == Some(k@),
            None => mnemonic_secret(phrase@, index) is None,
        },
{
    let signer = MnemonicBuilder::<English>::default().phrase(phrase).index(index).ok()?.build().ok()?;
    Some(signer.to_bytes().0)
}

/// Relies on `PrivateKeySigner::from_bytes` and `address`: the address
/// follows from the key alone.
#[verifier::external_body]
fn address_of(secret: &[u8; 32]) -> (r: Option<[u8; 20]>)
    ensures
        match r {
            Some(a) => secret_address(secret@) == Some(a@),
            None => secret_address(secret@) is None,
        },
{
    let signer = PrivateKeySigner::from_bytes(&B256::from(*secret)).ok()?;
    Some(signer.address().0.0)
}

/// Relies on `PrivateKeySigner::from_bytes`, `sign_transaction_sync` and
/// `eip2718_encode` of alloy: the signature is deterministic (RFC 6979), so
/// the bytes follow from the key and the fields alone.
#[verifier::external_body]
fn sign_legacy(secret: &[u8; 32], tx: &LegacyTx) -> (r: Option<Vec<u8>>)
    ensures
        match r {
            Some(p) => signed_legacy(secret@, tx.chain_id, tx.nonce, tx.gas_price, tx.gas_limit, tx.to@, tx.value, tx.input@) == Some(p@),
            None => signed_legacy(secret@, tx.chain_id, tx.nonce, tx.gas_price, tx.gas_limit, tx.to@, tx.value, tx.input@) is None,
        },
{
    let signer = PrivateKeySigner::from_bytes(&B256::from(*secret)).ok()?;
    let mut legacy = TxLegacy {
        chain_id: Some(tx.chain_id), nonce: tx.nonce, gas_price: tx.gas_price, gas_limit: tx.gas_limit,
        to: TxKind::Call(Address::from(tx.to)), value: U256::from(tx.value), input: Bytes::from(tx.input.clone()),
    };
    let signature = signer.sign_transaction_sync(&mut legacy).ok()?;
    let mut payload = Vec::new();
    legacy.into_signed(signature).eip2718_encode(&mut payload);
    Some(payload)
}

/// Relies on `rand::rng().random_range(0..bound)`: a value below `bound`.
#[verifier::external_body]
fn random_below(bound: u32) -> (r: u32)
    requires
        bound > 0,
    ensures
        r < bound,
{
    rand::rng().random_range(0..bound)
}

/// Relies on `rand::rng().random_range(1..=max)`: a value in `1..=max`.
#[verifier::external_body]
fn random_amount(max: u64) -> (r: u64)
    requires
        max >= 1,
    ensures
        1 <= r <= max,
{
    rand::rng().random_range(1..=max)
}

/// The fields of a legacy transaction that calls contract `to`.
pub struct LegacyTx {
    pub chain_id: u64,
    pub nonce: u64,
    pub gas_price: u128,
    pub gas_limit: u64,
    pub to: [u8; 20],
    pub value: u128,
    pub input: Vec<u8>,
}

/// The signature of an account's transactions as `signed_legacy` takes it.
pub open spec fn signed_by(secret: Seq<u8>, tx: LegacyTx) -> Option<Seq<u8>> {
    signed_legacy(
        secret,
        tx.chain_id,
        tx.nonce,
        tx.gas_price,
        tx.gas_limit,
        tx.to@,
        tx.value,
        tx.input@,
    )
}

/// The secret key of an account and the address it controls.
pub struct AccountKey {
    secret: [u8; 32],
    address: [u8; 20],
}

impl AccountKey {
    pub closed spec fn secret_spec(&self) -> Seq<u8> {
        self.secret@
    }

    pub closed spec fn address_spec(&self) -> Seq<u8> {
        self.address@
    }

    #[verifier::type_invariant]
    closed spec fn matches_address(&self) -> bool {
        secret_address(self.secret@) == Some(self.address@)
    }

    /// The account of a secret key, or `None` when the bytes are no key.
    pub fn from_secret(secret: [u8; 32]) -> (r: Option<AccountKey>)
        ensures
            match r {
                Some(k) => k.secret_spec() == secret@ && secret_address(secret@) == Some(
                    k.address_spec(),
                ),
                None => secret_address(secret@) is None,
            },
    {
        match address_of(&secret) {
            Some(address) => Some(AccountKey { secret, address }),
            None => None,
        }
    }

    pub fn address(&self) -> (r: [u8; 20])
        ensures
            r@ == self.address_spec(),
            secret_address(self.secret_spec()) == Some(r@),
    {
        proof {
            use_type_invariant(self);
        }
        self.address
    }
}

/// Child `index` of `phrase` yields a key that has an address.
pub open spec fn derivable(phrase: Seq<char>, index: u32) -> bool {
    &&& mnemonic_secret(phrase, index) matches Some(s)
    &&& secret_address(s) is Some
}

/// The account at child `index` of `phrase`'s derivation path, or `None`
/// when the phrase or index yields no key.
pub fn derive_account(phrase: &str, index: u32) -> (r: Option<AccountKey>)
    ensures
        r is Some <==> derivable(phrase@, index),
        r matches Some(k) ==> mnemonic_secret(phrase@, index) == Some(k.secret_spec()),
{
    match derive_secret(phrase, index) {
        Some(secret) => AccountKey::from_secret(secret),
        None => None,
    }
}

/// Signs `tx` with the account's key and returns its EIP-2718 encoding.
pub fn sign_and_encode_tx(signer: &AccountKey, tx: &LegacyTx) -> (r: Option<Vec<u8>>)
    ensures
        match r {
            Some(p) => signed_by(signer.secret_spec(), *tx) == Some(p@),
            None => signed_by(signer.secret_spec(), *tx) is None,
        },
{
    sign_legacy(&signer.secret, tx)
}

/// Builds the legacy transaction that calls `to` with `data` and no value,
/// and signs it with `signer`.
pub fn generate_and_sign_tx(
    signer: &AccountKey,
    chain_id: u64,
    nonce: u64,
    gas_price: u128,
    gas_limit: u64,
    to: [u8; 20],
    data: Vec<u8>,
) -> (r: Option<Vec<u8>>)
    ensures
        match r {
            Some(p) => signed_legacy(signer.secret_spec(), chain_id, nonce, gas_price, gas_limit, to@, 0, data@) == Some(p@),
            None => signed_legacy(signer.secret_spec(), chain_id, nonce, gas_price, gas_limit, to@, 0, data@) is None,
        },
{
    let tx = LegacyTx { chain_id, nonce, gas_price, gas_limit, to, value: 0, input: data };
    sign_and_encode_tx(signer, &tx)
}

/// The selector of `transfer(address,uint256)`.
pub open spec fn transfer_selector() -> Seq<u8> {
    seq![0xa9u8, 0x05u8, 0x9cu8, 0xbbu8]
}

/// `x` as eight bytes, most significant first.
pub open spec fn be_u64(x: u64) -> Seq<u8> {
    seq![
        (x / 0x100000000000000 % 0x100) as u8,
        (x / 0x1000000000000 % 0x100) as u8,
        (x / 0x10000000000 % 0x100) as u8,
        (x / 0x100000000 % 0x100) as u8,
        (x / 0x1000000 % 0x100) as u8,
        (x / 0x10000 % 0x100) as u8,
        (x / 0x100 % 0x100) as u8,
        (x % 0x100) as u8,
    ]
}

/// `n` zero bytes.
pub open spec fn zeros(n: nat) -> Seq<u8> {
    Seq::new(n, |i: int| 0u8)
}

/// The ABI call data of `transfer(recipient, amount)`: the selector, the
/// address padded to 32 bytes, and the amount as a 32-byte big-endian word.
pub open spec fn transfer_call(recipient: Seq<u8>, amount: u64) -> Seq<u8> {
    transfer_selector() + zeros(12) + recipient + zeros(24) + be_u64(amount)
}

fn push_zeros(out: &mut Vec<u8>, n: usize)
    ensures
        final(out)@ == old(out)@ + zeros(n as nat),
{
    let mut i: usize = 0;
    while i < n
        invariant
            i <= n,
            out@ == old(out)@ + zeros(i as nat),
        decreases n - i,
    {
        out.push(0);
        i = i + 1;
        assert(out@ =~= old(out)@ + zeros(i as nat));
    }
}

/// Encodes the ERC-20 call `transfer(recipient, amount)`.
pub fn transfer_call_data(recipient: &[u8; 20], amount: u64) -> (r: Vec<u8>)
    ensures
        r@ == transfer_call(recipient@, amount),
{
    let mut out: Vec<u8> = Vec::new();
    out.push(0xa9);
    out.push(0x05);
    out.push(0x9c);
    out.push(0xbb);
    assert(out@ =~= transfer_selector());
    push_zeros(&mut out, 12);
    let ghost head = out@;
    let mut i: usize = 0;
    while i < 20
        invariant
            i <= 20,
            out@ == head + recipient@.take(i as int),
        decreases 20 - i,
    {
        out.push(recipient[i]);
        assert(recipient@.take(i + 1) == recipient@.take(i as int).push(recipient@[i as int]));
        i = i + 1;
    }
    assert(recipient@.take(20) == recipient@);
    push_zeros(&mut out, 24);
    let ghost body = out@;
    out.push((amount / 0x100000000000000 % 0x100) as u8);
    out.push((amount / 0x1000000000000 % 0x100) as u8);
    out.push((amount / 0x10000000000 % 0x100) as u8);
    out.push((amount / 0x100000000 % 0x100) as u8);
    out.push((amount / 0x1000000 % 0x100) as u8);
    out.push((amount / 0x10000 % 0x100) as u8);
    out.push((amount / 0x100 % 0x100) as u8);
    out.push((amount % 0x100) as u8);
    assert(out@ =~= body + be_u64(amount));
    assert(out@ =~= transfer_call(recipient@, amount));
    out
}

/// The accounts that producers send from and to, by index.
pub struct SignerPool {
    accounts: Vec<AccountKey>,
}

impl SignerPool {
    pub closed spec fn keys(&self) -> Seq<AccountKey> {
        self.accounts@
    }

    pub fn new(accounts: Vec<AccountKey>) -> (r: SignerPool)
        ensures
            r.keys() == accounts@,
    {
        SignerPool { accounts }
    }

    /// Derives the accounts `0..num_accounts` of `phrase` in order; `None`
    /// when one of them yields no key.
    pub fn derive(phrase: &str, num_accounts: u32) -> (r: Option<SignerPool>)
        ensures
            r is Some <==> forall|i: u32| i < num_accounts ==> #[trigger] derivable(phrase@, i),
            r matches Some(p) ==> {
                &&& p.keys().len() == num_accounts
                &&& forall|i: int|
                    0 <= i < num_accounts ==> mnemonic_secret(phrase@, i as u32) == Some(
                        #[trigger] p.keys()[i].secret_spec(),
                    )
            },
    {
        let mut accounts: Vec<AccountKey> = Vec::new();
        let mut i: u32 = 0;
        while i < num_accounts
            invariant
                i <= num_accounts,
                accounts@.len() == i,
                forall|j: int|
                    0 <= j < i ==> mnemonic_secret(phrase@, j as u32) == Some(
                        #[trigger] accounts@[j].secret_spec(),
                    ),
                forall|j: u32| j < i ==> #[trigger] derivable(phrase@, j),
            decreases num_accounts - i,
        {
            match derive_account(phrase, i) {
                Some(k) => accounts.push(k),
                None => return None,
            }
            i = i + 1;
        }
        Some(SignerPool { accounts })
    }

    pub fn len(&self) -> (r: usize)
        ensures
            r == self.keys().len(),
    {
        self.accounts.len()
    }

    pub fn signer(&self, i: usize) -> (r: &AccountKey)
        requires
            i < self.keys().len(),
        ensures
            *r == self.keys()[i as int],
    {
        &self.accounts[i]
    }
}

/// What one produced transfer is: `sender`'s next nonce is claimed and the
/// transfer of `amount` tokens at `token` to `recipient`'s address, with the
/// configured chain, gas price and gas limit and no value, is signed with
/// `sender`'s key. When the sender has no nonce left nothing changes.
pub open spec fn transfer_made(
    pool: SignerPool,
    before: NonceMap,
    after: NonceMap,
    config: TxGenWorkerConfig,
    token: Seq<u8>,
    sender: u32,
    recipient: u32,
    amount: u64,
    r: Option<Vec<u8>>,
) -> bool {
    let nonce = before.next_nonces()[sender];
    if nonce == u64::MAX {
        r is None && after == before
    } else {
        &&& after.next_nonces() == before.next_nonces().insert(sender, (nonce + 1) as u64)
        &&& after.history() == before.history().insert(
            sender,
            before.history()[sender].push(nonce),
        )
        &&& after.accounts() == before.accounts()
        &&& match r {
            Some(p) => signed_transfer(pool, config, token, TransferPick { sender, recipient, amount }, nonce) == Some(p@),
            None => signed_transfer(pool, config, token, TransferPick { sender, recipient, amount }, nonce) is None,
        }
    }
}

/// The transfer that `transfer_made` describes, signed with `sender`'s key
/// at `nonce`.
pub open spec fn signed_transfer(
    pool: SignerPool,
    config: TxGenWorkerConfig,
    token: Seq<u8>,
    pick: TransferPick,
    nonce: u64,
) -> Option<Seq<u8>> {
    signed_legacy(
        pool.keys()[pick.sender as int].secret_spec(),
        config.chain_id,
        nonce,
        config.gas_price as u128,
        config.gas_limit,
        token,
        0,
        transfer_call(pool.keys()[pick.recipient as int].address_spec(), pick.amount),
    )
}

/// Signs, at `nonce`, the transfer of `pick.amount` tokens of the contract
/// at `token` from `pick.sender` to `pick.recipient`'s address, with the
/// configured chain, gas price and gas limit and no value.
pub fn sign_transfer(
    pool: &SignerPool,
    config: &TxGenWorkerConfig,
    token: &[u8; 20],
    pick: &TransferPick,
    nonce: u64,
) -> (r: Option<Vec<u8>>)
    requires
        (pick.sender as int) < pool.keys().len(),
        (pick.recipient as int) < pool.keys().len(),
    ensures
        match r {
            Some(p) => signed_transfer(*pool, *config, token@, *pick, nonce) == Some(p@),
            None => signed_transfer(*pool, *config, token@, *pick, nonce) is None,
        },
{
    let to = pool.signer(pick.recipient as usize).address();
    let input = transfer_call_data(&to, pick.amount);
    let tx = LegacyTx {
        chain_id: config.chain_id,
        nonce,
        gas_price: config.gas_price as u128,
        gas_limit: config.gas_limit,
        to: *token,
        value: 0,
        input,
    };
    sign_and_encode_tx(pool.signer(pick.sender as usize), &tx)
}

/// Claims `sender`'s next nonce and signs a transfer of `amount` tokens of
/// the contract at `token` to `recipient`.
pub fn build_transfer(
    pool: &SignerPool,
    nonces: &mut NonceMap,
    config: &TxGenWorkerConfig,
    token: &[u8; 20],
    sender: u32,
    recipient: u32,
    amount: u64,
) -> (r: Option<Vec<u8>>)
    requires
        old(nonces).wf(),
        sender < old(nonces).accounts(),
        (sender as int) < pool.keys().len(),
        (recipient as int) < pool.keys().len(),
    ensures
        final(nonces).wf(),
        transfer_made(*pool, *old(nonces), *final(nonces), *config, token@, sender, recipient, amount, r),
{
    let nonce = match nonces.claim(sender) {
        Some(n) => n,
        None => return None,
    };
    let pick = TransferPick { sender, recipient, amount };
    sign_transfer(pool, config, token, &pick, nonce)
}

/// The settings under which `generate_tx` can draw its accounts and amount.
pub open spec fn can_generate(pool: SignerPool, nonces: NonceMap, config: TxGenWorkerConfig) -> bool {
    &&& config.num_accounts > 0
    &&& config.recipient_distribution_factor > 0
    &&& config.num_accounts / config.recipient_distribution_factor > 0
    &&& config.max_transfer_amount >= 1
    &&& config.num_accounts <= nonces.accounts()
    &&& config.num_accounts <= pool.keys().len()
}

/// The accounts and amount of one transfer.
#[derive(Clone, Copy, Debug)]
pub struct TransferPick {
    pub sender: u32,
    pub recipient: u32,
    pub amount: u64,
}

/// The ranges a producer draws from: a sender below `num_accounts`, a
/// recipient below `num_accounts / recipient_distribution_factor`, and an
/// amount in `1..=max_transfer_amount`.
pub open spec fn pick_in_range(config: TxGenWorkerConfig, pick: TransferPick) -> bool {
    &&& pick.sender < config.num_accounts
    &&& pick.recipient < config.num_accounts / config.recipient_distribution_factor
    &&& 1 <= pick.amount <= config.max_transfer_amount
}

/// Draws the accounts and amount of one transfer, uniformly from the
/// configured ranges.
pub fn draw_transfer(config: &TxGenWorkerConfig) -> (r: TransferPick)
    requires
        config.num_accounts > 0,
        config.recipient_distribution_factor > 0,
        config.num_accounts / config.recipient_distribution_factor > 0,
        config.max_transfer_amount >= 1,
    ensures
        pick_in_range(*config, r),
{
    let sender = random_below(config.num_accounts);
    let recipient = random_below(config.num_accounts / config.recipient_distribution_factor);
    let amount = random_amount(config.max_transfer_amount);
    TransferPick { sender, recipient, amount }
}

/// One producer step: draws a transfer with `draw_transfer`, then claims
/// the sender's nonce and signs it with `build_transfer`.
pub fn generate_tx(
    pool: &SignerPool,
    nonces: &mut NonceMap,
    config: &TxGenWorkerConfig,
    token: &[u8; 20],
) -> (r: Option<Vec<u8>>)
    requires
        old(nonces).wf(),
        can_generate(*pool, *old(nonces), *config),
    ensures
        final(nonces).wf(),
        exists|pick: TransferPick|
            {
                &&& pick_in_range(*config, pick)
                &&& transfer_made(*pool, *old(nonces), *final(nonces), *config, token@, pick.sender, pick.recipient, pick.amount, r)
            },
{
    let pick = draw_transfer(config);
    let r = build_transfer(pool, nonces, config, token, pick.sender, pick.recipient, pick.amount);
    assert(TransferPick { sender: pick.sender, recipient: pick.recipient, amount: pick.amount } == pick);
    r
}

/// Payloads a producer gathers before it hands them to the queue at once.
pub struct TxBatch {
    items: Vec<Vec<u8>>,
    size: usize,
}

impl TxBatch {
    pub closed spec fn gathered(&self) -> Seq<Vec<u8>> {
        self.items@
    }

    pub closed spec fn batch_size(&self) -> nat {
        self.size as nat
    }

    pub fn new(size: usize) -> (r: TxBatch)
        ensures
            r.gathered().len() == 0,
            r.batch_size() == size,
    {
        TxBatch { items: Vec::new(), size }
    }

    /// Adds `tx`; once `batch_size` payloads are gathered, hands them all
    /// back in order and starts over.
    pub fn add(&mut self, tx: Vec<u8>) -> (r: Option<Vec<Vec<u8>>>)
        ensures
            final(self).batch_size() == old(self).batch_size(),
            old(self).gathered().len() + 1 >= old(self).batch_size() ==> {
                &&& r matches Some(full) && full@ == old(self).gathered().push(tx)
                &&& final(self).gathered().len() == 0
            },
            old(self).gathered().len() + 1 < old(self).batch_size() ==> {
                &&& r is None
                &&& final(self).gathered() == old(self).gathered().push(tx)
            },
    {
        self.items.push(tx);
        if self.items.len() >= self.size {
            let mut full: Vec<Vec<u8>> = Vec::new();
            std::mem::swap(&mut full, &mut self.items);
            Some(full)
        } else {
            None
        }
    }
}

} // verus!
