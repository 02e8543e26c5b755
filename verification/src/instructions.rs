use vstd::prelude::*;
use vstd::bytes::{spec_u32_to_le_bytes, spec_u64_to_le_bytes, u32_to_le_bytes, u64_to_le_bytes};
use rand::Rng;

verus! {

/// True of a byte that is an ASCII alphanumeric character: one of
/// `A`..`Z`, `a`..`z` or `0`..`9`.
pub open spec fn is_alnum_byte(b: u8) -> bool {
    (65 <= b <= 90) || (97 <= b <= 122) || (48 <= b <= 57)
}

/// Executable check that a byte is ASCII alphanumeric.
pub fn alnum_byte(b: u8) -> (r: bool)
    ensures
        r == is_alnum_byte(b),
{
    (65 <= b && b <= 90) || (97 <= b && b <= 122) || (48 <= b && b <= 57)
}

/// A valid uniqueness marker: exactly 8 bytes, each ASCII alphanumeric.
pub open spec fn valid_marker(m: Seq<u8>) -> bool {
    m.len() == 8 && (forall|i: int| 0 <= i < 8 ==> is_alnum_byte(m[i]))
}

/// Relies on rand's `thread_rng` sampling the `Alphanumeric` distribution:
/// every sampled byte is ASCII alphanumeric (`A`..`Z`, `a`..`z`, `0`..`9`).
/// The draw is random, so nothing further is assumed of which bytes come out.
#[verifier::external_body]
fn random_alphanumeric_bytes() -> (r: Vec<u8>)
    ensures
        valid_marker(r@),
{
    let marker: Vec<u8> = rand::thread_rng()
        .sample_iter(&rand::distributions::Alphanumeric)
        .take(8)
        .collect();
    marker
}

/// One account reference carried by an instruction: a 32-byte key plus the
/// signer and writability flags the relay's network contract requires.
pub struct AccountPosition {
    pub key: Vec<u8>,
    pub is_signer: bool,
    pub is_writable: bool,
}

/// The mathematical image of an `AccountPosition`.
#[verifier::ext_equal]
pub ghost struct AccountPositionModel {
    pub key: Seq<u8>,
    pub is_signer: bool,
    pub is_writable: bool,
}

impl View for AccountPosition {
    type V = AccountPositionModel;

    open spec fn view(&self) -> AccountPositionModel {
        AccountPositionModel { key: self.key@, is_signer: self.is_signer, is_writable: self.is_writable }
    }
}

/// One operation descriptor of the ordered instruction set: the program it
/// addresses, the accounts it touches, and its opaque data bytes.
pub struct ProbeInstruction {
    pub program_id: Vec<u8>,
    pub accounts: Vec<AccountPosition>,
    pub data: Vec<u8>,
}

/// The mathematical image of a `ProbeInstruction`.
#[verifier::ext_equal]
pub ghost struct ProbeInstructionModel {
    pub program_id: Seq<u8>,
    pub accounts: Seq<AccountPositionModel>,
    pub data: Seq<u8>,
}

impl View for ProbeInstruction {
    type V = ProbeInstructionModel;

    open spec fn view(&self) -> ProbeInstructionModel {
        ProbeInstructionModel {
            program_id: self.program_id@,
            accounts: self.accounts@.map_values(|a: AccountPosition| a@),
            data: self.data@,
        }
    }
}

impl ProbeInstruction {
    /// Every key the instruction names is exactly 32 bytes long.
    pub open spec fn wf(&self) -> bool {
        &&& self.program_id@.len() == 32
        &&& forall|i: int| 0 <= i < self.accounts@.len() ==> (#[trigger] self.accounts@[i])@.key.len() == 32
    }
}

/// The compute-budget program's address
/// (base58 `ComputeBudget111111111111111111111111111111`).
pub open spec fn compute_budget_program_id() -> Seq<u8> {
    seq![
        3u8, 6, 70, 111, 229, 33, 23, 50,
        255, 236, 173, 186, 114, 195, 155, 231,
        188, 140, 229, 187, 197, 247, 18, 107,
        44, 67, 155, 58, 64, 0, 0, 0,
    ]
}

/// The memo program's address
/// (base58 `MemoSq4gqABAXKb96qnH8TysNcWxMyWCqXgDLGmfcHr`).
pub open spec fn memo_program_id() -> Seq<u8> {
    seq![
        5u8, 74, 83, 90, 153, 41, 33, 6,
        77, 36, 232, 113, 96, 218, 56, 124,
        124, 53, 181, 221, 188, 146, 187, 129,
        228, 31, 168, 64, 65, 5, 68, 141,
    ]
}

/// The system program's address: 32 zero bytes
/// (base58 `11111111111111111111111111111111`).
pub open spec fn system_program_id() -> Seq<u8> {
    seq![
        0u8, 0, 0, 0, 0, 0, 0, 0,
        0, 0, 0, 0, 0, 0, 0, 0,
        0, 0, 0, 0, 0, 0, 0, 0,
        0, 0, 0, 0, 0, 0, 0, 0,
    ]
}

/// The compute-budget program's address as bytes.
pub fn compute_budget_program_key() -> (r: Vec<u8>)
    ensures
        r@ == compute_budget_program_id(),
{
    let mut v: Vec<u8> = Vec::new();
    v.push(3); v.push(6); v.push(70); v.push(111); v.push(229); v.push(33); v.push(23); v.push(50);
    v.push(255); v.push(236); v.push(173); v.push(186); v.push(114); v.push(195); v.push(155); v.push(231);
    v.push(188); v.push(140); v.push(229); v.push(187); v.push(197); v.push(247); v.push(18); v.push(107);
    v.push(44); v.push(67); v.push(155); v.push(58); v.push(64); v.push(0); v.push(0); v.push(0);
    proof {
        assert(v@ =~= compute_budget_program_id());
    }
    v
}

/// The memo program's address as bytes.
pub fn memo_program_key() -> (r: Vec<u8>)
    ensures
        r@ == memo_program_id(),
{
    let mut v: Vec<u8> = Vec::new();
    v.push(5); v.push(74); v.push(83); v.push(90); v.push(153); v.push(41); v.push(33); v.push(6);
    v.push(77); v.push(36); v.push(232); v.push(113); v.push(96); v.push(218); v.push(56); v.push(124);
    v.push(124); v.push(53); v.push(181); v.push(221); v.push(188); v.push(146); v.push(187); v.push(129);
    v.push(228); v.push(31); v.push(168); v.push(64); v.push(65); v.push(5); v.push(68); v.push(141);
    proof {
        assert(v@ =~= memo_program_id());
    }
    v
}

/// The system program's address as bytes.
pub fn system_program_key() -> (r: Vec<u8>)
    ensures
        r@ == system_program_id(),
{
    let mut v: Vec<u8> = Vec::new();
    let mut i: usize = 0;
    while i < 32
        invariant
            i <= 32,
            v@.len() == i,
            forall|j: int| 0 <= j < i ==> v@[j] == 0u8,
        decreases 32 - i,
    {
        v.push(0);
        i += 1;
    }
    proof {
        assert(v@ =~= system_program_id());
    }
    v
}

/// Data bytes of a compute-unit-limit directive: the discriminant byte 2
/// followed by the limit, little endian.
pub open spec fn compute_limit_data(limit: u32) -> Seq<u8> {
    seq![2u8] + spec_u32_to_le_bytes(limit)
}

/// Data bytes of a compute-unit-price directive: the discriminant byte 3
/// followed by the price, little endian.
pub open spec fn compute_price_data(price: u64) -> Seq<u8> {
    seq![3u8] + spec_u64_to_le_bytes(price)
}

/// Data bytes of a system transfer: the four-byte little-endian variant
/// index 2 followed by the amount, little endian.
pub open spec fn transfer_data(amount: u64) -> Seq<u8> {
    seq![2u8, 0u8, 0u8, 0u8] + spec_u64_to_le_bytes(amount)
}

/// The compute-unit-limit directive, as an instruction model.
pub open spec fn compute_limit_model(limit: u32) -> ProbeInstructionModel {
    ProbeInstructionModel {
        program_id: compute_budget_program_id(),
        accounts: Seq::empty(),
        data: compute_limit_data(limit),
    }
}

/// The compute-unit-price directive, as an instruction model.
pub open spec fn compute_price_model(price: u64) -> ProbeInstructionModel {
    ProbeInstructionModel {
        program_id: compute_budget_program_id(),
        accounts: Seq::empty(),
        data: compute_price_data(price),
    }
}

/// The uniqueness-marker operation: a memo addressed to the signer, whose
/// data bytes are the marker itself.
pub open spec fn memo_model(signer: Seq<u8>, marker: Seq<u8>) -> ProbeInstructionModel {
    ProbeInstructionModel {
        program_id: memo_program_id(),
        accounts: seq![AccountPositionModel { key: signer, is_signer: true, is_writable: true }],
        data: marker,
    }
}

/// The value-transfer operation: moves `amount` from `from` to `to` through
/// the system program; the funding account signs, both accounts are written.
pub open spec fn transfer_model(from: Seq<u8>, to: Seq<u8>, amount: u64) -> ProbeInstructionModel {
    ProbeInstructionModel {
        program_id: system_program_id(),
        accounts: seq![
            AccountPositionModel { key: from, is_signer: true, is_writable: true },
            AccountPositionModel { key: to, is_signer: false, is_writable: true },
        ],
        data: transfer_data(amount),
    }
}

/// Builds the compute-unit-limit directive for a fixed configured limit.
pub fn compute_limit_instruction(limit: u32) -> (r: ProbeInstruction)
    ensures
        r@ == compute_limit_model(limit),
        r.wf(),
{
    let mut data: Vec<u8> = Vec::new();
    data.push(2);
    let mut le = u32_to_le_bytes(limit);
    data.append(&mut le);
    let r = ProbeInstruction { program_id: compute_budget_program_key(), accounts: Vec::new(), data };
    proof {
        assert(r@.accounts =~= compute_limit_model(limit).accounts);
        assert(r@.data =~= compute_limit_data(limit));
        assert(r@ =~= compute_limit_model(limit));
    }
    r
}

/// Builds the compute-unit-price directive for a fixed configured price.
pub fn compute_price_instruction(price: u64) -> (r: ProbeInstruction)
    ensures
        r@ == compute_price_model(price),
        r.wf(),
{
    let mut data: Vec<u8> = Vec::new();
    data.push(3);
    let mut le = u64_to_le_bytes(price);
    data.append(&mut le);
    let r = ProbeInstruction { program_id: compute_budget_program_key(), accounts: Vec::new(), data };
    proof {
        assert(r@.accounts =~= compute_price_model(price).accounts);
        assert(r@.data =~= compute_price_data(price));
        assert(r@ =~= compute_price_model(price));
    }
    r
}

/// Builds the uniqueness-marker operation: a memo addressed to the signer's
/// own key carrying 8 fresh random alphanumeric bytes. Two builds return
/// markers drawn independently; nothing relates one draw to the next.
pub fn create_random_memo_instruction(signer: &Vec<u8>) -> (r: ProbeInstruction)
    requires
        signer@.len() == 32,
    ensures
        r@ == memo_model(signer@, r@.data),
        valid_marker(r@.data),
        r.wf(),
{
    let marker = random_alphanumeric_bytes();
    let mut accounts: Vec<AccountPosition> = Vec::new();
    accounts.push(AccountPosition {
        key: vstd::slice::slice_to_vec(signer.as_slice()),
        is_signer: true,
        is_writable: true,
    });
    let r = ProbeInstruction { program_id: memo_program_key(), accounts, data: marker };
    proof {
        assert(r@.accounts =~= memo_model(signer@, r@.data).accounts);
        assert(r@ =~= memo_model(signer@, r@.data));
    }
    r
}

/// Builds the value-transfer operation moving `amount` from `from` to `to`.
pub fn transfer_instruction(from: &Vec<u8>, to: &Vec<u8>, amount: u64) -> (r: ProbeInstruction)
    requires
        from@.len() == 32,
        to@.len() == 32,
    ensures
        r@ == transfer_model(from@, to@, amount),
        r.wf(),
{
    let mut data: Vec<u8> = Vec::new();
    data.push(2);
    data.push(0);
    data.push(0);
    data.push(0);
    let mut le = u64_to_le_bytes(amount);
    data.append(&mut le);
    let mut accounts: Vec<AccountPosition> = Vec::new();
    accounts.push(AccountPosition {
        key: vstd::slice::slice_to_vec(from.as_slice()),
        is_signer: true,
        is_writable: true,
    });
    accounts.push(AccountPosition {
        key: vstd::slice::slice_to_vec(to.as_slice()),
        is_signer: false,
        is_writable: true,
    });
    let r = ProbeInstruction { program_id: system_program_key(), accounts, data };
    proof {
        assert(r@.accounts =~= transfer_model(from@, to@, amount).accounts);
        assert(r@.data =~= transfer_data(amount));
        assert(r@ =~= transfer_model(from@, to@, amount));
    }
    r
}

} // verus!
