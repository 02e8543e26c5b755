use vstd::prelude::*;
use vstd::string::StringExecFns;
use base64::Engine;
use solana_sdk::signature::Signer;
use crate::errors::BuildError;
use crate::instructions::{
    AccountPositionModel, ProbeInstruction, ProbeInstructionModel, compute_limit_instruction,
    compute_limit_model, compute_price_instruction, compute_price_model,
    create_random_memo_instruction, memo_model, system_program_id, transfer_data,
    transfer_instruction, transfer_model, valid_marker,
};
use crate::keys::{FreshnessToken, SigningIdentity};

verus! {

/// Process-wide payload configuration, fixed for the process lifetime:
/// the tip recipient and amount, and the compute directives' values.
pub struct ProbeConfig {
    pub tip_address: Vec<u8>,
    pub tip_amount: u64,
    pub compute_limit: u32,
    pub compute_price: u64,
}

/// The mathematical image of a `ProbeConfig`.
#[verifier::ext_equal]
pub ghost struct ProbeConfigModel {
    pub tip_address: Seq<u8>,
    pub tip_amount: u64,
    pub compute_limit: u32,
    pub compute_price: u64,
}

impl View for ProbeConfig {
    type V = ProbeConfigModel;

    open spec fn view(&self) -> ProbeConfigModel {
        ProbeConfigModel {
            tip_address: self.tip_address@,
            tip_amount: self.tip_amount,
            compute_limit: self.compute_limit,
            compute_price: self.compute_price,
        }
    }
}

impl ProbeConfig {
    /// A well-formed configuration names a 32-byte tip address.
    pub open spec fn wf(&self) -> bool {
        self.tip_address@.len() == 32
    }

    /// Accepts exactly a 32-byte tip address; rejects every other length.
    pub fn new(tip_address: Vec<u8>, tip_amount: u64, compute_limit: u32, compute_price: u64) -> (r:
        Option<ProbeConfig>)
        ensures
            r is Some <==> tip_address@.len() == 32,
            r matches Some(c) ==> c@ == (ProbeConfigModel {
                tip_address: tip_address@,
                tip_amount,
                compute_limit,
                compute_price,
            }) && c.wf(),
    {
        if tip_address.len() == 32 {
            Some(ProbeConfig { tip_address, tip_amount, compute_limit, compute_price })
        } else {
            None
        }
    }

    /// Builds a configuration from a base58 tip address, as configuration
    /// text carries it. Returns `None` exactly when the text is not the
    /// base58 form of a 32-byte key.
    pub fn from_base58_tip(tip: &str, tip_amount: u64, compute_limit: u32, compute_price: u64) -> (r:
        Option<ProbeConfig>)
        ensures
            r is Some <==> is_base58_key32(tip@),
            r matches Some(c) ==> c@ == (ProbeConfigModel {
                tip_address: base58_key_of(tip@),
                tip_amount,
                compute_limit,
                compute_price,
            }) && c.wf(),
    {
        match parse_base58_key(tip) {
            Some(key) => Some(ProbeConfig { tip_address: key, tip_amount, compute_limit, compute_price }),
            None => None,
        }
    }
}

/// The serialized, base64-encoded, signed transaction wrapped in its
/// JSON-RPC submission envelope; immutable once built.
#[derive(Debug)]
pub struct SignedEnvelope {
    pub json: String,
}

impl View for SignedEnvelope {
    type V = Seq<char>;

    open spec fn view(&self) -> Seq<char> {
        self.json@
    }
}

impl SignedEnvelope {
    /// The envelope text, ready to be sent as an HTTP request body.
    pub fn as_str(&self) -> (r: &str)
        ensures
            r@ == self@,
    {
        self.json.as_str()
    }
}

/// The base58 decoding of a 32-byte key's text form: a function of the
/// characters alone.
pub uninterp spec fn base58_key_of(s: Seq<char>) -> Seq<u8>;

/// Whether text is the base58 form of exactly 32 bytes: the success
/// condition of solana_sdk's `Pubkey` `FromStr`, a function of the
/// characters alone.
pub uninterp spec fn is_base58_key32(s: Seq<char>) -> bool;

/// Relies on solana_sdk's `Pubkey` `FromStr`: decodes base58 text into the
/// 32 key bytes, a function of the characters alone; errors (never panics)
/// exactly on text that is not the base58 form of 32 bytes.
#[verifier::external_body]
fn parse_base58_key(s: &str) -> (r: Option<Vec<u8>>)
    ensures
        r is Some <==> is_base58_key32(s@),
        r matches Some(k) ==> k@ == base58_key_of(s@) && k@.len() == 32,
{
    match s.parse::<solana_sdk::pubkey::Pubkey>() {
        Ok(key) => Some(key.to_bytes().to_vec()),
        Err(_) => None,
    }
}

/// The declared shape of solana_sdk's `Instruction`, so that a conversion
/// wrapper can hand one back.
#[verifier::external_type_specification]
#[verifier::external_body]
pub struct ExInstruction(solana_sdk::instruction::Instruction);

/// Relies on solana_sdk's `Instruction`, `AccountMeta` and
/// `Pubkey::new_from_array`: carries the program id, account keys and flags,
/// and data bytes across one for one.
#[verifier::external_body]
fn to_sdk_instruction(instruction: &ProbeInstruction) -> solana_sdk::instruction::Instruction
    requires
        instruction.wf(),
{
    let mut metas: Vec<solana_sdk::instruction::AccountMeta> = Vec::new();
    for account in instruction.accounts.iter() {
        let key_bytes: [u8; 32] = account.key.as_slice().try_into().unwrap();
        metas.push(solana_sdk::instruction::AccountMeta {
            pubkey: solana_sdk::pubkey::Pubkey::new_from_array(key_bytes),
            is_signer: account.is_signer,
            is_writable: account.is_writable,
        });
    }
    let program_bytes: [u8; 32] = instruction.program_id.as_slice().try_into().unwrap();
    solana_sdk::instruction::Instruction {
        program_id: solana_sdk::pubkey::Pubkey::new_from_array(program_bytes),
        accounts: metas,
        data: instruction.data.clone(),
    }
}

/// The wire bytes of the signed transaction over the given identity,
/// instruction list and freshness token: message compilation, Ed25519
/// signing and binary serialization are all deterministic, so the bytes are
/// a function of these arguments alone.
pub uninterp spec fn tx_wire(identity: Seq<u8>, instructions: Seq<ProbeInstructionModel>, token: Seq<u8>) -> Seq<u8>;

/// Whether 64 identity bytes form a consistent keypair — the public half
/// equals the key derived from the secret half: the success condition of
/// solana_sdk's `Keypair::try_from`, a function of the bytes alone.
pub uninterp spec fn keypair_consistent(identity: Seq<u8>) -> bool;

/// Relies on solana_sdk's `Keypair::try_from`, `Message::new`,
/// `Transaction::new_unsigned` and `Transaction::try_sign`, and on
/// `bincode::serialize`: compiles the instruction list into a message paid
/// by the identity, signs it over the freshness token, and serializes it;
/// each step is deterministic in the arguments, and each failure comes back
/// as an error, never a panic. The list is required to be one payload's
/// four instructions with a valid marker: message compilation is total on
/// so few account keys, a held keypair's signing cannot fail, and
/// serializing a transaction of this shape cannot fail — every data field
/// stays far below the wire format's 65,535-byte cap — so the one reachable
/// failure is `Keypair::try_from` rejecting inconsistent identity bytes.
#[verifier::external_body]
fn sign_and_serialize(
    identity: &SigningIdentity,
    instructions: &Vec<ProbeInstruction>,
    token: &FreshnessToken,
) -> (r: Result<Vec<u8>, BuildError>)
    requires
        identity.wf(),
        token.wf(),
        forall|i: int| 0 <= i < instructions@.len() ==> (#[trigger] instructions@[i]).wf(),
        exists|m: Seq<u8>, cfg: ProbeConfigModel|
            valid_marker(m) && instructions@.map_values(|i: ProbeInstruction| i@)
                == instruction_list_model(identity@.subrange(32, 64), m, cfg),
    ensures
        r is Ok <==> keypair_consistent(identity@),
        r matches Err(e) ==> e == BuildError::InvalidIdentity,
        r matches Ok(b) ==> b@ == tx_wire(
            identity@,
            instructions@.map_values(|i: ProbeInstruction| i@),
            token@,
        ),
{
    let keypair = solana_sdk::signature::Keypair::try_from(identity.bytes.as_slice())
        .map_err(|_| BuildError::InvalidIdentity)?;
    let mut converted: Vec<solana_sdk::instruction::Instruction> = Vec::new();
    for instruction in instructions.iter() {
        converted.push(to_sdk_instruction(instruction));
    }
    let message = solana_sdk::message::Message::new(&converted, Some(&keypair.pubkey()));
    let mut tx = solana_sdk::transaction::Transaction::new_unsigned(message);
    let hash_bytes: [u8; 32] = token.bytes.as_slice().try_into()
        .map_err(|_| BuildError::Signing)?;
    tx.try_sign(&[&keypair], solana_sdk::hash::Hash::new_from_array(hash_bytes))
        .map_err(|_| BuildError::Signing)?;
    bincode::serialize(&tx).map_err(|_| BuildError::Serialization)
}

/// The base64 text of a byte sequence under the standard alphabet with
/// padding: a function of the bytes alone.
pub uninterp spec fn base64_of(bytes: Seq<u8>) -> Seq<char>;

/// Relies on base64's `BASE64_STANDARD` engine: encodes the bytes under the
/// standard alphabet with padding, a function of the bytes alone.
#[verifier::external_body]
fn base64_encode(bytes: &Vec<u8>) -> (r: String)
    ensures
        r@ == base64_of(bytes@),
{
    base64::prelude::BASE64_STANDARD.encode(bytes.as_slice())
}

/// The JSON-RPC request that submits an encoded transaction: method
/// `sendTransaction`, parameters the encoded text and the options object
/// asking for base64 encoding with preflight skipped.
pub open spec fn envelope_json(encoded: Seq<char>) -> Seq<char> {
    "{\"jsonrpc\":\"2.0\",\"id\":1,\"method\":\"sendTransaction\",\"params\":[\""@ + encoded
        + "\",{\"encoding\":\"base64\",\"skipPreflight\":true}]}"@
}

/// Wraps encoded transaction text in the JSON-RPC submission envelope.
/// Base64 text never needs JSON escaping, so plain splicing yields valid
/// JSON.
pub fn wrap_envelope(encoded: &str) -> (r: String)
    ensures
        r@ == envelope_json(encoded@),
{
    let mut out = String::new();
    out.append("{\"jsonrpc\":\"2.0\",\"id\":1,\"method\":\"sendTransaction\",\"params\":[\"");
    out.append(encoded);
    out.append("\",{\"encoding\":\"base64\",\"skipPreflight\":true}]}");
    out
}

/// The ordered instruction list of one payload: compute-limit directive,
/// compute-price directive, uniqueness marker, value transfer — directives
/// first, per the relay's processing contract.
pub open spec fn instruction_list_model(pk: Seq<u8>, marker: Seq<u8>, cfg: ProbeConfigModel) -> Seq<
    ProbeInstructionModel,
> {
    seq![
        compute_limit_model(cfg.compute_limit),
        compute_price_model(cfg.compute_price),
        memo_model(pk, marker),
        transfer_model(pk, cfg.tip_address, cfg.tip_amount),
    ]
}

/// The full envelope a successful build returns, as a function of the
/// identity bytes, the marker drawn, the freshness token and the
/// configuration.
pub open spec fn envelope_model(
    identity: Seq<u8>,
    marker: Seq<u8>,
    token: Seq<u8>,
    cfg: ProbeConfigModel,
) -> Seq<char> {
    envelope_json(
        base64_of(
            tx_wire(identity, instruction_list_model(identity.subrange(32, 64), marker, cfg), token),
        ),
    )
}

/// Law: every built instruction list holds exactly four instructions, in
/// the order compute-limit directive, compute-price directive, uniqueness
/// marker, value transfer — whatever the signer, marker and configuration.
pub proof fn lemma_instruction_order(pk: Seq<u8>, marker: Seq<u8>, cfg: ProbeConfigModel)
    ensures
        instruction_list_model(pk, marker, cfg).len() == 4,
        instruction_list_model(pk, marker, cfg)[0] == compute_limit_model(cfg.compute_limit),
        instruction_list_model(pk, marker, cfg)[1] == compute_price_model(cfg.compute_price),
        instruction_list_model(pk, marker, cfg)[2] == memo_model(pk, marker),
        instruction_list_model(pk, marker, cfg)[3] == transfer_model(
            pk,
            cfg.tip_address,
            cfg.tip_amount,
        ),
{
}

/// Law: the transfer instruction moves exactly the configured tip amount to
/// the configured tip address — its data bytes encode that amount, its
/// recipient account is the configured address — independent of the signing
/// identity and the marker.
pub proof fn lemma_transfer_fixed_tip(
    pk1: Seq<u8>,
    pk2: Seq<u8>,
    m1: Seq<u8>,
    m2: Seq<u8>,
    cfg: ProbeConfigModel,
)
    ensures
        instruction_list_model(pk1, m1, cfg)[3].program_id == system_program_id(),
        instruction_list_model(pk1, m1, cfg)[3].data == transfer_data(cfg.tip_amount),
        instruction_list_model(pk1, m1, cfg)[3].accounts[1] == (AccountPositionModel {
            key: cfg.tip_address,
            is_signer: false,
            is_writable: true,
        }),
        instruction_list_model(pk1, m1, cfg)[3].data == instruction_list_model(pk2, m2, cfg)[3].data,
        instruction_list_model(pk1, m1, cfg)[3].accounts[1] == instruction_list_model(
            pk2,
            m2,
            cfg,
        )[3].accounts[1],
{
}

/// Builds one transport-ready payload: assembles the ordered instruction
/// list with a fresh uniqueness marker, signs it over the freshness token,
/// serializes it, base64-encodes the bytes and wraps them in the JSON-RPC
/// submission envelope. It succeeds exactly when the identity bytes form a
/// consistent keypair — the one failure signing or serialization can reach —
/// and on failure no partial payload is ever returned.
pub fn build(identity: &SigningIdentity, token: &FreshnessToken, config: &ProbeConfig) -> (r:
    Result<SignedEnvelope, BuildError>)
    requires
        identity.wf(),
        token.wf(),
        config.wf(),
    ensures
        r is Ok <==> keypair_consistent(identity@),
        r matches Err(e) ==> e == BuildError::InvalidIdentity,
        r matches Ok(env) ==> exists|m: Seq<u8>|
            valid_marker(m) && env@ == envelope_model(identity@, m, token@, config@),
{
    let pk = identity.pubkey();
    let limit_instruction = compute_limit_instruction(config.compute_limit);
    let price_instruction = compute_price_instruction(config.compute_price);
    let memo_instruction = create_random_memo_instruction(&pk);
    let ghost marker = memo_instruction@.data;
    let tip_instruction = transfer_instruction(&pk, &config.tip_address, config.tip_amount);
    let mut instructions: Vec<ProbeInstruction> = Vec::new();
    instructions.push(limit_instruction);
    instructions.push(price_instruction);
    instructions.push(memo_instruction);
    instructions.push(tip_instruction);
    proof {
        assert(instructions@.map_values(|i: ProbeInstruction| i@) =~= instruction_list_model(
            identity@.subrange(32, 64),
            marker,
            config@,
        ));
        assert(exists|m: Seq<u8>, cfg: ProbeConfigModel|
            valid_marker(m) && instructions@.map_values(|i: ProbeInstruction| i@)
                == instruction_list_model(identity@.subrange(32, 64), m, cfg)) by {
            assert(valid_marker(marker) && instructions@.map_values(|i: ProbeInstruction| i@)
                == instruction_list_model(identity@.subrange(32, 64), marker, config@));
        }
    }
    let wire = match sign_and_serialize(identity, &instructions, token) {
        Ok(w) => w,
        Err(e) => {
            return Err(e);
        },
    };
    let encoded = base64_encode(&wire);
    let env = SignedEnvelope { json: wrap_envelope(encoded.as_str()) };
    proof {
        assert(valid_marker(marker) && env@ == envelope_model(identity@, marker, token@, config@));
    }
    Ok(env)
}

} // verus!
