//! The transaction builder: on-chain calls, per-transaction chain context,
//! and the signable transaction assembled from them.
//!
//! Gas policy is fixed — a flat unit price and a flat maximum — and the
//! expiration is always the current time plus a fixed window, so a build is
//! deterministic in everything but that derived field. Signing itself needs
//! the chain SDK's key types and stays with the surrounding application.

use vstd::prelude::*;
use vstd::string::StrSliceExecFns;
use vstd::string::StringExecFns;

use crate::account::Identity;
use crate::codec;
use crate::codec::bcs_string;

verus! {

/// Flat maximum gas attached to every transaction.
pub const MAX_GAS_AMOUNT: u64 = 2000;

/// Flat gas unit price attached to every transaction.
pub const GAS_UNIT_PRICE: u64 = 100;

/// Every transaction expires this many seconds after it is built.
pub const EXPIRATION_WINDOW_SECS: u64 = 100;

/// A call into the registry contract: module, entry function, and the
/// already-serialized value arguments (type arguments are always empty).
pub struct Call {
    /// Hex address the contract is deployed under.
    pub module_address: String,
    /// Module name under that address.
    pub module_name: String,
    /// Entry function to invoke.
    pub function_name: String,
    /// Ordered, canonically encoded value arguments.
    pub args: Vec<Vec<u8>>,
}

/// The mathematical content of a [`Call`].
#[verifier::ext_equal]
pub struct CallModel {
    pub module_address: Seq<char>,
    pub module_name: Seq<char>,
    pub function_name: Seq<char>,
    pub args: Seq<Seq<u8>>,
}

impl View for Call {
    type V = CallModel;

    open spec fn view(&self) -> CallModel {
        CallModel {
            module_address: self.module_address@,
            module_name: self.module_name@,
            function_name: self.function_name@,
            args: self.args.deep_view(),
        }
    }
}

impl Call {
    /// The zero-argument `register` call that creates the sender's registry
    /// storage.
    pub fn register(module_address: String) -> (c: Call)
        ensures
            c@ == (CallModel {
                module_address: module_address@,
                module_name: "codecat"@,
                function_name: "register"@,
                args: Seq::empty(),
            }),
    {
        let args: Vec<Vec<u8>> = Vec::new();
        proof {
            assert(args.deep_view() =~= Seq::<Seq<u8>>::empty());
        }
        Call {
            module_address,
            module_name: String::from_str("codecat"),
            function_name: String::from_str("register"),
            args,
        }
    }

    /// The `add_code` call carrying `(name, uri)` as two independently
    /// length-prefix-encoded byte sequences.
    pub fn add_code(module_address: String, name: &str, uri: &str) -> (c: Call)
        ensures
            c@ == (CallModel {
                module_address: module_address@,
                module_name: "codecat"@,
                function_name: "add_code"@,
                args: seq![bcs_string(name@), bcs_string(uri@)],
            }),
    {
        let mut args: Vec<Vec<u8>> = Vec::new();
        args.push(codec::bcs_encode_string(name));
        args.push(codec::bcs_encode_string(uri));
        proof {
            assert(args@[0]@ == bcs_string(name@));
            assert(args@[1]@ == bcs_string(uri@));
            assert(args.deep_view() =~~= seq![bcs_string(name@), bcs_string(uri@)]);
        }
        Call {
            module_address,
            module_name: String::from_str("codecat"),
            function_name: String::from_str("add_code"),
            args,
        }
    }
}

/// Per-transaction chain parameters, derived fresh for every build.
pub struct ChainContext {
    /// Identifier of the network, fetched from it each time.
    pub chain_id: u8,
    /// Absolute expiration: the clock reading at build time plus
    /// [`EXPIRATION_WINDOW_SECS`].
    pub expiration_timestamp_secs: u64,
    /// Always [`MAX_GAS_AMOUNT`].
    pub max_gas_amount: u64,
    /// Always [`GAS_UNIT_PRICE`].
    pub gas_unit_price: u64,
}

impl ChainContext {
    /// Derives the context for one transaction from the fetched chain
    /// identifier and the current unix time.
    pub fn derive(chain_id: u8, now_secs: u64) -> (c: ChainContext)
        requires
            now_secs + EXPIRATION_WINDOW_SECS <= u64::MAX,
        ensures
            c == (ChainContext {
                chain_id,
                expiration_timestamp_secs: (now_secs + EXPIRATION_WINDOW_SECS) as u64,
                max_gas_amount: MAX_GAS_AMOUNT,
                gas_unit_price: GAS_UNIT_PRICE,
            }),
    {
        ChainContext {
            chain_id,
            expiration_timestamp_secs: now_secs + EXPIRATION_WINDOW_SECS,
            max_gas_amount: MAX_GAS_AMOUNT,
            gas_unit_price: GAS_UNIT_PRICE,
        }
    }
}

/// Everything the signer needs: the call plus sender, sequence number, gas
/// policy, expiration and chain identifier.
pub struct SignableTransaction {
    pub sender: String,
    pub sequence_number: u64,
    pub payload: Call,
    pub max_gas_amount: u64,
    pub gas_unit_price: u64,
    pub expiration_timestamp_secs: u64,
    pub chain_id: u8,
}

/// The mathematical content of a [`SignableTransaction`].
#[verifier::ext_equal]
pub struct TransactionModel {
    pub sender: Seq<char>,
    pub sequence_number: nat,
    pub payload: CallModel,
    pub max_gas_amount: u64,
    pub gas_unit_price: u64,
    pub expiration_timestamp_secs: u64,
    pub chain_id: u8,
}

impl View for SignableTransaction {
    type V = TransactionModel;

    open spec fn view(&self) -> TransactionModel {
        TransactionModel {
            sender: self.sender@,
            sequence_number: self.sequence_number as nat,
            payload: self.payload@,
            max_gas_amount: self.max_gas_amount,
            gas_unit_price: self.gas_unit_price,
            expiration_timestamp_secs: self.expiration_timestamp_secs,
            chain_id: self.chain_id,
        }
    }
}

impl SignableTransaction {
    /// Assembles a signable transaction. The sequence number is always the
    /// identity's last known value at construction time.
    pub fn build(identity: &Identity, payload: Call, context: &ChainContext) -> (t:
        SignableTransaction)
        ensures
            t@ == (TransactionModel {
                sender: identity@.address,
                sequence_number: identity@.sequence_number,
                payload: payload@,
                max_gas_amount: context.max_gas_amount,
                gas_unit_price: context.gas_unit_price,
                expiration_timestamp_secs: context.expiration_timestamp_secs,
                chain_id: context.chain_id,
            }),
    {
        SignableTransaction {
            sender: identity.address.clone(),
            sequence_number: identity.sequence_number,
            payload,
            max_gas_amount: context.max_gas_amount,
            gas_unit_price: context.gas_unit_price,
            expiration_timestamp_secs: context.expiration_timestamp_secs,
            chain_id: context.chain_id,
        }
    }
}

/// `s` with a leading `0x` removed, and `s` itself when it has none: the raw
/// storage handle read from a resource carries the prefix, the table item
/// endpoint wants it bare.
pub open spec fn stripped_hex_prefix(s: Seq<char>) -> Seq<char> {
    if s.len() >= 2 && s[0] == '0' && s[1] == 'x' {
        s.skip(2)
    } else {
        s
    }
}

/// Removes a leading `0x` from the storage handle text, if present.
pub fn strip_hex_prefix(s: &str) -> (r: String)
    ensures
        r@ == stripped_hex_prefix(s@),
{
    let n = s.unicode_len();
    if n >= 2 && s.get_char(0) == '0' && s.get_char(1) == 'x' {
        let rest = s.substring_char(2, n);
        proof {
            assert(rest@ =~= s@.skip(2));
        }
        String::from_str(rest)
    } else {
        String::from_str(s)
    }
}

/// The fully qualified resource type of the sender's registry storage.
pub fn code_list_type_tag(module_address: &str) -> (r: String)
    ensures
        r@ == module_address@ + "::codecat::CodeList"@,
{
    String::from_str(module_address).concat("::codecat::CodeList")
}

/// The fully qualified value type of a registry table entry.
pub fn code_type_tag(module_address: &str) -> (r: String)
    ensures
        r@ == module_address@ + "::codecat::Code"@,
{
    String::from_str(module_address).concat("::codecat::Code")
}

/// The key type of the registry table: an on-chain string.
pub fn table_key_type_tag() -> (r: String)
    ensures
        r@ == "0x1::string::String"@,
{
    String::from_str("0x1::string::String")
}

} // verus!
