use codecat::account::Identity;
use codecat::txn::{
    code_list_type_tag, code_type_tag, strip_hex_prefix, table_key_type_tag, Call, ChainContext,
    SignableTransaction,
};

fn identity() -> Identity {
    let key = "cd".repeat(32);
    Identity::load(&key, String::from("0xsender")).unwrap()
}

#[test]
fn register_call_shape() {
    let c = Call::register(String::from("0xcafe"));
    assert_eq!(c.module_address, "0xcafe");
    assert_eq!(c.module_name, "codecat");
    assert_eq!(c.function_name, "register");
    assert!(c.args.is_empty());
}

#[test]
fn add_code_call_arguments_are_independently_length_prefixed() {
    let c = Call::add_code(String::from("0xcafe"), "alpha", "https://example.com/a");
    assert_eq!(c.module_name, "codecat");
    assert_eq!(c.function_name, "add_code");
    assert_eq!(c.args.len(), 2);
    assert_eq!(c.args[0], vec![5u8, b'a', b'l', b'p', b'h', b'a']);
    let mut uri_expected = vec![21u8];
    uri_expected.extend_from_slice(b"https://example.com/a");
    assert_eq!(c.args[1], uri_expected);
}

#[test]
fn add_code_encoding_of_one_argument_ignores_the_other() {
    let a = Call::add_code(String::from("0xcafe"), "alpha", "https://example.com/a");
    let b = Call::add_code(String::from("0xcafe"), "alpha", "entirely different");
    assert_eq!(a.args[0], b.args[0]);
    let c = Call::add_code(String::from("0xcafe"), "", "");
    assert_eq!(c.args[0], vec![0u8]);
    assert_eq!(c.args[1], vec![0u8]);
}

#[test]
fn add_code_arguments_match_reference_encoder() {
    let c = Call::add_code(String::from("0xcafe"), "naïve✓", "https://x.io/ü");
    assert_eq!(c.args[0], bcs::to_bytes(&"naïve✓".as_bytes().to_vec()).unwrap());
    assert_eq!(c.args[1], bcs::to_bytes(&"https://x.io/ü".as_bytes().to_vec()).unwrap());
}

#[test]
fn chain_context_policy_constants() {
    let ctx = ChainContext::derive(4, 1_700_000_000);
    assert_eq!(ctx.chain_id, 4);
    assert_eq!(ctx.expiration_timestamp_secs, 1_700_000_100);
    assert_eq!(ctx.max_gas_amount, 2000);
    assert_eq!(ctx.gas_unit_price, 100);
}

#[test]
fn build_copies_identity_and_context() {
    let mut id = identity();
    id.refresh_sequence_number(41);
    let ctx = ChainContext::derive(4, 1_700_000_000);
    let call = Call::register(String::from("0xcafe"));
    let t = SignableTransaction::build(&id, call, &ctx);
    assert_eq!(t.sender, "0xsender");
    assert_eq!(t.sequence_number, 41);
    assert_eq!(t.payload.function_name, "register");
    assert_eq!(t.max_gas_amount, 2000);
    assert_eq!(t.gas_unit_price, 100);
    assert_eq!(t.expiration_timestamp_secs, 1_700_000_100);
    assert_eq!(t.chain_id, 4);
    assert_eq!(id.sequence_number, 41);
}

#[test]
fn strip_hex_prefix_cases() {
    assert_eq!(strip_hex_prefix("0xabc"), "abc");
    assert_eq!(strip_hex_prefix("abc"), "abc");
    assert_eq!(strip_hex_prefix("0x"), "");
    assert_eq!(strip_hex_prefix(""), "");
    assert_eq!(strip_hex_prefix("x0abc"), "x0abc");
}

#[test]
fn type_tags() {
    assert_eq!(code_list_type_tag("0xcafe"), "0xcafe::codecat::CodeList");
    assert_eq!(code_type_tag("0xcafe"), "0xcafe::codecat::Code");
    assert_eq!(table_key_type_tag(), "0x1::string::String");
}
