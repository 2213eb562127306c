use bundler_core::address::Address;
use bundler_core::codec::{get_entry_point_user_operation_payload, UserOperation};
use bundler_core::errors::ApiError;

fn sample_op() -> UserOperation {
    UserOperation {
        sender: Address::new(vec![0x11; 20]).unwrap(),
        nonce: 42,
        init_code: Vec::new(),
        calldata: vec![0xde, 0xad, 0xbe, 0xef],
        call_gas_limit: 100000,
        verification_gas_limit: 150000,
        pre_verification_gas: 21000,
        max_fee_per_gas: 30,
        max_priority_fee_per_gas: 2,
        signature: vec![0x01, 0x02],
        paymaster_and_data: Vec::new(),
    }
}

#[test]
fn translate_scenario_widens_and_passes_bytes_through() {
    let p = get_entry_point_user_operation_payload(sample_op()).unwrap();
    assert_eq!(p.nonce.low_u64(), 42);
    assert_eq!(p.call_gas_limit.low_u64(), 100000);
    assert!(p.init_code.is_empty());
    assert_eq!(p.call_data, vec![0xde, 0xad, 0xbe, 0xef]);
    assert_eq!(p.sender.bytes, vec![0x11; 20]);
}

#[test]
fn translate_round_trips_every_integer_field() {
    let op = sample_op();
    let p = get_entry_point_user_operation_payload(op.clone()).unwrap();
    assert_eq!(p.nonce.low_u64() as i64, op.nonce);
    assert_eq!(p.call_gas_limit.low_u64() as i64, op.call_gas_limit);
    assert_eq!(p.verification_gas_limit.low_u64() as i64, op.verification_gas_limit);
    assert_eq!(p.pre_verification_gas.low_u64() as i64, op.pre_verification_gas);
    assert_eq!(p.max_fee_per_gas.low_u64() as i64, op.max_fee_per_gas);
    assert_eq!(p.max_priority_fee_per_gas.low_u64() as i64, op.max_priority_fee_per_gas);
    assert_eq!(p.init_code, op.init_code);
    assert_eq!(p.call_data, op.calldata);
    assert_eq!(p.signature, op.signature);
    assert_eq!(p.paymaster_and_data, op.paymaster_and_data);
    assert_eq!(p.nonce.limb1, 0);
    assert_eq!(p.nonce.limb2, 0);
    assert_eq!(p.nonce.limb3, 0);
}

#[test]
fn translate_twice_gives_field_wise_equal_results() {
    let op = sample_op();
    let p1 = get_entry_point_user_operation_payload(op.clone()).unwrap();
    let p2 = get_entry_point_user_operation_payload(op).unwrap();
    assert_eq!(p1.sender.bytes, p2.sender.bytes);
    assert_eq!(p1.nonce, p2.nonce);
    assert_eq!(p1.init_code, p2.init_code);
    assert_eq!(p1.call_data, p2.call_data);
    assert_eq!(p1.call_gas_limit, p2.call_gas_limit);
    assert_eq!(p1.verification_gas_limit, p2.verification_gas_limit);
    assert_eq!(p1.pre_verification_gas, p2.pre_verification_gas);
    assert_eq!(p1.max_fee_per_gas, p2.max_fee_per_gas);
    assert_eq!(p1.max_priority_fee_per_gas, p2.max_priority_fee_per_gas);
    assert_eq!(p1.signature, p2.signature);
    assert_eq!(p1.paymaster_and_data, p2.paymaster_and_data);
}

#[test]
fn translate_nonce_at_source_maximum_is_lossless() {
    let mut op = sample_op();
    op.nonce = i64::MAX;
    let p = get_entry_point_user_operation_payload(op).unwrap();
    assert_eq!(p.nonce.low_u64(), i64::MAX as u64);
    assert_eq!(p.nonce.limb1, 0);
    assert_eq!(p.nonce.limb2, 0);
    assert_eq!(p.nonce.limb3, 0);
}

#[test]
fn translate_keeps_empty_byte_fields_empty() {
    let mut op = sample_op();
    op.init_code = Vec::new();
    op.paymaster_and_data = Vec::new();
    let p = get_entry_point_user_operation_payload(op).unwrap();
    assert!(p.init_code.is_empty());
    assert!(p.paymaster_and_data.is_empty());
}

#[test]
fn translate_rejects_each_negative_field() {
    for field in 0..6 {
        let mut op = sample_op();
        match field {
            0 => op.nonce = -1,
            1 => op.call_gas_limit = -1,
            2 => op.verification_gas_limit = -5,
            3 => op.pre_verification_gas = i64::MIN,
            4 => op.max_fee_per_gas = -100,
            _ => op.max_priority_fee_per_gas = -2,
        }
        let r = get_entry_point_user_operation_payload(op);
        assert_eq!(r.unwrap_err(), ApiError::InvalidFieldValue);
    }
}

#[test]
fn translate_zero_values_widen_to_zero() {
    let mut op = sample_op();
    op.nonce = 0;
    op.max_priority_fee_per_gas = 0;
    let p = get_entry_point_user_operation_payload(op).unwrap();
    assert_eq!(p.nonce.low_u64(), 0);
    assert_eq!(p.max_priority_fee_per_gas.low_u64(), 0);
}
