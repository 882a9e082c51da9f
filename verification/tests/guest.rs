use falcon_lib::{
    assemble_record, decode, generate_keys, guest_output, read_inputs, run_guest, sign_message,
    verify_inputs, ExecutionInputs, FramingError, PublicRecord,
};

const MESSAGE: &[u8] = b"Hello, SP1";

fn signed() -> (Vec<u8>, Vec<u8>) {
    let (sign_key, vrfy_key) = generate_keys();
    let sig = sign_message(&sign_key, MESSAGE).unwrap();
    (vrfy_key, sig)
}

#[test]
fn read_inputs_takes_three_buffers_in_order() {
    let got = read_inputs(vec![vec![1], vec![2, 2], vec![3, 3, 3]]).unwrap();
    assert_eq!(
        got,
        ExecutionInputs { vrfy_key: vec![1], signature: vec![2, 2], msg: vec![3, 3, 3] }
    );
}

#[test]
fn read_inputs_refuses_too_few_buffers() {
    assert_eq!(read_inputs(vec![]), Err(FramingError::TooFew));
    assert_eq!(read_inputs(vec![vec![1]]), Err(FramingError::TooFew));
    assert_eq!(read_inputs(vec![vec![1], vec![2]]), Err(FramingError::TooFew));
}

#[test]
fn read_inputs_refuses_too_many_buffers() {
    assert_eq!(
        read_inputs(vec![vec![1], vec![2], vec![3], vec![4]]),
        Err(FramingError::TooMany)
    );
}

#[test]
fn guest_refuses_two_buffers() {
    let (vrfy_key, sig) = signed();
    assert_eq!(run_guest(vec![vrfy_key, sig]), Err(FramingError::TooFew));
}

#[test]
fn guest_refuses_four_buffers() {
    let (vrfy_key, sig) = signed();
    assert_eq!(
        run_guest(vec![vrfy_key, sig, MESSAGE.to_vec(), vec![]]),
        Err(FramingError::TooMany)
    );
}

#[test]
fn assemble_record_keeps_inputs_and_flag() {
    let inputs = ExecutionInputs { vrfy_key: vec![1], signature: vec![2], msg: vec![3] };
    assert_eq!(
        assemble_record(inputs.clone(), true),
        PublicRecord { vrfy_key: vec![1], signature: vec![2], msg: vec![3], verified: true }
    );
    assert_eq!(
        assemble_record(inputs, false),
        PublicRecord { vrfy_key: vec![1], signature: vec![2], msg: vec![3], verified: false }
    );
}

#[test]
fn guest_commits_a_verified_record_for_a_good_signature() {
    let (vrfy_key, sig) = signed();
    let out = run_guest(vec![vrfy_key.clone(), sig.clone(), MESSAGE.to_vec()]).unwrap();
    let record = decode(&out).unwrap();
    assert_eq!(
        record,
        PublicRecord { vrfy_key, signature: sig, msg: MESSAGE.to_vec(), verified: true }
    );
}

#[test]
fn guest_commits_not_verified_under_an_unrelated_key() {
    let (_, sig) = signed();
    let (_, other_key) = generate_keys();
    let out = run_guest(vec![other_key.clone(), sig.clone(), MESSAGE.to_vec()]).unwrap();
    let record = decode(&out).unwrap();
    assert_eq!(
        record,
        PublicRecord { vrfy_key: other_key, signature: sig, msg: MESSAGE.to_vec(), verified: false }
    );
}

#[test]
fn guest_commits_not_verified_for_a_malformed_key() {
    let (vrfy_key, sig) = signed();
    for key in [vec![], vrfy_key[..500].to_vec(), vec![0xFFu8; 897]] {
        let out = run_guest(vec![key.clone(), sig.clone(), MESSAGE.to_vec()]).unwrap();
        let record = decode(&out).unwrap();
        assert_eq!(
            record,
            PublicRecord { vrfy_key: key, signature: sig.clone(), msg: MESSAGE.to_vec(), verified: false }
        );
    }
}

#[test]
fn guest_commits_not_verified_when_buffers_are_swapped() {
    let (vrfy_key, sig) = signed();
    let out = run_guest(vec![sig, vrfy_key, MESSAGE.to_vec()]).unwrap();
    assert!(!decode(&out).unwrap().verified);
}

#[test]
fn verify_inputs_sets_the_flag_by_verification() {
    let (vrfy_key, sig) = signed();
    let good = ExecutionInputs {
        vrfy_key: vrfy_key.clone(),
        signature: sig.clone(),
        msg: MESSAGE.to_vec(),
    };
    assert!(verify_inputs(good).verified);
    let bad = ExecutionInputs { vrfy_key, signature: sig, msg: b"Hello, SP2".to_vec() };
    let record = verify_inputs(bad);
    assert!(!record.verified);
    assert_eq!(record.msg, b"Hello, SP2".to_vec());
}

#[test]
fn guest_output_is_the_encoding_of_the_record() {
    let inputs = ExecutionInputs { vrfy_key: vec![9], signature: vec![], msg: vec![1, 2] };
    let out = guest_output(inputs);
    assert_eq!(out.len(), 160 + 64 + 32 + 64);
    assert_eq!(
        decode(&out),
        Ok(PublicRecord { vrfy_key: vec![9], signature: vec![], msg: vec![1, 2], verified: false })
    );
}
