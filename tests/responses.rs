use kms_connector::conn::{
    next_retry_step, ConnectionExhausted, ConnectionTarget, RetryStep, CONNECTION_RETRY_NUMBER,
};
use kms_connector::decryption_id::DecryptionId;
use kms_connector::kms_response::{DecodeError, KmsResponse, PendingEvent, ResponseRow, RowColumn};
use kms_connector::processor::{
    abi_encode_plaintexts, serialize_user_payload, KmsGrpcResponse, ProcessingError,
    PublicDecryptionResponse, PublicDecryptionResponsePayload, TypedPlaintext,
    TypedSigncryptedCiphertext, UserDecryptionResponse, UserDecryptionResponsePayload,
};
use kms_connector::publisher::{
    insert_statement, publish_decision, InsertOutcome, PublishDecision, ResponseStore, ResponseTable,
};

fn id(n: u8) -> DecryptionId {
    let mut b = [0u8; 32];
    b[0] = n;
    DecryptionId::from_le_bytes(b)
}

fn public(n: u8, result: Vec<u8>, sig: Vec<u8>) -> KmsResponse {
    KmsResponse::PublicDecryption { decryption_id: id(n), decrypted_result: result, signature: sig }
}

fn user(n: u8, shares: Vec<u8>, sig: Vec<u8>) -> KmsResponse {
    KmsResponse::UserDecryption { decryption_id: id(n), user_decrypted_shares: shares, signature: sig }
}

fn word(last: &[u8]) -> Vec<u8> {
    let mut w = vec![0u8; 32 - last.len()];
    w.extend_from_slice(last);
    w
}

#[test]
fn idempotent_publish() {
    let mut store = ResponseStore::new();
    let resp = public(42, vec![1, 2, 3], vec![9, 9]);
    let stmt = insert_statement(&resp);
    assert_eq!(store.execute(&stmt), 1);
    assert_eq!(publish_decision(&resp, InsertOutcome::RowsAffected(1)), PublishDecision::Stored);
    let second = store.execute(&stmt);
    assert_eq!(second, 0);
    assert_eq!(store.rows_with_id(ResponseTable::PublicDecryptionResponses, &id(42)), 1);
    let decision = publish_decision(&resp, InsertOutcome::RowsAffected(second));
    assert_eq!(decision, PublishDecision::Unexpected { rows_affected: 0 });
}

#[test]
fn uniqueness_across_variants() {
    let mut store = ResponseStore::new();
    let p = public(5, vec![1], vec![2]);
    let u = user(5, vec![3], vec![4]);
    assert_eq!(store.execute(&insert_statement(&p)), 1);
    assert_eq!(store.execute(&insert_statement(&u)), 1);
    assert_eq!(store.rows_with_id(ResponseTable::PublicDecryptionResponses, &id(5)), 1);
    assert_eq!(store.rows_with_id(ResponseTable::UserDecryptionResponses, &id(5)), 1);
    assert_eq!(store.rows_with_id(ResponseTable::UserDecryptionResponses, &id(6)), 0);
}

#[test]
fn insert_statement_targets_variant_table() {
    let stmt = insert_statement(&user(8, vec![7], vec![6]));
    assert_eq!(stmt.table, ResponseTable::UserDecryptionResponses);
    assert_eq!(stmt.payload, vec![7]);
    assert_eq!(stmt.signature, vec![6]);
    assert_eq!(stmt.decryption_id, id(8));
    assert_eq!(
        stmt.sql(),
        "INSERT INTO user_decryption_responses VALUES ($1, $2, $3) ON CONFLICT DO NOTHING"
    );
    assert_eq!(
        insert_statement(&public(8, vec![], vec![])).sql(),
        "INSERT INTO public_decryption_responses VALUES ($1, $2, $3) ON CONFLICT DO NOTHING"
    );
}

#[test]
fn round_trip_public_row() {
    let resp = public(42, vec![0xaa, 0xbb], vec![1, 2, 3]);
    let row = resp.to_row();
    assert_eq!(row.decryption_id.as_ref().map(|b| b.len()), Some(32));
    assert_eq!(KmsResponse::from_public_decomposition_row(&row), Ok(resp));
}

#[test]
fn round_trip_user_row() {
    let resp = user(3, vec![5; 40], vec![]);
    let row = resp.to_row();
    assert_eq!(KmsResponse::from_user_decomposition_row(&row), Ok(resp));
}

#[test]
fn row_decode_errors() {
    let full = public(1, vec![1], vec![2]).to_row();
    let mut no_id = full.clone();
    no_id.decryption_id = None;
    assert_eq!(
        KmsResponse::from_public_decomposition_row(&no_id),
        Err(DecodeError::MissingColumn(RowColumn::DecryptionId))
    );
    let mut short = full.clone();
    short.decryption_id = Some(vec![1; 31]);
    assert_eq!(KmsResponse::from_user_decomposition_row(&short), Err(DecodeError::WrongIdWidth));
    let mut no_payload = full.clone();
    no_payload.payload = None;
    assert_eq!(
        KmsResponse::from_user_decomposition_row(&no_payload),
        Err(DecodeError::MissingColumn(RowColumn::Payload))
    );
    let no_sig = ResponseRow { signature: None, ..full };
    assert_eq!(
        KmsResponse::from_public_decomposition_row(&no_sig),
        Err(DecodeError::MissingColumn(RowColumn::Signature))
    );
}

#[test]
fn missing_payload_rejection() {
    let answer = KmsGrpcResponse::PublicDecryption {
        decryption_id: id(7),
        grpc_response: PublicDecryptionResponse { payload: None },
    };
    assert_eq!(KmsResponse::process(answer), Err(ProcessingError::EmptyPayload));
    let answer = KmsGrpcResponse::UserDecryption {
        decryption_id: id(7),
        grpc_response: UserDecryptionResponse { signature: vec![1], payload: None },
    };
    assert_eq!(KmsResponse::process(answer), Err(ProcessingError::EmptyPayload));
}

#[test]
fn missing_signature_rejection() {
    let answer = KmsGrpcResponse::PublicDecryption {
        decryption_id: id(7),
        grpc_response: PublicDecryptionResponse {
            payload: Some(PublicDecryptionResponsePayload {
                plaintexts: vec![TypedPlaintext { bytes: vec![1], fhe_type: 0 }],
                external_signature: None,
            }),
        },
    };
    assert_eq!(KmsResponse::process(answer), Err(ProcessingError::MissingSignature));
}

#[test]
fn public_answer_is_abi_encoded() {
    let answer = KmsGrpcResponse::PublicDecryption {
        decryption_id: id(9),
        grpc_response: PublicDecryptionResponse {
            payload: Some(PublicDecryptionResponsePayload {
                plaintexts: vec![
                    TypedPlaintext { bytes: vec![1], fhe_type: 0 },
                    TypedPlaintext { bytes: vec![0x34, 0x12], fhe_type: 3 },
                ],
                external_signature: Some(vec![0xee; 65]),
            }),
        },
    };
    let mut expected = word(&[1]);
    expected.extend(word(&[0x12, 0x34]));
    assert_eq!(KmsResponse::process(answer), Ok(public(9, expected, vec![0xee; 65])));
}

#[test]
fn abi_encoding_of_full_word_and_empty_list() {
    let bytes: Vec<u8> = (1..=32).collect();
    let encoded = abi_encode_plaintexts(&vec![TypedPlaintext { bytes, fhe_type: 8 }]);
    let expected: Vec<u8> = (1..=32).rev().collect();
    assert_eq!(encoded, expected);
    assert_eq!(abi_encode_plaintexts(&vec![]), Vec::<u8>::new());
}

#[test]
fn wide_plaintext_is_encoded_as_bytes() {
    let answer = KmsGrpcResponse::PublicDecryption {
        decryption_id: id(1),
        grpc_response: PublicDecryptionResponse {
            payload: Some(PublicDecryptionResponsePayload {
                plaintexts: vec![
                    TypedPlaintext { bytes: vec![5], fhe_type: 2 },
                    TypedPlaintext { bytes: vec![1, 2, 3], fhe_type: 9 },
                ],
                external_signature: Some(vec![1]),
            }),
        },
    };
    let mut expected = word(&[5]);
    expected.extend(word(&[64]));
    expected.extend(word(&[3]));
    expected.extend([1, 2, 3]);
    expected.extend(vec![0u8; 29]);
    assert_eq!(KmsResponse::process(answer), Ok(public(1, expected, vec![1])));
}

#[test]
fn value_over_a_word_is_encoded_as_bytes() {
    let encoded = abi_encode_plaintexts(&vec![TypedPlaintext { bytes: vec![7; 33], fhe_type: 8 }]);
    let mut expected = word(&[32]);
    expected.extend(word(&[33]));
    expected.extend(vec![7u8; 33]);
    expected.extend(vec![0u8; 31]);
    assert_eq!(encoded, expected);
}

#[test]
fn wide_plaintext_without_signature_is_rejected() {
    let answer = KmsGrpcResponse::PublicDecryption {
        decryption_id: id(1),
        grpc_response: PublicDecryptionResponse {
            payload: Some(PublicDecryptionResponsePayload {
                plaintexts: vec![TypedPlaintext { bytes: vec![0; 64], fhe_type: 9 }],
                external_signature: None,
            }),
        },
    };
    assert_eq!(KmsResponse::process(answer), Err(ProcessingError::MissingSignature));
}

#[test]
fn user_answer_is_serialized() {
    let payload = UserDecryptionResponsePayload {
        verification_key: vec![0xab],
        digest: vec![],
        signcrypted_ciphertexts: vec![TypedSigncryptedCiphertext {
            fhe_type: -1,
            signcrypted_ciphertext: vec![7, 8],
        }],
        party_id: 0x0102,
        degree: 3,
    };
    let expected: Vec<u8> = vec![
        1, 0, 0, 0, 0, 0, 0, 0, 0xab, // verification key
        0, 0, 0, 0, 0, 0, 0, 0, // digest
        1, 0, 0, 0, 0, 0, 0, 0, // one ciphertext
        0xff, 0xff, 0xff, 0xff, 2, 0, 0, 0, 0, 0, 0, 0, 7, 8, // the ciphertext
        2, 1, 0, 0, // party id
        3, 0, 0, 0, // degree
    ];
    assert_eq!(serialize_user_payload(&payload), expected);
    let answer = KmsGrpcResponse::UserDecryption {
        decryption_id: id(4),
        grpc_response: UserDecryptionResponse { signature: vec![5, 5], payload: Some(payload) },
    };
    assert_eq!(KmsResponse::process(answer), Ok(user(4, expected, vec![5, 5])));
}

#[test]
fn compensation_on_failure() {
    let resp = user(42, vec![1], vec![2]);
    let mut requeued: Vec<PendingEvent> = Vec::new();
    let mut store_calls = 0;
    let outcome = {
        store_calls += 1;
        InsertOutcome::Failed
    };
    let result: Result<(), &str> = match publish_decision(&resp, outcome) {
        PublishDecision::RequeueAndFail(event) => {
            requeued.push(event);
            Err("store unavailable")
        }
        _ => Ok(()),
    };
    assert_eq!(store_calls, 1);
    assert_eq!(result, Err("store unavailable"));
    assert_eq!(requeued, vec![PendingEvent::UserDecryption(id(42))]);
    assert_eq!(resp.free_associated_event(), PendingEvent::UserDecryption(id(42)));
    assert_eq!(
        public(42, vec![], vec![]).free_associated_event(),
        PendingEvent::PublicDecryption(id(42))
    );
}

#[test]
fn retry_exhaustion() {
    let mut attempts = 0;
    let mut waits: Vec<u64> = Vec::new();
    let mut attempt: usize = 1;
    let gave_up = loop {
        attempts += 1;
        match next_retry_step(attempt, false) {
            RetryStep::WaitThenRetry { next_attempt, delay_secs } => {
                waits.push(delay_secs);
                attempt = next_attempt;
            }
            RetryStep::GiveUp => break true,
            RetryStep::Connected => break false,
        }
    };
    assert!(gave_up);
    assert_eq!(attempts, 5);
    assert_eq!(CONNECTION_RETRY_NUMBER, 5);
    assert_eq!(waits, vec![2, 2, 2, 2]);
    let err = ConnectionExhausted::new(ConnectionTarget::Gateway, "ws://node:8546");
    assert_eq!(err.attempts, 5);
    assert_eq!(err.message(), "Could not connect to Gateway at url ws://node:8546");
    let err = ConnectionExhausted::new(ConnectionTarget::Database, "postgres://db");
    assert_eq!(err.message(), "Could not connect to Postgres DB at url postgres://db");
}

#[test]
fn retry_stops_on_success() {
    assert_eq!(next_retry_step(3, true), RetryStep::Connected);
    assert_eq!(next_retry_step(1, true), RetryStep::Connected);
}

#[test]
fn response_label() {
    assert_eq!(public(42, vec![], vec![]).display().fmt(), "PublicDecryption #42");
    assert_eq!(user(0, vec![], vec![]).display().fmt(), "UserDecryption #0");
    let max = KmsResponse::PublicDecryption {
        decryption_id: DecryptionId::from_le_bytes([0xff; 32]),
        decrypted_result: vec![],
        signature: vec![],
    };
    assert_eq!(
        max.display().fmt(),
        "PublicDecryption #115792089237316195423570985008687907853269984665640564039457584007913129639935"
    );
    let mut b = [0u8; 32];
    b[1] = 1;
    assert_eq!(DecryptionId::from_le_bytes(b).to_decimal(), "256");
}

#[test]
fn identifier_bytes() {
    let v = id(42).to_le_vec();
    assert_eq!(v.len(), 32);
    assert_eq!(v[0], 42);
    assert_eq!(DecryptionId::from_le_slice(&v), Some(id(42)));
    assert_eq!(DecryptionId::from_le_slice(&v[..31]), None);
    assert!(id(3).equals(&id(3)));
    assert!(!id(3).equals(&id(4)));
}
