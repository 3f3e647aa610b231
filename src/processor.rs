use vstd::prelude::*;

use crate::decryption_id::DecryptionId;
use crate::kms_response::KmsResponse;

verus! {

/// One decrypted value with its declared FHE type; `bytes` is the value,
/// little-endian.
#[derive(Clone, Debug, PartialEq)]
pub struct TypedPlaintext {
    pub bytes: Vec<u8>,
    pub fhe_type: i32,
}

#[derive(Clone, Debug, PartialEq)]
pub struct PublicDecryptionResponsePayload {
    pub plaintexts: Vec<TypedPlaintext>,
    pub external_signature: Option<Vec<u8>>,
}

#[derive(Clone, Debug, PartialEq)]
pub struct PublicDecryptionResponse {
    pub payload: Option<PublicDecryptionResponsePayload>,
}

/// One ciphertext of a user decryption, signcrypted for the user.
#[derive(Clone, Debug, PartialEq)]
pub struct TypedSigncryptedCiphertext {
    pub fhe_type: i32,
    pub signcrypted_ciphertext: Vec<u8>,
}

#[derive(Clone, Debug, PartialEq)]
pub struct UserDecryptionResponsePayload {
    pub verification_key: Vec<u8>,
    pub digest: Vec<u8>,
    pub signcrypted_ciphertexts: Vec<TypedSigncryptedCiphertext>,
    pub party_id: u32,
    pub degree: u32,
}

#[derive(Clone, Debug, PartialEq)]
pub struct UserDecryptionResponse {
    pub signature: Vec<u8>,
    pub payload: Option<UserDecryptionResponsePayload>,
}

/// A raw answer of the KMS for one decryption request.
#[derive(Clone, Debug, PartialEq)]
pub enum KmsGrpcResponse {
    PublicDecryption { decryption_id: DecryptionId, grpc_response: PublicDecryptionResponse },
    UserDecryption { decryption_id: DecryptionId, grpc_response: UserDecryptionResponse },
}

/// Why a raw answer was rejected.
#[derive(Clone, Copy, Debug, PartialEq, Eq)]
pub enum ProcessingError {
    /// The answer carries no payload.
    EmptyPayload,
    /// A public answer carries no external signature.
    MissingSignature,
}

/// The 32-byte ABI word of an unsigned value given little-endian: the same
/// value big-endian, zero-padded on the left.
pub open spec fn abi_word(le: Seq<u8>) -> Seq<u8> {
    Seq::new(32, |k: int| if 31 - k < le.len() { le[31 - k] } else { 0u8 })
}

/// FHE type tags of the values wider than 256 bits (512, 1024 and 2048 bits).
pub open spec fn is_wide_type(t: i32) -> bool {
    9 <= t <= 11
}

/// A plaintext is encoded as dynamic `bytes` when its type is wider than
/// 256 bits or its value does not fit one word; otherwise as a `uint256`.
pub open spec fn is_dynamic(p: TypedPlaintext) -> bool {
    is_wide_type(p.fhe_type) || p.bytes@.len() > 32
}

/// The ABI word of a count: a length or an offset.
pub open spec fn count_word(n: nat) -> Seq<u8> {
    abi_word(le_bytes(n, 16))
}

/// The zeros that pad `n` bytes to whole words.
pub open spec fn zero_pad_len(n: nat) -> nat {
    ((32 - n % 32) % 32) as nat
}

/// The tail of a dynamic `bytes` value: its length, then its bytes padded
/// with zeros to whole words.
pub open spec fn bytes_tail(b: Seq<u8>) -> Seq<u8> {
    count_word(b.len()) + b + Seq::new(zero_pad_len(b.len()), |k: int| 0u8)
}

pub open spec fn tail_of(p: TypedPlaintext) -> Seq<u8> {
    if is_dynamic(p) {
        bytes_tail(p.bytes@)
    } else {
        Seq::empty()
    }
}

/// The tails of the dynamic values among `ps`, in list order.
pub open spec fn abi_tails(ps: Seq<TypedPlaintext>) -> Seq<u8>
    decreases ps.len(),
{
    if ps.len() == 0 {
        Seq::empty()
    } else {
        abi_tails(ps.drop_last()) + tail_of(ps.last())
    }
}

/// The head of a value: its word when static, else the offset of its tail
/// from the start of the encoding.
pub open spec fn head_of(p: TypedPlaintext, offset: nat) -> Seq<u8> {
    if is_dynamic(p) {
        count_word(offset)
    } else {
        abi_word(p.bytes@)
    }
}

/// The heads of the first values `ps` of a tuple of `n` values: the tails
/// start after the `n` head words.
pub open spec fn abi_heads(ps: Seq<TypedPlaintext>, n: nat) -> Seq<u8>
    decreases ps.len(),
{
    if ps.len() == 0 {
        Seq::empty()
    } else {
        abi_heads(ps.drop_last(), n) + head_of(
            ps.last(),
            32 * n + abi_tails(ps.drop_last()).len(),
        )
    }
}

/// The ABI encoding of the plaintexts as the parameters of one call: all
/// heads in list order, then the tails of the dynamic ones.
pub open spec fn abi_encode_spec(ps: Seq<TypedPlaintext>) -> Seq<u8> {
    abi_heads(ps, ps.len()) + abi_tails(ps)
}

/// `x` with its `k` lowest bytes shifted out.
pub open spec fn shifted(x: nat, k: nat) -> nat
    decreases k,
{
    if k == 0 {
        x
    } else {
        shifted(x, (k - 1) as nat) / 256
    }
}

/// The `n` lowest bytes of `x`, little-endian.
pub open spec fn le_bytes(x: nat, n: nat) -> Seq<u8>
    decreases n,
{
    if n == 0 {
        Seq::empty()
    } else {
        le_bytes(x, (n - 1) as nat).push((shifted(x, (n - 1) as nat) % 256) as u8)
    }
}

/// A byte string with its length in front, as eight bytes little-endian.
pub open spec fn framed(b: Seq<u8>) -> Seq<u8> {
    le_bytes(b.len(), 8) + b
}

pub open spec fn ciphertext_bytes(ct: TypedSigncryptedCiphertext) -> Seq<u8> {
    le_bytes(ct.fhe_type as u32 as nat, 4) + framed(ct.signcrypted_ciphertext@)
}

pub open spec fn ciphertexts_bytes(cts: Seq<TypedSigncryptedCiphertext>) -> Seq<u8>
    decreases cts.len(),
{
    if cts.len() == 0 {
        Seq::empty()
    } else {
        ciphertexts_bytes(cts.drop_last()) + ciphertext_bytes(cts.last())
    }
}

/// The serialized form of a user decryption payload: the fields in order,
/// each byte string and the list framed by their length, integers
/// little-endian in their own width.
pub open spec fn user_payload_bytes(p: UserDecryptionResponsePayload) -> Seq<u8> {
    framed(p.verification_key@) + framed(p.digest@) + le_bytes(
        p.signcrypted_ciphertexts@.len(),
        8,
    ) + ciphertexts_bytes(p.signcrypted_ciphertexts@) + le_bytes(p.party_id as nat, 4)
        + le_bytes(p.degree as nat, 4)
}

/// Appends the `n` lowest bytes of `x`, little-endian.
fn push_le(out: &mut Vec<u8>, x: u128, n: usize)
    requires
        n <= 16,
    ensures
        final(out)@ == old(out)@ + le_bytes(x as nat, n as nat),
        final(out)@.len() == old(out)@.len() + n,
{
    let mut cur: u128 = x;
    let mut i: usize = 0;
    while i < n
        invariant
            i <= n,
            cur as nat == shifted(x as nat, i as nat),
            out@ == old(out)@ + le_bytes(x as nat, i as nat),
            out@.len() == old(out)@.len() + i,
        decreases n - i,
    {
        out.push((cur % 256) as u8);
        cur = cur / 256;
        i += 1;
    }
}

/// Appends the ABI word of one plaintext.
fn push_abi_word(out: &mut Vec<u8>, le: &Vec<u8>)
    requires
        le@.len() <= 32,
    ensures
        final(out)@ == old(out)@ + abi_word(le@),
{
    let ghost start = out@;
    let mut k: usize = 0;
    while k < 32
        invariant
            k <= 32,
            le@.len() <= 32,
            out@ == start + abi_word(le@).subrange(0, k as int),
        decreases 32 - k,
    {
        let j: usize = 31 - k;
        let byte: u8 = if j < le.len() {
            le[j]
        } else {
            0u8
        };
        out.push(byte);
        proof {
            assert(abi_word(le@).subrange(0, k + 1) == abi_word(le@).subrange(0, k as int).push(
                byte,
            ));
        }
        k += 1;
    }
    assert(abi_word(le@).subrange(0, 32) == abi_word(le@));
}

fn push_count_word(out: &mut Vec<u8>, x: u128)
    ensures
        final(out)@ == old(out)@ + count_word(x as nat),
{
    let mut le: Vec<u8> = Vec::new();
    push_le(&mut le, x, 16);
    assert(le@ == le_bytes(x as nat, 16));
    push_abi_word(out, &le);
}

fn push_all(out: &mut Vec<u8>, b: &Vec<u8>)
    ensures
        final(out)@ == old(out)@ + b@,
{
    let ghost start = out@;
    let mut i: usize = 0;
    while i < b.len()
        invariant
            i <= b@.len(),
            out@ == start + b@.subrange(0, i as int),
        decreases b@.len() - i,
    {
        out.push(b[i]);
        i += 1;
    }
    assert(b@.subrange(0, b@.len() as int) == b@);
}

fn push_bytes_tail(out: &mut Vec<u8>, b: &Vec<u8>)
    ensures
        final(out)@ == old(out)@ + bytes_tail(b@),
{
    push_count_word(out, b.len() as u128);
    push_all(out, b);
    let pad: usize = (32 - b.len() % 32) % 32;
    let ghost mid = out@;
    let mut j: usize = 0;
    while j < pad
        invariant
            j <= pad,
            out@ == mid + Seq::new(j as nat, |k: int| 0u8),
        decreases pad - j,
    {
        out.push(0u8);
        assert(Seq::new((j + 1) as nat, |k: int| 0u8) =~= Seq::new(j as nat, |k: int| 0u8).push(
            0u8,
        ));
        j += 1;
    }
}

/// The ABI encoding of the plaintexts, each by its declared type.
pub fn abi_encode_plaintexts(pts: &Vec<TypedPlaintext>) -> (r: Vec<u8>)
    ensures
        r@ == abi_encode_spec(pts@),
{
    let n: usize = pts.len();
    let mut head: Vec<u8> = Vec::new();
    let mut tail: Vec<u8> = Vec::new();
    let mut i: usize = 0;
    while i < n
        invariant
            i <= n,
            n == pts@.len(),
            head@ == abi_heads(pts@.subrange(0, i as int), n as nat),
            tail@ == abi_tails(pts@.subrange(0, i as int)),
        decreases n - i,
    {
        let p = &pts[i];
        let dynamic = (9 <= p.fhe_type && p.fhe_type <= 11) || p.bytes.len() > 32;
        if dynamic {
            let offset: u128 = 32 * (n as u128) + (tail.len() as u128);
            push_count_word(&mut head, offset);
            push_bytes_tail(&mut tail, &p.bytes);
        } else {
            push_abi_word(&mut head, &p.bytes);
        }
        proof {
            let next = pts@.subrange(0, i + 1);
            assert(next.drop_last() == pts@.subrange(0, i as int));
            assert(next.last() == pts@[i as int]);
        }
        i += 1;
    }
    assert(pts@.subrange(0, n as int) == pts@);
    push_all(&mut head, &tail);
    head
}

/// The serialized form of a user decryption payload.
pub fn serialize_user_payload(p: &UserDecryptionResponsePayload) -> (r: Vec<u8>)
    ensures
        r@ == user_payload_bytes(*p),
{
    bincode_serialize_payload(p)
}

/// Relies on bincode 1's `serialize` of a tuple of the payload's fields:
/// it writes the fields in order, a `Vec` as its length (eight bytes,
/// little-endian) then its items, an `i32` as the four little-endian bytes
/// of its `u32` bits and a `u32` as four little-endian bytes. It writes into
/// a `Vec` with no size limit and every sequence has a known length, so it
/// does not fail.
#[verifier::external_body]
fn bincode_serialize_payload(p: &UserDecryptionResponsePayload) -> (r: Vec<u8>)
    ensures
        r@ == user_payload_bytes(*p),
{
    let cts: Vec<(i32, &Vec<u8>)> = p.signcrypted_ciphertexts.iter().map(
        |c| (c.fhe_type, &c.signcrypted_ciphertext),
    ).collect();
    bincode::serialize(&(&p.verification_key, &p.digest, cts, p.party_id, p.degree)).expect(
        "serializing into memory does not fail",
    )
}

/// `r` is the outcome owed for a public answer: without a payload, or
/// without an external signature, it is rejected; otherwise the response
/// holds the ABI encoding of the plaintexts and the external signature.
pub open spec fn public_outcome(
    id: DecryptionId,
    g: PublicDecryptionResponse,
    r: Result<KmsResponse, ProcessingError>,
) -> bool {
    match g.payload {
        None => r == Err::<KmsResponse, ProcessingError>(ProcessingError::EmptyPayload),
        Some(p) => match p.external_signature {
            None => r == Err::<KmsResponse, ProcessingError>(ProcessingError::MissingSignature),
            Some(sig) => r matches Ok(resp) && resp.is_public() && resp.id() == id
                && resp.payload() == abi_encode_spec(p.plaintexts@) && resp.signature() == sig@,
        },
    }
}

/// `r` is the outcome owed for a user answer: without a payload it is
/// rejected; otherwise the response holds the serialized payload and the
/// answer's own signature.
pub open spec fn user_outcome(
    id: DecryptionId,
    g: UserDecryptionResponse,
    r: Result<KmsResponse, ProcessingError>,
) -> bool {
    match g.payload {
        None => r == Err::<KmsResponse, ProcessingError>(ProcessingError::EmptyPayload),
        Some(p) => r matches Ok(resp) && !resp.is_public() && resp.id() == id && resp.payload()
            == user_payload_bytes(p) && resp.signature() == g.signature@,
    }
}

pub open spec fn process_outcome(a: KmsGrpcResponse, r: Result<KmsResponse, ProcessingError>) -> bool {
    match a {
        KmsGrpcResponse::PublicDecryption { decryption_id, grpc_response } => public_outcome(
            decryption_id,
            grpc_response,
            r,
        ),
        KmsGrpcResponse::UserDecryption { decryption_id, grpc_response } => user_outcome(
            decryption_id,
            grpc_response,
            r,
        ),
    }
}

impl KmsResponse {
    /// Turns a raw answer of the KMS into a response to store.
    pub fn process(response: KmsGrpcResponse) -> (r: Result<KmsResponse, ProcessingError>)
        ensures
            process_outcome(response, r),
    {
        match response {
            KmsGrpcResponse::PublicDecryption { decryption_id, grpc_response } => {
                Self::process_public_decryption(decryption_id, grpc_response)
            },
            KmsGrpcResponse::UserDecryption { decryption_id, grpc_response } => {
                Self::process_user_decryption(decryption_id, grpc_response)
            },
        }
    }

    pub fn process_public_decryption(
        decryption_id: DecryptionId,
        grpc_response: PublicDecryptionResponse,
    ) -> (r: Result<KmsResponse, ProcessingError>)
        ensures
            public_outcome(decryption_id, grpc_response, r),
    {
        let payload = match grpc_response.payload {
            None => return Err(ProcessingError::EmptyPayload),
            Some(p) => p,
        };
        let decrypted_result = abi_encode_plaintexts(&payload.plaintexts);
        let signature = match payload.external_signature {
            None => return Err(ProcessingError::MissingSignature),
            Some(s) => s,
        };
        Ok(KmsResponse::PublicDecryption { decryption_id, decrypted_result, signature })
    }

    pub fn process_user_decryption(
        decryption_id: DecryptionId,
        grpc_response: UserDecryptionResponse,
    ) -> (r: Result<KmsResponse, ProcessingError>)
        ensures
            user_outcome(decryption_id, grpc_response, r),
    {
        let payload = match &grpc_response.payload {
            None => return Err(ProcessingError::EmptyPayload),
            Some(p) => p,
        };
        let user_decrypted_shares = serialize_user_payload(payload);
        Ok(
            KmsResponse::UserDecryption {
                decryption_id,
                user_decrypted_shares,
                signature: grpc_response.signature,
            },
        )
    }
}

/// An answer without a payload is rejected as such, whatever its variant
/// and identifier.
pub proof fn lemma_missing_payload_rejected(a: KmsGrpcResponse, r: Result<KmsResponse, ProcessingError>)
    requires
        match a {
            KmsGrpcResponse::PublicDecryption { grpc_response, .. } => grpc_response.payload is None,
            KmsGrpcResponse::UserDecryption { grpc_response, .. } => grpc_response.payload is None,
        },
        process_outcome(a, r),
    ensures
        r == Err::<KmsResponse, ProcessingError>(ProcessingError::EmptyPayload),
{
}

/// A public answer with a payload is rejected exactly when it carries no
/// external signature, and then as a missing signature.
pub proof fn lemma_public_signature_decides(
    id: DecryptionId,
    g: PublicDecryptionResponse,
    r: Result<KmsResponse, ProcessingError>,
)
    requires
        g.payload is Some,
        public_outcome(id, g, r),
    ensures
        r is Ok <==> g.payload->0.external_signature is Some,
        r is Err ==> r == Err::<KmsResponse, ProcessingError>(ProcessingError::MissingSignature),
{
}

} // verus!
