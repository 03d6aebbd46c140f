//! Destination: the identity structure of a router or client.
//!
//! A serialized destination is 384 bytes of padding and keys, followed by a
//! certificate: a null certificate (3 bytes, legacy DSA-SHA1 signing key) or a
//! key certificate (7 bytes) that names the signing key kind and the private
//! key kind. The destination is identified by the SHA-256 digest of those bytes.
use vstd::prelude::*;
use vstd::slice::{slice_subrange, slice_to_vec};

verus! {

/// Null certificate.
pub const NULL_CERTIFICATE: u8 = 0x00;

/// Key certificate.
pub const KEY_CERTIFICATE: u8 = 0x05;

/// Key certificate payload length.
pub const KEY_CERTIFICATE_LEN: u16 = 0x04;

/// Padding and the empty public key that precede the signing public key.
pub const PADDING_LEN: usize = 352;

/// Key kind code of `EdDSA_SHA512_Ed25519`.
pub const KEY_KIND_EDDSA_SHA512_ED25519: u16 = 0x0007;

/// Key kind code of `ECDSA_SHA256_P256`.
pub const KEY_KIND_ECDSA_SHA256_P256: u16 = 0x0001;

/// Key kind code of `DSA_SHA1`.
pub const KEY_KIND_DSA_SHA1: u16 = 0x0000;

/// Private key kind code of ElGamal.
pub const PRIVATE_KIND_ELGAMAL: u16 = 0x0000;

/// Private key kind code of P256.
pub const PRIVATE_KIND_P256: u16 = 0x0001;

/// Private key kind code of X25519.
pub const PRIVATE_KIND_X25519: u16 = 0x0004;

/// Serialized length with a key certificate.
pub const DESTINATION_WITH_KEY_CERT_LEN: usize = 391;

/// Serialized length with a null certificate.
pub const DESTINATION_WITH_NULL_CERT_LEN: usize = 387;

/// Minimum serialized length.
pub const DESTINATION_MINIMUM_LEN: usize = 387;

/// Serialized length without the certificate.
pub const DESTINATION_LEN_NO_CERTIFICATE: usize = 384;

/// SHA-256 digest of a byte string.
pub uninterp spec fn sha256_of(data: Seq<u8>) -> Seq<u8>;

/// Relies on `sha2::Sha256::digest` (through `sha2::Digest`): the 32-byte
/// SHA-256 digest of `data`, which depends on `data` alone.
#[verifier::external_body]
fn sha256(data: &[u8]) -> (r: Vec<u8>)
    ensures
        r@ == sha256_of(data@),
        r@.len() == 32,
{
    <sha2::Sha256 as sha2::Digest>::digest(data).to_vec()
}

/// Relies on `rand::thread_rng` and `rand_core::RngCore::fill_bytes`: `len`
/// bytes, of which nothing else is known.
#[verifier::external_body]
fn random_bytes(len: usize) -> (r: Vec<u8>)
    ensures
        r@.len() == len,
{
    let mut out = vec![0u8; len];
    rand_core::RngCore::fill_bytes(&mut rand::thread_rng(), &mut out);
    out
}

/// Whether 32 bytes are the compressed form of an Ed25519 curve point.
pub uninterp spec fn ed25519_key_valid(key: Seq<u8>) -> bool;

/// Relies on `ed25519_dalek::VerifyingKey::from_bytes`, which succeeds exactly
/// when the 32 bytes decompress to a curve point; that depends on the bytes alone.
#[verifier::external_body]
fn ed25519_key_decodes(key: &[u8]) -> (r: bool)
    requires
        key@.len() == 32,
    ensures
        r == ed25519_key_valid(key@),
{
    match <[u8; 32]>::try_from(key) {
        Ok(bytes) => ed25519_dalek::VerifyingKey::from_bytes(&bytes).is_ok(),
        Err(_) => false,
    }
}

/// Whether 64 bytes (x and y, big endian) are the coordinates of a P-256 public key.
pub uninterp spec fn p256_key_valid(key: Seq<u8>) -> bool;

/// Relies on `p256::ecdsa::VerifyingKey::from_encoded_point`, applied to the
/// untagged SEC1 point of the 64 bytes (`p256::EncodedPoint::from_untagged_bytes`):
/// it succeeds exactly when the point is a valid public key, which depends on
/// the bytes alone.
#[verifier::external_body]
fn p256_key_decodes(key: &[u8]) -> (r: bool)
    requires
        key@.len() == 64,
    ensures
        r == p256_key_valid(key@),
{
    let point = p256::EncodedPoint::from_untagged_bytes(
        p256::elliptic_curve::generic_array::GenericArray::from_slice(key),
    );
    p256::ecdsa::VerifyingKey::from_encoded_point(&point).is_ok()
}

/// Kind of a signing public key.
#[derive(Clone, Copy, Debug, PartialEq, Eq, Structural)]
pub enum SigningKeyKind {
    DsaSha1,
    EcDsaSha256P256,
    EdDsaSha512Ed25519,
}

/// Length in bytes of a public key of the kind.
pub open spec fn key_size(kind: SigningKeyKind) -> nat {
    match kind {
        SigningKeyKind::DsaSha1 => 128,
        SigningKeyKind::EcDsaSha256P256 => 64,
        SigningKeyKind::EdDsaSha512Ed25519 => 32,
    }
}

/// The signing key kind that a key certificate code names.
pub open spec fn signing_kind_of(code: int) -> Option<SigningKeyKind> {
    if code == KEY_KIND_DSA_SHA1 {
        Some(SigningKeyKind::DsaSha1)
    } else if code == KEY_KIND_ECDSA_SHA256_P256 {
        Some(SigningKeyKind::EcDsaSha256P256)
    } else if code == KEY_KIND_EDDSA_SHA512_ED25519 {
        Some(SigningKeyKind::EdDsaSha512Ed25519)
    } else {
        None
    }
}

/// The public key length that a private key kind code names.
pub open spec fn private_key_len_of(code: int) -> Option<nat> {
    if code == PRIVATE_KIND_ELGAMAL {
        Some(256)
    } else if code == PRIVATE_KIND_P256 {
        Some(64)
    } else if code == PRIVATE_KIND_X25519 {
        Some(32)
    } else {
        None
    }
}

/// The key bytes are accepted for the kind: Ed25519 and P-256 keys must
/// decode to a curve point; DSA-SHA1 keys are taken as they are.
pub open spec fn key_accepted(kind: SigningKeyKind, key: Seq<u8>) -> bool {
    match kind {
        SigningKeyKind::DsaSha1 => true,
        SigningKeyKind::EcDsaSha256P256 => p256_key_valid(key),
        SigningKeyKind::EdDsaSha512Ed25519 => ed25519_key_valid(key),
    }
}

impl SigningKeyKind {
    /// Length in bytes of a public key of this kind.
    pub fn key_len(&self) -> (r: usize)
        ensures
            r == key_size(*self),
    {
        match self {
            SigningKeyKind::DsaSha1 => 128,
            SigningKeyKind::EcDsaSha256P256 => 64,
            SigningKeyKind::EdDsaSha512Ed25519 => 32,
        }
    }

    /// The kind that a key certificate code names.
    pub fn from_code(code: u16) -> (r: Option<SigningKeyKind>)
        ensures
            r == signing_kind_of(code as int),
    {
        if code == KEY_KIND_DSA_SHA1 {
            Some(SigningKeyKind::DsaSha1)
        } else if code == KEY_KIND_ECDSA_SHA256_P256 {
            Some(SigningKeyKind::EcDsaSha256P256)
        } else if code == KEY_KIND_EDDSA_SHA512_ED25519 {
            Some(SigningKeyKind::EdDsaSha512Ed25519)
        } else {
            None
        }
    }
}

/// The public key length that a private key kind code names.
pub fn private_key_len_from_code(code: u16) -> (r: Option<usize>)
    ensures
        match r {
            Some(n) => private_key_len_of(code as int) == Some(n as nat),
            None => private_key_len_of(code as int) is None,
        },
{
    if code == PRIVATE_KIND_ELGAMAL {
        Some(256)
    } else if code == PRIVATE_KIND_P256 {
        Some(64)
    } else if code == PRIVATE_KIND_X25519 {
        Some(32)
    } else {
        None
    }
}

/// Signing public key of a destination, as its raw bytes.
#[derive(Debug)]
pub struct SigningPublicKey {
    kind: SigningKeyKind,
    bytes: Vec<u8>,
}

impl View for SigningPublicKey {
    type V = (SigningKeyKind, Seq<u8>);

    closed spec fn view(&self) -> (SigningKeyKind, Seq<u8>) {
        (self.kind, self.bytes@)
    }
}

impl SigningPublicKey {
    /// A key is well formed when it has the length of its kind and its bytes
    /// are accepted for that kind.
    pub open spec fn wf(&self) -> bool {
        self@.1.len() == key_size(self@.0) && key_accepted(self@.0, self@.1)
    }

    /// Key of `kind` from its raw bytes; `None` unless the length fits the kind
    /// and the bytes are accepted for it.
    pub fn from_kind_bytes(kind: SigningKeyKind, bytes: &[u8]) -> (r: Option<SigningPublicKey>)
        ensures
            match r {
                Some(k) => bytes@.len() == key_size(kind) && key_accepted(kind, bytes@) && k@ == (
                    kind,
                    bytes@,
                ) && k.wf(),
                None => !(bytes@.len() == key_size(kind) && key_accepted(kind, bytes@)),
            },
    {
        if bytes.len() != kind.key_len() {
            return None;
        }
        let accepted = match kind {
            SigningKeyKind::DsaSha1 => true,
            SigningKeyKind::EcDsaSha256P256 => p256_key_decodes(bytes),
            SigningKeyKind::EdDsaSha512Ed25519 => ed25519_key_decodes(bytes),
        };
        if accepted {
            Some(SigningPublicKey { kind, bytes: slice_to_vec(bytes) })
        } else {
            None
        }
    }

    /// Ed25519 key from its 32 bytes; `None` for any other length or for bytes
    /// that are not a curve point.
    pub fn ed25519(bytes: &[u8]) -> (r: Option<SigningPublicKey>)
        ensures
            match r {
                Some(k) => bytes@.len() == 32 && ed25519_key_valid(bytes@) && k@ == (
                    SigningKeyKind::EdDsaSha512Ed25519,
                    bytes@,
                ) && k.wf(),
                None => !(bytes@.len() == 32 && ed25519_key_valid(bytes@)),
            },
    {
        SigningPublicKey::from_kind_bytes(SigningKeyKind::EdDsaSha512Ed25519, bytes)
    }

    /// Kind of the key.
    pub fn kind(&self) -> (r: SigningKeyKind)
        ensures
            r == self@.0,
    {
        self.kind
    }

    /// Raw bytes of the key.
    pub fn as_bytes(&self) -> (r: &[u8])
        ensures
            r@ == self@.1,
    {
        self.bytes.as_slice()
    }
}

impl Clone for SigningPublicKey {
    fn clone(&self) -> (r: Self)
        ensures
            r@ == self@,
    {
        let bytes = self.bytes.clone();
        proof {
            assert(bytes@ =~= self.bytes@);
        }
        SigningPublicKey { kind: self.kind, bytes }
    }
}

/// Short destination identity hash.
#[derive(Debug, Hash)]
pub struct DestinationId {
    hash: Vec<u8>,
}

impl View for DestinationId {
    type V = Seq<u8>;

    closed spec fn view(&self) -> Seq<u8> {
        self.hash@
    }
}

fn bytes_equal(a: &[u8], b: &[u8]) -> (r: bool)
    ensures
        r == (a@ == b@),
{
    if a.len() != b.len() {
        return false;
    }
    let mut i: usize = 0;
    while i < a.len()
        invariant
            a@.len() == b@.len(),
            0 <= i <= a@.len(),
            forall|j: int| 0 <= j < i ==> a@[j] == b@[j],
        decreases a@.len() - i,
    {
        if a[i] != b[i] {
            return false;
        }
        i = i + 1;
    }
    proof {
        assert(a@ =~= b@);
    }
    true
}

impl PartialEq for DestinationId {
    fn eq(&self, other: &DestinationId) -> (r: bool)
        ensures
            r == (self@ == other@),
    {
        bytes_equal(self.hash.as_slice(), other.hash.as_slice())
    }
}

impl vstd::std_specs::cmp::PartialEqSpecImpl for DestinationId {
    open spec fn obeys_eq_spec() -> bool {
        true
    }

    open spec fn eq_spec(&self, other: &DestinationId) -> bool {
        self@ == other@
    }
}

impl Eq for DestinationId {

}

impl Clone for DestinationId {
    fn clone(&self) -> (r: Self)
        ensures
            r@ == self@,
    {
        let hash = self.hash.clone();
        proof {
            assert(hash@ =~= self.hash@);
        }
        DestinationId { hash }
    }
}

impl DestinationId {
    /// Identifier made of the given hash bytes.
    pub fn from_bytes(bytes: &[u8]) -> (r: DestinationId)
        ensures
            r@ == bytes@,
    {
        DestinationId { hash: slice_to_vec(bytes) }
    }

    /// Random identifier of 32 bytes.
    pub fn random() -> (r: DestinationId)
        ensures
            r@.len() == 32,
    {
        DestinationId { hash: random_bytes(32) }
    }

    /// Copy [`DestinationId`] into a byte vector.
    pub fn to_vec(&self) -> (r: Vec<u8>)
        ensures
            r@ == self@,
    {
        let out = self.hash.clone();
        proof {
            assert(out@ =~= self.hash@);
        }
        out
    }
}

/// Mathematical form of a [`Destination`].
pub struct DestinationModel {
    pub id: Seq<u8>,
    pub identity_hash: Seq<u8>,
    pub private_key_len: nat,
    pub serialized: Seq<u8>,
    pub signing_key_len: nat,
    pub key_kind: SigningKeyKind,
    pub key: Seq<u8>,
}

/// Big-endian 16-bit value at offset `i`.
pub open spec fn be_u16_at(b: Seq<u8>, i: int) -> int {
    b[i] as int * 256 + b[i + 1] as int
}

/// What a valid frame at the start of `input` declares: its signing key kind,
/// its signing and private key lengths, and its length. `None` when `input` is
/// too short or names a certificate or a key kind that is not supported.
pub open spec fn frame_layout(input: Seq<u8>) -> Option<(SigningKeyKind, nat, nat, nat)> {
    if input.len() < DESTINATION_MINIMUM_LEN {
        None
    } else if input[384] == NULL_CERTIFICATE {
        Some((SigningKeyKind::DsaSha1, 128, 256, DESTINATION_WITH_NULL_CERT_LEN as nat))
    } else if input[384] == KEY_CERTIFICATE && be_u16_at(input, 385) == KEY_CERTIFICATE_LEN {
        if input.len() < DESTINATION_WITH_KEY_CERT_LEN {
            None
        } else {
            match (signing_kind_of(be_u16_at(input, 387)), private_key_len_of(be_u16_at(input, 389))) {
                (Some(kind), Some(private_len)) => if kind == SigningKeyKind::DsaSha1 {
                    None
                } else {
                    Some((kind, key_size(kind), private_len, DESTINATION_WITH_KEY_CERT_LEN as nat))
                },
                _ => None,
            }
        }
    } else {
        None
    }
}

/// The destination that parsing `input` yields, if any. Its signing key is
/// the last bytes of the first 384, as many as its kind asks for, and must be
/// accepted for its kind.
pub open spec fn parse_spec(input: Seq<u8>) -> Option<DestinationModel> {
    match frame_layout(input) {
        None => None,
        Some((kind, signing_key_len, private_key_len, frame_len)) => {
            let serialized = input.subrange(0, frame_len as int);
            let key = input.subrange(384 - key_size(kind), 384);
            if !key_accepted(kind, key) {
                None
            } else {
                Some(
                DestinationModel {
                    id: sha256_of(serialized),
                    identity_hash: sha256_of(serialized),
                    private_key_len,
                    serialized,
                    signing_key_len,
                    key_kind: kind,
                    key,
                },
            )
            }
        },
    }
}

/// The bytes that [`Destination::with_padding`] writes for an Ed25519 key.
pub open spec fn ed25519_destination_bytes(padding: Seq<u8>, key: Seq<u8>) -> Seq<u8> {
    padding + key + seq![KEY_CERTIFICATE, 0u8, 4u8, 0u8, 7u8, 0u8, 4u8]
}

/// Destination.
#[derive(Debug)]
pub struct Destination {
    /// Destination ID.
    destination_id: DestinationId,
    /// Destination's identity hash.
    identity_hash: Vec<u8>,
    /// Private key length.
    private_key_len: usize,
    /// Serialized destination.
    serialized: Vec<u8>,
    /// Signing key length.
    signing_key_len: usize,
    /// Destination's verifying key.
    verifying_key: SigningPublicKey,
}

impl View for Destination {
    type V = DestinationModel;

    closed spec fn view(&self) -> DestinationModel {
        DestinationModel {
            id: self.destination_id@,
            identity_hash: self.identity_hash@,
            private_key_len: self.private_key_len as nat,
            serialized: self.serialized@,
            signing_key_len: self.signing_key_len as nat,
            key_kind: self.verifying_key@.0,
            key: self.verifying_key@.1,
        }
    }
}

impl Clone for Destination {
    fn clone(&self) -> (r: Self)
        ensures
            r@ == self@,
    {
        let identity_hash = self.identity_hash.clone();
        let serialized = self.serialized.clone();
        proof {
            assert(identity_hash@ =~= self.identity_hash@);
            assert(serialized@ =~= self.serialized@);
        }
        Destination {
            destination_id: self.destination_id.clone(),
            identity_hash,
            private_key_len: self.private_key_len,
            serialized,
            signing_key_len: self.signing_key_len,
            verifying_key: self.verifying_key.clone(),
        }
    }
}

fn read_be_u16(input: &[u8], i: usize) -> (r: u16)
    requires
        i + 1 < input@.len(),
    ensures
        r as int == be_u16_at(input@, i as int),
{
    (input[i] as u16) * 256 + (input[i + 1] as u16)
}

fn append_bytes(out: &mut Vec<u8>, src: &[u8])
    ensures
        final(out)@ == old(out)@ + src@,
{
    let mut i: usize = 0;
    while i < src.len()
        invariant
            0 <= i <= src@.len(),
            out@ == old(out)@ + src@.subrange(0, i as int),
        decreases src@.len() - i,
    {
        out.push(src[i]);
        proof {
            assert(src@.subrange(0, i + 1) =~= src@.subrange(0, i as int).push(src@[i as int]));
        }
        i = i + 1;
    }
    proof {
        assert(src@.subrange(0, src@.len() as int) =~= src@);
    }
}

/// What a valid frame at the start of `input` declares (see [`frame_layout`]):
/// its signing key kind, signing and private key lengths, and its length.
pub fn frame_layout_of(input: &[u8]) -> (r: Option<(SigningKeyKind, usize, usize, usize)>)
    ensures
        match r {
        Some((kind, signing_len, private_len, frame_len)) => frame_layout(input@) == Some(
            (kind, signing_len as nat, private_len as nat, frame_len as nat),
        ),
        None => frame_layout(input@) is None,
    },
{
    if input.len() < DESTINATION_MINIMUM_LEN {
        return None;
    }
    let certificate_kind = input[384];
    let certificate_len = read_be_u16(input, 385);
    if certificate_kind == NULL_CERTIFICATE {
        Some((SigningKeyKind::DsaSha1, 128usize, 256usize, DESTINATION_WITH_NULL_CERT_LEN))
    } else if certificate_kind == KEY_CERTIFICATE && certificate_len == KEY_CERTIFICATE_LEN {
        if input.len() < DESTINATION_WITH_KEY_CERT_LEN {
            return None;
        }
        let signing_code = read_be_u16(input, 387);
        let private_code = read_be_u16(input, 389);
        let kind = match SigningKeyKind::from_code(signing_code) {
            Some(kind) => kind,
            None => return None,
        };
        let private_len = match private_key_len_from_code(private_code) {
            Some(n) => n,
            None => return None,
        };
        if kind == SigningKeyKind::DsaSha1 {
            return None;
        }
        Some((kind, kind.key_len(), private_len, DESTINATION_WITH_KEY_CERT_LEN))
    } else {
        None
    }
}

impl Destination {
    /// Every destination is the parse of its serialized bytes.
    pub open spec fn wf(&self) -> bool {
        parse_spec(self@.serialized) == Some(self@) && self@.id.len() == 32
    }

    /// Destination for an Ed25519 verifying key with the given padding: the
    /// padding, the key, and a key certificate for Ed25519 and X25519.
    pub fn with_padding(verifying_key: SigningPublicKey, padding: &[u8]) -> (r: Destination)
        requires
            verifying_key@.0 == SigningKeyKind::EdDsaSha512Ed25519,
            verifying_key.wf(),
            padding@.len() == PADDING_LEN,
        ensures
            r@.serialized == ed25519_destination_bytes(padding@, verifying_key@.1),
            r@.id == sha256_of(r@.serialized),
            r@.id.len() == 32,
            r@.key_kind == verifying_key@.0,
            r@.key == verifying_key@.1,
            r.wf(),
    {
        let mut out: Vec<u8> = Vec::new();
        append_bytes(&mut out, padding);
        append_bytes(&mut out, verifying_key.as_bytes());
        out.push(KEY_CERTIFICATE);
        out.push(0u8);
        out.push(4u8);
        out.push(0u8);
        out.push(7u8);
        out.push(0u8);
        out.push(4u8);
        proof {
            assert(out@ =~= ed25519_destination_bytes(padding@, verifying_key@.1));
        }
        let identity_hash = sha256(out.as_slice());
        let destination_id = DestinationId::from_bytes(identity_hash.as_slice());
        let r = Destination {
            destination_id,
            identity_hash,
            private_key_len: 32,
            serialized: out,
            signing_key_len: 32,
            verifying_key,
        };
        proof {
            lemma_ed25519_round_trip(padding@, verifying_key@.1);
            assert(r@ == parse_spec(r@.serialized).unwrap());
        }
        r
    }

    /// Create new [`Destination`] from an Ed25519 `verifying_key`, with random padding.
    pub fn new(verifying_key: SigningPublicKey) -> (r: Destination)
        requires
            verifying_key@.0 == SigningKeyKind::EdDsaSha512Ed25519,
            verifying_key.wf(),
        ensures
            r@.serialized.len() == DESTINATION_WITH_KEY_CERT_LEN,
            r@.serialized.subrange(352, 391) == verifying_key@.1 + seq![
                KEY_CERTIFICATE,
                0u8,
                4u8,
                0u8,
                7u8,
                0u8,
                4u8,
            ],
            r@.id == sha256_of(r@.serialized),
            r@.id.len() == 32,
            r@.key_kind == verifying_key@.0,
            r@.key == verifying_key@.1,
            r.wf(),
    {
        let padding = random_bytes(PADDING_LEN);
        let r = Destination::with_padding(verifying_key, padding.as_slice());
        proof {
            assert(r@.serialized.subrange(352, 391) =~= verifying_key@.1 + seq![
                KEY_CERTIFICATE,
                0u8,
                4u8,
                0u8,
                7u8,
                0u8,
                4u8,
            ]);
        }
        r
    }

    /// Parse [`Destination`] from the start of `input`, returning the rest of
    /// `input` and the destination; `None` exactly when `input` holds no valid frame.
    pub fn parse_frame(input: &[u8]) -> (r: Option<(&[u8], Destination)>)
        ensures
            match r {
                Some((rest, d)) => parse_spec(input@) == Some(d@) && rest@ == input@.subrange(
                    d@.serialized.len() as int,
                    input@.len() as int,
                ) && d.wf() && d@.id.len() == 32,
                None => parse_spec(input@) is None,
            },
    {
        let (kind, signing_key_len, private_key_len, destination_len) = match frame_layout_of(input) {
            Some(layout) => layout,
            None => return None,
        };
        let key_len = kind.key_len();
        let key_start = DESTINATION_LEN_NO_CERTIFICATE - key_len;
        let key_bytes = slice_subrange(input, key_start, DESTINATION_LEN_NO_CERTIFICATE);
        let verifying_key = match SigningPublicKey::from_kind_bytes(kind, key_bytes) {
            Some(key) => key,
            None => return None,
        };
        let frame = slice_subrange(input, 0, destination_len);
        let serialized = slice_to_vec(frame);
        let identity_hash = sha256(frame);
        let destination_id = DestinationId::from_bytes(identity_hash.as_slice());
        let rest = slice_subrange(input, destination_len, input.len());
        let d = Destination {
            destination_id,
            identity_hash,
            private_key_len,
            serialized,
            signing_key_len,
            verifying_key,
        };
        proof {
            let s = d@.serialized;
            assert(s.len() == destination_len);
            assert(s[384] == input@[384]);
            assert(s[385] == input@[385] && s[386] == input@[386]);
            if destination_len == DESTINATION_WITH_KEY_CERT_LEN {
                assert(s[387] == input@[387] && s[388] == input@[388]);
                assert(s[389] == input@[389] && s[390] == input@[390]);
            }
            assert(s.subrange(0, destination_len as int) =~= s);
            assert(s.subrange(384 - key_size(kind), 384) =~= input@.subrange(
                384 - key_size(kind),
                384,
            ));
        }
        Some((rest, d))
    }

    /// Try to parse a destination from `input`.
    pub fn parse(input: &[u8]) -> (r: Option<Destination>)
        ensures
            match r {
                Some(d) => parse_spec(input@) == Some(d@) && d.wf() && d@.id.len() == 32,
                None => parse_spec(input@) is None,
            },
    {
        match Destination::parse_frame(input) {
            Some((_, d)) => Some(d),
            None => None,
        }
    }

    /// Serialize [`Destination`] into a byte vector.
    pub fn serialize(&self) -> (r: Vec<u8>)
        ensures
            r@ == self@.serialized,
    {
        let out = self.serialized.clone();
        proof {
            assert(out@ =~= self.serialized@);
        }
        out
    }

    /// Serialized length of [`Destination`]: 387 bytes with a DSA-SHA1 key
    /// (null certificate), 391 with any other.
    pub fn serialized_len(&self) -> (r: usize)
        requires
            self.wf(),
        ensures
            r == self@.serialized.len(),
            r == (if self@.key_kind == SigningKeyKind::DsaSha1 {
                DESTINATION_WITH_NULL_CERT_LEN
            } else {
                DESTINATION_WITH_KEY_CERT_LEN
            }),
    {
        let certificate_payload_len: usize = match self.verifying_key.kind() {
            SigningKeyKind::DsaSha1 => 0,
            _ => 4,
        };
        proof {
            assert(self@.serialized.subrange(0, self@.serialized.len() as int) =~= self@.serialized);
        }
        32usize + 320 + 32 + 1 + 2 + certificate_payload_len
    }

    /// Get [`DestinationId`].
    pub fn id(&self) -> (r: DestinationId)
        ensures
            r@ == self@.id,
    {
        self.destination_id.clone()
    }

    /// Get reference to the verifying key of the [`Destination`].
    pub fn verifying_key(&self) -> (r: &SigningPublicKey)
        ensures
            r@ == (self@.key_kind, self@.key),
    {
        &self.verifying_key
    }

    /// Get length of the private key.
    pub fn private_key_length(&self) -> (r: usize)
        ensures
            r == self@.private_key_len,
    {
        self.private_key_len
    }

    /// Get length of the signing key.
    pub fn signing_key_length(&self) -> (r: usize)
        ensures
            r == self@.signing_key_len,
    {
        self.signing_key_len
    }

    /// Get reference to the serialized [`Destination`].
    pub fn serialized(&self) -> (r: &Vec<u8>)
        ensures
            r@ == self@.serialized,
    {
        &self.serialized
    }
}

/// Parsing what [`Destination::with_padding`] writes for a valid Ed25519 key gives
/// back a destination with the same key and the identifier of those bytes.
pub proof fn lemma_ed25519_round_trip(padding: Seq<u8>, key: Seq<u8>)
    requires
        padding.len() == PADDING_LEN,
        key.len() == 32,
        ed25519_key_valid(key),
    ensures
        parse_spec(ed25519_destination_bytes(padding, key)) == Some(
            DestinationModel {
                id: sha256_of(ed25519_destination_bytes(padding, key)),
                identity_hash: sha256_of(ed25519_destination_bytes(padding, key)),
                private_key_len: 32,
                serialized: ed25519_destination_bytes(padding, key),
                signing_key_len: 32,
                key_kind: SigningKeyKind::EdDsaSha512Ed25519,
                key,
            },
        ),
{
    let s = ed25519_destination_bytes(padding, key);
    assert(s.len() == 391);
    assert(s[384] == KEY_CERTIFICATE);
    assert(s[385] == 0 && s[386] == 4);
    assert(s[387] == 0 && s[388] == 7);
    assert(s[389] == 0 && s[390] == 4);
    assert(s.subrange(0, 391) =~= s);
    assert(s.subrange(352, 384) =~= key);
}

/// Serializing a destination and parsing the bytes gives the same identifier
/// and the same verifying key.
pub proof fn lemma_serialize_then_parse(d: Destination)
    requires
        d.wf(),
    ensures
        parse_spec(d@.serialized) matches Some(p) && p.id == d@.id && p.key == d@.key && p.key_kind
            == d@.key_kind,
{
}

/// Parsing fewer bytes than the shortest destination always fails.
pub proof fn lemma_short_input_fails(input: Seq<u8>)
    requires
        input.len() < DESTINATION_MINIMUM_LEN,
    ensures
        parse_spec(input) is None,
{
}

} // verus!
