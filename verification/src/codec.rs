//! The persisted wire form of a batch guest input: the input is
//! serialized, the bytes are zlib-compressed, and the compressed bytes are
//! base64-encoded into the proof payload. Decoding runs the same chain
//! backwards, and restores exactly the input that was encoded.
//!
//! The serializer, the compressor and the text encoding are outside
//! libraries; each is reached through one trusted wrapper whose contract
//! names its result, and everything around the calls is verified.

use vstd::prelude::*;

use crate::entity::{Proof, ProofV, ProverArgs, args_lookup};

verus! {

/// A batch guest input as the wire form carries it: which batch it is, the
/// blocks it covers, and the chain data the proof runs over.
#[derive(Debug)]
pub struct BatchInput {
    pub batch_id: u64,
    pub block_numbers: Vec<u64>,
    pub data: Vec<u8>,
}

/// Mathematical form of a batch guest input.
pub struct BatchInputV {
    pub batch_id: u64,
    pub block_numbers: Seq<u64>,
    pub data: Seq<u8>,
}

impl View for BatchInput {
    type V = BatchInputV;

    open spec fn view(&self) -> BatchInputV {
        BatchInputV {
            batch_id: self.batch_id,
            block_numbers: self.block_numbers@,
            data: self.data@,
        }
    }
}

/// Where the wire form of a foreign payload broke down while being read.
#[derive(Clone, Copy, PartialEq, Eq, Structural, Debug)]
pub enum CodecError {
    /// The payload is not valid base64.
    Decode,
    /// The decoded bytes are not a valid compressed stream.
    Decompress,
    /// The decompressed bytes do not deserialize to a batch input.
    Deserialize,
}

/// The bytes the serializer produces for a batch input's fields.
pub uninterp spec fn bincode_bytes_of(batch_id: u64, block_numbers: Seq<u64>, data: Seq<u8>) -> Seq<
    u8,
>;

/// What the deserializer reads out of a byte string, if anything.
pub uninterp spec fn bincode_parse_of(bytes: Seq<u8>) -> Option<(u64, Seq<u64>, Seq<u8>)>;

/// The compressed form the zlib encoder produces for a byte string.
pub uninterp spec fn zlib_deflate_of(data: Seq<u8>) -> Seq<u8>;

/// What the zlib decoder reads out of a byte string, if anything.
pub uninterp spec fn zlib_inflate_of(data: Seq<u8>) -> Option<Seq<u8>>;

/// The base64 text of a byte string, standard alphabet with padding.
pub uninterp spec fn b64_of(data: Seq<u8>) -> Seq<char>;

/// What the base64 decoder reads out of a text, if anything.
pub uninterp spec fn b64_parse_of(text: Seq<char>) -> Option<Seq<u8>>;

/// Relies on bincode::serialize with its default configuration: the bytes
/// are a function of the values alone, and bincode::deserialize restores
/// the values from them. Serializing these values into memory cannot fail:
/// the default configuration sets no size limit, and the writer is a
/// growable buffer.
#[verifier::external_body]
fn bincode_encode_batch(batch_id: u64, block_numbers: &Vec<u64>, data: &Vec<u8>) -> (r: Option<
    Vec<u8>,
>)
    ensures
        match r {
            Some(b) => b@ == bincode_bytes_of(batch_id, block_numbers@, data@) && bincode_parse_of(
                b@,
            ) == Some((batch_id, block_numbers@, data@)),
            None => false,
        },
{
    match bincode::serialize(&(batch_id, block_numbers, data)) {
        Ok(b) => Some(b),
        Err(_) => None,
    }
}

/// Relies on bincode::deserialize with its default configuration: what it
/// reads is a function of the bytes alone, and the serializer's output
/// reads back as the values it was given.
#[verifier::external_body]
fn bincode_decode_batch(bytes: &Vec<u8>) -> (r: Option<(u64, Vec<u64>, Vec<u8>)>)
    ensures
        match r {
            Some(t) => bincode_parse_of(bytes@) == Some((t.0, t.1@, t.2@)) && forall|
                batch_id: u64,
                block_numbers: Seq<u64>,
                data: Seq<u8>,
            |
                bytes@ == bincode_bytes_of(batch_id, block_numbers, data) ==> (t.0 == batch_id
                    && t.1@ == block_numbers && t.2@ == data),
            None => bincode_parse_of(bytes@) is None && forall|
                batch_id: u64,
                block_numbers: Seq<u64>,
                data: Seq<u8>,
            | bytes@ != bincode_bytes_of(batch_id, block_numbers, data),
        },
{
    match bincode::deserialize::<(u64, Vec<u64>, Vec<u8>)>(bytes.as_slice()) {
        Ok(t) => Some(t),
        Err(_) => None,
    }
}

/// Relies on flate2's zlib encoder at the default compression level: the
/// compressed bytes are a function of the input alone. Compressing into a
/// growable buffer cannot fail: the encoder's only error source is its
/// writer.
#[verifier::external_body]
fn zlib_compress(data: &Vec<u8>) -> (r: Option<Vec<u8>>)
    ensures
        match r {
            Some(b) => b@ == zlib_deflate_of(data@),
            None => false,
        },
{
    let mut enc = flate2::write::ZlibEncoder::new(Vec::new(), flate2::Compression::default());
    if std::io::Write::write_all(&mut enc, data.as_slice()).is_err() {
        return None;
    }
    match enc.finish() {
        Ok(b) => Some(b),
        Err(_) => None,
    }
}

/// Relies on flate2's zlib decoder: what it reads is a function of the
/// bytes alone, and the encoder's output reads back as the bytes it was
/// given (zlib is lossless).
#[verifier::external_body]
fn zlib_decompress(data: &Vec<u8>) -> (r: Option<Vec<u8>>)
    ensures
        match r {
            Some(b) => zlib_inflate_of(data@) == Some(b@) && forall|orig: Seq<u8>|
                data@ == zlib_deflate_of(orig) ==> b@ == orig,
            None => zlib_inflate_of(data@) is None && forall|orig: Seq<u8>|
                data@ != zlib_deflate_of(orig),
        },
{
    let mut out = Vec::new();
    let mut dec = flate2::read::ZlibDecoder::new(data.as_slice());
    match std::io::Read::read_to_end(&mut dec, &mut out) {
        Ok(_) => Some(out),
        Err(_) => None,
    }
}

/// Relies on base64's standard-alphabet engine with padding: the text is a
/// function of the bytes alone.
#[verifier::external_body]
fn b64_encode(data: &Vec<u8>) -> (r: String)
    ensures
        r@ == b64_of(data@),
{
    base64::Engine::encode(&base64::engine::general_purpose::STANDARD, data.as_slice())
}

/// Relies on base64's standard-alphabet engine with padding: what it
/// decodes is a function of the text alone, and an encoded text decodes
/// back to the bytes it encoded.
#[verifier::external_body]
fn b64_decode(text: &str) -> (r: Option<Vec<u8>>)
    ensures
        match r {
            Some(b) => b64_parse_of(text@) == Some(b@) && forall|orig: Seq<u8>|
                text@ == b64_of(orig) ==> b@ == orig,
            None => b64_parse_of(text@) is None && forall|orig: Seq<u8>| text@ != b64_of(orig),
        },
{
    match base64::Engine::decode(&base64::engine::general_purpose::STANDARD, text) {
        Ok(b) => Some(b),
        Err(_) => None,
    }
}

/// The wire form of a batch guest input: its serialized bytes, compressed,
/// as base64 text.
pub open spec fn batch_payload_of(b: BatchInputV) -> Seq<char> {
    b64_of(zlib_deflate_of(bincode_bytes_of(b.batch_id, b.block_numbers, b.data)))
}

/// Produce the wire form of a batch guest input: serialize, compress,
/// encode. The text is exactly the input's wire form, and decoding it
/// restores the input.
pub fn encode_batch_input(input: &BatchInput) -> (r: String)
    ensures
        r@ == batch_payload_of(input@),
{
    let bytes = match bincode_encode_batch(input.batch_id, &input.block_numbers, &input.data) {
        Some(b) => b,
        None => vstd::pervasive::unreached(),
    };
    let compressed = match zlib_compress(&bytes) {
        Some(c) => c,
        None => vstd::pervasive::unreached(),
    };
    b64_encode(&compressed)
}

/// Read a batch guest input back out of its wire form: decode, decompress,
/// deserialize. Any text that is the wire form of an input yields exactly
/// that input, so decoding inverts encoding; each error names the first
/// stage at which a foreign text breaks down.
pub fn decode_batch_input(text: &str) -> (r: Result<BatchInput, CodecError>)
    ensures
        forall|b: BatchInputV|
            text@ == batch_payload_of(b) ==> (r matches Ok(out) && out@ == b),
        match r {
            Ok(out) => ({
                &&& b64_parse_of(text@) matches Some(compressed)
                &&& zlib_inflate_of(compressed) matches Some(bytes)
                &&& bincode_parse_of(bytes) == Some(
                    (out@.batch_id, out@.block_numbers, out@.data),
                )
            }),
            Err(CodecError::Decode) => b64_parse_of(text@) is None,
            Err(CodecError::Decompress) => b64_parse_of(text@) matches Some(compressed)
                && zlib_inflate_of(compressed) is None,
            Err(CodecError::Deserialize) => b64_parse_of(text@) matches Some(compressed)
                && zlib_inflate_of(compressed) matches Some(bytes) && bincode_parse_of(
                bytes,
            ) is None,
        },
{
    let compressed = match b64_decode(text) {
        Some(c) => c,
        None => {
            proof {
                assert forall|b: BatchInputV| text@ == batch_payload_of(b) implies false by {
                    let inner = zlib_deflate_of(
                        bincode_bytes_of(b.batch_id, b.block_numbers, b.data),
                    );
                    assert(text@ == b64_of(inner));
                }
            }
            return Err(CodecError::Decode);
        },
    };
    let bytes = match zlib_decompress(&compressed) {
        Some(b) => b,
        None => {
            proof {
                assert forall|b: BatchInputV| text@ == batch_payload_of(b) implies false by {
                    let inner = zlib_deflate_of(
                        bincode_bytes_of(b.batch_id, b.block_numbers, b.data),
                    );
                    assert(text@ == b64_of(inner));
                    assert(compressed@ == inner);
                }
            }
            return Err(CodecError::Decompress);
        },
    };
    match bincode_decode_batch(&bytes) {
        Some((batch_id, block_numbers, data)) => {
            let out = BatchInput { batch_id, block_numbers, data };
            proof {
                assert forall|b: BatchInputV| text@ == batch_payload_of(b) implies out@ == b by {
                    let inner = zlib_deflate_of(
                        bincode_bytes_of(b.batch_id, b.block_numbers, b.data),
                    );
                    assert(text@ == b64_of(inner));
                    assert(compressed@ == inner);
                    assert(bytes@ == bincode_bytes_of(b.batch_id, b.block_numbers, b.data));
                }
            }
            Ok(out)
        },
        None => {
            proof {
                assert forall|b: BatchInputV| text@ == batch_payload_of(b) implies false by {
                    let inner = zlib_deflate_of(
                        bincode_bytes_of(b.batch_id, b.block_numbers, b.data),
                    );
                    assert(text@ == b64_of(inner));
                    assert(compressed@ == inner);
                    assert(bytes@ == bincode_bytes_of(b.batch_id, b.block_numbers, b.data));
                }
            }
            Err(CodecError::Deserialize)
        },
    }
}

/// The proof artifact a batch guest-input request completes with: its
/// payload is the input's wire form.
pub fn batch_guest_input_proof(input: &BatchInput) -> (r: Proof)
    ensures
        r@ == (ProofV { proof: Some(batch_payload_of(input@)), input: None }),
{
    Proof::with_payload(encode_batch_input(input))
}

/// Where a batch proof's guest input comes from.
#[derive(Debug)]
pub enum BatchInputPlan {
    /// The request's arguments carried a previously encoded input: it was
    /// decoded and is reused.
    Decoded(BatchInput),
    /// No encoded input was carried: one must be regenerated.
    Regenerate,
}

/// Choose the guest input for a batch proof: an input carried in the
/// request's arguments under `batch_guest_input` is decoded from its wire
/// form; without one, the input is regenerated. A carried text that is not
/// a wire form is an error, named after the stage it broke down at.
pub fn plan_batch_input(prover_args: &ProverArgs) -> (r: Result<BatchInputPlan, CodecError>)
    ensures
        args_lookup(prover_args@, "batch_guest_input"@) is None ==> (r matches Ok(p) && p
            is Regenerate),
        args_lookup(prover_args@, "batch_guest_input"@) matches Some(text) ==> ({
            &&& forall|b: BatchInputV|
                text == batch_payload_of(b) ==> (r matches Ok(p) && p matches
                BatchInputPlan::Decoded(out) && out@ == b)
            &&& match r {
                Ok(p) => p matches BatchInputPlan::Decoded(out) && ({
                    &&& b64_parse_of(text) matches Some(compressed)
                    &&& zlib_inflate_of(compressed) matches Some(bytes)
                    &&& bincode_parse_of(bytes) == Some(
                        (out@.batch_id, out@.block_numbers, out@.data),
                    )
                }),
                Err(CodecError::Decode) => b64_parse_of(text) is None,
                Err(CodecError::Decompress) => b64_parse_of(text) matches Some(compressed)
                    && zlib_inflate_of(compressed) is None,
                Err(CodecError::Deserialize) => b64_parse_of(text) matches Some(compressed)
                    && zlib_inflate_of(compressed) matches Some(bytes) && bincode_parse_of(
                    bytes,
                ) is None,
            }
        }),
{
    let name: String = String::from_str("batch_guest_input");
    match prover_args.get(&name) {
        None => Ok(BatchInputPlan::Regenerate),
        Some(text) => match decode_batch_input(text.as_str()) {
            Ok(input) => Ok(BatchInputPlan::Decoded(input)),
            Err(e) => Err(e),
        },
    }
}

} // verus!
