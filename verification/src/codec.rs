//! Encoding of proofs: words to bytes, compression, and base64.

use base64::Engine;
use vstd::prelude::*;

verus! {

/// The `n` lowest bytes of `value`, the lowest first.
pub open spec fn le_bytes(value: nat, n: nat) -> Seq<u8>
    decreases n,
{
    if n == 0 {
        Seq::empty()
    } else {
        seq![(value % 256) as u8] + le_bytes(value / 256, (n - 1) as nat)
    }
}

/// The number whose lowest bytes are `bytes`, the lowest first.
pub open spec fn le_value(bytes: Seq<u8>) -> nat
    decreases bytes.len(),
{
    if bytes.len() == 0 {
        0
    } else {
        bytes[0] as nat + 256 * le_value(bytes.skip(1))
    }
}

/// The words of a proof as bytes, the lowest byte of each word first.
pub open spec fn words_le(words: Seq<u64>) -> Seq<u8>
    decreases words.len(),
{
    if words.len() == 0 {
        Seq::empty()
    } else {
        words_le(words.drop_last()) + le_bytes(words.last() as nat, 8)
    }
}

/// The words of a proof as bytes, the highest byte of each word first.
pub open spec fn words_be(words: Seq<u64>) -> Seq<u8>
    decreases words.len(),
{
    if words.len() == 0 {
        Seq::empty()
    } else {
        words_be(words.drop_last()) + le_bytes(words.last() as nat, 8).reverse()
    }
}

/// The words of a proof as bytes, the lowest byte of each word first.
pub fn proof_bytes(words: &Vec<u64>) -> (r: Vec<u8>)
    ensures
        r@ == words_le(words@),
{
    let mut out: Vec<u8> = Vec::new();
    let mut i: usize = 0;
    while i < words.len()
        invariant
            i <= words@.len(),
            out@ == words_le(words@.take(i as int)),
        decreases words@.len() - i,
    {
        let ghost before = out@;
        let mut rest: u64 = words[i];
        let mut k: usize = 0;
        assert(out@ =~= before + le_bytes(words@[i as int] as nat, 0));
        while k < 8
            invariant
                i < words@.len(),
                k <= 8,
                out@ + le_bytes(rest as nat, (8 - k) as nat) == before + le_bytes(
                    words@[i as int] as nat,
                    8,
                ),
            decreases 8 - k,
        {
            let ghost sofar = out@;
            let ghost value = rest as nat;
            out.push((rest % 256) as u8);
            rest = rest / 256;
            k = k + 1;
            assert(le_bytes(value, (9 - k) as nat) == seq![(value % 256) as u8] + le_bytes(
                value / 256,
                (8 - k) as nat,
            ));
            assert(out@ + le_bytes(rest as nat, (8 - k) as nat) =~= sofar + le_bytes(
                value,
                (9 - k) as nat,
            ));
        }
        assert(out@ =~= out@ + le_bytes(rest as nat, 0));
        i = i + 1;
        assert(words@.take(i as int).drop_last() =~= words@.take(i - 1));
    }
    assert(words@.take(i as int) =~= words@);
    out
}

proof fn lemma_le_bytes(value: nat, n: nat, limit: nat)
    requires
        limit == vstd::arithmetic::power::pow(256, n),
        value < limit,
    ensures
        le_bytes(value, n).len() == n,
        le_value(le_bytes(value, n)) == value,
    decreases n,
{
    vstd::arithmetic::power::lemma_pow0(256);
    if n > 0 {
        vstd::arithmetic::power::lemma_pow_adds(256, 1, (n - 1) as nat);
        vstd::arithmetic::power::lemma_pow1(256);
        vstd::arithmetic::power::lemma_pow_positive(256, (n - 1) as nat);
        let smaller = vstd::arithmetic::power::pow(256, (n - 1) as nat) as nat;
        lemma_le_bytes(value / 256, (n - 1) as nat, smaller);
        assert(le_bytes(value, n).skip(1) =~= le_bytes(value / 256, (n - 1) as nat));
    }
}

pub proof fn lemma_words_le_len(words: Seq<u64>)
    ensures
        words_le(words).len() == 8 * words.len(),
    decreases words.len(),
{
    if words.len() > 0 {
        lemma_words_le_len(words.drop_last());
        lemma_word_reads_back(words.last());
    }
}

proof fn lemma_word_reads_back(word: u64)
    ensures
        le_bytes(word as nat, 8).len() == 8,
        le_value(le_bytes(word as nat, 8)) == word,
{
    assert(vstd::arithmetic::power::pow(256, 8) == 0x1_0000_0000_0000_0000) by {
        reveal_with_fuel(vstd::arithmetic::power::pow, 9);
    }
    lemma_le_bytes(word as nat, 8, 0x1_0000_0000_0000_0000);
}

/// No word of a proof is lost in its bytes: eight bytes each, in order, from
/// which the word reads back.
pub proof fn law_proof_bytes_hold_every_word(words: Seq<u64>, i: int)
    requires
        0 <= i < words.len(),
    ensures
        words_le(words).len() == 8 * words.len(),
        le_value(words_le(words).subrange(8 * i, 8 * i + 8)) == words[i],
    decreases words.len(),
{
    lemma_words_le_len(words);
    lemma_words_le_len(words.drop_last());
    lemma_word_reads_back(words.last());
    let n = words.len() - 1;
    if i == n {
        assert(words_le(words).subrange(8 * i, 8 * i + 8) =~= le_bytes(words.last() as nat, 8));
    } else {
        law_proof_bytes_hold_every_word(words.drop_last(), i);
        assert(words_le(words).subrange(8 * i, 8 * i + 8) =~= words_le(words.drop_last()).subrange(
            8 * i,
            8 * i + 8,
        ));
    }
}

/// The character for six bits in the standard alphabet of base64.
pub open spec fn base64_char(bits: int) -> char {
    if bits < 26 {
        (('A' as int) + bits) as char
    } else if bits < 52 {
        (('a' as int) + (bits - 26)) as char
    } else if bits < 62 {
        (('0' as int) + (bits - 52)) as char
    } else if bits == 62 {
        '+'
    } else {
        '/'
    }
}

/// The base64 text of bytes in the standard alphabet, with padding: four
/// characters for every three bytes, six bits each, the highest first. A last
/// group of fewer bytes is filled up with zero bits and padded.
pub open spec fn base64_standard(bytes: Seq<u8>) -> Seq<char>
    decreases bytes.len(),
{
    if bytes.len() == 0 {
        Seq::empty()
    } else if bytes.len() == 1 {
        seq![base64_char(bytes[0] as int / 4), base64_char(bytes[0] as int % 4 * 16), '=', '=']
    } else if bytes.len() == 2 {
        seq![
            base64_char(bytes[0] as int / 4),
            base64_char(bytes[0] as int % 4 * 16 + bytes[1] as int / 16),
            base64_char(bytes[1] as int % 16 * 4),
            '=',
        ]
    } else {
        seq![
            base64_char(bytes[0] as int / 4),
            base64_char(bytes[0] as int % 4 * 16 + bytes[1] as int / 16),
            base64_char(bytes[1] as int % 16 * 4 + bytes[2] as int / 64),
            base64_char(bytes[2] as int % 64),
        ] + base64_standard(bytes.skip(3))
    }
}

/// The six bits that a character of base64 stands for.
pub open spec fn base64_bits(c: char) -> int {
    if 'A' <= c <= 'Z' {
        c as int - 'A' as int
    } else if 'a' <= c <= 'z' {
        c as int - 'a' as int + 26
    } else if '0' <= c <= '9' {
        c as int - '0' as int + 52
    } else if c == '+' {
        62
    } else {
        63
    }
}

/// The bytes that a padded base64 text stands for.
pub open spec fn base64_bytes(text: Seq<char>) -> Seq<u8>
    decreases text.len(),
{
    if text.len() < 4 {
        Seq::empty()
    } else {
        let first = (base64_bits(text[0]) * 4 + base64_bits(text[1]) / 16) as u8;
        let second = (base64_bits(text[1]) % 16 * 16 + base64_bits(text[2]) / 4) as u8;
        let third = (base64_bits(text[2]) % 4 * 64 + base64_bits(text[3])) as u8;
        if text[2] == '=' {
            seq![first]
        } else if text[3] == '=' {
            seq![first, second]
        } else {
            seq![first, second, third] + base64_bytes(text.skip(4))
        }
    }
}

proof fn lemma_base64_char(bits: int)
    requires
        0 <= bits < 64,
    ensures
        base64_bits(base64_char(bits)) == bits,
        base64_char(bits) != '=',
{
}

/// The base64 text of bytes has four characters for every three bytes or part of
/// them, and decodes to the bytes.
pub proof fn law_base64_decodes(bytes: Seq<u8>)
    ensures
        base64_standard(bytes).len() == (bytes.len() + 2) / 3 * 4,
        base64_bytes(base64_standard(bytes)) == bytes,
    decreases bytes.len(),
{
    let text = base64_standard(bytes);
    if bytes.len() > 0 {
        lemma_base64_char(bytes[0] as int / 4);
        lemma_base64_char(bytes[0] as int % 4 * 16);
    }
    if bytes.len() > 1 {
        lemma_base64_char(bytes[0] as int % 4 * 16 + bytes[1] as int / 16);
        lemma_base64_char(bytes[1] as int % 16 * 4);
    }
    if bytes.len() > 2 {
        lemma_base64_char(bytes[1] as int % 16 * 4 + bytes[2] as int / 64);
        lemma_base64_char(bytes[2] as int % 64);
        law_base64_decodes(bytes.skip(3));
        assert(text.skip(4) =~= base64_standard(bytes.skip(3)));
    }
    assert(base64_bytes(text) =~= bytes);
}

/// Different bytes have different base64 texts.
pub proof fn law_base64_is_injective(a: Seq<u8>, b: Seq<u8>)
    requires
        base64_standard(a) == base64_standard(b),
    ensures
        a == b,
{
    law_base64_decodes(a);
    law_base64_decodes(b);
}

/// Different proofs have different texts: the text of a proof tells its words.
pub proof fn law_proof_text_tells_words(a: Seq<u64>, b: Seq<u64>)
    requires
        base64_standard(words_le(a)) == base64_standard(words_le(b)),
    ensures
        a == b,
{
    law_base64_is_injective(words_le(a), words_le(b));
    lemma_words_le_len(a);
    lemma_words_le_len(b);
    assert forall|i: int| 0 <= i < a.len() implies a[i] == b[i] by {
        law_proof_bytes_hold_every_word(a, i);
        law_proof_bytes_hold_every_word(b, i);
    }
    assert(a =~= b);
}

/// Whether the base64 text of so many bytes fits in memory.
pub open spec fn encodable(len: nat) -> bool {
    (len + 2) / 3 * 4 <= isize::MAX
}

/// Calls `encode` of base64's `STANDARD` engine: it gives the base64 text of the
/// bytes in the standard alphabet, with padding. A text that does not fit in
/// memory would be a panic there.
#[verifier::external_body]
fn base64_encode(bytes: &[u8]) -> (r: String)
    requires
        encodable(bytes@.len()),
    ensures
        r@ == base64_standard(bytes@),
{
    base64::engine::general_purpose::STANDARD.encode(bytes)
}

/// Why a proof has no text.
#[derive(Clone, Copy, Debug, PartialEq, Eq, Structural)]
pub enum ProofError {
    /// Its text would not fit in memory.
    TooLong,
    /// It could not be compressed.
    Compression,
}

/// The base64 text of bytes, if it fits in memory.
pub fn encode_bytes(bytes: &[u8]) -> (r: Result<String, ProofError>)
    ensures
        match r {
            Ok(text) => encodable(bytes@.len()) && text@ == base64_standard(bytes@) && text@.len()
                == (bytes@.len() + 2) / 3 * 4,
            Err(error) => !encodable(bytes@.len()) && error == ProofError::TooLong,
        },
{
    let groups: usize = bytes.len() / 3 + if bytes.len() % 3 == 0 {
        0
    } else {
        1
    };
    proof {
        law_base64_decodes(bytes@);
    }
    if groups > isize::MAX as usize / 4 {
        Err(ProofError::TooLong)
    } else {
        Ok(base64_encode(bytes))
    }
}

/// What fails in reading or writing.
#[verifier::external_type_specification]
#[verifier::external_body]
pub struct ExIoError(std::io::Error);

/// The zstd frame of `data` at a compression level.
pub uninterp spec fn zstd_frame(data: Seq<u8>, level: i32) -> Seq<u8>;

/// Calls zstd's stream `Encoder`: it is made for the level, all of `data` is
/// written to it, and it is finished. The bytes that come out are named
/// `zstd_frame`. Not said is when it fails.
#[verifier::external_body]
fn zstd_compress(data: &[u8], level: i32) -> (r: Result<Vec<u8>, std::io::Error>)
    ensures
        r matches Ok(frame) ==> frame@ == zstd_frame(data@, level),
{
    let mut compressed = Vec::new();
    let mut encoder = zstd::stream::Encoder::new(&mut compressed, level)?;
    std::io::Write::write_all(&mut encoder, data)?;
    encoder.finish()?;
    Ok(compressed)
}

/// Calls bytemuck's `cast_slice` from words to bytes: the words as they lie in
/// memory. Whether the lowest or the highest byte of each word comes first
/// depends on the machine.
#[verifier::external_body]
fn words_in_memory(words: &[u64]) -> (r: &[u8])
    ensures
        r@ == words_le(words@) || r@ == words_be(words@),
{
    bytemuck::cast_slice::<u64, u8>(words)
}

/// The compression level of proofs.
pub const COMPRESSION_LEVEL: i32 = 1;

/// The base64 text of the compressed bytes of `data`.
pub open spec fn compressed_text(data: Seq<u8>) -> Seq<char> {
    base64_standard(zstd_frame(data, COMPRESSION_LEVEL))
}

/// One compression of the words of a proof: the words, and the bytes that came
/// out, if it did not fail.
pub struct Attempt {
    pub words: Seq<u64>,
    pub frame: Option<Seq<u8>>,
}

/// The history of compressions. It exists for proofs alone: it can only grow by
/// what zstd really returned.
pub struct EncodingLog {
    attempts: Ghost<Seq<Attempt>>,
}

impl View for EncodingLog {
    type V = Seq<Attempt>;

    closed spec fn view(&self) -> Seq<Attempt> {
        self.attempts@
    }
}

/// The bytes that a compression gave, if it did not fail.
pub open spec fn frame_view(frame: Result<Vec<u8>, std::io::Error>) -> Option<Seq<u8>> {
    match frame {
        Ok(bytes) => Some(bytes@),
        Err(_) => None,
    }
}

impl EncodingLog {
    /// A history without compressions.
    pub fn new() -> (r: Self)
        ensures
            r@ == Seq::<Attempt>::empty(),
    {
        EncodingLog { attempts: Ghost(Seq::empty()) }
    }

    /// Compresses the words of a proof as they lie in memory, and notes what came
    /// of it.
    pub fn compress(&mut self, words: &[u64]) -> (r: Result<Vec<u8>, std::io::Error>)
        ensures
            final(self)@ == old(self)@.push(Attempt { words: words@, frame: frame_view(r) }),
            final(self)@.last().frame is Some <==> r is Ok,
            r matches Ok(frame) ==> final(self)@.last().frame == Some(frame@),
            r matches Ok(frame) ==> frame@ == zstd_frame(words_le(words@), 1) || frame@
                == zstd_frame(words_be(words@), 1),
    {
        let frame = zstd_compress(words_in_memory(words), COMPRESSION_LEVEL);
        self.attempts = Ghost(
            self.attempts@.push(Attempt { words: words@, frame: frame_view(frame) }),
        );
        frame
    }
}

/// The base64 text of what the compression of a proof gave.
pub fn frame_text(frame: Result<Vec<u8>, std::io::Error>) -> (r: Result<String, ProofError>)
    ensures
        match frame {
            Ok(bytes) => match r {
                Ok(text) => encodable(bytes@.len()) && text@ == base64_standard(bytes@),
                Err(error) => !encodable(bytes@.len()) && error == ProofError::TooLong,
            },
            Err(_) => r == Err::<String, ProofError>(ProofError::Compression),
        },
{
    match frame {
        Ok(bytes) => encode_bytes(bytes.as_slice()),
        Err(_) => Err(ProofError::Compression),
    }
}

/// Why a proof has no compressed text.
#[derive(Debug)]
pub enum CompressError {
    /// Its text would not fit in memory.
    TooLong,
    /// It could not be compressed: what zstd said.
    Zstd(std::io::Error),
}

/// Compresses the words of a proof as they lie in memory, and gives their
/// base64 text. The order of the bytes in a word is that of the machine, and
/// whether the compression fails is up to zstd: without an error of its own there
/// is a text, unless it does not fit in memory.
pub fn encode_compressed(words: &[u64]) -> (r: Result<String, CompressError>)
    ensures
        r matches Ok(text) ==> text@ == compressed_text(words_le(words@)) || text@
            == compressed_text(words_be(words@)),
        r matches Err(CompressError::TooLong) ==> !encodable(
            zstd_frame(words_le(words@), COMPRESSION_LEVEL).len(),
        ) || !encodable(zstd_frame(words_be(words@), COMPRESSION_LEVEL).len()),
{
    match EncodingLog::new().compress(words) {
        Ok(bytes) => match encode_bytes(bytes.as_slice()) {
            Ok(text) => Ok(text),
            Err(_) => Err(CompressError::TooLong),
        },
        Err(error) => Err(CompressError::Zstd(error)),
    }
}

/// The base64 text of bytes fits in memory exactly if it is no longer than a
/// string can be.
pub proof fn law_encodable_fits(bytes: Seq<u8>)
    ensures
        encodable(bytes.len()) <==> base64_standard(bytes).len() <= isize::MAX,
{
    law_base64_decodes(bytes);
}

/// The characters of base64 are those of the standard alphabet, in its order.
pub proof fn law_base64_alphabet(bits: int)
    requires
        0 <= bits < 64,
    ensures
        base64_char(bits)
            == "ABCDEFGHIJKLMNOPQRSTUVWXYZabcdefghijklmnopqrstuvwxyz0123456789+/"@[bits],
        base64_bits(base64_char(bits)) == bits,
{
    reveal_strlit("ABCDEFGHIJKLMNOPQRSTUVWXYZabcdefghijklmnopqrstuvwxyz0123456789+/");
    lemma_base64_char(bits);
}

/// The text of compressed bytes decodes to the frame that zstd makes of them at
/// level one.
pub proof fn law_compressed_text_decodes(data: Seq<u8>)
    ensures
        base64_bytes(compressed_text(data)) == zstd_frame(data, 1),
{
    law_base64_decodes(zstd_frame(data, 1));
}

proof fn lemma_byte_weighs(value: nat, n: nat, k: nat)
    requires
        k < n,
    ensures
        le_bytes(value, n).len() == n,
        le_bytes(value, n)[k as int] == value as int / vstd::arithmetic::power::pow(256, k) % 256,
    decreases n,
{
    lemma_le_len(value, n);
    lemma_le_len(value / 256, (n - 1) as nat);
    vstd::arithmetic::power::lemma_pow0(256);
    if k > 0 {
        let j = (k - 1) as nat;
        lemma_byte_weighs(value / 256, (n - 1) as nat, j);
        vstd::arithmetic::power::lemma_pow_adds(256, 1, j);
        vstd::arithmetic::power::lemma_pow1(256);
        vstd::arithmetic::power::lemma_pow_positive(256, j);
        vstd::arithmetic::div_mod::lemma_div_denominator(
            value as int,
            256,
            vstd::arithmetic::power::pow(256, j),
        );
        assert(le_bytes(value, n)[k as int] == le_bytes(value / 256, (n - 1) as nat)[j as int]);
    }
}

proof fn lemma_le_len(value: nat, n: nat)
    ensures
        le_bytes(value, n).len() == n,
    decreases n,
{
    if n > 0 {
        lemma_le_len(value / 256, (n - 1) as nat);
    }
}

proof fn lemma_words_at(words: Seq<u64>, i: int, k: int)
    requires
        0 <= i < words.len(),
        0 <= k < 8,
    ensures
        words_le(words).len() == 8 * words.len(),
        words_be(words).len() == 8 * words.len(),
        words_le(words)[8 * i + k] == le_bytes(words[i] as nat, 8)[k],
        words_be(words)[8 * i + 7 - k] == le_bytes(words[i] as nat, 8)[k],
    decreases words.len(),
{
    lemma_words_le_len(words);
    let fewer = words.drop_last();
    lemma_words_le_len(fewer);
    lemma_words_be_len(words);
    lemma_words_be_len(fewer);
    lemma_le_len(words.last() as nat, 8);
    if i < words.len() - 1 {
        lemma_words_at(fewer, i, k);
        assert(words_le(words)[8 * i + k] == words_le(fewer)[8 * i + k]);
        assert(words_be(words)[8 * i + 7 - k] == words_be(fewer)[8 * i + 7 - k]);
    }
}

proof fn lemma_words_be_len(words: Seq<u64>)
    ensures
        words_be(words).len() == 8 * words.len(),
    decreases words.len(),
{
    if words.len() > 0 {
        lemma_words_be_len(words.drop_last());
        lemma_le_len(words.last() as nat, 8);
    }
}

/// Where the bytes of a word lie: the byte that counts for a power of 256 stands
/// that many places from the first of its eight, or from the last where the
/// highest byte comes first.
pub proof fn law_bytes_of_words(words: Seq<u64>, i: int, k: nat)
    requires
        0 <= i < words.len(),
        k < 8,
    ensures
        words_le(words).len() == 8 * words.len(),
        words_be(words).len() == 8 * words.len(),
        words_le(words)[8 * i + k] == words[i] as int / vstd::arithmetic::power::pow(256, k) % 256,
        words_be(words)[8 * i + 7 - k] == words[i] as int / vstd::arithmetic::power::pow(256, k)
            % 256,
{
    lemma_words_at(words, i, k as int);
    lemma_byte_weighs(words[i] as nat, 8, k);
}

} // verus!
