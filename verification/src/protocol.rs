//! Blocks and the messages in which the input servers announce them.

use vstd::prelude::*;
use vstd::string::*;
use vstd::utf8::*;

use crate::text::{push_decimal, take_chars};
#[allow(unused_imports)]
use crate::text::{
    decimal, find, law_decimal_is_digits, law_decimal_is_injective, lemma_find_is, prefix,
};

verus! {

/// What a message announces: a queued block, or the input of a block.
#[derive(Debug, Clone, Copy, PartialEq, Eq, Structural)]
pub enum BlockCommand {
    Queued,
    Input,
}

/// A block to prove. The timestamp is in seconds.
#[derive(Debug)]
pub struct BlockInfo {
    pub block_number: u64,
    pub timestamp: u64,
    pub block_hash: String,
    pub tx_count: usize,
    pub mgas: u64,
}

/// The contents of a [`BlockInfo`].
pub struct BlockInfoView {
    pub block_number: u64,
    pub timestamp: u64,
    pub block_hash: Seq<char>,
    pub tx_count: usize,
    pub mgas: u64,
}

impl View for BlockInfo {
    type V = BlockInfoView;

    open spec fn view(&self) -> BlockInfoView {
        BlockInfoView {
            block_number: self.block_number,
            timestamp: self.timestamp,
            block_hash: self.block_hash@,
            tx_count: self.tx_count,
            mgas: self.mgas,
        }
    }
}

impl Clone for BlockInfo {
    fn clone(&self) -> (r: Self)
        ensures
            r == *self,
    {
        BlockInfo {
            block_number: self.block_number,
            timestamp: self.timestamp,
            block_hash: self.block_hash.clone(),
            tx_count: self.tx_count,
            mgas: self.mgas,
        }
    }
}

impl BlockInfoView {
    /// The first six characters of the block's hash.
    pub open spec fn short_hash(self) -> Seq<char> {
        prefix(self.block_hash, 6)
    }

    /// The block's input file without its extension: number and short hash.
    pub open spec fn file_stem(self) -> Seq<char> {
        decimal(self.block_number as nat) + "_"@ + self.short_hash()
    }

    /// The name of the block's input file.
    pub open spec fn filename(self) -> Seq<char> {
        self.file_stem() + ".bin"@
    }
}

/// The first six characters of a hash.
pub fn short_hash(hash: &str) -> (r: String)
    ensures
        r@ == prefix(hash@, 6),
{
    take_chars(hash, 6)
}

impl BlockInfo {
    /// The first six characters of the block's hash.
    pub fn short_hash(&self) -> (r: String)
        ensures
            r@ == self@.short_hash(),
    {
        short_hash(self.block_hash.as_str())
    }

    /// The name of the block's input file: `<number>_<short hash>.bin`.
    pub fn filename(&self) -> (r: String)
        ensures
            r@ == self@.filename(),
    {
        let mut name = String::new();
        push_decimal(&mut name, self.block_number);
        name.append("_");
        let hash = self.short_hash();
        name.append(hash.as_str());
        name.append(".bin");
        assert(name@ =~= self@.filename());
        name
    }
}

/// An announcement of an input server.
#[derive(Debug)]
pub struct BlockMessage {
    pub command: BlockCommand,
    pub info: BlockInfo,
}

impl Clone for BlockMessage {
    fn clone(&self) -> (r: Self)
        ensures
            r == *self,
    {
        BlockMessage { command: self.command, info: self.info.clone() }
    }
}

impl BlockMessage {
    /// Announces that a block is queued: of the block only its number is given.
    pub fn new_queued(block_number: u64) -> (r: Self)
        ensures
            r.command == BlockCommand::Queued,
            r.info@ == (BlockInfoView {
                block_number,
                timestamp: 0,
                block_hash: Seq::empty(),
                tx_count: 0,
                mgas: 0,
            }),
    {
        BlockMessage {
            command: BlockCommand::Queued,
            info: BlockInfo {
                block_number,
                timestamp: 0,
                block_hash: String::new(),
                tx_count: 0,
                mgas: 0,
            },
        }
    }

    /// Announces the input of a block.
    pub fn new_input(
        block_number: u64,
        timestamp: u64,
        block_hash: String,
        tx_count: usize,
        mgas: u64,
    ) -> (r: Self)
        ensures
            r.command == BlockCommand::Input,
            r.info == (BlockInfo { block_number, timestamp, block_hash, tx_count, mgas }),
    {
        BlockMessage {
            command: BlockCommand::Input,
            info: BlockInfo { block_number, timestamp, block_hash, tx_count, mgas },
        }
    }
}

/// The bytes of a message to a client: the command line, a newline, and what
/// the command carries.
pub open spec fn frame(command: Seq<char>, content: Seq<u8>) -> Seq<u8> {
    encode_utf8(command).push(10u8) + content
}

/// The message for a command that carries nothing.
pub fn queued_payload(command: &str) -> (r: Vec<u8>)
    ensures
        r@ == frame(command@, Seq::empty()),
{
    let mut payload: Vec<u8> = Vec::new();
    payload.extend_from_slice(command.as_bytes());
    payload.push(10);
    assert(payload@ =~= frame(command@, Seq::empty()));
    payload
}

/// The message for a command that carries the contents of an input file.
pub fn input_payload(command: &str, content: &[u8]) -> (r: Vec<u8>)
    ensures
        r@ == frame(command@, content@),
{
    let mut payload: Vec<u8> = Vec::new();
    payload.extend_from_slice(command.as_bytes());
    payload.push(10);
    payload.extend_from_slice(content);
    assert(payload@ =~= frame(command@, content@));
    payload
}

proof fn lemma_encoded_scalar_has_no_newline(v: u32)
    requires
        is_scalar(v),
        v != 10,
    ensures
        !encode_scalar(v).contains(10u8),
{
    assert(v < 0x80 && v != 10 ==> (v & 0x7F) as u8 != 10) by (bit_vector);
    assert((0xC0u8 | ((v >> 6) & 0x1F) as u8) != 10) by (bit_vector);
    assert((0xE0u8 | ((v >> 12) & 0x0F) as u8) != 10) by (bit_vector);
    assert((0xF0u8 | ((v >> 18) & 0x07) as u8) != 10) by (bit_vector);
    assert((0x80u8 | (v & 0x3F) as u8) != 10) by (bit_vector);
    assert((0x80u8 | ((v >> 6) & 0x3F) as u8) != 10) by (bit_vector);
    assert((0x80u8 | ((v >> 12) & 0x3F) as u8) != 10) by (bit_vector);
}

proof fn lemma_encoded_char_has_no_newline(c: char)
    requires
        c != '\n',
    ensures
        !encode_scalar(c as u32).contains(10u8),
{
    char_is_scalar(c);
    lemma_encoded_scalar_has_no_newline(c as u32);
}

proof fn lemma_encoding_has_no_newline(s: Seq<char>)
    requires
        !s.contains('\n'),
    ensures
        !encode_utf8(s).contains(10u8),
    decreases s.len(),
{
    if s.len() > 0 {
        let rest = s.drop_first();
        assert forall|i: int| 0 <= i < rest.len() implies rest[i] != '\n' by {
            assert(rest[i] == s[i + 1]);
            assert(s.contains(s[i + 1]));
        }
        lemma_encoding_has_no_newline(rest);
        assert(s.contains(s[0]));
        lemma_encoded_char_has_no_newline(s[0]);
        let head = encode_scalar(s[0] as u32);
        let tail = encode_utf8(rest);
        assert(encode_utf8(s) == head + tail);
        assert forall|i: int| 0 <= i < (head + tail).len() implies (head + tail)[i] != 10u8 by {
            if i < head.len() {
                assert(head.contains(head[i]));
            } else {
                assert((head + tail)[i] == tail[i - head.len()]);
                assert(tail.contains(tail[i - head.len()]));
            }
        }
    }
}

/// A client can take a message apart: the first newline ends the command, and
/// everything behind it is what the command carries.
pub proof fn law_frame_comes_apart(command: Seq<char>, content: Seq<u8>, at: int)
    requires
        !command.contains('\n'),
        0 <= at < frame(command, content).len(),
        frame(command, content)[at] == 10u8,
        forall|i: int| 0 <= i < at ==> frame(command, content)[i] != 10u8,
    ensures
        decode_utf8(frame(command, content).take(at)) == command,
        frame(command, content).skip(at + 1) == content,
{
    lemma_encoding_has_no_newline(command);
    let head = encode_utf8(command);
    let n = head.len() as int;
    assert(frame(command, content)[n] == 10u8);
    if at < n {
        assert(frame(command, content)[at] == head[at]);
        assert(head.contains(head[at]));
    }
    assert(frame(command, content).take(at) =~= head);
    assert(frame(command, content).skip(at + 1) =~= content);
    encode_utf8_decode_utf8(command);
}

pub proof fn lemma_stem_number_end(info: BlockInfoView)
    ensures
        find(info.file_stem(), '_', 0) == decimal(info.block_number as nat).len(),
{
    reveal_strlit("_");
    let d = decimal(info.block_number as nat);
    law_decimal_is_digits(info.block_number as nat);
    lemma_find_is(info.file_stem(), '_', 0, d.len() as int);
}

/// Input files of different blocks have different names: the name tells the
/// number and the short hash.
pub proof fn law_filename_tells_block(a: BlockInfoView, b: BlockInfoView)
    requires
        a.filename() == b.filename(),
    ensures
        a.block_number == b.block_number,
        a.short_hash() == b.short_hash(),
{
    reveal_strlit("_");
    let n = a.file_stem().len() as int;
    assert(a.filename().len() == n + ".bin"@.len());
    assert(b.filename().len() == b.file_stem().len() + ".bin"@.len());
    assert(a.file_stem() =~= a.filename().take(n));
    assert(b.file_stem() =~= b.filename().take(n));
    lemma_stem_number_end(a);
    lemma_stem_number_end(b);
    let k = decimal(a.block_number as nat).len() as int;
    assert(decimal(a.block_number as nat) =~= a.file_stem().take(k));
    assert(decimal(b.block_number as nat) =~= b.file_stem().take(k));
    law_decimal_is_injective(a.block_number as nat, b.block_number as nat);
    assert(a.short_hash() =~= a.file_stem().skip(k + 1));
    assert(b.short_hash() =~= b.file_stem().skip(k + 1));
}

/// The contents of a block are those of its fields.
pub proof fn law_block_contents(info: BlockInfo)
    ensures
        info@.block_number == info.block_number,
        info@.timestamp == info.timestamp,
        info@.block_hash == info.block_hash@,
        info@.tx_count == info.tx_count,
        info@.mgas == info.mgas,
{
}

/// The name of a block's input file: its number in decimal, an underscore, the
/// first six characters of its hash or all of a shorter one, and the ending.
pub proof fn law_filename_is_made_of(info: BlockInfoView)
    ensures
        info.short_hash().is_prefix_of(info.block_hash),
        info.short_hash().len() == if info.block_hash.len() < 6 {
            info.block_hash.len()
        } else {
            6
        },
        info.filename() == decimal(info.block_number as nat) + "_"@ + info.short_hash() + ".bin"@,
{
}

/// A message is the command's UTF-8 text, a newline, and what the command carries,
/// whatever characters the command holds.
pub proof fn law_frame_is_made_of(command: Seq<char>, content: Seq<u8>)
    ensures
        frame(command, content) == encode_utf8(command) + seq![10u8] + content,
{
    assert(frame(command, content) =~= encode_utf8(command) + seq![10u8] + content);
}

} // verus!
