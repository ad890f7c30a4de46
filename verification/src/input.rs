//! Where blocks come from: the headers of a node, or the input files of a
//! folder.

use vstd::prelude::*;
use vstd::string::*;

use crate::action::Action;
#[allow(unused_imports)]
use crate::action::ActionView;
use crate::process::process_queued;
use crate::protocol::BlockInfo;
#[allow(unused_imports)]
use crate::protocol::{lemma_stem_number_end, BlockInfoView};
use crate::state::AppState;
#[allow(unused_imports)]
use crate::text::{
    decimal, first_number, hex, law_decimal_is_digits, law_decimal_reads_back,
    law_first_number_is_first, parse_u64, prefix, split, split_from,
};
use crate::text::{first_number_token, from_chars, hex_string, take_chars, to_chars};

verus! {

/// Seconds to wait before connecting to a node again.
pub const RECONNECT_SECS: u64 = 5;

/// The sum of input times.
pub open spec fn sum(times: Seq<u128>) -> int
    decreases times.len(),
{
    if times.len() == 0 {
        0
    } else {
        sum(times.drop_last()) + times.last()
    }
}

/// The longest, the shortest and the total of the input times so far, and how
/// many they are.
#[derive(Clone, Copy, Debug, PartialEq, Eq, Structural)]
pub struct InputStats {
    pub max_input_time: u128,
    pub min_input_time: u128,
    pub total_input_time: u128,
    pub input_count: u64,
}

impl InputStats {
    /// Whether these are the figures of `times`.
    pub open spec fn describes(self, times: Seq<u128>) -> bool {
        &&& self.input_count == times.len()
        &&& self.total_input_time == sum(times)
        &&& forall|i: int|
            0 <= i < times.len() ==> self.min_input_time <= #[trigger] times[i]
                <= self.max_input_time
        &&& times.len() == 0 ==> self.max_input_time == 0 && self.min_input_time == u128::MAX
        &&& times.len() > 0 ==> times.contains(self.max_input_time) && times.contains(
            self.min_input_time,
        )
    }

    /// The figures before the first input.
    pub fn new() -> (r: Self)
        ensures
            r.describes(Seq::empty()),
            r.input_count == 0,
            r.total_input_time == 0,
            r.max_input_time == 0,
            r.min_input_time == u128::MAX,
    {
        InputStats {
            max_input_time: 0,
            min_input_time: u128::MAX,
            total_input_time: 0,
            input_count: 0,
        }
    }

    /// Takes the time of one more input into the figures.
    pub fn record(&mut self, input_time: u128)
        requires
            old(self).total_input_time + input_time <= u128::MAX,
            old(self).input_count < u64::MAX,
        ensures
            final(self).total_input_time == old(self).total_input_time + input_time,
            final(self).input_count == old(self).input_count + 1,
            final(self).max_input_time == if input_time > old(self).max_input_time {
                input_time
            } else {
                old(self).max_input_time
            },
            final(self).min_input_time == if input_time < old(self).min_input_time {
                input_time
            } else {
                old(self).min_input_time
            },
            forall|times: Seq<u128>| #[trigger]
                old(self).describes(times) ==> final(self).describes(times.push(input_time)),
    {
        self.total_input_time = self.total_input_time + input_time;
        self.input_count = self.input_count + 1;
        if input_time > self.max_input_time {
            self.max_input_time = input_time;
        }
        if input_time < self.min_input_time {
            self.min_input_time = input_time;
        }
        proof {
            assert forall|times: Seq<u128>| #[trigger] old(self).describes(times) implies self.describes(
                times.push(input_time),
            ) by {
                let more = times.push(input_time);
                assert(more.drop_last() =~= times);
                assert(more[times.len() as int] == input_time);
                if times.len() > 0 {
                    let i = choose|i: int|
                        0 <= i < times.len() && times[i] == old(self).max_input_time;
                    assert(more[i] == old(self).max_input_time);
                    let j = choose|j: int|
                        0 <= j < times.len() && times[j] == old(self).min_input_time;
                    assert(more[j] == old(self).min_input_time);
                }
            }
        }
    }

    /// The mean of the input times, rounded down.
    pub fn average(&self) -> (r: u128)
        requires
            self.input_count > 0,
        ensures
            r == self.total_input_time as int / self.input_count as int,
    {
        self.total_input_time / self.input_count as u128
    }
}

proof fn lemma_sum_between(times: Seq<u128>, low: int, high: int)
    requires
        forall|i: int| 0 <= i < times.len() ==> low <= #[trigger] times[i] <= high,
    ensures
        low * times.len() <= sum(times) <= high * times.len(),
    decreases times.len(),
{
    if times.len() > 0 {
        let fewer = times.drop_last();
        assert forall|i: int| 0 <= i < fewer.len() implies low <= #[trigger] fewer[i] <= high by {
            assert(fewer[i] == times[i]);
        }
        lemma_sum_between(fewer, low, high);
        let n = times.len() as int;
        assert(low * n == low * (n - 1) + low) by (nonlinear_arith);
        assert(high * n == high * (n - 1) + high) by (nonlinear_arith);
    }
}

/// The mean of the input times lies between the shortest and the longest.
pub proof fn law_average_is_between(stats: InputStats, times: Seq<u128>)
    requires
        stats.describes(times),
        times.len() > 0,
    ensures
        stats.min_input_time <= stats.total_input_time as int / stats.input_count as int
            <= stats.max_input_time,
{
    let low = stats.min_input_time as int;
    let high = stats.max_input_time as int;
    let n = times.len() as int;
    let total = stats.total_input_time as int;
    lemma_sum_between(times, low, high);
    assert(low <= total / n <= high) by (nonlinear_arith)
        requires
            n > 0,
            low * n <= total <= high * n,
    ;
}

/// The header of a block, as a node announces it.
#[derive(Debug)]
pub struct BlockHeader {
    pub number: Option<u64>,
    pub hash: Option<Vec<u8>>,
    pub timestamp: u64,
    pub tx_count: usize,
    pub gas_used: u64,
}

impl BlockHeader {
    /// The text of the hash.
    pub open spec fn hash_text_of(self) -> Seq<char> {
        match self.hash {
            Some(hash) => hex(hash@),
            None => "nohash"@,
        }
    }

    /// What is known of the block with this header.
    pub open spec fn info_of(self, block_number: u64) -> BlockInfoView {
        BlockInfoView {
            block_number,
            timestamp: self.timestamp,
            block_hash: self.hash_text_of(),
            tx_count: self.tx_count,
            mgas: self.gas_used / 1_000_000,
        }
    }

    /// The text of the hash.
    pub fn hash_text(&self) -> (r: String)
        ensures
            r@ == self.hash_text_of(),
    {
        match &self.hash {
            Some(hash) => hex_string(hash.as_slice()),
            None => "nohash".to_owned(),
        }
    }

    /// What is known of the block with this header.
    pub fn info(&self, block_number: u64) -> (r: BlockInfo)
        ensures
            r@ == self.info_of(block_number),
    {
        BlockInfo {
            block_number,
            timestamp: self.timestamp,
            block_hash: self.hash_text(),
            tx_count: self.tx_count,
            mgas: self.gas_used / 1_000_000,
        }
    }
}

/// What is done with the header of a block.
#[derive(Debug)]
pub enum RpcStep {
    /// The header has no number.
    SkipUnnumbered,
    /// The number is not a multiple of the modulus.
    SkipBlock { block_number: u64 },
    /// The run time is over and nothing is being proved.
    Exit,
    /// The run time is over, and a proof is still going on.
    Wait { block_number: u64 },
    /// Announce the block, then fetch and process its input.
    Process { block_info: BlockInfo, queued: Option<Action> },
}

/// Decides what is done with the header of a block that the node announces.
pub fn process_inputs_from_rpc<S>(header: &BlockHeader, now: u128, app_state: &AppState<S>) -> (r:
    RpcStep)
    requires
        app_state.cliargs.can_report(),
        app_state.cliargs.inputs.block_modulus > 0,
    ensures
        match r {
            RpcStep::SkipUnnumbered => header.number is None,
            RpcStep::SkipBlock { block_number } => {
                &&& header.number == Some(block_number)
                &&& block_number % app_state.cliargs.inputs.block_modulus != 0
            },
            RpcStep::Exit => {
                &&& header.number is Some
                &&& header.number->0 % app_state.cliargs.inputs.block_modulus == 0
                &&& app_state.past_deadline(now)
                &&& app_state@.proving_block is None
            },
            RpcStep::Wait { block_number } => {
                &&& header.number == Some(block_number)
                &&& block_number % app_state.cliargs.inputs.block_modulus == 0
                &&& app_state.past_deadline(now)
                &&& app_state@.proving_block is Some
            },
            RpcStep::Process { block_info, queued } => {
                &&& header.number == Some(block_info.block_number)
                &&& block_info.block_number % app_state.cliargs.inputs.block_modulus == 0
                &&& !app_state.past_deadline(now)
                &&& block_info@ == header.info_of(block_info.block_number)
                &&& match queued {
                    Some(action) => app_state.cliargs.ethproofs.submit && action@
                        == (ActionView::ReportQueued {
                        cluster_id: app_state.cliargs.ethproofs.cluster_id->0,
                        block_number: block_info.block_number,
                    }),
                    None => !app_state.cliargs.ethproofs.submit,
                }
            },
        },
{
    let block_number: u64 = match header.number {
        Some(number) => number,
        None => return RpcStep::SkipUnnumbered,
    };
    if block_number % app_state.cliargs.inputs.block_modulus != 0 {
        return RpcStep::SkipBlock { block_number };
    }
    if app_state.deadline_reached(now) {
        if app_state.proving_block.is_none() {
            return RpcStep::Exit;
        }
        return RpcStep::Wait { block_number };
    }
    let queued = process_queued(block_number, app_state);
    RpcStep::Process { block_info: header.info(block_number), queued }
}

/// Whether a name is one of an input file: something on one line, followed by
/// `.bin`.
pub open spec fn bin_name(name: Seq<char>) -> bool {
    &&& name.len() >= 5
    &&& name.skip(name.len() - 4) == ".bin"@
    &&& !name.take(name.len() - 4).contains('\n')
}

/// Calls regex's `Regex::new` and `is_match`. In this pattern `^` and `$` stand
/// for the start and the end of the text, `.+` for one or more characters but
/// newlines, and `\.bin` for itself, so it compiles, and matches exactly the
/// names of input files.
#[verifier::external_body]
fn regex_is_match(pattern: &str, text: &str) -> (r: Option<bool>)
    requires
        pattern@ == "^.+\\.bin$"@,
    ensures
        r == Some(bin_name(text@)),
{
    match regex::Regex::new(pattern) {
        Ok(compiled) => Some(compiled.is_match(text)),
        Err(_) => None,
    }
}

/// Whether a file of the folder is proved: it is named like an input file, and
/// the list of files, unless it is empty, holds its name.
pub open spec fn selected(name: Seq<char>, input_files: Seq<String>) -> bool {
    bin_name(name) && (input_files.len() == 0 || exists|i: int|
        0 <= i < input_files.len() && #[trigger] input_files[i]@ == name)
}

/// Whether a file of the folder is proved.
pub fn select_file(name: &String, input_files: &Vec<String>) -> (r: bool)
    ensures
        r == selected(name@, input_files@),
{
    match regex_is_match("^.+\\.bin$", name.as_str()) {
        Some(true) => {},
        _ => return false,
    }
    if input_files.len() == 0 {
        return true;
    }
    let mut i: usize = 0;
    while i < input_files.len()
        invariant
            i <= input_files.len(),
            bin_name(name@),
            forall|j: int| 0 <= j < i ==> #[trigger] input_files[j]@ != name@,
        decreases input_files.len() - i,
    {
        if input_files[i] == *name {
            return true;
        }
        i += 1;
    }
    false
}

/// The name of an input file without its ending.
pub open spec fn stem_of(name: Seq<char>) -> Seq<char> {
    name.take(name.len() - 4)
}

/// The block number in the name of a file: the first of the parts between
/// underscores that is a number. A name without one counts as the largest.
pub open spec fn number_in_stem(stem: Seq<char>) -> u64 {
    match first_number(split(stem, '_')) {
        Some(number) => number,
        None => u64::MAX,
    }
}

/// A file of the folder, with what its name tells. `P` locates it on disk.
#[derive(Debug)]
pub struct FolderFile<P> {
    pub block_number: u64,
    pub hash: String,
    pub path: P,
}

/// What the name of a file tells of its block.
pub fn folder_file<P>(name: &String, path: P) -> (r: FolderFile<P>)
    requires
        bin_name(name@),
    ensures
        r.block_number == number_in_stem(stem_of(name@)),
        r.hash@ == prefix(stem_of(name@), 6),
        r.path == path,
{
    let chars = to_chars(name.as_str());
    let stem = from_chars(&chars, 0, chars.len() - 4);
    assert(stem@ =~= stem_of(name@));
    let stem_chars = to_chars(stem.as_str());
    let block_number: u64 = match first_number_token(&stem_chars, '_') {
        Some(number) => number,
        None => u64::MAX,
    };
    FolderFile { block_number, hash: take_chars(stem.as_str(), 6), path }
}

/// The files with a block number, in their order.
pub open spec fn with_number<P>(files: Seq<FolderFile<P>>, number: u64) -> Seq<FolderFile<P>> {
    files.filter(|f: FolderFile<P>| f.block_number == number)
}

/// Whether files are ordered by block number.
pub open spec fn ordered<P>(files: Seq<FolderFile<P>>) -> bool {
    forall|i: int, j: int|
        0 <= i <= j < files.len() ==> (#[trigger] files[i]).block_number <= (
        #[trigger] files[j]).block_number
}

proof fn lemma_with_number_add<P>(a: Seq<FolderFile<P>>, b: Seq<FolderFile<P>>, number: u64)
    ensures
        with_number(a + b, number) == with_number(a, number) + with_number(b, number),
{
    Seq::filter_distributes_over_add(a, b, |f: FolderFile<P>| f.block_number == number);
}

proof fn lemma_with_number_none<P>(files: Seq<FolderFile<P>>, number: u64)
    requires
        forall|i: int| 0 <= i < files.len() ==> (#[trigger] files[i]).block_number != number,
    ensures
        with_number(files, number) == Seq::<FolderFile<P>>::empty(),
    decreases files.len(),
{
    reveal(Seq::filter);
    if files.len() > 0 {
        assert(files.last() == files[files.len() - 1]);
        let fewer = files.drop_last();
        assert forall|i: int| 0 <= i < fewer.len() implies (#[trigger] fewer[i]).block_number
            != number by {
            assert(fewer[i] == files[i]);
        }
        lemma_with_number_none(fewer, number);
    }
}

proof fn lemma_with_number_one<P>(file: FolderFile<P>, number: u64)
    ensures
        with_number(seq![file], number) == if file.block_number == number {
            seq![file]
        } else {
            Seq::empty()
        },
{
    reveal(Seq::filter);
    let one = seq![file];
    assert(one.drop_last() =~= Seq::<FolderFile<P>>::empty());
    assert(with_number(one.drop_last(), number) =~= Seq::<FolderFile<P>>::empty());
    assert(with_number(one, number) =~= if file.block_number == number {
        seq![file]
    } else {
        Seq::empty()
    });
}

proof fn lemma_inserted<P>(files: Seq<FolderFile<P>>, file: FolderFile<P>, at: int, number: u64)
    requires
        0 <= at <= files.len(),
        forall|i: int| 0 <= i < at ==> (#[trigger] files[i]).block_number < file.block_number,
    ensures
        with_number(files.insert(at, file), number) == with_number(seq![file], number)
            + with_number(files, number),
{
    let head = files.take(at);
    let tail = files.skip(at);
    assert(files =~= head + tail);
    assert(files.insert(at, file) =~= head + seq![file] + tail);
    lemma_with_number_add(head + seq![file], tail, number);
    lemma_with_number_add(head, seq![file], number);
    lemma_with_number_add(head, tail, number);
    lemma_with_number_one(file, number);
    if file.block_number == number {
        lemma_with_number_none(head, number);
    }
    assert(with_number(files.insert(at, file), number) =~= with_number(seq![file], number)
        + with_number(files, number));
}

/// Orders files by block number. Files with the same number keep their order.
pub fn sort_files<P>(files: Vec<FolderFile<P>>) -> (r: Vec<FolderFile<P>>)
    ensures
        ordered(r@),
        forall|i: int, j: int|
            0 <= i <= j < r@.len() ==> (#[trigger] r@[i]).block_number <= (
            #[trigger] r@[j]).block_number,
        forall|number: u64| #[trigger] with_number(r@, number) == with_number(files@, number),
        r@.to_multiset() == files@.to_multiset(),
{
    broadcast use vstd::seq_lib::group_to_multiset_ensures;

    let mut rest = files;
    let mut sorted: Vec<FolderFile<P>> = Vec::new();
    proof {
        assert forall|number: u64| #[trigger] with_number(files@, number) == with_number(
            rest@,
            number,
        ) + with_number(sorted@, number) by {
            lemma_with_number_none(sorted@, number);
            assert(with_number(rest@, number) + with_number(sorted@, number) =~= with_number(
                files@,
                number,
            ));
        }
    }
    while rest.len() > 0
        invariant
            ordered(sorted@),
            rest@.to_multiset().add(sorted@.to_multiset()) == files@.to_multiset(),
            forall|number: u64| #[trigger]
                with_number(files@, number) == with_number(rest@, number) + with_number(
                    sorted@,
                    number,
                ),
        decreases rest.len(),
    {
        let ghost before = rest@;
        let ghost placed = sorted@;
        match rest.pop() {
            Some(file) => {
                let mut at: usize = 0;
                while at < sorted.len() && sorted[at].block_number < file.block_number
                    invariant
                        at <= sorted.len(),
                        forall|i: int|
                            0 <= i < at ==> (#[trigger] sorted@[i]).block_number
                                < file.block_number,
                    decreases sorted.len() - at,
                {
                    at += 1;
                }
                let ghost here = at as int;
                sorted.insert(at, file);
                proof {
                    assert(before =~= rest@.push(file));
                    vstd::seq_lib::to_multiset_build(rest@, file);
                    vstd::seq_lib::to_multiset_insert(placed, here, file);
                    assert(rest@.to_multiset().add(sorted@.to_multiset())
                        =~= before.to_multiset().add(placed.to_multiset()));
                    assert forall|number: u64| #[trigger] with_number(files@, number)
                        == with_number(rest@, number) + with_number(sorted@, number) by {
                        lemma_inserted(placed, file, here, number);
                        assert(before =~= rest@ + seq![file]);
                        lemma_with_number_add(rest@, seq![file], number);
                        assert(with_number(files@, number) =~= with_number(rest@, number)
                            + with_number(sorted@, number));
                    }
                }
            },
            None => {},
        }
    }
    proof {
        assert forall|number: u64| #[trigger] with_number(sorted@, number) == with_number(
            files@,
            number,
        ) by {
            lemma_with_number_none(rest@, number);
            assert(with_number(rest@, number) + with_number(sorted@, number) =~= with_number(
                sorted@,
                number,
            ));
        }
    }
    sorted
}

/// The number of the file at a place of the order: that in its name, or else
/// its place.
pub open spec fn number_at<P>(file: FolderFile<P>, at: int) -> u64 {
    if file.block_number == u64::MAX {
        at as u64
    } else {
        file.block_number
    }
}

/// The timestamp that the first block of a folder starts from.
pub fn first_timestamp(initial_timestamp: u64, now_secs: u64) -> (r: u64)
    ensures
        r == if initial_timestamp == 0 {
            now_secs
        } else {
            initial_timestamp
        },
{
    if initial_timestamp == 0 {
        now_secs
    } else {
        initial_timestamp
    }
}

/// The timestamp of a later block of a folder: the time since the one before
/// has been added.
pub fn next_timestamp(timestamp: u64, elapsed_secs: u64) -> (r: u64)
    ensures
        r == if timestamp + elapsed_secs > u64::MAX {
            u64::MAX as int
        } else {
            timestamp + elapsed_secs
        },
{
    timestamp.saturating_add(elapsed_secs)
}

/// What is done with a file of the folder.
#[derive(Debug)]
pub struct FolderStep {
    pub block_info: BlockInfo,
    /// How long the input is taken to be made.
    pub input_time_ms: u64,
    /// The name of the copy that is proved.
    pub filename: String,
    pub queued: Option<Action>,
}

/// Decides what is done with the file at a place of the order: its copy is
/// proved as a block with the timestamp.
pub fn process_inputs_from_folder<P, S>(
    file: &FolderFile<P>,
    at: usize,
    timestamp: u64,
    app_state: &AppState<S>,
) -> (r: FolderStep)
    requires
        app_state.cliargs.can_report(),
    ensures
        r.block_info@ == (BlockInfoView {
            block_number: number_at(*file, at as int),
            timestamp,
            block_hash: file.hash@,
            tx_count: 0,
            mgas: 0,
        }),
        r.input_time_ms == app_state.cliargs.folder.input_time,
        r.filename@ == r.block_info@.filename(),
        match r.queued {
            Some(action) => app_state.cliargs.ethproofs.submit && action@
                == (ActionView::ReportQueued {
                cluster_id: app_state.cliargs.ethproofs.cluster_id->0,
                block_number: number_at(*file, at as int),
            }),
            None => !app_state.cliargs.ethproofs.submit,
        },
{
    let block_number: u64 = if file.block_number == u64::MAX {
        at as u64
    } else {
        file.block_number
    };
    let block_info = BlockInfo {
        block_number,
        timestamp,
        block_hash: file.hash.clone(),
        tx_count: 0,
        mgas: 0,
    };
    let filename = block_info.filename();
    let queued = process_queued(block_number, app_state);
    FolderStep {
        block_info,
        input_time_ms: app_state.cliargs.folder.input_time,
        filename,
        queued,
    }
}

/// A folder gives back the number of a block whose input file was named after
/// it, whatever its hash. The file is taken unless its short hash holds a
/// newline.
pub proof fn law_folder_reads_number_back(info: BlockInfoView)
    ensures
        bin_name(info.filename()) <==> !info.short_hash().contains('\n'),
        number_in_stem(stem_of(info.filename())) == info.block_number,
{
    reveal_strlit(".bin");
    reveal_strlit("_");
    let d = decimal(info.block_number as nat);
    law_decimal_is_digits(info.block_number as nat);
    law_decimal_reads_back(info.block_number);
    let stem = info.file_stem();
    let name = info.filename();
    assert(name.len() == stem.len() + 4);
    assert(stem_of(name) =~= stem);
    assert(name.skip(name.len() - 4) =~= ".bin"@);
    lemma_stem_number_end(info);
    let rest = split_from(stem, '_', d.len() as int + 1);
    assert(stem.subrange(0, d.len() as int) =~= d);
    assert(split(stem, '_') =~= seq![d] + rest);
    assert((seq![d] + rest)[0] == d);
    if info.short_hash().contains('\n') {
        let i = choose|i: int| 0 <= i < info.short_hash().len() && info.short_hash()[i] == '\n';
        assert(stem[d.len() + 1 + i] == '\n');
        assert(stem.contains('\n'));
    } else if stem.contains('\n') {
        let i = choose|i: int| 0 <= i < stem.len() && stem[i] == '\n';
        assert(i > d.len());
        assert(info.short_hash()[i - d.len() - 1] == '\n');
    }
}

/// The figures of input times: how many there are, their total, and their bounds,
/// which are among them. Before the first there are the neutral ones.
pub proof fn law_figures_of_times(stats: InputStats, times: Seq<u128>, time: u128)
    requires
        stats.describes(times),
    ensures
        sum(Seq::empty()) == 0,
        sum(times.push(time)) == sum(times) + time,
        stats.input_count == times.len(),
        stats.total_input_time == sum(times),
        forall|i: int|
            0 <= i < times.len() ==> stats.min_input_time <= #[trigger] times[i]
                <= stats.max_input_time,
        times.len() == 0 ==> stats.max_input_time == 0 && stats.min_input_time == u128::MAX,
        times.len() > 0 ==> exists|i: int|
            0 <= i < times.len() && #[trigger] times[i] == stats.max_input_time,
        times.len() > 0 ==> exists|i: int|
            0 <= i < times.len() && #[trigger] times[i] == stats.min_input_time,
{
    assert(times.push(time).drop_last() =~= times);
}

/// What the header of a block tells: its timestamp and transactions as they stand,
/// its gas in whole millions, and its hash in hexadecimal if it has one.
pub proof fn law_header_tells_block(header: BlockHeader, block_number: u64)
    ensures
        header.info_of(block_number).block_number == block_number,
        header.info_of(block_number).timestamp == header.timestamp,
        header.info_of(block_number).tx_count == header.tx_count,
        header.info_of(block_number).mgas == header.gas_used / 1_000_000,
        header.info_of(block_number).block_hash == header.hash_text_of(),
        header.hash is None ==> header.hash_text_of() == "nohash"@,
        header.hash matches Some(hash) ==> header.hash_text_of() == hex(hash@),
{
}

/// Which files of the folder are proved: those whose name is something on one
/// line with the ending of input files, and, if there is a list of files, in it.
pub proof fn law_what_is_selected(name: Seq<char>, input_files: Seq<String>)
    ensures
        bin_name(name) <==> exists|stem: Seq<char>|
            stem.len() > 0 && !stem.contains('\n') && name == #[trigger] (stem + ".bin"@),
        selected(name, input_files) ==> bin_name(name),
        bin_name(name) && input_files.len() == 0 ==> selected(name, input_files),
        bin_name(name) && input_files.len() > 0 ==> (selected(name, input_files)
            <==> exists|i: int| 0 <= i < input_files.len() && #[trigger] input_files[i]@ == name),
{
    reveal_strlit(".bin");
    if bin_name(name) {
        let stem = name.take(name.len() - 4);
        assert(name =~= stem + ".bin"@);
    }
    if exists|stem: Seq<char>|
        stem.len() > 0 && !stem.contains('\n') && name == #[trigger] (stem + ".bin"@) {
        let stem = choose|stem: Seq<char>|
            stem.len() > 0 && !stem.contains('\n') && name == #[trigger] (stem + ".bin"@);
        assert(name.take(name.len() - 4) =~= stem);
        assert(name.skip(name.len() - 4) =~= ".bin"@);
    }
}

/// What the name of a file tells: without its ending, the first of the parts
/// between underscores that reads as a number is the block's; a name without one
/// counts as the largest, and its place in the order is taken for the number.
pub proof fn law_name_tells_number<P>(stem: Seq<char>, at: int, file: FolderFile<P>, place: u64)
    requires
        0 <= at <= split(stem, '_').len(),
        forall|i: int| 0 <= i < at ==> parse_u64(#[trigger] split(stem, '_')[i]) is None,
    ensures
        stem_of(stem + ".bin"@) == stem,
        at == split(stem, '_').len() ==> number_in_stem(stem) == u64::MAX,
        at < split(stem, '_').len() && parse_u64(split(stem, '_')[at]) is Some ==> number_in_stem(
            stem,
        ) == parse_u64(split(stem, '_')[at])->0,
        file.block_number != u64::MAX ==> number_at(file, place as int) == file.block_number,
        file.block_number == u64::MAX ==> number_at(file, place as int) == place,
{
    reveal_strlit(".bin");
    assert((stem + ".bin"@).take((stem + ".bin"@).len() - 4) =~= stem);
    law_first_number_is_first(split(stem, '_'), at);
}

/// The files with a number: none of no files, and one more exactly if the file
/// behind the others has the number.
pub proof fn law_files_with_number<P>(files: Seq<FolderFile<P>>, file: FolderFile<P>, number: u64)
    ensures
        with_number(Seq::<FolderFile<P>>::empty(), number) == Seq::<FolderFile<P>>::empty(),
        file.block_number == number ==> with_number(files.push(file), number) == with_number(
            files,
            number,
        ).push(file),
        file.block_number != number ==> with_number(files.push(file), number) == with_number(
            files,
            number,
        ),
{
    lemma_with_number_none(Seq::<FolderFile<P>>::empty(), number);
    lemma_with_number_add(files, seq![file], number);
    lemma_with_number_one(file, number);
    assert(files.push(file) =~= files + seq![file]);
    assert(with_number(files, number) + seq![file] =~= with_number(files, number).push(file));
    assert(with_number(files, number) + Seq::<FolderFile<P>>::empty() =~= with_number(
        files,
        number,
    ));
}

} // verus!
