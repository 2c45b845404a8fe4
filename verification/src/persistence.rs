//! The transfer store: packages put together from chunks that arrive in any
//! order.
//!
//! A chunk is base64 text; chunk `i` of a package belongs at the offset
//! `i * chunk_size` of the package's scratch file. The store decides what is
//! to be written where and keeps track of what has arrived. It does not touch
//! the file: each chunk that is taken in comes back as a `ChunkWrite` for the
//! caller to carry out, and `TransferView::image` says what the file holds
//! once every write has been carried out.
//!
//! Transfers are kept by package. The scratch file of a package is named
//! after its label, `name-version`, which two packages may share; a scratch
//! file has one transfer at a time, so a package whose scratch file is in
//! use does not begin until the other transfer has left the store.

use vstd::prelude::*;
use rustc_serialize::base64::FromBase64Error;
use crate::datatype::error::Error;
use crate::datatype::package::{label_of, Package};

verus! {

/// What a base64 text stands for: the bytes, or nothing where the text is
/// not valid base64.
pub uninterp spec fn base64_decoded(text: Seq<char>) -> Option<Seq<u8>>;

/// `rustc_serialize::base64::FromBase64Error`, the error of `from_base64`.
/// It is passed through and never looked into.
#[verifier::external_type_specification]
#[verifier::external_body]
pub struct ExFromBase64Error(FromBase64Error);

/// Decodes with `from_base64` of `rustc_serialize::base64::FromBase64`, which
/// takes the standard and the URL-safe alphabet, with or without padding,
/// and skips line breaks. The contract names what it returns and claims
/// nothing more about it.
#[verifier::external_body]
fn from_base64(text: &str) -> (decoded: Result<Vec<u8>, FromBase64Error>)
    ensures
        match decoded {
            Ok(bytes) => base64_decoded(text@) == Some(bytes@),
            Err(_) => base64_decoded(text@) is None,
        },
{
    rustc_serialize::base64::FromBase64::from_base64(text)
}

/// One write to a scratch file: `bytes` go to `offset`.
#[derive(Clone, Debug, PartialEq, Eq)]
pub struct ChunkWrite {
    pub offset: u64,
    pub bytes: Vec<u8>,
}

/// What came of a chunk that was taken in.
#[derive(Clone, Debug, PartialEq, Eq)]
pub struct ChunkAck {
    /// The chunks that have arrived so far, in ascending order.
    pub chunks: Vec<u64>,
    /// What is to be written to the scratch file; nothing for a chunk that
    /// had arrived before.
    pub write: Option<ChunkWrite>,
}

/// A chunk that has arrived, as plain values.
pub struct Received {
    pub index: nat,
    pub bytes: Seq<u8>,
}

/// What a file holds after `bytes` were written at `offset`. A write behind
/// the end of the file leaves zeros in between; a write of nothing changes
/// nothing.
pub open spec fn overlay(file: Seq<u8>, offset: nat, bytes: Seq<u8>) -> Seq<u8> {
    if bytes.len() == 0 {
        file
    } else {
        Seq::new(
            if file.len() >= offset + bytes.len() {
                file.len()
            } else {
                offset + bytes.len()
            },
            |at: int|
                if offset <= at < offset + bytes.len() {
                    bytes[at - offset]
                } else if at < file.len() {
                    file[at]
                } else {
                    0u8
                },
        )
    }
}

/// What the scratch file holds after the chunks were written in the order
/// in which they arrived, each at `index * chunk_size`.
pub open spec fn image_of(written: Seq<Received>, chunk_size: nat) -> Seq<u8>
    decreases written.len(),
{
    if written.len() == 0 {
        Seq::empty()
    } else {
        overlay(
            image_of(written.drop_last(), chunk_size),
            written.last().index * chunk_size,
            written.last().bytes,
        )
    }
}

/// Whether the bytes of a chunk lie over position `at` of the file.
pub open spec fn covers(chunk: Received, chunk_size: nat, at: int) -> bool {
    chunk.index * chunk_size <= at < chunk.index * chunk_size + chunk.bytes.len()
}

/// Whether chunk `index` is among the chunks that were written.
pub open spec fn arrived(written: Seq<Received>, index: nat) -> bool {
    exists|k: int| 0 <= k < written.len() && written[k].index == index
}

/// Whether each of the indices is smaller than the one behind it.
pub open spec fn ascending(chunks: Seq<nat>) -> bool {
    forall|i: int, j: int| 0 <= i < j < chunks.len() ==> chunks[i] < chunks[j]
}

/// The ascending run `chunks` with `index` taken in at its place.
pub open spec fn with_index(chunks: Seq<nat>, index: nat) -> Seq<nat>
    decreases chunks.len(),
{
    if chunks.len() == 0 {
        seq![index]
    } else if chunks.last() < index {
        chunks.push(index)
    } else if chunks.last() == index {
        chunks
    } else {
        with_index(chunks.drop_last(), index).push(chunks.last())
    }
}

/// What is to be done with a chunk.
pub enum Verdict {
    /// Its index lies beyond the last chunk of the package.
    OutOfBounds,
    /// Its text is not valid base64.
    Undecodable,
    /// It had arrived before; nothing is written.
    Known,
    /// It is new; these bytes are to be written.
    Store(Seq<u8>),
}

/// One transfer, as plain values.
pub struct TransferView {
    pub package_name: Seq<char>,
    pub total_size: nat,
    pub chunk_size: nat,
    /// The indices of the chunks that have arrived, in ascending order.
    pub chunks: Seq<nat>,
    pub finished: bool,
    /// The chunks that have arrived, in the order of their arrival.
    pub written: Seq<Received>,
}

impl TransferView {
    /// A transfer that has just begun.
    pub open spec fn fresh(package_name: Seq<char>, total_size: nat, chunk_size: nat) -> TransferView {
        TransferView {
            package_name,
            total_size,
            chunk_size,
            chunks: Seq::empty(),
            finished: false,
            written: Seq::empty(),
        }
    }

    /// How many chunks the package has: `total_size / chunk_size`, rounded
    /// up. A package with chunks of no size has none.
    pub open spec fn chunk_count(self) -> nat {
        if self.chunk_size == 0 {
            0
        } else {
            ((self.total_size + self.chunk_size - 1) / (self.chunk_size as int)) as nat
        }
    }

    /// What holds of a transfer at all times: the indices ascend and lie
    /// below the number of chunks, and they are the indices of what was written.
    pub open spec fn wf(self) -> bool {
        &&& ascending(self.chunks)
        &&& forall|i: int| 0 <= i < self.chunks.len() ==> self.chunks[i] < self.chunk_count()
        &&& forall|k: int|
            0 <= k < self.written.len() ==> self.chunks.contains(#[trigger] self.written[k].index)
        &&& forall|i: int|
            0 <= i < self.chunks.len() ==> arrived(self.written, #[trigger] self.chunks[i])
    }

    /// Whether enough has arrived: the chunks that are there, at their full
    /// size, make up the package.
    pub open spec fn complete(self) -> bool {
        self.chunks.len() * self.chunk_size >= self.total_size
    }

    /// What the scratch file holds.
    pub open spec fn image(self) -> Seq<u8> {
        image_of(self.written, self.chunk_size)
    }

    /// What is to be done with the chunk `index` that arrives as `text`.
    pub open spec fn judge(self, text: Seq<char>, index: nat) -> Verdict {
        if index >= self.chunk_count() {
            Verdict::OutOfBounds
        } else {
            match base64_decoded(text) {
                None => Verdict::Undecodable,
                Some(bytes) => if self.chunks.contains(index) {
                    Verdict::Known
                } else {
                    Verdict::Store(bytes)
                },
            }
        }
    }

    /// The transfer with the new chunk `index` taken in.
    pub open spec fn store(self, index: nat, bytes: Seq<u8>) -> TransferView {
        TransferView {
            chunks: with_index(self.chunks, index),
            written: self.written.push(Received { index, bytes }),
            ..self
        }
    }

    /// The transfer after the chunk `index` arrived as `text`. Only a new
    /// chunk within bounds and of valid base64 changes anything.
    pub open spec fn receive(self, text: Seq<char>, index: nat) -> TransferView {
        match self.judge(text, index) {
            Verdict::Store(bytes) => self.store(index, bytes),
            _ => self,
        }
    }
}

proof fn with_index_at(chunks: Seq<nat>, index: nat, at: int)
    requires
        ascending(chunks),
        0 <= at <= chunks.len(),
        forall|j: int| at <= j < chunks.len() ==> chunks[j] > index,
        forall|j: int| 0 <= j < at ==> chunks[j] < index,
    ensures
        with_index(chunks, index) == chunks.insert(at, index),
    decreases chunks.len(),
{
    if chunks.len() == 0 {
        assert(chunks.insert(at, index) =~= seq![index]);
    } else if chunks.last() < index {
        assert(at == chunks.len());
        assert(chunks.insert(at, index) =~= chunks.push(index));
    } else {
        assert(at < chunks.len());
        let front = chunks.drop_last();
        assert(ascending(front)) by {
            assert forall|i: int, j: int| 0 <= i < j < front.len() implies front[i] < front[j] by {
                assert(front[i] == chunks[i] && front[j] == chunks[j]);
            }
        }
        with_index_at(front, index, at);
        assert(chunks.insert(at, index) =~= front.insert(at, index).push(chunks.last()));
    }
}

proof fn with_index_facts(chunks: Seq<nat>, index: nat)
    requires
        ascending(chunks),
    ensures
        ascending(with_index(chunks, index)),
        with_index(chunks, index).contains(index),
        forall|c: nat| #[trigger]
            with_index(chunks, index).contains(c) ==> c == index || chunks.contains(c),
        forall|c: nat| #[trigger] chunks.contains(c) ==> with_index(chunks, index).contains(c),
        chunks.contains(index) ==> with_index(chunks, index) == chunks,
        !chunks.contains(index) ==> with_index(chunks, index).len() == chunks.len() + 1,
    decreases chunks.len(),
{
    let result = with_index(chunks, index);
    if chunks.len() == 0 {
        assert(result[0] == index);
    } else if chunks.last() < index {
        assert(result[chunks.len() as int] == index);
        assert forall|c: nat| #[trigger] result.contains(c) implies c == index || chunks.contains(
            c,
        ) by {
            let w = choose|w: int| 0 <= w < result.len() && result[w] == c;
            if w < chunks.len() {
                assert(chunks[w] == c);
            }
        }
        assert forall|c: nat| #[trigger] chunks.contains(c) implies result.contains(c) by {
            let w = choose|w: int| 0 <= w < chunks.len() && chunks[w] == c;
            assert(result[w] == c);
        }
        if chunks.contains(index) {
            let w = choose|w: int| 0 <= w < chunks.len() && chunks[w] == index;
            if w < chunks.len() - 1 {
                assert(chunks[w] < chunks[chunks.len() - 1]);
            }
        }
    } else if chunks.last() == index {
        assert(chunks[chunks.len() - 1] == index);
    } else {
        let front = chunks.drop_last();
        let last = chunks.last();
        assert(ascending(front)) by {
            assert forall|i: int, j: int| 0 <= i < j < front.len() implies front[i] < front[j] by {
                assert(front[i] == chunks[i] && front[j] == chunks[j]);
            }
        }
        with_index_facts(front, index);
        let inner = with_index(front, index);
        assert(front.push(last) =~= chunks);
        assert(chunks[chunks.len() - 1] == last);
        assert(result[result.len() - 1] == last);
        assert forall|c: nat| #[trigger] result.contains(c) implies c == index || chunks.contains(
            c,
        ) by {
            let w = choose|w: int| 0 <= w < result.len() && result[w] == c;
            if w < inner.len() {
                assert(inner[w] == c);
                assert(inner.contains(c));
                if c != index {
                    assert(front.contains(c));
                    let v = choose|v: int| 0 <= v < front.len() && front[v] == c;
                    assert(chunks[v] == c);
                }
            }
        }
        assert forall|c: nat| #[trigger] chunks.contains(c) implies result.contains(c) by {
            let w = choose|w: int| 0 <= w < chunks.len() && chunks[w] == c;
            if w < front.len() {
                assert(front[w] == c);
                assert(front.contains(c));
                assert(inner.contains(c));
                let v = choose|v: int| 0 <= v < inner.len() && inner[v] == c;
                assert(result[v] == c);
            }
        }
        assert(result.contains(index)) by {
            let v = choose|v: int| 0 <= v < inner.len() && inner[v] == index;
            assert(result[v] == index);
        }
        assert forall|i: int, j: int| 0 <= i < j < result.len() implies result[i] < result[j] by {
            if j < inner.len() {
                assert(result[i] == inner[i] && result[j] == inner[j]);
            } else {
                assert(result[i] == inner[i]);
                assert(inner.contains(inner[i]));
                if inner[i] != index {
                    assert(front.contains(inner[i]));
                    let w = choose|w: int| 0 <= w < front.len() && front[w] == inner[i];
                    assert(chunks[w] < chunks[chunks.len() - 1]);
                }
            }
        }
        if chunks.contains(index) {
            let w = choose|w: int| 0 <= w < chunks.len() && chunks[w] == index;
            assert(front[w] == index);
            assert(front.contains(index));
            assert(result =~= chunks);
        } else {
            if front.contains(index) {
                let w = choose|w: int| 0 <= w < front.len() && front[w] == index;
                assert(chunks[w] == index);
            }
        }
    }
}

/// Taking a new chunk in keeps a transfer sound.
pub proof fn store_keeps_wf(transfer: TransferView, index: nat, bytes: Seq<u8>)
    requires
        transfer.wf(),
        index < transfer.chunk_count(),
    ensures
        transfer.store(index, bytes).wf(),
        transfer.store(index, bytes).chunks.contains(index),
{
    let next = transfer.store(index, bytes);
    with_index_facts(transfer.chunks, index);
    assert forall|i: int| 0 <= i < next.chunks.len() implies next.chunks[i] < next.chunk_count() by {
        assert(next.chunks.contains(next.chunks[i]));
        if next.chunks[i] != index {
            assert(transfer.chunks.contains(next.chunks[i]));
            let w = choose|w: int|
                0 <= w < transfer.chunks.len() && transfer.chunks[w] == next.chunks[i];
        }
    }
    assert forall|k: int| 0 <= k < next.written.len() implies next.chunks.contains(
        #[trigger] next.written[k].index,
    ) by {
        if k < transfer.written.len() {
            assert(next.written[k] == transfer.written[k]);
            assert(transfer.chunks.contains(transfer.written[k].index));
            assert(next.chunks.contains(transfer.written[k].index));
        }
    }
    assert forall|i: int| 0 <= i < next.chunks.len() implies arrived(
        next.written,
        #[trigger] next.chunks[i],
    ) by {
        assert(next.chunks.contains(next.chunks[i]));
        if next.chunks[i] == index {
            assert(next.written[transfer.written.len() as int].index == index);
        } else {
            assert(transfer.chunks.contains(next.chunks[i]));
            let w = choose|w: int|
                0 <= w < transfer.chunks.len() && transfer.chunks[w] == next.chunks[i];
            assert(arrived(transfer.written, transfer.chunks[w]));
            let k = choose|k: int|
                0 <= k < transfer.written.len() && transfer.written[k].index
                    == transfer.chunks[w];
            assert(next.written[k].index == next.chunks[i]);
        }
    }
}

/// An index lies below the number of chunks just when its chunk begins
/// inside the package.
pub proof fn begins_inside(total_size: nat, chunk_size: nat, index: nat)
    requires
        chunk_size > 0,
    ensures
        index < (total_size + chunk_size - 1) / (chunk_size as int) <==> index * chunk_size
            < total_size,
{
    let count = (total_size + chunk_size - 1) / (chunk_size as int);
    vstd::arithmetic::div_mod::lemma_fundamental_div_mod(
        total_size + chunk_size - 1,
        chunk_size as int,
    );
    vstd::arithmetic::div_mod::lemma_mod_bound(total_size + chunk_size - 1, chunk_size as int);
    assert(index < count <==> index * chunk_size < total_size) by (nonlinear_arith)
        requires
            chunk_size > 0,
            total_size + chunk_size - 1 == chunk_size * count + (total_size + chunk_size - 1) % (
            chunk_size as int),
            0 <= (total_size + chunk_size - 1) % (chunk_size as int) < chunk_size,
    ;
}

proof fn ascending_bounds(chunks: Seq<nat>, limit: nat, i: int)
    requires
        ascending(chunks),
        forall|j: int| 0 <= j < chunks.len() ==> chunks[j] < limit,
        0 <= i < chunks.len(),
    ensures
        i <= chunks[i],
        chunks[i] + chunks.len() <= limit + i,
    decreases chunks.len(),
{
    if chunks.len() > 1 {
        let front = chunks.drop_last();
        let last = chunks.last();
        if i < front.len() {
            assert(chunks[i] < chunks[chunks.len() - 1]);
            assert forall|a: int, b: int| 0 <= a < b < front.len() implies front[a] < front[b] by {
                assert(front[a] == chunks[a] && front[b] == chunks[b]);
            }
            assert forall|j: int| 0 <= j < front.len() implies front[j] < last by {
                assert(front[j] == chunks[j]);
                assert(chunks[j] < chunks[chunks.len() - 1]);
            }
            ascending_bounds(front, last, i);
        } else {
            assert forall|a: int, b: int| 0 <= a < b < front.len() implies front[a] < front[b] by {
                assert(front[a] == chunks[a] && front[b] == chunks[b]);
            }
            assert forall|j: int| 0 <= j < front.len() implies front[j] < last by {
                assert(front[j] == chunks[j]);
                assert(chunks[j] < chunks[chunks.len() - 1]);
            }
            ascending_bounds(front, last, i - 1);
            assert(chunks[i - 1] < chunks[i]);
        }
    }
}

/// A transfer is complete just when every chunk of the package has arrived:
/// the indices that are there are `0`, `1`, and so on up to the last.
pub proof fn complete_means_all_arrived(transfer: TransferView)
    requires
        transfer.wf(),
    ensures
        transfer.chunks.len() <= transfer.chunk_count(),
        transfer.complete() ==> transfer.chunks.len() == transfer.chunk_count(),
        transfer.chunks.len() == transfer.chunk_count() ==> forall|i: int|
            0 <= i < transfer.chunks.len() ==> transfer.chunks[i] == i,
        transfer.chunk_size > 0 && transfer.chunks.len() == transfer.chunk_count()
            ==> transfer.complete(),
{
    let count = transfer.chunk_count();
    let have = transfer.chunks.len();
    if have > 0 {
        ascending_bounds(transfer.chunks, count, 0);
    }
    if transfer.chunk_size > 0 {
        begins_inside(transfer.total_size, transfer.chunk_size, have);
        assert(transfer.complete() <==> !(have < count));
    }
    assert forall|i: int| 0 <= i < have && have == count implies transfer.chunks[i] == i by {
        ascending_bounds(transfer.chunks, count, i);
    }
}

/// The scratch file reaches as far as every chunk that was written to it.
pub proof fn image_reaches(written: Seq<Received>, chunk_size: nat, k: int)
    requires
        0 <= k < written.len(),
        written[k].bytes.len() > 0,
    ensures
        image_of(written, chunk_size).len() >= written[k].index * chunk_size
            + written[k].bytes.len(),
    decreases written.len(),
{
    if k < written.len() - 1 {
        image_reaches(written.drop_last(), chunk_size, k);
    }
}

/// Every byte of the scratch file comes from a chunk that arrived, from the
/// place in the chunk that belongs at that offset; where no chunk lies over a
/// position, the file holds zero.
pub proof fn image_comes_from_chunks(written: Seq<Received>, chunk_size: nat, at: int)
    requires
        0 <= at < image_of(written, chunk_size).len(),
    ensures
        (exists|k: int|
            0 <= k < written.len() && #[trigger] covers(written[k], chunk_size, at) && image_of(
                written,
                chunk_size,
            )[at] == written[k].bytes[at - written[k].index * chunk_size]) || (image_of(
            written,
            chunk_size,
        )[at] == 0 && forall|k: int|
            0 <= k < written.len() ==> !#[trigger] covers(written[k], chunk_size, at)),
    decreases written.len(),
{
    if written.len() > 0 {
        let front = written.drop_last();
        let last = written.last();
        let before = image_of(front, chunk_size);
        let after = image_of(written, chunk_size);
        if covers(last, chunk_size, at) {
            assert(covers(written[written.len() - 1], chunk_size, at));
        } else if at < before.len() {
            image_comes_from_chunks(front, chunk_size, at);
            assert(after[at] == before[at]);
            if exists|k: int|
                0 <= k < front.len() && #[trigger] covers(front[k], chunk_size, at) && before[at]
                    == front[k].bytes[at - front[k].index * chunk_size] {
                let k = choose|k: int|
                    0 <= k < front.len() && #[trigger] covers(front[k], chunk_size, at)
                        && before[at] == front[k].bytes[at - front[k].index * chunk_size];
                assert(written[k] == front[k]);
                assert(covers(written[k], chunk_size, at));
            } else {
                assert forall|k: int| 0 <= k < written.len() implies !#[trigger] covers(
                    written[k],
                    chunk_size,
                    at,
                ) by {
                    if k < front.len() {
                        assert(written[k] == front[k]);
                        assert(!covers(front[k], chunk_size, at));
                    }
                }
            }
        } else {
            assert(after[at] == 0);
            assert forall|k: int| 0 <= k < written.len() implies !#[trigger] covers(
                written[k],
                chunk_size,
                at,
            ) by {
                if k < front.len() {
                    assert(written[k] == front[k]);
                    if covers(front[k], chunk_size, at) {
                        image_reaches(front, chunk_size, k);
                    }
                }
            }
        }
    }
}

/// The scratch file of a complete transfer is as long as the package, as
/// soon as one of its chunks reaches the end of the package.
pub proof fn complete_image_is_whole(transfer: TransferView, k: int)
    requires
        transfer.wf(),
        transfer.complete(),
        0 <= k < transfer.written.len(),
        transfer.written[k].bytes.len() > 0,
        transfer.written[k].index * transfer.chunk_size + transfer.written[k].bytes.len()
            >= transfer.total_size,
    ensures
        transfer.image().len() >= transfer.total_size,
{
    image_reaches(transfer.written, transfer.chunk_size, k);
}

/// A chunk that arrives a second time changes nothing, whatever it holds by
/// then: not the chunks that count as arrived, not the scratch file. A chunk
/// that was taken in counts as arrived.
pub proof fn receive_is_idempotent(transfer: TransferView, text: Seq<char>, index: nat)
    requires
        transfer.wf(),
    ensures
        transfer.receive(text, index).wf(),
        transfer.receive(text, index).receive(text, index) == transfer.receive(text, index),
        transfer.receive(text, index).image() == transfer.receive(text, index).receive(
            text,
            index,
        ).image(),
        transfer.judge(text, index) is Store || transfer.judge(text, index) is Known
            ==> transfer.receive(text, index).chunks.contains(index),
        forall|again: Seq<char>|
            transfer.chunks.contains(index) ==> #[trigger] transfer.receive(again, index)
                == transfer,
{
    match transfer.judge(text, index) {
        Verdict::Store(bytes) => {
            store_keeps_wf(transfer, index, bytes);
        },
        _ => {},
    }
}

/// Marking a transfer as finished keeps it sound.
pub proof fn finished_keeps_wf(transfer: TransferView)
    requires
        transfer.wf(),
    ensures
        (TransferView { finished: true, ..transfer }).wf(),
{
    let after = TransferView { finished: true, ..transfer };
    assert(after.chunks == transfer.chunks);
    assert(after.written == transfer.written);
    assert(after.chunk_count() == transfer.chunk_count());
    assert(ascending(after.chunks));
    assert forall|i: int| 0 <= i < after.chunks.len() implies after.chunks[i]
        < after.chunk_count() by {
        assert(transfer.chunks[i] < transfer.chunk_count());
    }
    assert forall|k: int| 0 <= k < after.written.len() implies after.chunks.contains(
        #[trigger] after.written[k].index,
    ) by {
        assert(transfer.chunks.contains(transfer.written[k].index));
    }
    assert forall|i: int| 0 <= i < after.chunks.len() implies arrived(
        after.written,
        #[trigger] after.chunks[i],
    ) by {
        assert(arrived(transfer.written, transfer.chunks[i]));
    }
}

/// One package that is being put together from its chunks.
pub struct PackageFile {
    pub package_name: String,
    total_size: u64,
    chunk_size: u64,
    transferred_chunks: Vec<u64>,
    finished: bool,
    written: Ghost<Seq<Received>>,
}

impl View for PackageFile {
    type V = TransferView;

    closed spec fn view(&self) -> TransferView {
        TransferView {
            package_name: self.package_name@,
            total_size: self.total_size as nat,
            chunk_size: self.chunk_size as nat,
            chunks: self.transferred_chunks@.map_values(|c: u64| c as nat),
            finished: self.finished,
            written: self.written@,
        }
    }
}

impl ChunkWrite {
    /// Carries the write out on a file that is held in memory.
    pub fn apply(&self, file: &mut Vec<u8>)
        requires
            self.offset + self.bytes.len() <= usize::MAX,
        ensures
            final(file)@ == overlay(old(file)@, self.offset as nat, self.bytes@),
    {
        if self.bytes.len() == 0 {
            return ;
        }
        let offset = self.offset as usize;
        let end = offset + self.bytes.len();
        while file.len() < end
            invariant
                old(file)@.len() <= file@.len(),
                file@.len() <= end || file@.len() == old(file)@.len(),
                forall|at: int| 0 <= at < old(file)@.len() ==> file@[at] == old(file)@[at],
                forall|at: int| old(file)@.len() <= at < file@.len() ==> file@[at] == 0u8,
            decreases end - file.len(),
        {
            file.push(0u8);
        }
        let mut i: usize = 0;
        while i < self.bytes.len()
            invariant
                i <= self.bytes.len(),
                offset == self.offset,
                end == offset + self.bytes.len(),
                file@.len() >= end,
                file@.len() == if old(file)@.len() >= end {
                    old(file)@.len()
                } else {
                    end as nat
                },
                forall|at: int|
                    0 <= at < file@.len() ==> file@[at] == if offset <= at < offset + i {
                        self.bytes@[at - offset]
                    } else if at < old(file)@.len() {
                        old(file)@[at]
                    } else {
                        0u8
                    },
            decreases self.bytes.len() - i,
        {
            file.set(offset + i, self.bytes[i]);
            i = i + 1;
        }
        assert(file@ =~= overlay(old(file)@, self.offset as nat, self.bytes@));
    }
}

impl PackageFile {
    /// A transfer of the package `package_name`, of which nothing has arrived.
    pub fn new(package_name: &str, total_size: u64, chunk_size: u64) -> (file: PackageFile)
        ensures
            file@ == TransferView::fresh(package_name@, total_size as nat, chunk_size as nat),
            file@.wf(),
    {
        let file = PackageFile {
            package_name: String::from_str(package_name),
            total_size,
            chunk_size,
            transferred_chunks: Vec::new(),
            finished: false,
            written: Ghost(Seq::empty()),
        };
        assert(file@.chunks =~= Seq::empty());
        file
    }

    /// The name of the package.
    pub fn package_name(&self) -> (name: String)
        ensures
            name@ == self@.package_name,
    {
        self.package_name.clone()
    }

    /// The size of the whole package, in bytes.
    pub fn total_size(&self) -> (size: u64)
        ensures
            size == self@.total_size,
    {
        self.total_size
    }

    /// The size of a chunk of the package, in bytes.
    pub fn chunk_size(&self) -> (size: u64)
        ensures
            size == self@.chunk_size,
    {
        self.chunk_size
    }

    /// The chunks that have arrived, in ascending order.
    pub fn transferred_chunks(&self) -> (chunks: Vec<u64>)
        ensures
            chunks@.map_values(|c: u64| c as nat) == self@.chunks,
    {
        let mut chunks: Vec<u64> = Vec::new();
        let mut i: usize = 0;
        while i < self.transferred_chunks.len()
            invariant
                i <= self.transferred_chunks.len(),
                chunks@ == self.transferred_chunks@.subrange(0, i as int),
            decreases self.transferred_chunks.len() - i,
        {
            chunks.push(self.transferred_chunks[i]);
            assert(chunks@ =~= self.transferred_chunks@.subrange(0, i + 1));
            i = i + 1;
        }
        assert(chunks@ =~= self.transferred_chunks@);
        chunks
    }

    /// Starts the transfer anew with another chunk size and total size. What
    /// had arrived is given up, and the scratch file begins empty again.
    pub fn start(&mut self, chunk_size: u64, total_size: u64)
        ensures
            final(self)@ == TransferView::fresh(
                old(self)@.package_name,
                total_size as nat,
                chunk_size as nat,
            ),
            final(self)@.wf(),
    {
        self.chunk_size = chunk_size;
        self.total_size = total_size;
        self.finished = false;
        self.transferred_chunks = Vec::new();
        self.written = Ghost(Seq::empty());
        assert(self@.chunks =~= Seq::empty());
    }

    /// Whether the transfer was marked as finished.
    pub fn is_finished(&self) -> (finished: bool)
        ensures
            finished == self@.finished,
    {
        self.finished
    }

    /// Marks the transfer as finished and says whether it is complete.
    pub fn finish(&mut self) -> (complete: bool)
        ensures
            final(self)@ == (TransferView { finished: true, ..old(self)@ }),
            complete == old(self)@.complete(),
    {
        self.finished = true;
        let have = self.transferred_chunks.len() as u128;
        let size = self.chunk_size as u128;
        assert(have * size <= u128::MAX) by (nonlinear_arith)
            requires
                have <= u64::MAX,
                size <= u64::MAX,
        ;
        have * size >= self.total_size as u128
    }

    /// Takes in the chunk `index`, which arrives as base64 text.
    ///
    /// A chunk beyond the end of the package and a chunk that is not valid
    /// base64 are turned down, and nothing changes. A chunk that had arrived
    /// before is acknowledged, and nothing is written. A new chunk counts as
    /// arrived, and its bytes come back to be written at `index * chunk_size`.
    pub fn write_chunk(&mut self, encoded_msg: &str, index: u64) -> (ack: Result<ChunkAck, Error>)
        requires
            old(self)@.wf(),
        ensures
            final(self)@ == old(self)@.receive(encoded_msg@, index as nat),
            final(self)@.wf(),
            match old(self)@.judge(encoded_msg@, index as nat) {
                Verdict::OutOfBounds => ack matches Err(Error::ChunkOutOfBounds(name)) && name@
                    == old(self)@.package_name,
                Verdict::Undecodable => ack matches Err(Error::DecodeError(_)),
                Verdict::Known => {
                    &&& ack matches Ok(ack)
                    &&& ack.write is None
                    &&& ack.chunks@.map_values(|c: u64| c as nat) == old(self)@.chunks
                },
                Verdict::Store(bytes) => {
                    &&& ack matches Ok(ack)
                    &&& ack.write matches Some(write)
                    &&& write.offset == index * old(self)@.chunk_size
                    &&& write.bytes@ == bytes
                    &&& ack.chunks@.map_values(|c: u64| c as nat) == final(self)@.chunks
                },
            },
    {
        proof {
            receive_is_idempotent(self@, encoded_msg@, index as nat);
            if self.chunk_size > 0 {
                begins_inside(self.total_size as nat, self.chunk_size as nat, index as nat);
            }
        }
        if self.chunk_size == 0 {
            return Err(Error::ChunkOutOfBounds(self.package_name.clone()));
        }
        let wide_index = index as u128;
        let wide_size = self.chunk_size as u128;
        assert(wide_index * wide_size <= u128::MAX) by (nonlinear_arith)
            requires
                wide_index <= u64::MAX,
                wide_size <= u64::MAX,
        ;
        let begin = wide_index * wide_size;
        if begin >= self.total_size as u128 {
            return Err(Error::ChunkOutOfBounds(self.package_name.clone()));
        }
        let bytes = match from_base64(encoded_msg) {
            Ok(bytes) => bytes,
            Err(error) => {
                return Err(Error::DecodeError(error.to_string()));
            },
        };
        let ghost chunks = self@.chunks;
        let mut at: usize = self.transferred_chunks.len();
        while at > 0 && self.transferred_chunks[at - 1] > index
            invariant
                at <= self.transferred_chunks.len(),
                forall|j: int|
                    at <= j < self.transferred_chunks.len() ==> self.transferred_chunks[j] > index,
            decreases at,
        {
            at = at - 1;
        }
        let known = at > 0 && self.transferred_chunks[at - 1] == index;
        proof {
            assert forall|j: int| 0 <= j < chunks.len() implies chunks[j]
                == self.transferred_chunks[j] as nat by {}
            if known {
                assert(chunks[at - 1] == index as nat);
            } else {
                assert forall|j: int| 0 <= j < at implies chunks[j] < index by {
                    if j < at - 1 {
                        assert(chunks[j] < chunks[at - 1]);
                    }
                }
                if chunks.contains(index as nat) {
                    let w = choose|w: int| 0 <= w < chunks.len() && chunks[w] == index as nat;
                }
                with_index_at(chunks, index as nat, at as int);
            }
        }
        if known {
            return Ok(ChunkAck { chunks: self.transferred_chunks(), write: None });
        }
        self.transferred_chunks.insert(at, index);
        self.written = Ghost(self.written@.push(Received { index: index as nat, bytes: bytes@ }));
        assert(self@.chunks =~= chunks.insert(at as int, index as nat));
        Ok(
            ChunkAck {
                chunks: self.transferred_chunks(),
                write: Some(ChunkWrite { offset: begin as u64, bytes }),
            },
        )
    }
}

/// Where the scratch file of a package lies: under the scratch root, named
/// after the package.
pub open spec fn scratch_path(prefix: Seq<char>, package: Seq<char>) -> Seq<char> {
    prefix + "/"@ + package
}

/// A package id as plain values: the name and the version.
pub type PackageKey = (Seq<char>, Seq<char>);

/// Whether `known` is just what the entries hold: each transfer is sound and
/// stands under its package, as the transfer of the scratch file named after
/// that package, and no scratch file has two transfers.
spec fn sound(
    entries: Seq<(PackageKey, TransferView)>,
    known: Map<PackageKey, TransferView>,
) -> bool {
    &&& forall|i: int|
        0 <= i < entries.len() ==> {
            &&& known.dom().contains((#[trigger] entries[i]).0)
            &&& known[entries[i].0] == entries[i].1
            &&& entries[i].1.wf()
            &&& entries[i].1.package_name == label_of(entries[i].0)
        }
    &&& forall|key: PackageKey| #[trigger]
        known.dom().contains(key) ==> exists|i: int|
            0 <= i < entries.len() && (#[trigger] entries[i]).0 == key
    &&& forall|i: int, j: int|
        0 <= i < j < entries.len() ==> (#[trigger] entries[i]).1.package_name != (
        #[trigger] entries[j]).1.package_name
}

/// A transfer whose scratch file is free joins the others.
proof fn sound_push(
    entries: Seq<(PackageKey, TransferView)>,
    known: Map<PackageKey, TransferView>,
    key: PackageKey,
    fresh: TransferView,
)
    requires
        sound(entries, known),
        fresh.wf(),
        fresh.package_name == label_of(key),
        forall|i: int| 0 <= i < entries.len() ==> (#[trigger] entries[i]).1.package_name != label_of(key),
    ensures
        sound(entries.push((key, fresh)), known.insert(key, fresh)),
{
    let next = entries.push((key, fresh));
    let map = known.insert(key, fresh);
    assert forall|i: int| 0 <= i < next.len() implies {
        &&& map.dom().contains((#[trigger] next[i]).0)
        &&& map[next[i].0] == next[i].1
        &&& next[i].1.wf()
        &&& next[i].1.package_name == label_of(next[i].0)
    } by {
        if i < entries.len() {
            assert(next[i] == entries[i]);
            assert(entries[i].1.package_name != label_of(key));
        }
    }
    assert forall|other: PackageKey| #[trigger] map.dom().contains(other) implies exists|i: int|
        0 <= i < next.len() && (#[trigger] next[i]).0 == other by {
        if other == key {
            assert(next[entries.len() as int].0 == other);
        } else {
            let i = choose|i: int| 0 <= i < entries.len() && (#[trigger] entries[i]).0 == other;
            assert(next[i].0 == other);
        }
    }
    assert forall|i: int, j: int| 0 <= i < j < next.len() implies (#[trigger] next[i]).1.package_name
        != (#[trigger] next[j]).1.package_name by {
        assert(next[i] == entries[i]);
        if j < entries.len() {
            assert(next[j] == entries[j]);
        }
    }
}

/// A transfer that leaves takes nothing with it.
proof fn sound_remove(
    entries: Seq<(PackageKey, TransferView)>,
    known: Map<PackageKey, TransferView>,
    at: int,
)
    requires
        sound(entries, known),
        0 <= at < entries.len(),
    ensures
        sound(entries.remove(at), known.remove(entries[at].0)),
{
    let key = entries[at].0;
    let next = entries.remove(at);
    let map = known.remove(key);
    assert forall|i: int| 0 <= i < next.len() implies {
        &&& map.dom().contains((#[trigger] next[i]).0)
        &&& map[next[i].0] == next[i].1
        &&& next[i].1.wf()
        &&& next[i].1.package_name == label_of(next[i].0)
    } by {
        if i < at {
            assert(next[i] == entries[i]);
            assert(entries[i].1.package_name != entries[at].1.package_name);
        } else {
            assert(next[i] == entries[i + 1]);
            assert(entries[at].1.package_name != entries[i + 1].1.package_name);
        }
    }
    assert forall|other: PackageKey| #[trigger] map.dom().contains(other) implies exists|i: int|
        0 <= i < next.len() && (#[trigger] next[i]).0 == other by {
        let i = choose|i: int| 0 <= i < entries.len() && (#[trigger] entries[i]).0 == other;
        if i < at {
            assert(next[i].0 == other);
        } else {
            assert(next[i - 1].0 == other);
        }
    }
    assert forall|i: int, j: int| 0 <= i < j < next.len() implies (#[trigger] next[i]).1.package_name
        != (#[trigger] next[j]).1.package_name by {
        let a = if i < at { i } else { i + 1 };
        let b = if j < at { j } else { j + 1 };
        assert(next[i] == entries[a]);
        assert(next[j] == entries[b]);
    }
}

/// There are as many transfers as entries.
proof fn sound_counts(
    entries: Seq<(PackageKey, TransferView)>,
    known: Map<PackageKey, TransferView>,
)
    requires
        sound(entries, known),
    ensures
        known.dom().finite(),
        known.dom().len() == entries.len(),
{
    let keys = entries.map_values(|e: (PackageKey, TransferView)| e.0);
    assert(keys.no_duplicates()) by {
        assert forall|i: int, j: int| 0 <= i < keys.len() && 0 <= j < keys.len() && i
            != j implies keys[i] != keys[j] by {
            if i < j {
                assert(entries[i].1.package_name != entries[j].1.package_name);
            } else {
                assert(entries[j].1.package_name != entries[i].1.package_name);
            }
        }
    }
    keys.unique_seq_to_set();
    assert(keys.to_set() =~= known.dom()) by {
        assert forall|key: PackageKey| keys.to_set().contains(key) implies known.dom().contains(
            key,
        ) by {
            let i = choose|i: int| 0 <= i < keys.len() && keys[i] == key;
            assert(known.dom().contains(entries[i].0));
        }
        assert forall|key: PackageKey| known.dom().contains(key) implies keys.to_set().contains(
            key,
        ) by {
            let i = choose|i: int| 0 <= i < entries.len() && (#[trigger] entries[i]).0 == key;
            assert(keys[i] == key);
        }
    }
}

/// Whether the scratch file named `label` belongs to the transfer of a
/// package other than `key`.
pub open spec fn held_by_another(
    known: Map<PackageKey, TransferView>,
    key: PackageKey,
    label: Seq<char>,
) -> bool {
    exists|other: PackageKey| #[trigger]
        known.dom().contains(other) && other != key && label_of(other) == label
}

/// The entry with the scratch file of a package tells whether the package
/// has a transfer, or another package holds its scratch file.
proof fn sound_found(
    entries: Seq<(PackageKey, TransferView)>,
    known: Map<PackageKey, TransferView>,
    key: PackageKey,
    at: int,
)
    requires
        sound(entries, known),
        0 <= at < entries.len(),
        entries[at].1.package_name == label_of(key),
    ensures
        entries[at].0 == key ==> known.dom().contains(key) && known[key] == entries[at].1
            && !held_by_another(known, key, label_of(key)),
        entries[at].0 != key ==> !known.dom().contains(key) && held_by_another(
            known,
            key,
            label_of(key),
        ),
{
    assert forall|other: PackageKey| #[trigger]
        known.dom().contains(other) && label_of(other) == label_of(key) implies other
        == entries[at].0 by {
        let i = choose|i: int| 0 <= i < entries.len() && (#[trigger] entries[i]).0 == other;
        if i < at {
            assert(entries[i].1.package_name != entries[at].1.package_name);
        } else if at < i {
            assert(entries[at].1.package_name != entries[i].1.package_name);
        }
    }
    if entries[at].0 != key {
        assert(known.dom().contains(entries[at].0));
    }
}

/// Where no entry has the scratch file of a package, the package has no
/// transfer and its scratch file is free.
proof fn sound_absent(
    entries: Seq<(PackageKey, TransferView)>,
    known: Map<PackageKey, TransferView>,
    key: PackageKey,
)
    requires
        sound(entries, known),
        forall|i: int| 0 <= i < entries.len() ==> (#[trigger] entries[i]).1.package_name != label_of(key),
    ensures
        !known.dom().contains(key),
        !held_by_another(known, key, label_of(key)),
{
    assert forall|other: PackageKey| #[trigger]
        known.dom().contains(other) implies label_of(other) != label_of(key) by {
        let i = choose|i: int| 0 <= i < entries.len() && (#[trigger] entries[i]).0 == other;
        assert(entries[i].1.package_name != label_of(key));
    }
}

/// One transfer and the package it belongs to.
struct Entry {
    package: Package,
    file: PackageFile,
}

/// The transfers that are under way, by package. Each has the scratch file
/// that is named after its package, and no scratch file has two transfers.
pub struct Transfers {
    prefix: String,
    items: Vec<Entry>,
    known: Ghost<Map<PackageKey, TransferView>>,
}

impl View for Transfers {
    type V = Map<PackageKey, TransferView>;

    closed spec fn view(&self) -> Map<PackageKey, TransferView> {
        self.known@
    }
}

impl Transfers {
    /// The scratch root.
    pub closed spec fn prefix(&self) -> Seq<char> {
        self.prefix@
    }

    spec fn entries(&self) -> Seq<(PackageKey, TransferView)> {
        self.items@.map_values(|e: Entry| (e.package.key(), e.file@))
    }

    /// What holds of the store at all times: each transfer is sound and
    /// stands under its package, and no scratch file has two transfers.
    pub closed spec fn wf(&self) -> bool {
        sound(self.entries(), self.known@)
    }

    /// Whether the scratch file of `package` belongs to the transfer of
    /// another package, one with the same label.
    pub open spec fn taken(&self, package: Package) -> bool {
        held_by_another(self@, package.key(), package.label())
    }

    /// Every transfer of a sound store is sound and has the scratch file that
    /// is named after its package; two transfers never share a scratch file.
    pub proof fn transfers_are_sound(&self, package: PackageKey)
        requires
            self.wf(),
            self@.dom().contains(package),
        ensures
            self@[package].wf(),
            self@[package].package_name == label_of(package),
            !held_by_another(self@, package, label_of(package)),
    {
        let entries = self.entries();
        let i = choose|i: int| 0 <= i < entries.len() && (#[trigger] entries[i]).0 == package;
        sound_found(entries, self.known@, package, i);
    }

    /// A store without transfers, with its scratch files under `prefix`.
    pub fn new(prefix: String) -> (transfers: Transfers)
        ensures
            transfers.wf(),
            transfers@ == Map::<PackageKey, TransferView>::empty(),
            transfers.prefix() == prefix@,
    {
        Transfers { prefix, items: Vec::new(), known: Ghost(Map::empty()) }
    }

    /// Where the entry with the scratch file of `package` stands.
    fn position(&self, package: &Package) -> (at: Option<usize>)
        requires
            self.wf(),
        ensures
            match at {
                Some(at) => at < self.items@.len() && self.entries()[at as int].1.package_name
                    == package.label(),
                None => forall|i: int|
                    0 <= i < self.entries().len() ==> (#[trigger] self.entries()[i]).1.package_name
                        != package.label(),
            },
    {
        let label = package.file_name();
        let mut i: usize = 0;
        while i < self.items.len()
            invariant
                i <= self.items@.len(),
                label@ == package.label(),
                forall|j: int|
                    0 <= j < i ==> (#[trigger] self.entries()[j]).1.package_name != package.label(),
            decreases self.items.len() - i,
        {
            if self.items[i].file.package_name == label {
                return Some(i);
            }
            i = i + 1;
        }
        None
    }

    /// Where the transfer of `package` stands, if it has one.
    fn find(&self, package: &Package) -> (at: Option<usize>)
        requires
            self.wf(),
        ensures
            match at {
                Some(at) => {
                    &&& at < self.items@.len()
                    &&& self.entries()[at as int].0 == package.key()
                    &&& self@.dom().contains(package.key())
                    &&& self@[package.key()] == self.entries()[at as int].1
                },
                None => !self@.dom().contains(package.key()),
            },
    {
        match self.position(package) {
            Some(at) => {
                proof {
                    sound_found(self.entries(), self.known@, package.key(), at as int);
                }
                if self.items[at].package.same_as(package) {
                    Some(at)
                } else {
                    None
                }
            },
            None => {
                proof {
                    sound_absent(self.entries(), self.known@, package.key());
                }
                None
            },
        }
    }

    /// Where the scratch file of `package` lies.
    pub fn path_of(&self, package: &Package) -> (path: String)
        ensures
            path@ == scratch_path(self.prefix(), package.label()),
    {
        let mut path = self.prefix.clone();
        path.append("/");
        path.append(package.file_name().as_str());
        path
    }

    /// Whether a transfer of `package` is under way.
    pub fn contains(&self, package: &Package) -> (held: bool)
        requires
            self.wf(),
        ensures
            held == self@.dom().contains(package.key()),
    {
        self.find(package).is_some()
    }

    /// How many transfers are under way.
    pub fn len(&self) -> (n: usize)
        requires
            self.wf(),
        ensures
            n == self@.dom().len(),
            self@.dom().finite(),
    {
        proof {
            sound_counts(self.entries(), self.known@);
        }
        self.items.len()
    }

    /// Takes the entry at `at` out of the store.
    fn take(&mut self, at: usize) -> (entry: Entry)
        requires
            old(self).wf(),
            at < old(self).items@.len(),
        ensures
            final(self).wf(),
            final(self).prefix() == old(self).prefix(),
            final(self)@ == old(self)@.remove(old(self).entries()[at as int].0),
            (entry.package.key(), entry.file@) == old(self).entries()[at as int],
            entry.file@.wf(),
            entry.file@.package_name == entry.package.label(),
            forall|i: int|
                0 <= i < final(self).entries().len() ==> (#[trigger] final(self).entries()[i]).1.package_name
                    != entry.package.label(),
    {
        let ghost before = self.entries();
        let ghost key = before[at as int].0;
        let entry = self.items.remove(at);
        self.known = Ghost(self.known@.remove(key));
        proof {
            sound_remove(before, old(self).known@, at as int);
            assert(self.entries() =~= before.remove(at as int));
            assert forall|i: int| 0 <= i < self.entries().len() implies (#[trigger] self.entries()[i]).1.package_name
                != before[at as int].1.package_name by {
                if i < at {
                    assert(self.entries()[i] == before[i]);
                    assert(before[i].1.package_name != before[at as int].1.package_name);
                } else {
                    assert(self.entries()[i] == before[i + 1]);
                    assert(before[at as int].1.package_name != before[i + 1].1.package_name);
                }
            }
        }
        entry
    }

    /// Puts the transfer of `package` into the store, its scratch file being free.
    fn add(&mut self, package: Package, file: PackageFile)
        requires
            old(self).wf(),
            file@.wf(),
            file@.package_name == package.label(),
            forall|i: int|
                0 <= i < old(self).entries().len() ==> (#[trigger] old(self).entries()[i]).1.package_name
                    != package.label(),
        ensures
            final(self).wf(),
            final(self).prefix() == old(self).prefix(),
            final(self)@ == old(self)@.insert(package.key(), file@),
    {
        let ghost key = package.key();
        let ghost fresh = file@;
        proof {
            sound_push(self.entries(), self.known@, key, fresh);
        }
        self.items.push(Entry { package, file });
        self.known = Ghost(self.known@.insert(key, fresh));
        assert(self.entries() =~= old(self).entries().push((key, fresh)));
    }

    /// Begins the transfer of `package`, or begins it anew: nothing has
    /// arrived, and the scratch file is to be created empty. The path of the
    /// scratch file comes back. Where the scratch file belongs to the
    /// transfer of another package, that transfer goes on undisturbed and
    /// this one does not begin.
    pub fn start(&mut self, package: &Package, total_size: u64, chunk_size: u64) -> (path: Result<
        String,
        Error,
    >)
        requires
            old(self).wf(),
        ensures
            final(self).wf(),
            final(self).prefix() == old(self).prefix(),
            old(self).taken(*package) ==> {
                &&& final(self)@ == old(self)@
                &&& path matches Err(Error::IoError(file))
                &&& file@ == scratch_path(old(self).prefix(), package.label())
            },
            !old(self).taken(*package) ==> {
                &&& final(self)@ == old(self)@.insert(
                    package.key(),
                    TransferView::fresh(package.label(), total_size as nat, chunk_size as nat),
                )
                &&& path matches Ok(file)
                &&& file@ == scratch_path(old(self).prefix(), package.label())
            },
    {
        let label = package.file_name();
        let file = PackageFile::new(label.as_str(), total_size, chunk_size);
        match self.position(package) {
            Some(at) => {
                proof {
                    sound_found(self.entries(), self.known@, package.key(), at as int);
                }
                if !self.items[at].package.same_as(package) {
                    return Err(Error::IoError(self.path_of(package)));
                }
                let _ = self.take(at);
                self.add(package.duplicate(), file);
                assert(self@ =~= old(self)@.insert(package.key(), file@));
            },
            None => {
                proof {
                    sound_absent(self.entries(), self.known@, package.key());
                }
                self.add(package.duplicate(), file);
            },
        }
        Ok(self.path_of(package))
    }

    /// Takes in chunk `index` of `package`, as `PackageFile::write_chunk`
    /// does. Without a transfer of that package the chunk is turned down.
    pub fn write_chunk(&mut self, package: &Package, index: u64, encoded_msg: &str) -> (ack: Result<
        ChunkAck,
        Error,
    >)
        requires
            old(self).wf(),
        ensures
            final(self).wf(),
            final(self).prefix() == old(self).prefix(),
            !old(self)@.dom().contains(package.key()) ==> {
                &&& final(self)@ == old(self)@
                &&& ack matches Err(Error::UnknownTransfer(name))
                &&& name@ == package.label()
            },
            old(self)@.dom().contains(package.key()) ==> {
                let transfer = old(self)@[package.key()];
                &&& final(self)@ == old(self)@.insert(
                    package.key(),
                    transfer.receive(encoded_msg@, index as nat),
                )
                &&& match transfer.judge(encoded_msg@, index as nat) {
                    Verdict::OutOfBounds => ack matches Err(Error::ChunkOutOfBounds(name)) && name@
                        == package.label(),
                    Verdict::Undecodable => ack matches Err(Error::DecodeError(_)),
                    Verdict::Known => {
                        &&& ack matches Ok(ack)
                        &&& ack.write is None
                        &&& ack.chunks@.map_values(|c: u64| c as nat) == transfer.chunks
                    },
                    Verdict::Store(bytes) => {
                        &&& ack matches Ok(ack)
                        &&& ack.write matches Some(write)
                        &&& write.offset == index * transfer.chunk_size
                        &&& write.bytes@ == bytes
                        &&& ack.chunks@.map_values(|c: u64| c as nat) == with_index(
                            transfer.chunks,
                            index as nat,
                        )
                    },
                }
            },
    {
        match self.find(package) {
            None => Err(Error::UnknownTransfer(package.file_name())),
            Some(at) => {
                let entry = self.take(at);
                let owner = entry.package;
                let mut file = entry.file;
                let ack = file.write_chunk(encoded_msg, index);
                self.add(owner, file);
                assert(self@ =~= old(self)@.insert(package.key(), file@));
                ack
            },
        }
    }

    /// Marks the transfer of `package` as finished. Where every chunk has
    /// arrived, the path of the scratch file comes back; the transfer stays
    /// in the store until it is removed.
    pub fn finish(&mut self, package: &Package) -> (path: Result<String, Error>)
        requires
            old(self).wf(),
        ensures
            final(self).wf(),
            final(self).prefix() == old(self).prefix(),
            !old(self)@.dom().contains(package.key()) ==> {
                &&& final(self)@ == old(self)@
                &&& path matches Err(Error::UnknownTransfer(name))
                &&& name@ == package.label()
            },
            old(self)@.dom().contains(package.key()) ==> {
                let transfer = old(self)@[package.key()];
                &&& final(self)@ == old(self)@.insert(
                    package.key(),
                    TransferView { finished: true, ..transfer },
                )
                &&& transfer.complete() ==> (path matches Ok(path) && path@ == scratch_path(
                    old(self).prefix(),
                    package.label(),
                ))
                &&& !transfer.complete() ==> (path matches Err(Error::IncompleteTransfer(name))
                    && name@ == package.label())
            },
    {
        match self.find(package) {
            None => Err(Error::UnknownTransfer(package.file_name())),
            Some(at) => {
                let entry = self.take(at);
                let owner = entry.package;
                let mut file = entry.file;
                proof {
                    finished_keeps_wf(file@);
                }
                let complete = file.finish();
                self.add(owner, file);
                assert(self@ =~= old(self)@.insert(package.key(), file@));
                if complete {
                    Ok(self.path_of(package))
                } else {
                    Err(Error::IncompleteTransfer(package.file_name()))
                }
            },
        }
    }

    /// Takes the transfer of `package` out of the store. Whether there was one comes back.
    pub fn remove(&mut self, package: &Package) -> (removed: bool)
        requires
            old(self).wf(),
        ensures
            final(self).wf(),
            final(self).prefix() == old(self).prefix(),
            final(self)@ == old(self)@.remove(package.key()),
            removed == old(self)@.dom().contains(package.key()),
    {
        match self.find(package) {
            None => {
                assert(self@.remove(package.key()) =~= self@);
                false
            },
            Some(at) => {
                let _ = self.take(at);
                true
            },
        }
    }

    /// Gives the transfer of `package` up. Where there was one, the path of
    /// its scratch file comes back, for the file to be deleted.
    pub fn abort(&mut self, package: &Package) -> (path: Option<String>)
        requires
            old(self).wf(),
        ensures
            final(self).wf(),
            final(self).prefix() == old(self).prefix(),
            final(self)@ == old(self)@.remove(package.key()),
            match path {
                Some(path) => old(self)@.dom().contains(package.key()) && path@ == scratch_path(
                    old(self).prefix(),
                    package.label(),
                ),
                None => !old(self)@.dom().contains(package.key()),
            },
    {
        if self.remove(package) {
            Some(self.path_of(package))
        } else {
            None
        }
    }
}

} // verus!
