use crate::cursor::{
    decode_u16, decode_u32, spec_u16, spec_u32, ByteRange, ByteRangeCursor, CursorView, Endianness,
};
use crate::error::AiocogeoError;
use crate::ifd::{spec_from_tags, views, DirectoryView, ImageFileDirectory};
use crate::tag::TagEntry;
use crate::value::{Value, ValueView};
use std::collections::HashMap;
use vstd::prelude::*;
use vstd::set_lib::{lemma_int_range, lemma_len_subset, set_int_range};

verus! {

broadcast use vstd::std_specs::hash::group_hash_axioms;

/// What a walk of the directory chain waits for.
#[derive(Debug, Clone, Copy, PartialEq, Eq)]
pub enum Stage {
    /// The two bytes that say how many tags the directory has.
    TagCount,
    /// The next 12-byte tag record of the directory.
    Record,
    /// The values of a tag, which stand outside its record.
    Value(TagEntry),
    /// The four bytes behind the tag records: the offset of the next directory.
    NextOffset,
    /// Nothing: the chain has been walked to its end.
    Done,
    /// Nothing: the walk has failed.
    Failed(AiocogeoError),
}

/// Upper bound of the number of byte ranges that one directory asks for.
pub const NODE_STEPS: u64 = 131074;

/// Number of offsets that a directory can have.
pub const OFFSETS: u64 = 0x1_0000_0000;

/// A walk of the directory chain as mathematics.
pub struct WalkerView {
    pub endianness: Endianness,
    pub stage: Stage,
    /// Offset of the directory that is being read.
    pub node: u32,
    /// Number of tags of that directory, once it is known.
    pub tag_count: u16,
    /// Number of tags of that directory that have been read.
    pub index: u16,
    /// The tags of that directory that have been read, by code.
    pub tags: Map<u16, ValueView>,
    /// The offsets of the directories that were entered, in that order.
    pub visited: Seq<u32>,
    /// The directories that have been read, in chain order.
    pub directories: Seq<DirectoryView>,
}

impl WalkerView {
    /// The walk as it starts, at the directory at offset `first`.
    pub open spec fn start(endianness: Endianness, first: u32) -> WalkerView {
        WalkerView {
            endianness,
            stage: Stage::TagCount,
            node: first,
            tag_count: 0,
            index: 0,
            tags: Map::empty(),
            visited: seq![first],
            directories: Seq::empty(),
        }
    }

    /// What holds of every walk: no directory was entered twice, and the
    /// record that is awaited is one of the directory's.
    pub open spec fn wf(self) -> bool {
        &&& self.visited.no_duplicates()
        &&& self.visited.contains(self.node)
        &&& self.index <= self.tag_count
        &&& self.stage is Record ==> self.index < self.tag_count
        &&& self.stage matches Stage::Value(entry) ==> self.index < self.tag_count
            && !entry.is_inline()
        &&& self.stage is Done ==> self.directories.len() > 0
    }

    /// The byte range that the walk waits for, if it waits for any.
    pub open spec fn request(self) -> Option<ByteRange> {
        match self.stage {
            Stage::TagCount => Some(
                ByteRange { start: self.node as u64, end: (self.node + 2) as u64 },
            ),
            Stage::Record => Some(
                ByteRange {
                    start: (self.node + 2 + 12 * self.index) as u64,
                    end: (self.node + 2 + 12 * self.index + 12) as u64,
                },
            ),
            Stage::Value(entry) => entry.spec_value_range(self.endianness),
            Stage::NextOffset => Some(
                ByteRange {
                    start: (self.node + 2 + 12 * self.tag_count) as u64,
                    end: (self.node + 2 + 12 * self.tag_count + 4) as u64,
                },
            ),
            Stage::Done | Stage::Failed(_) => None,
        }
    }

    /// The walk, failed with `error`.
    pub open spec fn failed(self, error: AiocogeoError) -> WalkerView {
        WalkerView { stage: Stage::Failed(error), ..self }
    }

    /// The walk after the values of one more tag were decoded, or refused.
    /// Of two tags with one code the later one stays.
    pub open spec fn with_tag(
        self,
        code: u16,
        value: Result<ValueView, AiocogeoError>,
    ) -> WalkerView {
        match value {
            Ok(value) => WalkerView {
                stage: if self.index + 1 == self.tag_count {
                    Stage::NextOffset
                } else {
                    Stage::Record
                },
                index: (self.index + 1) as u16,
                tags: self.tags.insert(code, value),
                ..self
            },
            Err(error) => self.failed(error),
        }
    }

    /// The walk after the directory that was being read is complete, `next`
    /// being what stands behind its tag records: its tags are assembled, and
    /// the walk fails where they are refused; the chain ends where `next` is 0,
    /// and is cyclic where `next` is the offset of a directory that was entered
    /// before.
    pub open spec fn with_next(self, next: u32) -> WalkerView {
        match spec_from_tags(
            self.tags,
            if next == 0 {
                None
            } else {
                Some(next)
            },
        ) {
            Err(error) => WalkerView { tags: Map::empty(), ..self }.failed(error),
            Ok(directory) => {
                let read = WalkerView {
                    tags: Map::empty(),
                    directories: self.directories.push(directory),
                    ..self
                };
                if next == 0 {
                    WalkerView { stage: Stage::Done, ..read }
                } else if self.visited.contains(next) {
                    read.failed(AiocogeoError::DirectoryCycle)
                } else {
                    WalkerView {
                        stage: Stage::TagCount,
                        node: next,
                        tag_count: 0,
                        index: 0,
                        tags: Map::empty(),
                        visited: self.visited.push(next),
                        ..read
                    }
                }
            },
        }
    }

    /// The walk after `bytes` were handed over for the byte range that it
    /// waited for. A walk that waits for nothing stays as it is.
    pub open spec fn supply(self, bytes: Seq<u8>) -> WalkerView {
        match self.stage {
            Stage::TagCount => if bytes.len() != 2 {
                self.failed(AiocogeoError::RangeFetch)
            } else {
                WalkerView {
                    stage: if spec_u16(bytes, self.endianness) == 0 {
                        Stage::NextOffset
                    } else {
                        Stage::Record
                    },
                    tag_count: spec_u16(bytes, self.endianness),
                    index: 0,
                    ..self
                }
            },
            Stage::Record => match TagEntry::spec_parse(bytes, self.endianness) {
                Err(error) => self.failed(error),
                Ok(entry) => if entry.is_inline() {
                    self.with_tag(entry.code, entry.spec_value(None, self.endianness))
                } else {
                    WalkerView { stage: Stage::Value(entry), ..self }
                },
            },
            Stage::Value(entry) => self.with_tag(
                entry.code,
                entry.spec_value(Some(bytes), self.endianness),
            ),
            Stage::NextOffset => if bytes.len() != 4 {
                self.failed(AiocogeoError::RangeFetch)
            } else {
                self.with_next(spec_u32(bytes, self.endianness))
            },
            Stage::Done | Stage::Failed(_) => self,
        }
    }

    /// The error of a walk that has failed.
    pub open spec fn outcome(self) -> Result<(), AiocogeoError> {
        match self.stage {
            Stage::Failed(error) => Err(error),
            _ => Ok(()),
        }
    }

    /// What the walk has come to: the directories of the chain, in chain
    /// order, once it is over; its error where it failed, and `RangeFetch`
    /// where it still waits for bytes.
    pub open spec fn result(self) -> Result<Seq<DirectoryView>, AiocogeoError> {
        match self.stage {
            Stage::Done => Ok(self.directories),
            Stage::Failed(error) => Err(error),
            _ => Err(AiocogeoError::RangeFetch),
        }
    }

    /// The walk after it got what it waits for from the window of `cursor`:
    /// the bytes of the range, or a failure where the window does not hold
    /// them all.
    pub open spec fn fed(self, cursor: CursorView) -> WalkerView {
        let range = self.request()->Some_0;
        let at = cursor.at(range.start as int);
        if at.covers(range.spec_len()) {
            self.supply(at.peek(range.spec_len()))
        } else {
            self.failed(AiocogeoError::RangeFetch)
        }
    }

    /// The walk, fed from the window of `cursor` until it waits for nothing.
    pub open spec fn run(self, cursor: CursorView) -> WalkerView
        decreases self.steps(),
    {
        if self.wf() && self.request() is Some {
            proof {
                lemma_supply_progress(
                    self,
                    cursor.at(self.request()->Some_0.start as int).peek(
                        self.request()->Some_0.spec_len(),
                    ),
                );
                lemma_distinct_offsets(self.visited);
            }
            self.fed(cursor).run(cursor)
        } else {
            self
        }
    }

    /// The walk, fed from the window of `cursor` until it has read a
    /// directory, or waits for nothing.
    pub open spec fn run_node(self, cursor: CursorView) -> WalkerView
        decreases self.steps(),
    {
        if self.wf() && self.request() is Some && self.directories.len() == 0 {
            proof {
                lemma_supply_progress(
                    self,
                    cursor.at(self.request()->Some_0.start as int).peek(
                        self.request()->Some_0.spec_len(),
                    ),
                );
                lemma_distinct_offsets(self.visited);
            }
            self.fed(cursor).run_node(cursor)
        } else {
            self
        }
    }

    /// The first directory that the walk has read; the error of the walk
    /// where it failed before, and `RangeFetch` where it still waits for bytes.
    pub open spec fn first(self) -> Result<DirectoryView, AiocogeoError> {
        if self.directories.len() > 0 {
            Ok(self.directories[0])
        } else {
            match self.stage {
                Stage::Failed(error) => Err(error),
                _ => Err(AiocogeoError::RangeFetch),
            }
        }
    }

    /// Upper bound of the number of byte ranges that the walk still asks for
    /// in the directory that it is reading.
    pub open spec fn node_steps(self) -> nat {
        match self.stage {
            Stage::TagCount => (NODE_STEPS - 1) as nat,
            Stage::Record => (2 * (self.tag_count - self.index) + 1) as nat,
            Stage::Value(_) => (2 * (self.tag_count - self.index)) as nat,
            Stage::NextOffset => 1,
            Stage::Done | Stage::Failed(_) => 0,
        }
    }

    /// Upper bound of the number of byte ranges that the walk still asks for:
    /// each directory is entered once at most.
    pub open spec fn steps(self) -> nat {
        ((OFFSETS - self.visited.len()) * NODE_STEPS + self.node_steps()) as nat
    }
}

/// No more offsets can be told apart than there are.
pub proof fn lemma_distinct_offsets(offsets: Seq<u32>)
    requires
        offsets.no_duplicates(),
    ensures
        offsets.len() <= OFFSETS,
{
    let numbers = offsets.map_values(|offset: u32| offset as int);
    assert(numbers.no_duplicates()) by {
        assert forall|i: int, j: int|
            0 <= i < numbers.len() && 0 <= j < numbers.len() && i != j implies numbers[i]
            != numbers[j] by {
            assert(offsets[i] != offsets[j]);
        }
    }
    numbers.unique_seq_to_set();
    lemma_int_range(0, OFFSETS as int);
    assert(numbers.to_set().subset_of(set_int_range(0, OFFSETS as int))) by {
        assert forall|n: int| numbers.to_set().contains(n) implies set_int_range(
            0,
            OFFSETS as int,
        ).contains(n) by {
            let i = choose|i: int| 0 <= i < numbers.len() && numbers[i] == n;
            assert(numbers[i] == offsets[i] as int);
        }
    }
    lemma_len_subset(numbers.to_set(), set_int_range(0, OFFSETS as int));
}

/// A list of distinct offsets stays one when an offset that it lacks is added.
pub proof fn lemma_push_fresh(offsets: Seq<u32>, fresh: u32)
    requires
        offsets.no_duplicates(),
        !offsets.contains(fresh),
    ensures
        offsets.push(fresh).no_duplicates(),
        offsets.push(fresh).contains(fresh),
{
    let longer = offsets.push(fresh);
    assert(longer[offsets.len() as int] == fresh);
    assert forall|i: int, j: int|
        0 <= i < longer.len() && 0 <= j < longer.len() && i != j implies longer[i]
        != longer[j] by {
        if i < offsets.len() {
            assert(offsets.contains(offsets[i]));
        }
        if j < offsets.len() {
            assert(offsets.contains(offsets[j]));
        }
    }
}

/// The walk stays well-formed, and each byte range handed over brings it
/// nearer to its end: however the offsets of a file point at each other, the
/// walk asks for finitely many byte ranges.
pub proof fn lemma_supply_progress(walk: WalkerView, bytes: Seq<u8>)
    requires
        walk.wf(),
    ensures
        walk.supply(bytes).wf(),
        walk.visited.len() <= OFFSETS,
        walk.request() is Some ==> walk.supply(bytes).steps() < walk.steps(),
{
    lemma_distinct_offsets(walk.visited);
    let after = walk.supply(bytes);
    lemma_distinct_offsets(after.visited);
    if walk.stage is NextOffset && bytes.len() == 4 {
        let next = spec_u32(bytes, walk.endianness);
        if after.stage is TagCount {
            lemma_push_fresh(walk.visited, next);
            assert(after.visited == walk.visited.push(next));
            assert(after.visited.len() == walk.visited.len() + 1);
            assert((OFFSETS - after.visited.len()) * NODE_STEPS + NODE_STEPS == (OFFSETS
                - walk.visited.len()) * NODE_STEPS) by (nonlinear_arith)
                requires
                    after.visited.len() == walk.visited.len() + 1,
            ;
        }
    }
}

/// Values of four bytes at most cost no fetch: a walk that is handed the record
/// of such a tag goes on to the next record, or to the offset of the next
/// directory, or fails; it never asks for the values of that tag.
pub proof fn lemma_inline_values_need_no_fetch(walk: WalkerView, record: Seq<u8>)
    requires
        walk.wf(),
        walk.stage is Record,
        TagEntry::spec_parse(record, walk.endianness) matches Ok(entry) && entry.spec_value_len()
            <= 4,
    ensures
        !(walk.supply(record).stage is Value),
        walk.supply(record).stage is Record ==> walk.supply(record).request() == Some(
            ByteRange {
                start: (walk.node + 2 + 12 * (walk.index + 1)) as u64,
                end: (walk.node + 2 + 12 * (walk.index + 1) + 12) as u64,
            },
        ),
        walk.supply(record).stage is Record || walk.supply(record).stage is NextOffset ==> {
            let entry = TagEntry::spec_parse(record, walk.endianness)->Ok_0;
            walk.supply(record).tags == walk.tags.insert(
                entry.code,
                entry.spec_value(None, walk.endianness)->Ok_0,
            )
        },
{
}

/// Values of more than four bytes are fetched from the offset that their
/// record names, and in full: a walk that is handed the record of such a tag
/// asks for the bytes of the values and no others, and fails unless it is
/// handed as many bytes as the values take.
pub proof fn lemma_indirect_values_are_fetched(walk: WalkerView, record: Seq<u8>, bytes: Seq<u8>)
    requires
        walk.wf(),
        walk.stage is Record,
        TagEntry::spec_parse(record, walk.endianness) matches Ok(entry) && entry.spec_value_len()
            > 4,
    ensures
        ({
            let entry = TagEntry::spec_parse(record, walk.endianness)->Ok_0;
            let offset = spec_u32(record.subrange(8, 12), walk.endianness);
            &&& walk.supply(record).request() == Some(
                ByteRange { start: offset as u64, end: (offset + entry.spec_value_len()) as u64 },
            )
            &&& walk.supply(record).request()->Some_0.spec_len() == entry.count
                * entry.wire_type.spec_width()
            &&& bytes.len() != entry.spec_value_len() ==> walk.supply(record).supply(bytes).stage
                == Stage::Failed(AiocogeoError::RangeFetch)
        }),
{
    let entry = TagEntry::spec_parse(record, walk.endianness)->Ok_0;
    assert(entry.field@ =~= record.subrange(8, 12));
    assert(entry.spec_value_len() <= 8 * 0xffff_ffff) by (nonlinear_arith)
        requires
            entry.spec_value_len() == entry.count * entry.wire_type.spec_width(),
            0 <= entry.count <= 0xffff_ffff,
            1 <= entry.wire_type.spec_width() <= 8,
    ;
}

/// A walk that is handed fewer or more bytes than the byte range holds that it
/// waited for fails, as a fetch that came back short does.
pub proof fn lemma_wrong_length_fails(walk: WalkerView, bytes: Seq<u8>)
    requires
        walk.wf(),
        walk.request() matches Some(range) && bytes.len() != range.spec_len(),
    ensures
        walk.supply(bytes).stage == Stage::Failed(AiocogeoError::RangeFetch),
{
    if walk.stage is Value {
        let entry = walk.stage->Value_0;
        assert(entry.spec_value_len() <= 8 * 0xffff_ffff) by (nonlinear_arith)
            requires
                entry.spec_value_len() == entry.count * entry.wire_type.spec_width(),
                0 <= entry.count <= 0xffff_ffff,
                1 <= entry.wire_type.spec_width() <= 8,
        ;
    }
}

/// A chain that leads back to a directory that was entered before, be it the
/// one that points to itself, is refused.
pub proof fn lemma_cycle_is_refused(walk: WalkerView, next: u32)
    requires
        walk.wf(),
        next != 0,
        walk.visited.contains(next),
    ensures
        walk.with_next(next).stage is Failed,
        spec_from_tags(walk.tags, Some(next)) is Ok ==> walk.with_next(next).stage
            == Stage::Failed(AiocogeoError::DirectoryCycle),
        walk.with_next(walk.node).stage is Failed || walk.node == 0,
{
}

/// Where a cursor stands is of no account to a walk that is fed from its window.
pub proof fn lemma_run_from_anywhere(walk: WalkerView, cursor: CursorView, offset: int)
    ensures
        walk.run(cursor.at(offset)) == walk.run(cursor),
    decreases walk.steps(),
{
    if walk.wf() && walk.request() is Some {
        let range = walk.request()->Some_0;
        assert(cursor.at(offset).at(range.start as int) == cursor.at(range.start as int));
        assert(walk.fed(cursor.at(offset)) == walk.fed(cursor));
        lemma_supply_progress(walk, cursor.at(range.start as int).peek(range.spec_len()));
        lemma_distinct_offsets(walk.visited);
        lemma_run_from_anywhere(walk.fed(cursor), cursor, offset);
    }
}

/// Walks the chain of image directories of a file, one byte range at a time.
///
/// The walker reads nothing itself. It says which byte range it needs next
/// (`request`), and goes on when it is handed the bytes of that range
/// (`supply`), until it needs no more.
#[derive(Debug)]
pub struct DirectoryChainWalker {
    endianness: Endianness,
    stage: Stage,
    node: u32,
    tag_count: u16,
    index: u16,
    tags: HashMap<u16, Value>,
    visited: Vec<u32>,
    directories: Vec<ImageFileDirectory>,
}

impl View for DirectoryChainWalker {
    type V = WalkerView;

    closed spec fn view(&self) -> WalkerView {
        WalkerView {
            endianness: self.endianness,
            stage: self.stage,
            node: self.node,
            tag_count: self.tag_count,
            index: self.index,
            tags: views(self.tags@),
            visited: self.visited@,
            directories: self.directories@.map_values(|d: ImageFileDirectory| d@),
        }
    }
}

fn contains(offsets: &Vec<u32>, offset: u32) -> (found: bool)
    ensures
        found == offsets@.contains(offset),
{
    let mut i: usize = 0;
    while i < offsets.len()
        invariant
            i <= offsets@.len(),
            forall|j: int| 0 <= j < i ==> offsets@[j] != offset,
        decreases offsets@.len() - i,
    {
        if offsets[i] == offset {
            return true;
        }
        i += 1;
    }
    false
}

impl DirectoryChainWalker {
    #[verifier::type_invariant]
    spec fn well_formed(self) -> bool {
        self@.wf()
    }

    /// A walk that starts at the directory at offset `first_ifd_offset`.
    pub fn new(endianness: Endianness, first_ifd_offset: u32) -> (walker: Self)
        ensures
            walker@ == WalkerView::start(endianness, first_ifd_offset),
            walker@.wf(),
    {
        let mut visited: Vec<u32> = Vec::new();
        visited.push(first_ifd_offset);
        assert(visited@[0] == first_ifd_offset);
        let walker = DirectoryChainWalker {
            endianness,
            stage: Stage::TagCount,
            node: first_ifd_offset,
            tag_count: 0,
            index: 0,
            tags: HashMap::new(),
            visited,
            directories: Vec::new(),
        };
        assert(walker@.tags =~= Map::empty());
        assert(walker@.visited =~= seq![first_ifd_offset]);
        assert(walker@.directories =~= Seq::empty());
        walker
    }

    /// The byte range that has to be fetched next; `None` once the walk is
    /// over.
    pub fn request(&self) -> (range: Option<ByteRange>)
        ensures
            range == self@.request(),
            self@.wf(),
    {
        proof {
            use_type_invariant(self);
        }
        let node = self.node as u64;
        match self.stage {
            Stage::TagCount => Some(ByteRange { start: node, end: node + 2 }),
            Stage::Record => {
                let start = node + 2 + 12 * self.index as u64;
                Some(ByteRange { start, end: start + 12 })
            },
            Stage::Value(entry) => entry.value_range(self.endianness),
            Stage::NextOffset => {
                let start = node + 2 + 12 * self.tag_count as u64;
                Some(ByteRange { start, end: start + 4 })
            },
            Stage::Done | Stage::Failed(_) => None,
        }
    }

    /// Whether the chain has been walked to its end.
    pub fn is_done(&self) -> (done: bool)
        ensures
            done == self@.stage is Done,
    {
        matches!(self.stage, Stage::Done)
    }

    fn failed(self, error: AiocogeoError) -> (next: Self)
        ensures
            next@ == self@.failed(error),
    {
        proof {
            use_type_invariant(&self);
        }
        DirectoryChainWalker { stage: Stage::Failed(error), ..self }
    }

    fn with_tag(self, code: u16, value: Result<Value, AiocogeoError>) -> (next: Self)
        requires
            self@.index < self@.tag_count,
        ensures
            next@ == self@.with_tag(
                code,
                match value {
                    Ok(value) => Ok(value@),
                    Err(error) => Err(error),
                },
            ),
    {
        proof {
            use_type_invariant(&self);
        }
        match value {
            Ok(value) => {
                let ghost before = self@;
                let mut tags = self.tags;
                tags.insert(code, value);
                assert(views(tags@) =~= before.tags.insert(code, value@));
                DirectoryChainWalker {
                    endianness: self.endianness,
                    stage: if self.index + 1 == self.tag_count {
                        Stage::NextOffset
                    } else {
                        Stage::Record
                    },
                    node: self.node,
                    tag_count: self.tag_count,
                    index: self.index + 1,
                    tags,
                    visited: self.visited,
                    directories: self.directories,
                }
            },
            Err(error) => self.failed(error),
        }
    }

    fn with_next(self, next: u32) -> (after: Self)
        ensures
            after@ == self@.with_next(next),
    {
        proof {
            use_type_invariant(&self);
        }
        let ghost before = self@;
        let next_ifd_offset = if next == 0 {
            None
        } else {
            Some(next)
        };
        let tags: HashMap<u16, Value> = HashMap::new();
        assert(views(tags@) =~= Map::empty());
        let mut directories = self.directories;
        let mut visited = self.visited;
        match ImageFileDirectory::from_tags(self.tags, next_ifd_offset) {
            Err(error) => DirectoryChainWalker {
                endianness: self.endianness,
                stage: Stage::Failed(error),
                node: self.node,
                tag_count: self.tag_count,
                index: self.index,
                tags,
                visited,
                directories,
            },
            Ok(directory) => {
                directories.push(directory);
                assert(directories@.map_values(|d: ImageFileDirectory| d@)
                    =~= before.directories.push(directory@));
                if next == 0 || contains(&visited, next) {
                    DirectoryChainWalker {
                        endianness: self.endianness,
                        stage: if next == 0 {
                            Stage::Done
                        } else {
                            Stage::Failed(AiocogeoError::DirectoryCycle)
                        },
                        node: self.node,
                        tag_count: self.tag_count,
                        index: self.index,
                        tags,
                        visited,
                        directories,
                    }
                } else {
                    proof {
                        lemma_push_fresh(visited@, next);
                    }
                    visited.push(next);
                    DirectoryChainWalker {
                        endianness: self.endianness,
                        stage: Stage::TagCount,
                        node: next,
                        tag_count: 0,
                        index: 0,
                        tags,
                        visited,
                        directories,
                    }
                }
            },
        }
    }

    /// The walk after the bytes `bytes` were handed over for the byte range
    /// that it waited for. The walk fails where they are not as many as the
    /// range holds, or do not decode.
    pub fn supply(self, bytes: &[u8]) -> (next: Self)
        ensures
            next@ == self@.supply(bytes@),
            self@.wf(),
            next@.wf(),
    {
        proof {
            use_type_invariant(&self);
            lemma_supply_progress(self@, bytes@);
        }
        match self.stage {
            Stage::TagCount => {
                if bytes.len() != 2 {
                    self.failed(AiocogeoError::RangeFetch)
                } else {
                    let tag_count = decode_u16(bytes, self.endianness);
                    DirectoryChainWalker {
                        stage: if tag_count == 0 {
                            Stage::NextOffset
                        } else {
                            Stage::Record
                        },
                        tag_count,
                        index: 0,
                        ..self
                    }
                }
            },
            Stage::Record => match TagEntry::parse(bytes, self.endianness) {
                Err(error) => self.failed(error),
                Ok(entry) => if entry.value_range(self.endianness).is_none() {
                    let value = entry.value(None, self.endianness);
                    self.with_tag(entry.code, value)
                } else {
                    DirectoryChainWalker { stage: Stage::Value(entry), ..self }
                },
            },
            Stage::Value(entry) => {
                let value = entry.value(Some(bytes), self.endianness);
                self.with_tag(entry.code, value)
            },
            Stage::NextOffset => {
                if bytes.len() != 4 {
                    self.failed(AiocogeoError::RangeFetch)
                } else {
                    let next = decode_u32(bytes, self.endianness);
                    self.with_next(next)
                }
            },
            Stage::Done | Stage::Failed(_) => self,
        }
    }

    /// The error of the walk, where it has failed.
    pub fn outcome(&self) -> (r: Result<(), AiocogeoError>)
        ensures
            r == self@.outcome(),
    {
        match self.stage {
            Stage::Failed(error) => Err(error),
            _ => Ok(()),
        }
    }

    /// The directories that have been read, in chain order.
    pub fn directories(&self) -> (directories: &Vec<ImageFileDirectory>)
        ensures
            directories@.map_values(|d: ImageFileDirectory| d@) == self@.directories,
    {
        &self.directories
    }

    /// The first directory that the walk has read.
    pub fn into_first(self) -> (r: Result<ImageFileDirectory, AiocogeoError>)
        ensures
            match self@.first() {
                Ok(directory) => r is Ok && r->Ok_0@ == directory,
                Err(error) => r == Err::<ImageFileDirectory, _>(error),
            },
    {
        let mut directories = self.directories;
        if directories.len() > 0 {
            Ok(directories.remove(0))
        } else {
            match self.stage {
                Stage::Failed(error) => Err(error),
                _ => Err(AiocogeoError::RangeFetch),
            }
        }
    }

    /// The directories of the chain, in chain order, once the walk is over;
    /// the error of the walk where it failed, and `RangeFetch` where it was
    /// left before its end.
    pub fn finish(self) -> (r: Result<ImageFileDirectories, AiocogeoError>)
        ensures
            match self@.result() {
                Ok(directories) => r is Ok && r->Ok_0@ == directories,
                Err(error) => r == Err::<ImageFileDirectories, _>(error),
            },
    {
        proof {
            use_type_invariant(&self);
        }
        match self.stage {
            Stage::Done => Ok(ImageFileDirectories { ifds: self.directories }),
            Stage::Failed(error) => Err(error),
            _ => Err(AiocogeoError::RangeFetch),
        }
    }
}

impl ImageFileDirectory {
    /// Reads the image directory at offset `offset` from the window of
    /// `cursor`, wherever the directory points to. Only the position of the
    /// cursor changes.
    pub fn read(cursor: &mut ByteRangeCursor, offset: u32) -> (r: Result<Self, AiocogeoError>)
        ensures
            final(cursor)@ == old(cursor)@.at(final(cursor)@.offset),
            match WalkerView::start(old(cursor)@.endianness, offset).run_node(
                old(cursor)@,
            ).first() {
                Ok(directory) => r is Ok && r->Ok_0@ == directory,
                Err(error) => r == Err::<ImageFileDirectory, _>(error),
            },
    {
        let ghost window = cursor@;
        let mut walker = DirectoryChainWalker::new(cursor.endianness(), offset);
        let mut request = walker.request();
        while request.is_some() && walker.directories().len() == 0
            invariant
                request == walker@.request(),
                walker@.wf(),
                cursor@ == window.at(cursor@.offset),
                walker@.run_node(window) == WalkerView::start(window.endianness, offset).run_node(
                    window,
                ),
            decreases walker@.steps(),
        {
            let range = request.unwrap();
            let ghost before = walker@;
            cursor.seek(range.start);
            assert(cursor@ == window.at(range.start as int));
            match cursor.read(range.len()) {
                Ok(bytes) => {
                    proof {
                        lemma_supply_progress(before, bytes@);
                    }
                    walker = walker.supply(bytes);
                },
                Err(_) => {
                    proof {
                        lemma_distinct_offsets(before.visited);
                    }
                    walker = walker.failed(AiocogeoError::RangeFetch);
                },
            }
            assert(walker@ == before.fed(window));
            request = walker.request();
        }
        walker.into_first()
    }
}

/// A collection of all the IFD
///
/// There's always at least one IFD in a TIFF.
#[derive(Debug)]
pub struct ImageFileDirectories {
    ifds: Vec<ImageFileDirectory>,
}

impl View for ImageFileDirectories {
    type V = Seq<DirectoryView>;

    closed spec fn view(&self) -> Seq<DirectoryView> {
        self.ifds@.map_values(|d: ImageFileDirectory| d@)
    }
}

impl ImageFileDirectories {
    #[verifier::type_invariant]
    spec fn not_empty(self) -> bool {
        self.ifds@.len() > 0
    }

    /// The directories, in chain order.
    pub fn as_ref(&self) -> (ifds: &[ImageFileDirectory])
        ensures
            ifds@.map_values(|d: ImageFileDirectory| d@) == self@,
            ifds@.len() > 0,
    {
        proof {
            use_type_invariant(self);
        }
        self.ifds.as_slice()
    }

    /// Reads the chain of image directories that starts at offset
    /// `ifd_offset`, from the window of `cursor`. Only the position of the
    /// cursor changes.
    pub fn open(cursor: &mut ByteRangeCursor, ifd_offset: u32) -> (r: Result<Self, AiocogeoError>)
        ensures
            final(cursor)@ == old(cursor)@.at(final(cursor)@.offset),
            match WalkerView::start(old(cursor)@.endianness, ifd_offset).run(
                old(cursor)@,
            ).result() {
                Ok(directories) => r is Ok && r->Ok_0@ == directories,
                Err(error) => r == Err::<ImageFileDirectories, _>(error),
            },
    {
        let ghost window = cursor@;
        let mut walker = DirectoryChainWalker::new(cursor.endianness(), ifd_offset);
        let mut request = walker.request();
        while request.is_some()
            invariant
                request == walker@.request(),
                walker@.wf(),
                cursor@ == window.at(cursor@.offset),
                walker@.run(window) == WalkerView::start(window.endianness, ifd_offset).run(
                    window,
                ),
            decreases walker@.steps(),
        {
            let range = request.unwrap();
            let ghost before = walker@;
            cursor.seek(range.start);
            assert(cursor@ == window.at(range.start as int));
            match cursor.read(range.len()) {
                Ok(bytes) => {
                    proof {
                        lemma_supply_progress(before, bytes@);
                    }
                    walker = walker.supply(bytes);
                },
                Err(_) => {
                    proof {
                        lemma_distinct_offsets(before.visited);
                    }
                    walker = walker.failed(AiocogeoError::RangeFetch);
                },
            }
            assert(walker@ == before.fed(window));
            request = walker.request();
        }
        walker.finish()
    }
}

} // verus!
