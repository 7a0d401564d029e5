//! Device logs in the browser: where each log command goes, and what the log
//! decoder does after each attempt to decode a frame.
use crate::protocol::Log;
use object::{Object, ObjectSection, ObjectSymbol};
use std::collections::BTreeMap;
use vstd::prelude::*;

verus! {

#[verifier::external_type_specification]
#[verifier::external_body]
pub struct ExTable(defmt_decoder::Table);

#[verifier::external_type_specification]
#[verifier::external_body]
pub struct ExLocation(defmt_decoder::Location);

#[verifier::external_type_specification]
#[verifier::external_body]
pub struct ExAnyhowError(anyhow::Error);

/// What `defmt_decoder::Table::parse` makes of a firmware image: `None` when
/// it fails, `Some(false)` when the image holds no log tables, `Some(true)`
/// when it returns a table. The table itself is not named: two parses of the
/// same image give tables that differ in their hash maps' seeds.
pub uninterp spec fn table_parse_outcome(elf: Seq<u8>) -> Option<bool>;

/// The indices of the log format strings a table holds, in its order.
pub uninterp spec fn table_indices(t: defmt_decoder::Table) -> Seq<usize>;

/// Whether the encoding a table was made with lets a decoder skip a
/// malformed frame.
pub uninterp spec fn table_can_recover(t: defmt_decoder::Table) -> bool;

/// What `Table::get_locations` finds for a table in a firmware image: `None`
/// when it fails.
pub uninterp spec fn table_locations(t: defmt_decoder::Table, elf: Seq<u8>) -> Option<Map<u64, defmt_decoder::Location>>;

/// The symbol table of a firmware image as `object::File::parse` reads it
/// (the reader the log-table parser uses): `None` when the image cannot be
/// read; else the index of its first `.defmt` section, if any, and, for each
/// symbol in order, the index of its section, if any, and its address.
pub uninterp spec fn elf_symbol_table(elf: Seq<u8>) -> Option<(Option<usize>, Seq<(Option<usize>, u64)>)>;

/// `object::File::parse`, then `section_by_name(".defmt")` and `symbols()`:
/// the section indices and addresses of the image's symbols.
#[verifier::external_body]
fn read_symbol_table(elf: &[u8]) -> (r: Option<(Option<usize>, Vec<(Option<usize>, u64)>)>)
    ensures
        r is None <==> elf_symbol_table(elf@) is None,
        r matches Some((d, syms)) ==> elf_symbol_table(elf@) == Some((d, syms@)),
{
    let file = object::File::parse(elf).ok()?;
    let defmt = file.section_by_name(".defmt").map(|s| s.index().0);
    let syms = file.symbols().map(|e| (e.section_index().map(|i| i.0), e.address())).collect();
    Some((defmt, syms))
}

/// Every symbol the image places in its `.defmt` section has an address at
/// least 16 below `usize::MAX`, so the log-table parser can read 16 bytes
/// there without its address arithmetic overflowing.
pub open spec fn defmt_addresses_fit(elf: Seq<u8>) -> bool {
    match elf_symbol_table(elf) {
        Some((Some(d), syms)) => forall|i: int|
            0 <= i < syms.len() && (#[trigger] syms[i]).0 == Some(d) ==> syms[i].1 + 16 <= usize::MAX,
        _ => true,
    }
}

/// An image is refused for its addresses exactly when some symbol of its
/// `.defmt` section sits within 16 bytes of `usize::MAX`: an image whose
/// `.defmt` symbols all lie at or below `usize::MAX - 16`, an image that has
/// no `.defmt` section, and an image that cannot be read all pass.
pub proof fn lemma_addresses_refused_only_near_top(elf: Seq<u8>)
    ensures
        !defmt_addresses_fit(elf) <==> (elf_symbol_table(elf) matches Some((Some(d), syms))
            && exists|i: int| 0 <= i < syms.len() && (#[trigger] syms[i]).0 == Some(d) && syms[i].1 > usize::MAX - 16),
        elf_symbol_table(elf) is None ==> defmt_addresses_fit(elf),
        (elf_symbol_table(elf) matches Some((None, _))) ==> defmt_addresses_fit(elf),
{
    if !defmt_addresses_fit(elf) {
        let (d, syms) = (elf_symbol_table(elf).unwrap().0.unwrap(), elf_symbol_table(elf).unwrap().1);
        let i = choose|i: int| 0 <= i < syms.len() && (#[trigger] syms[i]).0 == Some(d) && !(syms[i].1 + 16 <= usize::MAX);
        assert(syms[i].0 == Some(d) && syms[i].1 > usize::MAX - 16);
    }
}

/// Whether the log-table parser can read the image without its address
/// arithmetic overflowing.
pub fn defmt_addresses_in_range(elf: &[u8]) -> (r: bool)
    ensures
        r == defmt_addresses_fit(elf@),
        !r <==> (elf_symbol_table(elf@) matches Some((Some(d), syms))
            && exists|i: int| 0 <= i < syms.len() && (#[trigger] syms[i]).0 == Some(d) && syms[i].1 > usize::MAX - 16),
{
    proof {
        lemma_addresses_refused_only_near_top(elf@);
    }
    match read_symbol_table(elf) {
        None => true,
        Some((None, _)) => true,
        Some((Some(d), syms)) => {
            let mut i: usize = 0;
            while i < syms.len()
                invariant
                    elf_symbol_table(elf@) == Some((Some(d), syms@)),
                    i <= syms@.len(),
                    forall|j: int| 0 <= j < i && (#[trigger] syms@[j]).0 == Some(d) ==> syms@[j].1 + 16 <= usize::MAX,
                decreases syms@.len() - i,
            {
                let (sec, addr) = syms[i];
                if sec == Some(d) && addr > (usize::MAX - 16) as u64 {
                    assert(syms@[i as int].0 == Some(d));
                    return false;
                }
                i = i + 1;
            }
            true
        },
    }
}

/// `defmt_decoder::Table::parse`: reads the log tables of a firmware image.
/// Which of its three outcomes comes is stated; the error value and the
/// returned table are not (the table is described through `table_indices`,
/// `table_can_recover` and `table_locations`). The parser reads 16 bytes at
/// the address of some `.defmt` symbols and overflows (a panic with overflow
/// checks on) when that address lies within 16 of `usize::MAX`; `requires`
/// leaves such images out.
#[verifier::external_body]
fn parse_table(elf: &[u8]) -> (r: Result<Option<defmt_decoder::Table>, anyhow::Error>)
    requires
        defmt_addresses_fit(elf@),
    ensures
        r is Err <==> table_parse_outcome(elf@) is None,
        r matches Ok(t) ==> table_parse_outcome(elf@) == Some(t is Some),
{
    defmt_decoder::Table::parse(elf)
}

/// `Table::indices`, collected: the indices of the table's log format
/// strings.
#[verifier::external_body]
fn indices_of(t: &defmt_decoder::Table) -> (r: Vec<usize>)
    ensures
        r@ == table_indices(*t),
{
    t.indices().collect()
}

/// `Encoding::can_recover` of `Table::encoding`.
#[verifier::external_body]
fn can_recover_of(t: &defmt_decoder::Table) -> (r: bool)
    ensures
        r == table_can_recover(*t),
{
    t.encoding().can_recover()
}

/// `Table::get_locations`: the source locations of the table's entries,
/// read from the firmware's debug information. The error value is not
/// stated.
#[verifier::external_body]
fn locations_of(t: &defmt_decoder::Table, elf: &[u8]) -> (r: Result<BTreeMap<u64, defmt_decoder::Location>, anyhow::Error>)
    ensures
        r is Err <==> table_locations(*t, elf@) is None,
        r matches Ok(m) ==> table_locations(*t, elf@) == Some(m@),
{
    t.get_locations(elf)
}

/// Why no log decoder could be built from a firmware image.
#[derive(Debug)]
pub enum TableError {
    /// The image could not be read.
    Unparsable(anyhow::Error),
    /// The image places a log symbol at an address too close to the top of
    /// the address space to be read.
    AddressOutOfRange,
    /// The image holds no log tables.
    NoLogTables,
    /// The source locations of the table that was read could not be found.
    Locations(defmt_decoder::Table, anyhow::Error),
}

/// What a log decoder is built from, and how it reports.
pub struct LogTables {
    pub table: defmt_decoder::Table,
    /// Source locations, when there is one for every log statement.
    pub locations: Option<BTreeMap<u64, defmt_decoder::Location>>,
    /// Whether a malformed frame can be skipped.
    pub can_recover: bool,
    /// Whether skipped frames are reported.
    pub show_skipped_frames: bool,
    /// Whether the decoder reports verbosely.
    pub verbose: bool,
}

/// Reads what a log decoder needs from a firmware image: its log table, the
/// source locations (dropped when incomplete) and whether its encoding can
/// recover from a malformed frame. The decoder reports skipped frames and is
/// verbose.
pub fn log_tables(elf: &[u8]) -> (r: Result<LogTables, TableError>)
    ensures
        !defmt_addresses_fit(elf@) <==> r matches Err(TableError::AddressOutOfRange),
        (r matches Err(TableError::AddressOutOfRange)) <==> (elf_symbol_table(elf@) matches Some((Some(d), syms))
            && exists|i: int| 0 <= i < syms.len() && (#[trigger] syms[i]).0 == Some(d) && syms[i].1 > usize::MAX - 16),
        defmt_addresses_fit(elf@) ==> (table_parse_outcome(elf@) is None <==> r matches Err(TableError::Unparsable(_))),
        defmt_addresses_fit(elf@) ==> (table_parse_outcome(elf@) == Some(false) <==> r matches Err(TableError::NoLogTables)),
        r matches Err(TableError::Unparsable(_)) ==> defmt_addresses_fit(elf@),
        r matches Err(TableError::NoLogTables) ==> defmt_addresses_fit(elf@),
        r matches Err(TableError::Locations(t, _)) ==> defmt_addresses_fit(elf@) && table_parse_outcome(elf@) == Some(true)
            && table_locations(t, elf@) is None,
        r matches Ok(lt) ==> {
            &&& defmt_addresses_fit(elf@)
            &&& table_parse_outcome(elf@) == Some(true)
            &&& table_locations(lt.table, elf@) matches Some(m)
            &&& (lt.locations is Some <==> forall|i: int| 0 <= i < table_indices(lt.table).len()
                ==> m.contains_key(#[trigger] table_indices(lt.table)[i] as u64))
            &&& (lt.locations matches Some(l) ==> l@ == m)
            &&& lt.can_recover == table_can_recover(lt.table)
            &&& lt.show_skipped_frames
            &&& lt.verbose
        },
{
    proof {
        lemma_addresses_refused_only_near_top(elf@);
    }
    if !defmt_addresses_in_range(elf) {
        return Err(TableError::AddressOutOfRange);
    }
    let table = match parse_table(elf) {
        Ok(Some(table)) => table,
        Err(e) => {
            return Err(TableError::Unparsable(e));
        },
        Ok(None) => {
            return Err(TableError::NoLogTables);
        },
    };
    let locs = match locations_of(&table, elf) {
        Ok(locs) => locs,
        Err(e) => {
            return Err(TableError::Locations(table, e));
        },
    };
    let indices = indices_of(&table);
    let locations = locations_if_complete(indices.as_slice(), locs);
    let can_recover = can_recover_of(&table);
    Ok(LogTables { table, locations, can_recover, show_skipped_frames: true, verbose: true })
}

broadcast use vstd::std_specs::btree::group_btree_axioms;

/// Where a log command goes.
#[derive(Clone, PartialEq, Eq, Debug)]
pub enum LogRoute<'a> {
    /// Build a new decoder from this firmware image, replacing any other.
    NewDecoder(&'a [u8]),
    /// Feed these bytes to the current decoder.
    Feed(&'a [u8]),
    /// Drop the packet: there is no decoder yet.
    NoDecoder,
}

/// Routes a log command, given whether a decoder has been built.
pub fn route_log<'a>(log: Log<'a>, has_decoder: bool) -> (r: LogRoute<'a>)
    ensures
        r == (match log {
            Log::Elf(elf) => LogRoute::NewDecoder(elf),
            Log::Packet(p) => if has_decoder { LogRoute::Feed(p) } else { LogRoute::NoDecoder },
        }),
{
    match log {
        Log::Elf(elf) => LogRoute::NewDecoder(elf),
        Log::Packet(p) => if has_decoder {
            LogRoute::Feed(p)
        } else {
            LogRoute::NoDecoder
        },
    }
}

/// The result of one attempt to decode a frame from the received bytes.
#[derive(Clone, Copy, PartialEq, Eq, Debug, Structural)]
pub enum DecodeOutcome {
    /// A whole frame was decoded.
    Frame,
    /// The bytes end inside a frame: wait for more.
    UnexpectedEof,
    /// The bytes do not form a frame.
    Malformed,
}

/// What the decoder loop does next.
#[derive(Clone, Copy, PartialEq, Eq, Debug, Structural)]
pub enum FrameStep {
    /// Print the decoded frame and go on decoding.
    Forward,
    /// Stop until more bytes arrive; the chunk was handled.
    Stop,
    /// Give up on the chunk with a malformed-frame error.
    Fail,
    /// Skip the malformed frame and go on, reporting the skip when `report`.
    Skip { report: bool },
}

/// The decoder loop's decision after one decode attempt. A malformed frame
/// ends the chunk with an error when the encoding cannot recover, and is
/// skipped otherwise.
pub fn frame_step(outcome: DecodeOutcome, can_recover: bool, show_skipped_frames: bool, verbose: bool) -> (s: FrameStep)
    ensures
        s == (match outcome {
            DecodeOutcome::Frame => FrameStep::Forward,
            DecodeOutcome::UnexpectedEof => FrameStep::Stop,
            DecodeOutcome::Malformed => if can_recover {
                FrameStep::Skip { report: show_skipped_frames || verbose }
            } else {
                FrameStep::Fail
            },
        }),
{
    match outcome {
        DecodeOutcome::Frame => FrameStep::Forward,
        DecodeOutcome::UnexpectedEof => FrameStep::Stop,
        DecodeOutcome::Malformed => if can_recover {
            FrameStep::Skip { report: show_skipped_frames || verbose }
        } else {
            FrameStep::Fail
        },
    }
}

/// The location table, kept only when it holds a location for every index of
/// the firmware's format table; otherwise locations are left out of the
/// output altogether.
pub fn locations_if_complete<V>(indices: &[usize], locs: BTreeMap<u64, V>) -> (r: Option<BTreeMap<u64, V>>)
    ensures
        r is Some <==> forall|i: int| 0 <= i < indices@.len() ==> locs@.contains_key(#[trigger] indices@[i] as u64),
        r matches Some(m) ==> m@ == locs@,
{
    let mut k: usize = 0;
    while k < indices.len()
        invariant
            k <= indices@.len(),
            forall|i: int| 0 <= i < k ==> locs@.contains_key(#[trigger] indices@[i] as u64),
        decreases indices@.len() - k,
    {
        let key: u64 = indices[k] as u64;
        if !locs.contains_key(&key) {
            return None;
        }
        k = k + 1;
    }
    Some(locs)
}

} // verus!
