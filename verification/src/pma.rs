//! Planning of the K3 X100 AMP-window PMA update.
//!
//! The physical memory attribute (PMA) table of an X100 hart is a stack of
//! sixteen word-encoded upper bounds: entry `i` covers the addresses from the
//! previous bound up to its own. Attribute bytes are packed eight per
//! configuration CSR. The functions here decide, from values read from those
//! CSRs, which entry covers the shared SRAM window and what the configuration
//! CSR must hold afterwards; reading and writing the CSRs is the caller's part.
use vstd::prelude::*;

verus! {

/// First byte of the shared SRAM window.
pub const SRAM_BASE: u64 = 0xc080_0000;

/// Size of the shared SRAM window (512 KiB).
pub const SRAM_SIZE: u64 = 0x8_0000;

/// PMA attribute byte that marks a region as IO.
pub const PMA_ATTR_IO: u64 = 0x22;

/// Cache line size used when cleaning the SRAM window.
pub const CACHE_LINE: u64 = 64;

/// Number of stacked-bound PMA entries.
pub const PMA_ENTRIES: usize = 16;

/// CSR number of the first PMA address register (`pmaaddr0`).
pub const PMAADDR0_CSR: u16 = 0x7e0;

/// CSR holding the attribute bytes of entries 0 to 7.
pub const PMACFG0_CSR: u16 = 0x7de;

/// CSR holding the attribute bytes of entries 8 to 15.
pub const PMACFG2_CSR: u16 = 0x7df;

/// Errors of the PMA initialization.
#[derive(Debug, Clone, Copy, PartialEq, Eq)]
pub enum Error {
    /// A CSR access faulted.
    AccessDenied,
    /// A word-encoded bound does not fit in a byte address.
    Overflow,
    /// The bounds are not stacked in ascending order.
    InvalidArgs,
    /// No entry covers the complete window.
    NotEnoughResources,
}

/// Byte address of the upper bound of entry `j`.
pub open spec fn entry_top(addrs: Seq<u64>, j: int) -> int {
    addrs[j] as int * 4
}

/// Byte address at which entry `j` starts: the previous bound, zero for the first.
pub open spec fn entry_bottom(addrs: Seq<u64>, j: int) -> int {
    if j == 0 {
        0
    } else {
        entry_top(addrs, j - 1)
    }
}

/// The upper bound of entry `j` does not fit in 64 bits.
pub open spec fn top_overflows(addrs: Seq<u64>, j: int) -> bool {
    entry_top(addrs, j) > u64::MAX
}

/// Entry `j` is in use and ends below the place where it starts.
pub open spec fn bounds_misordered(addrs: Seq<u64>, j: int) -> bool {
    entry_top(addrs, j) != 0 && entry_top(addrs, j) < entry_bottom(addrs, j)
}

/// Entry `j` is in use and covers the complete SRAM window.
pub open spec fn covers_sram(addrs: Seq<u64>, j: int) -> bool {
    &&& entry_top(addrs, j) != 0
    &&& entry_bottom(addrs, j) <= SRAM_BASE
    &&& SRAM_BASE + SRAM_SIZE <= entry_top(addrs, j)
}

/// The scan of the table ends at entry `j`, with a result or an error.
pub open spec fn scan_ends_at(addrs: Seq<u64>, j: int) -> bool {
    top_overflows(addrs, j) || bounds_misordered(addrs, j) || covers_sram(addrs, j)
}

/// The scan of the table goes on past every entry before `k`.
pub open spec fn scan_passes(addrs: Seq<u64>, k: int) -> bool {
    forall|j: int| 0 <= j < k ==> !#[trigger] scan_ends_at(addrs, j)
}

/// `r` is the result of scanning the PMA address registers `addrs`: the
/// first entry that stops the scan decides it, and `NotEnoughResources`
/// comes when none does.
pub open spec fn scan_result(addrs: Seq<u64>, r: Result<usize, Error>) -> bool {
    match r {
        Ok(k) => {
            &&& k < addrs.len()
            &&& scan_passes(addrs, k as int)
            &&& !top_overflows(addrs, k as int)
            &&& covers_sram(addrs, k as int)
        },
        Err(Error::Overflow) => exists|k: int|
            0 <= k < addrs.len() && scan_passes(addrs, k) && #[trigger] top_overflows(addrs, k),
        Err(Error::InvalidArgs) => exists|k: int|
            0 <= k < addrs.len() && scan_passes(addrs, k) && !top_overflows(addrs, k)
                && #[trigger] bounds_misordered(addrs, k),
        Err(Error::NotEnoughResources) => scan_passes(addrs, addrs.len() as int),
        Err(Error::AccessDenied) => false,
    }
}

/// Byte address of the upper bound that raw register `j` encodes, written out
/// from the register values alone.
pub open spec fn raw_bound(addrs: Seq<u64>, j: int) -> int {
    addrs[j] * 4
}

/// `InvalidArgs` needs a nonzero bound strictly below the previous bound (the
/// previous bound is zero for the first entry): an entry whose bound repeats
/// the previous one is empty, not misordered.
pub proof fn law_invalid_args_needs_strictly_lower_bound(addrs: Seq<u64>)
    ensures
        scan_result(addrs, Err(Error::InvalidArgs)) ==> exists|k: int|
            0 <= k < addrs.len() && addrs[k] != 0 && #[trigger] raw_bound(addrs, k) < (if k == 0 {
                0
            } else {
                raw_bound(addrs, k - 1)
            }),
{
    if scan_result(addrs, Err(Error::InvalidArgs)) {
        let k = choose|k: int|
            0 <= k < addrs.len() && scan_passes(addrs, k) && !top_overflows(addrs, k)
                && #[trigger] bounds_misordered(addrs, k);
        assert(raw_bound(addrs, k) == entry_top(addrs, k));
        if k > 0 {
            assert(raw_bound(addrs, k - 1) == entry_top(addrs, k - 1));
        }
    }
}

/// With bounds that never go down (a zero register aside) and none that
/// overflows, the scan never reports `InvalidArgs` or `Overflow`: it finds a
/// covering entry or reports `NotEnoughResources`.
pub proof fn law_ascending_bounds_give_entry_or_not_enough(addrs: Seq<u64>, r: Result<usize, Error>)
    requires
        scan_result(addrs, r),
        forall|j: int| 0 <= j < addrs.len() ==> #[trigger] raw_bound(addrs, j) <= u64::MAX,
        forall|j: int|
            0 < j < addrs.len() && addrs[j] != 0 ==> raw_bound(addrs, j - 1) <= #[trigger] raw_bound(
                addrs,
                j,
            ),
    ensures
        r is Ok || r == Err::<usize, Error>(Error::NotEnoughResources),
{
    match r {
        Err(Error::InvalidArgs) => {
            law_invalid_args_needs_strictly_lower_bound(addrs);
            let k = choose|k: int|
                0 <= k < addrs.len() && addrs[k] != 0 && #[trigger] raw_bound(addrs, k) < (if k
                    == 0 {
                    0
                } else {
                    raw_bound(addrs, k - 1)
                });
            if k > 0 {
                assert(raw_bound(addrs, k - 1) <= raw_bound(addrs, k));
            }
        },
        Err(Error::Overflow) => {
            let k = choose|k: int|
                0 <= k < addrs.len() && scan_passes(addrs, k) && #[trigger] top_overflows(addrs, k);
            assert(raw_bound(addrs, k) <= u64::MAX);
        },
        _ => {},
    }
}

/// A located entry holds the whole window: it starts at or below
/// `SRAM_BASE` (at the previous bound, or at zero for the first entry) and
/// ends at or above `SRAM_BASE + SRAM_SIZE`; no earlier entry does.
pub proof fn law_located_entry_holds_window(addrs: Seq<u64>, k: usize)
    requires
        scan_result(addrs, Ok(k)),
    ensures
        k < addrs.len(),
        raw_bound(addrs, k as int) >= 0xc088_0000,
        k > 0 ==> raw_bound(addrs, k - 1) <= 0xc080_0000,
        forall|j: int|
            0 <= j < k ==> !(addrs[j] != 0 && #[trigger] raw_bound(addrs, j) >= 0xc088_0000 && (j
                == 0 || raw_bound(addrs, j - 1) <= 0xc080_0000)),
{
    assert forall|j: int|
        0 <= j < k implies !(addrs[j] != 0 && #[trigger] raw_bound(addrs, j) >= 0xc088_0000 && (j
        == 0 || raw_bound(addrs, j - 1) <= 0xc080_0000)) by {
        assert(!scan_ends_at(addrs, j));
    }
}

/// Locates the PMA entry that covers the whole SRAM window.
///
/// `addresses` holds the raw PMA address registers in entry order. The scan
/// stops at the first entry whose bound overflows (`Overflow`), whose bound
/// lies below the previous one (`InvalidArgs`), or that covers the window
/// (its index); it fails with `NotEnoughResources` when no entry stops it.
pub fn locate_sram_entry(addresses: &[u64]) -> (r: Result<usize, Error>)
    ensures
        scan_result(addresses@, r),
{
    let mut bottom: u64 = 0;
    let mut index: usize = 0;
    while index < addresses.len()
        invariant
            index <= addresses@.len(),
            bottom == entry_bottom(addresses@, index as int),
            scan_passes(addresses@, index as int),
        decreases addresses@.len() - index,
    {
        let encoded = addresses[index];
        let top = match encoded.checked_mul(4) {
            Some(top) => top,
            None => {
                assert(top_overflows(addresses@, index as int));
                return Err(Error::Overflow);
            },
        };
        if top != 0 && top < bottom {
            assert(bounds_misordered(addresses@, index as int));
            return Err(Error::InvalidArgs);
        }
        if top != 0 && bottom <= SRAM_BASE && SRAM_BASE + SRAM_SIZE <= top {
            return Ok(index);
        }
        assert(!scan_ends_at(addresses@, index as int));
        assert(scan_passes(addresses@, index + 1)) by {
            assert forall|j: int| 0 <= j < index + 1 implies !#[trigger] scan_ends_at(
                addresses@,
                j,
            ) by {
                if j < index {
                    assert(!scan_ends_at(addresses@, j));
                }
            }
        }
        bottom = top;
        index = index + 1;
    }
    Err(Error::NotEnoughResources)
}

/// A CSR access that faulted.
#[derive(Debug, Clone, Copy, PartialEq, Eq, Structural)]
pub struct CsrFault;

/// Every CSR read in `reads` succeeded.
pub open spec fn all_reads_ok(reads: Seq<Result<u64, CsrFault>>) -> bool {
    forall|i: int| 0 <= i < reads.len() ==> #[trigger] reads[i] is Ok
}

/// The values of successful CSR reads (zero stands for a faulted one).
pub open spec fn read_values(reads: Seq<Result<u64, CsrFault>>) -> Seq<u64> {
    reads.map_values(
        |read: Result<u64, CsrFault>|
            match read {
                Ok(value) => value,
                Err(_) => 0u64,
            },
    )
}

/// Maps the outcome of a CSR access to the initialization's result: a fault
/// becomes `AccessDenied`, a success passes its value on.
pub fn csr_access<T>(outcome: Result<T, CsrFault>) -> (r: Result<T, Error>)
    ensures
        match outcome {
            Ok(value) => r == Ok::<T, Error>(value),
            Err(_) => r == Err::<T, Error>(Error::AccessDenied),
        },
{
    match outcome {
        Ok(value) => Ok(value),
        Err(_) => Err(Error::AccessDenied),
    }
}

/// Locates the PMA entry that covers the SRAM window from the outcomes of
/// reading the PMA address registers in entry order.
///
/// A faulted read gives `AccessDenied` before any bound is looked at;
/// otherwise the result is the scan of the values read.
pub fn locate_sram_entry_in_reads(reads: &[Result<u64, CsrFault>]) -> (r: Result<usize, Error>)
    ensures
        !all_reads_ok(reads@) <==> r == Err::<usize, Error>(Error::AccessDenied),
        all_reads_ok(reads@) ==> scan_result(read_values(reads@), r),
{
    let mut values: Vec<u64> = Vec::new();
    let mut i: usize = 0;
    while i < reads.len()
        invariant
            i <= reads@.len(),
            values@ == read_values(reads@).take(i as int),
            forall|j: int| 0 <= j < i ==> #[trigger] reads@[j] is Ok,
        decreases reads@.len() - i,
    {
        match reads[i] {
            Ok(value) => {
                values.push(value);
            },
            Err(_) => {
                assert(!(reads@[i as int] is Ok));
                return Err(Error::AccessDenied);
            },
        }
        assert(values@ =~= read_values(reads@).take(i + 1));
        i = i + 1;
    }
    assert(values@ =~= read_values(reads@));
    let r = locate_sram_entry(&values);
    assert(r != Err::<usize, Error>(Error::AccessDenied));
    r
}

/// Attribute byte number `slot` (0 to 7) of a packed configuration value.
pub open spec fn attr_byte(value: u64, slot: u64) -> u64 {
    (value >> (8 * slot)) & 0xff
}

/// `value` is `old` with the attribute byte of entry `index` set to IO and
/// the other seven attribute bytes kept.
pub open spec fn is_io_update(old: u64, index: usize, value: u64) -> bool {
    forall|b: u64|
        b < 8 ==> #[trigger] attr_byte(value, b) == (if b == (index % 8) as u64 {
            PMA_ATTR_IO
        } else {
            attr_byte(old, b)
        })
}

/// Configuration CSR that holds the attribute byte of entry `index`.
pub fn pma_cfg_csr(index: usize) -> (csr: u16)
    ensures
        csr == (if index < 8 {
            PMACFG0_CSR
        } else {
            PMACFG2_CSR
        }),
{
    if index < 8 {
        PMACFG0_CSR
    } else {
        PMACFG2_CSR
    }
}

/// Configuration value that marks entry `index` as IO.
///
/// Byte `index % 8` of `old` becomes [`PMA_ATTR_IO`]; the other seven
/// attribute bytes are kept as they are.
pub fn updated_pma_cfg(old: u64, index: usize) -> (value: u64)
    ensures
        is_io_update(old, index, value),
{
    let slot: u64 = (index % 8) as u64;
    let shift: u64 = slot * 8;
    let value: u64 = (old & !(0xffu64 << shift)) | (PMA_ATTR_IO << shift);
    assert forall|b: u64| b < 8 implies #[trigger] attr_byte(value, b) == (if b == slot {
        PMA_ATTR_IO
    } else {
        attr_byte(old, b)
    }) by {
        assert(((((old & !(0xffu64 << shift)) | (0x22u64 << shift)) >> (8 * b)) & 0xff) == (if b
            == slot {
            0x22u64
        } else {
            (old >> (8 * b)) & 0xff
        })) by (bit_vector)
            requires
                b < 8,
                slot < 8,
                shift == slot * 8,
        ;
    }
    value
}

/// The write that marks entry `index` as IO, from the outcome of reading its
/// configuration CSR: `AccessDenied` when the read faulted, `Ok(None)` when
/// the entry is already IO and nothing needs writing, and otherwise
/// `Ok(Some(value))` with the value to write.
pub fn plan_pma_cfg_write(old: Result<u64, CsrFault>, index: usize) -> (r: Result<
    Option<u64>,
    Error,
>)
    ensures
        old is Err <==> r == Err::<Option<u64>, Error>(Error::AccessDenied),
        old matches Ok(o) ==> match r {
            Ok(None) => is_io_update(o, index, o),
            Ok(Some(value)) => is_io_update(o, index, value) && value != o,
            Err(_) => false,
        },
{
    let old = match csr_access(old) {
        Ok(value) => value,
        Err(e) => {
            return Err(e);
        },
    };
    let value = updated_pma_cfg(old, index);
    if value == old {
        Ok(None)
    } else {
        Ok(Some(value))
    }
}

/// Two configuration values with the same eight attribute bytes are equal.
pub proof fn lemma_attr_bytes_determine_value(x: u64, y: u64)
    requires
        forall|b: u64| b < 8 ==> #[trigger] attr_byte(x, b) == attr_byte(y, b),
    ensures
        x == y,
{
    assert(attr_byte(x, 0) == attr_byte(y, 0));
    assert(attr_byte(x, 1) == attr_byte(y, 1));
    assert(attr_byte(x, 2) == attr_byte(y, 2));
    assert(attr_byte(x, 3) == attr_byte(y, 3));
    assert(attr_byte(x, 4) == attr_byte(y, 4));
    assert(attr_byte(x, 5) == attr_byte(y, 5));
    assert(attr_byte(x, 6) == attr_byte(y, 6));
    assert(attr_byte(x, 7) == attr_byte(y, 7));
    assert(x == y) by (bit_vector)
        requires
            (x >> 0) & 0xff == (y >> 0) & 0xff,
            (x >> 8) & 0xff == (y >> 8) & 0xff,
            (x >> 16) & 0xff == (y >> 16) & 0xff,
            (x >> 24) & 0xff == (y >> 24) & 0xff,
            (x >> 32) & 0xff == (y >> 32) & 0xff,
            (x >> 40) & 0xff == (y >> 40) & 0xff,
            (x >> 48) & 0xff == (y >> 48) & 0xff,
            (x >> 56) & 0xff == (y >> 56) & 0xff,
    ;
}

/// Marking an entry as IO is idempotent: updating an already updated value
/// gives that value back.
pub proof fn law_io_update_idempotent(old: u64, index: usize, value: u64, again: u64)
    requires
        is_io_update(old, index, value),
        is_io_update(value, index, again),
    ensures
        again == value,
{
    assert forall|b: u64| b < 8 implies #[trigger] attr_byte(again, b) == attr_byte(value, b) by {
        assert(attr_byte(again, b) == attr_byte(value, b));
    }
    lemma_attr_bytes_determine_value(again, value);
}

/// An entry that is already IO needs no write: the update leaves the
/// configuration value unchanged exactly when the entry's byte is already IO.
pub proof fn law_io_update_unchanged_iff_already_io(old: u64, index: usize, value: u64)
    requires
        is_io_update(old, index, value),
    ensures
        (value == old) <==> attr_byte(old, (index % 8) as u64) == PMA_ATTR_IO,
{
    let slot = (index % 8) as u64;
    assert(attr_byte(value, slot) == PMA_ATTR_IO);
    if attr_byte(old, slot) == PMA_ATTR_IO {
        assert forall|b: u64| b < 8 implies #[trigger] attr_byte(value, b) == attr_byte(old, b) by {
        }
        lemma_attr_bytes_determine_value(value, old);
    }
}

} // verus!
