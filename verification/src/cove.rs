//! RISC-V CoVE host extension identifiers (EID `0x434F5648`, "COVH").
use vstd::prelude::*;
use vstd::string::StringSliceAdditionalSpecFns;

verus! {

/// Big-endian value of a byte sequence.
pub open spec fn be_value(bytes: Seq<u8>) -> nat
    decreases bytes.len(),
{
    if bytes.len() == 0 {
        0
    } else {
        be_value(bytes.drop_last()) * 256 + bytes.last() as nat
    }
}

/// SBI extension ID that a name of one to four ASCII characters denotes: the
/// name's bytes read as a big-endian 32-bit integer.
pub open spec fn spec_eid(bytes: Seq<u8>) -> i32 {
    (be_value(bytes) as u32) as i32
}

/// An extension name's value is its raw bytes read big-endian: the first
/// byte is the most significant one, and no byte is changed.
pub proof fn law_eid_reads_raw_bytes_big_endian(bytes: Seq<u8>)
    requires
        1 <= bytes.len() <= 4,
    ensures
        bytes.len() == 1 ==> be_value(bytes) == bytes[0] as int,
        bytes.len() == 2 ==> be_value(bytes) == bytes[0] * 0x100 + bytes[1],
        bytes.len() == 3 ==> be_value(bytes) == bytes[0] * 0x1_0000 + bytes[1] * 0x100
            + bytes[2],
        bytes.len() == 4 ==> be_value(bytes) == bytes[0] * 0x100_0000 + bytes[1] * 0x1_0000
            + bytes[2] * 0x100 + bytes[3],
        bytes.len() <= 3 ==> spec_eid(bytes) as int == be_value(bytes),
{
    let b1 = bytes.drop_last();
    let b2 = b1.drop_last();
    let b3 = b2.drop_last();
    let b4 = b3.drop_last();
    reveal_with_fuel(be_value, 5);
    if bytes.len() >= 2 {
        assert(b1[0] == bytes[0]);
    }
    if bytes.len() >= 3 {
        assert(b2[0] == bytes[0]);
        assert(b1[1] == bytes[1]);
    }
    if bytes.len() == 4 {
        assert(b3[0] == bytes[0]);
        assert(b2[1] == bytes[1]);
        assert(b1[2] == bytes[2]);
    }
    if bytes.len() == 1 {
        assert(b1.len() == 0);
    } else if bytes.len() == 2 {
        assert(b2.len() == 0);
    } else if bytes.len() == 3 {
        assert(b3.len() == 0);
    } else {
        assert(b4.len() == 0);
    }
    lemma_be_value_bound(bytes);
}

/// The big-endian value of `n` bytes is below `256^n`.
proof fn lemma_be_value_bound(bytes: Seq<u8>)
    requires
        bytes.len() <= 4,
    ensures
        be_value(bytes) < (if bytes.len() == 0 {
            1int
        } else if bytes.len() == 1 {
            0x100int
        } else if bytes.len() == 2 {
            0x1_0000int
        } else if bytes.len() == 3 {
            0x100_0000int
        } else {
            0x1_0000_0000int
        }),
    decreases bytes.len(),
{
    if bytes.len() > 0 {
        lemma_be_value_bound(bytes.drop_last());
    }
}

/// Converts an SBI extension name of one to four bytes into its EID.
pub fn eid_from_str(name: &str) -> (eid: i32)
    requires
        1 <= name.spec_bytes().len() <= 4,
    ensures
        eid == spec_eid(name.spec_bytes()),
{
    let bytes = name.as_bytes();
    let len = bytes.len();
    let mut acc: u32 = 0;
    let mut i: usize = 0;
    while i < len
        invariant
            len == bytes@.len(),
            bytes@ == name.spec_bytes(),
            len <= 4,
            i <= len,
            acc == be_value(bytes@.take(i as int)),
        decreases len - i,
    {
        proof {
            lemma_be_value_bound(bytes@.take(i as int));
            assert(bytes@.take(i + 1).drop_last() =~= bytes@.take(i as int));
        }
        acc = acc * 256 + bytes[i] as u32;
        i = i + 1;
    }
    proof {
        assert(bytes@.take(len as int) =~= bytes@);
    }
    acc as i32
}

/// Extension ID for the CoVE host extension: "COVH" read big-endian.
pub const EID_COVH: usize = 0x434F_5648;

/// Function ID to get TEE Security Monitor (TSM) information.
pub const GET_TSM_INFO: usize = 0;

/// Function ID to convert pages.
pub const CONVERT_PAGES: usize = 1;

/// Function ID to reclaim pages.
pub const RECLAIM_PAGES: usize = 2;

/// Function ID to initiate global fence.
pub const GLOBAL_FENCE: usize = 3;

/// Function ID to local fence.
pub const LOCAL_FENCE: usize = 4;

/// Function ID to create TVM.
pub const CREATE_TVM: usize = 5;

/// Function ID to finalize TVM.
pub const FINALIZE_TVM: usize = 6;

/// Function ID to destroy TVM.
pub const DESTROY_TVM: usize = 7;

/// Function ID to add TVM memory region.
pub const ADD_TVM_MEMORY_REGION: usize = 8;

/// Function ID to add TVM page table pages.
pub const ADD_TVM_PAGE_TABLE_PAGES: usize = 9;

/// Function ID to add TVM measured pages.
pub const ADD_TVM_MEASURED_PAGES: usize = 10;

/// Function ID to add TVM zero pages.
pub const ADD_TVM_ZERO_PAGES: usize = 11;

/// Function ID to add TVM shared pages.
pub const ADD_TVM_SHARED_PAGES: usize = 12;

/// Function ID to create TVM vCPU.
pub const CREATE_TVM_VCPU: usize = 13;

/// Function ID to run TVM vCPU.
pub const RUN_TVM_VCPU: usize = 14;

/// Function ID to initiate TVM fence.
pub const TVM_FENCE: usize = 15;

/// Function ID to invalidate TVM pages.
pub const TVM_INVALIDATE_PAGES: usize = 16;

/// Function ID to validate TVM pages.
pub const TVM_VALIDATE_PAGES: usize = 17;

/// Function ID to remove TVM pages.
pub const TVM_REMOVE_PAGES: usize = 18;

/// [`EID_COVH`] is the extension ID that the name "COVH" denotes.
pub proof fn lemma_eid_covh()
    ensures
        spec_eid("COVH".spec_bytes()) == EID_COVH as i32,
{
    reveal_strlit("COVH");
    broadcast use vstd::string::is_ascii_spec_bytes;
    assert(vstd::string::is_ascii("COVH"));
    assert("COVH".spec_bytes() =~= seq![0x43u8, 0x4fu8, 0x56u8, 0x48u8]);
    reveal_with_fuel(be_value, 5);
    assert(be_value("COVH".spec_bytes()) == 0x434F_5648);
}

} // verus!
