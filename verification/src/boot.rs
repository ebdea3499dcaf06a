//! Boot-time parameters and the layout of the early per-hart stacks.
use vstd::prelude::*;

verus! {

/// Maximum number of harts admitted by the early runtime.
pub const MAX_HARTS: usize = 8;

/// Bytes reserved for each hart's early boot stack.
pub const STACK_SIZE: usize = 16384;

/// Arguments established by the machine runtime for one hart.
#[derive(Debug, Clone, Copy, PartialEq, Eq, Hash)]
pub struct BootParams {
    hart_id: usize,
    opaque: usize,
}

impl BootParams {
    /// Architectural hart ID carried by these parameters.
    pub closed spec fn spec_hart_id(&self) -> usize {
        self.hart_id
    }

    /// Opaque boot argument carried by these parameters.
    pub closed spec fn spec_opaque(&self) -> usize {
        self.opaque
    }

    /// Create a `BootParams` from hart id and opaque register value.
    pub fn new(hart_id: usize, opaque: usize) -> (params: Self)
        ensures
            params.spec_hart_id() == hart_id,
            params.spec_opaque() == opaque,
    {
        Self { hart_id, opaque }
    }

    /// Architectural hart ID read from `mhartid`.
    #[verifier::when_used_as_spec(spec_hart_id)]
    pub fn hart_id(&self) -> (id: usize)
        ensures
            id == self.spec_hart_id(),
    {
        self.hart_id
    }

    /// Opaque value passed in `a1` by the previous boot stage.
    #[verifier::when_used_as_spec(spec_opaque)]
    pub fn opaque(&self) -> (value: usize)
        ensures
            value == self.spec_opaque(),
    {
        self.opaque
    }
}

/// Boot parameters are plain values: two of them are equal exactly when
/// their hart IDs and their opaque values are equal. With the contract of
/// [`BootParams::new`], `new(h1, o1) == new(h2, o2)` exactly when `h1 == h2`
/// and `o1 == o2`.
pub proof fn law_boot_params_equal_iff_fields_equal(a: BootParams, b: BootParams)
    ensures
        (a == b) <==> (a.hart_id() == b.hart_id() && a.opaque() == b.opaque()),
{
}

/// Number of 16-byte words in the early boot stack storage.
pub const BOOT_STACK_WORDS: usize = 8192;

/// Storage backing the early per-hart boot stacks.
///
/// The storage contains [`MAX_HARTS`] adjacent slots of [`STACK_SIZE`] bytes
/// and is aligned to the 16-byte RISC-V stack ABI, which its 16-byte words
/// give it. Slot `i` occupies `i * STACK_SIZE..(i + 1) * STACK_SIZE`; startup
/// initializes `sp` to the exclusive upper bound because stacks grow toward
/// lower addresses.
///
/// This type only defines the memory layout. It neither assigns slots nor
/// tracks hart ownership. Its field remains private so safe code cannot
/// create overlapping mutable access to stack storage.
pub struct BootStacks([u128; BOOT_STACK_WORDS]);

/// Byte range `(start, end)` of stack slot `slot` within [`BootStacks`].
pub open spec fn stack_slot(slot: int) -> (int, int) {
    (slot * STACK_SIZE, (slot + 1) * STACK_SIZE)
}

/// The stack constants fit the startup contract: the stack size is a power of
/// two of at least 16 bytes, and the storage holds exactly one slot per hart.
pub proof fn lemma_stack_constants()
    ensures
        STACK_SIZE >= 16,
        STACK_SIZE == 1usize << 14usize,
        BOOT_STACK_WORDS * 16 == MAX_HARTS * STACK_SIZE,
{
    assert(1usize << 14usize == 16384) by (bit_vector);
}

/// The slots of distinct harts are disjoint, every slot lies inside the
/// storage, and every initial stack pointer (a slot's upper bound) keeps the
/// 16-byte stack alignment.
pub proof fn lemma_stack_slots_layout(i: int, j: int)
    requires
        0 <= i < MAX_HARTS,
        0 <= j < MAX_HARTS,
    ensures
        0 <= stack_slot(i).0 < stack_slot(i).1 <= MAX_HARTS * STACK_SIZE,
        stack_slot(i).1 - stack_slot(i).0 == STACK_SIZE,
        stack_slot(i).1 % 16 == 0,
        i != j ==> (stack_slot(i).1 <= stack_slot(j).0 || stack_slot(j).1 <= stack_slot(i).0),
{
    assert(0 <= i * STACK_SIZE) by (nonlinear_arith)
        requires
            0 <= i,
    ;
    assert((i + 1) * STACK_SIZE <= MAX_HARTS * STACK_SIZE) by (nonlinear_arith)
        requires
            i + 1 <= MAX_HARTS,
    ;
    assert((i + 1) * STACK_SIZE == 16 * ((i + 1) * 1024)) by (nonlinear_arith);
    if i < j {
        assert((i + 1) * STACK_SIZE <= j * STACK_SIZE) by (nonlinear_arith)
            requires
                i + 1 <= j,
        ;
    } else if j < i {
        assert((j + 1) * STACK_SIZE <= i * STACK_SIZE) by (nonlinear_arith)
            requires
                j + 1 <= i,
        ;
    }
}

} // verus!
