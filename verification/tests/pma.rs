use prototyper::pma::{
    csr_access, locate_sram_entry_in_reads, plan_pma_cfg_write, CsrFault,
    locate_sram_entry, pma_cfg_csr, updated_pma_cfg, Error, PMACFG0_CSR, PMACFG2_CSR,
    PMA_ATTR_IO, SRAM_BASE, SRAM_SIZE,
};

/// Word-encoded PMA address register value for byte address `addr`.
fn enc(addr: u64) -> u64 {
    addr / 4
}

const SRAM_END: u64 = SRAM_BASE + SRAM_SIZE;

#[test]
fn locates_covering_entry() {
    let regs = [enc(0x8000_0000), enc(0xc000_0000), enc(0xc100_0000), 0];
    assert_eq!(locate_sram_entry(&regs), Ok(2));
    let regs = [enc(SRAM_END)];
    assert_eq!(locate_sram_entry(&regs), Ok(0));
}

#[test]
fn window_must_be_completely_covered() {
    // Entry 1 ends one byte short of the window's end, entry 2 starts inside it.
    let regs = [enc(0xc000_0000), enc(SRAM_END - 4), enc(0xd000_0000)];
    assert_eq!(locate_sram_entry(&regs), Err(Error::NotEnoughResources));
    // Starting exactly at the base is enough.
    let regs = [enc(SRAM_BASE), enc(SRAM_END)];
    assert_eq!(locate_sram_entry(&regs), Ok(1));
}

#[test]
fn unused_entries_reset_the_bottom() {
    // A zero entry is skipped, and the next entry starts at zero.
    let regs = [enc(0xd000_0000 + 0x1000), 0, enc(0xd000_0000)];
    assert_eq!(locate_sram_entry(&regs), Ok(0));
    let regs = [enc(0xd000_0000), 0, enc(0xd000_0000)];
    assert_eq!(locate_sram_entry(&regs), Ok(0));
    let regs = [enc(0x1000), 0, enc(0xd000_0000)];
    assert_eq!(locate_sram_entry(&regs), Ok(2));
}

#[test]
fn reports_overflow_and_misordering() {
    let regs = [enc(0x1000), u64::MAX / 4 + 1, enc(0xd000_0000)];
    assert_eq!(locate_sram_entry(&regs), Err(Error::Overflow));
    let regs = [enc(0x2000), enc(0x1000), enc(0xd000_0000)];
    assert_eq!(locate_sram_entry(&regs), Err(Error::InvalidArgs));
    // The scan stops at the covering entry before it looks at later ones.
    let regs = [enc(0xd000_0000), enc(0x1000)];
    assert_eq!(locate_sram_entry(&regs), Ok(0));
    let regs: [u64; 16] = [0; 16];
    assert_eq!(locate_sram_entry(&regs), Err(Error::NotEnoughResources));
    assert_eq!(locate_sram_entry(&[]), Err(Error::NotEnoughResources));
}

#[test]
fn cfg_csr_selection() {
    assert_eq!(pma_cfg_csr(0), PMACFG0_CSR);
    assert_eq!(pma_cfg_csr(7), 0x7de);
    assert_eq!(pma_cfg_csr(8), 0x7df);
    assert_eq!(pma_cfg_csr(15), PMACFG2_CSR);
}

#[test]
fn cfg_update_sets_only_the_entry_byte() {
    let old = 0x1111_2222_3333_4444u64;
    assert_eq!(updated_pma_cfg(old, 0), 0x1111_2222_3333_4422);
    assert_eq!(updated_pma_cfg(old, 3), 0x1111_2222_2233_4444);
    assert_eq!(updated_pma_cfg(old, 15), 0x2211_2222_3333_4444);
    assert_eq!(updated_pma_cfg(old, 9), 0x1111_2222_3333_2244);
    assert_eq!(updated_pma_cfg(u64::MAX, 6), 0xff22_ffff_ffff_ffff);
    let once = updated_pma_cfg(old, 5);
    assert_eq!(updated_pma_cfg(once, 5), once);
    assert_eq!(PMA_ATTR_IO, 0x22);
}

#[test]
fn cfg_update_is_a_no_op_when_already_io() {
    let old = 0x0000_0022_0000_0000u64;
    assert_eq!(updated_pma_cfg(old, 4), old);
    assert_eq!(updated_pma_cfg(old, 12), old);
    assert_ne!(updated_pma_cfg(old, 3), old);
}

#[test]
fn faulted_reads_give_access_denied() {
    let good = [Ok(enc(0x8000_0000)), Ok(enc(0xc100_0000)), Ok(0)];
    assert_eq!(locate_sram_entry_in_reads(&good), Ok(1));
    let faulted = [Ok(enc(0x8000_0000)), Ok(enc(0xc100_0000)), Err(CsrFault)];
    assert_eq!(locate_sram_entry_in_reads(&faulted), Err(Error::AccessDenied));
    let bad_bounds = [Ok(enc(0x2000)), Ok(enc(0x1000))];
    assert_eq!(locate_sram_entry_in_reads(&bad_bounds), Err(Error::InvalidArgs));
    assert_eq!(locate_sram_entry_in_reads(&[]), Err(Error::NotEnoughResources));
    assert_eq!(plan_pma_cfg_write(Err(CsrFault), 3), Err(Error::AccessDenied));
    assert_eq!(csr_access::<()>(Err(CsrFault)), Err(Error::AccessDenied));
    assert_eq!(csr_access(Ok(7u64)), Ok(7));
}

#[test]
fn cfg_write_only_when_changed() {
    assert_eq!(plan_pma_cfg_write(Ok(0x1111_2222_3333_4444), 1), Ok(Some(0x1111_2222_3333_2244)));
    assert_eq!(plan_pma_cfg_write(Ok(0x0000_0022_0000_0000), 12), Ok(None));
}
