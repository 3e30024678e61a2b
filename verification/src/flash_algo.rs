//! The decisions of the CMSIS flash algorithms for LPC chips.
//!
//! An algorithm erases and programs flash through a short series of IAP ROM
//! calls, each of which may fail.  The procedures here decide which call comes
//! next from the outcome of the previous one and what the algorithm finally
//! reports; the code running on the chip makes the calls and feeds the
//! outcomes back.
use vstd::prelude::*;

use crate::iap::{decoded_retcode, err_decode, iap_retcode_raw, Iap, IapRetcode, Status};

verus! {

/// Error code of a failed chip erase (LPC13xx).
pub const ERASE_ALL_FAILED: u32 = 1;
/// Error code of a failed sector erase (LPC13xx, LPC17xx).
pub const ERASE_SECTOR_FAILED: u32 = 2;
/// Error code of a failed sector unlock before programming (LPC13xx, LPC17xx).
pub const PREPARE_FAILED: u32 = 3;
/// Error code of a failed write, or of flash that differs from the page
/// written (LPC13xx, LPC17xx).
pub const WRITE_FAILED: u32 = 4;
/// Error code of a failed comparison (LPC13xx, LPC17xx).
pub const VERIFY_FAILED: u32 = 5;

/// Error codes of the LPC15xx algorithm.
pub const LPC15XX_ERASE_ALL_FAILED: u32 = 0x70d1;
pub const LPC15XX_ERASE_SECTOR_FAILED: u32 = 0x70d3;
pub const LPC15XX_PREPARE_FAILED: u32 = 0x70d4;
pub const LPC15XX_WRITE_FAILED: u32 = 0x70d5;
pub const LPC15XX_COMPARE_MISMATCH: u32 = 0x70d6;
pub const LPC15XX_VERIFY_FAILED: u32 = 0x70d7;

/// The clock, in kilohertz, that the LPC15xx algorithm hands to the ROM: the
/// default 12 MHz system clock, which the algorithm leaves unchanged.
pub const LPC15XX_DEFAULT_SYSTEM_CLK_KHZ: u32 = 12_000;

/// The last sector that a chip erase of an LPC13xx clears.
pub const LPC13XX_LAST_SECTOR: u32 = 7;
/// The last sector that a chip erase of an LPC15xx clears.
pub const LPC15XX_LAST_SECTOR: u32 = 63;

/// A flash controller operation, run through the IAP ROM.
#[derive(Clone, Copy, Debug, PartialEq, Eq, Structural)]
pub enum FlashOp {
    /// Blank check of a sector range.
    BlankCheck { start_sector: u32, end_sector: u32 },
    /// Prepare (unlock) a sector range for writing or erasing.
    Prepare { start_sector: u32, end_sector: u32 },
    /// Erase a sector range.
    Erase { start_sector: u32, end_sector: u32, clock_khz: u32 },
    /// Copy the page being programmed from RAM to flash at `dst_addr`.
    CopyRamToFlash { dst_addr: u32, clock_khz: u32 },
    /// Compare the flash at `dst_addr` with the page being programmed.
    Compare { dst_addr: u32, clock_khz: u32 },
}

/// What a procedure asks for after an outcome: another ROM call, or the end
/// with the result that the algorithm reports (an error code on failure).
#[derive(Clone, Copy, Debug, PartialEq, Eq)]
pub enum Next {
    Run(FlashOp),
    Finish(Result<(), u32>),
}

/// The call that an erase procedure waits for.
#[derive(Clone, Copy, Debug, PartialEq, Eq, Structural)]
pub enum EraseStage {
    CheckBlank,
    Unlock,
    Erase,
    Verify,
    Finished,
}

/// Erase a sector range unless it is already blank: blank check; if the ROM
/// reports `SectorNotBlank`, unlock, erase and, where asked, blank check
/// again.  Any other blank-check failure leaves the sectors alone and counts
/// as success.
#[derive(Clone, Copy, Debug)]
pub struct EraseSectors {
    pub start_sector: u32,
    pub end_sector: u32,
    pub clock_khz: u32,
    pub verify_after_erase: bool,
    /// The error code reported when a step fails.
    pub failure_code: u32,
    pub stage: EraseStage,
}

/// One step of an erase procedure: the stage it moves to and what it asks for.
pub open spec fn erase_step(m: EraseSectors, outcome: Result<(), Status>) -> (EraseStage, Next) {
    let fail = (EraseStage::Finished, Next::Finish(Err(m.failure_code)));
    let done = (EraseStage::Finished, Next::Finish(Ok(())));
    match m.stage {
        EraseStage::CheckBlank => match outcome {
            Ok(()) => done,
            Err(e) => if decoded_retcode(e) == IapRetcode::SectorNotBlank {
                (
                    EraseStage::Unlock,
                    Next::Run(
                        FlashOp::Prepare { start_sector: m.start_sector, end_sector: m.end_sector },
                    ),
                )
            } else {
                done
            },
        },
        EraseStage::Unlock => match outcome {
            Ok(()) => (
                EraseStage::Erase,
                Next::Run(
                    FlashOp::Erase {
                        start_sector: m.start_sector,
                        end_sector: m.end_sector,
                        clock_khz: m.clock_khz,
                    },
                ),
            ),
            Err(_) => fail,
        },
        EraseStage::Erase => match outcome {
            Ok(()) => if m.verify_after_erase {
                (
                    EraseStage::Verify,
                    Next::Run(
                        FlashOp::BlankCheck {
                            start_sector: m.start_sector,
                            end_sector: m.end_sector,
                        },
                    ),
                )
            } else {
                done
            },
            Err(_) => fail,
        },
        EraseStage::Verify => match outcome {
            Ok(()) => done,
            Err(_) => fail,
        },
        EraseStage::Finished => done,
    }
}

impl EraseSectors {
    /// A procedure that erases sectors `start_sector` to `end_sector`.
    pub fn new(
        start_sector: u32,
        end_sector: u32,
        clock_khz: u32,
        verify_after_erase: bool,
        failure_code: u32,
    ) -> (r: Self)
        ensures
            r.start_sector == start_sector,
            r.end_sector == end_sector,
            r.clock_khz == clock_khz,
            r.verify_after_erase == verify_after_erase,
            r.failure_code == failure_code,
            r.stage == EraseStage::CheckBlank,
    {
        EraseSectors {
            start_sector,
            end_sector,
            clock_khz,
            verify_after_erase,
            failure_code,
            stage: EraseStage::CheckBlank,
        }
    }

    /// A procedure that erases the sector of `chip` that holds `addr`.
    pub fn for_address<C: Iap>(
        chip: &C,
        addr: u32,
        clock_khz: u32,
        verify_after_erase: bool,
        failure_code: u32,
    ) -> (r: Self)
        ensures
            r.start_sector == chip.spec_addr_to_sector(addr),
            r.end_sector == chip.spec_addr_to_sector(addr),
            r.clock_khz == clock_khz,
            r.verify_after_erase == verify_after_erase,
            r.failure_code == failure_code,
            r.stage == EraseStage::CheckBlank,
    {
        let sector = chip.addr_to_sector(addr);
        Self::new(sector, sector, clock_khz, verify_after_erase, failure_code)
    }

    /// The first call: a blank check of the range.
    pub fn first_op(&self) -> (op: FlashOp)
        ensures
            op == (FlashOp::BlankCheck { start_sector: self.start_sector, end_sector: self.end_sector }),
    {
        FlashOp::BlankCheck { start_sector: self.start_sector, end_sector: self.end_sector }
    }

    /// Take the outcome of the call the procedure waits for and say what comes next.
    pub fn advance(&mut self, outcome: Result<(), Status>) -> (next: Next)
        requires
            old(self).stage != EraseStage::Finished,
        ensures
            next == erase_step(*old(self), outcome).1,
            *final(self) == (EraseSectors { stage: erase_step(*old(self), outcome).0, ..*old(self) }),
    {
        let fail = Next::Finish(Err(self.failure_code));
        let done = Next::Finish(Ok(()));
        match self.stage {
            EraseStage::CheckBlank => match outcome {
                Ok(()) => {
                    self.stage = EraseStage::Finished;
                    done
                },
                Err(e) => {
                    if err_decode(e) == IapRetcode::SectorNotBlank {
                        self.stage = EraseStage::Unlock;
                        Next::Run(
                            FlashOp::Prepare {
                                start_sector: self.start_sector,
                                end_sector: self.end_sector,
                            },
                        )
                    } else {
                        self.stage = EraseStage::Finished;
                        done
                    }
                },
            },
            EraseStage::Unlock => match outcome {
                Ok(()) => {
                    self.stage = EraseStage::Erase;
                    Next::Run(
                        FlashOp::Erase {
                            start_sector: self.start_sector,
                            end_sector: self.end_sector,
                            clock_khz: self.clock_khz,
                        },
                    )
                },
                Err(_) => {
                    self.stage = EraseStage::Finished;
                    fail
                },
            },
            EraseStage::Erase => match outcome {
                Ok(()) => {
                    if self.verify_after_erase {
                        self.stage = EraseStage::Verify;
                        Next::Run(
                            FlashOp::BlankCheck {
                                start_sector: self.start_sector,
                                end_sector: self.end_sector,
                            },
                        )
                    } else {
                        self.stage = EraseStage::Finished;
                        done
                    }
                },
                Err(_) => {
                    self.stage = EraseStage::Finished;
                    fail
                },
            },
            EraseStage::Verify => {
                self.stage = EraseStage::Finished;
                match outcome {
                    Ok(()) => done,
                    Err(_) => fail,
                }
            },
            EraseStage::Finished => done,
        }
    }
}

/// The result an erase procedure reports after the calls with `outcomes`,
/// or `None` if it still waits for a call.
pub open spec fn erase_run(m: EraseSectors, outcomes: Seq<Result<(), Status>>) -> Option<Result<(), u32>>
    decreases outcomes.len(),
{
    if outcomes.len() == 0 || m.stage == EraseStage::Finished {
        None
    } else {
        let (stage, next) = erase_step(m, outcomes[0]);
        match next {
            Next::Finish(r) => Some(r),
            Next::Run(_) => erase_run(EraseSectors { stage, ..m }, outcomes.drop_first()),
        }
    }
}

/// An erase procedure ends after at most four ROM calls.  It reports success
/// exactly when the first blank check passes, or fails with a status other
/// than `SectorNotBlank`, or the unlock, the erase and (where asked) the second
/// blank check all succeed; otherwise it reports its failure code.
pub proof fn lemma_erase_outcome(m: EraseSectors, outcomes: Seq<Result<(), Status>>)
    requires
        m.stage == EraseStage::CheckBlank,
        outcomes.len() >= 4,
    ensures
        erase_run(m, outcomes) is Some,
        erase_run(m, outcomes) == Some(Ok::<(), u32>(())) <==> (outcomes[0] is Ok || decoded_retcode(
            outcomes[0]->Err_0,
        ) != IapRetcode::SectorNotBlank || (outcomes[1] is Ok && outcomes[2] is Ok && (
        m.verify_after_erase ==> outcomes[3] is Ok))),
        erase_run(m, outcomes) != Some(Ok::<(), u32>(())) ==> erase_run(m, outcomes) == Some(
            Err::<(), u32>(m.failure_code),
        ),
{
    let o1 = outcomes.drop_first();
    let o2 = o1.drop_first();
    let o3 = o2.drop_first();
    assert(o1[0] == outcomes[1] && o2[0] == outcomes[2] && o3[0] == outcomes[3]);
    reveal_with_fuel(erase_run, 5);
}

/// An erase procedure only erases right after a successful unlock of the
/// same sectors, and only unlocks after a blank check reported
/// `SectorNotBlank`.
pub proof fn lemma_erase_only_after_unlock(m: EraseSectors, outcome: Result<(), Status>)
    ensures
        erase_step(m, outcome).1 is Run && erase_step(m, outcome).1->Run_0 is Erase ==> m.stage
            == EraseStage::Unlock && outcome is Ok,
        erase_step(m, outcome).1 is Run && erase_step(m, outcome).1->Run_0 is Prepare ==> m.stage
            == EraseStage::CheckBlank && outcome is Err && decoded_retcode(outcome->Err_0)
            == IapRetcode::SectorNotBlank,
{
}

/// Error codes that a page-programming procedure reports.
#[derive(Clone, Copy, Debug)]
pub struct ProgramErrorCodes {
    /// The sectors could not be prepared for writing.
    pub prepare_failed: u32,
    /// Copying RAM to flash failed.
    pub write_failed: u32,
    /// The flash differs from the page written (`COMPARE_ERROR`).
    pub compare_mismatch: u32,
    /// The comparison failed otherwise.
    pub verify_failed: u32,
}

impl ProgramErrorCodes {
    /// The codes of the LPC13xx and LPC17xx algorithms.
    pub fn standard() -> (c: Self)
        ensures
            c.prepare_failed == PREPARE_FAILED,
            c.write_failed == WRITE_FAILED,
            c.compare_mismatch == WRITE_FAILED,
            c.verify_failed == VERIFY_FAILED,
    {
        ProgramErrorCodes {
            prepare_failed: PREPARE_FAILED,
            write_failed: WRITE_FAILED,
            compare_mismatch: WRITE_FAILED,
            verify_failed: VERIFY_FAILED,
        }
    }

    /// The codes of the LPC15xx algorithm.
    pub fn lpc15xx() -> (c: Self)
        ensures
            c.prepare_failed == LPC15XX_PREPARE_FAILED,
            c.write_failed == LPC15XX_WRITE_FAILED,
            c.compare_mismatch == LPC15XX_COMPARE_MISMATCH,
            c.verify_failed == LPC15XX_VERIFY_FAILED,
    {
        ProgramErrorCodes {
            prepare_failed: LPC15XX_PREPARE_FAILED,
            write_failed: LPC15XX_WRITE_FAILED,
            compare_mismatch: LPC15XX_COMPARE_MISMATCH,
            verify_failed: LPC15XX_VERIFY_FAILED,
        }
    }
}

/// The call that a programming procedure waits for.
#[derive(Clone, Copy, Debug, PartialEq, Eq, Structural)]
pub enum ProgramStage {
    Unlock,
    Write,
    Verify,
    Finished,
}

/// Program one page: unlock the sectors it covers, copy it from RAM to flash,
/// and compare the flash with it; the first failure ends the procedure.
#[derive(Clone, Copy, Debug)]
pub struct ProgramPage {
    pub dst_addr: u32,
    pub start_sector: u32,
    pub end_sector: u32,
    pub clock_khz: u32,
    pub codes: ProgramErrorCodes,
    pub stage: ProgramStage,
}

/// One step of a programming procedure: the stage it moves to and what it asks for.
pub open spec fn program_step(m: ProgramPage, outcome: Result<(), Status>) -> (ProgramStage, Next) {
    match m.stage {
        ProgramStage::Unlock => match outcome {
            Ok(()) => (
                ProgramStage::Write,
                Next::Run(FlashOp::CopyRamToFlash { dst_addr: m.dst_addr, clock_khz: m.clock_khz }),
            ),
            Err(_) => (ProgramStage::Finished, Next::Finish(Err(m.codes.prepare_failed))),
        },
        ProgramStage::Write => match outcome {
            Ok(()) => (
                ProgramStage::Verify,
                Next::Run(FlashOp::Compare { dst_addr: m.dst_addr, clock_khz: m.clock_khz }),
            ),
            Err(_) => (ProgramStage::Finished, Next::Finish(Err(m.codes.write_failed))),
        },
        ProgramStage::Verify => match outcome {
            Ok(()) => (ProgramStage::Finished, Next::Finish(Ok(()))),
            Err(e) => if e == iap_retcode_raw::COMPARE_ERROR {
                (ProgramStage::Finished, Next::Finish(Err(m.codes.compare_mismatch)))
            } else {
                (ProgramStage::Finished, Next::Finish(Err(m.codes.verify_failed)))
            },
        },
        ProgramStage::Finished => (ProgramStage::Finished, Next::Finish(Ok(()))),
    }
}

impl ProgramPage {
    /// A procedure that programs `len` bytes at `addr` of `chip`: it unlocks the
    /// sectors from the one holding `addr` to the one holding `addr + len`.
    pub fn new<C: Iap>(
        chip: &C,
        addr: u32,
        len: usize,
        clock_khz: u32,
        codes: ProgramErrorCodes,
    ) -> (r: Self)
        requires
            addr + len <= u32::MAX,
        ensures
            r.dst_addr == addr,
            r.start_sector == chip.spec_addr_to_sector(addr),
            r.end_sector == chip.spec_addr_to_sector((addr + len) as u32),
            r.clock_khz == clock_khz,
            r.codes == codes,
            r.stage == ProgramStage::Unlock,
    {
        let datalen = len as u32;
        let sector_start = chip.addr_to_sector(addr);
        let sector_end = chip.addr_to_sector(addr + datalen);
        ProgramPage {
            dst_addr: addr,
            start_sector: sector_start,
            end_sector: sector_end,
            clock_khz,
            codes,
            stage: ProgramStage::Unlock,
        }
    }

    /// The first call: unlock the sectors of the page.
    pub fn first_op(&self) -> (op: FlashOp)
        ensures
            op == (FlashOp::Prepare { start_sector: self.start_sector, end_sector: self.end_sector }),
    {
        FlashOp::Prepare { start_sector: self.start_sector, end_sector: self.end_sector }
    }

    /// Take the outcome of the call the procedure waits for and say what comes next.
    pub fn advance(&mut self, outcome: Result<(), Status>) -> (next: Next)
        requires
            old(self).stage != ProgramStage::Finished,
        ensures
            next == program_step(*old(self), outcome).1,
            *final(self) == (ProgramPage { stage: program_step(*old(self), outcome).0, ..*old(self) }),
    {
        match self.stage {
            ProgramStage::Unlock => match outcome {
                Ok(()) => {
                    self.stage = ProgramStage::Write;
                    Next::Run(
                        FlashOp::CopyRamToFlash { dst_addr: self.dst_addr, clock_khz: self.clock_khz },
                    )
                },
                Err(_) => {
                    self.stage = ProgramStage::Finished;
                    Next::Finish(Err(self.codes.prepare_failed))
                },
            },
            ProgramStage::Write => match outcome {
                Ok(()) => {
                    self.stage = ProgramStage::Verify;
                    Next::Run(FlashOp::Compare { dst_addr: self.dst_addr, clock_khz: self.clock_khz })
                },
                Err(_) => {
                    self.stage = ProgramStage::Finished;
                    Next::Finish(Err(self.codes.write_failed))
                },
            },
            ProgramStage::Verify => {
                self.stage = ProgramStage::Finished;
                match outcome {
                    Ok(()) => Next::Finish(Ok(())),
                    Err(e) => {
                        if e == iap_retcode_raw::COMPARE_ERROR {
                            Next::Finish(Err(self.codes.compare_mismatch))
                        } else {
                            Next::Finish(Err(self.codes.verify_failed))
                        }
                    },
                }
            },
            ProgramStage::Finished => Next::Finish(Ok(())),
        }
    }
}

/// The result a programming procedure reports after the calls with
/// `outcomes`, or `None` if it still waits for a call.
pub open spec fn program_run(m: ProgramPage, outcomes: Seq<Result<(), Status>>) -> Option<Result<(), u32>>
    decreases outcomes.len(),
{
    if outcomes.len() == 0 || m.stage == ProgramStage::Finished {
        None
    } else {
        let (stage, next) = program_step(m, outcomes[0]);
        match next {
            Next::Finish(r) => Some(r),
            Next::Run(_) => program_run(ProgramPage { stage, ..m }, outcomes.drop_first()),
        }
    }
}

/// A programming procedure ends after at most three ROM calls.  It reports
/// success exactly when the unlock, the write and the comparison all
/// succeed; otherwise it reports the code of the first step that failed.
pub proof fn lemma_program_outcome(m: ProgramPage, outcomes: Seq<Result<(), Status>>)
    requires
        m.stage == ProgramStage::Unlock,
        outcomes.len() >= 3,
    ensures
        program_run(m, outcomes) == Some(Ok::<(), u32>(())) <==> (outcomes[0] is Ok && outcomes[1] is Ok
            && outcomes[2] is Ok),
        outcomes[0] is Err ==> program_run(m, outcomes) == Some(Err::<(), u32>(m.codes.prepare_failed)),
        outcomes[0] is Ok && outcomes[1] is Err ==> program_run(m, outcomes) == Some(
            Err::<(), u32>(m.codes.write_failed),
        ),
        outcomes[0] is Ok && outcomes[1] is Ok && outcomes[2] == Err::<(), Status>(
            iap_retcode_raw::COMPARE_ERROR,
        ) ==> program_run(m, outcomes) == Some(Err::<(), u32>(m.codes.compare_mismatch)),
        outcomes[0] is Ok && outcomes[1] is Ok && outcomes[2] is Err && outcomes[2] != Err::<
            (),
            Status,
        >(iap_retcode_raw::COMPARE_ERROR) ==> program_run(m, outcomes) == Some(
            Err::<(), u32>(m.codes.verify_failed),
        ),
{
    let o1 = outcomes.drop_first();
    let o2 = o1.drop_first();
    assert(o1[0] == outcomes[1] && o2[0] == outcomes[2]);
    reveal_with_fuel(program_run, 4);
}

/// A programming procedure only writes right after the sectors were
/// unlocked, and only compares right after a successful write.
pub proof fn lemma_program_order(m: ProgramPage, outcome: Result<(), Status>)
    ensures
        program_step(m, outcome).1 is Run && program_step(m, outcome).1->Run_0 is CopyRamToFlash
            ==> m.stage == ProgramStage::Unlock && outcome is Ok,
        program_step(m, outcome).1 is Run && program_step(m, outcome).1->Run_0 is Compare ==> m.stage
            == ProgramStage::Write && outcome is Ok,
{
}

/// The calls of the LPC81x sector erase, whose outcomes it ignores (1 kB of
/// RAM leaves no room for error handling): unlock the sector, then erase it.
pub fn unchecked_erase_ops(sector: u32, clock_khz: u32) -> (ops: [FlashOp; 2])
    ensures
        ops@ == seq![
            FlashOp::Prepare { start_sector: sector, end_sector: sector },
            FlashOp::Erase { start_sector: sector, end_sector: sector, clock_khz },
        ],
{
    let ops = [
        FlashOp::Prepare { start_sector: sector, end_sector: sector },
        FlashOp::Erase { start_sector: sector, end_sector: sector, clock_khz },
    ];
    assert(ops@ =~= seq![
        FlashOp::Prepare { start_sector: sector, end_sector: sector },
        FlashOp::Erase { start_sector: sector, end_sector: sector, clock_khz },
    ]);
    ops
}

/// The calls of the LPC81x page programming, whose outcomes it ignores:
/// unlock the sector of `chip` that holds `addr`, then write the page there.
pub fn unchecked_program_ops<C: Iap>(chip: &C, addr: u32, clock_khz: u32) -> (ops: [FlashOp; 2])
    ensures
        ops@ == seq![
            FlashOp::Prepare {
                start_sector: chip.spec_addr_to_sector(addr),
                end_sector: chip.spec_addr_to_sector(addr),
            },
            FlashOp::CopyRamToFlash { dst_addr: addr, clock_khz },
        ],
{
    let sector_start = chip.addr_to_sector(addr);
    let ops = [
        FlashOp::Prepare { start_sector: sector_start, end_sector: sector_start },
        FlashOp::CopyRamToFlash { dst_addr: addr, clock_khz },
    ];
    assert(ops@ =~= seq![
        FlashOp::Prepare { start_sector: sector_start, end_sector: sector_start },
        FlashOp::CopyRamToFlash { dst_addr: addr, clock_khz },
    ]);
    ops
}

/// The sector range that an operation works on, if it works on sectors.
pub open spec fn op_sectors(op: FlashOp) -> Option<(u32, u32)> {
    match op {
        FlashOp::BlankCheck { start_sector, end_sector } => Some((start_sector, end_sector)),
        FlashOp::Prepare { start_sector, end_sector } => Some((start_sector, end_sector)),
        FlashOp::Erase { start_sector, end_sector, .. } => Some((start_sector, end_sector)),
        _ => None,
    }
}

/// The flash address that an operation writes or compares, if any.
pub open spec fn op_address(op: FlashOp) -> Option<u32> {
    match op {
        FlashOp::CopyRamToFlash { dst_addr, .. } => Some(dst_addr),
        FlashOp::Compare { dst_addr, .. } => Some(dst_addr),
        _ => None,
    }
}

/// The clock that an operation hands to the ROM, if it takes one.
pub open spec fn op_clock(op: FlashOp) -> Option<u32> {
    match op {
        FlashOp::Erase { clock_khz, .. } => Some(clock_khz),
        FlashOp::CopyRamToFlash { clock_khz, .. } => Some(clock_khz),
        FlashOp::Compare { clock_khz, .. } => Some(clock_khz),
        _ => None,
    }
}

/// Every call of an erase procedure works on exactly the procedure's whole
/// sector range, hands the ROM the procedure's clock, and is a blank check,
/// an unlock or an erase; its failures report the procedure's failure code.
pub proof fn lemma_erase_calls_cover_range(m: EraseSectors, outcome: Result<(), Status>)
    ensures
        erase_step(m, outcome).1 is Run ==> op_sectors(erase_step(m, outcome).1->Run_0) == Some(
            (m.start_sector, m.end_sector),
        ),
        erase_step(m, outcome).1 is Run && erase_step(m, outcome).1->Run_0 is Erase ==> op_clock(
            erase_step(m, outcome).1->Run_0,
        ) == Some(m.clock_khz),
        erase_step(m, outcome).1 is Finish && erase_step(m, outcome).1->Finish_0 is Err
            ==> erase_step(m, outcome).1->Finish_0->Err_0 == m.failure_code,
        m.stage == EraseStage::CheckBlank && outcome is Err && decoded_retcode(outcome->Err_0)
            == IapRetcode::SectorNotBlank ==> erase_step(m, outcome).1 == Next::Run(
            FlashOp::Prepare { start_sector: m.start_sector, end_sector: m.end_sector },
        ),
{
}

/// Every call of a programming procedure works on the procedure's own page:
/// the unlock covers the procedure's sectors, the write and the comparison
/// use its destination address and its clock.
pub proof fn lemma_program_calls_use_page(m: ProgramPage, outcome: Result<(), Status>)
    ensures
        program_step(m, outcome).1 is Run ==> op_sectors(program_step(m, outcome).1->Run_0) is None
            && op_address(program_step(m, outcome).1->Run_0) == Some(m.dst_addr) && op_clock(
            program_step(m, outcome).1->Run_0,
        ) == Some(m.clock_khz),
        m.stage == ProgramStage::Unlock && outcome is Ok ==> program_step(m, outcome).1 == Next::Run(
            FlashOp::CopyRamToFlash { dst_addr: m.dst_addr, clock_khz: m.clock_khz },
        ),
        m.stage == ProgramStage::Write && outcome is Ok ==> program_step(m, outcome).1 == Next::Run(
            FlashOp::Compare { dst_addr: m.dst_addr, clock_khz: m.clock_khz },
        ),
{
}

} // verus!
