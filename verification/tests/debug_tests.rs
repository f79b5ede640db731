use airfrog::arm::ap::Idr;
use airfrog::arm::dp::{IdCode, TargetSel};
use airfrog::debug::{
    check_mem_ap_idr, choose_multidrop_target, f4_bulk_program_cr, f4_erase_progress,
    f4_mass_erase_cr, f4_program_progress, f4_program_psize, f4_sector_erase_cr, f4_set_psize,
    flash_cr_locked, flash_cr_program, flash_cr_start, flash_family, g0_cr_end_page_erase,
    g0_cr_end_program, g0_erase_progress, g0_flash_locked, g0_page_count, g0_page_erase_cr,
    g0_program_progress, g0_rmw_merge, g0_status_clear_value, plan_g0_bulk, DebugInterface,
    G0Write, OperationBytes,
};
use airfrog::debug::{bulk_cleanup_outcome, cleanup_outcome, reset_next, ResetNext, ResetPhase};
use airfrog::rp::{RpDetails, RpLine};
use airfrog::stm::{Stm32F4FlashSr, Stm32G0FlashSr, StmDetails, StmDeviceId, StmFamily};
use airfrog::swd::{MultiDropTarget, SwdError, SwdInterface};
use airfrog::Mcu;

fn stm(raw: u32) -> Option<Mcu> {
    Some(Mcu::Stm32(StmDetails::new(StmDeviceId::new(raw), IdCode::from_u32(0), None, None)))
}

#[test]
fn debug_interface_state() {
    let mut d = DebugInterface::new(SwdInterface::new());
    assert_eq!(d.idcode(), None);
    assert_eq!(d.mcu(), None);
    d.swd_if().record_connection(IdCode::from_u32(0x2BA01477), None);
    assert_eq!(d.idcode(), Some(IdCode::from_u32(0x2BA01477)));
}

#[test]
fn flash_families() {
    assert_eq!(flash_family(None), Err(SwdError::NotReady));
    assert_eq!(flash_family(Some(Mcu::Rp(RpDetails::from_line(RpLine::Rp2040)))), Err(SwdError::Unsupported));
    assert_eq!(flash_family(Some(Mcu::Unknown(IdCode::from_u32(0)))), Err(SwdError::Unsupported));
    assert_eq!(flash_family(stm(0x2003_6410)), Err(SwdError::Unsupported));
    assert_eq!(flash_family(stm(0x1000_6413)), Ok(StmFamily::F4));
    assert_eq!(flash_family(stm(0x1000_6460)), Ok(StmFamily::G0));
}

#[test]
fn flash_cr_values() {
    assert!(g0_flash_locked(0x8000_0000));
    assert!(!g0_flash_locked(0x7FFF_FFFF));
    assert_eq!(flash_cr_locked(0x1), 0x8000_0001);
    assert_eq!(f4_sector_erase_cr(0, 5), 0x32A);
    assert_eq!(f4_sector_erase_cr(0, 0x15), 0x32A);
    // A sector number left in FLASH_CR by an earlier erase is replaced
    assert_eq!(f4_sector_erase_cr(0x5A, 2), 0x312);
    assert_eq!(f4_sector_erase_cr(0x8000_0078, 0), 0x8000_0302);
    assert_eq!(f4_mass_erase_cr(0), 0x4);
    assert_eq!(flash_cr_start(0x2), 0x1_0002);
    assert_eq!(flash_cr_program(0x200), 0x201);
    assert_eq!(f4_set_psize(0xFFFF_FFFF, 2), 0xFFFF_FEFF);
    assert_eq!(f4_bulk_program_cr(0x300), 0x201);
    assert_eq!(g0_cr_end_page_erase(0xFF), 0xFD);
    assert_eq!(g0_cr_end_program(0xFF), 0xFE);
}

#[test]
fn f4_psize_and_alignment() {
    assert_eq!(f4_program_psize(3, OperationBytes::BYTE1), Ok(0));
    assert_eq!(f4_program_psize(1, OperationBytes::BYTE2), Err(SwdError::Api));
    assert_eq!(f4_program_psize(2, OperationBytes::BYTE2), Ok(1));
    assert_eq!(f4_program_psize(2, OperationBytes::BYTE4), Err(SwdError::Api));
    assert_eq!(f4_program_psize(4, OperationBytes::BYTE4), Ok(2));
}

#[test]
fn g0_page_erase() {
    assert_eq!(g0_page_erase_cr(0, 3, Some(65536)), Ok(0x1A));
    assert_eq!(g0_page_erase_cr(0, 32, Some(65536)), Err(SwdError::Api));
    assert_eq!(g0_page_erase_cr(0, 0, None), Err(SwdError::Unsupported));
    assert_eq!(g0_page_erase_cr(0, 130, Some(524288)), Ok(0x2012));
    assert_eq!(g0_page_erase_cr(0xFFFF_FFFF, 0, Some(65536)), Ok(0xFFFF_DC07));
    assert_eq!(g0_page_count(Some(131072)), Ok(64));
    assert_eq!(g0_page_count(None), Err(SwdError::Unsupported));
}

#[test]
fn g0_read_modify_write() {
    let lo = 0x3322_1100;
    let hi = 0x7766_5544;
    assert_eq!(g0_rmw_merge(0x0800_0005, lo, hi, 0xAB, OperationBytes::BYTE1), Ok((lo, 0x7766_AB44)));
    assert_eq!(g0_rmw_merge(0x0800_0001, lo, hi, 0x12AB, OperationBytes::BYTE1), Ok((0x3322_AB00, hi)));
    assert_eq!(g0_rmw_merge(0x0800_0006, lo, hi, 0xBEEF, OperationBytes::BYTE2), Ok((lo, 0xBEEF_5544)));
    assert_eq!(g0_rmw_merge(0x0800_0007, lo, hi, 0xBEEF, OperationBytes::BYTE2), Err(SwdError::Api));
    assert_eq!(g0_rmw_merge(0x0800_0004, lo, hi, 0xDEAD_BEEF, OperationBytes::BYTE4), Ok((lo, 0xDEAD_BEEF)));
    assert_eq!(g0_rmw_merge(0x0800_0000, lo, hi, 0xDEAD_BEEF, OperationBytes::BYTE4), Ok((0xDEAD_BEEF, hi)));
    assert_eq!(g0_rmw_merge(0x0800_0002, lo, hi, 0xDEAD_BEEF, OperationBytes::BYTE4), Err(SwdError::Api));
}

#[test]
fn g0_rmw_changes_only_written_bytes() {
    let lo = 0x0123_4567u32;
    let hi = 0x89AB_CDEFu32;
    for off in 0u32..8 {
        let (nl, nh) = g0_rmw_merge(0x0800_0000 + off, lo, hi, 0x5A, OperationBytes::BYTE1).unwrap();
        let before = (lo as u64) | ((hi as u64) << 32);
        let after = (nl as u64) | ((nh as u64) << 32);
        let mask = 0xFFu64 << (off * 8);
        assert_eq!((after & mask) >> (off * 8), 0x5A);
        assert_eq!(after & !mask, before & !mask);
    }
}

#[test]
fn g0_status_handling() {
    assert_eq!(g0_status_clear_value(Stm32G0FlashSr::from(1)), 0x79);
    assert_eq!(g0_status_clear_value(Stm32G0FlashSr::from(0)), 0x78);
    assert_eq!(g0_erase_progress(Stm32G0FlashSr::from(0x1_0000)), Ok(false));
    assert_eq!(g0_erase_progress(Stm32G0FlashSr::from(0)), Ok(true));
    assert_eq!(
        g0_erase_progress(Stm32G0FlashSr::from(0x8)),
        Err(SwdError::OperationFailed("flash erase failure 0x00000008".to_string()))
    );
    assert_eq!(
        g0_program_progress(Stm32G0FlashSr::from(0x1_0020)),
        Err(SwdError::OperationFailed("flash program failure 0x00010020".to_string()))
    );
}

#[test]
fn f4_status_handling() {
    assert_eq!(f4_erase_progress(Stm32F4FlashSr::from(0x1_0000)), Ok(false));
    assert_eq!(f4_erase_progress(Stm32F4FlashSr::from(0x1)), Ok(true));
    assert_eq!(
        f4_erase_progress(Stm32F4FlashSr::from(0x10)),
        Err(SwdError::OperationFailed("flash erase failure 0x00000010".to_string()))
    );
    assert_eq!(
        f4_program_progress(Stm32F4FlashSr::from(0x80)),
        Err(SwdError::OperationFailed("flash program failure 0x00000080".to_string()))
    );
    assert_eq!(f4_program_progress(Stm32F4FlashSr::from(0)), Ok(true));
}

#[test]
fn multidrop_choice() {
    let core0 = MultiDropTarget::new(TargetSel::new(0x01002927), IdCode::from_u32(1));
    let rescue = MultiDropTarget::new(TargetSel::new(0xF1002927), IdCode::from_u32(2));
    assert_eq!(choose_multidrop_target(&vec![core0, rescue]), Ok(core0));
    assert_eq!(choose_multidrop_target(&vec![rescue, core0]), Err(SwdError::NotReady));
}

#[test]
fn mem_ap_type_check() {
    assert_eq!(check_mem_ap_idr(Idr::from_u32(0x3477_0005)), Ok(()));
    assert_eq!(
        check_mem_ap_idr(Idr::from_u32(0x2477_0011)),
        Err(SwdError::OperationFailed("unexpected idr 0x24770011".to_string()))
    );
}

#[test]
fn g0_bulk_plans() {
    assert_eq!(
        plan_g0_bulk(0x0800_0004, 4),
        vec![
            G0Write { addr: 0x0800_0004, index: 0, double: false },
            G0Write { addr: 0x0800_0008, index: 1, double: true },
            G0Write { addr: 0x0800_0010, index: 3, double: false },
        ]
    );
    assert_eq!(
        plan_g0_bulk(0x0800_0000, 4),
        vec![
            G0Write { addr: 0x0800_0000, index: 0, double: true },
            G0Write { addr: 0x0800_0008, index: 2, double: true },
        ]
    );
    assert_eq!(plan_g0_bulk(0x0800_0000, 0), vec![]);
}

#[test]
fn g0_bulk_plans_write_each_word_once() {
    for (addr, len) in [(0x0800_0000u32, 7usize), (0x0800_0004, 9), (0x0800_0002, 3)] {
        let plan = plan_g0_bulk(addr, len);
        let mut written = vec![0u32; len];
        for w in plan {
            assert_eq!(w.addr, addr + 4 * w.index as u32);
            written[w.index] += 1;
            if w.double {
                assert_eq!(w.addr % 8, 0);
                written[w.index + 1] += 1;
            }
        }
        assert!(written.iter().all(|&n| n == 1));
    }
}

#[test]
fn reset_strategy() {
    let core0 = MultiDropTarget::new(TargetSel::new(0x01002927), IdCode::from_u32(0x0BC12477));
    let rescue = MultiDropTarget::new(TargetSel::new(0xF1002927), IdCode::from_u32(0x0BC12477));
    let err = || Err::<Vec<MultiDropTarget>, SwdError>(SwdError::NoAck);
    // v1 first: success finishes, failure tries multi-drop
    assert_eq!(reset_next(ResetPhase::V1, Ok(vec![])), ResetNext::Finish(Ok(())));
    assert_eq!(reset_next(ResetPhase::V1, err()), ResetNext::DetectMultiDrop);
    // multi-drop: connect to the first target, unless it is the rescue DP
    assert_eq!(reset_next(ResetPhase::MultiDrop, Ok(vec![core0, rescue])), ResetNext::Connect(core0));
    assert_eq!(
        reset_next(ResetPhase::MultiDrop, Ok(vec![rescue, core0])),
        ResetNext::Finish(Err(SwdError::NotReady))
    );
    assert_eq!(reset_next(ResetPhase::MultiDrop, err()), ResetNext::TryV2);
    // connecting: success finishes, failure tries v2
    assert_eq!(reset_next(ResetPhase::Connect, Ok(vec![])), ResetNext::Finish(Ok(())));
    assert_eq!(reset_next(ResetPhase::Connect, err()), ResetNext::TryV2);
    // v2 is the last resort and passes its result through
    assert_eq!(reset_next(ResetPhase::V2, Ok(vec![])), ResetNext::Finish(Ok(())));
    assert_eq!(reset_next(ResetPhase::V2, err()), ResetNext::Finish(Err(SwdError::NoAck)));
}

#[test]
fn cleanup_results() {
    assert_eq!(cleanup_outcome(Ok(()), Ok(())), Ok(()));
    assert_eq!(cleanup_outcome(Ok(()), Err(SwdError::FaultAck)), Err(SwdError::FaultAck));
    assert_eq!(cleanup_outcome(Err(SwdError::DpError), Err(SwdError::FaultAck)), Err(SwdError::DpError));
    assert_eq!(cleanup_outcome(Err(SwdError::DpError), Ok(())), Err(SwdError::DpError));
    assert_eq!(bulk_cleanup_outcome(Ok(()), Ok(()), 7), Ok(()));
    assert_eq!(bulk_cleanup_outcome(Ok(()), Err(SwdError::NoAck), 7), Err((SwdError::NoAck, 7)));
    assert_eq!(
        bulk_cleanup_outcome(Err((SwdError::WaitAck, 3)), Err(SwdError::NoAck), 7),
        Err((SwdError::WaitAck, 3))
    );
}
