use airfrog::arm::dp::{CtrlStat, IdCode, Select, TargetSel};
use airfrog::arm::map::{Csw, Tar};
use airfrog::rp::{RpDetails, RpLine};
use airfrog::stm::{StmDetails, StmDeviceId, StmFlashSize, StmUniqueId};
use airfrog::swd::{
    abort_value, addr_inc_change, calculate_parity, csw_config_matches, csw_write_result,
    dp_status_result, flash_size_from_word, mcu_probe, mem_ap_csw, plan_bulk_transfer,
    plan_drw_read, plan_drw_write, power_up_request, power_up_result, rp2040_identify, stm_mcu,
    stm_g0_probe_matches, tar_read_check, tar_write_check, uid_word_addresses, DrwStep, McuProbe,
    MultiDropTarget, SwdError, SwdInterface, SwdOp, Version,
};
use airfrog::swd::{multidrop_detection_result, stm_g0_probe, AckStep};
use airfrog::Mcu;

#[test]
fn command_bytes() {
    assert_eq!(SwdOp::DpRead(0x0).to_cmd(), 0xA5);
    assert_eq!(SwdOp::DpWrite(0x0).to_cmd(), 0x81);
    assert_eq!(SwdOp::DpRead(0x4).to_cmd(), 0x8D);
    assert_eq!(SwdOp::DpWrite(0x8).to_cmd(), 0xB1);
    assert_eq!(SwdOp::DpRead(0xC).to_cmd(), 0xBD);
    assert_eq!(SwdOp::ApRead(0x0).to_cmd(), 0x87);
    assert_eq!(SwdOp::ApRead(0xC).to_cmd(), 0x9F);
    assert_eq!(SwdOp::ApWrite(0x4).to_cmd(), 0x8B);
    assert_eq!(SwdOp::ApWrite(0x0).to_cmd(), 0xA3);
    assert_eq!(SwdOp::ApRead(0xFC).to_cmd(), SwdOp::ApRead(0x0C).to_cmd());
}

#[test]
fn command_bytes_well_formed() {
    for a in 0u8..=255 {
        for op in [SwdOp::DpRead(a), SwdOp::DpWrite(a), SwdOp::ApRead(a), SwdOp::ApWrite(a)] {
            let c = op.to_cmd();
            assert_eq!(c & 1, 1);
            assert_eq!((c >> 6) & 1, 0);
            assert_eq!((c >> 7) & 1, 1);
            assert_eq!((c >> 3) & 3, (a >> 2) & 3);
            assert_eq!(((c >> 1) & 0x1F).count_ones() % 2, 0);
        }
    }
}

#[test]
fn parity() {
    assert!(calculate_parity(0b1011));
    assert!(!calculate_parity(0));
    assert!(!calculate_parity(0xFFFF_FFFF));
    assert!(calculate_parity(0x8000_0000));
    assert_eq!(SwdOp::add_parity(0x85), 0xA5);
}

#[test]
fn op_display_and_power() {
    assert_eq!(SwdOp::DpRead(4).display_string(), "DP Read 0x04");
    assert_eq!(SwdOp::ApWrite(0xFC).display_string(), "AP Write 0xFC");
    assert!(SwdOp::ApRead(0).requires_power_up());
    assert!(!SwdOp::DpWrite(0).requires_power_up());
}

#[test]
fn dp_select_for_ops() {
    let (s, mask) = SwdOp::ApRead(0xFC).dp_select();
    assert_eq!(s.value(), 0xF0);
    assert_eq!(mask, 0xF);
    let (s, _) = SwdOp::DpRead(0x24).dp_select();
    assert_eq!(s.value(), 0x2);
    assert!(SwdOp::ApRead(0xFC).check_dp_select(Select::from_u32(0xF0)));
    assert!(!SwdOp::ApRead(0xFC).check_dp_select(Select::from_u32(0)));
    assert!(SwdOp::DpRead(0x24).check_dp_select(Select::from_u32(0xFF00_0002)));
    for a in 0u8..=255 {
        for op in [SwdOp::DpRead(a), SwdOp::ApWrite(a)] {
            assert!(op.check_dp_select(op.dp_select().0));
        }
    }
}

#[test]
fn multidrop_target_names() {
    let t = MultiDropTarget::new(TargetSel::new(0x01002927), IdCode::from_u32(0x0BC12477));
    assert_eq!(t.name(), "RP2040 Core 0");
    assert_eq!(t.target(), TargetSel::new(0x01002927));
    assert_eq!(t.idcode(), IdCode::from_u32(0x0BC12477));
    let name = |v| MultiDropTarget::new(TargetSel::new(v), IdCode::from_u32(0)).name();
    assert_eq!(name(0x11002927), "RP2040 Core 1");
    assert_eq!(name(0xF1002927), "RP2040 Rescue DP");
    assert_eq!(name(0x21002927), "RP2040 Core custom instance ID");
    assert_eq!(name(0x12345678), "Unknown");
}

#[test]
fn new_interface_state() {
    let swd = SwdInterface::new();
    assert!(!swd.is_connected());
    assert_eq!(swd.check_version(), Err(SwdError::NotReady));
    assert_eq!(swd.idcode(), None);
    assert_eq!(swd.mcu(), None);
    assert_eq!(swd.idr(), None);
    assert!(!swd.addr_inc());
    assert_eq!(swd.dp_select().value(), 0);
}

#[test]
fn check_version_sources() {
    let mut swd = SwdInterface::new();
    swd.set_reset_version(Some(Version::V2));
    assert_eq!(swd.check_version(), Ok(Version::V2));
    let idcode = IdCode::from_u32(0x2BA01477);
    let stm = StmDetails::new(StmDeviceId::new(0x1000_6413), idcode, None, None);
    swd.record_connection(idcode, Some(Mcu::Stm32(stm)));
    assert!(swd.is_connected());
    assert_eq!(swd.check_version(), Ok(Version::V1));
    swd.set_mcu(Some(Mcu::Rp(RpDetails::from_line(RpLine::Rp2040))));
    assert_eq!(swd.check_version(), Ok(Version::V2));
    swd.set_mcu(Some(Mcu::Unknown(idcode)));
    swd.set_reset_version(None);
    assert_eq!(swd.check_version(), Err(SwdError::NotReady));
}

#[test]
fn reset_disconnects() {
    let mut swd = SwdInterface::new();
    swd.set_wait_retries(5);
    swd.record_connection(IdCode::from_u32(1), None);
    swd.set_reset_version(Some(Version::V1));
    swd.record_powered_up();
    swd.record_dp_select(Select::from_u32(0xF0));
    swd.reset_internal_state();
    assert!(!swd.is_connected());
    assert_eq!(swd.check_version(), Err(SwdError::NotReady));
    assert_eq!(swd.dp_select().value(), 0);
    assert_eq!(swd.retry_after_wait(4), Some(5));
    assert_eq!(swd.access_gate(SwdOp::ApRead(0)), Err(SwdError::NotReady));
}

#[test]
fn retry_policy() {
    let mut swd = SwdInterface::new();
    assert_eq!(swd.retry_after_wait(0), Some(1));
    assert_eq!(swd.retry_after_wait(1), Some(2));
    assert_eq!(swd.retry_after_wait(2), None);
    swd.set_wait_retries(0);
    assert_eq!(swd.retry_after_wait(0), None);
}

#[test]
fn power_gates() {
    let mut swd = SwdInterface::new();
    assert_eq!(swd.access_gate(SwdOp::ApRead(0)), Err(SwdError::NotReady));
    assert_eq!(swd.access_gate(SwdOp::DpRead(0)), Ok(()));
    assert_eq!(swd.mem_ap_gate(), Err(SwdError::NotReady));
    swd.set_check_power(false);
    assert_eq!(swd.access_gate(SwdOp::ApWrite(4)), Ok(()));
    swd.set_check_power(true);
    swd.record_powered_up();
    assert_eq!(swd.access_gate(SwdOp::ApWrite(4)), Ok(()));
    assert_eq!(swd.mem_ap_gate(), Ok(()));
}

#[test]
fn select_updates() {
    let mut swd = SwdInterface::new();
    assert_eq!(swd.select_update(SwdOp::ApRead(0x0C)), None);
    assert_eq!(swd.select_update(SwdOp::ApRead(0xFC)), Some(Select::from_u32(0xF0)));
    assert_eq!(swd.select_update(SwdOp::DpWrite(0x8)), None);
    assert_eq!(swd.select_update(SwdOp::DpRead(0x0)), None);
    assert_eq!(swd.select_update(SwdOp::DpRead(0x24)), Some(Select::from_u32(0x2)));
    swd.record_dp_select(Select::from_u32(0x0100_00F0));
    assert_eq!(swd.select_update(SwdOp::ApRead(0xF8)), None);
    assert_eq!(swd.select_update(SwdOp::ApRead(0x0C)), Some(Select::from_u32(0)));
    let new = swd.select_update(SwdOp::ApRead(0x0C)).unwrap();
    swd.record_dp_select(new);
    assert_eq!(swd.select_update(SwdOp::ApRead(0x0C)), None);
}

#[test]
fn raw_ap_select_and_dp_writes() {
    let mut swd = SwdInterface::new();
    assert_eq!(swd.ap_raw_select(1, 0xFC), Some(Select::from_u32(0x0100_00F0)));
    assert_eq!(swd.ap_raw_select(0, 0x04), None);
    swd.record_dp_register_write(0x8, 0x0100_00F0);
    assert_eq!(swd.dp_select().value(), 0x0100_00F0);
    assert_eq!(swd.ap_raw_select(1, 0xFC), None);
    swd.record_dp_register_write(0x4, 0x1234);
    assert_eq!(swd.dp_select().value(), 0x0100_00F0);
}

#[test]
fn csw_and_idr_records() {
    let mut swd = SwdInterface::new();
    swd.record_csw_readback(Csw::from_u32(0x2300_0012));
    assert!(swd.addr_inc());
    swd.record_csw_readback(Csw::from_u32(0x2300_0002));
    assert!(!swd.addr_inc());
    swd.record_csw_readback(Csw::from_u32(0x2300_0022));
    assert!(swd.addr_inc());
    swd.record_idr(airfrog::arm::ap::Idr::from_u32(0x2477_0011));
    assert_eq!(swd.idr(), Some(airfrog::arm::ap::Idr::from_u32(0x2477_0011)));
}

#[test]
fn dp_status_decisions() {
    assert_eq!(dp_status_result(CtrlStat::from_u32(0), true), Err(SwdError::DpError));
    assert_eq!(dp_status_result(CtrlStat::from_u32(0x40), true), Ok(()));
    assert_eq!(dp_status_result(CtrlStat::from_u32(0x60), true), Err(SwdError::DpError));
    assert_eq!(dp_status_result(CtrlStat::from_u32(0), false), Ok(()));
    assert_eq!(dp_status_result(CtrlStat::from_u32(0x80), false), Err(SwdError::DpError));
}

#[test]
fn power_up_decisions() {
    assert_eq!(power_up_request().value(), 0x5000_0000);
    assert_eq!(power_up_result(CtrlStat::from_u32(0xA000_0000)), Ok(()));
    assert_eq!(
        power_up_result(CtrlStat::from_u32(0x2000_0000)),
        Err(SwdError::OperationFailed("debug domain power up failed".to_string()))
    );
    assert_eq!(abort_value(true, true, true, true).value(), 0x1E);
    assert_eq!(abort_value(false, true, false, false).value(), 0x4);
}

#[test]
fn csw_decisions() {
    assert_eq!(mem_ap_csw(true).value(), 0x2300_0012);
    assert_eq!(mem_ap_csw(false).value(), 0x2300_0002);
    assert!(csw_config_matches(Csw::from_u32(0x2300_0012), Csw::from_u32(0x0300_0012)));
    assert!(!csw_config_matches(Csw::from_u32(0x2300_0012), Csw::from_u32(0x2300_0002)));
    assert_eq!(addr_inc_change(Csw::from_u32(0x2300_0002), false), None);
    assert_eq!(addr_inc_change(Csw::from_u32(0x2300_0002), true), Some(Csw::from_u32(0x2300_0012)));
    assert_eq!(addr_inc_change(Csw::from_u32(0x2300_0012), true), None);
    assert_eq!(addr_inc_change(Csw::from_u32(0x2300_0022), false), Some(Csw::from_u32(0x2300_0002)));
    assert_eq!(csw_write_result(Csw::from_u32(1), Csw::from_u32(1)), Ok(()));
    assert_eq!(
        csw_write_result(Csw::from_u32(1), Csw::from_u32(2)),
        Err(SwdError::OperationFailed("csw addrinc write failed".to_string()))
    );
}

#[test]
fn tar_decisions() {
    assert_eq!(tar_read_check(Tar::from_u32(0x2000_0000), Tar::from_u32(0x2000_0000)), Ok(()));
    assert_eq!(
        tar_read_check(Tar::from_u32(0x2000_0000), Tar::from_u32(0x2000_0004)),
        Err(SwdError::OperationFailed("unexpect tar 0x20000004".to_string()))
    );
    assert_eq!(
        tar_write_check(Tar::from_u32(0x2000_0000), Tar::from_u32(0xDEAD_BEEF)),
        Err(SwdError::OperationFailed("unexpected tar 0xDEADBEEF".to_string()))
    );
}

#[test]
fn bulk_plans() {
    assert_eq!(plan_bulk_transfer(0x2000_03F8, 5), Ok(vec![(0x2000_03F8, 2), (0x2000_0400, 3)]));
    assert_eq!(plan_bulk_transfer(0x2000_0000, 0), Ok(vec![]));
    assert_eq!(plan_bulk_transfer(0x2000_0002, 4), Err((SwdError::Api, 0)));
    assert_eq!(
        plan_bulk_transfer(0x2000_0000, 600),
        Ok(vec![(0x2000_0000, 256), (0x2000_0400, 256), (0x2000_0800, 88)])
    );
}

#[test]
fn bulk_plans_never_cross_1k() {
    for (addr, len) in [(0u32, 1000usize), (0x3FC, 3), (0x1000_0004, 513), (0x400, 256)] {
        let plan = plan_bulk_transfer(addr, len).unwrap();
        let mut next = addr;
        let mut total = 0;
        for (a, n) in plan {
            assert_eq!(a, next);
            assert!(n >= 1);
            assert!(a % 1024 + 4 * n as u32 <= 1024);
            next = a + 4 * n as u32;
            total += n;
        }
        assert_eq!(total, len);
    }
}

#[test]
fn drw_read_plans() {
    assert_eq!(
        plan_drw_read(3, true),
        vec![
            DrwStep::ReadDrw { err_count: 0 },
            DrwStep::ReadDrw { err_count: 0 },
            DrwStep::Store { index: 0 },
            DrwStep::ReadDrw { err_count: 1 },
            DrwStep::Store { index: 1 },
            DrwStep::ReadRdBuff { err_count: 2 },
            DrwStep::Store { index: 2 },
            DrwStep::CheckErrors { check_read_ok: true, err_count: 3 },
        ]
    );
    assert_eq!(
        plan_drw_read(2, false),
        vec![
            DrwStep::ReadDrw { err_count: 0 },
            DrwStep::ReadDrw { err_count: 0 },
            DrwStep::CheckErrors { check_read_ok: true, err_count: 0 },
            DrwStep::Store { index: 0 },
            DrwStep::ReadRdBuff { err_count: 1 },
            DrwStep::CheckErrors { check_read_ok: true, err_count: 1 },
            DrwStep::Store { index: 1 },
        ]
    );
    assert_eq!(
        plan_drw_read(1, true),
        vec![
            DrwStep::ReadDrw { err_count: 0 },
            DrwStep::ReadRdBuff { err_count: 0 },
            DrwStep::Store { index: 0 },
            DrwStep::CheckErrors { check_read_ok: true, err_count: 1 },
        ]
    );
}

#[test]
fn drw_write_plans() {
    assert_eq!(
        plan_drw_write(2, true),
        vec![
            DrwStep::WriteDrw { index: 0, last: false, err_count: 0 },
            DrwStep::WriteDrw { index: 1, last: true, err_count: 1 },
            DrwStep::CheckErrors { check_read_ok: false, err_count: 2 },
        ]
    );
    assert_eq!(
        plan_drw_write(2, false),
        vec![
            DrwStep::WriteDrw { index: 0, last: false, err_count: 0 },
            DrwStep::CheckErrors { check_read_ok: false, err_count: 0 },
            DrwStep::WriteDrw { index: 1, last: true, err_count: 1 },
            DrwStep::CheckErrors { check_read_ok: false, err_count: 1 },
        ]
    );
    assert_eq!(
        plan_drw_write(1, false),
        vec![DrwStep::WriteDrw { index: 0, last: true, err_count: 0 }, DrwStep::CheckErrors { check_read_ok: false, err_count: 0 }]
    );
    assert_eq!(plan_drw_write(0, true), vec![]);
}

#[test]
fn mcu_identification() {
    assert_eq!(mcu_probe(IdCode::from_u32(0x1BA01477)), McuProbe::StmDeviceId);
    assert_eq!(mcu_probe(IdCode::from_u32(0x2BA01477)), McuProbe::StmDeviceId);
    assert_eq!(mcu_probe(IdCode::from_u32(0x0BC11477)), McuProbe::StmG0ThenRp2040);
    assert_eq!(mcu_probe(IdCode::from_u32(0x0BC12477)), McuProbe::StmG0ThenRp2040);
    assert_eq!(mcu_probe(IdCode::from_u32(0x4C013477)), McuProbe::Unidentified);
    assert_eq!(mcu_probe(IdCode::from_u32(0x6BA02477)), McuProbe::StmG0ThenUnknown);
    assert!(stm_g0_probe_matches(0x1000_6460));
    assert!(!stm_g0_probe_matches(0x1000_6999));
    assert_eq!(uid_word_addresses(0x1FFF_7A10), [0x1FFF_7A10, 0x1FFF_7A14, 0x1FFF_7A18]);
    let id = IdCode::from_u32(0x0BC11477);
    assert_eq!(
        rp2040_identify(0x10002927, 0x410CC601, id),
        Mcu::Rp(RpDetails::from_line(RpLine::Rp2040))
    );
    assert_eq!(rp2040_identify(0x10002927, 0, id), Mcu::Unknown(id));
}

#[test]
fn flash_size_words() {
    assert_eq!(flash_size_from_word(0x0200_FFFF).raw(), 0x200);
    assert_eq!(flash_size_from_word(0x0000_0080).raw(), 0x80);
    assert_eq!(flash_size_from_word(0xFFFF_0040).raw(), 0x40);
}

#[test]
fn stm_mcu_assembly() {
    let id = IdCode::from_u32(0x2BA01477);
    let mcu = stm_mcu(0x1000_6413, id, Some([1, 2, 3]), Some(0x0200_0000));
    assert_eq!(
        mcu,
        Mcu::Stm32(StmDetails::new(
            StmDeviceId::new(0x1000_6413),
            id,
            Some(StmUniqueId::new([1, 2, 3])),
            Some(StmFlashSize::new(0x200)),
        ))
    );
    assert_eq!(
        stm_mcu(0x1000_6413, id, None, None),
        Mcu::Stm32(StmDetails::new(StmDeviceId::new(0x1000_6413), id, None, None))
    );
}

#[test]
fn multidrop_detection() {
    let t = MultiDropTarget::new(TargetSel::new(0x01002927), IdCode::from_u32(1));
    assert_eq!(multidrop_detection_result(vec![t]), Ok(vec![t]));
    assert_eq!(
        multidrop_detection_result(vec![]),
        Err(SwdError::OperationFailed("no multi-drop targets detected".to_string()))
    );
}

#[test]
fn ack_decisions() {
    let mut s = SwdInterface::new();
    s.set_wait_retries(2);
    assert_eq!(s.ack_step(Ok(()), 0), AckStep::Transfer);
    assert_eq!(s.ack_step(Err(SwdError::WaitAck), 0), AckStep::Retry(1));
    assert_eq!(s.ack_step(Err(SwdError::WaitAck), 1), AckStep::Retry(2));
    assert_eq!(s.ack_step(Err(SwdError::WaitAck), 2), AckStep::Fail(SwdError::WaitAck));
    assert_eq!(s.ack_step(Err(SwdError::FaultAck), 0), AckStep::Fail(SwdError::FaultAck));
    assert_eq!(s.ack_step(Err(SwdError::NoAck), 1), AckStep::Fail(SwdError::NoAck));
}

#[test]
fn connection_bookkeeping() {
    let mut s = SwdInterface::new();
    s.set_reset_version(Some(Version::V1));
    assert_eq!(s.finish_connection(IdCode::from_u32(0x2BA01477), Err(SwdError::NoAck)), Err(SwdError::NoAck));
    assert!(!s.is_connected());
    assert_eq!(s.check_version(), Err(SwdError::NotReady));
    s.set_reset_version(Some(Version::V2));
    assert_eq!(s.finish_connection(IdCode::from_u32(0x0BC12477), Ok(None)), Ok(()));
    assert!(s.is_connected());
    assert_eq!(s.idcode(), Some(IdCode::from_u32(0x0BC12477)));
    assert_eq!(s.check_version(), Ok(Version::V2));
    // raw AP accesses: power checking stays off after success, back on after failure
    s.set_check_power(false);
    s.finish_raw_ap_access(true);
    assert_eq!(s.access_gate(SwdOp::ApRead(0)), Ok(()));
    s.finish_raw_ap_access(false);
    assert_eq!(s.access_gate(SwdOp::ApRead(0)), Err(SwdError::NotReady));
    // AddrInc is recorded as set
    s.record_addr_inc(true);
    assert!(s.addr_inc());
    s.record_addr_inc(false);
    assert!(!s.addr_inc());
}

#[test]
fn stm_g0_probe_outcomes() {
    assert_eq!(stm_g0_probe(Ok(0x1000_6460)), Some(0x1000_6460));
    assert_eq!(stm_g0_probe(Ok(0x1000_6999)), None);
    assert_eq!(stm_g0_probe(Err(SwdError::FaultAck)), None);
}
