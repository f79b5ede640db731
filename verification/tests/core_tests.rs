use airfrog::arm::ap::{Idr, IDR_AHB_AP_CORTEX_M0, IDR_AHB_AP_CORTEX_M33, IDR_AHB_AP_CORTEX_M4};
use airfrog::arm::dp::{
    target_sel_rp2040_all, Abort, CtrlStat, IdCode, Select, TargetSel, TARGET_SEL_RP2040_CORE0,
    TARGET_SEL_RP2040_RESCUE_DP,
};
use airfrog::arm::map::{Csw, Tar};
use airfrog::arm::Cortex;
use airfrog::rp::{RpDetails, RpLine};

#[test]
fn cortex_idcode_round_trip() {
    for c in [Cortex::M0, Cortex::M3, Cortex::M4, Cortex::M33] {
        assert_eq!(Cortex::from_idcode(c.idcode()), Some(c));
    }
}

#[test]
fn cortex_from_idcode_values() {
    assert_eq!(Cortex::from_idcode(IdCode::from_u32(0x0BC12477)), Some(Cortex::M0));
    assert_eq!(Cortex::from_idcode(IdCode::from_u32(0x0BC11477)), Some(Cortex::M0));
    assert_eq!(Cortex::from_idcode(IdCode::from_u32(0x1BA01477)), Some(Cortex::M3));
    assert_eq!(Cortex::from_idcode(IdCode::from_u32(0x2BA01477)), Some(Cortex::M4));
    assert_eq!(Cortex::from_idcode(IdCode::from_u32(0x4C013477)), Some(Cortex::M33));
    assert_eq!(Cortex::from_idcode(IdCode::from_u32(0x12345678)), None);
    assert_eq!(Cortex::M4.idcode().value(), 0x2BA01477);
}

#[test]
fn cortex_names() {
    assert_eq!(Cortex::M0.as_str(), "Cortex-M0");
    assert_eq!(Cortex::M33.as_str(), "Cortex-M33");
    assert_eq!(Cortex::M4.display_string(), "ARM Cortex-M4");
}

#[test]
fn rp_line_details() {
    assert!(RpLine::Rp2040.known());
    assert!(!RpLine::Unknown.known());
    assert_eq!(RpLine::Rp2040.ram_size_kb(), Some(264));
    assert_eq!(RpLine::Rp2040.ram_size_bytes(), Some(270336));
    assert_eq!(RpLine::Rp2350.ram_size_bytes(), Some(524288));
    assert_eq!(RpLine::Unknown.ram_size_bytes(), None);
    assert_eq!(RpLine::Rp2040.expected_idr(), Some(Idr::from_u32(IDR_AHB_AP_CORTEX_M0)));
    assert_eq!(RpLine::Rp2350.expected_idr(), Some(Idr::from_u32(IDR_AHB_AP_CORTEX_M33)));
    assert_eq!(RpLine::Unknown.expected_idr(), None);
    assert_eq!(RpLine::Rp2350.name(), "RP2350");
    assert_eq!(RpLine::Unknown.name(), "Unknown");
}

#[test]
fn rp_details_from_idcode() {
    let d = RpDetails::from_idcode(IdCode::from_u32(0x0BC11477)).unwrap();
    assert_eq!(d.line(), RpLine::Rp2040);
    assert_eq!(d.flash_base(), Some(0x1000_0000));
    assert_eq!(d.ram_base(), Some(0x2000_0000));
    assert_eq!(d.expected_idr(), Some(Idr::from_u32(IDR_AHB_AP_CORTEX_M0)));
    let d = RpDetails::from_idcode(IdCode::from_u32(0x4C013477)).unwrap();
    assert_eq!(d.line(), RpLine::Rp2350);
    assert!(RpDetails::from_idcode(IdCode::from_u32(0x2BA01477)).is_none());
    let u = RpDetails::from_line(RpLine::Unknown);
    assert_eq!(u.flash_base(), None);
    assert_eq!(u.ram_base(), None);
    assert_eq!(u.expected_idr(), None);
}

#[test]
fn rp_line_matches_cortex() {
    for v in [0x0BC12477u32, 0x0BC11477, 0x1BA01477, 0x2BA01477, 0x4C013477, 0] {
        let id = IdCode::from_u32(v);
        let rp = RpDetails::from_idcode(id).map(|d| d.line());
        let cortex = Cortex::from_idcode(id);
        assert_eq!(rp == Some(RpLine::Rp2040), cortex == Some(Cortex::M0));
        assert_eq!(rp == Some(RpLine::Rp2350), cortex == Some(Cortex::M33));
    }
}

#[test]
fn select_fields() {
    let mut s = Select::from_u32(0xFFFF_FFFF);
    s.set_apsel(0x12);
    assert_eq!(s.value(), 0x12FF_FFFF);
    s.set_apbanksel_from_addr(0x2C);
    assert_eq!(s.value(), 0x12FF_FF2F);
    s.set_dpbanksel_from_addr(0x34);
    assert_eq!(s.value(), 0x12FF_FF23);
    assert_eq!(Select::default().value(), 0);
}

#[test]
fn ctrl_stat_bits() {
    let c = CtrlStat::from_u32(0xA000_0040);
    assert!(c.readok());
    assert!(c.cdbgpwrupack());
    assert!(c.csyspwrupack());
    assert!(!c.has_errors());
    assert!(CtrlStat::from_u32(0x20).has_errors());
    assert!(CtrlStat::from_u32(0x20).stickyerr());
    assert!(CtrlStat::from_u32(0x2).stickyorun());
    assert!(CtrlStat::from_u32(0x10).stickycmp());
    assert!(CtrlStat::from_u32(0x80).wdataerr());
    let mut c = CtrlStat::default();
    c.set_cdbgpwrupreq(true);
    c.set_csyspwrupreq(true);
    assert_eq!(c.value(), 0x5000_0000);
    c.set_csyspwrupreq(false);
    assert_eq!(c.value(), 0x1000_0000);
}

#[test]
fn abort_bits() {
    let mut a = Abort::default();
    a.set_stkcmpclr(true);
    a.set_stkerrclr(true);
    a.set_wderrclr(true);
    a.set_orunerrclr(true);
    assert_eq!(a.value(), 0x1E);
    a.set_wderrclr(false);
    assert_eq!(a.value(), 0x16);
}

#[test]
fn csw_and_idr_fields() {
    let mut c = Csw::default();
    assert_eq!(c.value(), 0x2300_0002);
    assert_eq!(c.addrinc(), Csw::ADDRINC_OFF);
    c.set_addrinc(Csw::ADDRINC_SINGLE);
    assert_eq!(c.value(), 0x2300_0012);
    assert_eq!(c.addrinc(), Csw::ADDRINC_SINGLE);
    let idr = Idr::from_u32(0x2477_0011);
    assert_eq!(idr.ap_type(), 1);
    assert_eq!(idr.class(), 8);
    assert!(idr.is_known());
    assert!(Idr::from_u32(IDR_AHB_AP_CORTEX_M4).is_known());
    assert!(!Idr::from_u32(0x1234).is_known());
    assert_eq!(Tar::from_u32(0x2000_0000).value(), 0x2000_0000);
}

#[test]
fn rp2040_target_sels() {
    let all = target_sel_rp2040_all();
    assert_eq!(all[0], TargetSel::new(TARGET_SEL_RP2040_CORE0));
    assert_eq!(all[1].data(), 0x11002927);
    assert_eq!(all[2].data(), TARGET_SEL_RP2040_RESCUE_DP);
}
