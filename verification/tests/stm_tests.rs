use airfrog::arm::ap::{Idr, IDR_AHB_AP_CORTEX_M0, IDR_AHB_AP_CORTEX_M3, IDR_AHB_AP_CORTEX_M4};
use airfrog::arm::dp::IdCode;
use airfrog::arm::Cortex;
use airfrog::stm::{
    Stm32F4FlashCr, Stm32F4FlashKeyr, Stm32F4FlashSr, Stm32G0FlashCr, Stm32G0FlashKeyr,
    Stm32G0FlashSr, StmDetails, StmDeviceId, StmFamily, StmFlashSize, StmLine, StmUniqueId,
    STM32F4_GPIOA_MODER, STM32F4_GPIOC_BSRR, STM32F4_GPIOE_AFRH,
};

fn f4_details(flash_kb: Option<u16>) -> StmDetails {
    StmDetails::new(
        StmDeviceId::new(0x1000_6413),
        IdCode::from_u32(0x2BA01477),
        None,
        flash_kb.map(StmFlashSize::new),
    )
}

#[test]
fn register_addresses() {
    assert_eq!(Stm32F4FlashCr::ADDRESS, 0x4002_3C10);
    assert_eq!(Stm32F4FlashSr::ADDRESS, 0x4002_3C0C);
    assert_eq!(Stm32F4FlashKeyr::ADDRESS, 0x4002_3C04);
    assert_eq!(Stm32G0FlashCr::ADDRESS, 0x4002_2014);
    assert_eq!(Stm32G0FlashSr::ADDRESS, 0x4002_2010);
    assert_eq!(Stm32G0FlashKeyr::ADDRESS, 0x4002_2008);
    assert_eq!(STM32F4_GPIOA_MODER, 0x4002_0000);
    assert_eq!(STM32F4_GPIOC_BSRR, 0x4002_0818);
    assert_eq!(STM32F4_GPIOE_AFRH, 0x4002_1024);
}

#[test]
fn f4_flash_status() {
    assert!(Stm32F4FlashSr::from(0x1_0000).busy());
    assert!(!Stm32F4FlashSr::from(0x1).busy());
    assert!(Stm32F4FlashSr::from(0x10).errors());
    assert!(Stm32F4FlashSr::from(0x100).errors());
    assert!(!Stm32F4FlashSr::from(0x1_0001).errors());
    assert_eq!(u32::from(Stm32F4FlashSr::from(0x1234)), 0x1234);
    assert_eq!(Stm32F4FlashSr::from(0x1_0000).display_string(), "0x00010000");
}

#[test]
fn g0_flash_status() {
    assert!(Stm32G0FlashSr::from(0x2_0000).busy());
    assert!(Stm32G0FlashSr::from(0x4_0000).busy());
    assert!(!Stm32G0FlashSr::from(0x1).busy());
    assert!(Stm32G0FlashSr::from(0x8).errors());
    assert!(!Stm32G0FlashSr::from(0x3).errors());
    assert_eq!(Stm32G0FlashSr::error_clear_mask(), 0x78);
    assert!(Stm32G0FlashSr::from(0x1).eop_set());
    assert!(!Stm32G0FlashSr::from(0x2).eop_set());
    assert_eq!(Stm32G0FlashSr::from(0xABCD).display_string(), "0x0000ABCD");
}

#[test]
fn g0_error_clear_mask_clears_errors() {
    for v in [0u32, 0x78, 0xFFFF_FFFF, 0x1_0048] {
        let cleared = v & !Stm32G0FlashSr::error_clear_mask();
        assert!(!Stm32G0FlashSr::from(cleared).errors());
        assert_eq!(Stm32G0FlashSr::from(v).errors(), v & Stm32G0FlashSr::error_clear_mask() != 0);
    }
}

#[test]
fn family_and_line() {
    assert!(StmFamily::F4.known());
    assert!(!StmFamily::Unknown.known());
    assert_eq!(StmFamily::G0.name(), "STM32G0");
    assert_eq!(StmLine::F4x5.ram_size_kb(), Some(128));
    assert_eq!(StmLine::F4x5.ram_size_bytes(), Some(131072));
    assert_eq!(StmLine::F4x5.ccm_ram_size_kb(), Some(64));
    assert_eq!(StmLine::F4x5.ccm_ram_size_bytes(), Some(65536));
    assert_eq!(StmLine::F103.ram_size_bytes(), Some(20480));
    assert_eq!(StmLine::F427_F437.ram_size_kb(), Some(192));
    assert_eq!(StmLine::F411.ccm_ram_size_kb(), None);
    assert_eq!(StmLine::G070_G071.ram_size_kb(), None);
    assert_eq!(StmLine::Unknown.ram_size_bytes(), None);
    assert_eq!(StmLine::F4x5.name(), "STM32F405/415/07/17");
    assert_eq!(StmLine::Unknown.name(), "Unknown STM32");
}

#[test]
fn device_id_decoding() {
    let d = StmDeviceId::new(0x1000_6413);
    assert_eq!(d.raw(), 0x1000_6413);
    assert_eq!(d.revision(), 0x1000);
    assert_eq!(d.device_id(), 0x6413);
    assert_eq!(d.family(), StmFamily::F4);
    assert_eq!(d.line(), StmLine::F4x5);
    assert_eq!(d.revision_str(), "A");
    assert!(d.is_known_device());
    let d: StmDeviceId = 0x2003_6410.into();
    assert_eq!(d.family(), StmFamily::F1);
    assert_eq!(d.line(), StmLine::F103);
    assert_eq!(d.revision_str(), "1/2/3/X/Y");
    let d = StmDeviceId::new(0x0000_0412);
    assert_eq!(d.family(), StmFamily::F1);
    assert_eq!(d.line(), StmLine::Unknown);
    assert!(!d.is_known_device());
    assert_eq!(d.revision_str(), "unknown");
    let d = StmDeviceId::new(0x1000_6460);
    assert_eq!(d.family(), StmFamily::G0);
    assert_eq!(d.line(), StmLine::G070_G071);
    assert_eq!(StmDeviceId::new(0x2003_0419).revision_str(), "4/5/B");
    assert_eq!(StmDeviceId::new(0x1001_0433).revision_str(), "1/Z");
    assert_eq!(StmDeviceId::new(0x101F_0413).revision_str(), "5/6");
}

#[test]
fn line_family_agree() {
    for dev in 0u32..0x1000 {
        let d = StmDeviceId::new(dev);
        let family_of_line = match d.line() {
            StmLine::F401BC
            | StmLine::F401DE
            | StmLine::F411
            | StmLine::F427_F437
            | StmLine::F413_F423
            | StmLine::F4x5
            | StmLine::F446 => StmFamily::F4,
            StmLine::F103 => StmFamily::F1,
            StmLine::G070_G071 => StmFamily::G0,
            StmLine::Unknown => continue,
        };
        assert_eq!(family_of_line, d.family());
    }
}

#[test]
fn device_id_display() {
    let d = StmDeviceId::new(0x1000_6413);
    assert_eq!(d.display_string(false), "STM32F405/415/07/17");
    assert_eq!(d.display_string(true), "STM32 Device ID: 0x10006413 (STM32F405/415/07/17 A)");
}

#[test]
fn unique_id_fields() {
    let uid = StmUniqueId::new([0x0012_0034, 0x4C33_5A07, 0x2037_4D41]);
    assert_eq!(uid.x_y(), 0x0012_0034);
    assert_eq!(uid.x(), 0x34);
    assert_eq!(uid.y(), 0x12);
    assert_eq!(((uid.y() as u32) << 16) | uid.x() as u32, uid.x_y());
    assert_eq!(uid.wafer(), 0x07);
    assert_eq!(uid.lot(), [0x20, 0x37, 0x4D, 0x41, 0x4C, 0x33, 0x5A]);
    assert_eq!(uid.wafer_str(), "0x07");
    assert_eq!(uid.lot_str(), ".7MAL3Z");
    assert_eq!(uid.raw(), [0x0012_0034, 0x4C33_5A07, 0x2037_4D41]);
    assert_eq!(
        uid.display_string(),
        "UID[95:0]: 0x20374D414C335A0700120034 Lot: .7MAL3Z Wafer: 0x07 X/Y: 52/18"
    );
    assert_eq!(StmUniqueId::new([0, 0xAB, 0]).wafer_str(), "0xAB");
}

#[test]
fn uid_and_flash_size_addresses() {
    assert_eq!(StmUniqueId::addr_from_family(StmFamily::F4), Some(0x1FFF_7A10));
    assert_eq!(StmUniqueId::addr_from_family(StmFamily::F1), Some(0x1FFF_F7E8));
    assert_eq!(StmUniqueId::addr_from_family(StmFamily::G0), Some(0x1FFF_7590));
    assert_eq!(StmUniqueId::addr_from_family(StmFamily::Unknown), None);
    assert_eq!(StmFlashSize::addr_from_family(StmFamily::F4), Some(0x1FFF_7A20));
    assert_eq!(StmFlashSize::addr_from_family(StmFamily::G0), Some(0x1FFF_75E0));
    assert_eq!(StmFlashSize::addr_from_family(StmFamily::Unknown), None);
}

#[test]
fn flash_size() {
    let f = StmFlashSize::new(512);
    assert_eq!(f.raw(), 512);
    assert_eq!(f.size_kb(), 512);
    assert_eq!(f.size_bytes(), 524288);
    assert_eq!(f.size_bytes(), f.size_kb() * 1024);
    assert_eq!(f.display_string(), "Flash Size: 512 KB");
    assert_eq!(StmFlashSize::new(0).display_string(), "Flash Size: 0 KB");
}

#[test]
fn details_accessors() {
    let d = f4_details(Some(512));
    assert_eq!(*d.idcode(), IdCode::from_u32(0x2BA01477));
    assert_eq!(d.get_cortex(), Some(Cortex::M4));
    assert_eq!(d.mcu().raw(), 0x1000_6413);
    assert_eq!(d.uid(), None);
    assert_eq!(d.flash_size_bytes(), Some(524288));
    assert_eq!(d.flash_size_kb(), Some(StmFlashSize::new(512)));
    assert_eq!(d.flash_base(), Some(0x0800_0000));
    assert_eq!(d.ram_base(), Some(0x2000_0000));
    assert!(d.is_stm32f4());
    assert!(!d.is_stm32f1());
    assert_eq!(d.expected_idr(), Some(Idr::from_u32(IDR_AHB_AP_CORTEX_M4)));
    assert_eq!(f4_details(None).flash_size_bytes(), None);
}

#[test]
fn details_by_family() {
    let f1 = StmDetails::new(StmDeviceId::new(0x2003_6410), IdCode::from_u32(0x1BA01477), None, None);
    assert!(f1.is_stm32f1());
    assert_eq!(f1.expected_idr(), None);
    let g0 = StmDetails::new(StmDeviceId::new(0x1000_6460), IdCode::from_u32(0x0BC11477), None, None);
    assert_eq!(g0.expected_idr(), None);
    assert_eq!(g0.flash_base(), Some(0x0800_0000));
    assert_eq!(g0.ram_base(), Some(0x2000_0000));
    let unknown = StmDetails::new(StmDeviceId::new(0x0000_0999), IdCode::from_u32(0), None, None);
    assert_eq!(unknown.expected_idr(), None);
    assert_eq!(unknown.flash_base(), None);
    assert_eq!(unknown.ram_base(), None);
    assert_eq!(unknown.get_cortex(), None);
}

#[test]
fn details_display() {
    let uid = StmUniqueId::new([0x0012_0034, 0x4C33_5A07, 0x2037_4D41]);
    let d = StmDetails::new(
        StmDeviceId::new(0x1000_6413),
        IdCode::from_u32(0x2BA01477),
        Some(uid),
        Some(StmFlashSize::new(1024)),
    );
    assert_eq!(d.display_string(false), "STM32F405/415/07/17");
    assert_eq!(
        d.display_string(true),
        "STM32 Device ID: 0x10006413 (STM32F405/415/07/17 A) 1024 KB UID[95:0]: 0x20374D414C335A0700120034 Lot: .7MAL3Z Wafer: 0x07 X/Y: 52/18"
    );
    let d = f4_details(None);
    assert_eq!(
        d.display_string(true),
        "STM32 Device ID: 0x10006413 (STM32F405/415/07/17 A) Flash Size: unknown  UID: unknown "
    );
}

#[test]
fn sector_sizes() {
    let d = f4_details(Some(512));
    assert_eq!(d.get_sector_size_bytes(0), Some(16384));
    assert_eq!(d.get_sector_size_bytes(3), Some(65536));
    assert_eq!(d.get_sector_size_bytes(4), Some(131072));
    assert_eq!(d.get_sector_size_bytes(6), Some(131072));
    assert_eq!(d.get_sector_size_bytes(7), None);
    assert_eq!(d.get_sector_size_bytes(12), None);
    assert_eq!(d.get_sector_size_kb(3), Some(64));
    assert_eq!(d.get_sector_size_kb(7), None);
    let big = f4_details(Some(2048));
    assert_eq!(big.get_sector_size_bytes(11), Some(131072));
    assert_eq!(big.get_sector_size_bytes(12), None);
    assert_eq!(f4_details(None).get_sector_size_bytes(0), None);
    let f1 = StmDetails::new(StmDeviceId::new(0x2003_6410), IdCode::from_u32(0), None, Some(StmFlashSize::new(512)));
    assert_eq!(f1.get_sector_size_bytes(0), None);
}

#[test]
fn sectors_from_word_range() {
    let d = f4_details(Some(512));
    let mut sectors = [0xFFu8; 12];
    assert_eq!(d.get_sectors_from_word_range(0..=0, &mut sectors), Some(1));
    assert_eq!(sectors[0], 0);
    assert_eq!(sectors[1], 0xFF);

    let mut sectors = [0xFFu8; 12];
    assert_eq!(d.get_sectors_from_word_range(4095..=4096, &mut sectors), Some(2));
    assert_eq!(&sectors[..2], &[0, 1]);

    let mut sectors = [0xFFu8; 12];
    assert_eq!(d.get_sectors_from_word_range(0..=32767, &mut sectors), Some(5));
    assert_eq!(&sectors[..5], &[0, 1, 2, 3, 4]);
    assert_eq!(sectors[5], 0xFF);

    let mut sectors = [0xFFu8; 12];
    assert_eq!(d.get_sectors_from_word_range(131071..=131071, &mut sectors), Some(1));
    assert_eq!(sectors[0], 7);

    let mut sectors = [0xFFu8; 12];
    assert_eq!(d.get_sectors_from_word_range(5..=4, &mut sectors), None);
    assert_eq!(d.get_sectors_from_word_range(0..=131072, &mut sectors), None);
    assert_eq!(f4_details(None).get_sectors_from_word_range(0..=0, &mut sectors), None);
    assert_eq!(sectors, [0xFFu8; 12]);
}
