use embedded_web_ui::logs::{log_tables, TableError, frame_step, locations_if_complete, route_log, DecodeOutcome, FrameStep, LogRoute};
use embedded_web_ui::Log;
use std::collections::BTreeMap;

#[test]
fn log_routes() {
    let elf = [0x7fu8, b'E', b'L', b'F'];
    let pkt = [1u8, 2];
    assert_eq!(route_log(Log::Elf(&elf), false), LogRoute::NewDecoder(&elf));
    assert_eq!(route_log(Log::Elf(&elf), true), LogRoute::NewDecoder(&elf));
    assert_eq!(route_log(Log::Packet(&pkt), true), LogRoute::Feed(&pkt));
    assert_eq!(route_log(Log::Packet(&pkt), false), LogRoute::NoDecoder);
}

#[test]
fn frame_steps() {
    assert_eq!(frame_step(DecodeOutcome::Frame, false, false, false), FrameStep::Forward);
    assert_eq!(frame_step(DecodeOutcome::UnexpectedEof, true, true, true), FrameStep::Stop);
    assert_eq!(frame_step(DecodeOutcome::Malformed, false, true, true), FrameStep::Fail);
    assert_eq!(frame_step(DecodeOutcome::Malformed, true, false, false), FrameStep::Skip { report: false });
    assert_eq!(frame_step(DecodeOutcome::Malformed, true, true, false), FrameStep::Skip { report: true });
    assert_eq!(frame_step(DecodeOutcome::Malformed, true, false, true), FrameStep::Skip { report: true });
}

#[test]
fn locations_kept_only_when_complete() {
    let mut locs = BTreeMap::new();
    locs.insert(1u64, "a");
    locs.insert(4u64, "b");
    assert_eq!(locations_if_complete(&[1, 4], locs.clone()), Some(locs.clone()));
    assert_eq!(locations_if_complete(&[], locs.clone()), Some(locs.clone()));
    assert_eq!(locations_if_complete(&[1, 2, 4], locs), None);
}

#[test]
fn unreadable_firmware_image() {
    match log_tables(b"not an ELF file") {
        Err(TableError::Unparsable(_)) => {}
        Err(e) => panic!("unexpected error {e:?}"),
        Ok(_) => panic!("garbage parsed as a firmware image"),
    }
}

#[test]
fn garbage_image_addresses_are_fine() {
    assert!(embedded_web_ui::logs::defmt_addresses_in_range(b"not an ELF file"));
    assert!(embedded_web_ui::logs::defmt_addresses_in_range(&[]));
}
