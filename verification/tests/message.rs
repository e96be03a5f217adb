use lunaris::ids::{get_next, IdAllocator};
use lunaris::message::{
    CEnvelope, CMessage, Data, DataEnum, DataType, Envelope, FFIData, FFIPeek, Message,
};
use lunaris::opcode::{is_reserved_opcode, Basic, Sys};
use lunaris::version::Version;

#[test]
fn ids_are_sequential_within_a_process() {
    let mut ids = IdAllocator::new();
    assert_eq!(get_next(&mut ids), 0);
    assert_eq!(get_next(&mut ids), 1);
    assert_eq!(get_next(&mut ids), 2);
}

#[test]
fn two_envelopes_get_distinct_ids() {
    let mut ids = IdAllocator::new();
    let first = Envelope::new(&mut ids, 1, 2, false, Message { opcode: 0, data: DataEnum::Empty });
    let second = Envelope::new(&mut ids, 1, 2, false, Message { opcode: 0, data: DataEnum::Empty });
    assert_ne!(first.id, second.id);
}

#[test]
fn envelope_new_keeps_its_fields() {
    let mut ids = IdAllocator::new();
    let envelope = Envelope::new(
        &mut ids,
        3,
        4,
        true,
        Message { opcode: 9, data: DataEnum::Code(77) },
    );
    assert_eq!(envelope.source, 3);
    assert_eq!(envelope.destination, 4);
    assert!(envelope.require_ack);
    assert_eq!(envelope.message.opcode, 9);
    assert!(matches!(envelope.message.data, DataEnum::Code(77)));
}

#[test]
fn clone_empty_strips_the_payload_only() {
    let mut ids = IdAllocator::new();
    let envelope = Envelope::new(
        &mut ids,
        3,
        4,
        true,
        Message { opcode: 9, data: DataEnum::Bytes(vec![1, 2, 3]) },
    );
    let header = envelope.clone_empty();
    assert_eq!(header.id, envelope.id);
    assert_eq!(header.source, 3);
    assert_eq!(header.destination, 4);
    assert!(header.require_ack);
    assert_eq!(header.message.opcode, 9);
    assert!(matches!(header.message.data, DataEnum::Empty));
}

#[test]
fn promotion_preserves_header_and_code_payload() {
    let c = CEnvelope::new(41, 7, 8, true, CMessage { opcode: 512, data: Data::Code(99) });
    let native = Envelope::from(c);
    assert_eq!(native.id, 41);
    assert_eq!(native.source, 7);
    assert_eq!(native.destination, 8);
    assert!(native.require_ack);
    assert_eq!(native.message.opcode, 512);
    assert!(matches!(native.message.data, DataEnum::Code(99)));
}

#[test]
fn promotion_keeps_empty_and_foreign_payload_semantics() {
    let empty = Envelope::from(CEnvelope::new(
        1,
        0,
        0,
        false,
        CMessage { opcode: 0, data: Data::Empty },
    ));
    assert!(matches!(empty.message.data, DataEnum::Empty));

    let peek = Envelope::from(CEnvelope::new(
        2,
        0,
        0,
        false,
        CMessage { opcode: 0, data: Data::FfiPeek(FFIPeek { addr: 0x1000, len: 16 }) },
    ));
    match peek.message.data {
        DataEnum::FfiPeek(p) => {
            assert_eq!(p.addr, 0x1000);
            assert_eq!(p.len, 16);
        }
        other => panic!("expected a borrowed foreign payload, got {:?}", other),
    }

    let owned = Envelope::from(CEnvelope::new(
        3,
        0,
        0,
        false,
        CMessage { opcode: 0, data: Data::FfiData(FFIData { addr: 0x2000, len: 32 }) },
    ));
    match owned.message.data {
        DataEnum::FfiData(d) => {
            assert_eq!(d.addr, 0x2000);
            assert_eq!(d.len, 32);
        }
        other => panic!("expected an owned foreign payload, got {:?}", other),
    }
}

#[test]
fn payload_tags_match_the_wire_values() {
    assert_eq!(Data::Empty.tag().code(), 0);
    assert_eq!(Data::Code(1).tag().code(), 1);
    assert_eq!(Data::FfiPeek(FFIPeek { addr: 1, len: 1 }).tag().code(), 2);
    assert_eq!(Data::FfiData(FFIData { addr: 1, len: 1 }).tag().code(), 3);
}

#[test]
fn tag_bytes_read_back_exactly() {
    assert_eq!(DataType::from_u8(0), Some(DataType::Empty));
    assert_eq!(DataType::from_u8(1), Some(DataType::Code));
    assert_eq!(DataType::from_u8(2), Some(DataType::FfiPeek));
    assert_eq!(DataType::from_u8(3), Some(DataType::FfiData));
    assert_eq!(DataType::from_u8(4), None);
    assert_eq!(DataType::from_u8(255), None);
}

#[test]
fn force_cast_accepts_exactly_fitting_aligned_buffers() {
    let ok = FFIData { addr: 0x1000, len: 8 };
    assert_eq!(ok.force_cast(8, 8), Some(0x1000));
}

#[test]
fn force_cast_refuses_null_missized_and_misaligned() {
    assert_eq!(FFIData { addr: 0, len: 8 }.force_cast(8, 8), None);
    assert_eq!(FFIData { addr: 0x1000, len: 4 }.force_cast(8, 8), None);
    assert_eq!(FFIData { addr: 0x1001, len: 8 }.force_cast(8, 8), None);
}

#[test]
fn reserved_opcode_space_ends_at_1023() {
    assert!(is_reserved_opcode(0));
    assert!(is_reserved_opcode(1023));
    assert!(!is_reserved_opcode(1024));
}

#[test]
fn basic_opcodes_carry_their_wire_values() {
    assert_eq!(Basic::NOOP.code(), 0);
    assert_eq!(Basic::INIT.code(), 1);
    assert_eq!(Basic::TICK.code(), 2);
    assert_eq!(Basic::RESET.code(), 3);
    assert_eq!(Basic::from_u32(2), Some(Basic::TICK));
    assert_eq!(Basic::from_u32(4), None);
}

#[test]
fn sys_opcodes_carry_their_wire_values() {
    assert_eq!(Sys::LOAD_PLUGIN.code(), 8);
    assert_eq!(Sys::PROBE.code(), 9);
    assert_eq!(Sys::from_u32(8), Some(Sys::LOAD_PLUGIN));
    assert_eq!(Sys::from_u32(9), Some(Sys::PROBE));
    assert_eq!(Sys::from_u32(10), None);
}

#[test]
fn version_renders_its_full_form() {
    let version = Version::new("1.2.3-beta".to_owned(), 1, 2, 3, Some("beta".to_owned()));
    assert_eq!(version.render(), "1.2.3-beta");
    assert_eq!(version.major, 1);
    assert_eq!(version.minor, 2);
    assert_eq!(version.patch, 3);
}
