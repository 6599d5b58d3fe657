use cameleon::gige::cmd::{
    CommandData, CommandFlag, CommandPacket, Discovery, PacketResend, ReadMem, ReadReg, WriteMem,
    WriteReg, WriteRegEntry,
};
use cameleon::gige::Error;

fn bytes_of<T: CommandData>(packet: &CommandPacket<T>) -> Vec<u8> {
    let mut buf = Vec::new();
    packet.serialize(&mut buf);
    buf
}

#[test]
fn discovery_command_bytes() {
    let packet = Discovery::new().finalize(0xffff);
    assert_eq!(bytes_of(&packet), vec![0x42, 0x80, 0x00, 0x02, 0x00, 0x00, 0xff, 0xff]);
    assert_eq!(packet.length(), 0);
}

#[test]
fn discovery_broadcast_flag() {
    let mut d = Discovery::new();
    d.set_bloadcast(true);
    let packet = d.finalize(1);
    assert_eq!(bytes_of(&packet)[1], 0x88);
}

#[test]
fn read_reg_command_bytes() {
    let mut cmd = ReadReg::new();
    cmd.add_entry(0x0a00).unwrap();
    cmd.add_entry(0x0004).unwrap();
    let packet = cmd.finalize(7);
    assert_eq!(
        bytes_of(&packet),
        vec![0x42, 0x80, 0x00, 0x80, 0x00, 0x08, 0x00, 0x07, 0, 0, 0x0a, 0x00, 0, 0, 0, 0x04]
    );
}

#[test]
fn read_reg_refuses_unaligned_and_too_many() {
    let mut cmd = ReadReg::new();
    assert!(matches!(cmd.add_entry(3), Err(Error::InvalidPacket(_))));
    for i in 0..135 {
        cmd.add_entry(i * 4).unwrap();
    }
    assert!(matches!(cmd.add_entry(0), Err(Error::InvalidPacket(_))));
}

#[test]
fn write_reg_command_bytes_and_length() {
    let mut cmd = WriteReg::new();
    cmd.add_entry(WriteRegEntry::new(0x0938, 0x0000_1388).unwrap()).unwrap();
    let packet = cmd.finalize(2);
    // Each entry counts 64 in the length field.
    assert_eq!(packet.length(), 64);
    assert_eq!(
        bytes_of(&packet),
        vec![0x42, 0x80, 0x00, 0x82, 0x00, 0x40, 0x00, 0x02, 0, 0, 0x09, 0x38, 0, 0, 0x13, 0x88]
    );
}

#[test]
fn write_reg_without_ack() {
    let mut cmd = WriteReg::new();
    cmd.set_need_ack(false);
    let packet = cmd.finalize(2);
    assert_eq!(bytes_of(&packet)[1], 0x00);
}

#[test]
fn write_reg_entry_refuses_unaligned_address() {
    assert!(matches!(WriteRegEntry::new(2, 0), Err(Error::InvalidPacket(_))));
}

#[test]
fn write_reg_refuses_more_than_67_entries() {
    let mut cmd = WriteReg::new();
    for i in 0..67 {
        cmd.add_entry(WriteRegEntry::new(i * 4, i).unwrap()).unwrap();
    }
    assert!(matches!(
        cmd.add_entry(WriteRegEntry::new(0, 0).unwrap()),
        Err(Error::InvalidPacket(_))
    ));
}

#[test]
fn read_mem_command_bytes() {
    let packet = ReadMem::new(0x1000, 8).unwrap().finalize(3);
    assert_eq!(
        bytes_of(&packet),
        vec![0x42, 0x00, 0x00, 0x84, 0x00, 0x06, 0x00, 0x03, 0, 0, 0x10, 0x00, 0x00, 0x08]
    );
}

#[test]
fn read_mem_alignment_and_length() {
    // Refused only when neither the address nor the length is a multiple of 4.
    assert!(matches!(ReadMem::new(1, 3), Err(Error::InvalidPacket(_))));
    assert!(ReadMem::new(1, 4).is_ok());
    assert!(ReadMem::new(4, 3).is_ok());
    assert!(matches!(ReadMem::new(0, 540), Err(Error::InvalidPacket(_))));
    assert!(ReadMem::new(0, 536).is_ok());
}

#[test]
fn write_mem_command_bytes() {
    let data = [1u8, 2, 3, 4];
    let packet = WriteMem::new(0x20, &data).unwrap().finalize(4);
    assert_eq!(packet.length(), 36);
    assert_eq!(
        bytes_of(&packet),
        vec![0x42, 0x80, 0x00, 0x86, 0x00, 0x24, 0x00, 0x04, 0, 0, 0, 0x20, 1, 2, 3, 4]
    );
}

#[test]
fn write_mem_refuses_bad_input() {
    let data = [0u8; 4];
    assert!(matches!(WriteMem::new(2, &data), Err(Error::InvalidPacket(_))));
    let big = vec![0u8; 537];
    assert!(matches!(WriteMem::new(0, &big), Err(Error::InvalidPacket(_))));
}

#[test]
fn packet_resend_extended() {
    let packet = PacketResend::with_extended_id(1, 2, 3, 0x0102_0304_0506_0708).finalize(9);
    assert_eq!(packet.length(), 160);
    assert_eq!(
        bytes_of(&packet),
        vec![
            0x42, 0x08, 0x00, 0x40, 0x00, 0xa0, 0x00, 0x09, 0, 1, 0, 0, 0, 0, 0, 2, 0, 0, 0, 3, 1,
            2, 3, 4, 5, 6, 7, 8
        ]
    );
}

#[test]
fn packet_resend_unextended_id_limit() {
    assert!(matches!(
        PacketResend::with_unextended_id(0, 0x100_0000, 0, 1),
        Err(Error::InvalidPacket(_))
    ));
    // The command is built with the extended id flag, as the extended one.
    let packet = PacketResend::with_unextended_id(0, 1, 2, 3).unwrap().finalize(1);
    assert_eq!(bytes_of(&packet)[1], 0x08);
}

#[test]
fn command_flag_bits() {
    let flag = CommandFlag::new().set_bit(3).need_ack();
    assert_eq!(flag.0, 0x88);
    assert_eq!(flag.clear_bit(7).0, 0x08);
    let mut buf = Vec::new();
    flag.serialize(&mut buf);
    assert_eq!(buf, vec![0x88]);
}
