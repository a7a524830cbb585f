use vhost::vhost_user::message::{
    FrontendReq as Wire, VhostUserLog as WireLog, VhostUserMemory as WireMemory,
    VhostUserProtocolFeatures as Features, VhostUserSingleMemoryRegion as WireRegion,
    VhostUserTransferDeviceState as WireTransfer, MAX_MSG_SIZE,
};
use vhost_devices::byte_order::{read_le16, ByteOrder};
use vhost_devices::error::Refusal;
use vhost_devices::host::{access_with, classify_file_flags, classify_socket_errno, OpenFlags, SocketFailure};
use vhost_devices::message::{
    read_header, read_log, read_region, read_single_region, read_transfer, read_u64_body,
    supported_protocol_features, FrontendReq, VhostUserMsgHeader, LOG_SIZE, MEMORY_SIZE,
    SINGLE_MEMORY_REGION_SIZE, TRANSFER_DEVICE_STATE_SIZE,
};
use vm_memory::ByteValued;

#[test]
fn byte_order_is_that_of_the_machine() {
    let bytes = 0x0102_0304u32.to_ne_bytes();
    assert_eq!(ByteOrder::native().read_u32(&bytes, 0), 0x0102_0304);
    let bytes = 0x0102_0304_0506_0708u64.to_ne_bytes();
    assert_eq!(ByteOrder::native().read_u64(&bytes, 0), 0x0102_0304_0506_0708);
}

#[test]
fn byte_order_follows_from_the_probe() {
    assert_eq!(ByteOrder::from_probe(u16::from_le_bytes([1, 0])), ByteOrder::Little);
    assert_eq!(ByteOrder::from_probe(u16::from_be_bytes([1, 0])), ByteOrder::Big);
    assert_eq!(ByteOrder::native(), ByteOrder::from_probe(u16::from_ne_bytes([1, 0])));
}

#[test]
fn numbers_are_read_in_both_orders() {
    let bytes = [9, 1, 2, 3, 4, 5, 6, 7, 8];
    assert_eq!(ByteOrder::Little.read_u32(&bytes, 1), 0x0403_0201);
    assert_eq!(ByteOrder::Big.read_u32(&bytes, 1), 0x0102_0304);
    assert_eq!(ByteOrder::Little.read_u64(&bytes, 1), 0x0807_0605_0403_0201);
    assert_eq!(ByteOrder::Big.read_u64(&bytes, 1), 0x0102_0304_0506_0708);
    assert_eq!(read_le16(&bytes, 1), 0x0201);
}

#[test]
fn numbers_read_back_as_written() {
    for order in [ByteOrder::Little, ByteOrder::Big] {
        let mut bytes = [0xaau8; 10];
        order.write_u64(&mut bytes, 1, 0xfedc_ba98_7654_3210);
        assert_eq!(order.read_u64(&bytes, 1), 0xfedc_ba98_7654_3210);
        assert_eq!((bytes[0], bytes[9]), (0xaa, 0xaa));
        order.write_u32(&mut bytes, 2, 0x89ab_cdef);
        assert_eq!(order.read_u32(&bytes, 2), 0x89ab_cdef);
    }
    let mut bytes = [0u8; 4];
    ByteOrder::Little.write_u32(&mut bytes, 0, 0x0102_0304);
    assert_eq!(bytes, [4, 3, 2, 1]);
    ByteOrder::Big.write_u32(&mut bytes, 0, 0x0102_0304);
    assert_eq!(bytes, [1, 2, 3, 4]);
}

#[test]
fn request_codes_are_those_of_the_protocol() {
    let pairs = [
        (FrontendReq::GET_FEATURES, Wire::GET_FEATURES),
        (FrontendReq::SET_FEATURES, Wire::SET_FEATURES),
        (FrontendReq::SET_OWNER, Wire::SET_OWNER),
        (FrontendReq::RESET_OWNER, Wire::RESET_OWNER),
        (FrontendReq::SET_MEM_TABLE, Wire::SET_MEM_TABLE),
        (FrontendReq::SET_LOG_BASE, Wire::SET_LOG_BASE),
        (FrontendReq::SET_LOG_FD, Wire::SET_LOG_FD),
        (FrontendReq::SET_VRING_NUM, Wire::SET_VRING_NUM),
        (FrontendReq::SET_VRING_ADDR, Wire::SET_VRING_ADDR),
        (FrontendReq::SET_VRING_BASE, Wire::SET_VRING_BASE),
        (FrontendReq::GET_VRING_BASE, Wire::GET_VRING_BASE),
        (FrontendReq::SET_VRING_KICK, Wire::SET_VRING_KICK),
        (FrontendReq::SET_VRING_CALL, Wire::SET_VRING_CALL),
        (FrontendReq::SET_VRING_ERR, Wire::SET_VRING_ERR),
        (FrontendReq::GET_PROTOCOL_FEATURES, Wire::GET_PROTOCOL_FEATURES),
        (FrontendReq::SET_PROTOCOL_FEATURES, Wire::SET_PROTOCOL_FEATURES),
        (FrontendReq::GET_QUEUE_NUM, Wire::GET_QUEUE_NUM),
        (FrontendReq::SET_VRING_ENABLE, Wire::SET_VRING_ENABLE),
        (FrontendReq::SEND_RARP, Wire::SEND_RARP),
        (FrontendReq::NET_SET_MTU, Wire::NET_SET_MTU),
        (FrontendReq::SET_BACKEND_REQ_FD, Wire::SET_BACKEND_REQ_FD),
        (FrontendReq::IOTLB_MSG, Wire::IOTLB_MSG),
        (FrontendReq::SET_VRING_ENDIAN, Wire::SET_VRING_ENDIAN),
        (FrontendReq::GET_CONFIG, Wire::GET_CONFIG),
        (FrontendReq::SET_CONFIG, Wire::SET_CONFIG),
        (FrontendReq::CREATE_CRYPTO_SESSION, Wire::CREATE_CRYPTO_SESSION),
        (FrontendReq::CLOSE_CRYPTO_SESSION, Wire::CLOSE_CRYPTO_SESSION),
        (FrontendReq::POSTCOPY_ADVISE, Wire::POSTCOPY_ADVISE),
        (FrontendReq::POSTCOPY_LISTEN, Wire::POSTCOPY_LISTEN),
        (FrontendReq::POSTCOPY_END, Wire::POSTCOPY_END),
        (FrontendReq::GET_INFLIGHT_FD, Wire::GET_INFLIGHT_FD),
        (FrontendReq::SET_INFLIGHT_FD, Wire::SET_INFLIGHT_FD),
        (FrontendReq::GPU_SET_SOCKET, Wire::GPU_SET_SOCKET),
        (FrontendReq::RESET_DEVICE, Wire::RESET_DEVICE),
        (FrontendReq::VRING_KICK, Wire::VRING_KICK),
        (FrontendReq::GET_MAX_MEM_SLOTS, Wire::GET_MAX_MEM_SLOTS),
        (FrontendReq::ADD_MEM_REG, Wire::ADD_MEM_REG),
        (FrontendReq::REM_MEM_REG, Wire::REM_MEM_REG),
        (FrontendReq::SET_STATUS, Wire::SET_STATUS),
        (FrontendReq::GET_STATUS, Wire::GET_STATUS),
        (FrontendReq::GET_SHARED_OBJECT, Wire::GET_SHARED_OBJECT),
        (FrontendReq::SET_DEVICE_STATE_FD, Wire::SET_DEVICE_STATE_FD),
        (FrontendReq::CHECK_DEVICE_STATE, Wire::CHECK_DEVICE_STATE),
        (FrontendReq::GET_SHMEM_CONFIG, Wire::GET_SHMEM_CONFIG),
    ];
    for (index, (ours, wire)) in pairs.into_iter().enumerate() {
        assert_eq!(ours.code(), u32::from(wire));
        assert_eq!(ours.code(), index as u32 + 1);
        assert_eq!(FrontendReq::from_code(ours.code()), Some(ours));
    }
}

#[test]
fn unknown_codes_are_no_requests() {
    assert_eq!(FrontendReq::from_code(0), None);
    assert_eq!(FrontendReq::from_code(45), None);
    assert_eq!(FrontendReq::from_code(u32::MAX), None);
}

#[test]
fn supported_features_are_those_of_the_protocol() {
    let wanted = Features::MQ
        | Features::LOG_SHMFD
        | Features::RARP
        | Features::MTU
        | Features::CROSS_ENDIAN
        | Features::CRYPTO_SESSION
        | Features::CONFIG
        | Features::RESET_DEVICE
        | Features::CONFIGURE_MEM_SLOTS
        | Features::STATUS;
    assert_eq!(supported_protocol_features(), wanted.bits());
    assert_eq!(supported_protocol_features(), 0x1_a2d7);
}

#[test]
fn header_has_three_fields() {
    let bytes = [5, 0, 0, 0, 9, 0, 0, 0, 0, 1, 0, 0, 77];
    let hdr = read_header(ByteOrder::Little, &bytes);
    assert_eq!(hdr, VhostUserMsgHeader { request: 5, flags: 9, size: 256 });
    assert_eq!(VhostUserMsgHeader::default(), VhostUserMsgHeader { request: 0, flags: 0, size: 0 });
}

#[test]
fn bodies_have_one_length() {
    let order = ByteOrder::Little;
    let bytes: Vec<u8> = (0..48).collect();
    assert_eq!(read_u64_body(order, &bytes[..8]), Some(0x0706_0504_0302_0100));
    assert_eq!(read_u64_body(order, &bytes[..7]), None);
    assert_eq!(read_u64_body(order, &bytes[..9]), None);
    let region = read_region(order, &bytes, 8);
    assert_eq!(region.guest_phys_addr, 0x0f0e_0d0c_0b0a_0908);
    assert_eq!(region.memory_size, 0x1716_1514_1312_1110);
    assert_eq!(region.user_addr, 0x1f1e_1d1c_1b1a_1918);
    assert_eq!(region.mmap_offset, 0x2726_2524_2322_2120);
    assert_eq!(read_single_region(order, &bytes[..40]), Some(region));
    assert_eq!(read_single_region(order, &bytes[..39]), None);
    let log = read_log(order, &bytes[..16]).unwrap();
    assert_eq!((log.mmap_size, log.mmap_offset), (0x0706_0504_0302_0100, 0x0f0e_0d0c_0b0a_0908));
    assert_eq!(read_log(order, &bytes[..15]), None);
    let transfer = read_transfer(order, &[1, 0, 0, 0, 2, 0, 0, 0]).unwrap();
    assert_eq!((transfer.direction, transfer.phase), (1, 2));
    assert_eq!(read_transfer(order, &bytes[..9]), None);
}

#[test]
fn socket_failures_are_told_apart() {
    assert_eq!(classify_socket_errno(libc::EAGAIN), SocketFailure::WouldBlock);
    assert_eq!(classify_socket_errno(libc::EWOULDBLOCK), SocketFailure::WouldBlock);
    assert_eq!(classify_socket_errno(libc::EINTR), SocketFailure::Interrupted);
    assert_eq!(classify_socket_errno(libc::EPIPE), SocketFailure::Fatal);
    assert_eq!(classify_socket_errno(0), SocketFailure::Fatal);
}

#[test]
fn file_flags_tell_the_access() {
    let access = classify_file_flags(libc::O_RDONLY | libc::O_NONBLOCK);
    assert!(access.readable && !access.writable);
    let access = classify_file_flags(libc::O_WRONLY);
    assert!(!access.readable && access.writable);
    let access = classify_file_flags(libc::O_RDWR | libc::O_APPEND);
    assert!(access.readable && access.writable);
    let access = classify_file_flags(3);
    assert!(!access.readable && !access.writable);
    let wide = OpenFlags { accmode: 0x20_0003, rdonly: 0, wronly: 1, rdwr: 2 };
    let access = access_with(wide, 0x20_0000);
    assert!(!access.readable && !access.writable);
}

#[test]
fn refusals_are_said_in_words() {
    assert_eq!(Refusal::BackendRequestFdAlreadySent.message(), "Backend request FD already sent");
    assert_eq!(Refusal::DuplicateLogMapping.message(), "Duplicate log mapping");
    assert_eq!(Refusal::InboundMigrationFdAlreadySet.message(), "Inbound migration FD already set");
    assert_eq!(Refusal::OutboundMigrationFdAlreadySet.message(), "Outbound migration FD already set");
}

#[test]
fn layouts_are_those_of_the_protocol() {
    let order = ByteOrder::native();
    let memory = WireMemory::new(3);
    assert_eq!(memory.as_slice().len(), MEMORY_SIZE);
    assert_eq!(order.read_u32(memory.as_slice(), 0), 3);
    let region = WireRegion::new(1, 2, 3, 4);
    assert_eq!(region.as_slice().len(), SINGLE_MEMORY_REGION_SIZE);
    let read = read_single_region(order, region.as_slice()).unwrap();
    assert_eq!((read.guest_phys_addr, read.memory_size), (1, 2));
    assert_eq!((read.user_addr, read.mmap_offset), (3, 4));
    let log = WireLog::new(5, 6);
    assert_eq!(log.as_slice().len(), LOG_SIZE);
    let read = read_log(order, log.as_slice()).unwrap();
    assert_eq!((read.mmap_size, read.mmap_offset), (5, 6));
    let transfer = WireTransfer { direction: 1, phase: 7 };
    assert_eq!(transfer.as_slice().len(), TRANSFER_DEVICE_STATE_SIZE);
    let read = read_transfer(order, transfer.as_slice()).unwrap();
    assert_eq!((read.direction, read.phase), (1, 7));
    assert_eq!(MAX_MSG_SIZE, 0x1000);
}
