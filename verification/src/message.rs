//! The messages of the vhost-user protocol.

use crate::byte_order::{law_bytes_are_digits, law_halves_make_the_whole, u32_at, u64_at, ByteOrder};
use vhost::vhost_user::message::{
    FrontendReq as VhostFrontendReq, VhostUserHeaderFlag, VhostUserProtocolFeatures, MAX_MSG_SIZE,
};
use vstd::prelude::*;

verus! {

/// The length of a message header.
pub const HEADER_SIZE: usize = 12;

/// The length of the fixed part of a memory table.
pub const MEMORY_SIZE: usize = 8;

/// The length of one region in a memory table.
pub const MEMORY_REGION_SIZE: usize = 32;

/// The length of a region in a message of its own.
pub const SINGLE_MEMORY_REGION_SIZE: usize = 40;

/// The length of a log description.
pub const LOG_SIZE: usize = 16;

/// The length of a transfer description.
pub const TRANSFER_DEVICE_STATE_SIZE: usize = 8;

/// The longest body that a message may have.
pub open spec fn msg_size_limit() -> int {
    0x1000
}

/// The constant `vhost::vhost_user::message::MAX_MSG_SIZE`, which is 4096.
#[verifier::external_body]
pub(crate) fn max_msg_size() -> (limit: usize)
    ensures
        limit == msg_size_limit(),
{
    MAX_MSG_SIZE
}

/// The constant `VhostUserHeaderFlag::NEED_REPLY` of the `vhost` crate, bit 3.
#[verifier::external_body]
pub(crate) fn need_reply_flag() -> (flag: u32)
    ensures
        flag == 8,
{
    VhostUserHeaderFlag::NEED_REPLY.bits()
}

/// The protocol features that a device backend can pass on.
#[derive(Clone, Copy)]
pub struct FeatureBits {
    pub mq: u64,
    pub log_shmfd: u64,
    pub rarp: u64,
    pub mtu: u64,
    pub cross_endian: u64,
    pub crypto_session: u64,
    pub config: u64,
    pub reset_device: u64,
    pub configure_mem_slots: u64,
    pub status: u64,
}

/// The constants of those names of `VhostUserProtocolFeatures` in the `vhost`
/// crate, one bit each.
#[verifier::external_body]
fn protocol_feature_bits() -> (bits: FeatureBits)
    ensures
        bits.mq == 1,
        bits.log_shmfd == 2,
        bits.rarp == 4,
        bits.mtu == 0x10,
        bits.cross_endian == 0x40,
        bits.crypto_session == 0x80,
        bits.config == 0x200,
        bits.reset_device == 0x2000,
        bits.configure_mem_slots == 0x8000,
        bits.status == 0x1_0000,
{
    FeatureBits {
        mq: VhostUserProtocolFeatures::MQ.bits(),
        log_shmfd: VhostUserProtocolFeatures::LOG_SHMFD.bits(),
        rarp: VhostUserProtocolFeatures::RARP.bits(),
        mtu: VhostUserProtocolFeatures::MTU.bits(),
        cross_endian: VhostUserProtocolFeatures::CROSS_ENDIAN.bits(),
        crypto_session: VhostUserProtocolFeatures::CRYPTO_SESSION.bits(),
        config: VhostUserProtocolFeatures::CONFIG.bits(),
        reset_device: VhostUserProtocolFeatures::RESET_DEVICE.bits(),
        configure_mem_slots: VhostUserProtocolFeatures::CONFIGURE_MEM_SLOTS.bits(),
        status: VhostUserProtocolFeatures::STATUS.bits(),
    }
}

/// The protocol features that may be negotiated: the bits 0, 1, 2, 4, 6, 7, 9,
/// 13, 15 and 16.
pub open spec fn supported_features() -> u64 {
    0x1_a2d7
}

/// The protocol features that may be negotiated.
pub fn supported_protocol_features() -> (features: u64)
    ensures
        features == supported_features(),
{
    let b = protocol_feature_bits();
    assert(1u64 | 2u64 | 4u64 | 0x10u64 | 0x40u64 | 0x80u64 | 0x200u64 | 0x2000u64 | 0x8000u64 | 0x1_0000u64
        == 0x1_a2d7u64) by (bit_vector);
    b.mq | b.log_shmfd | b.rarp | b.mtu | b.cross_endian | b.crypto_session | b.config | b.reset_device
        | b.configure_mem_slots | b.status
}

/// The requests that a frontend sends to a backend.
#[allow(non_camel_case_types)]
#[derive(Clone, Copy, Debug, PartialEq, Eq, Structural)]
pub enum FrontendReq {
    GET_FEATURES,
    SET_FEATURES,
    SET_OWNER,
    RESET_OWNER,
    SET_MEM_TABLE,
    SET_LOG_BASE,
    SET_LOG_FD,
    SET_VRING_NUM,
    SET_VRING_ADDR,
    SET_VRING_BASE,
    GET_VRING_BASE,
    SET_VRING_KICK,
    SET_VRING_CALL,
    SET_VRING_ERR,
    GET_PROTOCOL_FEATURES,
    SET_PROTOCOL_FEATURES,
    GET_QUEUE_NUM,
    SET_VRING_ENABLE,
    SEND_RARP,
    NET_SET_MTU,
    SET_BACKEND_REQ_FD,
    IOTLB_MSG,
    SET_VRING_ENDIAN,
    GET_CONFIG,
    SET_CONFIG,
    CREATE_CRYPTO_SESSION,
    CLOSE_CRYPTO_SESSION,
    POSTCOPY_ADVISE,
    POSTCOPY_LISTEN,
    POSTCOPY_END,
    GET_INFLIGHT_FD,
    SET_INFLIGHT_FD,
    GPU_SET_SOCKET,
    RESET_DEVICE,
    VRING_KICK,
    GET_MAX_MEM_SLOTS,
    ADD_MEM_REG,
    REM_MEM_REG,
    SET_STATUS,
    GET_STATUS,
    GET_SHARED_OBJECT,
    SET_DEVICE_STATE_FD,
    CHECK_DEVICE_STATE,
    GET_SHMEM_CONFIG,
}

/// A number that stands for a request.
pub open spec fn is_request_code(code: u32) -> bool {
    1 <= code <= 44
}

/// Whether `FrontendReq::try_from` of the `vhost` crate takes the number: it has
/// a request for each number from 1 to 44 and for no other.
#[verifier::external_body]
fn is_known_request(code: u32) -> (known: bool)
    ensures
        known == is_request_code(code),
{
    VhostFrontendReq::try_from(code).is_ok()
}

impl FrontendReq {
    /// The number of the request.
    pub open spec fn code_of(self) -> u32 {
        match self {
            FrontendReq::GET_FEATURES => 1,
            FrontendReq::SET_FEATURES => 2,
            FrontendReq::SET_OWNER => 3,
            FrontendReq::RESET_OWNER => 4,
            FrontendReq::SET_MEM_TABLE => 5,
            FrontendReq::SET_LOG_BASE => 6,
            FrontendReq::SET_LOG_FD => 7,
            FrontendReq::SET_VRING_NUM => 8,
            FrontendReq::SET_VRING_ADDR => 9,
            FrontendReq::SET_VRING_BASE => 10,
            FrontendReq::GET_VRING_BASE => 11,
            FrontendReq::SET_VRING_KICK => 12,
            FrontendReq::SET_VRING_CALL => 13,
            FrontendReq::SET_VRING_ERR => 14,
            FrontendReq::GET_PROTOCOL_FEATURES => 15,
            FrontendReq::SET_PROTOCOL_FEATURES => 16,
            FrontendReq::GET_QUEUE_NUM => 17,
            FrontendReq::SET_VRING_ENABLE => 18,
            FrontendReq::SEND_RARP => 19,
            FrontendReq::NET_SET_MTU => 20,
            FrontendReq::SET_BACKEND_REQ_FD => 21,
            FrontendReq::IOTLB_MSG => 22,
            FrontendReq::SET_VRING_ENDIAN => 23,
            FrontendReq::GET_CONFIG => 24,
            FrontendReq::SET_CONFIG => 25,
            FrontendReq::CREATE_CRYPTO_SESSION => 26,
            FrontendReq::CLOSE_CRYPTO_SESSION => 27,
            FrontendReq::POSTCOPY_ADVISE => 28,
            FrontendReq::POSTCOPY_LISTEN => 29,
            FrontendReq::POSTCOPY_END => 30,
            FrontendReq::GET_INFLIGHT_FD => 31,
            FrontendReq::SET_INFLIGHT_FD => 32,
            FrontendReq::GPU_SET_SOCKET => 33,
            FrontendReq::RESET_DEVICE => 34,
            FrontendReq::VRING_KICK => 35,
            FrontendReq::GET_MAX_MEM_SLOTS => 36,
            FrontendReq::ADD_MEM_REG => 37,
            FrontendReq::REM_MEM_REG => 38,
            FrontendReq::SET_STATUS => 39,
            FrontendReq::GET_STATUS => 40,
            FrontendReq::GET_SHARED_OBJECT => 41,
            FrontendReq::SET_DEVICE_STATE_FD => 42,
            FrontendReq::CHECK_DEVICE_STATE => 43,
            FrontendReq::GET_SHMEM_CONFIG => 44,
        }
    }

    /// The number of the request.
    pub fn code(self) -> (code: u32)
        ensures
            code == self.code_of(),
            is_request_code(code),
    {
        match self {
            FrontendReq::GET_FEATURES => 1,
            FrontendReq::SET_FEATURES => 2,
            FrontendReq::SET_OWNER => 3,
            FrontendReq::RESET_OWNER => 4,
            FrontendReq::SET_MEM_TABLE => 5,
            FrontendReq::SET_LOG_BASE => 6,
            FrontendReq::SET_LOG_FD => 7,
            FrontendReq::SET_VRING_NUM => 8,
            FrontendReq::SET_VRING_ADDR => 9,
            FrontendReq::SET_VRING_BASE => 10,
            FrontendReq::GET_VRING_BASE => 11,
            FrontendReq::SET_VRING_KICK => 12,
            FrontendReq::SET_VRING_CALL => 13,
            FrontendReq::SET_VRING_ERR => 14,
            FrontendReq::GET_PROTOCOL_FEATURES => 15,
            FrontendReq::SET_PROTOCOL_FEATURES => 16,
            FrontendReq::GET_QUEUE_NUM => 17,
            FrontendReq::SET_VRING_ENABLE => 18,
            FrontendReq::SEND_RARP => 19,
            FrontendReq::NET_SET_MTU => 20,
            FrontendReq::SET_BACKEND_REQ_FD => 21,
            FrontendReq::IOTLB_MSG => 22,
            FrontendReq::SET_VRING_ENDIAN => 23,
            FrontendReq::GET_CONFIG => 24,
            FrontendReq::SET_CONFIG => 25,
            FrontendReq::CREATE_CRYPTO_SESSION => 26,
            FrontendReq::CLOSE_CRYPTO_SESSION => 27,
            FrontendReq::POSTCOPY_ADVISE => 28,
            FrontendReq::POSTCOPY_LISTEN => 29,
            FrontendReq::POSTCOPY_END => 30,
            FrontendReq::GET_INFLIGHT_FD => 31,
            FrontendReq::SET_INFLIGHT_FD => 32,
            FrontendReq::GPU_SET_SOCKET => 33,
            FrontendReq::RESET_DEVICE => 34,
            FrontendReq::VRING_KICK => 35,
            FrontendReq::GET_MAX_MEM_SLOTS => 36,
            FrontendReq::ADD_MEM_REG => 37,
            FrontendReq::REM_MEM_REG => 38,
            FrontendReq::SET_STATUS => 39,
            FrontendReq::GET_STATUS => 40,
            FrontendReq::GET_SHARED_OBJECT => 41,
            FrontendReq::SET_DEVICE_STATE_FD => 42,
            FrontendReq::CHECK_DEVICE_STATE => 43,
            FrontendReq::GET_SHMEM_CONFIG => 44,
        }
    }

    /// The request with the given number, if there is one.
    pub fn from_code(code: u32) -> (req: Option<FrontendReq>)
        ensures
            req is Some <==> is_request_code(code),
            req matches Some(r) ==> r.code_of() == code,
    {
        if !is_known_request(code) {
            return None;
        }
        Some(
            match code {
                1 => FrontendReq::GET_FEATURES,
                2 => FrontendReq::SET_FEATURES,
                3 => FrontendReq::SET_OWNER,
                4 => FrontendReq::RESET_OWNER,
                5 => FrontendReq::SET_MEM_TABLE,
                6 => FrontendReq::SET_LOG_BASE,
                7 => FrontendReq::SET_LOG_FD,
                8 => FrontendReq::SET_VRING_NUM,
                9 => FrontendReq::SET_VRING_ADDR,
                10 => FrontendReq::SET_VRING_BASE,
                11 => FrontendReq::GET_VRING_BASE,
                12 => FrontendReq::SET_VRING_KICK,
                13 => FrontendReq::SET_VRING_CALL,
                14 => FrontendReq::SET_VRING_ERR,
                15 => FrontendReq::GET_PROTOCOL_FEATURES,
                16 => FrontendReq::SET_PROTOCOL_FEATURES,
                17 => FrontendReq::GET_QUEUE_NUM,
                18 => FrontendReq::SET_VRING_ENABLE,
                19 => FrontendReq::SEND_RARP,
                20 => FrontendReq::NET_SET_MTU,
                21 => FrontendReq::SET_BACKEND_REQ_FD,
                22 => FrontendReq::IOTLB_MSG,
                23 => FrontendReq::SET_VRING_ENDIAN,
                24 => FrontendReq::GET_CONFIG,
                25 => FrontendReq::SET_CONFIG,
                26 => FrontendReq::CREATE_CRYPTO_SESSION,
                27 => FrontendReq::CLOSE_CRYPTO_SESSION,
                28 => FrontendReq::POSTCOPY_ADVISE,
                29 => FrontendReq::POSTCOPY_LISTEN,
                30 => FrontendReq::POSTCOPY_END,
                31 => FrontendReq::GET_INFLIGHT_FD,
                32 => FrontendReq::SET_INFLIGHT_FD,
                33 => FrontendReq::GPU_SET_SOCKET,
                34 => FrontendReq::RESET_DEVICE,
                35 => FrontendReq::VRING_KICK,
                36 => FrontendReq::GET_MAX_MEM_SLOTS,
                37 => FrontendReq::ADD_MEM_REG,
                38 => FrontendReq::REM_MEM_REG,
                39 => FrontendReq::SET_STATUS,
                40 => FrontendReq::GET_STATUS,
                41 => FrontendReq::GET_SHARED_OBJECT,
                42 => FrontendReq::SET_DEVICE_STATE_FD,
                43 => FrontendReq::CHECK_DEVICE_STATE,
                _ => FrontendReq::GET_SHMEM_CONFIG,
            },
        )
    }
}

/// No two requests share a number.
pub proof fn law_codes_are_distinct(a: FrontendReq, b: FrontendReq)
    requires
        a.code_of() == b.code_of(),
    ensures
        a == b,
{
}

/// The head of a message: what it asks for, its flags, and the length of its body.
#[derive(Clone, Copy, Debug, PartialEq, Eq, Structural)]
pub struct VhostUserMsgHeader {
    pub request: u32,
    pub flags: u32,
    pub size: u32,
}

impl Default for VhostUserMsgHeader {
    fn default() -> (hdr: VhostUserMsgHeader)
        ensures
            hdr == (VhostUserMsgHeader { request: 0, flags: 0, size: 0 }),
    {
        VhostUserMsgHeader { request: 0, flags: 0, size: 0 }
    }
}

/// The header at the start of a message.
pub open spec fn header_of(order: ByteOrder, msg: Seq<u8>) -> VhostUserMsgHeader {
    VhostUserMsgHeader {
        request: u32_at(order, msg, 0) as u32,
        flags: u32_at(order, msg, 4) as u32,
        size: u32_at(order, msg, 8) as u32,
    }
}

/// Reads the header at the start of a message.
pub fn read_header(order: ByteOrder, msg: &[u8]) -> (hdr: VhostUserMsgHeader)
    requires
        msg@.len() >= HEADER_SIZE,
    ensures
        hdr == header_of(order, msg@),
{
    VhostUserMsgHeader {
        request: order.read_u32(msg, 0),
        flags: order.read_u32(msg, 4),
        size: order.read_u32(msg, 8),
    }
}

/// Reads a body that is one number of eight bytes.
pub fn read_u64_body(order: ByteOrder, body: &[u8]) -> (value: Option<u64>)
    ensures
        value is Some <==> body@.len() == 8,
        value matches Some(v) ==> v == u64_at(order, body@, 0),
{
    if body.len() == 8 {
        Some(order.read_u64(body, 0))
    } else {
        None
    }
}

/// A region of memory that the frontend shares.
#[derive(Clone, Copy, Debug, PartialEq, Eq, Structural)]
pub struct VhostUserMemoryRegion {
    pub guest_phys_addr: u64,
    pub memory_size: u64,
    pub user_addr: u64,
    pub mmap_offset: u64,
}

/// The region that 32 bytes describe, from `i` on.
pub open spec fn region_at(order: ByteOrder, s: Seq<u8>, i: int) -> VhostUserMemoryRegion {
    VhostUserMemoryRegion {
        guest_phys_addr: u64_at(order, s, i) as u64,
        memory_size: u64_at(order, s, i + 8) as u64,
        user_addr: u64_at(order, s, i + 16) as u64,
        mmap_offset: u64_at(order, s, i + 24) as u64,
    }
}

/// Reads the region at `at`.
pub fn read_region(order: ByteOrder, bytes: &[u8], at: usize) -> (region: VhostUserMemoryRegion)
    requires
        at + MEMORY_REGION_SIZE <= bytes@.len(),
    ensures
        region == region_at(order, bytes@, at as int),
{
    assert(bytes@.len() == bytes.len());
    VhostUserMemoryRegion {
        guest_phys_addr: order.read_u64(bytes, at),
        memory_size: order.read_u64(bytes, at + 8),
        user_addr: order.read_u64(bytes, at + 16),
        mmap_offset: order.read_u64(bytes, at + 24),
    }
}

/// Reads a body that is one region, behind eight bytes of padding.
pub fn read_single_region(order: ByteOrder, body: &[u8]) -> (region: Option<VhostUserMemoryRegion>)
    ensures
        region is Some <==> body@.len() == SINGLE_MEMORY_REGION_SIZE,
        region matches Some(r) ==> r == region_at(order, body@, 8),
{
    if body.len() == SINGLE_MEMORY_REGION_SIZE {
        Some(read_region(order, body, 8))
    } else {
        None
    }
}

/// Where the log of dirty pages lies.
#[derive(Clone, Copy, Debug, PartialEq, Eq, Structural)]
pub struct VhostUserLog {
    pub mmap_size: u64,
    pub mmap_offset: u64,
}

/// The log that a body describes.
pub open spec fn log_of(order: ByteOrder, body: Seq<u8>) -> VhostUserLog {
    VhostUserLog { mmap_size: u64_at(order, body, 0) as u64, mmap_offset: u64_at(order, body, 8) as u64 }
}

/// Reads a body that describes a log.
pub fn read_log(order: ByteOrder, body: &[u8]) -> (log: Option<VhostUserLog>)
    ensures
        log is Some <==> body@.len() == LOG_SIZE,
        log matches Some(l) ==> l == log_of(order, body@),
{
    if body.len() == LOG_SIZE {
        Some(VhostUserLog { mmap_size: order.read_u64(body, 0), mmap_offset: order.read_u64(body, 8) })
    } else {
        None
    }
}

/// A transfer of the device's state.
#[derive(Clone, Copy, Debug, PartialEq, Eq, Structural)]
pub struct VhostUserTransferDeviceState {
    pub direction: u32,
    pub phase: u32,
}

/// The transfer that a body describes.
pub open spec fn transfer_of(order: ByteOrder, body: Seq<u8>) -> VhostUserTransferDeviceState {
    VhostUserTransferDeviceState { direction: u32_at(order, body, 0) as u32, phase: u32_at(order, body, 4) as u32 }
}

/// Reads a body that describes a transfer.
pub fn read_transfer(order: ByteOrder, body: &[u8]) -> (transfer: Option<VhostUserTransferDeviceState>)
    ensures
        transfer is Some <==> body@.len() == TRANSFER_DEVICE_STATE_SIZE,
        transfer matches Some(t) ==> t == transfer_of(order, body@),
{
    if body.len() == TRANSFER_DEVICE_STATE_SIZE {
        Some(
            VhostUserTransferDeviceState {
                direction: order.read_u32(body, 0),
                phase: order.read_u32(body, 4),
            },
        )
    } else {
        None
    }
}

/// The fields of a message stand one behind the other, without a gap.
pub proof fn law_fields_stand_in_order(order: ByteOrder, s: Seq<u8>, i: int)
    ensures
        header_of(order, s).request == u32_at(order, s, 0),
        header_of(order, s).flags == u32_at(order, s, 4),
        header_of(order, s).size == u32_at(order, s, 8),
        region_at(order, s, i).guest_phys_addr == u64_at(order, s, i),
        region_at(order, s, i).memory_size == u64_at(order, s, i + 8),
        region_at(order, s, i).user_addr == u64_at(order, s, i + 16),
        region_at(order, s, i).mmap_offset == u64_at(order, s, i + 24),
        log_of(order, s).mmap_size == u64_at(order, s, 0),
        log_of(order, s).mmap_offset == u64_at(order, s, 8),
        transfer_of(order, s).direction == u32_at(order, s, 0),
        transfer_of(order, s).phase == u32_at(order, s, 4),
        HEADER_SIZE == 12,
        MEMORY_REGION_SIZE == 32,
        LOG_SIZE == 16,
        TRANSFER_DEVICE_STATE_SIZE == 8,
        SINGLE_MEMORY_REGION_SIZE == MEMORY_SIZE + MEMORY_REGION_SIZE,
{
    law_bytes_are_digits(s, 0);
    law_bytes_are_digits(s, 4);
    law_bytes_are_digits(s, 8);
    law_halves_make_the_whole(s, 0);
    law_halves_make_the_whole(s, 8);
    law_halves_make_the_whole(s, i);
    law_halves_make_the_whole(s, i + 8);
    law_halves_make_the_whole(s, i + 16);
    law_halves_make_the_whole(s, i + 24);
}

/// A region reads the same wherever its 32 bytes stand.
pub proof fn law_region_does_not_depend_on_its_place(order: ByteOrder, a: Seq<u8>, i: int, b: Seq<u8>, j: int)
    requires
        forall|k: int| 0 <= k < MEMORY_REGION_SIZE ==> #[trigger] a[i + k] == b[j + k],
    ensures
        region_at(order, a, i) == region_at(order, b, j),
{
    assert(a[i + 0] == b[j + 0] && a[i + 1] == b[j + 1] && a[i + 2] == b[j + 2] && a[i + 3] == b[j + 3]);
    assert(a[i + 4] == b[j + 4] && a[i + 5] == b[j + 5] && a[i + 6] == b[j + 6] && a[i + 7] == b[j + 7]);
    assert(a[i + 8] == b[j + 8] && a[i + 9] == b[j + 9] && a[i + 10] == b[j + 10] && a[i + 11] == b[j + 11]);
    assert(a[i + 12] == b[j + 12] && a[i + 13] == b[j + 13] && a[i + 14] == b[j + 14] && a[i + 15] == b[j + 15]);
    assert(a[i + 16] == b[j + 16] && a[i + 17] == b[j + 17] && a[i + 18] == b[j + 18] && a[i + 19] == b[j + 19]);
    assert(a[i + 20] == b[j + 20] && a[i + 21] == b[j + 21] && a[i + 22] == b[j + 22] && a[i + 23] == b[j + 23]);
    assert(a[i + 24] == b[j + 24] && a[i + 25] == b[j + 25] && a[i + 26] == b[j + 26] && a[i + 27] == b[j + 27]);
    assert(a[i + 28] == b[j + 28] && a[i + 29] == b[j + 29] && a[i + 30] == b[j + 30] && a[i + 31] == b[j + 31]);
}

} // verus!
