//! Requests of the frontend: what a request asks for, and what to do about it.
//!
//! A request is first turned into a [`Plan`]. What the plan needs from the
//! outside (an event descriptor recognised, a region mapped) is done by the
//! caller, who hands the outcome back; the functions here decide what comes next.

use crate::byte_order::{law_bytes_are_digits, law_halves_make_the_whole, u32_at, u64_at, ByteOrder};
use crate::error::{Error, IoCause, Refusal};
use crate::mapping_plan::{plan_moves, MappingAction, MappingPlan};
use crate::host::{classify_file_flags, file_access, linux_open_flags, FileAccess, OpenFlags};
use crate::incoming::{IncomingAction, IncomingStage, IncomingView};
use crate::message::{
    header_of, is_request_code, law_fields_stand_in_order, law_region_does_not_depend_on_its_place, log_of, max_msg_size, need_reply_flag, read_header, read_log, read_region,
    read_single_region, read_transfer, read_u64_body, region_at, supported_features,
    supported_protocol_features, transfer_of, FrontendReq, VhostUserMemoryRegion, VhostUserMsgHeader,
    HEADER_SIZE, LOG_SIZE, MEMORY_REGION_SIZE, MEMORY_SIZE, SINGLE_MEMORY_REGION_SIZE,
    TRANSFER_DEVICE_STATE_SIZE,
};
use crate::outgoing::{OutgoingAction, OutgoingStage, OutgoingView};
use crate::queue_pair::{extract_fd, Direction, FdRearm, Fds, PolledFd, VirtioVhostUserQueuePair};
use vstd::prelude::*;

verus! {

/// A reply that the frontend may see.
pub open spec fn reply_is_valid(hdr: VhostUserMsgHeader, len: nat) -> bool {
    &&& hdr.flags & 255 == 5
    &&& hdr.request == FrontendReq::GET_PROTOCOL_FEATURES.code_of() ==> len == 8
}

/// Checks a reply of the backend before the frontend gets it. A reply about the
/// protocol features is cut down to those that are supported.
pub fn validate_reply(order: ByteOrder, hdr: VhostUserMsgHeader, body: &mut [u8]) -> (result: Result<(), Error>)
    ensures
        final(body)@.len() == old(body)@.len(),
        result == (if reply_is_valid(hdr, old(body)@.len()) {
            Ok::<(), Error>(())
        } else {
            Err(Error::InvalidMessage)
        }),
        result is Ok && hdr.request == FrontendReq::GET_PROTOCOL_FEATURES.code_of() ==> u64_at(order, final(body)@, 0)
            == (u64_at(order, old(body)@, 0) as u64) & supported_features(),
        !(result is Ok && hdr.request == FrontendReq::GET_PROTOCOL_FEATURES.code_of()) ==> final(body)@ == old(body)@,
{
    if hdr.flags & 255 != 5 {
        return Err(Error::InvalidMessage);
    }
    if hdr.request == FrontendReq::GET_PROTOCOL_FEATURES.code() {
        match read_u64_body(order, body) {
            None => {
                return Err(Error::InvalidMessage);
            },
            Some(features) => {
                let features: u64 = features & supported_protocol_features();
                order.write_u64(body, 0, features);
            },
        }
    }
    Ok(())
}

/// Checks the protocol features that the frontend wants.
pub fn set_protocol_features(order: ByteOrder, body: &[u8]) -> (result: Result<(), Error>)
    ensures
        result == (if features_are_supported(order, body@) {
            Ok::<(), Error>(())
        } else {
            Err(Error::InvalidMessage)
        }),
{
    match read_u64_body(order, body) {
        None => Err(Error::InvalidMessage),
        Some(features) => {
            let unsupported: u64 = features & !supported_protocol_features();
            if unsupported != 0 {
                return Err(Error::InvalidMessage);
            }
            Ok(())
        },
    }
}

/// A body that asks for supported protocol features only.
pub open spec fn features_are_supported(order: ByteOrder, body: Seq<u8>) -> bool {
    body.len() == 8 && (u64_at(order, body, 0) as u64) & !supported_features() == 0
}

/// The table of event descriptors that the virtual machine signals by writing to
/// device memory: one per queue for calls, one per queue for errors, one for the log.
pub struct IoEventFds<E> {
    /// The guest address of the first entry.
    pub offset: u64,
    pub fds: Vec<Option<E>>,
}

impl<E> IoEventFds<E> {
    /// The table has an entry for everything that `queues` queues can signal, at
    /// an address that exists.
    pub open spec fn wf(&self, queues: u8) -> bool {
        &&& self.fds@.len() >= 2 * queues + 1
        &&& self.offset + 8 * queues <= u64::MAX
    }

    /// A table of empty entries for a number of queues.
    pub fn new(queues: u8) -> (table: IoEventFds<E>)
        ensures
            table.wf(queues),
            table.offset == 0,
            table.fds@ == Seq::new((2 * queues + 1) as nat, |i: int| None::<E>),
    {
        let count: usize = queues as usize * 2 + 1;
        let mut fds: Vec<Option<E>> = Vec::with_capacity(count);
        while fds.len() < count
            invariant
                fds@.len() <= count,
                count == 2 * queues + 1,
                fds@ == Seq::new(fds@.len(), |i: int| None::<E>),
            decreases count - fds@.len(),
        {
            fds.push(None);
            assert(fds@ =~= Seq::new(fds@.len(), |i: int| None::<E>));
        }
        IoEventFds { offset: 0, fds }
    }
}

/// A descriptor through which the device's state moves during a migration.
pub enum MigrationFd<F> {
    Read(F),
    Write(F),
    NotReceived,
    Complete,
}

/// Why a file is not an event descriptor.
pub enum EventFdError {
    NotEventFd,
    IO(IoCause),
}

/// What a request calls for.
pub enum Plan<F> {
    /// The request is in order and needs nothing.
    Nothing,
    /// Check, then map, regions of memory.
    MapRegions(MappingPlan<F>),
    /// Map one region, with every check.
    AddRegion { region: VhostUserMemoryRegion, file: F },
    /// Unmap one region.
    RemoveRegion { region: VhostUserMemoryRegion },
    /// Recognise an event descriptor, if one came, and go on with
    /// [`FrontendRequestQueuePairInternals::eventfd_request`].
    CheckEventFd { req: FrontendReq, eventfd: Option<F> },
    /// Recognise a stream socket, and go on with
    /// [`FrontendRequestQueuePairInternals::backend_socket_checked`].
    CheckSocket { file: F },
    /// Read the status flags of a file, and go on with [`device_state_access`].
    ReadFileFlags { is_load: bool, file: F },
}

/// What a plan says.
pub ghost enum PlanView<F> {
    Nothing,
    MapRegions { regions: Seq<VhostUserMemoryRegion>, files: Seq<F>, for_log: bool },
    AddRegion { region: VhostUserMemoryRegion, file: F },
    RemoveRegion { region: VhostUserMemoryRegion },
    CheckEventFd { req: FrontendReq, eventfd: Option<F> },
    CheckSocket { file: F },
    ReadFileFlags { is_load: bool, file: F },
}

impl<F> View for Plan<F> {
    type V = PlanView<F>;

    open spec fn view(&self) -> PlanView<F> {
        match *self {
            Plan::Nothing => PlanView::Nothing,
            Plan::MapRegions(m) => PlanView::MapRegions { regions: m.regions(), files: m.files(), for_log: m.for_log() },
            Plan::AddRegion { region, file } => PlanView::AddRegion { region, file },
            Plan::RemoveRegion { region } => PlanView::RemoveRegion { region },
            Plan::CheckEventFd { req, eventfd } => PlanView::CheckEventFd { req, eventfd },
            Plan::CheckSocket { file } => PlanView::CheckSocket { file },
            Plan::ReadFileFlags { is_load, file } => PlanView::ReadFileFlags { is_load, file },
        }
    }
}

/// The state that the requests of a frontend depend on and change.
pub struct FrontendRequestQueuePairInternals {
    pub order: ByteOrder,
    /// The number of queues of the device.
    pub queues: u8,
    /// The log of dirty pages was mapped.
    pub seen_log_mapping: bool,
    /// The socket for requests of the backend came.
    pub seen_backend_req_socket: bool,
}

/// A request that may come with file descriptors.
pub open spec fn may_carry_files(req: FrontendReq) -> bool {
    match req {
        FrontendReq::SET_MEM_TABLE
        | FrontendReq::SET_VRING_CALL
        | FrontendReq::SET_VRING_KICK
        | FrontendReq::SET_VRING_ERR
        | FrontendReq::SET_LOG_BASE
        | FrontendReq::SET_LOG_FD
        | FrontendReq::SET_BACKEND_REQ_FD
        | FrontendReq::SET_INFLIGHT_FD
        | FrontendReq::ADD_MEM_REG
        | FrontendReq::REM_MEM_REG
        | FrontendReq::SET_DEVICE_STATE_FD
        | FrontendReq::GPU_SET_SOCKET => true,
        _ => false,
    }
}

/// A memory table for a number of files: as many regions as files, from one to
/// eight, and not a byte more or less.
pub open spec fn mem_table_is_valid(order: ByteOrder, body: Seq<u8>, files: nat) -> bool {
    &&& 1 <= files <= 8
    &&& body.len() == MEMORY_SIZE + MEMORY_REGION_SIZE * files
    &&& u32_at(order, body, 0) == files
    &&& u32_at(order, body, 4) == 0
}

/// The regions of a memory table.
pub open spec fn mem_table_regions(order: ByteOrder, body: Seq<u8>, n: nat) -> Seq<VhostUserMemoryRegion> {
    Seq::new(n, |i: int| region_at(order, body, MEMORY_SIZE + MEMORY_REGION_SIZE * i))
}

/// The region that stands for the log of dirty pages: it lies at no guest address.
pub open spec fn log_region(order: ByteOrder, body: Seq<u8>) -> VhostUserMemoryRegion {
    VhostUserMemoryRegion {
        guest_phys_addr: u64::MAX,
        memory_size: log_of(order, body).mmap_size,
        user_addr: u64::MAX,
        mmap_offset: log_of(order, body).mmap_offset,
    }
}

/// A queue number with the flag that says that no descriptor came.
pub open spec fn vring_is_valid(order: ByteOrder, queues: u8, body: Seq<u8>, has_fd: bool) -> bool {
    &&& body.len() == 8
    &&& u64_at(order, body, 0) < 512
    &&& u64_at(order, body, 0) % 256 < queues
    &&& (u64_at(order, body, 0) < 256) == has_fd
}

/// The queue number of a body.
pub open spec fn vring_of(order: ByteOrder, body: Seq<u8>) -> int {
    u64_at(order, body, 0) % 256
}

impl FrontendRequestQueuePairInternals {
    /// What a memory table calls for.
    pub open spec fn mem_table_plan<F>(self, body: Seq<u8>, files: Seq<F>) -> Result<PlanView<F>, Error> {
        if mem_table_is_valid(self.order, body, files.len()) {
            Ok(
                PlanView::MapRegions {
                    regions: mem_table_regions(self.order, body, files.len()),
                    files,
                    for_log: false,
                },
            )
        } else {
            Err(Error::InvalidMessage)
        }
    }

    /// What the description of a log calls for.
    pub open spec fn log_base_plan<F>(self, body: Seq<u8>, files: Seq<F>) -> Result<PlanView<F>, Error> {
        if self.seen_log_mapping {
            Err(Error::InvalidOperation(Refusal::DuplicateLogMapping))
        } else if files.len() == 1 && body.len() == LOG_SIZE {
            Ok(PlanView::MapRegions { regions: seq![log_region(self.order, body)], files, for_log: true })
        } else {
            Err(Error::InvalidMessage)
        }
    }

    /// What a socket for requests of the backend calls for.
    pub open spec fn backend_req_fd_plan<F>(self, files: Seq<F>) -> Result<PlanView<F>, Error> {
        if self.seen_backend_req_socket {
            Err(Error::InvalidOperation(Refusal::BackendRequestFdAlreadySent))
        } else if files.len() == 1 {
            Ok(PlanView::CheckSocket { file: files[0] })
        } else {
            Err(Error::InvalidMessage)
        }
    }

    /// What a transfer of the device's state calls for.
    pub open spec fn device_state_plan<F>(self, body: Seq<u8>, files: Seq<F>) -> Result<PlanView<F>, Error> {
        let transfer = transfer_of(self.order, body);
        if body.len() == TRANSFER_DEVICE_STATE_SIZE && transfer.direction <= 1 && transfer.phase == 0 && files.len()
            == 1 {
            Ok(PlanView::ReadFileFlags { is_load: transfer.direction == 1, file: files[0] })
        } else {
            Err(Error::InvalidMessage)
        }
    }

    /// What a new region calls for.
    pub open spec fn add_mem_reg_plan<F>(self, body: Seq<u8>, files: Seq<F>) -> Result<PlanView<F>, Error> {
        if files.len() != 1 {
            Err(Error::IncorrectFds)
        } else if body.len() != SINGLE_MEMORY_REGION_SIZE {
            Err(Error::InvalidMessage)
        } else {
            Ok(PlanView::AddRegion { region: region_at(self.order, body, 8), file: files[0] })
        }
    }

    /// What the removal of a region calls for.
    pub open spec fn rem_mem_reg_plan<F>(self, body: Seq<u8>, files: Seq<F>) -> Result<PlanView<F>, Error> {
        if files.len() > 1 {
            Err(Error::IncorrectFds)
        } else if body.len() != SINGLE_MEMORY_REGION_SIZE {
            Err(Error::InvalidMessage)
        } else {
            Ok(PlanView::RemoveRegion { region: region_at(self.order, body, 8) })
        }
    }

    /// What an event descriptor calls for.
    pub open spec fn eventfd_plan<F>(self, req: FrontendReq, files: Seq<F>) -> Result<PlanView<F>, Error> {
        if files.len() > 1 {
            Err(Error::IncorrectFds)
        } else {
            Ok(PlanView::CheckEventFd { req, eventfd: if files.len() == 1 { Some(files[0]) } else { None } })
        }
    }

    /// What a request calls for, given its body and the files that came with it.
    pub open spec fn plan_for<F>(self, req: FrontendReq, body: Seq<u8>, files: Seq<F>) -> Result<PlanView<F>, Error> {
        if files.len() > 0 && !may_carry_files(req) {
            Err(Error::IncorrectFds)
        } else {
            match req {
                FrontendReq::SET_OWNER
                | FrontendReq::RESET_DEVICE
                | FrontendReq::GET_FEATURES
                | FrontendReq::GET_PROTOCOL_FEATURES
                | FrontendReq::GET_QUEUE_NUM => if body.len() == 0 {
                    Ok(PlanView::Nothing)
                } else {
                    Err(Error::InvalidMessage)
                },
                FrontendReq::SET_PROTOCOL_FEATURES => if features_are_supported(self.order, body) {
                    Ok(PlanView::Nothing)
                } else {
                    Err(Error::InvalidMessage)
                },
                FrontendReq::SET_MEM_TABLE => self.mem_table_plan(body, files),
                FrontendReq::SET_VRING_CALL
                | FrontendReq::SET_VRING_ERR
                | FrontendReq::SET_LOG_FD
                | FrontendReq::SET_VRING_KICK => self.eventfd_plan(req, files),
                FrontendReq::ADD_MEM_REG => self.add_mem_reg_plan(body, files),
                FrontendReq::REM_MEM_REG => self.rem_mem_reg_plan(body, files),
                FrontendReq::SET_LOG_BASE => self.log_base_plan(body, files),
                FrontendReq::SET_BACKEND_REQ_FD => self.backend_req_fd_plan(files),
                FrontendReq::SET_DEVICE_STATE_FD => self.device_state_plan(body, files),
                FrontendReq::CHECK_DEVICE_STATE
                | FrontendReq::SET_INFLIGHT_FD
                | FrontendReq::GET_INFLIGHT_FD
                | FrontendReq::POSTCOPY_ADVISE
                | FrontendReq::POSTCOPY_LISTEN
                | FrontendReq::POSTCOPY_END
                | FrontendReq::GPU_SET_SOCKET
                | FrontendReq::VRING_KICK
                | FrontendReq::SET_VRING_ENDIAN
                | FrontendReq::IOTLB_MSG
                | FrontendReq::GET_SHMEM_CONFIG
                | FrontendReq::GET_SHARED_OBJECT => Err(Error::FeatureMismatch),
                _ => Ok(PlanView::Nothing),
            }
        }
    }

    /// Reads the memory table.
    pub fn set_mem_table<F>(&self, body: &[u8], files: Vec<F>) -> (plan: Result<Plan<F>, Error>)
        ensures
            plan_view(plan) == self.mem_table_plan(body@, files@),
            plan matches Ok(p) ==> fresh(p),
    {
        if body.len() > max_msg_size() || body.len() < MEMORY_SIZE {
            return Err(Error::InvalidMessage);
        }
        let num_regions: usize = self.order.read_u32(body, 0) as usize;
        let padding1: u32 = self.order.read_u32(body, 4);
        if num_regions != files.len() {
            return Err(Error::InvalidMessage);
        }
        if padding1 != 0 || !(1 <= num_regions && num_regions < 9) {
            return Err(Error::InvalidMessage);
        }
        let expected_len: usize = MEMORY_SIZE + num_regions * MEMORY_REGION_SIZE;
        if body.len() != expected_len {
            return Err(Error::InvalidMessage);
        }
        let mut regions: Vec<VhostUserMemoryRegion> = Vec::with_capacity(num_regions);
        while regions.len() < num_regions
            invariant
                1 <= num_regions <= 8,
                regions@.len() <= num_regions,
                body@.len() == MEMORY_SIZE + num_regions * MEMORY_REGION_SIZE,
                regions@ == mem_table_regions(self.order, body@, regions@.len()),
            decreases num_regions - regions@.len(),
        {
            let index: usize = regions.len();
            let region = read_region(self.order, body, MEMORY_SIZE + index * MEMORY_REGION_SIZE);
            regions.push(region);
            assert(regions@ =~= mem_table_regions(self.order, body@, regions@.len()));
        }
        Ok(Plan::MapRegions(MappingPlan::new(regions, files, false)))
    }

    /// Reads a queue number, and checks that a descriptor came unless the flag
    /// says that none did.
    ///
    /// Bits 0 to 7 of the payload hold the number. Bit 8 is set when there is no
    /// file descriptor, which means that polling is used instead.
    pub fn handle_vring_fd_request(&self, body: &[u8], has_fd: bool) -> (queue: Result<u8, Error>)
        ensures
            queue is Ok <==> vring_is_valid(self.order, self.queues, body@, has_fd),
            queue matches Ok(q) ==> q == vring_of(self.order, body@),
            queue matches Err(e) ==> e == Error::InvalidMessage,
    {
        match read_u64_body(self.order, body) {
            None => Err(Error::InvalidMessage),
            Some(msg) => {
                if msg >= 512 {
                    return Err(Error::InvalidMessage);
                }
                let queue: u8 = (msg % 256) as u8;
                if queue >= self.queues {
                    return Err(Error::InvalidMessage);
                }
                assert((msg & 0x100u64 == 0) == (msg < 256)) by (bit_vector)
                    requires
                        msg < 512,
                ;
                if ((msg & 0x100u64) == 0) != has_fd {
                    return Err(Error::InvalidMessage);
                }
                Ok(queue)
            },
        }
    }

    /// Takes the only file, if there is one.
    pub fn check_eventfd<F>(files: Vec<F>) -> (file: Result<Option<F>, Error>)
        ensures
            file == (if files@.len() > 1 {
                Err::<Option<F>, Error>(Error::IncorrectFds)
            } else if files@.len() == 1 {
                Ok(Some(files@[0]))
            } else {
                Ok(None)
            }),
    {
        let mut files = files;
        if files.len() > 1 {
            return Err(Error::IncorrectFds);
        }
        Ok(files.pop())
    }

    /// Takes the only file, which must be there.
    pub fn get_single_file<F>(files: Vec<F>) -> (file: Result<F, Error>)
        ensures
            file == (if files@.len() == 1 {
                Ok::<F, Error>(files@[0])
            } else {
                Err(Error::InvalidMessage)
            }),
    {
        let mut files = files;
        if files.len() == 1 {
            Ok(files.remove(0))
        } else {
            Err(Error::InvalidMessage)
        }
    }

    /// Reads the description of a log.
    pub fn set_log_base<F>(&self, body: &[u8], files: Vec<F>) -> (plan: Result<Plan<F>, Error>)
        ensures
            plan_view(plan) == self.log_base_plan(body@, files@),
            plan matches Ok(p) ==> fresh(p),
    {
        if self.seen_log_mapping {
            return Err(Error::InvalidOperation(Refusal::DuplicateLogMapping));
        }
        let ghost all = files@;
        let file = match Self::get_single_file(files) {
            Ok(file) => file,
            Err(e) => {
                return Err(e);
            },
        };
        let log = match read_log(self.order, body) {
            Some(log) => log,
            None => {
                return Err(Error::InvalidMessage);
            },
        };
        let region = VhostUserMemoryRegion {
            guest_phys_addr: u64::MAX,
            memory_size: log.mmap_size,
            user_addr: u64::MAX,
            mmap_offset: log.mmap_offset,
        };
        let mut regions: Vec<VhostUserMemoryRegion> = Vec::new();
        regions.push(region);
        let mut files: Vec<F> = Vec::new();
        files.push(file);
        assert(regions@ =~= seq![log_region(self.order, body@)]);
        assert(files@ =~= all);
        Ok(Plan::MapRegions(MappingPlan::new(regions, files, true)))
    }

    /// Takes the file that should be a socket for requests of the backend.
    pub fn set_backend_req_fd<F>(&self, files: Vec<F>) -> (plan: Result<Plan<F>, Error>)
        ensures
            plan_view(plan) == self.backend_req_fd_plan(files@),
            plan matches Ok(p) ==> fresh(p),
    {
        if self.seen_backend_req_socket {
            return Err(Error::InvalidOperation(Refusal::BackendRequestFdAlreadySent));
        }
        match Self::get_single_file(files) {
            Ok(file) => Ok(Plan::CheckSocket { file }),
            Err(e) => Err(e),
        }
    }

    /// Reads the description of a transfer, and takes the file that it goes through.
    pub fn set_device_state_fd<F>(&self, body: &[u8], files: Vec<F>) -> (plan: Result<Plan<F>, Error>)
        ensures
            plan_view(plan) == self.device_state_plan(body@, files@),
            plan matches Ok(p) ==> fresh(p),
    {
        let transfer = match read_transfer(self.order, body) {
            Some(transfer) => transfer,
            None => {
                return Err(Error::InvalidMessage);
            },
        };
        let is_load = match transfer.direction {
            0 => false,
            1 => true,
            _ => {
                return Err(Error::InvalidMessage);
            },
        };
        if transfer.phase != 0 {
            return Err(Error::InvalidMessage);
        }
        match Self::get_single_file(files) {
            Ok(file) => Ok(Plan::ReadFileFlags { is_load, file }),
            Err(e) => Err(e),
        }
    }

    /// Reads a new region, and takes its file.
    pub fn add_mem_reg<F>(&self, body: &[u8], files: Vec<F>) -> (plan: Result<Plan<F>, Error>)
        ensures
            plan_view(plan) == self.add_mem_reg_plan(body@, files@),
            plan matches Ok(p) ==> fresh(p),
    {
        let mut files = files;
        if files.len() != 1 {
            return Err(Error::IncorrectFds);
        }
        let file = files.remove(0);
        match read_single_region(self.order, body) {
            Some(region) => Ok(Plan::AddRegion { region, file }),
            None => Err(Error::InvalidMessage),
        }
    }

    /// Reads a region that is to go.
    pub fn rem_mem_reg<F>(&self, body: &[u8], files: &Vec<F>) -> (plan: Result<Plan<F>, Error>)
        ensures
            plan_view(plan) == self.rem_mem_reg_plan(body@, files@),
            plan matches Ok(p) ==> fresh(p),
    {
        if files.len() > 1 {
            return Err(Error::IncorrectFds);
        }
        match read_single_region(self.order, body) {
            Some(region) => Ok(Plan::RemoveRegion { region }),
            None => Err(Error::InvalidMessage),
        }
    }

    /// Whether a request may come with file descriptors.
    fn carries_files(req: FrontendReq) -> (carries: bool)
        ensures
            carries == may_carry_files(req),
    {
        match req {
            FrontendReq::SET_MEM_TABLE
            | FrontendReq::SET_VRING_CALL
            | FrontendReq::SET_VRING_KICK
            | FrontendReq::SET_VRING_ERR
            | FrontendReq::SET_LOG_BASE
            | FrontendReq::SET_LOG_FD
            | FrontendReq::SET_BACKEND_REQ_FD
            | FrontendReq::SET_INFLIGHT_FD
            | FrontendReq::ADD_MEM_REG
            | FrontendReq::REM_MEM_REG
            | FrontendReq::SET_DEVICE_STATE_FD
            | FrontendReq::GPU_SET_SOCKET => true,
            _ => false,
        }
    }

    /// Checks a request of the frontend, and says what it calls for. Files that
    /// are not part of the plan are dropped.
    pub fn process_f2b_requests<F>(&self, msg: VhostUserMsgHeader, body: &[u8], files: Vec<F>) -> (plan: Result<
        Plan<F>,
        Error,
    >)
        ensures
            !((msg.flags == 1 || msg.flags == 9) && is_request_code(msg.request)) ==> plan_view(plan) == Err::<
                PlanView<F>,
                Error,
            >(Error::InvalidMessage),
            forall|req: FrontendReq|
                (msg.flags == 1 || msg.flags == 9) && msg.request == #[trigger] req.code_of() ==> plan_view(plan)
                    == self.plan_for(req, body@, files@),
            plan matches Ok(p) ==> fresh(p),
    {
        // Check that this is a version 1 request.
        let flags: u32 = msg.flags;
        let other_flags: u32 = !need_reply_flag();
        assert((flags & !8u32 == 1) == (flags == 1 || flags == 9)) by (bit_vector);
        if flags & other_flags != 1 {
            return Err(Error::InvalidMessage);
        }
        let req = match FrontendReq::from_code(msg.request) {
            Some(req) => req,
            None => {
                assert forall|req: FrontendReq| msg.request == #[trigger] req.code_of() implies false by {
                    assert(is_request_code(req.code_of()));
                }
                return Err(Error::InvalidMessage);
            },
        };
        if !Self::carries_files(req) && files.len() > 0 {
            return Err(Error::IncorrectFds);
        }
        match req {
            FrontendReq::RESET_OWNER => Ok(Plan::Nothing),
            FrontendReq::SET_OWNER
            | FrontendReq::RESET_DEVICE
            | FrontendReq::GET_FEATURES
            | FrontendReq::GET_PROTOCOL_FEATURES
            | FrontendReq::GET_QUEUE_NUM => {
                if body.len() > 0 {
                    return Err(Error::InvalidMessage);
                }
                Ok(Plan::Nothing)
            },
            FrontendReq::SET_PROTOCOL_FEATURES => match set_protocol_features(self.order, body) {
                Ok(()) => Ok(Plan::Nothing),
                Err(e) => Err(e),
            },
            FrontendReq::SET_MEM_TABLE => self.set_mem_table(body, files),
            FrontendReq::SET_VRING_CALL
            | FrontendReq::SET_VRING_ERR
            | FrontendReq::SET_LOG_FD
            | FrontendReq::SET_VRING_KICK => match Self::check_eventfd(files) {
                Ok(eventfd) => Ok(Plan::CheckEventFd { req, eventfd }),
                Err(e) => Err(e),
            },
            FrontendReq::ADD_MEM_REG => self.add_mem_reg(body, files),
            FrontendReq::REM_MEM_REG => self.rem_mem_reg(body, &files),
            FrontendReq::SET_LOG_BASE => self.set_log_base(body, files),
            FrontendReq::SET_BACKEND_REQ_FD => self.set_backend_req_fd(files),
            FrontendReq::SET_DEVICE_STATE_FD => self.set_device_state_fd(body, files),
            // Migration data is not checked yet.
            FrontendReq::CHECK_DEVICE_STATE => Err(Error::FeatureMismatch),
            // These need descriptors to go from the backend to the frontend.
            FrontendReq::SET_INFLIGHT_FD
            | FrontendReq::GET_INFLIGHT_FD
            | FrontendReq::POSTCOPY_ADVISE
            | FrontendReq::POSTCOPY_LISTEN
            | FrontendReq::POSTCOPY_END => Err(Error::FeatureMismatch),
            // Old-style virtio-GPU
            FrontendReq::GPU_SET_SOCKET => Err(Error::FeatureMismatch),
            // In-band notifications, for simulation only.
            FrontendReq::VRING_KICK => Err(Error::FeatureMismatch),
            // Legacy devices
            FrontendReq::SET_VRING_ENDIAN => Err(Error::FeatureMismatch),
            // The frontend has to enforce the IOMMU, not the backend.
            FrontendReq::IOTLB_MSG => Err(Error::FeatureMismatch),
            // Only needed for devices like GPUs.
            FrontendReq::GET_SHMEM_CONFIG => Err(Error::FeatureMismatch),
            // Shared objects.
            FrontendReq::GET_SHARED_OBJECT => Err(Error::FeatureMismatch),
            // Messages that need no interaction.
            FrontendReq::SET_FEATURES
            | FrontendReq::NET_SET_MTU
            | FrontendReq::SEND_RARP
            | FrontendReq::SET_VRING_NUM
            | FrontendReq::SET_VRING_ADDR
            | FrontendReq::SET_VRING_BASE
            | FrontendReq::GET_VRING_BASE
            | FrontendReq::SET_VRING_ENABLE
            | FrontendReq::GET_CONFIG
            | FrontendReq::SET_CONFIG
            | FrontendReq::CREATE_CRYPTO_SESSION
            | FrontendReq::CLOSE_CRYPTO_SESSION
            | FrontendReq::GET_MAX_MEM_SLOTS
            | FrontendReq::SET_STATUS
            | FrontendReq::GET_STATUS => Ok(Plan::Nothing),
        }
    }
}

/// What the outcome of reading a request says.
pub open spec fn plan_view<F>(plan: Result<Plan<F>, Error>) -> Result<PlanView<F>, Error> {
    match plan {
        Ok(p) => Ok(p@),
        Err(e) => Err(e),
    }
}

/// A plan of which nothing was done yet.
pub open spec fn fresh<F>(plan: Plan<F>) -> bool {
    plan matches Plan::MapRegions(m) ==> m.wf() && m.taken() == 0 && !m.finished()
}

/// What to do with an event descriptor.
pub enum EventFdAction<E> {
    /// Stop the descriptor `unregister` from being signalled by writes to `offset`,
    /// then let the one that the table now holds at `register` be signalled.
    IoEvent { offset: u64, unregister: Option<E>, register: Option<usize> },
    /// Let the frontend kick a queue through the descriptor, or no longer do so.
    Kick { fd: Option<E>, queue: u8 },
}

/// What a request about an event descriptor comes to.
pub ghost enum EventFdTarget {
    /// The entry of the table.
    Entry(int),
    /// The queue that is kicked.
    Kick(int),
}

impl FrontendRequestQueuePairInternals {
    /// Where the event descriptor of a request belongs.
    pub open spec fn eventfd_target(self, req: FrontendReq, body: Seq<u8>, has_fd: bool) -> Result<EventFdTarget, Error> {
        if req == FrontendReq::SET_LOG_FD {
            if body.len() > 0 {
                Err(Error::InvalidMessage)
            } else if !has_fd {
                Err(Error::IncorrectFds)
            } else {
                Ok(EventFdTarget::Entry(2 * self.queues))
            }
        } else if !vring_is_valid(self.order, self.queues, body, has_fd) {
            Err(Error::InvalidMessage)
        } else if req == FrontendReq::SET_VRING_CALL {
            Ok(EventFdTarget::Entry(vring_of(self.order, body)))
        } else if req == FrontendReq::SET_VRING_ERR {
            Ok(EventFdTarget::Entry(vring_of(self.order, body) + self.queues))
        } else {
            Ok(EventFdTarget::Kick(vring_of(self.order, body)))
        }
    }

    /// What becomes of the table and of the descriptors, given the descriptor that
    /// came.
    pub open spec fn eventfd_effect<E>(
        self,
        target: Result<EventFdTarget, Error>,
        eventfd: Option<E>,
        before: IoEventFds<E>,
        after: IoEventFds<E>,
        action: Result<EventFdAction<E>, Error>,
    ) -> bool {
        match target {
            Err(e) => action == Err::<EventFdAction<E>, Error>(e) && after == before,
            Ok(EventFdTarget::Kick(queue)) => after == before && (action matches Ok(EventFdAction::Kick { fd, queue: q })
                && fd == eventfd && q == queue),
            Ok(EventFdTarget::Entry(i)) => {
                &&& after.offset == before.offset
                &&& after.fds@ == before.fds@.update(i, eventfd)
                &&& action matches Ok(EventFdAction::IoEvent { offset, unregister, register })
                &&& offset == before.offset + 4 * i
                &&& unregister == before.fds@[i]
                &&& (register matches Some(r) ==> eventfd is Some && r == i)
                &&& (register is None ==> eventfd is None)
            },
        }
    }

    /// Puts an event descriptor into the table, or clears its entry.
    pub fn handle_ioeventfd_req<E>(
        &self,
        table: &mut IoEventFds<E>,
        req: FrontendReq,
        body: &[u8],
        eventfd: Option<E>,
    ) -> (action: Result<EventFdAction<E>, Error>)
        requires
            old(table).wf(self.queues),
            req == FrontendReq::SET_VRING_CALL || req == FrontendReq::SET_VRING_ERR || req == FrontendReq::SET_LOG_FD,
        ensures
            final(table).wf(self.queues),
            self.eventfd_effect(
                self.eventfd_target(req, body@, eventfd is Some),
                eventfd,
                *old(table),
                *final(table),
                action,
            ),
    {
        let has_fd = eventfd.is_some();
        let (queue, queue_offset): (u8, u64) = match req {
            FrontendReq::SET_VRING_CALL => match self.handle_vring_fd_request(body, has_fd) {
                Ok(queue) => (queue, 0),
                Err(e) => {
                    return Err(e);
                },
            },
            FrontendReq::SET_VRING_ERR => match self.handle_vring_fd_request(body, has_fd) {
                Ok(queue) => (queue, 1),
                Err(e) => {
                    return Err(e);
                },
            },
            _ => {
                if body.len() > 0 {
                    return Err(Error::InvalidMessage);
                }
                if !has_fd {
                    return Err(Error::IncorrectFds);
                }
                (0, 2)
            },
        };
        let queues: u64 = self.queues as u64;
        assert(queues * queue_offset <= 2 * queues) by (nonlinear_arith)
            requires
                queue_offset <= 2,
        ;
        assert(queues * queue_offset == (if queue_offset == 0 {
            0
        } else if queue_offset == 1 {
            queues as int
        } else {
            2 * queues
        })) by (nonlinear_arith)
            requires
                queue_offset <= 2,
        ;
        let fd_offset: u64 = queue as u64 + queues * queue_offset;
        let offset: u64 = table.offset + 4 * fd_offset;
        let index: usize = fd_offset as usize;
        let mut unregister: Option<E> = eventfd;
        core::mem::swap(&mut table.fds[index], &mut unregister);
        let register: Option<usize> = if has_fd {
            Some(index)
        } else {
            None
        };
        Ok(EventFdAction::IoEvent { offset, unregister, register })
    }

    /// Takes the descriptor through which a queue is kicked.
    pub fn vring_kick<E>(&self, body: &[u8], eventfd: Option<E>) -> (action: Result<EventFdAction<E>, Error>)
        ensures
            action == (if vring_is_valid(self.order, self.queues, body@, eventfd is Some) {
                Ok::<EventFdAction<E>, Error>(
                    EventFdAction::Kick { fd: eventfd, queue: vring_of(self.order, body@) as u8 },
                )
            } else {
                Err(Error::InvalidMessage)
            }),
    {
        match self.handle_vring_fd_request(body, eventfd.is_some()) {
            Ok(queue) => Ok(EventFdAction::Kick { fd: eventfd, queue }),
            Err(e) => Err(e),
        }
    }

    /// Goes on with a request about an event descriptor, once it is known whether
    /// the file that came, if one came, is one.
    pub fn eventfd_request<E>(
        &self,
        table: &mut IoEventFds<E>,
        req: FrontendReq,
        body: &[u8],
        checked: Option<Result<E, EventFdError>>,
    ) -> (action: Result<EventFdAction<E>, Error>)
        requires
            old(table).wf(self.queues),
            req == FrontendReq::SET_VRING_CALL || req == FrontendReq::SET_VRING_ERR || req == FrontendReq::SET_LOG_FD
                || req == FrontendReq::SET_VRING_KICK,
        ensures
            final(table).wf(self.queues),
            checked matches Some(Err(e)) ==> *final(table) == *old(table) && action == Err::<EventFdAction<E>, Error>(
                eventfd_failure(e),
            ),
            checked is None ==> self.eventfd_effect(
                self.eventfd_target(req, body@, false),
                None,
                *old(table),
                *final(table),
                action,
            ),
            checked matches Some(Ok(fd)) ==> self.eventfd_effect(
                self.eventfd_target(req, body@, true),
                Some(fd),
                *old(table),
                *final(table),
                action,
            ),
    {
        let eventfd = match checked {
            None => None,
            Some(Ok(fd)) => Some(fd),
            Some(Err(EventFdError::NotEventFd)) => {
                return Err(Error::InvalidMessage);
            },
            Some(Err(EventFdError::IO(cause))) => {
                return Err(Error::ReqHandlerError(cause));
            },
        };
        match req {
            FrontendReq::SET_VRING_KICK => self.vring_kick(body, eventfd),
            _ => self.handle_ioeventfd_req(table, req, body, eventfd),
        }
    }

    /// Goes on with a mapping plan, and notes when the log was mapped.
    pub fn mapping_step<F>(&mut self, plan: &mut MappingPlan<F>, outcome: Result<(), Error>) -> (action: MappingAction<F>)
        requires
            old(plan).wf(),
            !old(plan).finished(),
        ensures
            final(plan).wf(),
            final(plan).same_as(*old(plan)),
            plan_moves(*old(plan), *final(plan), outcome, action),
            *final(self) == (FrontendRequestQueuePairInternals {
                seen_log_mapping: old(self).seen_log_mapping || (old(plan).for_log() && action
                    == MappingAction::<F>::Done(Ok(()))),
                ..*old(self)
            }),
    {
        let action = plan.advance(outcome);
        match &action {
            MappingAction::Done(Ok(_)) => {
                if plan.is_for_log() {
                    self.seen_log_mapping = true;
                }
            },
            _ => {},
        }
        action
    }

    /// Takes the socket for requests of the backend, once it is known whether the
    /// file that came is a stream socket. The socket goes to the virtual machine.
    pub fn backend_socket_checked<S>(&mut self, checked: Result<S, IoCause>) -> (socket: Result<S, Error>)
        ensures
            socket == (match checked {
                Ok(s) => Ok::<S, Error>(s),
                Err(cause) => Err(Error::ReqHandlerError(cause)),
            }),
            *final(self) == (FrontendRequestQueuePairInternals {
                seen_backend_req_socket: old(self).seen_backend_req_socket || checked is Ok,
                ..*old(self)
            }),
    {
        match checked {
            Ok(socket) => {
                self.seen_backend_req_socket = true;
                Ok(socket)
            },
            Err(cause) => Err(Error::ReqHandlerError(cause)),
        }
    }
}

/// What a file that is no event descriptor is answered with.
pub open spec fn eventfd_failure(e: EventFdError) -> Error {
    match e {
        EventFdError::NotEventFd => Error::InvalidMessage,
        EventFdError::IO(cause) => Error::ReqHandlerError(cause),
    }
}

/// A state can be loaded from a file that can be read, and saved to one that can
/// be written.
pub fn device_state_access(is_load: bool, access: FileAccess) -> (result: Result<(), Error>)
    ensures
        result == (if if is_load { access.readable } else { access.writable } {
            Ok::<(), Error>(())
        } else {
            Err(Error::InvalidMessage)
        }),
{
    if is_load && access.readable || !is_load && access.writable {
        Ok(())
    } else {
        Err(Error::InvalidMessage)
    }
}

/// Whether the status flags of a file fit the direction of the transfer.
pub fn device_state_flags(is_load: bool, flags: i32) -> (result: Result<(), Error>)
    ensures
        exists|f: OpenFlags|
            linux_open_flags(f) && result == (if if is_load {
                (#[trigger] file_access(f, flags)).readable
            } else {
                file_access(f, flags).writable
            } {
                Ok::<(), Error>(())
            } else {
                Err(Error::InvalidMessage)
            }),
        flags & 0x20_0000 == 0 ==> (result is Ok) == (flags & 3 == 2 || flags & 3 == (if is_load { 0i32 } else { 1i32 })),
{
    let access = classify_file_flags(flags);
    device_state_access(is_load, access)
}

/// What the request ends with, once the virtual machine was offered the file: it
/// takes one for each direction.
pub fn migration_fd_offered(is_load: bool, taken: bool) -> (result: Result<(), Error>)
    ensures
        result == (if taken {
            Ok::<(), Error>(())
        } else if is_load {
            Err(Error::InvalidOperation(Refusal::InboundMigrationFdAlreadySet))
        } else {
            Err(Error::InvalidOperation(Refusal::OutboundMigrationFdAlreadySet))
        }),
{
    if taken {
        Ok(())
    } else if is_load {
        Err(Error::InvalidOperation(Refusal::InboundMigrationFdAlreadySet))
    } else {
        Err(Error::InvalidOperation(Refusal::OutboundMigrationFdAlreadySet))
    }
}

/// What has to be done next for a queue pair.
pub enum PairAction {
    Inbound(IncomingAction),
    Outbound(OutgoingAction),
}

/// The queues that carry requests of the frontend and the replies to them.
pub struct FrontendRequestQueuePair<F, E, S, U> {
    pub queue_pair: VirtioVhostUserQueuePair<F, E, S>,
    pub internals: FrontendRequestQueuePairInternals,
    /// What the requests have handed over to the virtual machine.
    pub vm: U,
}

impl<F, E, S, U> FrontendRequestQueuePair<F, E, S, U> {
    /// The queues are in order, and everything is read in one byte order.
    pub open spec fn wf(&self) -> bool {
        &&& self.queue_pair.wf()
        &&& self.queue_pair.incoming@.order == self.internals.order
        &&& self.queue_pair.outgoing@.order == self.internals.order
    }

    /// Requests for a device with a number of queues.
    pub fn new(
        order: ByteOrder,
        queue_pair: VirtioVhostUserQueuePair<F, E, S>,
        queues: u8,
        vm: U,
    ) -> (pair: FrontendRequestQueuePair<F, E, S, U>)
        requires
            queue_pair.wf(),
            queue_pair.incoming@.order == order,
            queue_pair.outgoing@.order == order,
        ensures
            pair.wf(),
            pair.queue_pair == queue_pair,
            pair.vm == vm,
            pair.internals == (FrontendRequestQueuePairInternals {
                order,
                queues,
                seen_log_mapping: false,
                seen_backend_req_socket: false,
            }),
    {
        FrontendRequestQueuePair {
            queue_pair,
            internals: FrontendRequestQueuePairInternals {
                order,
                queues,
                seen_log_mapping: false,
                seen_backend_req_socket: false,
            },
            vm,
        }
    }

    /// What the requests have handed over, to be changed.
    pub fn vm_mut(&mut self) -> (vm: &mut U)
        ensures
            *vm == old(self).vm,
            *final(self) == (FrontendRequestQueuePair { vm: *final(vm), ..*old(self) }),
    {
        &mut self.vm
    }

    /// What the requests have handed over.
    pub fn vm(&mut self) -> (vm: &U)
        ensures
            *vm == old(self).vm,
            *final(self) == *old(self),
    {
        &self.vm
    }

    /// The descriptors of the queues.
    pub fn fds(&self) -> (fds: Fds<'_, E, S>)
        ensures
            *fds.queue_in == self.queue_pair.front2back_queue_evt,
            *fds.queue_out == self.queue_pair.back2front_queue_evt,
            fds.socket is Some <==> self.queue_pair.socket is Some,
            fds.socket matches Some(s) ==> *s == self.queue_pair.socket->0,
    {
        self.queue_pair.fds()
    }

    /// Starts to carry requests of the frontend to the guest.
    pub fn process_f2b_requests(&mut self, translate: bool, max_iterations: usize) -> (action: IncomingAction)
        requires
            old(self).wf(),
        ensures
            final(self).wf(),
            final(self).internals == old(self).internals,
            final(self).vm == old(self).vm,
            final(self).queue_pair.same_fds(&old(self).queue_pair),
            final(self).queue_pair.outgoing == old(self).queue_pair.outgoing,
            (final(self).queue_pair.incoming@, action) == old(self).queue_pair.incoming_start(translate, max_iterations),
    {
        self.queue_pair.process_incoming(translate, max_iterations)
    }

    /// Starts to carry replies of the guest to the frontend.
    pub fn process_b2f_replies(&mut self, translate: bool, max_iterations: usize) -> (action: OutgoingAction)
        requires
            old(self).wf(),
            old(self).queue_pair.outgoing@.stage == OutgoingStage::Idle,
        ensures
            final(self).wf(),
            final(self).internals == old(self).internals,
            final(self).vm == old(self).vm,
            final(self).queue_pair.same_fds(&old(self).queue_pair),
            final(self).queue_pair.incoming == old(self).queue_pair.incoming,
            (final(self).queue_pair.outgoing@, action) == old(self).queue_pair.outgoing_start(translate, max_iterations),
    {
        self.queue_pair.process_outgoing(translate, max_iterations)
    }

    /// Starts to carry messages one way.
    pub fn process(&mut self, translate: bool, direction: Direction, max_iterations: usize) -> (action: PairAction)
        requires
            old(self).wf(),
            old(self).queue_pair.outgoing@.stage == OutgoingStage::Idle,
        ensures
            final(self).wf(),
            final(self).internals == old(self).internals,
            final(self).vm == old(self).vm,
            final(self).queue_pair.same_fds(&old(self).queue_pair),
            match action {
                PairAction::Inbound(a) => {
                    &&& direction == Direction::Inbound
                    &&& final(self).queue_pair.outgoing == old(self).queue_pair.outgoing
                    &&& (final(self).queue_pair.incoming@, a) == old(self).queue_pair.incoming_start(
                        translate,
                        max_iterations,
                    )
                },
                PairAction::Outbound(a) => {
                    &&& direction == Direction::Outbound
                    &&& final(self).queue_pair.incoming == old(self).queue_pair.incoming
                    &&& (final(self).queue_pair.outgoing@, a) == old(self).queue_pair.outgoing_start(
                        translate,
                        max_iterations,
                    )
                },
            },
    {
        match direction {
            Direction::Inbound => PairAction::Inbound(self.process_f2b_requests(translate, max_iterations)),
            Direction::Outbound => PairAction::Outbound(self.process_b2f_replies(translate, max_iterations)),
        }
    }

    /// Says what the request that was received calls for, and takes its files. The
    /// request itself stays as it is, for the guest to read.
    pub fn request_received(&mut self) -> (plan: Result<Plan<F>, Error>)
        requires
            old(self).wf(),
            old(self).queue_pair.incoming@.stage == IncomingStage::Handling,
        ensures
            final(self).wf(),
            final(self).internals == old(self).internals,
            final(self).vm == old(self).vm,
            final(self).queue_pair.same_fds(&old(self).queue_pair),
            final(self).queue_pair.outgoing == old(self).queue_pair.outgoing,
            final(self).queue_pair.incoming@ == (IncomingView {
                files: Seq::<F>::empty(),
                ..old(self).queue_pair.incoming@
            }),
            plan matches Ok(p) ==> fresh(p),
            ({
                let data = old(self).queue_pair.incoming@.data;
                let hdr = header_of(old(self).internals.order, data);
                let known = (hdr.flags == 1 || hdr.flags == 9) && is_request_code(hdr.request);
                &&& !known ==> plan_view(plan) == Err::<PlanView<F>, Error>(Error::InvalidMessage)
                &&& forall|req: FrontendReq|
                    known && hdr.request == #[trigger] req.code_of() ==> plan_view(plan) == old(
                        self,
                    ).internals.plan_for(
                        req,
                        data.skip(HEADER_SIZE as int),
                        old(self).queue_pair.incoming@.files,
                    )
            }),
    {
        let files = self.queue_pair.incoming.take_files();
        let hdr = read_header(self.internals.order, self.queue_pair.incoming.message());
        self.internals.process_f2b_requests(hdr, self.queue_pair.incoming.body(), files)
    }

    /// Checks the reply that was read, changes it where that is needed, and goes on
    /// with sending it, unless it is refused.
    pub fn reply_read(&mut self) -> (action: OutgoingAction)
        requires
            old(self).wf(),
            old(self).queue_pair.outgoing@.stage == OutgoingStage::Processing,
        ensures
            final(self).wf(),
            final(self).internals == old(self).internals,
            final(self).vm == old(self).vm,
            final(self).queue_pair.same_fds(&old(self).queue_pair),
            final(self).queue_pair.incoming == old(self).queue_pair.incoming,
            ({
                let order = old(self).internals.order;
                let before = old(self).queue_pair.outgoing@;
                let after = final(self).queue_pair.outgoing@;
                let hdr = header_of(order, before.buf);
                let len = (before.buf.len() - HEADER_SIZE) as nat;
                if reply_is_valid(hdr, len) {
                    &&& action == OutgoingAction::NextDescriptor
                    &&& after == (OutgoingView { buf: after.buf, stage: OutgoingStage::Closing, ..before })
                    &&& after.buf.len() == before.buf.len()
                    &&& after.buf.take(HEADER_SIZE as int) == before.buf.take(HEADER_SIZE as int)
                    &&& if hdr.request == FrontendReq::GET_PROTOCOL_FEATURES.code_of() {
                        u64_at(order, after.buf.skip(HEADER_SIZE as int), 0) == (u64_at(
                            order,
                            before.buf.skip(HEADER_SIZE as int),
                            0,
                        ) as u64) & supported_features()
                    } else {
                        after.buf == before.buf
                    }
                } else {
                    (after, action) == before.discard(Error::InvalidMessage)
                }
            }),
    {
        let order = self.internals.order;
        let hdr = read_header(order, self.queue_pair.outgoing.pending());
        let ghost before = self.queue_pair.outgoing@;
        assert(before.pending() =~= before.buf);
        let result = validate_reply(order, hdr, self.queue_pair.outgoing.body_mut());
        let ghost after = self.queue_pair.outgoing@;
        assert(after.buf.take(HEADER_SIZE as int) =~= before.buf.take(HEADER_SIZE as int));
        assert(before.buf.take(HEADER_SIZE as int) + before.buf.skip(HEADER_SIZE as int) =~= before.buf);
        self.queue_pair.outgoing.message_processed(result)
    }

    /// The descriptor that has to become ready before messages can go on.
    pub fn polled_fd(&self, direction: Direction, rearm: FdRearm) -> (polled: Option<(PolledFd<'_, E, S>, Direction)>)
        requires
            rearm == FdRearm::Socket ==> self.queue_pair.socket is Some,
        ensures
            rearm == FdRearm::Neither ==> polled is None,
            rearm == FdRearm::Queue ==> {
                &&& polled matches Some((PolledFd::Queue(fd), way))
                &&& way == Direction::Inbound
                &&& *fd == (if direction == Direction::Inbound {
                    self.queue_pair.front2back_queue_evt
                } else {
                    self.queue_pair.back2front_queue_evt
                })
            },
            rearm == FdRearm::Socket ==> {
                &&& polled matches Some((PolledFd::Socket(socket), way))
                &&& way == direction
                &&& *socket == self.queue_pair.socket->0
            },
    {
        extract_fd(direction, rearm, self.fds())
    }
}

/// The frontend may ask for any of the protocol features that the checked reply
/// offers to it.
pub proof fn law_offered_features_are_accepted(order: ByteOrder, offered: Seq<u8>, shown: Seq<u8>, wanted: Seq<u8>)
    requires
        u64_at(order, shown, 0) == (u64_at(order, offered, 0) as u64) & supported_features(),
        wanted.len() == 8,
        (u64_at(order, wanted, 0) as u64) & !(u64_at(order, shown, 0) as u64) == 0,
    ensures
        features_are_supported(order, wanted),
{
    let o = u64_at(order, offered, 0) as u64;
    let w = u64_at(order, wanted, 0) as u64;
    assert(w & !(o & 0x1_a2d7u64) == 0 ==> w & !0x1_a2d7u64 == 0) by (bit_vector);
}

/// The log is mapped once, and the backend gets one socket: a second request of
/// either kind is refused, whatever comes with it.
pub proof fn law_once_only<F>(internals: FrontendRequestQueuePairInternals, body: Seq<u8>, files: Seq<F>)
    ensures
        internals.seen_log_mapping ==> internals.plan_for(FrontendReq::SET_LOG_BASE, body, files) == Err::<
            PlanView<F>,
            Error,
        >(Error::InvalidOperation(Refusal::DuplicateLogMapping)),
        internals.seen_backend_req_socket ==> internals.plan_for(FrontendReq::SET_BACKEND_REQ_FD, body, files) == Err::<
            PlanView<F>,
            Error,
        >(Error::InvalidOperation(Refusal::BackendRequestFdAlreadySent)),
{
}

/// Every signal has an entry of the table to itself: an entry tells the request
/// and the queue that it belongs to.
pub proof fn law_entries_do_not_collide(
    internals: FrontendRequestQueuePairInternals,
    req: FrontendReq,
    body: Seq<u8>,
    has_fd: bool,
    other_req: FrontendReq,
    other_body: Seq<u8>,
    other_has_fd: bool,
)
    requires
        internals.eventfd_target(req, body, has_fd) matches Ok(t) && t is Entry,
        internals.eventfd_target(req, body, has_fd) == internals.eventfd_target(other_req, other_body, other_has_fd),
    ensures
        req == other_req,
        req != FrontendReq::SET_LOG_FD ==> vring_of(internals.order, body) == vring_of(internals.order, other_body),
        0 <= internals.eventfd_target(req, body, has_fd)->Ok_0->Entry_0 <= 2 * internals.queues,
{
}

/// A descriptor that was put into the table is handed out again, with the same
/// address, by the next request for its entry.
pub proof fn law_registered_is_unregistered<E>(
    internals: FrontendRequestQueuePairInternals,
    entry: int,
    fd: E,
    next: Option<E>,
    table: IoEventFds<E>,
    table1: IoEventFds<E>,
    table2: IoEventFds<E>,
    action1: Result<EventFdAction<E>, Error>,
    action2: Result<EventFdAction<E>, Error>,
)
    requires
        0 <= entry < table.fds@.len(),
        internals.eventfd_effect(Ok(EventFdTarget::Entry(entry)), Some(fd), table, table1, action1),
        internals.eventfd_effect(Ok(EventFdTarget::Entry(entry)), next, table1, table2, action2),
    ensures
        action1 is Ok,
        action2 is Ok,
        action2->Ok_0->unregister == Some(fd),
        action2->Ok_0->offset == action1->Ok_0->offset,
{
}

/// A memory table is taken exactly if it has as many regions as files came, from one to
/// eight, no padding, and nothing behind the regions. Region after region, the four
/// numbers of each stand in its 32 bytes, and go with the file that came in its place.
pub proof fn law_table_is_mapped_as_it_stands<F>(
    internals: FrontendRequestQueuePairInternals,
    body: Seq<u8>,
    files: Seq<F>,
)
    ensures
        ({
            let order = internals.order;
            let plan = internals.plan_for(FrontendReq::SET_MEM_TABLE, body, files);
            &&& plan is Ok <==> {
                &&& 1 <= files.len() <= 8
                &&& body.len() == 8 + 32 * files.len()
                &&& u32_at(order, body, 0) == files.len()
                &&& u32_at(order, body, 4) == 0
            }
            &&& plan matches Ok(p) ==> {
                &&& p matches PlanView::MapRegions { regions, files: mapped, for_log } && {
                    &&& mapped == files
                    &&& !for_log
                    &&& regions.len() == files.len()
                    &&& forall|i: int|
                        0 <= i < files.len() ==> {
                            &&& (#[trigger] regions[i]).guest_phys_addr == u64_at(order, body, 8 + 32 * i)
                            &&& regions[i].memory_size == u64_at(order, body, 8 + 32 * i + 8)
                            &&& regions[i].user_addr == u64_at(order, body, 8 + 32 * i + 16)
                            &&& regions[i].mmap_offset == u64_at(order, body, 8 + 32 * i + 24)
                        }
                }
            }
            &&& plan matches Err(e) ==> e == Error::InvalidMessage
        }),
{
    let order = internals.order;
    if let Ok(PlanView::MapRegions { regions, .. }) = internals.plan_for(FrontendReq::SET_MEM_TABLE, body, files) {
        assert forall|i: int| 0 <= i < files.len() implies {
            &&& (#[trigger] regions[i]).guest_phys_addr == u64_at(order, body, 8 + 32 * i)
            &&& regions[i].memory_size == u64_at(order, body, 8 + 32 * i + 8)
            &&& regions[i].user_addr == u64_at(order, body, 8 + 32 * i + 16)
            &&& regions[i].mmap_offset == u64_at(order, body, 8 + 32 * i + 24)
        } by {
            law_fields_stand_in_order(order, body, 8 + 32 * i);
        }
    }
}

/// The same 32 bytes are the same region, whether they come in a table or alone, to be
/// added or to be removed.
pub proof fn law_region_is_the_same_in_every_request<F>(
    internals: FrontendRequestQueuePairInternals,
    table: Seq<u8>,
    i: int,
    files: Seq<F>,
    single: Seq<u8>,
    file: F,
)
    requires
        internals.plan_for(FrontendReq::SET_MEM_TABLE, table, files) is Ok,
        0 <= i < files.len(),
        single.len() == 40,
        single.skip(8) == table.subrange(8 + 32 * i, 8 + 32 * i + 32),
    ensures
        ({
            let region = internals.plan_for(FrontendReq::SET_MEM_TABLE, table, files)->Ok_0->regions[i];
            &&& internals.plan_for(FrontendReq::ADD_MEM_REG, single, seq![file]) == Ok::<PlanView<F>, Error>(
                PlanView::AddRegion { region, file },
            )
            &&& internals.plan_for(FrontendReq::REM_MEM_REG, single, Seq::<F>::empty()) == Ok::<PlanView<F>, Error>(
                PlanView::RemoveRegion { region },
            )
        }),
{
    law_table_is_mapped_as_it_stands(internals, table, files);
    let order = internals.order;
    assert forall|k: int| 0 <= k < MEMORY_REGION_SIZE implies #[trigger] single[8 + k] == table[(8 + 32 * i) + k] by {
        assert(single.skip(8)[k] == single[8 + k]);
        assert(table.len() >= 8 + 32 * i + 32);
        assert(table.subrange(8 + 32 * i, 8 + 32 * i + 32)[k] == table[(8 + 32 * i) + k]);
    }
    law_region_does_not_depend_on_its_place(order, single, 8, table, 8 + 32 * i);
    law_fields_stand_in_order(order, table, 8 + 32 * i);
}

/// A region that comes alone has its four numbers behind eight bytes of padding. To be
/// added it needs one file, to be removed it needs none.
pub proof fn law_single_regions<F>(internals: FrontendRequestQueuePairInternals, body: Seq<u8>, files: Seq<F>)
    ensures
        ({
            let order = internals.order;
            let add = internals.plan_for(FrontendReq::ADD_MEM_REG, body, files);
            let remove = internals.plan_for(FrontendReq::REM_MEM_REG, body, files);
            let is_region = |r: VhostUserMemoryRegion|
                {
                    &&& r.guest_phys_addr == u64_at(order, body, 8)
                    &&& r.memory_size == u64_at(order, body, 16)
                    &&& r.user_addr == u64_at(order, body, 24)
                    &&& r.mmap_offset == u64_at(order, body, 32)
                };
            &&& add is Ok <==> files.len() == 1 && body.len() == 40
            &&& add matches Ok(p) ==> p matches PlanView::AddRegion { region, file } && file == files[0] && is_region(
                region,
            )
            &&& add matches Err(e) ==> e == (if files.len() != 1 { Error::IncorrectFds } else { Error::InvalidMessage })
            &&& remove is Ok <==> files.len() <= 1 && body.len() == 40
            &&& remove matches Ok(p) ==> p matches PlanView::RemoveRegion { region } && is_region(region)
            &&& remove matches Err(e) ==> e == (if files.len() > 1 {
                Error::IncorrectFds
            } else {
                Error::InvalidMessage
            })
        }),
{
    law_fields_stand_in_order(internals.order, body, 8);
}

/// The log takes one file and two numbers, its size and its offset in the file. It is
/// mapped as one region that lies at no guest address.
pub proof fn law_log_lies_at_no_address<F>(internals: FrontendRequestQueuePairInternals, body: Seq<u8>, files: Seq<F>)
    requires
        !internals.seen_log_mapping,
    ensures
        ({
            let plan = internals.plan_for(FrontendReq::SET_LOG_BASE, body, files);
            &&& plan is Ok <==> files.len() == 1 && body.len() == 16
            &&& plan matches Ok(p) ==> {
                &&& p matches PlanView::MapRegions { regions, files: mapped, for_log } && {
                    &&& for_log
                    &&& mapped == files
                    &&& regions.len() == 1
                    &&& regions[0].memory_size == u64_at(internals.order, body, 0)
                    &&& regions[0].mmap_offset == u64_at(internals.order, body, 8)
                    &&& regions[0].guest_phys_addr == u64::MAX
                    &&& regions[0].user_addr == u64::MAX
                }
            }
            &&& plan matches Err(e) ==> e == Error::InvalidMessage
        }),
{
    law_fields_stand_in_order(internals.order, body, 0);
}

/// A transfer of state names a direction, 0 to save and 1 to load, and the only phase
/// that there is, 0. It comes with one file.
pub proof fn law_state_goes_one_way<F>(internals: FrontendRequestQueuePairInternals, body: Seq<u8>, files: Seq<F>)
    ensures
        ({
            let plan = internals.plan_for(FrontendReq::SET_DEVICE_STATE_FD, body, files);
            let direction = u32_at(internals.order, body, 0);
            &&& plan is Ok <==> {
                &&& body.len() == 8
                &&& direction <= 1
                &&& u32_at(internals.order, body, 4) == 0
                &&& files.len() == 1
            }
            &&& plan matches Ok(p) ==> p == (PlanView::ReadFileFlags { is_load: direction == 1, file: files[0] })
            &&& plan matches Err(e) ==> e == Error::InvalidMessage
        }),
{
    law_fields_stand_in_order(internals.order, body, 0);
    law_bytes_are_digits(body, 0);
}

/// A socket for requests of the backend, or an event descriptor, is taken as it came,
/// whatever else stands in the request.
pub proof fn law_files_are_taken_as_they_came<F>(
    internals: FrontendRequestQueuePairInternals,
    req: FrontendReq,
    body: Seq<u8>,
    files: Seq<F>,
)
    ensures
        !internals.seen_backend_req_socket ==> internals.plan_for(FrontendReq::SET_BACKEND_REQ_FD, body, files) == (
        if files.len() == 1 {
            Ok::<PlanView<F>, Error>(PlanView::CheckSocket { file: files[0] })
        } else {
            Err(Error::InvalidMessage)
        }),
        req == FrontendReq::SET_VRING_CALL || req == FrontendReq::SET_VRING_ERR || req == FrontendReq::SET_VRING_KICK
            || req == FrontendReq::SET_LOG_FD ==> {
            let plan = internals.plan_for(req, body, files);
            &&& files.len() == 0 ==> plan == Ok::<PlanView<F>, Error>(PlanView::CheckEventFd { req, eventfd: None })
            &&& files.len() == 1 ==> plan == Ok::<PlanView<F>, Error>(
                PlanView::CheckEventFd { req, eventfd: Some(files[0]) },
            )
            &&& files.len() > 1 ==> plan == Err::<PlanView<F>, Error>(Error::IncorrectFds)
        },
{
}

/// A request that is not meant to come with files is refused when it does. All others
/// are judged alike on requests without files: those that are not supported are
/// refused, five must have no body, the protocol features must be supported, and the
/// rest is passed on as it is.
pub proof fn law_simple_requests<F>(
    internals: FrontendRequestQueuePairInternals,
    req: FrontendReq,
    body: Seq<u8>,
    files: Seq<F>,
)
    ensures
        ({
            let code = req.code_of();
            let plan = internals.plan_for(req, body, files);
            let acts = code == 5 || code == 6 || code == 7 || 12 <= code <= 14 || code == 21 || code == 37 || code == 38
                || code == 42;
            let may_have_files = acts || code == 32 || code == 33;
            let unsupported = code == 22 || code == 23 || 28 <= code <= 33 || code == 35 || code == 41 || code == 43
                || code == 44;
            let bare = code == 1 || code == 3 || code == 15 || code == 17 || code == 34;
            &&& files.len() > 0 && !may_have_files ==> plan == Err::<PlanView<F>, Error>(Error::IncorrectFds)
            &&& (files.len() == 0 || may_have_files) && unsupported ==> plan == Err::<PlanView<F>, Error>(
                Error::FeatureMismatch,
            )
            &&& files.len() == 0 && bare ==> plan == (if body.len() == 0 {
                Ok::<PlanView<F>, Error>(PlanView::Nothing)
            } else {
                Err(Error::InvalidMessage)
            })
            &&& files.len() == 0 && code == 16 ==> plan == (if body.len() == 8 && (u64_at(internals.order, body, 0)
                as u64) | 0x1_a2d7 == 0x1_a2d7 {
                Ok::<PlanView<F>, Error>(PlanView::Nothing)
            } else {
                Err(Error::InvalidMessage)
            })
            &&& files.len() == 0 && !acts && !unsupported && !bare && code != 16 ==> plan == Ok::<PlanView<F>, Error>(
                PlanView::Nothing,
            )
        }),
{
    let wanted = u64_at(internals.order, body, 0) as u64;
    assert((wanted & !0x1_a2d7u64 == 0) == (wanted | 0x1_a2d7u64 == 0x1_a2d7u64)) by (bit_vector);
}

/// Of a number below 512, the rest by 256 is the queue, which must exist, and the ninth
/// bit says that no descriptor came. Calls, errors and the log have entries in that
/// order; a kick has none.
pub proof fn law_signals_have_their_entries(
    internals: FrontendRequestQueuePairInternals,
    req: FrontendReq,
    body: Seq<u8>,
    has_fd: bool,
)
    requires
        req == FrontendReq::SET_VRING_CALL || req == FrontendReq::SET_VRING_ERR || req == FrontendReq::SET_VRING_KICK
            || req == FrontendReq::SET_LOG_FD,
    ensures
        ({
            let target = internals.eventfd_target(req, body, has_fd);
            let number = u64_at(internals.order, body, 0);
            let queue = if has_fd { number } else { number - 256 };
            let queues = internals.queues as int;
            if req == FrontendReq::SET_LOG_FD {
                &&& target is Ok <==> body.len() == 0 && has_fd
                &&& target matches Ok(t) ==> t == EventFdTarget::Entry(queues + queues)
                &&& target matches Err(e) ==> e == (if body.len() > 0 {
                    Error::InvalidMessage
                } else {
                    Error::IncorrectFds
                })
            } else {
                &&& target is Ok <==> body.len() == 8 && 0 <= queue < queues
                &&& target matches Ok(t) ==> t == (if req == FrontendReq::SET_VRING_CALL {
                    EventFdTarget::Entry(queue)
                } else if req == FrontendReq::SET_VRING_ERR {
                    EventFdTarget::Entry(queue + queues)
                } else {
                    EventFdTarget::Kick(queue)
                })
                &&& target matches Err(e) ==> e == Error::InvalidMessage
            }
        }),
{
    law_halves_make_the_whole(body, 0);
}

/// An entry of the table changes alone: the descriptor that was there is given back, the
/// one that came takes its place, and both belong to the guest address that is four
/// bytes per entry behind the first.
pub proof fn law_one_entry_changes<E>(
    internals: FrontendRequestQueuePairInternals,
    target: Result<EventFdTarget, Error>,
    eventfd: Option<E>,
    before: IoEventFds<E>,
    after: IoEventFds<E>,
    action: Result<EventFdAction<E>, Error>,
    i: int,
)
    requires
        internals.eventfd_effect(target, eventfd, before, after, action),
        0 <= i < before.fds@.len(),
        target matches Ok(EventFdTarget::Entry(entry)) ==> 0 <= entry < before.fds@.len(),
    ensures
        after.offset == before.offset,
        after.fds@.len() == before.fds@.len(),
        target != Ok::<EventFdTarget, Error>(EventFdTarget::Entry(i)) ==> after.fds@[i] == before.fds@[i],
        target matches Ok(EventFdTarget::Entry(entry)) ==> {
            &&& after.fds@[entry] == eventfd
            &&& action matches Ok(EventFdAction::IoEvent { offset, unregister, register }) && {
                &&& offset - before.offset == 4 * entry
                &&& unregister == before.fds@[entry]
                &&& register is Some <==> eventfd is Some
                &&& register matches Some(r) ==> r == entry
            }
        },
        target matches Ok(EventFdTarget::Kick(queue)) ==> {
            &&& action matches Ok(EventFdAction::Kick { fd, queue: kicked }) && fd == eventfd && kicked == queue
        },
        target matches Err(e) ==> action == Err::<EventFdAction<E>, Error>(e),
{
}

/// A file that is no event descriptor is a wrong message; one that could not be looked
/// at is a failure of its own.
pub proof fn law_wrong_files_are_told_apart(cause: IoCause)
    ensures
        eventfd_failure(EventFdError::NotEventFd) == Error::InvalidMessage,
        eventfd_failure(EventFdError::IO(cause)) == Error::ReqHandlerError(cause),
{
}

/// A reply shows in its lowest eight flags that it is one, of version 1. About the
/// protocol features it has one number to say.
pub proof fn law_replies_are_marked(hdr: VhostUserMsgHeader, len: nat)
    ensures
        reply_is_valid(hdr, len) <==> hdr.flags % 256 == 5 && (hdr.request != 15 || len == 8),
{
    let flags = hdr.flags;
    assert(flags & 255 == flags % 256) by (bit_vector);
}

/// A plan says what it holds. A fresh one has all its steps before it.
pub proof fn law_plan_says_what_it_holds<F>(plan: Plan<F>)
    ensures
        match plan {
            Plan::Nothing => plan@ == PlanView::<F>::Nothing,
            Plan::MapRegions(m) => plan@ matches PlanView::MapRegions { regions, files, for_log } && regions
                == m.regions() && files == m.files() && for_log == m.for_log(),
            Plan::AddRegion { region, file } => plan@ == (PlanView::AddRegion { region, file }),
            Plan::RemoveRegion { region } => plan@ == (PlanView::<F>::RemoveRegion { region }),
            Plan::CheckEventFd { req, eventfd } => plan@ == (PlanView::CheckEventFd { req, eventfd }),
            Plan::CheckSocket { file } => plan@ == (PlanView::CheckSocket { file }),
            Plan::ReadFileFlags { is_load, file } => plan@ == (PlanView::ReadFileFlags { is_load, file }),
        },
        fresh(plan) && plan is MapRegions ==> plan->MapRegions_0.taken() == 0 && !plan->MapRegions_0.finished(),
        plan_view(Ok(plan)) == Ok::<PlanView<F>, Error>(plan@),
        forall|e: Error| plan_view(Err::<Plan<F>, Error>(e)) == Err::<PlanView<F>, Error>(e),
{
}

} // verus!
