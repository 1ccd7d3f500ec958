//! Telemetry event types: the event-type codes, the event records a node
//! reports, and what each record says about its peer.

use vstd::prelude::*;

verus! {

pub type Timestamp = u64;
pub type EventId = u64;
pub type PeerId = [u8; 32];
pub type Hash = [u8; 32];
pub type HeaderHash = Hash;
pub type WorkPackageHash = Hash;
pub type WorkReportHash = Hash;
pub type ErasureRoot = Hash;
pub type SegmentsRoot = Hash;
pub type Slot = u32;
pub type EpochIndex = u32;
pub type ValidatorIndex = u16;
pub type CoreIndex = u16;
pub type ServiceId = u32;
pub type ShardIndex = u16;
pub type Gas = u64;
pub type TicketId = Hash;
pub type TicketAttempt = u8;
pub type ImportSegmentId = u16;

/// Free-text reason attached to failure events.
#[derive(Debug, Clone)]
pub struct Reason(pub String);

#[derive(Debug, Clone, Copy)]
pub struct PeerAddress {
    pub ipv6: [u8; 16],
    pub port: u16,
}

#[derive(Debug, Clone)]
pub struct PeerDetails {
    pub peer_id: PeerId,
    pub peer_address: PeerAddress,
}

/// Which side of a connection acted.
#[derive(Debug, Clone, Copy, PartialEq, Eq, Structural)]
pub enum ConnectionSide {
    Local,
    Remote,
}

#[derive(Debug, Clone, Copy, PartialEq, Eq, Structural)]
pub enum BlockRequestDirection {
    Ascending,
    Descending,
}

#[derive(Debug, Clone, Copy, PartialEq, Eq, Structural)]
pub enum GuaranteeDiscardReason {
    PackageReportedOnChain,
    ReplacedByBetter,
    CannotReportOnChain,
    TooManyGuarantees,
    Other,
}

#[derive(Debug, Clone, Copy, PartialEq, Eq, Structural)]
pub enum AnnouncedPreimageForgetReason {
    ProvidedOnChain,
    NotRequestedOnChain,
    FailedToAcquire,
    TooManyAnnounced,
    BadLength,
    Other,
}

#[derive(Debug, Clone, Copy, PartialEq, Eq, Structural)]
pub enum PreimageDiscardReason {
    ProvidedOnChain,
    NotRequestedOnChain,
    TooManyPreimages,
    Other,
}

#[derive(Debug, Clone, Copy, PartialEq, Eq, Structural)]
pub enum ReconstructionKind {
    NonTrivial,
    Trivial,
}

#[derive(Debug, Clone)]
pub struct BlockOutline {
    pub size_bytes: u32,
    pub hash: HeaderHash,
    pub num_tickets: u32,
    pub num_preimages: u32,
    pub total_preimages_size: u32,
    pub num_guarantees: u32,
    pub num_assurances: u32,
    pub num_dispute_verdicts: u32,
}

#[derive(Debug, Clone)]
pub struct WorkPackageOutline {
    pub work_package_size: u32,
    pub work_package_hash: WorkPackageHash,
    pub anchor: HeaderHash,
    pub lookup_anchor_slot: Slot,
}

#[derive(Debug, Clone)]
pub struct WorkReportOutline {
    pub work_report_hash: WorkReportHash,
    pub bundle_size: u32,
    pub erasure_root: ErasureRoot,
    pub segments_root: SegmentsRoot,
}

#[derive(Debug, Clone)]
pub struct GuaranteeOutline {
    pub work_report_hash: WorkReportHash,
    pub slot: Slot,
    pub guarantors: Vec<ValidatorIndex>,
}

#[derive(Debug, Clone)]
pub struct AvailabilityStatement {
    pub anchor: HeaderHash,
    pub bitfield: Vec<u8>,
}

#[derive(Debug, Clone)]
pub struct ExecCost {
    pub gas_used: Gas,
    pub elapsed_ns: u64,
}

#[derive(Debug, Clone)]
pub struct IsAuthorizedCost {
    pub total: ExecCost,
    pub load_ns: u64,
    pub host_call: ExecCost,
}

#[derive(Debug, Clone)]
pub struct RefineCost {
    pub total: ExecCost,
    pub load_ns: u64,
}

#[derive(Debug, Clone)]
pub struct AccumulateCost {
    pub num_calls: u32,
    pub num_transfers: u32,
    pub num_items: u32,
    pub total: ExecCost,
    pub load_ns: u64,
}

/// Kind of a telemetry event. Each kind has a numeric code (see `code`),
/// grouped in ranges by protocol area.
#[derive(Debug, Clone, Copy, PartialEq, Eq, Hash, Structural)]
pub enum EventType {

    // Meta events
    Dropped,

    // Status and sync
    Status,
    BestBlockChanged,
    FinalizedBlockChanged,
    SyncStatusChanged,

    // Connection events
    ConnectionRefused,
    ConnectingIn,
    ConnectInFailed,
    ConnectedIn,
    ConnectingOut,
    ConnectOutFailed,
    ConnectedOut,
    Disconnected,
    PeerMisbehaved,

    // Authoring and importing
    Authoring,
    AuthoringFailed,
    Authored,
    Importing,
    BlockVerificationFailed,
    BlockVerified,
    BlockExecutionFailed,
    BlockExecuted,

    // Block distribution
    BlockAnnouncementStreamOpened,
    BlockAnnouncementStreamClosed,
    BlockAnnounced,
    SendingBlockRequest,
    ReceivingBlockRequest,
    BlockRequestFailed,
    BlockRequestSent,
    BlockRequestReceived,
    BlockTransferred,

    // Ticket generation and transfer
    GeneratingTickets,
    TicketGenerationFailed,
    TicketsGenerated,
    TicketTransferFailed,
    TicketTransferred,

    // Work package submission
    WorkPackageSubmission,
    WorkPackageBeingShared,
    WorkPackageFailed,
    DuplicateWorkPackage,
    WorkPackageReceived,
    Authorized,
    ExtrinsicDataReceived,
    ImportsReceived,
    SharingWorkPackage,
    WorkPackageSharingFailed,
    BundleSent,
    Refined,
    WorkReportBuilt,
    WorkReportSignatureSent,
    WorkReportSignatureReceived,
    GuaranteeBuilt,
    SendingGuarantee,
    GuaranteeSendFailed,
    GuaranteeSent,
    GuaranteesDistributed,
    ReceivingGuarantee,
    GuaranteeReceiveFailed,
    GuaranteeReceived,
    GuaranteeDiscarded,

    // Shard requests
    SendingShardRequest,
    ReceivingShardRequest,
    ShardRequestFailed,
    ShardRequestSent,
    ShardRequestReceived,
    ShardsTransferred,

    // Assurance distribution
    DistributingAssurance,
    AssuranceSendFailed,
    AssuranceSent,
    AssuranceDistributed,
    AssuranceReceiveFailed,
    AssuranceReceived,

    // Bundle shard requests
    SendingBundleShardRequest,
    ReceivingBundleShardRequest,
    BundleShardRequestFailed,
    BundleShardRequestSent,
    BundleShardRequestReceived,
    BundleShardTransferred,
    ReconstructingBundle,
    BundleReconstructed,
    SendingBundleRequest,
    ReceivingBundleRequest,
    BundleRequestFailed,
    BundleRequestSent,
    BundleRequestReceived,
    BundleTransferred,

    // Work package hash mapping
    WorkPackageHashMapped,
    SegmentsRootMapped,

    // Segment shard requests
    SendingSegmentShardRequest,
    ReceivingSegmentShardRequest,
    SegmentShardRequestFailed,
    SegmentShardRequestSent,
    SegmentShardRequestReceived,
    SegmentShardsTransferred,

    // Segment reconstruction
    ReconstructingSegments,
    SegmentReconstructionFailed,
    SegmentsReconstructed,
    SegmentVerificationFailed,
    SegmentsVerified,
    SendingSegmentRequest,
    ReceivingSegmentRequest,
    SegmentRequestFailed,
    SegmentRequestSent,
    SegmentRequestReceived,
    SegmentsTransferred,

    // Preimage events
    PreimageAnnouncementFailed,
    PreimageAnnounced,
    AnnouncedPreimageForgotten,
    SendingPreimageRequest,
    ReceivingPreimageRequest,
    PreimageRequestFailed,
    PreimageRequestSent,
    PreimageRequestReceived,
    PreimageTransferred,
    PreimageDiscarded,
}

impl EventType {
    /// The numeric code of this event kind.
    pub open spec fn spec_code(self) -> u8 {
        match self {
            EventType::Dropped => 0,
            EventType::Status => 10,
            EventType::BestBlockChanged => 11,
            EventType::FinalizedBlockChanged => 12,
            EventType::SyncStatusChanged => 13,
            EventType::ConnectionRefused => 20,
            EventType::ConnectingIn => 21,
            EventType::ConnectInFailed => 22,
            EventType::ConnectedIn => 23,
            EventType::ConnectingOut => 24,
            EventType::ConnectOutFailed => 25,
            EventType::ConnectedOut => 26,
            EventType::Disconnected => 27,
            EventType::PeerMisbehaved => 28,
            EventType::Authoring => 40,
            EventType::AuthoringFailed => 41,
            EventType::Authored => 42,
            EventType::Importing => 43,
            EventType::BlockVerificationFailed => 44,
            EventType::BlockVerified => 45,
            EventType::BlockExecutionFailed => 46,
            EventType::BlockExecuted => 47,
            EventType::BlockAnnouncementStreamOpened => 60,
            EventType::BlockAnnouncementStreamClosed => 61,
            EventType::BlockAnnounced => 62,
            EventType::SendingBlockRequest => 63,
            EventType::ReceivingBlockRequest => 64,
            EventType::BlockRequestFailed => 65,
            EventType::BlockRequestSent => 66,
            EventType::BlockRequestReceived => 67,
            EventType::BlockTransferred => 68,
            EventType::GeneratingTickets => 80,
            EventType::TicketGenerationFailed => 81,
            EventType::TicketsGenerated => 82,
            EventType::TicketTransferFailed => 83,
            EventType::TicketTransferred => 84,
            EventType::WorkPackageSubmission => 90,
            EventType::WorkPackageBeingShared => 91,
            EventType::WorkPackageFailed => 92,
            EventType::DuplicateWorkPackage => 93,
            EventType::WorkPackageReceived => 94,
            EventType::Authorized => 95,
            EventType::ExtrinsicDataReceived => 96,
            EventType::ImportsReceived => 97,
            EventType::SharingWorkPackage => 98,
            EventType::WorkPackageSharingFailed => 99,
            EventType::BundleSent => 100,
            EventType::Refined => 101,
            EventType::WorkReportBuilt => 102,
            EventType::WorkReportSignatureSent => 103,
            EventType::WorkReportSignatureReceived => 104,
            EventType::GuaranteeBuilt => 105,
            EventType::SendingGuarantee => 106,
            EventType::GuaranteeSendFailed => 107,
            EventType::GuaranteeSent => 108,
            EventType::GuaranteesDistributed => 109,
            EventType::ReceivingGuarantee => 110,
            EventType::GuaranteeReceiveFailed => 111,
            EventType::GuaranteeReceived => 112,
            EventType::GuaranteeDiscarded => 113,
            EventType::SendingShardRequest => 120,
            EventType::ReceivingShardRequest => 121,
            EventType::ShardRequestFailed => 122,
            EventType::ShardRequestSent => 123,
            EventType::ShardRequestReceived => 124,
            EventType::ShardsTransferred => 125,
            EventType::DistributingAssurance => 126,
            EventType::AssuranceSendFailed => 127,
            EventType::AssuranceSent => 128,
            EventType::AssuranceDistributed => 129,
            EventType::AssuranceReceiveFailed => 130,
            EventType::AssuranceReceived => 131,
            EventType::SendingBundleShardRequest => 140,
            EventType::ReceivingBundleShardRequest => 141,
            EventType::BundleShardRequestFailed => 142,
            EventType::BundleShardRequestSent => 143,
            EventType::BundleShardRequestReceived => 144,
            EventType::BundleShardTransferred => 145,
            EventType::ReconstructingBundle => 146,
            EventType::BundleReconstructed => 147,
            EventType::SendingBundleRequest => 148,
            EventType::ReceivingBundleRequest => 149,
            EventType::BundleRequestFailed => 150,
            EventType::BundleRequestSent => 151,
            EventType::BundleRequestReceived => 152,
            EventType::BundleTransferred => 153,
            EventType::WorkPackageHashMapped => 160,
            EventType::SegmentsRootMapped => 161,
            EventType::SendingSegmentShardRequest => 162,
            EventType::ReceivingSegmentShardRequest => 163,
            EventType::SegmentShardRequestFailed => 164,
            EventType::SegmentShardRequestSent => 165,
            EventType::SegmentShardRequestReceived => 166,
            EventType::SegmentShardsTransferred => 167,
            EventType::ReconstructingSegments => 168,
            EventType::SegmentReconstructionFailed => 169,
            EventType::SegmentsReconstructed => 170,
            EventType::SegmentVerificationFailed => 171,
            EventType::SegmentsVerified => 172,
            EventType::SendingSegmentRequest => 173,
            EventType::ReceivingSegmentRequest => 174,
            EventType::SegmentRequestFailed => 175,
            EventType::SegmentRequestSent => 176,
            EventType::SegmentRequestReceived => 177,
            EventType::SegmentsTransferred => 178,
            EventType::PreimageAnnouncementFailed => 190,
            EventType::PreimageAnnounced => 191,
            EventType::AnnouncedPreimageForgotten => 192,
            EventType::SendingPreimageRequest => 193,
            EventType::ReceivingPreimageRequest => 194,
            EventType::PreimageRequestFailed => 195,
            EventType::PreimageRequestSent => 196,
            EventType::PreimageRequestReceived => 197,
            EventType::PreimageTransferred => 198,
            EventType::PreimageDiscarded => 199,
        }
    }

    /// The numeric code of this event kind.
    #[verifier::when_used_as_spec(spec_code)]
    pub fn code(self) -> (r: u8)
        ensures
            r == self.spec_code(),
    {
        match self {
            EventType::Dropped => 0,
            EventType::Status => 10,
            EventType::BestBlockChanged => 11,
            EventType::FinalizedBlockChanged => 12,
            EventType::SyncStatusChanged => 13,
            EventType::ConnectionRefused => 20,
            EventType::ConnectingIn => 21,
            EventType::ConnectInFailed => 22,
            EventType::ConnectedIn => 23,
            EventType::ConnectingOut => 24,
            EventType::ConnectOutFailed => 25,
            EventType::ConnectedOut => 26,
            EventType::Disconnected => 27,
            EventType::PeerMisbehaved => 28,
            EventType::Authoring => 40,
            EventType::AuthoringFailed => 41,
            EventType::Authored => 42,
            EventType::Importing => 43,
            EventType::BlockVerificationFailed => 44,
            EventType::BlockVerified => 45,
            EventType::BlockExecutionFailed => 46,
            EventType::BlockExecuted => 47,
            EventType::BlockAnnouncementStreamOpened => 60,
            EventType::BlockAnnouncementStreamClosed => 61,
            EventType::BlockAnnounced => 62,
            EventType::SendingBlockRequest => 63,
            EventType::ReceivingBlockRequest => 64,
            EventType::BlockRequestFailed => 65,
            EventType::BlockRequestSent => 66,
            EventType::BlockRequestReceived => 67,
            EventType::BlockTransferred => 68,
            EventType::GeneratingTickets => 80,
            EventType::TicketGenerationFailed => 81,
            EventType::TicketsGenerated => 82,
            EventType::TicketTransferFailed => 83,
            EventType::TicketTransferred => 84,
            EventType::WorkPackageSubmission => 90,
            EventType::WorkPackageBeingShared => 91,
            EventType::WorkPackageFailed => 92,
            EventType::DuplicateWorkPackage => 93,
            EventType::WorkPackageReceived => 94,
            EventType::Authorized => 95,
            EventType::ExtrinsicDataReceived => 96,
            EventType::ImportsReceived => 97,
            EventType::SharingWorkPackage => 98,
            EventType::WorkPackageSharingFailed => 99,
            EventType::BundleSent => 100,
            EventType::Refined => 101,
            EventType::WorkReportBuilt => 102,
            EventType::WorkReportSignatureSent => 103,
            EventType::WorkReportSignatureReceived => 104,
            EventType::GuaranteeBuilt => 105,
            EventType::SendingGuarantee => 106,
            EventType::GuaranteeSendFailed => 107,
            EventType::GuaranteeSent => 108,
            EventType::GuaranteesDistributed => 109,
            EventType::ReceivingGuarantee => 110,
            EventType::GuaranteeReceiveFailed => 111,
            EventType::GuaranteeReceived => 112,
            EventType::GuaranteeDiscarded => 113,
            EventType::SendingShardRequest => 120,
            EventType::ReceivingShardRequest => 121,
            EventType::ShardRequestFailed => 122,
            EventType::ShardRequestSent => 123,
            EventType::ShardRequestReceived => 124,
            EventType::ShardsTransferred => 125,
            EventType::DistributingAssurance => 126,
            EventType::AssuranceSendFailed => 127,
            EventType::AssuranceSent => 128,
            EventType::AssuranceDistributed => 129,
            EventType::AssuranceReceiveFailed => 130,
            EventType::AssuranceReceived => 131,
            EventType::SendingBundleShardRequest => 140,
            EventType::ReceivingBundleShardRequest => 141,
            EventType::BundleShardRequestFailed => 142,
            EventType::BundleShardRequestSent => 143,
            EventType::BundleShardRequestReceived => 144,
            EventType::BundleShardTransferred => 145,
            EventType::ReconstructingBundle => 146,
            EventType::BundleReconstructed => 147,
            EventType::SendingBundleRequest => 148,
            EventType::ReceivingBundleRequest => 149,
            EventType::BundleRequestFailed => 150,
            EventType::BundleRequestSent => 151,
            EventType::BundleRequestReceived => 152,
            EventType::BundleTransferred => 153,
            EventType::WorkPackageHashMapped => 160,
            EventType::SegmentsRootMapped => 161,
            EventType::SendingSegmentShardRequest => 162,
            EventType::ReceivingSegmentShardRequest => 163,
            EventType::SegmentShardRequestFailed => 164,
            EventType::SegmentShardRequestSent => 165,
            EventType::SegmentShardRequestReceived => 166,
            EventType::SegmentShardsTransferred => 167,
            EventType::ReconstructingSegments => 168,
            EventType::SegmentReconstructionFailed => 169,
            EventType::SegmentsReconstructed => 170,
            EventType::SegmentVerificationFailed => 171,
            EventType::SegmentsVerified => 172,
            EventType::SendingSegmentRequest => 173,
            EventType::ReceivingSegmentRequest => 174,
            EventType::SegmentRequestFailed => 175,
            EventType::SegmentRequestSent => 176,
            EventType::SegmentRequestReceived => 177,
            EventType::SegmentsTransferred => 178,
            EventType::PreimageAnnouncementFailed => 190,
            EventType::PreimageAnnounced => 191,
            EventType::AnnouncedPreimageForgotten => 192,
            EventType::SendingPreimageRequest => 193,
            EventType::ReceivingPreimageRequest => 194,
            EventType::PreimageRequestFailed => 195,
            EventType::PreimageRequestSent => 196,
            EventType::PreimageRequestReceived => 197,
            EventType::PreimageTransferred => 198,
            EventType::PreimageDiscarded => 199,
        }
    }

    /// Index of this kind in a table indexed by event code.
    pub fn idx(self) -> (r: usize)
        ensures
            r == self.spec_code() as usize,
    {
        self.code() as usize
    }

    /// The kind whose code is `value`, if any.
    pub fn from_u8(value: u8) -> (r: Option<EventType>)
        ensures
            match r {
                Some(t) => t.spec_code() == value,
                None => forall|t: EventType| #[trigger] t.spec_code() != value,
            },
            r == decode_event_type(value),
    {
        match value {
            0 => Some(EventType::Dropped),
            10 => Some(EventType::Status),
            11 => Some(EventType::BestBlockChanged),
            12 => Some(EventType::FinalizedBlockChanged),
            13 => Some(EventType::SyncStatusChanged),
            20 => Some(EventType::ConnectionRefused),
            21 => Some(EventType::ConnectingIn),
            22 => Some(EventType::ConnectInFailed),
            23 => Some(EventType::ConnectedIn),
            24 => Some(EventType::ConnectingOut),
            25 => Some(EventType::ConnectOutFailed),
            26 => Some(EventType::ConnectedOut),
            27 => Some(EventType::Disconnected),
            28 => Some(EventType::PeerMisbehaved),
            40 => Some(EventType::Authoring),
            41 => Some(EventType::AuthoringFailed),
            42 => Some(EventType::Authored),
            43 => Some(EventType::Importing),
            44 => Some(EventType::BlockVerificationFailed),
            45 => Some(EventType::BlockVerified),
            46 => Some(EventType::BlockExecutionFailed),
            47 => Some(EventType::BlockExecuted),
            60 => Some(EventType::BlockAnnouncementStreamOpened),
            61 => Some(EventType::BlockAnnouncementStreamClosed),
            62 => Some(EventType::BlockAnnounced),
            63 => Some(EventType::SendingBlockRequest),
            64 => Some(EventType::ReceivingBlockRequest),
            65 => Some(EventType::BlockRequestFailed),
            66 => Some(EventType::BlockRequestSent),
            67 => Some(EventType::BlockRequestReceived),
            68 => Some(EventType::BlockTransferred),
            80 => Some(EventType::GeneratingTickets),
            81 => Some(EventType::TicketGenerationFailed),
            82 => Some(EventType::TicketsGenerated),
            83 => Some(EventType::TicketTransferFailed),
            84 => Some(EventType::TicketTransferred),
            90 => Some(EventType::WorkPackageSubmission),
            91 => Some(EventType::WorkPackageBeingShared),
            92 => Some(EventType::WorkPackageFailed),
            93 => Some(EventType::DuplicateWorkPackage),
            94 => Some(EventType::WorkPackageReceived),
            95 => Some(EventType::Authorized),
            96 => Some(EventType::ExtrinsicDataReceived),
            97 => Some(EventType::ImportsReceived),
            98 => Some(EventType::SharingWorkPackage),
            99 => Some(EventType::WorkPackageSharingFailed),
            100 => Some(EventType::BundleSent),
            101 => Some(EventType::Refined),
            102 => Some(EventType::WorkReportBuilt),
            103 => Some(EventType::WorkReportSignatureSent),
            104 => Some(EventType::WorkReportSignatureReceived),
            105 => Some(EventType::GuaranteeBuilt),
            106 => Some(EventType::SendingGuarantee),
            107 => Some(EventType::GuaranteeSendFailed),
            108 => Some(EventType::GuaranteeSent),
            109 => Some(EventType::GuaranteesDistributed),
            110 => Some(EventType::ReceivingGuarantee),
            111 => Some(EventType::GuaranteeReceiveFailed),
            112 => Some(EventType::GuaranteeReceived),
            113 => Some(EventType::GuaranteeDiscarded),
            120 => Some(EventType::SendingShardRequest),
            121 => Some(EventType::ReceivingShardRequest),
            122 => Some(EventType::ShardRequestFailed),
            123 => Some(EventType::ShardRequestSent),
            124 => Some(EventType::ShardRequestReceived),
            125 => Some(EventType::ShardsTransferred),
            126 => Some(EventType::DistributingAssurance),
            127 => Some(EventType::AssuranceSendFailed),
            128 => Some(EventType::AssuranceSent),
            129 => Some(EventType::AssuranceDistributed),
            130 => Some(EventType::AssuranceReceiveFailed),
            131 => Some(EventType::AssuranceReceived),
            140 => Some(EventType::SendingBundleShardRequest),
            141 => Some(EventType::ReceivingBundleShardRequest),
            142 => Some(EventType::BundleShardRequestFailed),
            143 => Some(EventType::BundleShardRequestSent),
            144 => Some(EventType::BundleShardRequestReceived),
            145 => Some(EventType::BundleShardTransferred),
            146 => Some(EventType::ReconstructingBundle),
            147 => Some(EventType::BundleReconstructed),
            148 => Some(EventType::SendingBundleRequest),
            149 => Some(EventType::ReceivingBundleRequest),
            150 => Some(EventType::BundleRequestFailed),
            151 => Some(EventType::BundleRequestSent),
            152 => Some(EventType::BundleRequestReceived),
            153 => Some(EventType::BundleTransferred),
            160 => Some(EventType::WorkPackageHashMapped),
            161 => Some(EventType::SegmentsRootMapped),
            162 => Some(EventType::SendingSegmentShardRequest),
            163 => Some(EventType::ReceivingSegmentShardRequest),
            164 => Some(EventType::SegmentShardRequestFailed),
            165 => Some(EventType::SegmentShardRequestSent),
            166 => Some(EventType::SegmentShardRequestReceived),
            167 => Some(EventType::SegmentShardsTransferred),
            168 => Some(EventType::ReconstructingSegments),
            169 => Some(EventType::SegmentReconstructionFailed),
            170 => Some(EventType::SegmentsReconstructed),
            171 => Some(EventType::SegmentVerificationFailed),
            172 => Some(EventType::SegmentsVerified),
            173 => Some(EventType::SendingSegmentRequest),
            174 => Some(EventType::ReceivingSegmentRequest),
            175 => Some(EventType::SegmentRequestFailed),
            176 => Some(EventType::SegmentRequestSent),
            177 => Some(EventType::SegmentRequestReceived),
            178 => Some(EventType::SegmentsTransferred),
            190 => Some(EventType::PreimageAnnouncementFailed),
            191 => Some(EventType::PreimageAnnounced),
            192 => Some(EventType::AnnouncedPreimageForgotten),
            193 => Some(EventType::SendingPreimageRequest),
            194 => Some(EventType::ReceivingPreimageRequest),
            195 => Some(EventType::PreimageRequestFailed),
            196 => Some(EventType::PreimageRequestSent),
            197 => Some(EventType::PreimageRequestReceived),
            198 => Some(EventType::PreimageTransferred),
            199 => Some(EventType::PreimageDiscarded),
            _ => None,
        }
    }
}


/// The kind whose code is `value`, if any.
pub open spec fn decode_event_type(value: u8) -> Option<EventType> {
    match value {
        0 => Some(EventType::Dropped),
        10 => Some(EventType::Status),
        11 => Some(EventType::BestBlockChanged),
        12 => Some(EventType::FinalizedBlockChanged),
        13 => Some(EventType::SyncStatusChanged),
        20 => Some(EventType::ConnectionRefused),
        21 => Some(EventType::ConnectingIn),
        22 => Some(EventType::ConnectInFailed),
        23 => Some(EventType::ConnectedIn),
        24 => Some(EventType::ConnectingOut),
        25 => Some(EventType::ConnectOutFailed),
        26 => Some(EventType::ConnectedOut),
        27 => Some(EventType::Disconnected),
        28 => Some(EventType::PeerMisbehaved),
        40 => Some(EventType::Authoring),
        41 => Some(EventType::AuthoringFailed),
        42 => Some(EventType::Authored),
        43 => Some(EventType::Importing),
        44 => Some(EventType::BlockVerificationFailed),
        45 => Some(EventType::BlockVerified),
        46 => Some(EventType::BlockExecutionFailed),
        47 => Some(EventType::BlockExecuted),
        60 => Some(EventType::BlockAnnouncementStreamOpened),
        61 => Some(EventType::BlockAnnouncementStreamClosed),
        62 => Some(EventType::BlockAnnounced),
        63 => Some(EventType::SendingBlockRequest),
        64 => Some(EventType::ReceivingBlockRequest),
        65 => Some(EventType::BlockRequestFailed),
        66 => Some(EventType::BlockRequestSent),
        67 => Some(EventType::BlockRequestReceived),
        68 => Some(EventType::BlockTransferred),
        80 => Some(EventType::GeneratingTickets),
        81 => Some(EventType::TicketGenerationFailed),
        82 => Some(EventType::TicketsGenerated),
        83 => Some(EventType::TicketTransferFailed),
        84 => Some(EventType::TicketTransferred),
        90 => Some(EventType::WorkPackageSubmission),
        91 => Some(EventType::WorkPackageBeingShared),
        92 => Some(EventType::WorkPackageFailed),
        93 => Some(EventType::DuplicateWorkPackage),
        94 => Some(EventType::WorkPackageReceived),
        95 => Some(EventType::Authorized),
        96 => Some(EventType::ExtrinsicDataReceived),
        97 => Some(EventType::ImportsReceived),
        98 => Some(EventType::SharingWorkPackage),
        99 => Some(EventType::WorkPackageSharingFailed),
        100 => Some(EventType::BundleSent),
        101 => Some(EventType::Refined),
        102 => Some(EventType::WorkReportBuilt),
        103 => Some(EventType::WorkReportSignatureSent),
        104 => Some(EventType::WorkReportSignatureReceived),
        105 => Some(EventType::GuaranteeBuilt),
        106 => Some(EventType::SendingGuarantee),
        107 => Some(EventType::GuaranteeSendFailed),
        108 => Some(EventType::GuaranteeSent),
        109 => Some(EventType::GuaranteesDistributed),
        110 => Some(EventType::ReceivingGuarantee),
        111 => Some(EventType::GuaranteeReceiveFailed),
        112 => Some(EventType::GuaranteeReceived),
        113 => Some(EventType::GuaranteeDiscarded),
        120 => Some(EventType::SendingShardRequest),
        121 => Some(EventType::ReceivingShardRequest),
        122 => Some(EventType::ShardRequestFailed),
        123 => Some(EventType::ShardRequestSent),
        124 => Some(EventType::ShardRequestReceived),
        125 => Some(EventType::ShardsTransferred),
        126 => Some(EventType::DistributingAssurance),
        127 => Some(EventType::AssuranceSendFailed),
        128 => Some(EventType::AssuranceSent),
        129 => Some(EventType::AssuranceDistributed),
        130 => Some(EventType::AssuranceReceiveFailed),
        131 => Some(EventType::AssuranceReceived),
        140 => Some(EventType::SendingBundleShardRequest),
        141 => Some(EventType::ReceivingBundleShardRequest),
        142 => Some(EventType::BundleShardRequestFailed),
        143 => Some(EventType::BundleShardRequestSent),
        144 => Some(EventType::BundleShardRequestReceived),
        145 => Some(EventType::BundleShardTransferred),
        146 => Some(EventType::ReconstructingBundle),
        147 => Some(EventType::BundleReconstructed),
        148 => Some(EventType::SendingBundleRequest),
        149 => Some(EventType::ReceivingBundleRequest),
        150 => Some(EventType::BundleRequestFailed),
        151 => Some(EventType::BundleRequestSent),
        152 => Some(EventType::BundleRequestReceived),
        153 => Some(EventType::BundleTransferred),
        160 => Some(EventType::WorkPackageHashMapped),
        161 => Some(EventType::SegmentsRootMapped),
        162 => Some(EventType::SendingSegmentShardRequest),
        163 => Some(EventType::ReceivingSegmentShardRequest),
        164 => Some(EventType::SegmentShardRequestFailed),
        165 => Some(EventType::SegmentShardRequestSent),
        166 => Some(EventType::SegmentShardRequestReceived),
        167 => Some(EventType::SegmentShardsTransferred),
        168 => Some(EventType::ReconstructingSegments),
        169 => Some(EventType::SegmentReconstructionFailed),
        170 => Some(EventType::SegmentsReconstructed),
        171 => Some(EventType::SegmentVerificationFailed),
        172 => Some(EventType::SegmentsVerified),
        173 => Some(EventType::SendingSegmentRequest),
        174 => Some(EventType::ReceivingSegmentRequest),
        175 => Some(EventType::SegmentRequestFailed),
        176 => Some(EventType::SegmentRequestSent),
        177 => Some(EventType::SegmentRequestReceived),
        178 => Some(EventType::SegmentsTransferred),
        190 => Some(EventType::PreimageAnnouncementFailed),
        191 => Some(EventType::PreimageAnnounced),
        192 => Some(EventType::AnnouncedPreimageForgotten),
        193 => Some(EventType::SendingPreimageRequest),
        194 => Some(EventType::ReceivingPreimageRequest),
        195 => Some(EventType::PreimageRequestFailed),
        196 => Some(EventType::PreimageRequestSent),
        197 => Some(EventType::PreimageRequestReceived),
        198 => Some(EventType::PreimageTransferred),
        199 => Some(EventType::PreimageDiscarded),
        _ => None,
    }
}

/// A telemetry event as reported by a node.
#[derive(Debug, Clone)]
pub enum Event {
    Dropped {
        timestamp: Timestamp,
        last_timestamp: Timestamp,
        num: u64,
    },
    Status {
        timestamp: Timestamp,
        num_peers: u32,
        num_val_peers: u32,
        num_sync_peers: u32,
        num_guarantees: Vec<u8>,
        num_shards: u32,
        shards_size: u64,
        num_preimages: u32,
        preimages_size: u32,
    },
    BestBlockChanged {
        timestamp: Timestamp,
        slot: Slot,
        hash: HeaderHash,
    },
    FinalizedBlockChanged {
        timestamp: Timestamp,
        slot: Slot,
        hash: HeaderHash,
    },
    SyncStatusChanged {
        timestamp: Timestamp,
        synced: bool,
    },
    ConnectionRefused {
        timestamp: Timestamp,
        from: PeerAddress,
    },
    ConnectingIn {
        timestamp: Timestamp,
        from: PeerAddress,
    },
    ConnectInFailed {
        timestamp: Timestamp,
        connecting_id: EventId,
        reason: Reason,
    },
    ConnectedIn {
        timestamp: Timestamp,
        connecting_id: EventId,
        peer_id: PeerId,
    },
    ConnectingOut {
        timestamp: Timestamp,
        to: PeerDetails,
    },
    ConnectOutFailed {
        timestamp: Timestamp,
        connecting_id: EventId,
        reason: Reason,
    },
    ConnectedOut {
        timestamp: Timestamp,
        connecting_id: EventId,
    },
    Disconnected {
        timestamp: Timestamp,
        peer: PeerId,
        terminator: Option<ConnectionSide>,
        reason: Reason,
    },
    PeerMisbehaved {
        timestamp: Timestamp,
        peer: PeerId,
        reason: Reason,
    },
    Authoring {
        timestamp: Timestamp,
        slot: Slot,
        parent: HeaderHash,
    },
    AuthoringFailed {
        timestamp: Timestamp,
        authoring_id: EventId,
        reason: Reason,
    },
    Authored {
        timestamp: Timestamp,
        authoring_id: EventId,
        outline: BlockOutline,
    },
    Importing {
        timestamp: Timestamp,
        slot: Slot,
        outline: BlockOutline,
    },
    BlockVerificationFailed {
        timestamp: Timestamp,
        importing_id: EventId,
        reason: Reason,
    },
    BlockVerified {
        timestamp: Timestamp,
        importing_id: EventId,
    },
    BlockExecutionFailed {
        timestamp: Timestamp,
        authoring_or_importing_id: EventId,
        reason: Reason,
    },
    BlockExecuted {
        timestamp: Timestamp,
        authoring_or_importing_id: EventId,
        accumulate_costs: Vec<(ServiceId, AccumulateCost)>,
    },
    BlockAnnouncementStreamOpened {
        timestamp: Timestamp,
        peer: PeerId,
        opener: ConnectionSide,
    },
    BlockAnnouncementStreamClosed {
        timestamp: Timestamp,
        peer: PeerId,
        closer: ConnectionSide,
        reason: Reason,
    },
    BlockAnnounced {
        timestamp: Timestamp,
        peer: PeerId,
        announcer: ConnectionSide,
        slot: Slot,
        hash: HeaderHash,
    },
    SendingBlockRequest {
        timestamp: Timestamp,
        recipient: PeerId,
        hash: HeaderHash,
        direction: BlockRequestDirection,
        max_blocks: u32,
    },
    ReceivingBlockRequest {
        timestamp: Timestamp,
        sender: PeerId,
    },
    BlockRequestFailed {
        timestamp: Timestamp,
        request_id: EventId,
        reason: Reason,
    },
    BlockRequestSent {
        timestamp: Timestamp,
        request_id: EventId,
    },
    BlockRequestReceived {
        timestamp: Timestamp,
        request_id: EventId,
        hash: HeaderHash,
        direction: BlockRequestDirection,
        max_blocks: u32,
    },
    BlockTransferred {
        timestamp: Timestamp,
        request_id: EventId,
        slot: Slot,
        outline: BlockOutline,
        last: bool,
    },
    GeneratingTickets {
        timestamp: Timestamp,
        epoch: EpochIndex,
    },
    TicketGenerationFailed {
        timestamp: Timestamp,
        generating_id: EventId,
        reason: Reason,
    },
    TicketsGenerated {
        timestamp: Timestamp,
        generating_id: EventId,
        ids: Vec<TicketId>,
    },
    TicketTransferFailed {
        timestamp: Timestamp,
        peer: PeerId,
        sender: ConnectionSide,
        from_proxy: bool,
        reason: Reason,
    },
    TicketTransferred {
        timestamp: Timestamp,
        peer: PeerId,
        sender: ConnectionSide,
        from_proxy: bool,
        epoch: EpochIndex,
        attempt: TicketAttempt,
        id: TicketId,
    },
    WorkPackageSubmission {
        timestamp: Timestamp,
        builder: PeerId,
        bundle: bool,
    },
    WorkPackageBeingShared {
        timestamp: Timestamp,
        primary: PeerId,
    },
    WorkPackageFailed {
        timestamp: Timestamp,
        submission_or_share_id: EventId,
        reason: Reason,
    },
    DuplicateWorkPackage {
        timestamp: Timestamp,
        submission_or_share_id: EventId,
        core: CoreIndex,
        hash: WorkPackageHash,
    },
    WorkPackageReceived {
        timestamp: Timestamp,
        submission_or_share_id: EventId,
        core: CoreIndex,
        outline: WorkPackageOutline,
    },
    Authorized {
        timestamp: Timestamp,
        submission_or_share_id: EventId,
        cost: IsAuthorizedCost,
    },
    ExtrinsicDataReceived {
        timestamp: Timestamp,
        submission_or_share_id: EventId,
    },
    ImportsReceived {
        timestamp: Timestamp,
        submission_or_share_id: EventId,
    },
    SharingWorkPackage {
        timestamp: Timestamp,
        submission_id: EventId,
        secondary: PeerId,
    },
    WorkPackageSharingFailed {
        timestamp: Timestamp,
        submission_id: EventId,
        secondary: PeerId,
        reason: Reason,
    },
    BundleSent {
        timestamp: Timestamp,
        submission_id: EventId,
        secondary: PeerId,
    },
    Refined {
        timestamp: Timestamp,
        submission_or_share_id: EventId,
        costs: Vec<RefineCost>,
    },
    WorkReportBuilt {
        timestamp: Timestamp,
        submission_or_share_id: EventId,
        outline: WorkReportOutline,
    },
    WorkReportSignatureSent {
        timestamp: Timestamp,
        share_id: EventId,
    },
    WorkReportSignatureReceived {
        timestamp: Timestamp,
        submission_id: EventId,
        secondary: PeerId,
    },
    GuaranteeBuilt {
        timestamp: Timestamp,
        submission_id: EventId,
        outline: GuaranteeOutline,
    },
    SendingGuarantee {
        timestamp: Timestamp,
        built_id: EventId,
        recipient: PeerId,
    },
    GuaranteeSendFailed {
        timestamp: Timestamp,
        sending_id: EventId,
        reason: Reason,
    },
    GuaranteeSent {
        timestamp: Timestamp,
        sending_id: EventId,
    },
    GuaranteesDistributed {
        timestamp: Timestamp,
        submission_id: EventId,
    },
    ReceivingGuarantee {
        timestamp: Timestamp,
        sender: PeerId,
    },
    GuaranteeReceiveFailed {
        timestamp: Timestamp,
        receiving_id: EventId,
        reason: Reason,
    },
    GuaranteeReceived {
        timestamp: Timestamp,
        receiving_id: EventId,
        outline: GuaranteeOutline,
    },
    GuaranteeDiscarded {
        timestamp: Timestamp,
        outline: GuaranteeOutline,
        reason: GuaranteeDiscardReason,
    },
    SendingShardRequest {
        timestamp: Timestamp,
        guarantor: PeerId,
        erasure_root: ErasureRoot,
        shard: ShardIndex,
    },
    ReceivingShardRequest {
        timestamp: Timestamp,
        assurer: PeerId,
    },
    ShardRequestFailed {
        timestamp: Timestamp,
        request_id: EventId,
        reason: Reason,
    },
    ShardRequestSent {
        timestamp: Timestamp,
        request_id: EventId,
    },
    ShardRequestReceived {
        timestamp: Timestamp,
        request_id: EventId,
        erasure_root: ErasureRoot,
        shard: ShardIndex,
    },
    ShardsTransferred {
        timestamp: Timestamp,
        request_id: EventId,
    },
    DistributingAssurance {
        timestamp: Timestamp,
        statement: AvailabilityStatement,
    },
    AssuranceSendFailed {
        timestamp: Timestamp,
        distributing_id: EventId,
        recipient: PeerId,
        reason: Reason,
    },
    AssuranceSent {
        timestamp: Timestamp,
        distributing_id: EventId,
        recipient: PeerId,
    },
    AssuranceDistributed {
        timestamp: Timestamp,
        distributing_id: EventId,
    },
    AssuranceReceiveFailed {
        timestamp: Timestamp,
        sender: PeerId,
        reason: Reason,
    },
    AssuranceReceived {
        timestamp: Timestamp,
        sender: PeerId,
        anchor: HeaderHash,
    },
    SendingBundleShardRequest { timestamp: Timestamp },
    ReceivingBundleShardRequest { timestamp: Timestamp },
    BundleShardRequestFailed { timestamp: Timestamp },
    BundleShardRequestSent { timestamp: Timestamp },
    BundleShardRequestReceived { timestamp: Timestamp },
    BundleShardTransferred { timestamp: Timestamp },
    ReconstructingBundle { timestamp: Timestamp },
    BundleReconstructed { timestamp: Timestamp },
    SendingBundleRequest { timestamp: Timestamp },
    ReceivingBundleRequest { timestamp: Timestamp },
    BundleRequestFailed { timestamp: Timestamp },
    BundleRequestSent { timestamp: Timestamp },
    BundleRequestReceived { timestamp: Timestamp },
    BundleTransferred { timestamp: Timestamp },
    WorkPackageHashMapped { timestamp: Timestamp },
    SegmentsRootMapped { timestamp: Timestamp },
    SendingSegmentShardRequest { timestamp: Timestamp },
    ReceivingSegmentShardRequest { timestamp: Timestamp },
    SegmentShardRequestFailed { timestamp: Timestamp },
    SegmentShardRequestSent { timestamp: Timestamp },
    SegmentShardRequestReceived { timestamp: Timestamp },
    SegmentShardsTransferred { timestamp: Timestamp },
    ReconstructingSegments { timestamp: Timestamp },
    SegmentReconstructionFailed { timestamp: Timestamp },
    SegmentsReconstructed { timestamp: Timestamp },
    SegmentVerificationFailed { timestamp: Timestamp },
    SegmentsVerified { timestamp: Timestamp },
    SendingSegmentRequest { timestamp: Timestamp },
    ReceivingSegmentRequest { timestamp: Timestamp },
    SegmentRequestFailed { timestamp: Timestamp },
    SegmentRequestSent { timestamp: Timestamp },
    SegmentRequestReceived { timestamp: Timestamp },
    SegmentsTransferred { timestamp: Timestamp },
    PreimageAnnouncementFailed { timestamp: Timestamp },
    PreimageAnnounced { timestamp: Timestamp },
    AnnouncedPreimageForgotten { timestamp: Timestamp },
    SendingPreimageRequest { timestamp: Timestamp },
    ReceivingPreimageRequest { timestamp: Timestamp },
    PreimageRequestFailed { timestamp: Timestamp },
    PreimageRequestSent { timestamp: Timestamp },
    PreimageRequestReceived { timestamp: Timestamp },
    PreimageTransferred { timestamp: Timestamp },
    PreimageDiscarded { timestamp: Timestamp },
}

impl Event {
    /// The kind of this event.
    pub open spec fn kind(&self) -> EventType {
        match self {
            Event::Dropped { .. } => EventType::Dropped,
            Event::Status { .. } => EventType::Status,
            Event::BestBlockChanged { .. } => EventType::BestBlockChanged,
            Event::FinalizedBlockChanged { .. } => EventType::FinalizedBlockChanged,
            Event::SyncStatusChanged { .. } => EventType::SyncStatusChanged,
            Event::ConnectionRefused { .. } => EventType::ConnectionRefused,
            Event::ConnectingIn { .. } => EventType::ConnectingIn,
            Event::ConnectInFailed { .. } => EventType::ConnectInFailed,
            Event::ConnectedIn { .. } => EventType::ConnectedIn,
            Event::ConnectingOut { .. } => EventType::ConnectingOut,
            Event::ConnectOutFailed { .. } => EventType::ConnectOutFailed,
            Event::ConnectedOut { .. } => EventType::ConnectedOut,
            Event::Disconnected { .. } => EventType::Disconnected,
            Event::PeerMisbehaved { .. } => EventType::PeerMisbehaved,
            Event::Authoring { .. } => EventType::Authoring,
            Event::AuthoringFailed { .. } => EventType::AuthoringFailed,
            Event::Authored { .. } => EventType::Authored,
            Event::Importing { .. } => EventType::Importing,
            Event::BlockVerificationFailed { .. } => EventType::BlockVerificationFailed,
            Event::BlockVerified { .. } => EventType::BlockVerified,
            Event::BlockExecutionFailed { .. } => EventType::BlockExecutionFailed,
            Event::BlockExecuted { .. } => EventType::BlockExecuted,
            Event::BlockAnnouncementStreamOpened { .. } => EventType::BlockAnnouncementStreamOpened,
            Event::BlockAnnouncementStreamClosed { .. } => EventType::BlockAnnouncementStreamClosed,
            Event::BlockAnnounced { .. } => EventType::BlockAnnounced,
            Event::SendingBlockRequest { .. } => EventType::SendingBlockRequest,
            Event::ReceivingBlockRequest { .. } => EventType::ReceivingBlockRequest,
            Event::BlockRequestFailed { .. } => EventType::BlockRequestFailed,
            Event::BlockRequestSent { .. } => EventType::BlockRequestSent,
            Event::BlockRequestReceived { .. } => EventType::BlockRequestReceived,
            Event::BlockTransferred { .. } => EventType::BlockTransferred,
            Event::GeneratingTickets { .. } => EventType::GeneratingTickets,
            Event::TicketGenerationFailed { .. } => EventType::TicketGenerationFailed,
            Event::TicketsGenerated { .. } => EventType::TicketsGenerated,
            Event::TicketTransferFailed { .. } => EventType::TicketTransferFailed,
            Event::TicketTransferred { .. } => EventType::TicketTransferred,
            Event::WorkPackageSubmission { .. } => EventType::WorkPackageSubmission,
            Event::WorkPackageBeingShared { .. } => EventType::WorkPackageBeingShared,
            Event::WorkPackageFailed { .. } => EventType::WorkPackageFailed,
            Event::DuplicateWorkPackage { .. } => EventType::DuplicateWorkPackage,
            Event::WorkPackageReceived { .. } => EventType::WorkPackageReceived,
            Event::Authorized { .. } => EventType::Authorized,
            Event::ExtrinsicDataReceived { .. } => EventType::ExtrinsicDataReceived,
            Event::ImportsReceived { .. } => EventType::ImportsReceived,
            Event::SharingWorkPackage { .. } => EventType::SharingWorkPackage,
            Event::WorkPackageSharingFailed { .. } => EventType::WorkPackageSharingFailed,
            Event::BundleSent { .. } => EventType::BundleSent,
            Event::Refined { .. } => EventType::Refined,
            Event::WorkReportBuilt { .. } => EventType::WorkReportBuilt,
            Event::WorkReportSignatureSent { .. } => EventType::WorkReportSignatureSent,
            Event::WorkReportSignatureReceived { .. } => EventType::WorkReportSignatureReceived,
            Event::GuaranteeBuilt { .. } => EventType::GuaranteeBuilt,
            Event::SendingGuarantee { .. } => EventType::SendingGuarantee,
            Event::GuaranteeSendFailed { .. } => EventType::GuaranteeSendFailed,
            Event::GuaranteeSent { .. } => EventType::GuaranteeSent,
            Event::GuaranteesDistributed { .. } => EventType::GuaranteesDistributed,
            Event::ReceivingGuarantee { .. } => EventType::ReceivingGuarantee,
            Event::GuaranteeReceiveFailed { .. } => EventType::GuaranteeReceiveFailed,
            Event::GuaranteeReceived { .. } => EventType::GuaranteeReceived,
            Event::GuaranteeDiscarded { .. } => EventType::GuaranteeDiscarded,
            Event::SendingShardRequest { .. } => EventType::SendingShardRequest,
            Event::ReceivingShardRequest { .. } => EventType::ReceivingShardRequest,
            Event::ShardRequestFailed { .. } => EventType::ShardRequestFailed,
            Event::ShardRequestSent { .. } => EventType::ShardRequestSent,
            Event::ShardRequestReceived { .. } => EventType::ShardRequestReceived,
            Event::ShardsTransferred { .. } => EventType::ShardsTransferred,
            Event::DistributingAssurance { .. } => EventType::DistributingAssurance,
            Event::AssuranceSendFailed { .. } => EventType::AssuranceSendFailed,
            Event::AssuranceSent { .. } => EventType::AssuranceSent,
            Event::AssuranceDistributed { .. } => EventType::AssuranceDistributed,
            Event::AssuranceReceiveFailed { .. } => EventType::AssuranceReceiveFailed,
            Event::AssuranceReceived { .. } => EventType::AssuranceReceived,
            Event::SendingBundleShardRequest { .. } => EventType::SendingBundleShardRequest,
            Event::ReceivingBundleShardRequest { .. } => EventType::ReceivingBundleShardRequest,
            Event::BundleShardRequestFailed { .. } => EventType::BundleShardRequestFailed,
            Event::BundleShardRequestSent { .. } => EventType::BundleShardRequestSent,
            Event::BundleShardRequestReceived { .. } => EventType::BundleShardRequestReceived,
            Event::BundleShardTransferred { .. } => EventType::BundleShardTransferred,
            Event::ReconstructingBundle { .. } => EventType::ReconstructingBundle,
            Event::BundleReconstructed { .. } => EventType::BundleReconstructed,
            Event::SendingBundleRequest { .. } => EventType::SendingBundleRequest,
            Event::ReceivingBundleRequest { .. } => EventType::ReceivingBundleRequest,
            Event::BundleRequestFailed { .. } => EventType::BundleRequestFailed,
            Event::BundleRequestSent { .. } => EventType::BundleRequestSent,
            Event::BundleRequestReceived { .. } => EventType::BundleRequestReceived,
            Event::BundleTransferred { .. } => EventType::BundleTransferred,
            Event::WorkPackageHashMapped { .. } => EventType::WorkPackageHashMapped,
            Event::SegmentsRootMapped { .. } => EventType::SegmentsRootMapped,
            Event::SendingSegmentShardRequest { .. } => EventType::SendingSegmentShardRequest,
            Event::ReceivingSegmentShardRequest { .. } => EventType::ReceivingSegmentShardRequest,
            Event::SegmentShardRequestFailed { .. } => EventType::SegmentShardRequestFailed,
            Event::SegmentShardRequestSent { .. } => EventType::SegmentShardRequestSent,
            Event::SegmentShardRequestReceived { .. } => EventType::SegmentShardRequestReceived,
            Event::SegmentShardsTransferred { .. } => EventType::SegmentShardsTransferred,
            Event::ReconstructingSegments { .. } => EventType::ReconstructingSegments,
            Event::SegmentReconstructionFailed { .. } => EventType::SegmentReconstructionFailed,
            Event::SegmentsReconstructed { .. } => EventType::SegmentsReconstructed,
            Event::SegmentVerificationFailed { .. } => EventType::SegmentVerificationFailed,
            Event::SegmentsVerified { .. } => EventType::SegmentsVerified,
            Event::SendingSegmentRequest { .. } => EventType::SendingSegmentRequest,
            Event::ReceivingSegmentRequest { .. } => EventType::ReceivingSegmentRequest,
            Event::SegmentRequestFailed { .. } => EventType::SegmentRequestFailed,
            Event::SegmentRequestSent { .. } => EventType::SegmentRequestSent,
            Event::SegmentRequestReceived { .. } => EventType::SegmentRequestReceived,
            Event::SegmentsTransferred { .. } => EventType::SegmentsTransferred,
            Event::PreimageAnnouncementFailed { .. } => EventType::PreimageAnnouncementFailed,
            Event::PreimageAnnounced { .. } => EventType::PreimageAnnounced,
            Event::AnnouncedPreimageForgotten { .. } => EventType::AnnouncedPreimageForgotten,
            Event::SendingPreimageRequest { .. } => EventType::SendingPreimageRequest,
            Event::ReceivingPreimageRequest { .. } => EventType::ReceivingPreimageRequest,
            Event::PreimageRequestFailed { .. } => EventType::PreimageRequestFailed,
            Event::PreimageRequestSent { .. } => EventType::PreimageRequestSent,
            Event::PreimageRequestReceived { .. } => EventType::PreimageRequestReceived,
            Event::PreimageTransferred { .. } => EventType::PreimageTransferred,
            Event::PreimageDiscarded { .. } => EventType::PreimageDiscarded,
        }
    }

    /// The kind of this event.
    pub fn event_type(&self) -> (r: EventType)
        ensures
            r == self.kind(),
    {
        match self {
            Event::Dropped { .. } => EventType::Dropped,
            Event::Status { .. } => EventType::Status,
            Event::BestBlockChanged { .. } => EventType::BestBlockChanged,
            Event::FinalizedBlockChanged { .. } => EventType::FinalizedBlockChanged,
            Event::SyncStatusChanged { .. } => EventType::SyncStatusChanged,
            Event::ConnectionRefused { .. } => EventType::ConnectionRefused,
            Event::ConnectingIn { .. } => EventType::ConnectingIn,
            Event::ConnectInFailed { .. } => EventType::ConnectInFailed,
            Event::ConnectedIn { .. } => EventType::ConnectedIn,
            Event::ConnectingOut { .. } => EventType::ConnectingOut,
            Event::ConnectOutFailed { .. } => EventType::ConnectOutFailed,
            Event::ConnectedOut { .. } => EventType::ConnectedOut,
            Event::Disconnected { .. } => EventType::Disconnected,
            Event::PeerMisbehaved { .. } => EventType::PeerMisbehaved,
            Event::Authoring { .. } => EventType::Authoring,
            Event::AuthoringFailed { .. } => EventType::AuthoringFailed,
            Event::Authored { .. } => EventType::Authored,
            Event::Importing { .. } => EventType::Importing,
            Event::BlockVerificationFailed { .. } => EventType::BlockVerificationFailed,
            Event::BlockVerified { .. } => EventType::BlockVerified,
            Event::BlockExecutionFailed { .. } => EventType::BlockExecutionFailed,
            Event::BlockExecuted { .. } => EventType::BlockExecuted,
            Event::BlockAnnouncementStreamOpened { .. } => EventType::BlockAnnouncementStreamOpened,
            Event::BlockAnnouncementStreamClosed { .. } => EventType::BlockAnnouncementStreamClosed,
            Event::BlockAnnounced { .. } => EventType::BlockAnnounced,
            Event::SendingBlockRequest { .. } => EventType::SendingBlockRequest,
            Event::ReceivingBlockRequest { .. } => EventType::ReceivingBlockRequest,
            Event::BlockRequestFailed { .. } => EventType::BlockRequestFailed,
            Event::BlockRequestSent { .. } => EventType::BlockRequestSent,
            Event::BlockRequestReceived { .. } => EventType::BlockRequestReceived,
            Event::BlockTransferred { .. } => EventType::BlockTransferred,
            Event::GeneratingTickets { .. } => EventType::GeneratingTickets,
            Event::TicketGenerationFailed { .. } => EventType::TicketGenerationFailed,
            Event::TicketsGenerated { .. } => EventType::TicketsGenerated,
            Event::TicketTransferFailed { .. } => EventType::TicketTransferFailed,
            Event::TicketTransferred { .. } => EventType::TicketTransferred,
            Event::WorkPackageSubmission { .. } => EventType::WorkPackageSubmission,
            Event::WorkPackageBeingShared { .. } => EventType::WorkPackageBeingShared,
            Event::WorkPackageFailed { .. } => EventType::WorkPackageFailed,
            Event::DuplicateWorkPackage { .. } => EventType::DuplicateWorkPackage,
            Event::WorkPackageReceived { .. } => EventType::WorkPackageReceived,
            Event::Authorized { .. } => EventType::Authorized,
            Event::ExtrinsicDataReceived { .. } => EventType::ExtrinsicDataReceived,
            Event::ImportsReceived { .. } => EventType::ImportsReceived,
            Event::SharingWorkPackage { .. } => EventType::SharingWorkPackage,
            Event::WorkPackageSharingFailed { .. } => EventType::WorkPackageSharingFailed,
            Event::BundleSent { .. } => EventType::BundleSent,
            Event::Refined { .. } => EventType::Refined,
            Event::WorkReportBuilt { .. } => EventType::WorkReportBuilt,
            Event::WorkReportSignatureSent { .. } => EventType::WorkReportSignatureSent,
            Event::WorkReportSignatureReceived { .. } => EventType::WorkReportSignatureReceived,
            Event::GuaranteeBuilt { .. } => EventType::GuaranteeBuilt,
            Event::SendingGuarantee { .. } => EventType::SendingGuarantee,
            Event::GuaranteeSendFailed { .. } => EventType::GuaranteeSendFailed,
            Event::GuaranteeSent { .. } => EventType::GuaranteeSent,
            Event::GuaranteesDistributed { .. } => EventType::GuaranteesDistributed,
            Event::ReceivingGuarantee { .. } => EventType::ReceivingGuarantee,
            Event::GuaranteeReceiveFailed { .. } => EventType::GuaranteeReceiveFailed,
            Event::GuaranteeReceived { .. } => EventType::GuaranteeReceived,
            Event::GuaranteeDiscarded { .. } => EventType::GuaranteeDiscarded,
            Event::SendingShardRequest { .. } => EventType::SendingShardRequest,
            Event::ReceivingShardRequest { .. } => EventType::ReceivingShardRequest,
            Event::ShardRequestFailed { .. } => EventType::ShardRequestFailed,
            Event::ShardRequestSent { .. } => EventType::ShardRequestSent,
            Event::ShardRequestReceived { .. } => EventType::ShardRequestReceived,
            Event::ShardsTransferred { .. } => EventType::ShardsTransferred,
            Event::DistributingAssurance { .. } => EventType::DistributingAssurance,
            Event::AssuranceSendFailed { .. } => EventType::AssuranceSendFailed,
            Event::AssuranceSent { .. } => EventType::AssuranceSent,
            Event::AssuranceDistributed { .. } => EventType::AssuranceDistributed,
            Event::AssuranceReceiveFailed { .. } => EventType::AssuranceReceiveFailed,
            Event::AssuranceReceived { .. } => EventType::AssuranceReceived,
            Event::SendingBundleShardRequest { .. } => EventType::SendingBundleShardRequest,
            Event::ReceivingBundleShardRequest { .. } => EventType::ReceivingBundleShardRequest,
            Event::BundleShardRequestFailed { .. } => EventType::BundleShardRequestFailed,
            Event::BundleShardRequestSent { .. } => EventType::BundleShardRequestSent,
            Event::BundleShardRequestReceived { .. } => EventType::BundleShardRequestReceived,
            Event::BundleShardTransferred { .. } => EventType::BundleShardTransferred,
            Event::ReconstructingBundle { .. } => EventType::ReconstructingBundle,
            Event::BundleReconstructed { .. } => EventType::BundleReconstructed,
            Event::SendingBundleRequest { .. } => EventType::SendingBundleRequest,
            Event::ReceivingBundleRequest { .. } => EventType::ReceivingBundleRequest,
            Event::BundleRequestFailed { .. } => EventType::BundleRequestFailed,
            Event::BundleRequestSent { .. } => EventType::BundleRequestSent,
            Event::BundleRequestReceived { .. } => EventType::BundleRequestReceived,
            Event::BundleTransferred { .. } => EventType::BundleTransferred,
            Event::WorkPackageHashMapped { .. } => EventType::WorkPackageHashMapped,
            Event::SegmentsRootMapped { .. } => EventType::SegmentsRootMapped,
            Event::SendingSegmentShardRequest { .. } => EventType::SendingSegmentShardRequest,
            Event::ReceivingSegmentShardRequest { .. } => EventType::ReceivingSegmentShardRequest,
            Event::SegmentShardRequestFailed { .. } => EventType::SegmentShardRequestFailed,
            Event::SegmentShardRequestSent { .. } => EventType::SegmentShardRequestSent,
            Event::SegmentShardRequestReceived { .. } => EventType::SegmentShardRequestReceived,
            Event::SegmentShardsTransferred { .. } => EventType::SegmentShardsTransferred,
            Event::ReconstructingSegments { .. } => EventType::ReconstructingSegments,
            Event::SegmentReconstructionFailed { .. } => EventType::SegmentReconstructionFailed,
            Event::SegmentsReconstructed { .. } => EventType::SegmentsReconstructed,
            Event::SegmentVerificationFailed { .. } => EventType::SegmentVerificationFailed,
            Event::SegmentsVerified { .. } => EventType::SegmentsVerified,
            Event::SendingSegmentRequest { .. } => EventType::SendingSegmentRequest,
            Event::ReceivingSegmentRequest { .. } => EventType::ReceivingSegmentRequest,
            Event::SegmentRequestFailed { .. } => EventType::SegmentRequestFailed,
            Event::SegmentRequestSent { .. } => EventType::SegmentRequestSent,
            Event::SegmentRequestReceived { .. } => EventType::SegmentRequestReceived,
            Event::SegmentsTransferred { .. } => EventType::SegmentsTransferred,
            Event::PreimageAnnouncementFailed { .. } => EventType::PreimageAnnouncementFailed,
            Event::PreimageAnnounced { .. } => EventType::PreimageAnnounced,
            Event::AnnouncedPreimageForgotten { .. } => EventType::AnnouncedPreimageForgotten,
            Event::SendingPreimageRequest { .. } => EventType::SendingPreimageRequest,
            Event::ReceivingPreimageRequest { .. } => EventType::ReceivingPreimageRequest,
            Event::PreimageRequestFailed { .. } => EventType::PreimageRequestFailed,
            Event::PreimageRequestSent { .. } => EventType::PreimageRequestSent,
            Event::PreimageRequestReceived { .. } => EventType::PreimageRequestReceived,
            Event::PreimageTransferred { .. } => EventType::PreimageTransferred,
            Event::PreimageDiscarded { .. } => EventType::PreimageDiscarded,
        }
    }

    /// The node-reported timestamp carried by every event.
    pub open spec fn stamp(&self) -> Timestamp {
        match self {
            Event::Dropped { timestamp, .. } => *timestamp,
            Event::Status { timestamp, .. } => *timestamp,
            Event::BestBlockChanged { timestamp, .. } => *timestamp,
            Event::FinalizedBlockChanged { timestamp, .. } => *timestamp,
            Event::SyncStatusChanged { timestamp, .. } => *timestamp,
            Event::ConnectionRefused { timestamp, .. } => *timestamp,
            Event::ConnectingIn { timestamp, .. } => *timestamp,
            Event::ConnectInFailed { timestamp, .. } => *timestamp,
            Event::ConnectedIn { timestamp, .. } => *timestamp,
            Event::ConnectingOut { timestamp, .. } => *timestamp,
            Event::ConnectOutFailed { timestamp, .. } => *timestamp,
            Event::ConnectedOut { timestamp, .. } => *timestamp,
            Event::Disconnected { timestamp, .. } => *timestamp,
            Event::PeerMisbehaved { timestamp, .. } => *timestamp,
            Event::Authoring { timestamp, .. } => *timestamp,
            Event::AuthoringFailed { timestamp, .. } => *timestamp,
            Event::Authored { timestamp, .. } => *timestamp,
            Event::Importing { timestamp, .. } => *timestamp,
            Event::BlockVerificationFailed { timestamp, .. } => *timestamp,
            Event::BlockVerified { timestamp, .. } => *timestamp,
            Event::BlockExecutionFailed { timestamp, .. } => *timestamp,
            Event::BlockExecuted { timestamp, .. } => *timestamp,
            Event::BlockAnnouncementStreamOpened { timestamp, .. } => *timestamp,
            Event::BlockAnnouncementStreamClosed { timestamp, .. } => *timestamp,
            Event::BlockAnnounced { timestamp, .. } => *timestamp,
            Event::SendingBlockRequest { timestamp, .. } => *timestamp,
            Event::ReceivingBlockRequest { timestamp, .. } => *timestamp,
            Event::BlockRequestFailed { timestamp, .. } => *timestamp,
            Event::BlockRequestSent { timestamp, .. } => *timestamp,
            Event::BlockRequestReceived { timestamp, .. } => *timestamp,
            Event::BlockTransferred { timestamp, .. } => *timestamp,
            Event::GeneratingTickets { timestamp, .. } => *timestamp,
            Event::TicketGenerationFailed { timestamp, .. } => *timestamp,
            Event::TicketsGenerated { timestamp, .. } => *timestamp,
            Event::TicketTransferFailed { timestamp, .. } => *timestamp,
            Event::TicketTransferred { timestamp, .. } => *timestamp,
            Event::WorkPackageSubmission { timestamp, .. } => *timestamp,
            Event::WorkPackageBeingShared { timestamp, .. } => *timestamp,
            Event::WorkPackageFailed { timestamp, .. } => *timestamp,
            Event::DuplicateWorkPackage { timestamp, .. } => *timestamp,
            Event::WorkPackageReceived { timestamp, .. } => *timestamp,
            Event::Authorized { timestamp, .. } => *timestamp,
            Event::ExtrinsicDataReceived { timestamp, .. } => *timestamp,
            Event::ImportsReceived { timestamp, .. } => *timestamp,
            Event::SharingWorkPackage { timestamp, .. } => *timestamp,
            Event::WorkPackageSharingFailed { timestamp, .. } => *timestamp,
            Event::BundleSent { timestamp, .. } => *timestamp,
            Event::Refined { timestamp, .. } => *timestamp,
            Event::WorkReportBuilt { timestamp, .. } => *timestamp,
            Event::WorkReportSignatureSent { timestamp, .. } => *timestamp,
            Event::WorkReportSignatureReceived { timestamp, .. } => *timestamp,
            Event::GuaranteeBuilt { timestamp, .. } => *timestamp,
            Event::SendingGuarantee { timestamp, .. } => *timestamp,
            Event::GuaranteeSendFailed { timestamp, .. } => *timestamp,
            Event::GuaranteeSent { timestamp, .. } => *timestamp,
            Event::GuaranteesDistributed { timestamp, .. } => *timestamp,
            Event::ReceivingGuarantee { timestamp, .. } => *timestamp,
            Event::GuaranteeReceiveFailed { timestamp, .. } => *timestamp,
            Event::GuaranteeReceived { timestamp, .. } => *timestamp,
            Event::GuaranteeDiscarded { timestamp, .. } => *timestamp,
            Event::SendingShardRequest { timestamp, .. } => *timestamp,
            Event::ReceivingShardRequest { timestamp, .. } => *timestamp,
            Event::ShardRequestFailed { timestamp, .. } => *timestamp,
            Event::ShardRequestSent { timestamp, .. } => *timestamp,
            Event::ShardRequestReceived { timestamp, .. } => *timestamp,
            Event::ShardsTransferred { timestamp, .. } => *timestamp,
            Event::DistributingAssurance { timestamp, .. } => *timestamp,
            Event::AssuranceSendFailed { timestamp, .. } => *timestamp,
            Event::AssuranceSent { timestamp, .. } => *timestamp,
            Event::AssuranceDistributed { timestamp, .. } => *timestamp,
            Event::AssuranceReceiveFailed { timestamp, .. } => *timestamp,
            Event::AssuranceReceived { timestamp, .. } => *timestamp,
            Event::SendingBundleShardRequest { timestamp, .. } => *timestamp,
            Event::ReceivingBundleShardRequest { timestamp, .. } => *timestamp,
            Event::BundleShardRequestFailed { timestamp, .. } => *timestamp,
            Event::BundleShardRequestSent { timestamp, .. } => *timestamp,
            Event::BundleShardRequestReceived { timestamp, .. } => *timestamp,
            Event::BundleShardTransferred { timestamp, .. } => *timestamp,
            Event::ReconstructingBundle { timestamp, .. } => *timestamp,
            Event::BundleReconstructed { timestamp, .. } => *timestamp,
            Event::SendingBundleRequest { timestamp, .. } => *timestamp,
            Event::ReceivingBundleRequest { timestamp, .. } => *timestamp,
            Event::BundleRequestFailed { timestamp, .. } => *timestamp,
            Event::BundleRequestSent { timestamp, .. } => *timestamp,
            Event::BundleRequestReceived { timestamp, .. } => *timestamp,
            Event::BundleTransferred { timestamp, .. } => *timestamp,
            Event::WorkPackageHashMapped { timestamp, .. } => *timestamp,
            Event::SegmentsRootMapped { timestamp, .. } => *timestamp,
            Event::SendingSegmentShardRequest { timestamp, .. } => *timestamp,
            Event::ReceivingSegmentShardRequest { timestamp, .. } => *timestamp,
            Event::SegmentShardRequestFailed { timestamp, .. } => *timestamp,
            Event::SegmentShardRequestSent { timestamp, .. } => *timestamp,
            Event::SegmentShardRequestReceived { timestamp, .. } => *timestamp,
            Event::SegmentShardsTransferred { timestamp, .. } => *timestamp,
            Event::ReconstructingSegments { timestamp, .. } => *timestamp,
            Event::SegmentReconstructionFailed { timestamp, .. } => *timestamp,
            Event::SegmentsReconstructed { timestamp, .. } => *timestamp,
            Event::SegmentVerificationFailed { timestamp, .. } => *timestamp,
            Event::SegmentsVerified { timestamp, .. } => *timestamp,
            Event::SendingSegmentRequest { timestamp, .. } => *timestamp,
            Event::ReceivingSegmentRequest { timestamp, .. } => *timestamp,
            Event::SegmentRequestFailed { timestamp, .. } => *timestamp,
            Event::SegmentRequestSent { timestamp, .. } => *timestamp,
            Event::SegmentRequestReceived { timestamp, .. } => *timestamp,
            Event::SegmentsTransferred { timestamp, .. } => *timestamp,
            Event::PreimageAnnouncementFailed { timestamp, .. } => *timestamp,
            Event::PreimageAnnounced { timestamp, .. } => *timestamp,
            Event::AnnouncedPreimageForgotten { timestamp, .. } => *timestamp,
            Event::SendingPreimageRequest { timestamp, .. } => *timestamp,
            Event::ReceivingPreimageRequest { timestamp, .. } => *timestamp,
            Event::PreimageRequestFailed { timestamp, .. } => *timestamp,
            Event::PreimageRequestSent { timestamp, .. } => *timestamp,
            Event::PreimageRequestReceived { timestamp, .. } => *timestamp,
            Event::PreimageTransferred { timestamp, .. } => *timestamp,
            Event::PreimageDiscarded { timestamp, .. } => *timestamp,
        }
    }

    /// The node-reported timestamp carried by every event.
    pub fn timestamp(&self) -> (r: Timestamp)
        ensures
            r == self.stamp(),
    {
        match self {
            Event::Dropped { timestamp, .. } => *timestamp,
            Event::Status { timestamp, .. } => *timestamp,
            Event::BestBlockChanged { timestamp, .. } => *timestamp,
            Event::FinalizedBlockChanged { timestamp, .. } => *timestamp,
            Event::SyncStatusChanged { timestamp, .. } => *timestamp,
            Event::ConnectionRefused { timestamp, .. } => *timestamp,
            Event::ConnectingIn { timestamp, .. } => *timestamp,
            Event::ConnectInFailed { timestamp, .. } => *timestamp,
            Event::ConnectedIn { timestamp, .. } => *timestamp,
            Event::ConnectingOut { timestamp, .. } => *timestamp,
            Event::ConnectOutFailed { timestamp, .. } => *timestamp,
            Event::ConnectedOut { timestamp, .. } => *timestamp,
            Event::Disconnected { timestamp, .. } => *timestamp,
            Event::PeerMisbehaved { timestamp, .. } => *timestamp,
            Event::Authoring { timestamp, .. } => *timestamp,
            Event::AuthoringFailed { timestamp, .. } => *timestamp,
            Event::Authored { timestamp, .. } => *timestamp,
            Event::Importing { timestamp, .. } => *timestamp,
            Event::BlockVerificationFailed { timestamp, .. } => *timestamp,
            Event::BlockVerified { timestamp, .. } => *timestamp,
            Event::BlockExecutionFailed { timestamp, .. } => *timestamp,
            Event::BlockExecuted { timestamp, .. } => *timestamp,
            Event::BlockAnnouncementStreamOpened { timestamp, .. } => *timestamp,
            Event::BlockAnnouncementStreamClosed { timestamp, .. } => *timestamp,
            Event::BlockAnnounced { timestamp, .. } => *timestamp,
            Event::SendingBlockRequest { timestamp, .. } => *timestamp,
            Event::ReceivingBlockRequest { timestamp, .. } => *timestamp,
            Event::BlockRequestFailed { timestamp, .. } => *timestamp,
            Event::BlockRequestSent { timestamp, .. } => *timestamp,
            Event::BlockRequestReceived { timestamp, .. } => *timestamp,
            Event::BlockTransferred { timestamp, .. } => *timestamp,
            Event::GeneratingTickets { timestamp, .. } => *timestamp,
            Event::TicketGenerationFailed { timestamp, .. } => *timestamp,
            Event::TicketsGenerated { timestamp, .. } => *timestamp,
            Event::TicketTransferFailed { timestamp, .. } => *timestamp,
            Event::TicketTransferred { timestamp, .. } => *timestamp,
            Event::WorkPackageSubmission { timestamp, .. } => *timestamp,
            Event::WorkPackageBeingShared { timestamp, .. } => *timestamp,
            Event::WorkPackageFailed { timestamp, .. } => *timestamp,
            Event::DuplicateWorkPackage { timestamp, .. } => *timestamp,
            Event::WorkPackageReceived { timestamp, .. } => *timestamp,
            Event::Authorized { timestamp, .. } => *timestamp,
            Event::ExtrinsicDataReceived { timestamp, .. } => *timestamp,
            Event::ImportsReceived { timestamp, .. } => *timestamp,
            Event::SharingWorkPackage { timestamp, .. } => *timestamp,
            Event::WorkPackageSharingFailed { timestamp, .. } => *timestamp,
            Event::BundleSent { timestamp, .. } => *timestamp,
            Event::Refined { timestamp, .. } => *timestamp,
            Event::WorkReportBuilt { timestamp, .. } => *timestamp,
            Event::WorkReportSignatureSent { timestamp, .. } => *timestamp,
            Event::WorkReportSignatureReceived { timestamp, .. } => *timestamp,
            Event::GuaranteeBuilt { timestamp, .. } => *timestamp,
            Event::SendingGuarantee { timestamp, .. } => *timestamp,
            Event::GuaranteeSendFailed { timestamp, .. } => *timestamp,
            Event::GuaranteeSent { timestamp, .. } => *timestamp,
            Event::GuaranteesDistributed { timestamp, .. } => *timestamp,
            Event::ReceivingGuarantee { timestamp, .. } => *timestamp,
            Event::GuaranteeReceiveFailed { timestamp, .. } => *timestamp,
            Event::GuaranteeReceived { timestamp, .. } => *timestamp,
            Event::GuaranteeDiscarded { timestamp, .. } => *timestamp,
            Event::SendingShardRequest { timestamp, .. } => *timestamp,
            Event::ReceivingShardRequest { timestamp, .. } => *timestamp,
            Event::ShardRequestFailed { timestamp, .. } => *timestamp,
            Event::ShardRequestSent { timestamp, .. } => *timestamp,
            Event::ShardRequestReceived { timestamp, .. } => *timestamp,
            Event::ShardsTransferred { timestamp, .. } => *timestamp,
            Event::DistributingAssurance { timestamp, .. } => *timestamp,
            Event::AssuranceSendFailed { timestamp, .. } => *timestamp,
            Event::AssuranceSent { timestamp, .. } => *timestamp,
            Event::AssuranceDistributed { timestamp, .. } => *timestamp,
            Event::AssuranceReceiveFailed { timestamp, .. } => *timestamp,
            Event::AssuranceReceived { timestamp, .. } => *timestamp,
            Event::SendingBundleShardRequest { timestamp, .. } => *timestamp,
            Event::ReceivingBundleShardRequest { timestamp, .. } => *timestamp,
            Event::BundleShardRequestFailed { timestamp, .. } => *timestamp,
            Event::BundleShardRequestSent { timestamp, .. } => *timestamp,
            Event::BundleShardRequestReceived { timestamp, .. } => *timestamp,
            Event::BundleShardTransferred { timestamp, .. } => *timestamp,
            Event::ReconstructingBundle { timestamp, .. } => *timestamp,
            Event::BundleReconstructed { timestamp, .. } => *timestamp,
            Event::SendingBundleRequest { timestamp, .. } => *timestamp,
            Event::ReceivingBundleRequest { timestamp, .. } => *timestamp,
            Event::BundleRequestFailed { timestamp, .. } => *timestamp,
            Event::BundleRequestSent { timestamp, .. } => *timestamp,
            Event::BundleRequestReceived { timestamp, .. } => *timestamp,
            Event::BundleTransferred { timestamp, .. } => *timestamp,
            Event::WorkPackageHashMapped { timestamp, .. } => *timestamp,
            Event::SegmentsRootMapped { timestamp, .. } => *timestamp,
            Event::SendingSegmentShardRequest { timestamp, .. } => *timestamp,
            Event::ReceivingSegmentShardRequest { timestamp, .. } => *timestamp,
            Event::SegmentShardRequestFailed { timestamp, .. } => *timestamp,
            Event::SegmentShardRequestSent { timestamp, .. } => *timestamp,
            Event::SegmentShardRequestReceived { timestamp, .. } => *timestamp,
            Event::SegmentShardsTransferred { timestamp, .. } => *timestamp,
            Event::ReconstructingSegments { timestamp, .. } => *timestamp,
            Event::SegmentReconstructionFailed { timestamp, .. } => *timestamp,
            Event::SegmentsReconstructed { timestamp, .. } => *timestamp,
            Event::SegmentVerificationFailed { timestamp, .. } => *timestamp,
            Event::SegmentsVerified { timestamp, .. } => *timestamp,
            Event::SendingSegmentRequest { timestamp, .. } => *timestamp,
            Event::ReceivingSegmentRequest { timestamp, .. } => *timestamp,
            Event::SegmentRequestFailed { timestamp, .. } => *timestamp,
            Event::SegmentRequestSent { timestamp, .. } => *timestamp,
            Event::SegmentRequestReceived { timestamp, .. } => *timestamp,
            Event::SegmentsTransferred { timestamp, .. } => *timestamp,
            Event::PreimageAnnouncementFailed { timestamp, .. } => *timestamp,
            Event::PreimageAnnounced { timestamp, .. } => *timestamp,
            Event::AnnouncedPreimageForgotten { timestamp, .. } => *timestamp,
            Event::SendingPreimageRequest { timestamp, .. } => *timestamp,
            Event::ReceivingPreimageRequest { timestamp, .. } => *timestamp,
            Event::PreimageRequestFailed { timestamp, .. } => *timestamp,
            Event::PreimageRequestSent { timestamp, .. } => *timestamp,
            Event::PreimageRequestReceived { timestamp, .. } => *timestamp,
            Event::PreimageTransferred { timestamp, .. } => *timestamp,
            Event::PreimageDiscarded { timestamp, .. } => *timestamp,
        }
    }
}


/// Decoding the code of a kind gives that kind back.
pub proof fn lemma_decode_code(t: EventType)
    ensures
        decode_event_type(t.spec_code()) == Some(t),
{
}

/// A code decodes to a kind only if it is that kind's code.
pub proof fn lemma_decode_sound(value: u8)
    ensures
        match decode_event_type(value) {
            Some(t) => t.spec_code() == value,
            None => forall|t: EventType| #[trigger] t.spec_code() != value,
        },
{
}

/// Distinct kinds have distinct codes.
pub proof fn lemma_code_injective(t1: EventType, t2: EventType)
    ensures
        t1.spec_code() == t2.spec_code() ==> t1 == t2,
{
    lemma_decode_code(t1);
    lemma_decode_code(t2);
}

/// What an event says about the peer at the other end of a node-to-node
/// exchange.
#[derive(Debug, Clone, Copy)]
pub struct DirectedPeer<'a> {
    /// The peer involved in this event.
    pub peer_id: &'a PeerId,
    /// True if the reporting node is the sender (outbound).
    pub is_outbound: bool,
}

/// True for the `Local` side.
pub open spec fn is_local(side: ConnectionSide) -> bool {
    side is Local
}

impl Event {
    /// The peer of a directed event and whether the reporting node sent it;
    /// `None` for events that are not directed.
    pub open spec fn peer_direction(&self) -> Option<(PeerId, bool)> {
        match self {
            Event::ConnectingOut { to, .. } => Some((to.peer_id, true)),
            Event::ConnectedIn { peer_id, .. } => Some((*peer_id, false)),
            Event::Disconnected { peer, .. } => Some((*peer, true)),
            Event::PeerMisbehaved { peer, .. } => Some((*peer, true)),
            Event::SendingBlockRequest { recipient, .. } => Some((*recipient, true)),
            Event::ReceivingBlockRequest { sender, .. } => Some((*sender, false)),
            Event::BlockAnnouncementStreamOpened { peer, opener, .. } => Some((*peer, is_local(*opener))),
            Event::BlockAnnouncementStreamClosed { peer, closer, .. } => Some((*peer, is_local(*closer))),
            Event::BlockAnnounced { peer, announcer, .. } => Some((*peer, is_local(*announcer))),
            Event::TicketTransferFailed { peer, sender, .. } => Some((*peer, is_local(*sender))),
            Event::TicketTransferred { peer, sender, .. } => Some((*peer, is_local(*sender))),
            Event::WorkPackageBeingShared { primary, .. } => Some((*primary, false)),
            Event::SharingWorkPackage { secondary, .. } => Some((*secondary, true)),
            Event::WorkPackageSharingFailed { secondary, .. } => Some((*secondary, true)),
            Event::BundleSent { secondary, .. } => Some((*secondary, true)),
            Event::WorkReportSignatureReceived { secondary, .. } => Some((*secondary, false)),
            Event::SendingGuarantee { recipient, .. } => Some((*recipient, true)),
            Event::ReceivingGuarantee { sender, .. } => Some((*sender, false)),
            Event::SendingShardRequest { guarantor, .. } => Some((*guarantor, true)),
            Event::ReceivingShardRequest { assurer, .. } => Some((*assurer, false)),
            Event::AssuranceSendFailed { recipient, .. } => Some((*recipient, true)),
            Event::AssuranceSent { recipient, .. } => Some((*recipient, true)),
            Event::AssuranceReceiveFailed { sender, .. } => Some((*sender, false)),
            Event::AssuranceReceived { sender, .. } => Some((*sender, false)),
            _ => None,
        }
    }

    /// The peer of a directed (node-to-node) event, with whether the reporting
    /// node is the sender; `None` for events that are not directed.
    pub fn directed_peer(&self) -> (r: Option<DirectedPeer<'_>>)
        ensures
            match r {
                Some(d) => self.peer_direction() == Some((*d.peer_id, d.is_outbound)),
                None => self.peer_direction() is None,
            },
    {
        match self {
            Event::ConnectingOut { to, .. } => Some(DirectedPeer { peer_id: &to.peer_id, is_outbound: true }),
            Event::ConnectedIn { peer_id, .. } => Some(DirectedPeer { peer_id, is_outbound: false }),
            Event::Disconnected { peer, .. } => Some(DirectedPeer { peer_id: peer, is_outbound: true }),
            Event::PeerMisbehaved { peer, .. } => Some(DirectedPeer { peer_id: peer, is_outbound: true }),
            Event::SendingBlockRequest { recipient, .. } => Some(DirectedPeer { peer_id: recipient, is_outbound: true }),
            Event::ReceivingBlockRequest { sender, .. } => Some(DirectedPeer { peer_id: sender, is_outbound: false }),
            Event::BlockAnnouncementStreamOpened { peer, opener, .. } => Some(DirectedPeer { peer_id: peer, is_outbound: side_is_local(opener) }),
            Event::BlockAnnouncementStreamClosed { peer, closer, .. } => Some(DirectedPeer { peer_id: peer, is_outbound: side_is_local(closer) }),
            Event::BlockAnnounced { peer, announcer, .. } => Some(DirectedPeer { peer_id: peer, is_outbound: side_is_local(announcer) }),
            Event::TicketTransferFailed { peer, sender, .. } => Some(DirectedPeer { peer_id: peer, is_outbound: side_is_local(sender) }),
            Event::TicketTransferred { peer, sender, .. } => Some(DirectedPeer { peer_id: peer, is_outbound: side_is_local(sender) }),
            Event::WorkPackageBeingShared { primary, .. } => Some(DirectedPeer { peer_id: primary, is_outbound: false }),
            Event::SharingWorkPackage { secondary, .. } => Some(DirectedPeer { peer_id: secondary, is_outbound: true }),
            Event::WorkPackageSharingFailed { secondary, .. } => Some(DirectedPeer { peer_id: secondary, is_outbound: true }),
            Event::BundleSent { secondary, .. } => Some(DirectedPeer { peer_id: secondary, is_outbound: true }),
            Event::WorkReportSignatureReceived { secondary, .. } => Some(DirectedPeer { peer_id: secondary, is_outbound: false }),
            Event::SendingGuarantee { recipient, .. } => Some(DirectedPeer { peer_id: recipient, is_outbound: true }),
            Event::ReceivingGuarantee { sender, .. } => Some(DirectedPeer { peer_id: sender, is_outbound: false }),
            Event::SendingShardRequest { guarantor, .. } => Some(DirectedPeer { peer_id: guarantor, is_outbound: true }),
            Event::ReceivingShardRequest { assurer, .. } => Some(DirectedPeer { peer_id: assurer, is_outbound: false }),
            Event::AssuranceSendFailed { recipient, .. } => Some(DirectedPeer { peer_id: recipient, is_outbound: true }),
            Event::AssuranceSent { recipient, .. } => Some(DirectedPeer { peer_id: recipient, is_outbound: true }),
            Event::AssuranceReceiveFailed { sender, .. } => Some(DirectedPeer { peer_id: sender, is_outbound: false }),
            Event::AssuranceReceived { sender, .. } => Some(DirectedPeer { peer_id: sender, is_outbound: false }),
            _ => None,
        }
    }

    /// The reason text of a failure event that carries one as text.
    pub open spec fn reason_text(&self) -> Option<Seq<char>> {
        match self {
            Event::ConnectInFailed { reason, .. } => Some(reason.0@),
            Event::ConnectOutFailed { reason, .. } => Some(reason.0@),
            Event::Disconnected { reason, .. } => Some(reason.0@),
            Event::PeerMisbehaved { reason, .. } => Some(reason.0@),
            Event::AuthoringFailed { reason, .. } => Some(reason.0@),
            Event::BlockVerificationFailed { reason, .. } => Some(reason.0@),
            Event::BlockExecutionFailed { reason, .. } => Some(reason.0@),
            Event::BlockAnnouncementStreamClosed { reason, .. } => Some(reason.0@),
            Event::BlockRequestFailed { reason, .. } => Some(reason.0@),
            Event::TicketGenerationFailed { reason, .. } => Some(reason.0@),
            Event::TicketTransferFailed { reason, .. } => Some(reason.0@),
            Event::WorkPackageFailed { reason, .. } => Some(reason.0@),
            Event::WorkPackageSharingFailed { reason, .. } => Some(reason.0@),
            Event::GuaranteeSendFailed { reason, .. } => Some(reason.0@),
            Event::GuaranteeReceiveFailed { reason, .. } => Some(reason.0@),
            Event::ShardRequestFailed { reason, .. } => Some(reason.0@),
            Event::AssuranceSendFailed { reason, .. } => Some(reason.0@),
            Event::AssuranceReceiveFailed { reason, .. } => Some(reason.0@),
            _ => None,
        }
    }

    /// The reason text of a failure event, if the event carries one.
    pub fn reason(&self) -> (r: Option<&str>)
        ensures
            match r {
                Some(s) => self.reason_text() == Some(s@),
                None => self.reason_text() is None,
            },
    {
        match self {
            Event::ConnectInFailed { reason, .. } => Some(reason.0.as_str()),
            Event::ConnectOutFailed { reason, .. } => Some(reason.0.as_str()),
            Event::Disconnected { reason, .. } => Some(reason.0.as_str()),
            Event::PeerMisbehaved { reason, .. } => Some(reason.0.as_str()),
            Event::AuthoringFailed { reason, .. } => Some(reason.0.as_str()),
            Event::BlockVerificationFailed { reason, .. } => Some(reason.0.as_str()),
            Event::BlockExecutionFailed { reason, .. } => Some(reason.0.as_str()),
            Event::BlockAnnouncementStreamClosed { reason, .. } => Some(reason.0.as_str()),
            Event::BlockRequestFailed { reason, .. } => Some(reason.0.as_str()),
            Event::TicketGenerationFailed { reason, .. } => Some(reason.0.as_str()),
            Event::TicketTransferFailed { reason, .. } => Some(reason.0.as_str()),
            Event::WorkPackageFailed { reason, .. } => Some(reason.0.as_str()),
            Event::WorkPackageSharingFailed { reason, .. } => Some(reason.0.as_str()),
            Event::GuaranteeSendFailed { reason, .. } => Some(reason.0.as_str()),
            Event::GuaranteeReceiveFailed { reason, .. } => Some(reason.0.as_str()),
            Event::ShardRequestFailed { reason, .. } => Some(reason.0.as_str()),
            Event::AssuranceSendFailed { reason, .. } => Some(reason.0.as_str()),
            Event::AssuranceReceiveFailed { reason, .. } => Some(reason.0.as_str()),
            _ => None,
        }
    }

    /// How long a particle for this event travels across the ring, in
    /// milliseconds: connection and work-package-sharing events are slow
    /// (3000 ms), every other kind takes 2000 ms.
    pub fn travel_duration(&self) -> (r: u32)
        ensures
            r == travel_duration_ms(self.kind()),
    {
        match self.event_type() {
            EventType::ConnectingOut | EventType::ConnectedIn | EventType::WorkPackageBeingShared => 3000,
            _ => 2000,
        }
    }
}

/// Particle travel time for an event kind, in milliseconds.
pub open spec fn travel_duration_ms(t: EventType) -> u32 {
    match t {
        EventType::ConnectingOut | EventType::ConnectedIn | EventType::WorkPackageBeingShared => 3000,
        _ => 2000,
    }
}

/// True for the `Local` side.
pub fn side_is_local(side: &ConnectionSide) -> (r: bool)
    ensures
        r == is_local(*side),
{
    match side {
        ConnectionSide::Local => true,
        ConnectionSide::Remote => false,
    }
}

} // verus!

verus! {

/// Position of an event's variant in the declaration of `Event`.
pub open spec fn variant_position(e: Event) -> nat {
    match e {
        Event::Dropped { .. } => 0,
        Event::Status { .. } => 1,
        Event::BestBlockChanged { .. } => 2,
        Event::FinalizedBlockChanged { .. } => 3,
        Event::SyncStatusChanged { .. } => 4,
        Event::ConnectionRefused { .. } => 5,
        Event::ConnectingIn { .. } => 6,
        Event::ConnectInFailed { .. } => 7,
        Event::ConnectedIn { .. } => 8,
        Event::ConnectingOut { .. } => 9,
        Event::ConnectOutFailed { .. } => 10,
        Event::ConnectedOut { .. } => 11,
        Event::Disconnected { .. } => 12,
        Event::PeerMisbehaved { .. } => 13,
        Event::Authoring { .. } => 14,
        Event::AuthoringFailed { .. } => 15,
        Event::Authored { .. } => 16,
        Event::Importing { .. } => 17,
        Event::BlockVerificationFailed { .. } => 18,
        Event::BlockVerified { .. } => 19,
        Event::BlockExecutionFailed { .. } => 20,
        Event::BlockExecuted { .. } => 21,
        Event::BlockAnnouncementStreamOpened { .. } => 22,
        Event::BlockAnnouncementStreamClosed { .. } => 23,
        Event::BlockAnnounced { .. } => 24,
        Event::SendingBlockRequest { .. } => 25,
        Event::ReceivingBlockRequest { .. } => 26,
        Event::BlockRequestFailed { .. } => 27,
        Event::BlockRequestSent { .. } => 28,
        Event::BlockRequestReceived { .. } => 29,
        Event::BlockTransferred { .. } => 30,
        Event::GeneratingTickets { .. } => 31,
        Event::TicketGenerationFailed { .. } => 32,
        Event::TicketsGenerated { .. } => 33,
        Event::TicketTransferFailed { .. } => 34,
        Event::TicketTransferred { .. } => 35,
        Event::WorkPackageSubmission { .. } => 36,
        Event::WorkPackageBeingShared { .. } => 37,
        Event::WorkPackageFailed { .. } => 38,
        Event::DuplicateWorkPackage { .. } => 39,
        Event::WorkPackageReceived { .. } => 40,
        Event::Authorized { .. } => 41,
        Event::ExtrinsicDataReceived { .. } => 42,
        Event::ImportsReceived { .. } => 43,
        Event::SharingWorkPackage { .. } => 44,
        Event::WorkPackageSharingFailed { .. } => 45,
        Event::BundleSent { .. } => 46,
        Event::Refined { .. } => 47,
        Event::WorkReportBuilt { .. } => 48,
        Event::WorkReportSignatureSent { .. } => 49,
        Event::WorkReportSignatureReceived { .. } => 50,
        Event::GuaranteeBuilt { .. } => 51,
        Event::SendingGuarantee { .. } => 52,
        Event::GuaranteeSendFailed { .. } => 53,
        Event::GuaranteeSent { .. } => 54,
        Event::GuaranteesDistributed { .. } => 55,
        Event::ReceivingGuarantee { .. } => 56,
        Event::GuaranteeReceiveFailed { .. } => 57,
        Event::GuaranteeReceived { .. } => 58,
        Event::GuaranteeDiscarded { .. } => 59,
        Event::SendingShardRequest { .. } => 60,
        Event::ReceivingShardRequest { .. } => 61,
        Event::ShardRequestFailed { .. } => 62,
        Event::ShardRequestSent { .. } => 63,
        Event::ShardRequestReceived { .. } => 64,
        Event::ShardsTransferred { .. } => 65,
        Event::DistributingAssurance { .. } => 66,
        Event::AssuranceSendFailed { .. } => 67,
        Event::AssuranceSent { .. } => 68,
        Event::AssuranceDistributed { .. } => 69,
        Event::AssuranceReceiveFailed { .. } => 70,
        Event::AssuranceReceived { .. } => 71,
        Event::SendingBundleShardRequest { .. } => 72,
        Event::ReceivingBundleShardRequest { .. } => 73,
        Event::BundleShardRequestFailed { .. } => 74,
        Event::BundleShardRequestSent { .. } => 75,
        Event::BundleShardRequestReceived { .. } => 76,
        Event::BundleShardTransferred { .. } => 77,
        Event::ReconstructingBundle { .. } => 78,
        Event::BundleReconstructed { .. } => 79,
        Event::SendingBundleRequest { .. } => 80,
        Event::ReceivingBundleRequest { .. } => 81,
        Event::BundleRequestFailed { .. } => 82,
        Event::BundleRequestSent { .. } => 83,
        Event::BundleRequestReceived { .. } => 84,
        Event::BundleTransferred { .. } => 85,
        Event::WorkPackageHashMapped { .. } => 86,
        Event::SegmentsRootMapped { .. } => 87,
        Event::SendingSegmentShardRequest { .. } => 88,
        Event::ReceivingSegmentShardRequest { .. } => 89,
        Event::SegmentShardRequestFailed { .. } => 90,
        Event::SegmentShardRequestSent { .. } => 91,
        Event::SegmentShardRequestReceived { .. } => 92,
        Event::SegmentShardsTransferred { .. } => 93,
        Event::ReconstructingSegments { .. } => 94,
        Event::SegmentReconstructionFailed { .. } => 95,
        Event::SegmentsReconstructed { .. } => 96,
        Event::SegmentVerificationFailed { .. } => 97,
        Event::SegmentsVerified { .. } => 98,
        Event::SendingSegmentRequest { .. } => 99,
        Event::ReceivingSegmentRequest { .. } => 100,
        Event::SegmentRequestFailed { .. } => 101,
        Event::SegmentRequestSent { .. } => 102,
        Event::SegmentRequestReceived { .. } => 103,
        Event::SegmentsTransferred { .. } => 104,
        Event::PreimageAnnouncementFailed { .. } => 105,
        Event::PreimageAnnounced { .. } => 106,
        Event::AnnouncedPreimageForgotten { .. } => 107,
        Event::SendingPreimageRequest { .. } => 108,
        Event::ReceivingPreimageRequest { .. } => 109,
        Event::PreimageRequestFailed { .. } => 110,
        Event::PreimageRequestSent { .. } => 111,
        Event::PreimageRequestReceived { .. } => 112,
        Event::PreimageTransferred { .. } => 113,
        Event::PreimageDiscarded { .. } => 114,
    }
}

/// Position of a kind in the declaration of `EventType`, which lists the
/// kinds in the same order as `Event` lists its variants.
pub open spec fn kind_position(t: EventType) -> nat {
    match t {
        EventType::Dropped => 0,
        EventType::Status => 1,
        EventType::BestBlockChanged => 2,
        EventType::FinalizedBlockChanged => 3,
        EventType::SyncStatusChanged => 4,
        EventType::ConnectionRefused => 5,
        EventType::ConnectingIn => 6,
        EventType::ConnectInFailed => 7,
        EventType::ConnectedIn => 8,
        EventType::ConnectingOut => 9,
        EventType::ConnectOutFailed => 10,
        EventType::ConnectedOut => 11,
        EventType::Disconnected => 12,
        EventType::PeerMisbehaved => 13,
        EventType::Authoring => 14,
        EventType::AuthoringFailed => 15,
        EventType::Authored => 16,
        EventType::Importing => 17,
        EventType::BlockVerificationFailed => 18,
        EventType::BlockVerified => 19,
        EventType::BlockExecutionFailed => 20,
        EventType::BlockExecuted => 21,
        EventType::BlockAnnouncementStreamOpened => 22,
        EventType::BlockAnnouncementStreamClosed => 23,
        EventType::BlockAnnounced => 24,
        EventType::SendingBlockRequest => 25,
        EventType::ReceivingBlockRequest => 26,
        EventType::BlockRequestFailed => 27,
        EventType::BlockRequestSent => 28,
        EventType::BlockRequestReceived => 29,
        EventType::BlockTransferred => 30,
        EventType::GeneratingTickets => 31,
        EventType::TicketGenerationFailed => 32,
        EventType::TicketsGenerated => 33,
        EventType::TicketTransferFailed => 34,
        EventType::TicketTransferred => 35,
        EventType::WorkPackageSubmission => 36,
        EventType::WorkPackageBeingShared => 37,
        EventType::WorkPackageFailed => 38,
        EventType::DuplicateWorkPackage => 39,
        EventType::WorkPackageReceived => 40,
        EventType::Authorized => 41,
        EventType::ExtrinsicDataReceived => 42,
        EventType::ImportsReceived => 43,
        EventType::SharingWorkPackage => 44,
        EventType::WorkPackageSharingFailed => 45,
        EventType::BundleSent => 46,
        EventType::Refined => 47,
        EventType::WorkReportBuilt => 48,
        EventType::WorkReportSignatureSent => 49,
        EventType::WorkReportSignatureReceived => 50,
        EventType::GuaranteeBuilt => 51,
        EventType::SendingGuarantee => 52,
        EventType::GuaranteeSendFailed => 53,
        EventType::GuaranteeSent => 54,
        EventType::GuaranteesDistributed => 55,
        EventType::ReceivingGuarantee => 56,
        EventType::GuaranteeReceiveFailed => 57,
        EventType::GuaranteeReceived => 58,
        EventType::GuaranteeDiscarded => 59,
        EventType::SendingShardRequest => 60,
        EventType::ReceivingShardRequest => 61,
        EventType::ShardRequestFailed => 62,
        EventType::ShardRequestSent => 63,
        EventType::ShardRequestReceived => 64,
        EventType::ShardsTransferred => 65,
        EventType::DistributingAssurance => 66,
        EventType::AssuranceSendFailed => 67,
        EventType::AssuranceSent => 68,
        EventType::AssuranceDistributed => 69,
        EventType::AssuranceReceiveFailed => 70,
        EventType::AssuranceReceived => 71,
        EventType::SendingBundleShardRequest => 72,
        EventType::ReceivingBundleShardRequest => 73,
        EventType::BundleShardRequestFailed => 74,
        EventType::BundleShardRequestSent => 75,
        EventType::BundleShardRequestReceived => 76,
        EventType::BundleShardTransferred => 77,
        EventType::ReconstructingBundle => 78,
        EventType::BundleReconstructed => 79,
        EventType::SendingBundleRequest => 80,
        EventType::ReceivingBundleRequest => 81,
        EventType::BundleRequestFailed => 82,
        EventType::BundleRequestSent => 83,
        EventType::BundleRequestReceived => 84,
        EventType::BundleTransferred => 85,
        EventType::WorkPackageHashMapped => 86,
        EventType::SegmentsRootMapped => 87,
        EventType::SendingSegmentShardRequest => 88,
        EventType::ReceivingSegmentShardRequest => 89,
        EventType::SegmentShardRequestFailed => 90,
        EventType::SegmentShardRequestSent => 91,
        EventType::SegmentShardRequestReceived => 92,
        EventType::SegmentShardsTransferred => 93,
        EventType::ReconstructingSegments => 94,
        EventType::SegmentReconstructionFailed => 95,
        EventType::SegmentsReconstructed => 96,
        EventType::SegmentVerificationFailed => 97,
        EventType::SegmentsVerified => 98,
        EventType::SendingSegmentRequest => 99,
        EventType::ReceivingSegmentRequest => 100,
        EventType::SegmentRequestFailed => 101,
        EventType::SegmentRequestSent => 102,
        EventType::SegmentRequestReceived => 103,
        EventType::SegmentsTransferred => 104,
        EventType::PreimageAnnouncementFailed => 105,
        EventType::PreimageAnnounced => 106,
        EventType::AnnouncedPreimageForgotten => 107,
        EventType::SendingPreimageRequest => 108,
        EventType::ReceivingPreimageRequest => 109,
        EventType::PreimageRequestFailed => 110,
        EventType::PreimageRequestSent => 111,
        EventType::PreimageRequestReceived => 112,
        EventType::PreimageTransferred => 113,
        EventType::PreimageDiscarded => 114,
    }
}

/// Every event's kind is the kind of the same name as its variant, so events
/// of different variants never share a kind (nor a kind code).
pub proof fn law_kind_names_the_variant(e1: Event, e2: Event)
    ensures
        kind_position(e1.kind()) == variant_position(e1),
        (e1.kind() == e2.kind()) <==> (variant_position(e1) == variant_position(e2)),
        (e1.kind().spec_code() == e2.kind().spec_code()) <==> (variant_position(e1) == variant_position(e2)),
{
    lemma_code_injective(e1.kind(), e2.kind());
    assert(kind_position(e2.kind()) == variant_position(e2));
}

/// The side that initiates an exchange with a peer, for events that name it
/// (who opened or closed an announcement stream, who announced a block, who
/// sent a ticket).
pub open spec fn initiator_side(e: Event) -> Option<ConnectionSide> {
    match e {
        Event::BlockAnnouncementStreamOpened { opener, .. } => Some(opener),
        Event::BlockAnnouncementStreamClosed { closer, .. } => Some(closer),
        Event::BlockAnnounced { announcer, .. } => Some(announcer),
        Event::TicketTransferFailed { sender, .. } => Some(sender),
        Event::TicketTransferred { sender, .. } => Some(sender),
        _ => None,
    }
}

/// When an event names the side that initiated the exchange, the reporting
/// node counts as the sender exactly when that side is the local one.
pub proof fn law_initiator_side_gives_direction(e: Event)
    ensures
        initiator_side(e) is Some ==> {
            &&& e.peer_direction() is Some
            &&& e.peer_direction().unwrap().1 == (initiator_side(e).unwrap() == ConnectionSide::Local)
        },
{
}

} // verus!
