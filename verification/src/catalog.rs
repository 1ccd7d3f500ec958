//! The event catalogue: category grouping, display names and colours,
//! which kinds are failures, and which kinds are directed between nodes.

use vstd::prelude::*;
use crate::events::{decode_event_type, lemma_decode_code, lemma_decode_sound, Event, EventType};

verus! {

/// Number of event categories.
pub const NUM_CATEGORIES: usize = 12;

/// Category of an event code, by code range; `None` for codes that name no kind.
pub open spec fn category_of_code(c: u8) -> Option<nat> {
    if c == 0 {
        Some(0)
    } else if 10 <= c <= 13 {
        Some(1)
    } else if 20 <= c <= 28 {
        Some(2)
    } else if 40 <= c <= 47 {
        Some(3)
    } else if 60 <= c <= 68 {
        Some(4)
    } else if 80 <= c <= 84 {
        Some(5)
    } else if 90 <= c <= 104 {
        Some(6)
    } else if 105 <= c <= 113 {
        Some(7)
    } else if 120 <= c <= 131 {
        Some(8)
    } else if 140 <= c <= 153 {
        Some(9)
    } else if 160 <= c <= 178 {
        Some(10)
    } else if 190 <= c <= 199 {
        Some(11)
    } else {
        None
    }
}

/// Category of an event kind.
pub open spec fn category_of(t: EventType) -> nat {
    category_of_code(t.spec_code()).unwrap()
}

/// Exactly the codes that name an event kind have a category.
pub proof fn lemma_category_covers_kinds(c: u8)
    ensures
        (category_of_code(c) is Some) == (decode_event_type(c) is Some),
{
}

/// Every category index is below `NUM_CATEGORIES`.
pub proof fn lemma_category_bound(t: EventType)
    ensures
        category_of_code(t.spec_code()) is Some,
        category_of(t) < NUM_CATEGORIES,
{
    lemma_decode_code(t);
    lemma_category_covers_kinds(t.spec_code());
}

/// Display name of a category.
pub open spec fn category_name(i: nat) -> Seq<char> {
    if i == 0 {
        "Meta"@
    } else if i == 1 {
        "Status"@
    } else if i == 2 {
        "Connection"@
    } else if i == 3 {
        "Block Auth/Import"@
    } else if i == 4 {
        "Block Distribution"@
    } else if i == 5 {
        "Safrole Tickets"@
    } else if i == 6 {
        "Work Package"@
    } else if i == 7 {
        "Guaranteeing"@
    } else if i == 8 {
        "Availability"@
    } else if i == 9 {
        "Bundle Recovery"@
    } else if i == 10 {
        "Segment Recovery"@
    } else if i == 11 {
        "Preimages"@
    } else {
        Seq::empty()
    }
}

/// Display colour of a category, as RGB.
pub open spec fn category_rgb(i: nat) -> (u8, u8, u8) {
    if i == 0 {
        (128, 128, 128)
    } else if i == 1 {
        (100, 200, 100)
    } else if i == 2 {
        (100, 150, 255)
    } else if i == 3 {
        (255, 200, 100)
    } else if i == 4 {
        (200, 100, 255)
    } else if i == 5 {
        (255, 100, 100)
    } else if i == 6 {
        (100, 255, 200)
    } else if i == 7 {
        (255, 100, 200)
    } else if i == 8 {
        (255, 255, 100)
    } else if i == 9 {
        (255, 150, 150)
    } else if i == 10 {
        (150, 200, 255)
    } else if i == 11 {
        (200, 200, 200)
    } else {
        (255, 255, 255)
    }
}

/// Category index of an event kind.
pub fn category_index(t: EventType) -> (r: usize)
    ensures
        r == category_of(t),
        r < NUM_CATEGORIES,
{
    proof { lemma_category_bound(t); }
    let c = t.code();
    if c == 0 {
        0
    } else if 10 <= c && c <= 13 {
        1
    } else if 20 <= c && c <= 28 {
        2
    } else if 40 <= c && c <= 47 {
        3
    } else if 60 <= c && c <= 68 {
        4
    } else if 80 <= c && c <= 84 {
        5
    } else if 90 <= c && c <= 104 {
        6
    } else if 105 <= c && c <= 113 {
        7
    } else if 120 <= c && c <= 131 {
        8
    } else if 140 <= c && c <= 153 {
        9
    } else if 160 <= c && c <= 178 {
        10
    } else if 190 <= c && c <= 199 {
        11
    } else {
        NUM_CATEGORIES - 1
    }
}

/// Display name of an event kind.
pub open spec fn kind_name(t: EventType) -> Seq<char> {
    match t {
        EventType::Dropped => "Dropped"@,
        EventType::Status => "Status"@,
        EventType::BestBlockChanged => "BestBlockChanged"@,
        EventType::FinalizedBlockChanged => "FinalizedBlockChanged"@,
        EventType::SyncStatusChanged => "SyncStatusChanged"@,
        EventType::ConnectionRefused => "ConnectionRefused"@,
        EventType::ConnectingIn => "ConnectingIn"@,
        EventType::ConnectInFailed => "ConnectInFailed"@,
        EventType::ConnectedIn => "ConnectedIn"@,
        EventType::ConnectingOut => "ConnectingOut"@,
        EventType::ConnectOutFailed => "ConnectOutFailed"@,
        EventType::ConnectedOut => "ConnectedOut"@,
        EventType::Disconnected => "Disconnected"@,
        EventType::PeerMisbehaved => "PeerMisbehaved"@,
        EventType::Authoring => "Authoring"@,
        EventType::AuthoringFailed => "AuthoringFailed"@,
        EventType::Authored => "Authored"@,
        EventType::Importing => "Importing"@,
        EventType::BlockVerificationFailed => "BlockVerificationFailed"@,
        EventType::BlockVerified => "BlockVerified"@,
        EventType::BlockExecutionFailed => "BlockExecutionFailed"@,
        EventType::BlockExecuted => "BlockExecuted"@,
        EventType::BlockAnnouncementStreamOpened => "BlockAnnouncementStreamOpened"@,
        EventType::BlockAnnouncementStreamClosed => "BlockAnnouncementStreamClosed"@,
        EventType::BlockAnnounced => "BlockAnnounced"@,
        EventType::SendingBlockRequest => "SendingBlockRequest"@,
        EventType::ReceivingBlockRequest => "ReceivingBlockRequest"@,
        EventType::BlockRequestFailed => "BlockRequestFailed"@,
        EventType::BlockRequestSent => "BlockRequestSent"@,
        EventType::BlockRequestReceived => "BlockRequestReceived"@,
        EventType::BlockTransferred => "BlockTransferred"@,
        EventType::GeneratingTickets => "GeneratingTickets"@,
        EventType::TicketGenerationFailed => "TicketGenerationFailed"@,
        EventType::TicketsGenerated => "TicketsGenerated"@,
        EventType::TicketTransferFailed => "TicketTransferFailed"@,
        EventType::TicketTransferred => "TicketTransferred"@,
        EventType::WorkPackageSubmission => "WorkPackageSubmission"@,
        EventType::WorkPackageBeingShared => "WorkPackageBeingShared"@,
        EventType::WorkPackageFailed => "WorkPackageFailed"@,
        EventType::DuplicateWorkPackage => "DuplicateWorkPackage"@,
        EventType::WorkPackageReceived => "WorkPackageReceived"@,
        EventType::Authorized => "Authorized"@,
        EventType::ExtrinsicDataReceived => "ExtrinsicDataReceived"@,
        EventType::ImportsReceived => "ImportsReceived"@,
        EventType::SharingWorkPackage => "SharingWorkPackage"@,
        EventType::WorkPackageSharingFailed => "WorkPackageSharingFailed"@,
        EventType::BundleSent => "BundleSent"@,
        EventType::Refined => "Refined"@,
        EventType::WorkReportBuilt => "WorkReportBuilt"@,
        EventType::WorkReportSignatureSent => "WorkReportSignatureSent"@,
        EventType::WorkReportSignatureReceived => "WorkReportSignatureReceived"@,
        EventType::GuaranteeBuilt => "GuaranteeBuilt"@,
        EventType::SendingGuarantee => "SendingGuarantee"@,
        EventType::GuaranteeSendFailed => "GuaranteeSendFailed"@,
        EventType::GuaranteeSent => "GuaranteeSent"@,
        EventType::GuaranteesDistributed => "GuaranteesDistributed"@,
        EventType::ReceivingGuarantee => "ReceivingGuarantee"@,
        EventType::GuaranteeReceiveFailed => "GuaranteeReceiveFailed"@,
        EventType::GuaranteeReceived => "GuaranteeReceived"@,
        EventType::GuaranteeDiscarded => "GuaranteeDiscarded"@,
        EventType::SendingShardRequest => "SendingShardRequest"@,
        EventType::ReceivingShardRequest => "ReceivingShardRequest"@,
        EventType::ShardRequestFailed => "ShardRequestFailed"@,
        EventType::ShardRequestSent => "ShardRequestSent"@,
        EventType::ShardRequestReceived => "ShardRequestReceived"@,
        EventType::ShardsTransferred => "ShardsTransferred"@,
        EventType::DistributingAssurance => "DistributingAssurance"@,
        EventType::AssuranceSendFailed => "AssuranceSendFailed"@,
        EventType::AssuranceSent => "AssuranceSent"@,
        EventType::AssuranceDistributed => "AssuranceDistributed"@,
        EventType::AssuranceReceiveFailed => "AssuranceReceiveFailed"@,
        EventType::AssuranceReceived => "AssuranceReceived"@,
        EventType::SendingBundleShardRequest => "SendingBundleShardRequest"@,
        EventType::ReceivingBundleShardRequest => "ReceivingBundleShardRequest"@,
        EventType::BundleShardRequestFailed => "BundleShardRequestFailed"@,
        EventType::BundleShardRequestSent => "BundleShardRequestSent"@,
        EventType::BundleShardRequestReceived => "BundleShardRequestReceived"@,
        EventType::BundleShardTransferred => "BundleShardTransferred"@,
        EventType::ReconstructingBundle => "ReconstructingBundle"@,
        EventType::BundleReconstructed => "BundleReconstructed"@,
        EventType::SendingBundleRequest => "SendingBundleRequest"@,
        EventType::ReceivingBundleRequest => "ReceivingBundleRequest"@,
        EventType::BundleRequestFailed => "BundleRequestFailed"@,
        EventType::BundleRequestSent => "BundleRequestSent"@,
        EventType::BundleRequestReceived => "BundleRequestReceived"@,
        EventType::BundleTransferred => "BundleTransferred"@,
        EventType::WorkPackageHashMapped => "WorkPackageHashMapped"@,
        EventType::SegmentsRootMapped => "SegmentsRootMapped"@,
        EventType::SendingSegmentShardRequest => "SendingSegmentShardRequest"@,
        EventType::ReceivingSegmentShardRequest => "ReceivingSegmentShardRequest"@,
        EventType::SegmentShardRequestFailed => "SegmentShardRequestFailed"@,
        EventType::SegmentShardRequestSent => "SegmentShardRequestSent"@,
        EventType::SegmentShardRequestReceived => "SegmentShardRequestReceived"@,
        EventType::SegmentShardsTransferred => "SegmentShardsTransferred"@,
        EventType::ReconstructingSegments => "ReconstructingSegments"@,
        EventType::SegmentReconstructionFailed => "SegmentReconstructionFailed"@,
        EventType::SegmentsReconstructed => "SegmentsReconstructed"@,
        EventType::SegmentVerificationFailed => "SegmentVerificationFailed"@,
        EventType::SegmentsVerified => "SegmentsVerified"@,
        EventType::SendingSegmentRequest => "SendingSegmentRequest"@,
        EventType::ReceivingSegmentRequest => "ReceivingSegmentRequest"@,
        EventType::SegmentRequestFailed => "SegmentRequestFailed"@,
        EventType::SegmentRequestSent => "SegmentRequestSent"@,
        EventType::SegmentRequestReceived => "SegmentRequestReceived"@,
        EventType::SegmentsTransferred => "SegmentsTransferred"@,
        EventType::PreimageAnnouncementFailed => "PreimageAnnouncementFailed"@,
        EventType::PreimageAnnounced => "PreimageAnnounced"@,
        EventType::AnnouncedPreimageForgotten => "AnnouncedPreimageForgotten"@,
        EventType::SendingPreimageRequest => "SendingPreimageRequest"@,
        EventType::ReceivingPreimageRequest => "ReceivingPreimageRequest"@,
        EventType::PreimageRequestFailed => "PreimageRequestFailed"@,
        EventType::PreimageRequestSent => "PreimageRequestSent"@,
        EventType::PreimageRequestReceived => "PreimageRequestReceived"@,
        EventType::PreimageTransferred => "PreimageTransferred"@,
        EventType::PreimageDiscarded => "PreimageDiscarded"@,
    }
}

/// Human-readable name of the kind with code `event_type`, or "Unknown" for
/// codes that name no kind.
pub fn event_name(event_type: u8) -> (r: &'static str)
    ensures
        r@ == match decode_event_type(event_type) {
            Some(t) => kind_name(t),
            None => "Unknown"@,
        },
{
    match event_type {
        0 => "Dropped",
        10 => "Status",
        11 => "BestBlockChanged",
        12 => "FinalizedBlockChanged",
        13 => "SyncStatusChanged",
        20 => "ConnectionRefused",
        21 => "ConnectingIn",
        22 => "ConnectInFailed",
        23 => "ConnectedIn",
        24 => "ConnectingOut",
        25 => "ConnectOutFailed",
        26 => "ConnectedOut",
        27 => "Disconnected",
        28 => "PeerMisbehaved",
        40 => "Authoring",
        41 => "AuthoringFailed",
        42 => "Authored",
        43 => "Importing",
        44 => "BlockVerificationFailed",
        45 => "BlockVerified",
        46 => "BlockExecutionFailed",
        47 => "BlockExecuted",
        60 => "BlockAnnouncementStreamOpened",
        61 => "BlockAnnouncementStreamClosed",
        62 => "BlockAnnounced",
        63 => "SendingBlockRequest",
        64 => "ReceivingBlockRequest",
        65 => "BlockRequestFailed",
        66 => "BlockRequestSent",
        67 => "BlockRequestReceived",
        68 => "BlockTransferred",
        80 => "GeneratingTickets",
        81 => "TicketGenerationFailed",
        82 => "TicketsGenerated",
        83 => "TicketTransferFailed",
        84 => "TicketTransferred",
        90 => "WorkPackageSubmission",
        91 => "WorkPackageBeingShared",
        92 => "WorkPackageFailed",
        93 => "DuplicateWorkPackage",
        94 => "WorkPackageReceived",
        95 => "Authorized",
        96 => "ExtrinsicDataReceived",
        97 => "ImportsReceived",
        98 => "SharingWorkPackage",
        99 => "WorkPackageSharingFailed",
        100 => "BundleSent",
        101 => "Refined",
        102 => "WorkReportBuilt",
        103 => "WorkReportSignatureSent",
        104 => "WorkReportSignatureReceived",
        105 => "GuaranteeBuilt",
        106 => "SendingGuarantee",
        107 => "GuaranteeSendFailed",
        108 => "GuaranteeSent",
        109 => "GuaranteesDistributed",
        110 => "ReceivingGuarantee",
        111 => "GuaranteeReceiveFailed",
        112 => "GuaranteeReceived",
        113 => "GuaranteeDiscarded",
        120 => "SendingShardRequest",
        121 => "ReceivingShardRequest",
        122 => "ShardRequestFailed",
        123 => "ShardRequestSent",
        124 => "ShardRequestReceived",
        125 => "ShardsTransferred",
        126 => "DistributingAssurance",
        127 => "AssuranceSendFailed",
        128 => "AssuranceSent",
        129 => "AssuranceDistributed",
        130 => "AssuranceReceiveFailed",
        131 => "AssuranceReceived",
        140 => "SendingBundleShardRequest",
        141 => "ReceivingBundleShardRequest",
        142 => "BundleShardRequestFailed",
        143 => "BundleShardRequestSent",
        144 => "BundleShardRequestReceived",
        145 => "BundleShardTransferred",
        146 => "ReconstructingBundle",
        147 => "BundleReconstructed",
        148 => "SendingBundleRequest",
        149 => "ReceivingBundleRequest",
        150 => "BundleRequestFailed",
        151 => "BundleRequestSent",
        152 => "BundleRequestReceived",
        153 => "BundleTransferred",
        160 => "WorkPackageHashMapped",
        161 => "SegmentsRootMapped",
        162 => "SendingSegmentShardRequest",
        163 => "ReceivingSegmentShardRequest",
        164 => "SegmentShardRequestFailed",
        165 => "SegmentShardRequestSent",
        166 => "SegmentShardRequestReceived",
        167 => "SegmentShardsTransferred",
        168 => "ReconstructingSegments",
        169 => "SegmentReconstructionFailed",
        170 => "SegmentsReconstructed",
        171 => "SegmentVerificationFailed",
        172 => "SegmentsVerified",
        173 => "SendingSegmentRequest",
        174 => "ReceivingSegmentRequest",
        175 => "SegmentRequestFailed",
        176 => "SegmentRequestSent",
        177 => "SegmentRequestReceived",
        178 => "SegmentsTransferred",
        190 => "PreimageAnnouncementFailed",
        191 => "PreimageAnnounced",
        192 => "AnnouncedPreimageForgotten",
        193 => "SendingPreimageRequest",
        194 => "ReceivingPreimageRequest",
        195 => "PreimageRequestFailed",
        196 => "PreimageRequestSent",
        197 => "PreimageRequestReceived",
        198 => "PreimageTransferred",
        199 => "PreimageDiscarded",
        _ => "Unknown",
    }
}

/// Display colour for the kind with code `event_type`: its category's colour,
/// or white for codes that name no kind.
pub fn event_color_rgb(event_type: u8) -> (r: (u8, u8, u8))
    ensures
        r == match category_of_code(event_type) {
            Some(k) => category_rgb(k),
            None => (255u8, 255u8, 255u8),
        },
{
    if event_type == 0 {
        (128, 128, 128)
    } else if 10 <= event_type && event_type <= 13 {
        (100, 200, 100)
    } else if 20 <= event_type && event_type <= 28 {
        (100, 150, 255)
    } else if 40 <= event_type && event_type <= 47 {
        (255, 200, 100)
    } else if 60 <= event_type && event_type <= 68 {
        (200, 100, 255)
    } else if 80 <= event_type && event_type <= 84 {
        (255, 100, 100)
    } else if 90 <= event_type && event_type <= 104 {
        (100, 255, 200)
    } else if 105 <= event_type && event_type <= 113 {
        (255, 100, 200)
    } else if 120 <= event_type && event_type <= 131 {
        (255, 255, 100)
    } else if 140 <= event_type && event_type <= 153 {
        (255, 150, 150)
    } else if 160 <= event_type && event_type <= 178 {
        (150, 200, 255)
    } else if 190 <= event_type && event_type <= 199 {
        (200, 200, 200)
    } else {
        (255, 255, 255)
    }
}

/// Kinds that report an error, failure, disconnection or discard.
pub open spec fn is_error_kind(t: EventType) -> bool {
    match t {
        EventType::Dropped
        | EventType::ConnectionRefused
        | EventType::ConnectInFailed
        | EventType::ConnectOutFailed
        | EventType::Disconnected
        | EventType::PeerMisbehaved
        | EventType::AuthoringFailed
        | EventType::BlockVerificationFailed
        | EventType::BlockExecutionFailed
        | EventType::BlockAnnouncementStreamClosed
        | EventType::BlockRequestFailed
        | EventType::TicketGenerationFailed
        | EventType::TicketTransferFailed
        | EventType::WorkPackageFailed
        | EventType::DuplicateWorkPackage
        | EventType::WorkPackageSharingFailed
        | EventType::GuaranteeSendFailed
        | EventType::GuaranteeReceiveFailed
        | EventType::GuaranteeDiscarded
        | EventType::ShardRequestFailed
        | EventType::AssuranceSendFailed
        | EventType::AssuranceReceiveFailed
        | EventType::BundleShardRequestFailed
        | EventType::BundleRequestFailed
        | EventType::SegmentShardRequestFailed
        | EventType::SegmentReconstructionFailed
        | EventType::SegmentVerificationFailed
        | EventType::SegmentRequestFailed
        | EventType::PreimageAnnouncementFailed
        | EventType::PreimageRequestFailed
        | EventType::PreimageDiscarded => true,
        _ => false,
    }
}

/// Whether an event kind reports an error, failure, disconnection or discard.
pub fn is_error_event(t: EventType) -> (r: bool)
    ensures
        r == is_error_kind(t),
{
    match t {
        EventType::Dropped
        | EventType::ConnectionRefused
        | EventType::ConnectInFailed
        | EventType::ConnectOutFailed
        | EventType::Disconnected
        | EventType::PeerMisbehaved
        | EventType::AuthoringFailed
        | EventType::BlockVerificationFailed
        | EventType::BlockExecutionFailed
        | EventType::BlockAnnouncementStreamClosed
        | EventType::BlockRequestFailed
        | EventType::TicketGenerationFailed
        | EventType::TicketTransferFailed
        | EventType::WorkPackageFailed
        | EventType::DuplicateWorkPackage
        | EventType::WorkPackageSharingFailed
        | EventType::GuaranteeSendFailed
        | EventType::GuaranteeReceiveFailed
        | EventType::GuaranteeDiscarded
        | EventType::ShardRequestFailed
        | EventType::AssuranceSendFailed
        | EventType::AssuranceReceiveFailed
        | EventType::BundleShardRequestFailed
        | EventType::BundleRequestFailed
        | EventType::SegmentShardRequestFailed
        | EventType::SegmentReconstructionFailed
        | EventType::SegmentVerificationFailed
        | EventType::SegmentRequestFailed
        | EventType::PreimageAnnouncementFailed
        | EventType::PreimageRequestFailed
        | EventType::PreimageDiscarded => true,
        _ => false,
    }
}

/// Directed kinds whose reporting node always sends to the peer.
pub open spec fn is_outbound_kind(t: EventType) -> bool {
    match t {
        EventType::ConnectingOut
        | EventType::SendingBlockRequest
        | EventType::SharingWorkPackage
        | EventType::WorkPackageSharingFailed
        | EventType::BundleSent
        | EventType::SendingGuarantee
        | EventType::SendingShardRequest
        | EventType::AssuranceSendFailed
        | EventType::AssuranceSent => true,
        _ => false,
    }
}

/// Directed kinds whose reporting node always sends to the peer.
pub fn is_outbound_event(t: EventType) -> (r: bool)
    ensures
        r == is_outbound_kind(t),
{
    match t {
        EventType::ConnectingOut
        | EventType::SendingBlockRequest
        | EventType::SharingWorkPackage
        | EventType::WorkPackageSharingFailed
        | EventType::BundleSent
        | EventType::SendingGuarantee
        | EventType::SendingShardRequest
        | EventType::AssuranceSendFailed
        | EventType::AssuranceSent => true,
        _ => false,
    }
}

/// Directed kinds whose reporting node always receives from the peer.
pub open spec fn is_inbound_kind(t: EventType) -> bool {
    match t {
        EventType::ConnectedIn
        | EventType::ReceivingBlockRequest
        | EventType::WorkPackageBeingShared
        | EventType::WorkReportSignatureReceived
        | EventType::ReceivingGuarantee
        | EventType::ReceivingShardRequest
        | EventType::AssuranceReceiveFailed
        | EventType::AssuranceReceived => true,
        _ => false,
    }
}

/// Directed kinds whose reporting node always receives from the peer.
pub fn is_inbound_event(t: EventType) -> (r: bool)
    ensures
        r == is_inbound_kind(t),
{
    match t {
        EventType::ConnectedIn
        | EventType::ReceivingBlockRequest
        | EventType::WorkPackageBeingShared
        | EventType::WorkReportSignatureReceived
        | EventType::ReceivingGuarantee
        | EventType::ReceivingShardRequest
        | EventType::AssuranceReceiveFailed
        | EventType::AssuranceReceived => true,
        _ => false,
    }
}

/// Directed kinds that concern a peer in either direction.
pub open spec fn is_bidirectional_kind(t: EventType) -> bool {
    match t {
        EventType::Disconnected
        | EventType::PeerMisbehaved
        | EventType::BlockAnnouncementStreamOpened
        | EventType::BlockAnnouncementStreamClosed
        | EventType::BlockAnnounced
        | EventType::TicketTransferFailed
        | EventType::TicketTransferred => true,
        _ => false,
    }
}

/// Directed kinds that concern a peer in either direction.
pub fn is_bidirectional_event(t: EventType) -> (r: bool)
    ensures
        r == is_bidirectional_kind(t),
{
    match t {
        EventType::Disconnected
        | EventType::PeerMisbehaved
        | EventType::BlockAnnouncementStreamOpened
        | EventType::BlockAnnouncementStreamClosed
        | EventType::BlockAnnounced
        | EventType::TicketTransferFailed
        | EventType::TicketTransferred => true,
        _ => false,
    }
}


/// The kinds selected by `sel` whose code is below `n`, in ascending code order.
pub open spec fn kinds_below(n: nat, sel: spec_fn(EventType) -> bool) -> Seq<EventType>
    decreases n,
{
    if n == 0 {
        Seq::empty()
    } else {
        let prev = kinds_below((n - 1) as nat, sel);
        match decode_event_type((n - 1) as u8) {
            Some(t) => if sel(t) { prev.push(t) } else { prev },
            None => prev,
        }
    }
}

/// All selected kinds, in ascending code order.
pub open spec fn kinds_where(sel: spec_fn(EventType) -> bool) -> Seq<EventType> {
    kinds_below(256, sel)
}

/// `kinds_below` holds exactly the selected kinds with a code below `n`, each
/// once, in strictly ascending code order.
pub proof fn lemma_kinds_below(n: nat, sel: spec_fn(EventType) -> bool)
    requires
        n <= 256,
    ensures
        forall|t: EventType| #[trigger] kinds_below(n, sel).contains(t) <==> (sel(t) && t.spec_code() < n),
        forall|i: int, j: int|
            0 <= i < j < kinds_below(n, sel).len() ==> (#[trigger] kinds_below(n, sel)[i]).spec_code()
                < (#[trigger] kinds_below(n, sel)[j]).spec_code(),
        forall|i: int| 0 <= i < kinds_below(n, sel).len() ==> (#[trigger] kinds_below(n, sel)[i]).spec_code() < n,
    decreases n,
{
    if n > 0 {
        let m = (n - 1) as nat;
        lemma_kinds_below(m, sel);
        lemma_decode_sound(m as u8);
        let prev = kinds_below(m, sel);
        assert forall|t: EventType| #[trigger] kinds_below(n, sel).contains(t) <==> (sel(t) && t.spec_code() < n) by {
            lemma_decode_code(t);
            assert(prev.contains(t) == (sel(t) && t.spec_code() < m));
            match decode_event_type(m as u8) {
                Some(s) => {
                    if sel(s) {
                        assert(kinds_below(n, sel) == prev.push(s));
                        if kinds_below(n, sel).contains(t) {
                            let k = choose|k: int| 0 <= k < prev.len() + 1 && #[trigger] prev.push(s)[k] == t;
                            if k < prev.len() {
                                assert(prev[k] == t);
                                assert(prev.contains(t));
                            }
                        }
                        if sel(t) && t.spec_code() < n {
                            if t.spec_code() < m {
                                let k = choose|k: int| 0 <= k < prev.len() && #[trigger] prev[k] == t;
                                assert(prev.push(s)[k] == t);
                            } else {
                                assert(prev.push(s)[prev.len() as int] == t);
                            }
                        }
                    } else {
                        assert(kinds_below(n, sel) == prev);
                    }
                }
                None => {
                    assert(kinds_below(n, sel) == prev);
                }
            }
        }
    }
}

/// Membership in the list of all selected kinds.
pub proof fn lemma_kinds_where(sel: spec_fn(EventType) -> bool, t: EventType)
    ensures
        kinds_where(sel).contains(t) <==> sel(t),
        forall|i: int, j: int|
            0 <= i < j < kinds_where(sel).len() ==> (#[trigger] kinds_where(sel)[i]).spec_code()
                < (#[trigger] kinds_where(sel)[j]).spec_code(),
{
    lemma_kinds_below(256, sel);
}

/// Selector of the kinds in category `i`.
pub open spec fn in_category(i: nat) -> spec_fn(EventType) -> bool {
    |t: EventType| category_of(t) == i
}

/// A named group of event kinds, for the filter panel.
pub struct EventCategory {
    pub name: &'static str,
    pub event_types: Vec<EventType>,
}

/// The event categories in display order, each listing its kinds in ascending
/// code order.
pub fn event_categories() -> (r: Vec<EventCategory>)
    ensures
        r.len() == NUM_CATEGORIES,
        forall|i: int| 0 <= i < NUM_CATEGORIES ==> (#[trigger] r[i]).name@ == category_name(i as nat),
        forall|i: int| 0 <= i < NUM_CATEGORIES ==> (#[trigger] r[i]).event_types@ == kinds_where(in_category(i as nat)),
{
    let mut cats: Vec<EventCategory> = Vec::new();
    cats.push(EventCategory { name: "Meta", event_types: Vec::new() });
    cats.push(EventCategory { name: "Status", event_types: Vec::new() });
    cats.push(EventCategory { name: "Connection", event_types: Vec::new() });
    cats.push(EventCategory { name: "Block Auth/Import", event_types: Vec::new() });
    cats.push(EventCategory { name: "Block Distribution", event_types: Vec::new() });
    cats.push(EventCategory { name: "Safrole Tickets", event_types: Vec::new() });
    cats.push(EventCategory { name: "Work Package", event_types: Vec::new() });
    cats.push(EventCategory { name: "Guaranteeing", event_types: Vec::new() });
    cats.push(EventCategory { name: "Availability", event_types: Vec::new() });
    cats.push(EventCategory { name: "Bundle Recovery", event_types: Vec::new() });
    cats.push(EventCategory { name: "Segment Recovery", event_types: Vec::new() });
    cats.push(EventCategory { name: "Preimages", event_types: Vec::new() });
    let mut c: u16 = 0;
    while c < 256
        invariant
            c <= 256,
            cats.len() == NUM_CATEGORIES,
            forall|i: int| 0 <= i < NUM_CATEGORIES ==> (#[trigger] cats[i]).name@ == category_name(i as nat),
            forall|i: int| 0 <= i < NUM_CATEGORIES ==> (#[trigger] cats[i]).event_types@ == kinds_below(c as nat, in_category(i as nat)),
        decreases 256 - c,
    {
        let ghost before = cats@;
        match EventType::from_u8(c as u8) {
            Some(t) => {
                let k = category_index(t);
                cats[k].event_types.push(t);
                assert forall|i: int| 0 <= i < NUM_CATEGORIES implies (#[trigger] cats[i]).event_types@ == kinds_below((c + 1) as nat, in_category(i as nat)) by {
                    assert(decode_event_type(c as u8) == Some(t));
                    if i != k {
                        assert(cats[i] == before[i]);
                    }
                }
            }
            None => {}
        }
        c = c + 1;
    }
    cats
}

/// Selector of the failure kinds.
pub open spec fn error_kinds() -> spec_fn(EventType) -> bool {
    |t: EventType| is_error_kind(t)
}

/// Selector of the kinds that are always outbound.
pub open spec fn outbound_kinds() -> spec_fn(EventType) -> bool {
    |t: EventType| is_outbound_kind(t)
}

/// Selector of the kinds that are always inbound.
pub open spec fn inbound_kinds() -> spec_fn(EventType) -> bool {
    |t: EventType| is_inbound_kind(t)
}

/// Selector of the kinds that are directed either way.
pub open spec fn bidirectional_kinds() -> spec_fn(EventType) -> bool {
    |t: EventType| is_bidirectional_kind(t)
}

/// The failure kinds (errors, failures, disconnections, discards) in ascending
/// code order.
pub fn error_event_types() -> (r: Vec<EventType>)
    ensures
        r@ == kinds_where(error_kinds()),
{
    let mut out: Vec<EventType> = Vec::new();
    let mut c: u16 = 0;
    while c < 256
        invariant
            c <= 256,
            out@ == kinds_below(c as nat, error_kinds()),
        decreases 256 - c,
    {
        if let Some(t) = EventType::from_u8(c as u8) {
            if is_error_event(t) {
                out.push(t);
            }
        }
        c = c + 1;
    }
    out
}

/// The kinds whose reporting node always sends to the peer, in ascending code
/// order.
pub fn outbound_events() -> (r: Vec<EventType>)
    ensures
        r@ == kinds_where(outbound_kinds()),
{
    let mut out: Vec<EventType> = Vec::new();
    let mut c: u16 = 0;
    while c < 256
        invariant
            c <= 256,
            out@ == kinds_below(c as nat, outbound_kinds()),
        decreases 256 - c,
    {
        if let Some(t) = EventType::from_u8(c as u8) {
            if is_outbound_event(t) {
                out.push(t);
            }
        }
        c = c + 1;
    }
    out
}

/// The kinds whose reporting node always receives from the peer, in ascending
/// code order.
pub fn inbound_events() -> (r: Vec<EventType>)
    ensures
        r@ == kinds_where(inbound_kinds()),
{
    let mut out: Vec<EventType> = Vec::new();
    let mut c: u16 = 0;
    while c < 256
        invariant
            c <= 256,
            out@ == kinds_below(c as nat, inbound_kinds()),
        decreases 256 - c,
    {
        if let Some(t) = EventType::from_u8(c as u8) {
            if is_inbound_event(t) {
                out.push(t);
            }
        }
        c = c + 1;
    }
    out
}

/// The kinds directed either way, in ascending code order.
pub fn bidir_events() -> (r: Vec<EventType>)
    ensures
        r@ == kinds_where(bidirectional_kinds()),
{
    let mut out: Vec<EventType> = Vec::new();
    let mut c: u16 = 0;
    while c < 256
        invariant
            c <= 256,
            out@ == kinds_below(c as nat, bidirectional_kinds()),
        decreases 256 - c,
    {
        if let Some(t) = EventType::from_u8(c as u8) {
            if is_bidirectional_event(t) {
                out.push(t);
            }
        }
        c = c + 1;
    }
    out
}

/// An event names a peer exactly when its kind is outbound, inbound or
/// bidirectional; outbound kinds always have the reporting node as sender and
/// inbound kinds never do.
pub proof fn law_direction_lists_match_directed_peer(e: Event)
    ensures
        (e.peer_direction() is Some) <==> (is_outbound_kind(e.kind()) || is_inbound_kind(e.kind())
            || is_bidirectional_kind(e.kind())),
        is_outbound_kind(e.kind()) ==> e.peer_direction().unwrap().1,
        is_inbound_kind(e.kind()) ==> !e.peer_direction().unwrap().1,
{
}

/// The three direction classes are disjoint.
pub proof fn law_direction_classes_disjoint(t: EventType)
    ensures
        !(is_outbound_kind(t) && is_inbound_kind(t)),
        !(is_outbound_kind(t) && is_bidirectional_kind(t)),
        !(is_inbound_kind(t) && is_bidirectional_kind(t)),
{
}

/// Two kinds of the same category have the same display colour.
pub proof fn law_color_follows_category(t1: EventType, t2: EventType)
    requires
        category_of(t1) == category_of(t2),
    ensures
        category_of_code(t1.spec_code()) == category_of_code(t2.spec_code()),
{
    lemma_category_bound(t1);
    lemma_category_bound(t2);
}

} // verus!

verus! {

/// Distinct kinds have distinct names, and no kind is named "Unknown" (the
/// name `event_name` gives codes that name no kind).
pub proof fn law_event_names_distinct(t1: EventType, t2: EventType)
    ensures
        t1 != t2 ==> kind_name(t1) != kind_name(t2),
        kind_name(t1) != "Unknown"@,
{
    reveal_strlit("Dropped");
    reveal_strlit("Status");
    reveal_strlit("BestBlockChanged");
    reveal_strlit("FinalizedBlockChanged");
    reveal_strlit("SyncStatusChanged");
    reveal_strlit("ConnectionRefused");
    reveal_strlit("ConnectingIn");
    reveal_strlit("ConnectInFailed");
    reveal_strlit("ConnectedIn");
    reveal_strlit("ConnectingOut");
    reveal_strlit("ConnectOutFailed");
    reveal_strlit("ConnectedOut");
    reveal_strlit("Disconnected");
    reveal_strlit("PeerMisbehaved");
    reveal_strlit("Authoring");
    reveal_strlit("AuthoringFailed");
    reveal_strlit("Authored");
    reveal_strlit("Importing");
    reveal_strlit("BlockVerificationFailed");
    reveal_strlit("BlockVerified");
    reveal_strlit("BlockExecutionFailed");
    reveal_strlit("BlockExecuted");
    reveal_strlit("BlockAnnouncementStreamOpened");
    reveal_strlit("BlockAnnouncementStreamClosed");
    reveal_strlit("BlockAnnounced");
    reveal_strlit("SendingBlockRequest");
    reveal_strlit("ReceivingBlockRequest");
    reveal_strlit("BlockRequestFailed");
    reveal_strlit("BlockRequestSent");
    reveal_strlit("BlockRequestReceived");
    reveal_strlit("BlockTransferred");
    reveal_strlit("GeneratingTickets");
    reveal_strlit("TicketGenerationFailed");
    reveal_strlit("TicketsGenerated");
    reveal_strlit("TicketTransferFailed");
    reveal_strlit("TicketTransferred");
    reveal_strlit("WorkPackageSubmission");
    reveal_strlit("WorkPackageBeingShared");
    reveal_strlit("WorkPackageFailed");
    reveal_strlit("DuplicateWorkPackage");
    reveal_strlit("WorkPackageReceived");
    reveal_strlit("Authorized");
    reveal_strlit("ExtrinsicDataReceived");
    reveal_strlit("ImportsReceived");
    reveal_strlit("SharingWorkPackage");
    reveal_strlit("WorkPackageSharingFailed");
    reveal_strlit("BundleSent");
    reveal_strlit("Refined");
    reveal_strlit("WorkReportBuilt");
    reveal_strlit("WorkReportSignatureSent");
    reveal_strlit("WorkReportSignatureReceived");
    reveal_strlit("GuaranteeBuilt");
    reveal_strlit("SendingGuarantee");
    reveal_strlit("GuaranteeSendFailed");
    reveal_strlit("GuaranteeSent");
    reveal_strlit("GuaranteesDistributed");
    reveal_strlit("ReceivingGuarantee");
    reveal_strlit("GuaranteeReceiveFailed");
    reveal_strlit("GuaranteeReceived");
    reveal_strlit("GuaranteeDiscarded");
    reveal_strlit("SendingShardRequest");
    reveal_strlit("ReceivingShardRequest");
    reveal_strlit("ShardRequestFailed");
    reveal_strlit("ShardRequestSent");
    reveal_strlit("ShardRequestReceived");
    reveal_strlit("ShardsTransferred");
    reveal_strlit("DistributingAssurance");
    reveal_strlit("AssuranceSendFailed");
    reveal_strlit("AssuranceSent");
    reveal_strlit("AssuranceDistributed");
    reveal_strlit("AssuranceReceiveFailed");
    reveal_strlit("AssuranceReceived");
    reveal_strlit("SendingBundleShardRequest");
    reveal_strlit("ReceivingBundleShardRequest");
    reveal_strlit("BundleShardRequestFailed");
    reveal_strlit("BundleShardRequestSent");
    reveal_strlit("BundleShardRequestReceived");
    reveal_strlit("BundleShardTransferred");
    reveal_strlit("ReconstructingBundle");
    reveal_strlit("BundleReconstructed");
    reveal_strlit("SendingBundleRequest");
    reveal_strlit("ReceivingBundleRequest");
    reveal_strlit("BundleRequestFailed");
    reveal_strlit("BundleRequestSent");
    reveal_strlit("BundleRequestReceived");
    reveal_strlit("BundleTransferred");
    reveal_strlit("WorkPackageHashMapped");
    reveal_strlit("SegmentsRootMapped");
    reveal_strlit("SendingSegmentShardRequest");
    reveal_strlit("ReceivingSegmentShardRequest");
    reveal_strlit("SegmentShardRequestFailed");
    reveal_strlit("SegmentShardRequestSent");
    reveal_strlit("SegmentShardRequestReceived");
    reveal_strlit("SegmentShardsTransferred");
    reveal_strlit("ReconstructingSegments");
    reveal_strlit("SegmentReconstructionFailed");
    reveal_strlit("SegmentsReconstructed");
    reveal_strlit("SegmentVerificationFailed");
    reveal_strlit("SegmentsVerified");
    reveal_strlit("SendingSegmentRequest");
    reveal_strlit("ReceivingSegmentRequest");
    reveal_strlit("SegmentRequestFailed");
    reveal_strlit("SegmentRequestSent");
    reveal_strlit("SegmentRequestReceived");
    reveal_strlit("SegmentsTransferred");
    reveal_strlit("PreimageAnnouncementFailed");
    reveal_strlit("PreimageAnnounced");
    reveal_strlit("AnnouncedPreimageForgotten");
    reveal_strlit("SendingPreimageRequest");
    reveal_strlit("ReceivingPreimageRequest");
    reveal_strlit("PreimageRequestFailed");
    reveal_strlit("PreimageRequestSent");
    reveal_strlit("PreimageRequestReceived");
    reveal_strlit("PreimageTransferred");
    reveal_strlit("PreimageDiscarded");
    reveal_strlit("Unknown");
    let s1 = kind_name(t1);
    let s2 = kind_name(t2);
    let unknown = "Unknown"@;
    if s1 == unknown {
        assert(s1.len() == unknown.len());
        assert(s1[0] == unknown[0]);
    }
    if s1 == s2 {
        assert(s1.len() == s2.len());
        assert(s1[0] == s2[0]);
        if s1.len() >= 12 {
            assert(s1[5] == s2[5] && s1[6] == s2[6] && s1[7] == s2[7] && s1[8] == s2[8] && s1[11] == s2[11]);
        }
        if s1.len() >= 24 {
            assert(s1[23] == s2[23]);
        }
    }
}

} // verus!

verus! {

/// Reads an event name back to the code of the kind it names, or `None` for a
/// text that names no kind: the names are told apart by their length and a
/// few of their letters, then compared whole.
pub open spec fn code_of_name(s: Seq<char>) -> Option<u8> {
    if s.len() == 6 {
        if s == "Status"@ { Some(10u8) } else { None }
    } else if s.len() == 7 {
        if s[0] == 'D' {
            if s == "Dropped"@ { Some(0u8) } else { None }
        } else if s[0] == 'R' {
            if s == "Refined"@ { Some(101u8) } else { None }
        } else {
            None
        }
    } else if s.len() == 8 {
        if s == "Authored"@ { Some(42u8) } else { None }
    } else if s.len() == 9 {
        if s[0] == 'A' {
            if s == "Authoring"@ { Some(40u8) } else { None }
        } else if s[0] == 'I' {
            if s == "Importing"@ { Some(43u8) } else { None }
        } else {
            None
        }
    } else if s.len() == 10 {
        if s[0] == 'A' {
            if s == "Authorized"@ { Some(95u8) } else { None }
        } else if s[0] == 'B' {
            if s == "BundleSent"@ { Some(100u8) } else { None }
        } else {
            None
        }
    } else if s.len() == 11 {
        if s == "ConnectedIn"@ { Some(23u8) } else { None }
    } else if s.len() == 12 {
        if s[8] == 'n' {
            if s == "ConnectingIn"@ { Some(21u8) } else { None }
        } else if s[8] == 'd' {
            if s == "ConnectedOut"@ { Some(26u8) } else { None }
        } else if s[8] == 'c' {
            if s == "Disconnected"@ { Some(27u8) } else { None }
        } else {
            None
        }
    } else if s.len() == 13 {
        if s[5] == 'c' {
            if s == "ConnectingOut"@ { Some(24u8) } else { None }
        } else if s[5] == 'V' {
            if s == "BlockVerified"@ { Some(45u8) } else { None }
        } else if s[5] == 'E' {
            if s == "BlockExecuted"@ { Some(47u8) } else { None }
        } else if s[5] == 'n' {
            if s == "GuaranteeSent"@ { Some(108u8) } else { None }
        } else if s[5] == 'a' {
            if s == "AssuranceSent"@ { Some(128u8) } else { None }
        } else {
            None
        }
    } else if s.len() == 14 {
        if s[0] == 'P' {
            if s == "PeerMisbehaved"@ { Some(28u8) } else { None }
        } else if s[0] == 'B' {
            if s == "BlockAnnounced"@ { Some(62u8) } else { None }
        } else if s[0] == 'G' {
            if s == "GuaranteeBuilt"@ { Some(105u8) } else { None }
        } else {
            None
        }
    } else if s.len() == 15 {
        if s[0] == 'C' {
            if s == "ConnectInFailed"@ { Some(22u8) } else { None }
        } else if s[0] == 'A' {
            if s == "AuthoringFailed"@ { Some(41u8) } else { None }
        } else if s[0] == 'I' {
            if s == "ImportsReceived"@ { Some(97u8) } else { None }
        } else if s[0] == 'W' {
            if s == "WorkReportBuilt"@ { Some(102u8) } else { None }
        } else {
            None
        }
    } else if s.len() == 16 {
        if s[0] == 'B' && s[6] == 'o' {
            if s == "BestBlockChanged"@ { Some(11u8) } else { None }
        } else if s[0] == 'C' && s[6] == 't' {
            if s == "ConnectOutFailed"@ { Some(25u8) } else { None }
        } else if s[0] == 'B' && s[6] == 'e' {
            if s == "BlockRequestSent"@ { Some(66u8) } else { None }
        } else if s[0] == 'B' && s[6] == 'r' {
            if s == "BlockTransferred"@ { Some(68u8) } else { None }
        } else if s[0] == 'T' && s[6] == 's' {
            if s == "TicketsGenerated"@ { Some(82u8) } else { None }
        } else if s[0] == 'S' && s[6] == 'g' {
            if s == "SendingGuarantee"@ { Some(106u8) } else { None }
        } else if s[0] == 'S' && s[6] == 'e' {
            if s == "ShardRequestSent"@ { Some(123u8) } else { None }
        } else if s[0] == 'S' && s[6] == 't' {
            if s == "SegmentsVerified"@ { Some(172u8) } else { None }
        } else {
            None
        }
    } else if s.len() == 17 {
        if s[0] == 'S' && s[8] == 'u' {
            if s == "SyncStatusChanged"@ { Some(13u8) } else { None }
        } else if s[0] == 'C' && s[8] == 'o' {
            if s == "ConnectionRefused"@ { Some(20u8) } else { None }
        } else if s[0] == 'G' && s[8] == 'n' {
            if s == "GeneratingTickets"@ { Some(80u8) } else { None }
        } else if s[0] == 'T' && s[8] == 'a' {
            if s == "TicketTransferred"@ { Some(84u8) } else { None }
        } else if s[0] == 'W' && s[8] == 'a' {
            if s == "WorkPackageFailed"@ { Some(92u8) } else { None }
        } else if s[0] == 'G' && s[8] == 'e' {
            if s == "GuaranteeReceived"@ { Some(112u8) } else { None }
        } else if s[0] == 'S' && s[8] == 'a' {
            if s == "ShardsTransferred"@ { Some(125u8) } else { None }
        } else if s[0] == 'A' && s[8] == 'e' {
            if s == "AssuranceReceived"@ { Some(131u8) } else { None }
        } else if s[0] == 'B' && s[8] == 'q' {
            if s == "BundleRequestSent"@ { Some(151u8) } else { None }
        } else if s[0] == 'B' && s[8] == 'a' {
            if s == "BundleTransferred"@ { Some(153u8) } else { None }
        } else if s[0] == 'P' && s[8] == 'A' {
            if s == "PreimageAnnounced"@ { Some(191u8) } else { None }
        } else if s[0] == 'P' && s[8] == 'D' {
            if s == "PreimageDiscarded"@ { Some(199u8) } else { None }
        } else {
            None
        }
    } else if s.len() == 18 {
        if s[0] == 'B' && s[7] == 'q' {
            if s == "BlockRequestFailed"@ { Some(65u8) } else { None }
        } else if s[0] == 'S' && s[7] == 'W' {
            if s == "SharingWorkPackage"@ { Some(98u8) } else { None }
        } else if s[0] == 'R' && s[7] == 'n' {
            if s == "ReceivingGuarantee"@ { Some(110u8) } else { None }
        } else if s[0] == 'G' && s[7] == 'e' {
            if s == "GuaranteeDiscarded"@ { Some(113u8) } else { None }
        } else if s[0] == 'S' && s[7] == 'q' {
            if s == "ShardRequestFailed"@ { Some(122u8) } else { None }
        } else if s[0] == 'S' && s[7] == 's' {
            if s == "SegmentsRootMapped"@ { Some(161u8) } else { None }
        } else if s[0] == 'S' && s[7] == 'R' {
            if s == "SegmentRequestSent"@ { Some(176u8) } else { None }
        } else {
            None
        }
    } else if s.len() == 19 {
        if s[0] == 'S' && s[8] == 'l' {
            if s == "SendingBlockRequest"@ { Some(63u8) } else { None }
        } else if s[0] == 'W' && s[8] == 'a' {
            if s == "WorkPackageReceived"@ { Some(94u8) } else { None }
        } else if s[0] == 'G' && s[8] == 'e' {
            if s == "GuaranteeSendFailed"@ { Some(107u8) } else { None }
        } else if s[0] == 'S' && s[8] == 'h' {
            if s == "SendingShardRequest"@ { Some(120u8) } else { None }
        } else if s[0] == 'A' && s[8] == 'e' {
            if s == "AssuranceSendFailed"@ { Some(127u8) } else { None }
        } else if s[0] == 'B' && s[8] == 'c' {
            if s == "BundleReconstructed"@ { Some(147u8) } else { None }
        } else if s[0] == 'B' && s[8] == 'q' {
            if s == "BundleRequestFailed"@ { Some(150u8) } else { None }
        } else if s[0] == 'S' && s[8] == 'T' {
            if s == "SegmentsTransferred"@ { Some(178u8) } else { None }
        } else if s[0] == 'P' && s[8] == 'R' {
            if s == "PreimageRequestSent"@ { Some(196u8) } else { None }
        } else if s[0] == 'P' && s[8] == 'T' {
            if s == "PreimageTransferred"@ { Some(198u8) } else { None }
        } else {
            None
        }
    } else if s.len() == 20 {
        if s[0] == 'B' && s[6] == 'x' {
            if s == "BlockExecutionFailed"@ { Some(46u8) } else { None }
        } else if s[0] == 'B' && s[6] == 'e' {
            if s == "BlockRequestReceived"@ { Some(67u8) } else { None }
        } else if s[0] == 'T' && s[6] == 'T' {
            if s == "TicketTransferFailed"@ { Some(83u8) } else { None }
        } else if s[0] == 'D' && s[6] == 'a' {
            if s == "DuplicateWorkPackage"@ { Some(93u8) } else { None }
        } else if s[0] == 'S' && s[6] == 'e' {
            if s == "ShardRequestReceived"@ { Some(124u8) } else { None }
        } else if s[0] == 'A' && s[6] == 'n' {
            if s == "AssuranceDistributed"@ { Some(129u8) } else { None }
        } else if s[0] == 'R' && s[6] == 't' {
            if s == "ReconstructingBundle"@ { Some(146u8) } else { None }
        } else if s[0] == 'S' && s[6] == 'g' {
            if s == "SendingBundleRequest"@ { Some(148u8) } else { None }
        } else if s[0] == 'S' && s[6] == 't' {
            if s == "SegmentRequestFailed"@ { Some(175u8) } else { None }
        } else {
            None
        }
    } else if s.len() == 21 {
        if s[0] == 'F' && s[11] == 'o' {
            if s == "FinalizedBlockChanged"@ { Some(12u8) } else { None }
        } else if s[0] == 'R' && s[11] == 'o' {
            if s == "ReceivingBlockRequest"@ { Some(64u8) } else { None }
        } else if s[0] == 'W' && s[11] == 'S' {
            if s == "WorkPackageSubmission"@ { Some(90u8) } else { None }
        } else if s[0] == 'E' && s[11] == 't' {
            if s == "ExtrinsicDataReceived"@ { Some(96u8) } else { None }
        } else if s[0] == 'G' && s[11] == 'i' {
            if s == "GuaranteesDistributed"@ { Some(109u8) } else { None }
        } else if s[0] == 'R' && s[11] == 'a' {
            if s == "ReceivingShardRequest"@ { Some(121u8) } else { None }
        } else if s[0] == 'D' && s[11] == 'g' {
            if s == "DistributingAssurance"@ { Some(126u8) } else { None }
        } else if s[0] == 'B' && s[11] == 's' {
            if s == "BundleRequestReceived"@ { Some(152u8) } else { None }
        } else if s[0] == 'W' && s[11] == 'H' {
            if s == "WorkPackageHashMapped"@ { Some(160u8) } else { None }
        } else if s[0] == 'S' && s[11] == 'o' {
            if s == "SegmentsReconstructed"@ { Some(170u8) } else { None }
        } else if s[0] == 'S' && s[11] == 'e' {
            if s == "SendingSegmentRequest"@ { Some(173u8) } else { None }
        } else if s[0] == 'P' && s[11] == 'u' {
            if s == "PreimageRequestFailed"@ { Some(195u8) } else { None }
        } else {
            None
        }
    } else if s.len() == 22 {
        if s[0] == 'T' && s[11] == 'a' {
            if s == "TicketGenerationFailed"@ { Some(81u8) } else { None }
        } else if s[0] == 'W' && s[11] == 'B' {
            if s == "WorkPackageBeingShared"@ { Some(91u8) } else { None }
        } else if s[0] == 'G' && s[11] == 'c' {
            if s == "GuaranteeReceiveFailed"@ { Some(111u8) } else { None }
        } else if s[0] == 'A' && s[11] == 'c' {
            if s == "AssuranceReceiveFailed"@ { Some(130u8) } else { None }
        } else if s[0] == 'B' && s[11] == 'R' {
            if s == "BundleShardRequestSent"@ { Some(143u8) } else { None }
        } else if s[0] == 'B' && s[11] == 'T' {
            if s == "BundleShardTransferred"@ { Some(145u8) } else { None }
        } else if s[0] == 'R' && s[11] == 'n' {
            if s == "ReceivingBundleRequest"@ { Some(149u8) } else { None }
        } else if s[0] == 'R' && s[11] == 'i' {
            if s == "ReconstructingSegments"@ { Some(168u8) } else { None }
        } else if s[0] == 'S' && s[11] == 'e' {
            if s == "SegmentRequestReceived"@ { Some(177u8) } else { None }
        } else if s[0] == 'S' && s[11] == 'm' {
            if s == "SendingPreimageRequest"@ { Some(193u8) } else { None }
        } else {
            None
        }
    } else if s.len() == 23 {
        if s[0] == 'B' {
            if s == "BlockVerificationFailed"@ { Some(44u8) } else { None }
        } else if s[0] == 'W' {
            if s == "WorkReportSignatureSent"@ { Some(103u8) } else { None }
        } else if s[0] == 'S' {
            if s == "SegmentShardRequestSent"@ { Some(165u8) } else { None }
        } else if s[0] == 'R' {
            if s == "ReceivingSegmentRequest"@ { Some(174u8) } else { None }
        } else if s[0] == 'P' {
            if s == "PreimageRequestReceived"@ { Some(197u8) } else { None }
        } else {
            None
        }
    } else if s.len() == 24 {
        if s[0] == 'W' {
            if s == "WorkPackageSharingFailed"@ { Some(99u8) } else { None }
        } else if s[0] == 'B' {
            if s == "BundleShardRequestFailed"@ { Some(142u8) } else { None }
        } else if s[0] == 'S' {
            if s == "SegmentShardsTransferred"@ { Some(167u8) } else { None }
        } else if s[0] == 'R' {
            if s == "ReceivingPreimageRequest"@ { Some(194u8) } else { None }
        } else {
            None
        }
    } else if s.len() == 25 {
        if s[7] == 'B' {
            if s == "SendingBundleShardRequest"@ { Some(140u8) } else { None }
        } else if s[7] == 'S' {
            if s == "SegmentShardRequestFailed"@ { Some(164u8) } else { None }
        } else if s[7] == 'V' {
            if s == "SegmentVerificationFailed"@ { Some(171u8) } else { None }
        } else {
            None
        }
    } else if s.len() == 26 {
        if s[0] == 'B' {
            if s == "BundleShardRequestReceived"@ { Some(144u8) } else { None }
        } else if s[0] == 'S' {
            if s == "SendingSegmentShardRequest"@ { Some(162u8) } else { None }
        } else if s[0] == 'P' {
            if s == "PreimageAnnouncementFailed"@ { Some(190u8) } else { None }
        } else if s[0] == 'A' {
            if s == "AnnouncedPreimageForgotten"@ { Some(192u8) } else { None }
        } else {
            None
        }
    } else if s.len() == 27 {
        if s[7] == 'o' {
            if s == "WorkReportSignatureReceived"@ { Some(104u8) } else { None }
        } else if s[7] == 'n' {
            if s == "ReceivingBundleShardRequest"@ { Some(141u8) } else { None }
        } else if s[7] == 'S' {
            if s == "SegmentShardRequestReceived"@ { Some(166u8) } else { None }
        } else if s[7] == 'R' {
            if s == "SegmentReconstructionFailed"@ { Some(169u8) } else { None }
        } else {
            None
        }
    } else if s.len() == 28 {
        if s == "ReceivingSegmentShardRequest"@ { Some(163u8) } else { None }
    } else if s.len() == 29 {
        if s[23] == 'O' {
            if s == "BlockAnnouncementStreamOpened"@ { Some(60u8) } else { None }
        } else if s[23] == 'C' {
            if s == "BlockAnnouncementStreamClosed"@ { Some(61u8) } else { None }
        } else {
            None
        }
    } else {
        None
    }
}

/// Every kind's name reads back to that kind's code, so the name
/// `event_name` gives for a code is the name of the kind with that code.
pub proof fn law_name_spells_its_code(t: EventType)
    ensures
        code_of_name(kind_name(t)) == Some(t.spec_code()),
{
    reveal_strlit("Dropped");
    reveal_strlit("Status");
    reveal_strlit("BestBlockChanged");
    reveal_strlit("FinalizedBlockChanged");
    reveal_strlit("SyncStatusChanged");
    reveal_strlit("ConnectionRefused");
    reveal_strlit("ConnectingIn");
    reveal_strlit("ConnectInFailed");
    reveal_strlit("ConnectedIn");
    reveal_strlit("ConnectingOut");
    reveal_strlit("ConnectOutFailed");
    reveal_strlit("ConnectedOut");
    reveal_strlit("Disconnected");
    reveal_strlit("PeerMisbehaved");
    reveal_strlit("Authoring");
    reveal_strlit("AuthoringFailed");
    reveal_strlit("Authored");
    reveal_strlit("Importing");
    reveal_strlit("BlockVerificationFailed");
    reveal_strlit("BlockVerified");
    reveal_strlit("BlockExecutionFailed");
    reveal_strlit("BlockExecuted");
    reveal_strlit("BlockAnnouncementStreamOpened");
    reveal_strlit("BlockAnnouncementStreamClosed");
    reveal_strlit("BlockAnnounced");
    reveal_strlit("SendingBlockRequest");
    reveal_strlit("ReceivingBlockRequest");
    reveal_strlit("BlockRequestFailed");
    reveal_strlit("BlockRequestSent");
    reveal_strlit("BlockRequestReceived");
    reveal_strlit("BlockTransferred");
    reveal_strlit("GeneratingTickets");
    reveal_strlit("TicketGenerationFailed");
    reveal_strlit("TicketsGenerated");
    reveal_strlit("TicketTransferFailed");
    reveal_strlit("TicketTransferred");
    reveal_strlit("WorkPackageSubmission");
    reveal_strlit("WorkPackageBeingShared");
    reveal_strlit("WorkPackageFailed");
    reveal_strlit("DuplicateWorkPackage");
    reveal_strlit("WorkPackageReceived");
    reveal_strlit("Authorized");
    reveal_strlit("ExtrinsicDataReceived");
    reveal_strlit("ImportsReceived");
    reveal_strlit("SharingWorkPackage");
    reveal_strlit("WorkPackageSharingFailed");
    reveal_strlit("BundleSent");
    reveal_strlit("Refined");
    reveal_strlit("WorkReportBuilt");
    reveal_strlit("WorkReportSignatureSent");
    reveal_strlit("WorkReportSignatureReceived");
    reveal_strlit("GuaranteeBuilt");
    reveal_strlit("SendingGuarantee");
    reveal_strlit("GuaranteeSendFailed");
    reveal_strlit("GuaranteeSent");
    reveal_strlit("GuaranteesDistributed");
    reveal_strlit("ReceivingGuarantee");
    reveal_strlit("GuaranteeReceiveFailed");
    reveal_strlit("GuaranteeReceived");
    reveal_strlit("GuaranteeDiscarded");
    reveal_strlit("SendingShardRequest");
    reveal_strlit("ReceivingShardRequest");
    reveal_strlit("ShardRequestFailed");
    reveal_strlit("ShardRequestSent");
    reveal_strlit("ShardRequestReceived");
    reveal_strlit("ShardsTransferred");
    reveal_strlit("DistributingAssurance");
    reveal_strlit("AssuranceSendFailed");
    reveal_strlit("AssuranceSent");
    reveal_strlit("AssuranceDistributed");
    reveal_strlit("AssuranceReceiveFailed");
    reveal_strlit("AssuranceReceived");
    reveal_strlit("SendingBundleShardRequest");
    reveal_strlit("ReceivingBundleShardRequest");
    reveal_strlit("BundleShardRequestFailed");
    reveal_strlit("BundleShardRequestSent");
    reveal_strlit("BundleShardRequestReceived");
    reveal_strlit("BundleShardTransferred");
    reveal_strlit("ReconstructingBundle");
    reveal_strlit("BundleReconstructed");
    reveal_strlit("SendingBundleRequest");
    reveal_strlit("ReceivingBundleRequest");
    reveal_strlit("BundleRequestFailed");
    reveal_strlit("BundleRequestSent");
    reveal_strlit("BundleRequestReceived");
    reveal_strlit("BundleTransferred");
    reveal_strlit("WorkPackageHashMapped");
    reveal_strlit("SegmentsRootMapped");
    reveal_strlit("SendingSegmentShardRequest");
    reveal_strlit("ReceivingSegmentShardRequest");
    reveal_strlit("SegmentShardRequestFailed");
    reveal_strlit("SegmentShardRequestSent");
    reveal_strlit("SegmentShardRequestReceived");
    reveal_strlit("SegmentShardsTransferred");
    reveal_strlit("ReconstructingSegments");
    reveal_strlit("SegmentReconstructionFailed");
    reveal_strlit("SegmentsReconstructed");
    reveal_strlit("SegmentVerificationFailed");
    reveal_strlit("SegmentsVerified");
    reveal_strlit("SendingSegmentRequest");
    reveal_strlit("ReceivingSegmentRequest");
    reveal_strlit("SegmentRequestFailed");
    reveal_strlit("SegmentRequestSent");
    reveal_strlit("SegmentRequestReceived");
    reveal_strlit("SegmentsTransferred");
    reveal_strlit("PreimageAnnouncementFailed");
    reveal_strlit("PreimageAnnounced");
    reveal_strlit("AnnouncedPreimageForgotten");
    reveal_strlit("SendingPreimageRequest");
    reveal_strlit("ReceivingPreimageRequest");
    reveal_strlit("PreimageRequestFailed");
    reveal_strlit("PreimageRequestSent");
    reveal_strlit("PreimageRequestReceived");
    reveal_strlit("PreimageTransferred");
    reveal_strlit("PreimageDiscarded");
}

/// The name `event_name` gives for a code that names a kind reads back to
/// that same code.
pub proof fn law_event_name_reads_back(c: u8)
    ensures
        decode_event_type(c) is Some ==> code_of_name(kind_name(decode_event_type(c).unwrap())) == Some(c),
{
    lemma_decode_sound(c);
    if let Some(t) = decode_event_type(c) {
        law_name_spells_its_code(t);
    }
}

} // verus!
