use std::sync::Arc;
use vstd::prelude::*;
use vstd::string::StringExecFns;
use webrtc::rtp_transceiver::rtp_codec::{RTCRtpCodecCapability, RTCRtpCodecParameters, RTPCodecType};
use webrtc::track::track_local::track_local_static_rtp::TrackLocalStaticRTP;

verus! {

/// The codec capability type of `webrtc`, carried through opaquely.
#[verifier::external_type_specification]
#[verifier::external_body]
pub struct ExRTCRtpCodecCapability(RTCRtpCodecCapability);

/// The codec parameters type of `webrtc`, carried through opaquely.
#[verifier::external_type_specification]
#[verifier::external_body]
pub struct ExRTCRtpCodecParameters(RTCRtpCodecParameters);

/// The codec kind type of `webrtc`, with its variants visible.
#[verifier::external_type_specification]
pub struct ExRTPCodecType(RTPCodecType);

/// What a codec is: its MIME type, clock rate, channel count and format
/// parameters line. It asks for no RTCP feedback.
#[derive(Clone, Debug, PartialEq, Eq)]
pub struct CodecCapability {
    pub mime_type: String,
    pub clock_rate: u32,
    pub channels: u16,
    pub sdp_fmtp_line: String,
}

/// A codec together with the RTP payload type it is sent under.
#[derive(Clone, Debug, PartialEq, Eq)]
pub struct CodecParameters {
    pub capability: CodecCapability,
    pub payload_type: u8,
}

/// Whether a codec carries audio or video.
#[derive(Clone, Copy, Debug, PartialEq, Eq, Structural)]
pub enum CodecKind {
    Unspecified,
    Audio,
    Video,
}

/// A local track to be created: the codec it sends and its track and
/// stream ids.
#[derive(Clone, Debug, PartialEq, Eq)]
pub struct LocalTrackSpec {
    pub capability: CodecCapability,
    pub id: String,
    pub stream_id: String,
}

/// The AV1 codec the media engine is given beside its default codecs:
/// `video/AV1` at 90 kHz, no channel count, profile 0, payload type 41.
pub fn av1_codec() -> (codec: CodecParameters)
    ensures
        codec.capability.mime_type@ == "video/AV1"@,
        codec.capability.clock_rate == 90000,
        codec.capability.channels == 0,
        codec.capability.sdp_fmtp_line@ == "profile-id=0"@,
        codec.payload_type == 41,
{
    CodecParameters {
        capability: CodecCapability {
            mime_type: String::from_str("video/AV1"),
            clock_rate: 90000,
            channels: 0,
            sdp_fmtp_line: String::from_str("profile-id=0"),
        },
        payload_type: 41,
    }
}

/// The track that a viewer receives: VP8 video, with no clock rate,
/// channel count or format line given, under the track id `video` in the
/// stream `webrtc-rs`.
pub fn viewer_video_track() -> (spec: LocalTrackSpec)
    ensures
        spec.capability.mime_type@ == "video/VP8"@,
        spec.capability.clock_rate == 0,
        spec.capability.channels == 0,
        spec.capability.sdp_fmtp_line@ == Seq::<char>::empty(),
        spec.id@ == "video"@,
        spec.stream_id@ == "webrtc-rs"@,
{
    LocalTrackSpec {
        capability: CodecCapability {
            mime_type: String::from_str("video/VP8"),
            clock_rate: 0,
            channels: 0,
            sdp_fmtp_line: String::new(),
        },
        id: String::from_str("video"),
        stream_id: String::from_str("webrtc-rs"),
    }
}

/// Writes a codec capability as `webrtc` holds it, with an empty RTCP
/// feedback list. Nothing is stated of the result, which is opaque.
#[verifier::external_body]
pub(crate) fn rtc_codec_capability(capability: &CodecCapability) -> RTCRtpCodecCapability {
    RTCRtpCodecCapability {
        mime_type: capability.mime_type.clone(),
        clock_rate: capability.clock_rate,
        channels: capability.channels,
        sdp_fmtp_line: capability.sdp_fmtp_line.clone(),
        rtcp_feedback: Vec::new(),
    }
}

/// Writes codec parameters as `webrtc` holds them; the statistics id is
/// left to its default. Nothing is stated of the result, which is opaque.
#[verifier::external_body]
pub(crate) fn rtc_codec_parameters(codec: &CodecParameters, capability: RTCRtpCodecCapability) -> RTCRtpCodecParameters {
    RTCRtpCodecParameters { capability, payload_type: codec.payload_type, ..Default::default() }
}

/// The codec type of `webrtc` that has the name of `kind`.
pub open spec fn codec_type_of(kind: CodecKind) -> RTPCodecType {
    match kind {
        CodecKind::Unspecified => RTPCodecType::Unspecified,
        CodecKind::Audio => RTPCodecType::Audio,
        CodecKind::Video => RTPCodecType::Video,
    }
}

/// Writes a codec kind as `webrtc` names it, variant for variant.
pub(crate) fn rtc_codec_type(kind: CodecKind) -> (codec_type: RTPCodecType)
    ensures
        codec_type == codec_type_of(kind),
        kind == CodecKind::Unspecified ==> codec_type == RTPCodecType::Unspecified,
        kind == CodecKind::Audio ==> codec_type == RTPCodecType::Audio,
        kind == CodecKind::Video ==> codec_type == RTPCodecType::Video,
{
    match kind {
        CodecKind::Unspecified => RTPCodecType::Unspecified,
        CodecKind::Audio => RTPCodecType::Audio,
        CodecKind::Video => RTPCodecType::Video,
    }
}

/// The local track that `TrackLocalStaticRTP::new` makes for a codec of the
/// given MIME type, clock rate, channel count and format line (with no RTCP
/// feedback), under the given track id and stream id.
pub uninterp spec fn local_rtp_track(
    mime_type: Seq<char>,
    clock_rate: u32,
    channels: u16,
    sdp_fmtp_line: Seq<char>,
    id: Seq<char>,
    stream_id: Seq<char>,
) -> TrackLocalStaticRTP;

/// The local track that `spec` describes.
pub open spec fn track_of(spec: LocalTrackSpec) -> TrackLocalStaticRTP {
    local_rtp_track(
        spec.capability.mime_type@,
        spec.capability.clock_rate,
        spec.capability.channels,
        spec.capability.sdp_fmtp_line@,
        spec.id@,
        spec.stream_id@,
    )
}

/// `TrackLocalStaticRTP::new`, given the codec, track id and stream id of
/// `spec` as `webrtc` holds them: its result is named `local_rtp_track`.
#[verifier::external_body]
fn new_track_local_static_rtp(spec: &LocalTrackSpec) -> (track: TrackLocalStaticRTP)
    ensures
        track == local_rtp_track(
            spec.capability.mime_type@,
            spec.capability.clock_rate,
            spec.capability.channels,
            spec.capability.sdp_fmtp_line@,
            spec.id@,
            spec.stream_id@,
        ),
{
    let codec = RTCRtpCodecCapability {
        mime_type: spec.capability.mime_type.clone(),
        clock_rate: spec.capability.clock_rate,
        channels: spec.capability.channels,
        sdp_fmtp_line: spec.capability.sdp_fmtp_line.clone(),
        rtcp_feedback: Vec::new(),
    };
    TrackLocalStaticRTP::new(codec, spec.id.clone(), spec.stream_id.clone())
}

/// Creates the local track that `spec` describes, shared: the track that
/// `TrackLocalStaticRTP::new` makes from the spec's MIME type, clock rate,
/// channel count, format line, track id and stream id.
pub fn create_local_track(spec: &LocalTrackSpec) -> (track: Arc<TrackLocalStaticRTP>)
    ensures
        *track == track_of(*spec),
        *track == local_rtp_track(
            spec.capability.mime_type@,
            spec.capability.clock_rate,
            spec.capability.channels,
            spec.capability.sdp_fmtp_line@,
            spec.id@,
            spec.stream_id@,
        ),
{
    Arc::new(new_track_local_static_rtp(spec))
}

/// The track a spec describes is made from every field of the spec, as it
/// stands: the codec's MIME type, clock rate, channel count and format line,
/// and the track and stream ids.
pub proof fn track_of_is_made_from_the_spec(spec: LocalTrackSpec)
    ensures
        track_of(spec) == local_rtp_track(
            spec.capability.mime_type@,
            spec.capability.clock_rate,
            spec.capability.channels,
            spec.capability.sdp_fmtp_line@,
            spec.id@,
            spec.stream_id@,
        ),
{
}

/// Two specs describe the same track when their fields are the same texts
/// and numbers.
pub proof fn equal_specs_describe_equal_tracks(spec1: LocalTrackSpec, spec2: LocalTrackSpec)
    requires
        spec1.capability.mime_type@ == spec2.capability.mime_type@,
        spec1.capability.clock_rate == spec2.capability.clock_rate,
        spec1.capability.channels == spec2.capability.channels,
        spec1.capability.sdp_fmtp_line@ == spec2.capability.sdp_fmtp_line@,
        spec1.id@ == spec2.id@,
        spec1.stream_id@ == spec2.stream_id@,
    ensures
        track_of(spec1) == track_of(spec2),
{
}

/// Each codec kind is handed to `webrtc` as the codec type of the same
/// name, and distinct kinds as distinct types.
pub proof fn codec_kinds_map_one_to_one(kind1: CodecKind, kind2: CodecKind)
    ensures
        kind1 == CodecKind::Video <==> codec_type_of(kind1) == RTPCodecType::Video,
        kind1 == CodecKind::Audio <==> codec_type_of(kind1) == RTPCodecType::Audio,
        kind1 != kind2 ==> codec_type_of(kind1) != codec_type_of(kind2),
{
}

} // verus!
