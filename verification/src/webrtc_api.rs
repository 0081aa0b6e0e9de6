use vstd::prelude::*;
use webrtc::api::interceptor_registry::register_default_interceptors;
use webrtc::api::media_engine::MediaEngine;
use webrtc::api::{APIBuilder, API};
use webrtc::interceptor::registry::Registry;

use webrtc::rtp_transceiver::rtp_codec::{RTCRtpCodecCapability, RTCRtpCodecParameters, RTPCodecType};

use crate::codec::{av1_codec, rtc_codec_type, CodecKind, CodecParameters};

verus! {

/// The media engine of `webrtc`, carried through opaquely.
#[verifier::external_type_specification]
#[verifier::external_body]
pub struct ExMediaEngine(MediaEngine);

/// The interceptor registry of `webrtc`, carried through opaquely.
#[verifier::external_type_specification]
#[verifier::external_body]
pub struct ExRegistry(Registry);

/// The API object of `webrtc`, carried through opaquely.
#[verifier::external_type_specification]
#[verifier::external_body]
pub struct ExAPI(API);

/// The API builder of `webrtc`, carried through opaquely.
#[verifier::external_type_specification]
#[verifier::external_body]
pub struct ExAPIBuilder(APIBuilder);

/// The error type of `webrtc`, carried through opaquely.
#[verifier::external_type_specification]
#[verifier::external_body]
pub struct ExWebrtcError(webrtc::Error);

/// A registered codec as plain values: MIME type, clock rate, channel
/// count, format parameters line and payload type.
pub type CodecEntry = (Seq<char>, u32, u16, Seq<char>, u8);

/// The entry of `codec` in an engine's codec list.
pub open spec fn codec_entry(codec: CodecParameters) -> CodecEntry {
    (
        codec.capability.mime_type@,
        codec.capability.clock_rate,
        codec.capability.channels,
        codec.capability.sdp_fmtp_line@,
        codec.payload_type,
    )
}

/// Adding a codec to a codec list, as the media engine does: the list is
/// kept when it already holds a codec of the same MIME type and payload
/// type, and the codec is appended otherwise.
pub open spec fn add_codec(codecs: Seq<CodecEntry>, codec: CodecEntry) -> Seq<CodecEntry> {
    if exists|i: int| 0 <= i < codecs.len() && #[trigger] codecs[i].0 == codec.0 && codecs[i].4 == codec.4 {
        codecs
    } else {
        codecs.push(codec)
    }
}

/// Adding each codec of `added` in turn.
pub open spec fn add_codecs(codecs: Seq<CodecEntry>, added: Seq<CodecEntry>) -> Seq<CodecEntry>
    decreases added.len(),
{
    if added.len() == 0 {
        codecs
    } else {
        add_codec(add_codecs(codecs, added.drop_last()), added.last())
    }
}

/// Adding a URI to a list of header extension URIs: kept when present,
/// appended otherwise.
pub open spec fn add_uri(uris: Seq<Seq<char>>, uri: Seq<char>) -> Seq<Seq<char>> {
    if uris.contains(uri) {
        uris
    } else {
        uris.push(uri)
    }
}

/// The entry of the AV1 codec that the setup adds: `video/AV1` at 90 kHz,
/// no channel count, profile 0, payload type 41.
pub open spec fn av1_codec_entry() -> CodecEntry {
    ("video/AV1"@, 90000u32, 0u16, "profile-id=0"@, 41u8)
}

/// The URI of the transport-wide congestion control header extension.
pub open spec fn transport_cc_uri() -> Seq<char> {
    "http://www.ietf.org/id/draft-holmer-rmcat-transport-wide-cc-extensions-01"@
}

/// The interceptors that `register_default_interceptors` adds, in its
/// order, each by the path of its type in the `interceptor` crate.
pub open spec fn default_interceptor_kinds() -> Seq<Seq<char>> {
    seq![
        "nack::responder::Responder"@,
        "nack::generator::Generator"@,
        "report::receiver::ReceiverReport"@,
        "report::sender::SenderReport"@,
        "twcc::receiver::Receiver"@,
    ]
}

/// The audio codecs that `register_default_codecs` registers, in its order.
pub open spec fn default_audio_codecs() -> Seq<CodecEntry> {
        Seq::<CodecEntry>::empty()
            .push(("audio/opus"@, 48000u32, 2u16, "minptime=10;useinbandfec=1"@, 111u8))
            .push(("audio/G722"@, 8000u32, 0u16, Seq::<char>::empty(), 9u8))
            .push(("audio/PCMU"@, 8000u32, 0u16, Seq::<char>::empty(), 0u8))
            .push(("audio/PCMA"@, 8000u32, 0u16, Seq::<char>::empty(), 8u8))
}

/// The video codecs that `register_default_codecs` registers, in its order
/// (one H.264 entry is listed twice).
pub open spec fn default_video_codecs() -> Seq<CodecEntry> {
        Seq::<CodecEntry>::empty()
            .push(("video/VP8"@, 90000u32, 0u16, Seq::<char>::empty(), 96u8))
            .push(("video/VP9"@, 90000u32, 0u16, "profile-id=0"@, 98u8))
            .push(("video/VP9"@, 90000u32, 0u16, "profile-id=1"@, 100u8))
            .push(("video/H264"@, 90000u32, 0u16, "level-asymmetry-allowed=1;packetization-mode=1;profile-level-id=42001f"@, 102u8))
            .push(("video/H264"@, 90000u32, 0u16, "level-asymmetry-allowed=1;packetization-mode=0;profile-level-id=42001f"@, 127u8))
            .push(("video/H264"@, 90000u32, 0u16, "level-asymmetry-allowed=1;packetization-mode=1;profile-level-id=42e01f"@, 125u8))
            .push(("video/H264"@, 90000u32, 0u16, "level-asymmetry-allowed=1;packetization-mode=0;profile-level-id=42e01f"@, 108u8))
            .push(("video/H264"@, 90000u32, 0u16, "level-asymmetry-allowed=1;packetization-mode=0;profile-level-id=42001f"@, 127u8))
            .push(("video/H264"@, 90000u32, 0u16, "level-asymmetry-allowed=1;packetization-mode=1;profile-level-id=640032"@, 123u8))
            .push(("video/ulpfec"@, 90000u32, 0u16, Seq::<char>::empty(), 116u8))
}

/// The video codecs that an engine holds after `register_default_codecs`:
/// the defaults, with the repeated H.264 entry kept once.
pub open spec fn registered_default_video_codecs() -> Seq<CodecEntry> {
        Seq::<CodecEntry>::empty()
            .push(("video/VP8"@, 90000u32, 0u16, Seq::<char>::empty(), 96u8))
            .push(("video/VP9"@, 90000u32, 0u16, "profile-id=0"@, 98u8))
            .push(("video/VP9"@, 90000u32, 0u16, "profile-id=1"@, 100u8))
            .push(("video/H264"@, 90000u32, 0u16, "level-asymmetry-allowed=1;packetization-mode=1;profile-level-id=42001f"@, 102u8))
            .push(("video/H264"@, 90000u32, 0u16, "level-asymmetry-allowed=1;packetization-mode=0;profile-level-id=42001f"@, 127u8))
            .push(("video/H264"@, 90000u32, 0u16, "level-asymmetry-allowed=1;packetization-mode=1;profile-level-id=42e01f"@, 125u8))
            .push(("video/H264"@, 90000u32, 0u16, "level-asymmetry-allowed=1;packetization-mode=0;profile-level-id=42e01f"@, 108u8))
            .push(("video/H264"@, 90000u32, 0u16, "level-asymmetry-allowed=1;packetization-mode=1;profile-level-id=640032"@, 123u8))
            .push(("video/ulpfec"@, 90000u32, 0u16, Seq::<char>::empty(), 116u8))
}

/// Registering the default audio codecs into an empty list gives them all.
proof fn lemma_default_audio_codecs()
    ensures
        add_codecs(Seq::empty(), default_audio_codecs()) == default_audio_codecs(),
{
    let l = default_audio_codecs();
    let p0 = Seq::<CodecEntry>::empty();
    let p1 = p0.push(("audio/opus"@, 48000u32, 2u16, "minptime=10;useinbandfec=1"@, 111u8));
    let p2 = p1.push(("audio/G722"@, 8000u32, 0u16, Seq::<char>::empty(), 9u8));
    let p3 = p2.push(("audio/PCMU"@, 8000u32, 0u16, Seq::<char>::empty(), 0u8));
    let p4 = p3.push(("audio/PCMA"@, 8000u32, 0u16, Seq::<char>::empty(), 8u8));
    assert(l == p4);
    assert(p4.drop_last() =~= p3);
    assert(p3.drop_last() =~= p2);
    assert(p2.drop_last() =~= p1);
    assert(p1.drop_last() =~= p0);
    let r0 = Seq::<CodecEntry>::empty();
    assert(add_codecs(Seq::empty(), p0) == r0);
    let r1 = r0.push(("audio/opus"@, 48000u32, 2u16, "minptime=10;useinbandfec=1"@, 111u8));
    lemma_add_codec_new(r0, ("audio/opus"@, 48000u32, 2u16, "minptime=10;useinbandfec=1"@, 111u8));
    assert(add_codecs(Seq::empty(), p1) == r1);
    let r2 = r1.push(("audio/G722"@, 8000u32, 0u16, Seq::<char>::empty(), 9u8));
    lemma_add_codec_new(r1, ("audio/G722"@, 8000u32, 0u16, Seq::<char>::empty(), 9u8));
    assert(add_codecs(Seq::empty(), p2) == r2);
    let r3 = r2.push(("audio/PCMU"@, 8000u32, 0u16, Seq::<char>::empty(), 0u8));
    lemma_add_codec_new(r2, ("audio/PCMU"@, 8000u32, 0u16, Seq::<char>::empty(), 0u8));
    assert(add_codecs(Seq::empty(), p3) == r3);
    let r4 = r3.push(("audio/PCMA"@, 8000u32, 0u16, Seq::<char>::empty(), 8u8));
    lemma_add_codec_new(r3, ("audio/PCMA"@, 8000u32, 0u16, Seq::<char>::empty(), 8u8));
    assert(add_codecs(Seq::empty(), p4) == r4);
    assert(r4 =~= default_audio_codecs());
}

/// Registering the default video codecs into an empty list drops the repeated entry.
proof fn lemma_default_video_codecs()
    ensures
        add_codecs(Seq::empty(), default_video_codecs()) == registered_default_video_codecs(),
{
    let l = default_video_codecs();
    let p0 = Seq::<CodecEntry>::empty();
    let p1 = p0.push(("video/VP8"@, 90000u32, 0u16, Seq::<char>::empty(), 96u8));
    let p2 = p1.push(("video/VP9"@, 90000u32, 0u16, "profile-id=0"@, 98u8));
    let p3 = p2.push(("video/VP9"@, 90000u32, 0u16, "profile-id=1"@, 100u8));
    let p4 = p3.push(("video/H264"@, 90000u32, 0u16, "level-asymmetry-allowed=1;packetization-mode=1;profile-level-id=42001f"@, 102u8));
    let p5 = p4.push(("video/H264"@, 90000u32, 0u16, "level-asymmetry-allowed=1;packetization-mode=0;profile-level-id=42001f"@, 127u8));
    let p6 = p5.push(("video/H264"@, 90000u32, 0u16, "level-asymmetry-allowed=1;packetization-mode=1;profile-level-id=42e01f"@, 125u8));
    let p7 = p6.push(("video/H264"@, 90000u32, 0u16, "level-asymmetry-allowed=1;packetization-mode=0;profile-level-id=42e01f"@, 108u8));
    let p8 = p7.push(("video/H264"@, 90000u32, 0u16, "level-asymmetry-allowed=1;packetization-mode=0;profile-level-id=42001f"@, 127u8));
    let p9 = p8.push(("video/H264"@, 90000u32, 0u16, "level-asymmetry-allowed=1;packetization-mode=1;profile-level-id=640032"@, 123u8));
    let p10 = p9.push(("video/ulpfec"@, 90000u32, 0u16, Seq::<char>::empty(), 116u8));
    assert(l == p10);
    assert(p10.drop_last() =~= p9);
    assert(p9.drop_last() =~= p8);
    assert(p8.drop_last() =~= p7);
    assert(p7.drop_last() =~= p6);
    assert(p6.drop_last() =~= p5);
    assert(p5.drop_last() =~= p4);
    assert(p4.drop_last() =~= p3);
    assert(p3.drop_last() =~= p2);
    assert(p2.drop_last() =~= p1);
    assert(p1.drop_last() =~= p0);
    let r0 = Seq::<CodecEntry>::empty();
    assert(add_codecs(Seq::empty(), p0) == r0);
    let r1 = r0.push(("video/VP8"@, 90000u32, 0u16, Seq::<char>::empty(), 96u8));
    lemma_add_codec_new(r0, ("video/VP8"@, 90000u32, 0u16, Seq::<char>::empty(), 96u8));
    assert(add_codecs(Seq::empty(), p1) == r1);
    let r2 = r1.push(("video/VP9"@, 90000u32, 0u16, "profile-id=0"@, 98u8));
    lemma_add_codec_new(r1, ("video/VP9"@, 90000u32, 0u16, "profile-id=0"@, 98u8));
    assert(add_codecs(Seq::empty(), p2) == r2);
    let r3 = r2.push(("video/VP9"@, 90000u32, 0u16, "profile-id=1"@, 100u8));
    lemma_add_codec_new(r2, ("video/VP9"@, 90000u32, 0u16, "profile-id=1"@, 100u8));
    assert(add_codecs(Seq::empty(), p3) == r3);
    let r4 = r3.push(("video/H264"@, 90000u32, 0u16, "level-asymmetry-allowed=1;packetization-mode=1;profile-level-id=42001f"@, 102u8));
    lemma_add_codec_new(r3, ("video/H264"@, 90000u32, 0u16, "level-asymmetry-allowed=1;packetization-mode=1;profile-level-id=42001f"@, 102u8));
    assert(add_codecs(Seq::empty(), p4) == r4);
    let r5 = r4.push(("video/H264"@, 90000u32, 0u16, "level-asymmetry-allowed=1;packetization-mode=0;profile-level-id=42001f"@, 127u8));
    lemma_add_codec_new(r4, ("video/H264"@, 90000u32, 0u16, "level-asymmetry-allowed=1;packetization-mode=0;profile-level-id=42001f"@, 127u8));
    assert(add_codecs(Seq::empty(), p5) == r5);
    let r6 = r5.push(("video/H264"@, 90000u32, 0u16, "level-asymmetry-allowed=1;packetization-mode=1;profile-level-id=42e01f"@, 125u8));
    lemma_add_codec_new(r5, ("video/H264"@, 90000u32, 0u16, "level-asymmetry-allowed=1;packetization-mode=1;profile-level-id=42e01f"@, 125u8));
    assert(add_codecs(Seq::empty(), p6) == r6);
    let r7 = r6.push(("video/H264"@, 90000u32, 0u16, "level-asymmetry-allowed=1;packetization-mode=0;profile-level-id=42e01f"@, 108u8));
    lemma_add_codec_new(r6, ("video/H264"@, 90000u32, 0u16, "level-asymmetry-allowed=1;packetization-mode=0;profile-level-id=42e01f"@, 108u8));
    assert(add_codecs(Seq::empty(), p7) == r7);
    let r8 = r7;
    lemma_add_codec_present(r7, ("video/H264"@, 90000u32, 0u16, "level-asymmetry-allowed=1;packetization-mode=0;profile-level-id=42001f"@, 127u8), 4);
    assert(add_codecs(Seq::empty(), p8) == r8);
    let r9 = r8.push(("video/H264"@, 90000u32, 0u16, "level-asymmetry-allowed=1;packetization-mode=1;profile-level-id=640032"@, 123u8));
    lemma_add_codec_new(r8, ("video/H264"@, 90000u32, 0u16, "level-asymmetry-allowed=1;packetization-mode=1;profile-level-id=640032"@, 123u8));
    assert(add_codecs(Seq::empty(), p9) == r9);
    let r10 = r9.push(("video/ulpfec"@, 90000u32, 0u16, Seq::<char>::empty(), 116u8));
    lemma_add_codec_new(r9, ("video/ulpfec"@, 90000u32, 0u16, Seq::<char>::empty(), 116u8));
    assert(add_codecs(Seq::empty(), p10) == r10);
    assert(r10 =~= registered_default_video_codecs());
}


proof fn lemma_add_codec_new(codecs: Seq<CodecEntry>, codec: CodecEntry)
    requires
        forall|i: int| 0 <= i < codecs.len() ==> #[trigger] codecs[i].4 != codec.4,
    ensures
        add_codec(codecs, codec) == codecs.push(codec),
{
}

proof fn lemma_add_codec_present(codecs: Seq<CodecEntry>, codec: CodecEntry, i: int)
    requires
        0 <= i < codecs.len(),
        codecs[i].0 == codec.0,
        codecs[i].4 == codec.4,
    ensures
        add_codec(codecs, codec) == codecs,
{
}

/// The audio codecs that a media engine holds, in the order registered
/// (their RTCP feedback left out).
pub uninterp spec fn audio_codecs(engine: MediaEngine) -> Seq<CodecEntry>;

/// The video codecs that a media engine holds, in the order registered
/// (their RTCP feedback left out).
pub uninterp spec fn video_codecs(engine: MediaEngine) -> Seq<CodecEntry>;

/// The URIs of the RTP header extensions that a media engine holds, in the
/// order they were registered.
pub uninterp spec fn header_extension_uris(engine: MediaEngine) -> Seq<Seq<char>>;

/// The interceptors whose builders a registry holds, in the order added,
/// each by the path of its type in the `interceptor` crate.
pub uninterp spec fn interceptor_kinds(registry: Registry) -> Seq<Seq<char>>;

/// The media engine an API builder was given, if any.
pub uninterp spec fn builder_media_engine(builder: APIBuilder) -> Option<MediaEngine>;

/// The interceptor registry an API builder was given, if any.
pub uninterp spec fn builder_interceptor_registry(builder: APIBuilder) -> Option<Registry>;

/// The media engine an API holds.
pub uninterp spec fn api_media_engine(api: API) -> MediaEngine;

/// The interceptor registry an API holds.
pub uninterp spec fn api_interceptor_registry(api: API) -> Registry;

/// `MediaEngine::default`: an engine with no codec and no header extension
/// registered (its source derives `Default`, and these are `Vec`s).
#[verifier::external_body]
fn new_media_engine() -> (engine: MediaEngine)
    ensures
        audio_codecs(engine) == Seq::<CodecEntry>::empty(),
        video_codecs(engine) == Seq::<CodecEntry>::empty(),
        header_extension_uris(engine) == Seq::<Seq<char>>::empty(),
{
    MediaEngine::default()
}

/// `MediaEngine::register_default_codecs`. Its source registers each
/// default audio codec as audio and each default video codec as video, in
/// its order, through `register_codec` (which adds a codec unless one of the
/// same MIME type and payload type is held), never fails, and returns `Ok`;
/// the header extensions stay as they were. (It reads the system clock and
/// panics if that stands before 1970; that is not stated.)
#[verifier::external_body]
fn register_default_codecs(engine: &mut MediaEngine) -> (registered: Result<(), webrtc::Error>)
    ensures
        registered is Ok,
        audio_codecs(*final(engine)) == add_codecs(audio_codecs(*old(engine)), default_audio_codecs()),
        video_codecs(*final(engine)) == add_codecs(video_codecs(*old(engine)), default_video_codecs()),
        header_extension_uris(*final(engine)) == header_extension_uris(*old(engine)),
{
    engine.register_default_codecs()
}

/// `MediaEngine::register_codec`, given `codec` as `webrtc` holds it (its
/// capability field for field, no RTCP feedback, the default statistics
/// id). Its source adds the codec to the audio or video codecs (unless one
/// of the same MIME type and payload type is held) and returns `Ok` for
/// those types, and returns an error, changing nothing, for an unspecified
/// type; the header extensions stay as they were. (It reads the system
/// clock and panics if that stands before 1970; that is not stated.)
#[verifier::external_body]
fn register_codec(engine: &mut MediaEngine, codec: &CodecParameters, codec_type: RTPCodecType) -> (registered: Result<(), webrtc::Error>)
    ensures
        registered is Ok <==> codec_type != RTPCodecType::Unspecified,
        audio_codecs(*final(engine)) == if codec_type == RTPCodecType::Audio {
            add_codec(audio_codecs(*old(engine)), codec_entry(*codec))
        } else {
            audio_codecs(*old(engine))
        },
        video_codecs(*final(engine)) == if codec_type == RTPCodecType::Video {
            add_codec(video_codecs(*old(engine)), codec_entry(*codec))
        } else {
            video_codecs(*old(engine))
        },
        header_extension_uris(*final(engine)) == header_extension_uris(*old(engine)),
{
    let capability = RTCRtpCodecCapability {
        mime_type: codec.capability.mime_type.clone(),
        clock_rate: codec.capability.clock_rate,
        channels: codec.capability.channels,
        sdp_fmtp_line: codec.capability.sdp_fmtp_line.clone(),
        rtcp_feedback: Vec::new(),
    };
    engine.register_codec(RTCRtpCodecParameters { capability, payload_type: codec.payload_type, ..Default::default() }, codec_type)
}

/// `Registry::new`: an empty interceptor registry.
#[verifier::external_body]
fn new_interceptor_registry() -> (registry: Registry)
    ensures
        interceptor_kinds(registry) == Seq::<Seq<char>>::empty(),
{
    Registry::new()
}

/// `register_default_interceptors`. Its source adds NACK feedback to the
/// video codecs, adds the NACK responder and generator and the receiver and
/// sender report interceptors, adds transport-wide congestion control
/// feedback to the codecs and registers its header extension, for video and
/// then for audio, with no direction, and adds the TWCC receiver. Feedback
/// is not part of the codec entries, so these stay. Registering the
/// extension fails only when the engine already holds too many extensions,
/// or holds the same URI with another direction; so it succeeds on an
/// engine that holds no header extension. Where the engine holds some, the
/// outcome is not stated, nor the engine after a failure.
#[verifier::external_body]
fn default_interceptors(registry: Registry, engine: &mut MediaEngine) -> (interceptors: Result<Registry, webrtc::Error>)
    ensures
        header_extension_uris(*old(engine)).len() == 0 ==> interceptors is Ok,
        interceptors matches Ok(r) ==> interceptor_kinds(r) == interceptor_kinds(registry)
            + default_interceptor_kinds(),
        interceptors is Ok ==> audio_codecs(*final(engine)) == audio_codecs(*old(engine)),
        interceptors is Ok ==> video_codecs(*final(engine)) == video_codecs(*old(engine)),
        interceptors is Ok ==> header_extension_uris(*final(engine)) == add_uri(
            header_extension_uris(*old(engine)),
            transport_cc_uri(),
        ),
{
    register_default_interceptors(registry, engine)
}

/// `APIBuilder::new`: a builder given no engine and no registry.
#[verifier::external_body]
fn new_api_builder() -> (builder: APIBuilder)
    ensures
        builder_media_engine(builder) is None,
        builder_interceptor_registry(builder) is None,
{
    APIBuilder::new()
}

/// `APIBuilder::with_media_engine`: the builder now holds `engine`.
#[verifier::external_body]
fn with_media_engine(builder: APIBuilder, engine: MediaEngine) -> (with: APIBuilder)
    ensures
        builder_media_engine(with) == Some(engine),
        builder_interceptor_registry(with) == builder_interceptor_registry(builder),
{
    builder.with_media_engine(engine)
}

/// `APIBuilder::with_interceptor_registry`: the builder now holds
/// `registry`.
#[verifier::external_body]
fn with_interceptor_registry(builder: APIBuilder, registry: Registry) -> (with: APIBuilder)
    ensures
        builder_media_engine(with) == builder_media_engine(builder),
        builder_interceptor_registry(with) == Some(registry),
{
    builder.with_interceptor_registry(registry)
}

/// `APIBuilder::build`: an API holding the engine and the registry the
/// builder was given (where it was given none, defaults that are not
/// stated).
#[verifier::external_body]
fn build(builder: APIBuilder) -> (api: API)
    ensures
        builder_media_engine(builder) matches Some(engine) ==> api_media_engine(api) == engine,
        builder_interceptor_registry(builder) matches Some(registry) ==> api_interceptor_registry(api)
            == registry,
{
    builder.build()
}

/// The message that every failure of the setup of the WebRTC API reports.
pub open spec fn setup_failure_message() -> Seq<char> {
    "Failed to register default codecs"@
}

/// Finishes the WebRTC API once the default interceptors were registered:
/// the API built from `engine` and the registry, or the setup failure when
/// the registration failed.
pub fn finish_api(engine: MediaEngine, interceptors: Result<Registry, webrtc::Error>) -> (api: Result<API, &'static str>)
    ensures
        api is Ok <==> interceptors is Ok,
        api matches Ok(a) ==> api_media_engine(a) == engine,
        api matches Ok(a) ==> interceptors matches Ok(r) && api_interceptor_registry(a) == r,
        api matches Err(message) ==> message@ == setup_failure_message(),
{
    match interceptors {
        Ok(registry) => Ok(build(with_interceptor_registry(with_media_engine(new_api_builder(), engine), registry))),
        Err(_) => Err("Failed to register default codecs"),
    }
}

/// Sets up the WebRTC API: a media engine with the default codecs and the
/// AV1 codec, and the default interceptors. Registering the codecs cannot
/// fail and adds no header extension, so the interceptors are registered on
/// an engine without header extensions, which cannot fail either: the setup
/// always succeeds. The API holds the default audio codecs, the default
/// video codecs followed by AV1, the transport-wide congestion control
/// header extension, and the default interceptors.
pub fn build_webrtc_api() -> (api: Result<API, &'static str>)
    ensures
        api is Ok,
        api matches Ok(a) ==> audio_codecs(api_media_engine(a)) == default_audio_codecs(),
        api matches Ok(a) ==> video_codecs(api_media_engine(a)) == registered_default_video_codecs().push(
            av1_codec_entry(),
        ),
        api matches Ok(a) ==> header_extension_uris(api_media_engine(a)) == seq![transport_cc_uri()],
        api matches Ok(a) ==> interceptor_kinds(api_interceptor_registry(a)) == default_interceptor_kinds(),
{
    let mut engine = new_media_engine();
    match register_default_codecs(&mut engine) {
        Ok(_) => {},
        Err(_) => {
            return Err("Failed to register default codecs");
        },
    }
    proof {
        lemma_default_audio_codecs();
        lemma_default_video_codecs();
    }
    let av1 = av1_codec();
    match register_codec(&mut engine, &av1, rtc_codec_type(CodecKind::Video)) {
        Ok(_) => {},
        Err(_) => {
            return Err("Failed to register default codecs");
        },
    }
    proof {
        assert(codec_entry(av1) == av1_codec_entry());
        lemma_add_codec_new(registered_default_video_codecs(), codec_entry(av1));
        assert(seq![transport_cc_uri()] =~= add_uri(Seq::empty(), transport_cc_uri()));
        assert(default_interceptor_kinds() =~= Seq::<Seq<char>>::empty() + default_interceptor_kinds());
    }
    let interceptors = default_interceptors(new_interceptor_registry(), &mut engine);
    finish_api(engine, interceptors)
}

} // verus!
