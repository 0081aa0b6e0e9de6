use arda_live_media_server::codec::{av1_codec, create_local_track, viewer_video_track, CodecCapability};
use arda_live_media_server::health::health_check_banner;
use arda_live_media_server::media::MediaObserver;
use arda_live_media_server::webrtc_api::build_webrtc_api;
use std::sync::Arc;
use webrtc::track::track_local::TrackLocal;

#[test]
fn av1_codec_parameters() {
    let codec = av1_codec();
    assert_eq!(
        codec.capability,
        CodecCapability {
            mime_type: "video/AV1".to_string(),
            clock_rate: 90000,
            channels: 0,
            sdp_fmtp_line: "profile-id=0".to_string(),
        }
    );
    assert_eq!(codec.payload_type, 41);
}

#[test]
fn viewer_track_is_vp8_video() {
    let spec = viewer_video_track();
    assert_eq!(spec.capability.mime_type, webrtc::api::media_engine::MIME_TYPE_VP8);
    assert_eq!(spec.capability.clock_rate, 0);
    assert_eq!(spec.capability.sdp_fmtp_line, "");
    assert_eq!(spec.id, "video");
    assert_eq!(spec.stream_id, "webrtc-rs");
}

#[test]
fn created_track_has_the_given_ids() {
    let track = create_local_track(&viewer_video_track());
    assert_eq!(track.id(), "video");
    assert_eq!(track.stream_id(), "webrtc-rs");
    let observer = MediaObserver::new(Arc::clone(&track));
    assert!(Arc::ptr_eq(&observer.track, &track));
}

#[test]
fn webrtc_api_is_built() {
    assert!(build_webrtc_api().is_ok());
}

#[test]
fn health_banner_names_the_version() {
    assert_eq!(health_check_banner("0.1.0"), "MyProgram v0.1.0");
    assert_eq!(health_check_banner(""), "MyProgram v");
}
