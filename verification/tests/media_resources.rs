use arda_live_media_server::media::{LiveMediaStream, MediaEndpoints, MediaResources};
use arda_live_media_server::media_server::MediaServer;

#[test]
fn new_registry_is_empty() {
    let resources: MediaResources<u32> = MediaResources::new();
    assert_eq!(resources.len(), 0);
    assert_eq!(resources.get(&"camera".to_string()), None);
}

#[test]
fn insert_then_get_gives_the_resource() {
    let mut resources = MediaResources::new();
    resources.insert("camera".to_string(), 7u32);
    assert_eq!(resources.get(&"camera".to_string()), Some(&7));
    assert_eq!(resources.get(&"other".to_string()), None);
    assert_eq!(resources.len(), 1);
}

#[test]
fn later_insert_replaces_earlier() {
    let mut resources = MediaResources::new();
    resources.insert("camera".to_string(), 1u32);
    resources.insert("screen".to_string(), 2u32);
    resources.insert("camera".to_string(), 3u32);
    assert_eq!(resources.len(), 2);
    assert_eq!(resources.get(&"camera".to_string()), Some(&3));
    assert_eq!(resources.get(&"screen".to_string()), Some(&2));
}

#[test]
fn ids_differ_by_case() {
    let mut resources = MediaResources::new();
    resources.insert("Cam".to_string(), 1u32);
    resources.insert("cam".to_string(), 2u32);
    assert_eq!(resources.len(), 2);
    assert_eq!(resources.get(&"Cam".to_string()), Some(&1));
}

#[test]
fn empty_id_is_an_id() {
    let mut resources = MediaResources::new();
    resources.insert(String::new(), 5u32);
    assert_eq!(resources.get(&String::new()), Some(&5));
    assert_eq!(resources.len(), 1);
}

#[test]
fn new_live_stream_has_no_observers() {
    let stream = LiveMediaStream::new();
    assert!(stream.observers.is_empty());
}

#[test]
fn new_endpoints_are_empty() {
    let endpoints: MediaEndpoints<u8> = MediaEndpoints::new();
    assert_eq!(endpoints.media_endpoints.len(), 0);
}

#[test]
fn media_server_keeps_its_client() {
    let server = MediaServer::new("rtsp://camera".to_string());
    assert_eq!(server.generic_rtsp_client, "rtsp://camera");
}
