use base64::Engine;
use filebridge::encoding::image_data_uri;

#[test]
fn data_uri_exact_value() {
    let bytes: Vec<u8> = b"hello".to_vec();
    assert_eq!(image_data_uri("p.png", &bytes), "data:image/png;base64,aGVsbG8=");
}

#[test]
fn data_uri_round_trip() {
    let bytes: Vec<u8> = vec![0, 1, 2, 250, 255, 128, 7];
    let uri = image_data_uri("photo.JPG", &bytes);
    let prefix = "data:image/jpeg;base64,";
    assert!(uri.starts_with(prefix));
    let decoded = base64::engine::general_purpose::STANDARD.decode(&uri[prefix.len()..]).unwrap();
    assert_eq!(decoded, bytes);
}

#[test]
fn data_uri_unknown_extension_defaults_and_round_trips() {
    let bytes: Vec<u8> = vec![9, 8, 7];
    let uri = image_data_uri("file.xyz", &bytes);
    let prefix = "data:image/png;base64,";
    assert!(uri.starts_with(prefix));
    let decoded = base64::engine::general_purpose::STANDARD.decode(&uri[prefix.len()..]).unwrap();
    assert_eq!(decoded, bytes);
}

#[test]
fn data_uri_of_empty_bytes() {
    let bytes: Vec<u8> = Vec::new();
    assert_eq!(image_data_uri("p.gif", &bytes), "data:image/gif;base64,");
}
