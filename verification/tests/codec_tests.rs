use codex_core::codec::{
    attachment_from_bytes, attachments_from_bytes, base_file_name, data_url_from_bytes,
    decode_data_url, process_attachment, process_attachments, WireAttachment,
};
use codex_core::errors::CoreError;
use codex_core::store::{attachment_dir_for_home, default_attachment_dir};

#[test]
fn data_url_round_trip_small() {
    let bytes: Vec<u8> = vec![0, 1, 2, 250, 255, 128, 7];
    let url = data_url_from_bytes("blob.bin", &bytes);
    let back = decode_data_url(&url).unwrap();
    assert_eq!(back, bytes);
}

#[test]
fn data_url_round_trip_empty() {
    let bytes: Vec<u8> = Vec::new();
    let url = data_url_from_bytes("empty.bin", &bytes);
    assert_eq!(url, "data:application/octet-stream;base64,");
    let back = decode_data_url(&url).unwrap();
    assert_eq!(back, bytes);
}

#[test]
fn data_url_round_trip_all_byte_values() {
    let mut bytes: Vec<u8> = Vec::new();
    let mut i: usize = 0;
    while i < 256 {
        bytes.push(i as u8);
        i += 1;
    }
    let url = data_url_from_bytes("all.bin", &bytes);
    let back = decode_data_url(&url).unwrap();
    assert_eq!(back, bytes);
}

#[test]
fn data_url_uses_extension_mime() {
    let url = data_url_from_bytes("report.csv", &vec![b'x']);
    assert!(url.starts_with("data:text/csv;base64,"));
    let unknown = data_url_from_bytes("strange.zzzygy", &vec![b'x']);
    assert!(unknown.starts_with("data:application/octet-stream;base64,"));
}

#[test]
fn data_url_exact_encoding() {
    let url = data_url_from_bytes("report.csv", &b"a,b,c\n1,2,3\n".to_vec());
    assert_eq!(url, "data:text/csv;base64,YSxiLGMKMSwyLDMK");
}

#[test]
fn decode_missing_semicolon_is_format_error() {
    let r = decode_data_url("data:text/csv base64,YQ==");
    assert!(matches!(r, Err(CoreError::Format(_))));
}

#[test]
fn decode_missing_comma_is_format_error() {
    let r = decode_data_url("data:text/csv;base64 YQ==");
    assert!(matches!(r, Err(CoreError::Format(_))));
}

#[test]
fn decode_missing_colon_is_format_error() {
    let r = decode_data_url("datatext/csv;base64,YQ==");
    assert!(matches!(r, Err(CoreError::Format(_))));
}

#[test]
fn decode_invalid_base64_is_decode_error() {
    let r = decode_data_url("data:text/csv;base64,@@@@");
    assert!(matches!(r, Err(CoreError::Decode(_))));
}

#[test]
fn decode_empty_payload_yields_empty_bytes() {
    // an empty payload is the valid encoding of zero bytes, as the
    // round trip on empty content requires
    let r = decode_data_url("data:text/csv;base64,");
    assert_eq!(r.unwrap(), Vec::<u8>::new());
}

#[test]
fn base_name_cases() {
    assert_eq!(base_file_name("/a/b/c.txt").unwrap(), "c.txt");
    assert_eq!(base_file_name("c.txt").unwrap(), "c.txt");
    assert_eq!(base_file_name("/a/b/").unwrap(), "b");
    assert!(base_file_name("/").is_none());
    assert!(base_file_name("").is_none());
    assert!(base_file_name("/a/..").is_none());
    assert!(base_file_name("/a/.").is_none());
}

#[test]
fn attachment_has_base_name_only() {
    let d = attachment_from_bytes("/tmp/dir/file.txt", &vec![1, 2, 3]).unwrap();
    assert_eq!(d.name, "file.txt");
    assert!(d.content.starts_with("data:text/plain;base64,"));
}

#[test]
fn attachment_without_name_is_validation_error() {
    let r = attachment_from_bytes("/", &vec![1]);
    assert!(matches!(r, Err(CoreError::Validation(_))));
}

#[test]
fn batch_encode_is_fail_fast() {
    let files = vec![
        ("a.txt".to_string(), vec![1u8]),
        ("/".to_string(), vec![2u8]),
        ("c.txt".to_string(), vec![3u8]),
    ];
    let r = attachments_from_bytes(&files);
    assert!(matches!(r, Err(CoreError::Validation(_))));

    let good = vec![
        ("a.txt".to_string(), vec![1u8]),
        ("b.csv".to_string(), vec![2u8]),
    ];
    let v = attachments_from_bytes(&good).unwrap();
    assert_eq!(v.len(), 2);
    assert_eq!(v[0].name, "a.txt");
    assert_eq!(v[1].name, "b.csv");
}

#[test]
fn wire_attachment_missing_fields() {
    let no_content = WireAttachment { name: Some("a.txt".to_string()), content: None };
    assert!(matches!(process_attachment(&no_content), Err(CoreError::Format(_))));
    let no_name = WireAttachment {
        name: None,
        content: Some("data:text/plain;base64,YQ==".to_string()),
    };
    assert!(matches!(process_attachment(&no_name), Err(CoreError::Format(_))));
}

#[test]
fn wire_attachment_decodes() {
    let att = WireAttachment {
        name: Some("a.txt".to_string()),
        content: Some("data:text/plain;base64,aGk=".to_string()),
    };
    let (name, bytes) = process_attachment(&att).unwrap();
    assert_eq!(name, "a.txt");
    assert_eq!(bytes, b"hi".to_vec());
}

#[test]
fn wire_batch_is_fail_fast() {
    let atts = vec![
        WireAttachment {
            name: Some("a.txt".to_string()),
            content: Some("data:text/plain;base64,aGk=".to_string()),
        },
        WireAttachment { name: None, content: Some("data:x;base64,YQ==".to_string()) },
    ];
    assert!(matches!(process_attachments(&atts), Err(CoreError::Format(_))));

    let good = vec![
        WireAttachment {
            name: Some("a.txt".to_string()),
            content: Some("data:text/plain;base64,aGk=".to_string()),
        },
    ];
    let v = process_attachments(&good).unwrap();
    assert_eq!(v.len(), 1);
    assert_eq!(v[0].0, "a.txt");
    assert_eq!(v[0].1, b"hi".to_vec());
}

#[test]
fn attachment_dir_for_known_home() {
    assert_eq!(attachment_dir_for_home(&Some("/home/u".to_string())), "/home/u/.codex/attachments");
    assert_eq!(
        attachment_dir_for_home(&Some("/home/u/".to_string())),
        "/home/u/.codex/attachments"
    );
    assert_eq!(attachment_dir_for_home(&None), "./.codex/attachments");
}

#[test]
fn default_dir_ends_with_fixed_suffix() {
    let d = default_attachment_dir();
    assert!(d.ends_with(".codex/attachments"));
}
