use beautyshot::clipboard::{copy_image_to_clipboard, ClipboardError};
use beautyshot::file_ops::{check_canonical_path, check_export_size, check_path_parts, ExportError};
use beautyshot::screenshot::{capture_fullscreen, Frame};
use beautyshot::MAX_PAYLOAD_SIZE;

use base64::Engine;

#[test]
fn valid_payload_round_trips_to_rgba() {
    let pixels: Vec<u8> = (0..(3 * 2 * 4)).map(|i| (i * 17 % 256) as u8).collect();
    let frame = Frame { width: 3, height: 2, pixels: pixels.clone() };
    let png = capture_fullscreen(&frame).unwrap();
    let encoded = base64::engine::general_purpose::STANDARD.encode(&png);
    assert_ne!(encoded.as_bytes(), &png[..], "encoding must transform the bytes");
    let image = copy_image_to_clipboard(&encoded).unwrap();
    assert_eq!(image.width, 3);
    assert_eq!(image.height, 2);
    assert_eq!(image.rgba, pixels);
}

#[test]
fn oversized_estimate_is_rejected_before_decoding() {
    // 70,000,000 characters decode to at least (70,000,000/4)*3 - 2 =
    // 52,499,998 bytes, above the 52,428,800-byte ceiling; the input is
    // rejected without being decoded.
    let huge = "A".repeat(70_000_000);
    match copy_image_to_clipboard(&huge) {
        Err(ClipboardError::TooLarge { estimated }) => {
            assert_eq!(estimated, 52_499_998);
        }
        _ => panic!("expected the oversized payload to be rejected"),
    }
}

#[test]
fn payload_of_exactly_the_ceiling_passes_both_size_checks() {
    // A payload of exactly 52,428,800 decoded bytes encodes to 69,905,068
    // characters (padding included); both the pre-decode bound and the
    // exact post-decode check accept it, so the only failure left is that
    // the bytes are not an image.
    let blob = vec![7u8; MAX_PAYLOAD_SIZE];
    let encoded = base64::engine::general_purpose::STANDARD.encode(&blob);
    match copy_image_to_clipboard(&encoded) {
        Err(ClipboardError::LoadFailed(m)) => {
            assert!(m.starts_with("Failed to load image"));
        }
        Err(ClipboardError::TooLarge { estimated }) => {
            panic!("exact-ceiling payload rejected before decoding ({})", estimated);
        }
        Err(ClipboardError::DecodedTooLarge { actual }) => {
            panic!("exact-ceiling payload rejected after decoding ({})", actual);
        }
        _ => panic!("expected only an image-load failure"),
    }
}

#[test]
fn payload_one_over_the_ceiling_is_rejected_after_decoding() {
    let blob = vec![7u8; MAX_PAYLOAD_SIZE + 1];
    let encoded = base64::engine::general_purpose::STANDARD.encode(&blob);
    match copy_image_to_clipboard(&encoded) {
        Err(ClipboardError::DecodedTooLarge { actual }) => {
            assert_eq!(actual, MAX_PAYLOAD_SIZE + 1);
        }
        _ => panic!("expected the oversized payload to be rejected after decoding"),
    }
}

#[test]
fn small_invalid_base64_fails_decoding_not_size() {
    match copy_image_to_clipboard("%%%%") {
        Err(ClipboardError::DecodeFailed(m)) => {
            assert!(m.starts_with("Failed to decode base64"));
        }
        _ => panic!("expected a decode failure"),
    }
}

#[test]
fn valid_base64_of_garbage_fails_loading() {
    let encoded = base64::engine::general_purpose::STANDARD.encode(b"not an image");
    match copy_image_to_clipboard(&encoded) {
        Err(ClipboardError::LoadFailed(m)) => {
            assert!(m.starts_with("Failed to load image"));
        }
        _ => panic!("expected a load failure"),
    }
}

#[test]
fn clipboard_error_messages() {
    assert_eq!(
        ClipboardError::TooLarge { estimated: 1 }.message(),
        "Image too large"
    );
    assert_eq!(
        ClipboardError::DecodedTooLarge { actual: 1 }.message(),
        "Decoded image too large"
    );
}

#[test]
fn export_accepts_exactly_the_ceiling() {
    assert!(check_export_size(MAX_PAYLOAD_SIZE).is_ok());
    assert!(check_export_size(MAX_PAYLOAD_SIZE - 1).is_ok());
    assert!(check_export_size(0).is_ok());
}

#[test]
fn export_rejects_above_the_ceiling() {
    match check_export_size(MAX_PAYLOAD_SIZE + 1) {
        Err(ExportError::FileTooLarge { size }) => {
            assert_eq!(size, MAX_PAYLOAD_SIZE + 1);
        }
        _ => panic!("expected the oversized payload to be rejected"),
    }
}

#[test]
fn path_shape_is_vetted_before_filesystem_work() {
    assert!(check_path_parts(true, true).is_ok());
    match check_path_parts(false, true) {
        Err(ExportError::NoParentDirectory) => {}
        _ => panic!("expected the missing parent to be refused"),
    }
    match check_path_parts(false, false) {
        Err(ExportError::NoParentDirectory) => {}
        _ => panic!("expected the missing parent to be refused first"),
    }
    match check_path_parts(true, false) {
        Err(ExportError::InvalidFilename) => {}
        _ => panic!("expected the missing file name to be refused"),
    }
    assert_eq!(
        ExportError::NoParentDirectory.message(),
        "Invalid path: no parent directory"
    );
    assert_eq!(ExportError::InvalidFilename.message(), "Invalid filename");
}

#[test]
fn traversal_paths_are_rejected() {
    let err = check_canonical_path("/home/user/../etc/passwd").unwrap_err();
    assert_eq!(err.message(), "Invalid path: directory traversal not allowed");
    assert!(check_canonical_path("..").is_err());
    assert!(check_canonical_path("a..b").is_err());
    assert!(check_canonical_path("/tmp/shots/..hidden").is_err());
}

#[test]
fn plain_paths_are_accepted() {
    assert!(check_canonical_path("/home/user/Pictures/BeautyShot/shot.png").is_ok());
    assert!(check_canonical_path("").is_ok());
    assert!(check_canonical_path(".").is_ok());
    assert!(check_canonical_path("a.b.c").is_ok());
}
