use mau::{
    copy_image, copy_string, paste_image, paste_string, ClipboardError, ClipboardFailure,
    ClipboardHandle, ClipboardImage,
};

#[test]
fn uninitialized_clipboard_refuses_every_operation() {
    let mut clipboard = ClipboardHandle::uninitialized();
    assert!(!clipboard.is_initialized());
    assert!(matches!(copy_string(&mut clipboard, String::from("hi")), Err(ClipboardError::Uninitialized)));
    assert!(matches!(paste_string(&mut clipboard), Err(ClipboardError::Uninitialized)));
    let image = ClipboardImage::new(1, 1, vec![1, 2, 3, 4]).unwrap();
    assert!(matches!(copy_image(&mut clipboard, image), Err(ClipboardError::Uninitialized)));
    assert!(matches!(paste_image(&mut clipboard), Err(ClipboardError::Uninitialized)));
    assert!(!clipboard.is_initialized());
}

#[test]
fn image_needs_four_bytes_per_pixel() {
    let image = ClipboardImage::new(2, 3, vec![0; 24]).unwrap();
    assert_eq!(image.width(), 2);
    assert_eq!(image.height(), 3);
    assert_eq!(image.bytes().len(), 24);
    assert!(ClipboardImage::new(2, 3, vec![0; 23]).is_none());
    assert!(ClipboardImage::new(0, 0, Vec::new()).is_some());
    assert!(ClipboardImage::new(usize::MAX, 2, Vec::new()).is_none());
}

#[test]
fn platform_failures_map_to_errors() {
    assert!(matches!(ClipboardError::from(ClipboardFailure::ContentNotAvailable), ClipboardError::ContentUnavailable));
    assert!(matches!(ClipboardError::from(ClipboardFailure::ClipboardNotSupported), ClipboardError::NotSupported));
    assert!(matches!(ClipboardError::from(ClipboardFailure::ClipboardOccupied), ClipboardError::Occupied));
    assert!(matches!(ClipboardError::from(ClipboardFailure::ConversionFailure), ClipboardError::ConversionFailed));
    match ClipboardError::from(ClipboardFailure::Unknown { description: String::from("boom") }) {
        ClipboardError::Unknown { error } => assert_eq!(error, "boom"),
        other => panic!("unexpected {:?}", other),
    }
}

#[test]
fn error_messages() {
    assert_eq!(ClipboardError::Uninitialized.message(), "Clipboard content is uninitialized");
    assert_eq!(
        ClipboardError::SaveFailed { error: String::from("busy") }.message(),
        "Saving to clipboard failed: busy"
    );
    assert_eq!(ClipboardError::DoesNotContainText.message(), "Clipboard does not contain text");
    assert_eq!(ClipboardError::DoesNotContainAnImage.message(), "Clipboard does not contain an image");
    assert_eq!(ClipboardError::ContentUnavailable.message(), "Clipboard content is unavailable");
    assert_eq!(ClipboardError::NotSupported.message(), "Clipboard is not supported on your platform");
    assert_eq!(
        ClipboardError::Occupied.message(),
        "Clipboard is occupied by another application. Try again"
    );
    assert_eq!(
        ClipboardError::ConversionFailed.message(),
        "Cannot convert data to/from a clipboard-specific format. Try again or report a bug"
    );
    assert_eq!(
        ClipboardError::Unknown { error: String::from("?") }.message(),
        "Unknown clipboard error: ?"
    );
}

#[test]
fn init_either_opens_the_clipboard_or_leaves_it_closed() {
    let mut clipboard = ClipboardHandle::uninitialized();
    match mau::init(&mut clipboard) {
        Ok(()) => assert!(clipboard.is_initialized()),
        Err(error) => {
            assert!(!clipboard.is_initialized());
            assert!(!matches!(error, ClipboardError::Uninitialized | ClipboardError::SaveFailed { .. }));
        }
    }
}
