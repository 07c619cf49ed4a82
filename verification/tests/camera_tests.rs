use app_shell::camera::pick_limit_or_default;
use app_shell::camera::PhotoResult;
use app_shell::camera::TakePhotoArgs;

fn empty_args() -> TakePhotoArgs {
    TakePhotoArgs {
        quality: None,
        allow_editing: None,
        save_to_gallery: None,
        result_type: None,
        width: None,
        height: None,
    }
}

#[test]
fn omitted_camera_args_fall_back_to_defaults() {
    let args = empty_args();
    assert_eq!(args.quality_or_default(), 90);
    assert!(!args.allow_editing_or_default());
    assert!(!args.save_to_gallery_or_default());
}

#[test]
fn given_camera_args_are_kept() {
    let mut args = empty_args();
    args.quality = Some(55);
    args.allow_editing = Some(true);
    args.save_to_gallery = Some(true);
    assert_eq!(args.quality_or_default(), 55);
    assert!(args.allow_editing_or_default());
    assert!(args.save_to_gallery_or_default());
}

#[test]
fn pick_limit_defaults_to_ten() {
    assert_eq!(pick_limit_or_default(None), 10);
    assert_eq!(pick_limit_or_default(Some(3)), 3);
}

#[test]
fn photo_result_carries_its_fields() {
    let r = PhotoResult {
        path: "/tmp/photo.jpg".to_string(),
        data: None,
        format: "jpeg".to_string(),
        width: Some(640),
        height: Some(480),
    };
    assert_eq!(r.path, "/tmp/photo.jpg");
    assert_eq!(r.format, "jpeg");
    assert_eq!(r.width, Some(640));
    assert_eq!(r.height, Some(480));
}
