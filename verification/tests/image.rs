use funless_worker::image::{select_image, str_eq};

#[test]
fn mapped_runtime_name_yields_its_image() {
    assert_eq!(Some("openwhisk/action-nodejs-v16"), select_image("nodejs"));
}

#[test]
fn unmapped_runtime_name_yields_nothing() {
    assert_eq!(None, select_image("python"));
    assert_eq!(None, select_image(""));
    assert_eq!(None, select_image("nodejs16"));
}

#[test]
fn str_eq_compares_by_value() {
    assert!(str_eq("bridge", "bridge"));
    assert!(!str_eq("bridge", "bridge0"));
    assert!(str_eq("", ""));
}
