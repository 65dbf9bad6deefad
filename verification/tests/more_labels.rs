use virtualizationservice::error::ErrorKind;
use virtualizationservice::selinux::{
    check_label_for_partition, check_label_is_allowed, is_safe_app_partition, LabelError,
    SeContext,
};

#[test]
fn each_allowed_origin_is_accepted() {
    for ty in ["system_file", "apk_data_file", "staging_data_file", "shell_data_file"] {
        for label in [format!("u:object_r:{}:s0", ty), format!("u:object_r:{}:s0:c1,c2", ty)] {
            let ctx = SeContext::new(&label).unwrap();
            assert_eq!(check_label_is_allowed(&ctx), Ok(()), "{}", label);
            assert_eq!(ctx.selinux_type(), Ok(ty));
            assert_eq!(ctx.to_string(), label);
            assert_eq!(check_label_for_partition(Some(&label)), Ok(()));
        }
    }
}

#[test]
fn every_other_origin_is_rejected() {
    for ty in [
        "app_data_file", "privapp_data_file", "system_file2", "System_file", "", "vendor_file",
        "apk_data_files", "shell_data", " system_file",
    ] {
        let label = format!("u:object_r:{}:s0", ty);
        let ctx = SeContext::new(&label).unwrap();
        assert_eq!(check_label_is_allowed(&ctx), Err(LabelError::NotAllowed), "{}", label);
        assert_eq!(check_label_for_partition(Some(&label)), Err(ErrorKind::UntrustedOrigin));
    }
}

#[test]
fn only_the_third_field_counts() {
    let ctx = SeContext::new("system_file:system_file:app_data_file:system_file").unwrap();
    assert_eq!(check_label_is_allowed(&ctx), Err(LabelError::NotAllowed));
    let ctx = SeContext::new("::system_file:").unwrap();
    assert_eq!(check_label_is_allowed(&ctx), Ok(()));
    let ctx = SeContext::new("::system_file::").unwrap();
    assert_eq!(check_label_is_allowed(&ctx), Ok(()));
}

#[test]
fn labels_with_the_wrong_number_of_fields_are_rejected() {
    for label in ["", "a", "a:b", "a:b:system_file", "a:b:system_file:c:d:e", ":::::"] {
        let ctx = SeContext::new(label).unwrap();
        assert_eq!(ctx.selinux_type(), Err(LabelError::Syntax), "{:?}", label);
        assert_eq!(check_label_is_allowed(&ctx), Err(LabelError::Syntax));
        assert_eq!(check_label_for_partition(Some(label)), Err(ErrorKind::UntrustedOrigin));
    }
}

#[test]
fn a_label_that_cannot_be_resolved_is_rejected() {
    assert_eq!(check_label_for_partition(None), Err(ErrorKind::UntrustedOrigin));
    assert_eq!(
        check_label_for_partition(Some("u:object_r:system_file:s0\0")),
        Err(ErrorKind::UntrustedOrigin)
    );
}

#[test]
fn labels_may_hold_any_characters() {
    let ctx = SeContext::new("ü:rôle:apk_data_file:ß").unwrap();
    assert_eq!(ctx.selinux_type(), Ok("apk_data_file"));
    let ctx = SeContext::new("u:r:ünknown:s0").unwrap();
    assert_eq!(ctx.selinux_type(), Ok("ünknown"));
    assert_eq!(check_label_is_allowed(&ctx), Err(LabelError::NotAllowed));
}

#[test]
fn safe_app_partitions_are_known_by_name() {
    for label in ["vm-instance", "microdroid-apk-idsig", "payload-metadata", "extra-idsig-", "extra-idsig-0", "extra-idsig-17"] {
        assert!(is_safe_app_partition(label), "{}", label);
    }
    for label in ["", "vm-instanc", "vm-instance2", "microdroid-apk", "extra-idsig", "extra-apk-0", "Payload-metadata", " vm-instance"] {
        assert!(!is_safe_app_partition(label), "{}", label);
    }
}
