use wayvern::backend_config::{
    contains, is_non_desktop, is_nvidia_driver, mentions_nvidia, setting_is_truthy, preferred_mode_index, remove_non_desktop_connector, supported_color_formats,
    vulkan_disabled, ColorFormat,
};

#[test]
fn vulkan_setting() {
    assert!(!vulkan_disabled(None));
    assert!(vulkan_disabled(Some("1")));
    assert!(vulkan_disabled(Some("true")));
    assert!(vulkan_disabled(Some("TRUE")));
    assert!(vulkan_disabled(Some("Yes")));
    assert!(vulkan_disabled(Some("y")));
    assert!(!vulkan_disabled(Some("0")));
    assert!(!vulkan_disabled(Some("no")));
    assert!(!vulkan_disabled(Some(" true")));
}

#[test]
fn substring_search() {
    assert!(contains("nouveau-nvidia", "nvidia"));
    assert!(contains("abc", ""));
    assert!(!contains("nvidi", "nvidia"));
    assert!(!contains("", "a"));
}

#[test]
fn nvidia_detection() {
    assert!(is_nvidia_driver("NVIDIA-drm", "whatever"));
    assert!(is_nvidia_driver("i915", "Made by Nvidia"));
    assert!(!is_nvidia_driver("amdgpu", "AMD GPU"));
}

#[test]
fn preferred_mode() {
    assert_eq!(preferred_mode_index(&[false, true, true]), 1);
    assert_eq!(preferred_mode_index(&[false, false]), 0);
    assert_eq!(preferred_mode_index(&[]), 0);
}

#[test]
fn color_formats() {
    assert_eq!(supported_color_formats(true), vec![ColorFormat::Abgr8888, ColorFormat::Argb8888]);
    assert_eq!(
        supported_color_formats(false),
        vec![ColorFormat::Abgr2101010, ColorFormat::Argb2101010, ColorFormat::Abgr8888, ColorFormat::Argb8888]
    );
}

#[test]
fn non_desktop_connectors() {
    let mut v = vec![(1, 10), (2, 20), (1, 30)];
    assert!(remove_non_desktop_connector(&mut v, 1));
    assert_eq!(v, vec![(2, 20), (1, 30)]);
    assert!(!remove_non_desktop_connector(&mut v, 5));
    assert_eq!(v, vec![(2, 20), (1, 30)]);
}

#[test]
fn truthy_given_lower_case_form() {
    assert!(setting_is_truthy("1", "1"));
    assert!(setting_is_truthy("YES", "yes"));
    // Only the lower-case form is compared with the words.
    assert!(!setting_is_truthy("true", "TRUE"));
    assert!(!setting_is_truthy("2", "2"));
}

#[test]
fn nvidia_in_lower_case_forms() {
    assert!(mentions_nvidia("nvidia", ""));
    assert!(mentions_nvidia("", "the nvidia driver"));
    assert!(!mentions_nvidia("NVIDIA", "Nvidia"));
}

#[test]
fn non_desktop_property() {
    let p = |n: &str, v: Option<bool>| (n.to_string(), v);
    assert!(!is_non_desktop(&[]));
    assert!(!is_non_desktop(&[p("DPMS", Some(true))]));
    assert!(is_non_desktop(&[p("DPMS", None), p("non-desktop", Some(true))]));
    assert!(!is_non_desktop(&[p("non-desktop", Some(false))]));
    assert!(!is_non_desktop(&[p("non-desktop", None), p("non-desktop", Some(true))]));
    assert!(is_non_desktop(&[p("non-desktop", Some(true)), p("non-desktop", Some(false))]));
}
