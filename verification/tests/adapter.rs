use mold_sim::adapter::{
    backend_named, choose_backend, choose_power_preference, device_features, power_named,
    Backend, BackendChoice, MissingFeatures, PowerPreference, UnknownName,
};

#[test]
fn backends_by_name() {
    assert_eq!(backend_named("vulkan"), Some(Backend::Vulkan));
    assert_eq!(backend_named("metal"), Some(Backend::Metal));
    assert_eq!(backend_named("dx12"), Some(Backend::Dx12));
    assert_eq!(backend_named("dx11"), Some(Backend::Dx11));
    assert_eq!(backend_named("gl"), Some(Backend::Gl));
    assert_eq!(backend_named("webgpu"), Some(Backend::BrowserWebGpu));
}

#[test]
fn backend_names_are_taken_as_they_are() {
    assert_eq!(backend_named("Vulkan"), None);
    assert_eq!(backend_named("vulkan "), None);
    assert_eq!(backend_named(""), None);
    assert_eq!(backend_named("opengl"), None);
    assert_eq!(backend_named("dx"), None);
}

#[test]
fn power_preferences_by_name() {
    assert_eq!(power_named("low"), Some(PowerPreference::LowPower));
    assert_eq!(power_named("high"), Some(PowerPreference::HighPerformance));
    assert_eq!(power_named("HIGH"), None);
    assert_eq!(power_named("medium"), None);
    assert_eq!(power_named(""), None);
}

#[test]
fn without_a_request_every_first_tier_backend_is_tried() {
    assert_eq!(choose_backend(None), Ok(BackendChoice::Primary));
}

#[test]
fn a_requested_backend_is_found_in_any_case() {
    assert_eq!(choose_backend(Some("vulkan")), Ok(BackendChoice::Only(Backend::Vulkan)));
    assert_eq!(choose_backend(Some("VULKAN")), Ok(BackendChoice::Only(Backend::Vulkan)));
    assert_eq!(choose_backend(Some("Metal")), Ok(BackendChoice::Only(Backend::Metal)));
    assert_eq!(choose_backend(Some("DX12")), Ok(BackendChoice::Only(Backend::Dx12)));
    assert_eq!(choose_backend(Some("Dx11")), Ok(BackendChoice::Only(Backend::Dx11)));
    assert_eq!(choose_backend(Some("GL")), Ok(BackendChoice::Only(Backend::Gl)));
    assert_eq!(choose_backend(Some("WebGPU")), Ok(BackendChoice::Only(Backend::BrowserWebGpu)));
}

#[test]
fn an_unknown_backend_is_refused_with_its_name_in_lower_case() {
    assert_eq!(
        choose_backend(Some("OpenGL")),
        Err(UnknownName { name: "opengl".to_string() })
    );
    assert_eq!(choose_backend(Some("")), Err(UnknownName { name: String::new() }));
}

#[test]
fn without_a_request_no_power_preference_is_named() {
    assert_eq!(choose_power_preference(None), Ok(None));
}

#[test]
fn a_requested_power_preference_is_found_in_any_case() {
    assert_eq!(choose_power_preference(Some("low")), Ok(Some(PowerPreference::LowPower)));
    assert_eq!(choose_power_preference(Some("High")), Ok(Some(PowerPreference::HighPerformance)));
    assert_eq!(choose_power_preference(Some("LOW")), Ok(Some(PowerPreference::LowPower)));
    assert_eq!(
        choose_power_preference(Some("Turbo")),
        Err(UnknownName { name: "turbo".to_string() })
    );
}

#[test]
fn optional_features_are_enabled_where_the_adapter_has_them() {
    assert_eq!(device_features(0, 0, 0), Ok(0));
    assert_eq!(device_features(0, 0, 0xff), Ok(0));
    assert_eq!(device_features(0b1100, 0b0001, 0b0101), Ok(0b0101));
    assert_eq!(device_features(0b1111, 0, 0b1010), Ok(0b1010));
    assert_eq!(device_features(u64::MAX, u64::MAX, u64::MAX), Ok(u64::MAX));
}

#[test]
fn an_adapter_without_a_required_feature_is_refused() {
    assert_eq!(device_features(0, 0b0110, 0b0100), Err(MissingFeatures { missing: 0b0010 }));
    assert_eq!(device_features(0b1000, 0b0011, 0b1000), Err(MissingFeatures { missing: 0b0011 }));
    assert_eq!(device_features(0, 1 << 63, 0), Err(MissingFeatures { missing: 1 << 63 }));
}
