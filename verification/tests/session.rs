use gs_slam_core::error::BackendError;
use gs_slam_core::session::{select_adapter, AdapterInfo, Backend, DeviceType, PowerPreference};

fn adapter(backend: Backend, device_type: DeviceType) -> AdapterInfo {
    AdapterInfo { backend, device_type, surface_compatible: true }
}

#[test]
fn no_adapter_at_all_is_an_error() {
    assert_eq!(
        select_adapter(&[], PowerPreference::HighPerformance, false),
        Err(BackendError::NoAdapter)
    );
}

#[test]
fn software_and_browser_adapters_are_never_chosen() {
    let list = [
        adapter(Backend::Vulkan, DeviceType::Cpu),
        adapter(Backend::BrowserWebGpu, DeviceType::DiscreteGpu),
        adapter(Backend::Gl, DeviceType::Cpu),
    ];
    assert_eq!(
        select_adapter(&list, PowerPreference::HighPerformance, false),
        Err(BackendError::NoAdapter)
    );
    assert!(!list[0].is_eligible(false));
    assert!(!list[1].is_eligible(false));
    let with_one = [list[0], list[1], adapter(Backend::Empty, DeviceType::Other)];
    assert_eq!(select_adapter(&with_one, PowerPreference::HighPerformance, false), Ok(2));
}

#[test]
fn primary_backend_beats_secondary_beats_the_rest() {
    let list = [
        adapter(Backend::Empty, DeviceType::DiscreteGpu),
        adapter(Backend::Gl, DeviceType::DiscreteGpu),
        adapter(Backend::Vulkan, DeviceType::Other),
    ];
    assert_eq!(select_adapter(&list, PowerPreference::HighPerformance, false), Ok(2));
    assert_eq!(select_adapter(&list[..2], PowerPreference::HighPerformance, false), Ok(1));
    assert_eq!(select_adapter(&list[..1], PowerPreference::HighPerformance, false), Ok(0));
    for backend in [Backend::Vulkan, Backend::Metal, Backend::Dx12] {
        let pair = [
            adapter(Backend::Gl, DeviceType::DiscreteGpu),
            adapter(backend, DeviceType::IntegratedGpu),
        ];
        assert_eq!(select_adapter(&pair, PowerPreference::HighPerformance, false), Ok(1));
    }
}

#[test]
fn power_preference_breaks_ties() {
    let list = [
        adapter(Backend::Vulkan, DeviceType::Other),
        adapter(Backend::Vulkan, DeviceType::IntegratedGpu),
        adapter(Backend::Vulkan, DeviceType::DiscreteGpu),
        adapter(Backend::Vulkan, DeviceType::VirtualGpu),
    ];
    assert_eq!(select_adapter(&list, PowerPreference::HighPerformance, false), Ok(2));
    assert_eq!(select_adapter(&list, PowerPreference::LowPower, false), Ok(1));
    assert_eq!(select_adapter(&list, PowerPreference::NoPreference, false), Ok(0));
}

#[test]
fn first_listed_wins_among_equals() {
    let list = [
        adapter(Backend::Gl, DeviceType::DiscreteGpu),
        adapter(Backend::Metal, DeviceType::DiscreteGpu),
        adapter(Backend::Vulkan, DeviceType::DiscreteGpu),
        adapter(Backend::Dx12, DeviceType::DiscreteGpu),
    ];
    assert_eq!(select_adapter(&list, PowerPreference::HighPerformance, false), Ok(1));
}

#[test]
fn standing_is_backend_first_then_power() {
    let p = PowerPreference::HighPerformance;
    assert_eq!(adapter(Backend::Vulkan, DeviceType::DiscreteGpu).standing(p), 8);
    assert_eq!(adapter(Backend::Metal, DeviceType::IntegratedGpu).standing(p), 7);
    assert_eq!(adapter(Backend::Dx12, DeviceType::Other).standing(p), 6);
    assert_eq!(adapter(Backend::Gl, DeviceType::DiscreteGpu).standing(p), 5);
    assert_eq!(adapter(Backend::Gl, DeviceType::VirtualGpu).standing(p), 3);
    assert_eq!(adapter(Backend::Empty, DeviceType::DiscreteGpu).standing(p), 2);
    assert_eq!(adapter(Backend::Empty, DeviceType::Other).standing(p), 0);
    let q = PowerPreference::LowPower;
    assert_eq!(adapter(Backend::Vulkan, DeviceType::DiscreteGpu).standing(q), 7);
    assert_eq!(adapter(Backend::Vulkan, DeviceType::IntegratedGpu).standing(q), 8);
    let r = PowerPreference::NoPreference;
    assert_eq!(adapter(Backend::Vulkan, DeviceType::DiscreteGpu).standing(r), 6);
}

#[test]
fn surface_is_required_only_when_asked_for() {
    let blind = AdapterInfo {
        backend: Backend::Vulkan,
        device_type: DeviceType::DiscreteGpu,
        surface_compatible: false,
    };
    let list = [blind, adapter(Backend::Gl, DeviceType::IntegratedGpu)];
    assert_eq!(select_adapter(&list, PowerPreference::HighPerformance, false), Ok(0));
    assert_eq!(select_adapter(&list, PowerPreference::HighPerformance, true), Ok(1));
    assert_eq!(
        select_adapter(&list[..1], PowerPreference::HighPerformance, true),
        Err(BackendError::NoAdapter)
    );
}
