use gs_slam_core::codec::{encode_splats, encode_surfels};
use gs_slam_core::dispatch::{
    encode_params, plan_geometry, plan_upsample, DeviceLimits, DispatchPlan, PARAMS_BYTES,
};
use gs_slam_core::error::{BackendError, ReadbackError};
use gs_slam_core::{GaussianSplat, Surfel};

fn splats(n: usize) -> Vec<GaussianSplat> {
    (0..n)
        .map(|k| GaussianSplat {
            pos: [k as u32, 1, 2],
            opacity: 3,
            scale: [4, 5, 6],
            rot: [7, 8, 9, 10],
            sh_dc: [11, 12, 13],
        })
        .collect()
}

fn roomy() -> DeviceLimits {
    DeviceLimits {
        max_buffer_size: 268_435_456,
        max_storage_buffer_binding_size: 134_217_728,
        max_compute_workgroups_per_dimension: 65_535,
    }
}

#[test]
fn capacity_is_the_smaller_of_buffer_and_binding() {
    assert_eq!(roomy().capacity(), 134_217_728);
    let small = DeviceLimits {
        max_buffer_size: 1000,
        max_storage_buffer_binding_size: 4000,
        max_compute_workgroups_per_dimension: 1,
    };
    assert_eq!(small.capacity(), 1000);
    let equal = DeviceLimits {
        max_buffer_size: 4096,
        max_storage_buffer_binding_size: 4096,
        max_compute_workgroups_per_dimension: 1,
    };
    assert_eq!(equal.capacity(), 4096);
}

#[test]
fn empty_input_needs_no_dispatch() {
    assert_eq!(plan_geometry(&[], &roomy()), Ok(None));
    assert_eq!(plan_upsample(&[], 4, &roomy()), Ok(None));
    let nothing = DeviceLimits {
        max_buffer_size: 0,
        max_storage_buffer_binding_size: 0,
        max_compute_workgroups_per_dimension: 0,
    };
    assert_eq!(plan_geometry(&[], &nothing), Ok(None));
}

#[test]
fn geometry_plan_has_one_output_per_splat() {
    let input = splats(65);
    let plan = plan_geometry(&input, &roomy()).unwrap().unwrap();
    assert_eq!(
        plan,
        DispatchPlan {
            input: encode_splats(&input),
            params: Vec::new(),
            output_count: 65,
            output_bytes: 3120,
            workgroups: 2,
        }
    );
    assert_eq!(plan.input.len(), 4160);
}

#[test]
fn geometry_plan_sizes() {
    for (n, groups) in [(1usize, 1u32), (64, 1), (65, 2), (1000, 16)] {
        let plan = plan_geometry(&splats(n), &roomy()).unwrap().unwrap();
        assert_eq!(plan.output_count as usize, n);
        assert_eq!(plan.output_bytes, 48 * n as u64);
        assert_eq!(plan.workgroups, groups);
        assert_eq!(plan.input.len(), 64 * n);
    }
}

#[test]
fn upsample_plan_has_factor_outputs_per_splat() {
    let input = splats(10);
    let plan = plan_upsample(&input, 7, &roomy()).unwrap().unwrap();
    assert_eq!(
        plan,
        DispatchPlan {
            input: encode_splats(&input),
            params: vec![7, 0, 0, 0, 0, 0, 0, 0, 0, 0, 0, 0, 0, 0, 0, 0],
            output_count: 70,
            output_bytes: 3360,
            workgroups: 2,
        }
    );
    let same = plan_upsample(&input, 1, &roomy()).unwrap().unwrap();
    assert_eq!(same.output_count, 10);
    assert_eq!(same.workgroups, 1);
}

#[test]
fn params_block_is_the_factor_and_padding() {
    assert_eq!(PARAMS_BYTES, 16);
    assert_eq!(encode_params(1), vec![1, 0, 0, 0, 0, 0, 0, 0, 0, 0, 0, 0, 0, 0, 0, 0]);
    assert_eq!(
        encode_params(0x0102_0304),
        vec![4, 3, 2, 1, 0, 0, 0, 0, 0, 0, 0, 0, 0, 0, 0, 0]
    );
}

#[test]
fn input_buffer_that_does_not_fit_is_refused() {
    let limits = DeviceLimits {
        max_buffer_size: 64 * 4 - 1,
        max_storage_buffer_binding_size: 1 << 20,
        max_compute_workgroups_per_dimension: 65_535,
    };
    assert_eq!(plan_geometry(&splats(4), &limits), Err(BackendError::LimitsExceeded));
    assert!(plan_geometry(&splats(3), &limits).unwrap().is_some());
    let exact = DeviceLimits { max_buffer_size: 64 * 4, ..limits };
    assert!(plan_geometry(&splats(4), &exact).unwrap().is_some());
}

#[test]
fn binding_that_does_not_fit_is_refused() {
    let limits = DeviceLimits {
        max_buffer_size: 1 << 30,
        max_storage_buffer_binding_size: 64 * 4 - 1,
        max_compute_workgroups_per_dimension: 65_535,
    };
    assert_eq!(plan_geometry(&splats(4), &limits), Err(BackendError::LimitsExceeded));
    assert!(plan_geometry(&splats(3), &limits).unwrap().is_some());
}

#[test]
fn output_buffer_that_does_not_fit_is_refused() {
    let limits = DeviceLimits {
        max_buffer_size: 640,
        max_storage_buffer_binding_size: 640,
        max_compute_workgroups_per_dimension: 65_535,
    };
    assert!(plan_upsample(&splats(10), 1, &limits).unwrap().is_some());
    assert_eq!(plan_upsample(&splats(10), 2, &limits), Err(BackendError::LimitsExceeded));
    assert_eq!(plan_upsample(&splats(1), 13, &limits).unwrap().unwrap().output_bytes, 624);
    assert_eq!(plan_upsample(&splats(1), 14, &limits), Err(BackendError::LimitsExceeded));
}

#[test]
fn too_many_workgroups_are_refused() {
    let limits = DeviceLimits {
        max_buffer_size: 1 << 30,
        max_storage_buffer_binding_size: 1 << 30,
        max_compute_workgroups_per_dimension: 2,
    };
    assert_eq!(plan_geometry(&splats(128), &limits).unwrap().unwrap().workgroups, 2);
    assert_eq!(plan_geometry(&splats(129), &limits), Err(BackendError::LimitsExceeded));
    assert_eq!(plan_upsample(&splats(64), 2, &limits).unwrap().unwrap().workgroups, 2);
    assert_eq!(plan_upsample(&splats(65), 2, &limits), Err(BackendError::LimitsExceeded));
}

#[test]
fn output_count_beyond_32_bits_is_refused() {
    let limits = DeviceLimits {
        max_buffer_size: u64::MAX,
        max_storage_buffer_binding_size: u32::MAX,
        max_compute_workgroups_per_dimension: u32::MAX,
    };
    assert_eq!(plan_upsample(&splats(2), u32::MAX, &limits), Err(BackendError::LimitsExceeded));
    assert_eq!(plan_upsample(&splats(3), 0x8000_0000, &limits), Err(BackendError::LimitsExceeded));
}

#[test]
fn read_back_takes_exactly_the_output_bytes() {
    let plan = plan_geometry(&splats(3), &roomy()).unwrap().unwrap();
    let list = vec![
        Surfel { pos: [1, 2, 3], color: [4, 5, 6], normal: [7, 8, 9] },
        Surfel { pos: [10, 20, 30], color: [40, 50, 60], normal: [70, 80, 90] },
        Surfel::default(),
    ];
    let mapped = encode_surfels(&list);
    assert_eq!(plan.read_back(&mapped), Ok(list));
    assert_eq!(plan.read_back(&mapped[..143]), Err(ReadbackError::SizeMismatch));
    assert_eq!(plan.read_back(&mapped[..96]), Err(ReadbackError::SizeMismatch));
    assert_eq!(plan.read_back(&[]), Err(ReadbackError::SizeMismatch));
    let mut longer = mapped.clone();
    longer.push(0);
    assert_eq!(plan.read_back(&longer), Err(ReadbackError::SizeMismatch));
}

#[test]
fn upsampled_read_back_has_count_times_factor_surfels() {
    let plan = plan_upsample(&splats(5), 3, &roomy()).unwrap().unwrap();
    let mapped = vec![0u8; 48 * 15];
    let surfels = plan.read_back(&mapped).unwrap();
    assert_eq!(surfels.len(), 15);
    assert_eq!(surfels.len(), plan.output_count as usize);
}
