use gs_slam_core::worker::{output_index, worker_slot, workgroup_count, WorkerSlot, WORKGROUP_SIZE};

#[test]
fn workgroups_are_the_ceiling_of_count_over_64() {
    assert_eq!(WORKGROUP_SIZE, 64);
    assert_eq!(workgroup_count(0), 0);
    assert_eq!(workgroup_count(1), 1);
    assert_eq!(workgroup_count(63), 1);
    assert_eq!(workgroup_count(64), 1);
    assert_eq!(workgroup_count(65), 2);
    assert_eq!(workgroup_count(128), 2);
    assert_eq!(workgroup_count(129), 3);
    assert_eq!(workgroup_count(1000), 16);
    assert_eq!(workgroup_count(u64::MAX), 288_230_376_151_711_744);
    for n in 0u64..1000 {
        let g = workgroup_count(n);
        assert!(64 * g >= n);
        assert!(64 * g < n + 64);
    }
}

#[test]
fn sixty_five_elements_take_two_workgroups() {
    assert_eq!(workgroup_count(65), 2);
}

#[test]
fn worker_64_of_65_touches_only_its_own_element() {
    assert_eq!(
        worker_slot(64, 65, 1),
        Some(WorkerSlot { source: 64, replica: 0, input_offset: 4096, output_offset: 3072 })
    );
    let slot = worker_slot(64, 65, 1).unwrap();
    assert_eq!(slot.input_offset + 64, 65 * 64);
    assert_eq!(slot.output_offset + 48, 65 * 48);
}

#[test]
fn workers_beyond_the_elements_do_nothing() {
    for w in 65u32..128 {
        assert_eq!(worker_slot(w, 65, 1), None);
    }
    assert_eq!(worker_slot(0, 0, 1), None);
    assert_eq!(worker_slot(12, 4, 3), None);
    assert_eq!(worker_slot(u32::MAX, 65, 1), None);
}

#[test]
fn geometry_worker_reads_and_writes_its_own_index() {
    for w in 0u32..65 {
        assert_eq!(
            worker_slot(w, 65, 1),
            Some(WorkerSlot {
                source: w,
                replica: 0,
                input_offset: 64 * w as u64,
                output_offset: 48 * w as u64,
            })
        );
    }
}

#[test]
fn upsampling_worker_splits_its_index() {
    assert_eq!(
        worker_slot(0, 4, 3),
        Some(WorkerSlot { source: 0, replica: 0, input_offset: 0, output_offset: 0 })
    );
    assert_eq!(
        worker_slot(7, 4, 3),
        Some(WorkerSlot { source: 2, replica: 1, input_offset: 128, output_offset: 336 })
    );
    assert_eq!(
        worker_slot(11, 4, 3),
        Some(WorkerSlot { source: 3, replica: 2, input_offset: 192, output_offset: 528 })
    );
}

#[test]
fn output_index_is_source_times_factor_plus_replica() {
    assert_eq!(output_index(0, 0, 1), 0);
    assert_eq!(output_index(2, 1, 3), 7);
    assert_eq!(output_index(3, 2, 3), 11);
    assert_eq!(
        output_index(u32::MAX, u32::MAX, u32::MAX),
        u32::MAX as u64 * u32::MAX as u64 + u32::MAX as u64
    );
}

#[test]
fn splitting_and_joining_are_inverse() {
    for factor in 1u32..6 {
        let splats = 7u32;
        for o in 0..splats * factor {
            let slot = worker_slot(o, splats, factor).unwrap();
            assert!(slot.source < splats);
            assert!(slot.replica < factor);
            assert_eq!(output_index(slot.source, slot.replica, factor), o as u64);
        }
        for i in 0..splats {
            for r in 0..factor {
                let o = output_index(i, r, factor) as u32;
                let slot = worker_slot(o, splats, factor).unwrap();
                assert_eq!((slot.source, slot.replica), (i, r));
            }
        }
    }
}

#[test]
fn workers_write_disjoint_ranges_inside_the_output() {
    let splats = 5u32;
    let factor = 4u32;
    let mut written = vec![false; (48 * splats * factor) as usize];
    for w in 0..64 * workgroup_count((splats * factor) as u64) as u32 {
        if let Some(slot) = worker_slot(w, splats, factor) {
            assert!(slot.input_offset + 64 <= 64 * splats as u64);
            for b in slot.output_offset..slot.output_offset + 48 {
                assert!(!written[b as usize]);
                written[b as usize] = true;
            }
        }
    }
    assert!(written.iter().all(|w| *w));
}
