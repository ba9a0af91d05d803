use gs_slam_core::host::{compute_surfels, upsample, Attributes};
use gs_slam_core::{GaussianSplat, Surfel};

fn splat(k: u32) -> GaussianSplat {
    GaussianSplat {
        pos: [k, k + 1, k + 2],
        opacity: 0,
        scale: [0; 3],
        rot: [0; 4],
        sh_dc: [10 * k, 10 * k + 1, 10 * k + 2],
    }
}

#[test]
fn one_surfel_per_splat_in_order() {
    let splats: Vec<GaussianSplat> = (0..5).map(splat).collect();
    let out = compute_surfels(&splats, |s: &GaussianSplat| Attributes {
        color: s.sh_dc,
        normal: [s.pos[0], 0, 0],
    });
    assert_eq!(out.len(), 5);
    for (k, surfel) in out.iter().enumerate() {
        let k = k as u32;
        assert_eq!(
            *surfel,
            Surfel { pos: [k, k + 1, k + 2], color: [10 * k, 10 * k + 1, 10 * k + 2], normal: [k, 0, 0] }
        );
    }
}

#[test]
fn no_splats_give_no_surfels() {
    let out = compute_surfels(&[], |_s: &GaussianSplat| -> Attributes {
        panic!("there is nothing to derive")
    });
    assert_eq!(out.len(), 0);
    let up = upsample(&[], 3, |_s: &GaussianSplat, _r: u32, _f: u32| -> Surfel {
        panic!("there is nothing to replicate")
    });
    assert_eq!(up.len(), 0);
}

#[test]
fn output_lengths_hold_for_many_sizes() {
    for n in [0usize, 1, 64, 65, 1000] {
        let splats: Vec<GaussianSplat> = (0..n as u32).map(splat).collect();
        let out = compute_surfels(&splats, |s: &GaussianSplat| Attributes {
            color: s.sh_dc,
            normal: s.pos,
        });
        assert_eq!(out.len(), n);
        for factor in [1u32, 2, 5] {
            let up = upsample(&splats, factor, |s: &GaussianSplat, _r: u32, _f: u32| Surfel {
                pos: s.pos,
                color: s.sh_dc,
                normal: s.pos,
            });
            assert_eq!(up.len(), n * factor as usize);
        }
    }
}

#[test]
fn replicas_of_a_splat_stand_together() {
    let splats: Vec<GaussianSplat> = (0..4).map(splat).collect();
    let out = upsample(&splats, 3, |s: &GaussianSplat, r: u32, f: u32| Surfel {
        pos: s.pos,
        color: [r, f, 0],
        normal: s.sh_dc,
    });
    assert_eq!(out.len(), 12);
    for o in 0..12usize {
        let i = (o / 3) as u32;
        let r = (o % 3) as u32;
        assert_eq!(
            out[o],
            Surfel {
                pos: [i, i + 1, i + 2],
                color: [r, 3, 0],
                normal: [10 * i, 10 * i + 1, 10 * i + 2]
            }
        );
    }
}

#[test]
fn factor_one_keeps_one_output_per_splat() {
    let splats: Vec<GaussianSplat> = (0..3).map(splat).collect();
    let out = upsample(&splats, 1, |s: &GaussianSplat, r: u32, f: u32| Surfel {
        pos: s.pos,
        color: [r, f, 7],
        normal: [0; 3],
    });
    assert_eq!(out.len(), 3);
    for (k, surfel) in out.iter().enumerate() {
        assert_eq!(surfel.pos, splats[k].pos);
        assert_eq!(surfel.color, [0, 1, 7]);
    }
}
