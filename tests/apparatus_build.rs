use atomecs_simulations::apparatus::{
    cell_mot_apparatus, cell_mot_beams, check_beam, is_symmetric, ApparatusError, BeamFault,
    BeamSpec, Vec3i,
};

fn v(x: i64, y: i64, z: i64) -> Vec3i {
    Vec3i { x, y, z }
}

#[test]
fn cell_mot_has_six_balanced_beams() {
    let beams = cell_mot_beams();
    assert_eq!(beams.len(), 6);
    let (mut sx, mut sy, mut sz) = (0i64, 0i64, 0i64);
    for b in &beams {
        sx += b.direction.x;
        sy += b.direction.y;
        sz += b.direction.z;
        assert_eq!(b.waist_um, 5000);
        assert_eq!(b.power_uw, 5000);
    }
    assert_eq!((sx, sy, sz), (0, 0, 0));
    assert!(is_symmetric(&beams));
    assert_eq!(beams[0].direction, v(0, 0, 1));
    assert_eq!(beams[0].polarization, -1);
    assert_eq!(beams[2].direction, v(1, 1, 0));
    assert_eq!(beams[2].polarization, 1);
}

#[test]
fn unit_directions_cancel() {
    let mut sum = [0.0f64; 3];
    for b in &cell_mot_beams() {
        let d = [b.direction.x as f64, b.direction.y as f64, b.direction.z as f64];
        let norm = (d[0] * d[0] + d[1] * d[1] + d[2] * d[2]).sqrt();
        for k in 0..3 {
            sum[k] += d[k] / norm;
        }
    }
    for k in 0..3 {
        assert!(sum[k].abs() < 1e-12);
    }
}

#[test]
fn dropped_or_duplicated_beam_breaks_symmetry() {
    let mut beams = cell_mot_beams();
    beams.pop();
    assert!(!is_symmetric(&beams));
    let mut doubled = cell_mot_beams();
    doubled.push(doubled[0]);
    assert!(!is_symmetric(&doubled));
    assert!(is_symmetric(&Vec::new()));
}

#[test]
fn cell_mot_apparatus_is_valid() {
    let a = cell_mot_apparatus();
    assert_eq!(a.validate(), Ok(()));
    assert_eq!(a.field.gradient_gauss_per_cm, 45);
    assert_eq!(a.field.axis, v(0, 0, 1));
    assert_eq!(a.boundary.centre_um, v(-130000, 0, 0));
    assert_eq!(a.boundary.half_width_um, v(170000, 12500, 12500));
    assert!(a.boundary.inclusive);
}

#[test]
fn invalid_quantities_are_reported_in_order() {
    let mut a = cell_mot_apparatus();
    a.beams[3].power_uw = 0;
    a.beams[4].waist_um = 0;
    assert_eq!(
        a.validate(),
        Err(ApparatusError::Beam { index: 3, fault: BeamFault::Power })
    );
    a.field.gradient_gauss_per_cm = 0;
    assert_eq!(a.validate(), Err(ApparatusError::FieldGradient));

    let mut b = cell_mot_apparatus();
    b.field.axis = v(0, 0, 0);
    assert_eq!(b.validate(), Err(ApparatusError::FieldAxis));

    let mut c = cell_mot_apparatus();
    c.boundary.half_width_um.y = 0;
    assert_eq!(c.validate(), Err(ApparatusError::Boundary));
}

#[test]
fn each_beam_fault_is_named() {
    let good = BeamSpec { direction: v(1, 0, 0), polarization: 1, waist_um: 1, power_uw: 1 };
    assert_eq!(check_beam(&good), None);
    assert_eq!(check_beam(&BeamSpec { waist_um: 0, ..good }), Some(BeamFault::Waist));
    assert_eq!(check_beam(&BeamSpec { power_uw: 0, ..good }), Some(BeamFault::Power));
    assert_eq!(check_beam(&BeamSpec { direction: v(2, 0, 0), ..good }), Some(BeamFault::Direction));
    assert_eq!(check_beam(&BeamSpec { polarization: 0, ..good }), Some(BeamFault::Polarization));
}
