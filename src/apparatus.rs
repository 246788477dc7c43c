//! The static apparatus: a quadrupole field source, cooling beams and the
//! bounding volume that retains particles.
//!
//! Geometry is held on an integer lattice. A beam direction is a step to a
//! neighbouring lattice point (each component -1, 0 or 1, not all 0); the
//! caller scales it to unit length. Lengths are in micrometres, beam power in
//! microwatts and field gradients in gauss per centimetre.
use vstd::prelude::*;

verus! {

/// A vector of integer components.
#[derive(Clone, Copy, Debug, PartialEq, Eq, Structural)]
pub struct Vec3i {
    pub x: i64,
    pub y: i64,
    pub z: i64,
}

/// A cooling beam, before the per-beam jitter of its intersection point.
#[derive(Clone, Copy, Debug, PartialEq, Eq, Structural)]
pub struct BeamSpec {
    pub direction: Vec3i,
    /// Handedness of the circular polarisation: 1 or -1.
    pub polarization: i32,
    /// 1/e radius of the Gaussian profile.
    pub waist_um: u64,
    pub power_uw: u64,
}

/// A quadrupole magnetic field source.
#[derive(Clone, Copy, Debug, PartialEq, Eq, Structural)]
pub struct FieldSource {
    pub centre_um: Vec3i,
    pub axis: Vec3i,
    pub gradient_gauss_per_cm: u64,
}

/// A cuboid region; inclusive volumes keep the particles inside them.
#[derive(Clone, Copy, Debug, PartialEq, Eq, Structural)]
pub struct BoundaryVolume {
    pub centre_um: Vec3i,
    pub half_width_um: Vec3i,
    pub inclusive: bool,
}

pub struct Apparatus {
    pub field: FieldSource,
    pub beams: Vec<BeamSpec>,
    pub boundary: BoundaryVolume,
}

#[derive(Clone, Copy, Debug, PartialEq, Eq, Structural)]
pub enum BeamFault {
    Waist,
    Power,
    Direction,
    Polarization,
}

#[derive(Clone, Copy, Debug, PartialEq, Eq, Structural)]
pub enum ApparatusError {
    FieldGradient,
    FieldAxis,
    Beam { index: usize, fault: BeamFault },
    Boundary,
}

pub open spec fn neg(v: Vec3i) -> Vec3i {
    Vec3i { x: -v.x as i64, y: -v.y as i64, z: -v.z as i64 }
}

/// A step to a neighbouring lattice point.
pub open spec fn is_lattice_step(v: Vec3i) -> bool {
    &&& -1 <= v.x <= 1
    &&& -1 <= v.y <= 1
    &&& -1 <= v.z <= 1
    &&& !(v.x == 0 && v.y == 0 && v.z == 0)
}

/// What is wrong with a beam, checked in the order waist, power, direction,
/// polarisation.
pub open spec fn beam_fault(b: BeamSpec) -> Option<BeamFault> {
    if b.waist_um == 0 {
        Some(BeamFault::Waist)
    } else if b.power_uw == 0 {
        Some(BeamFault::Power)
    } else if !is_lattice_step(b.direction) {
        Some(BeamFault::Direction)
    } else if !(b.polarization == 1 || b.polarization == -1) {
        Some(BeamFault::Polarization)
    } else {
        None
    }
}

/// The first faulty beam at index `i` or later.
pub open spec fn first_beam_error(s: Seq<BeamSpec>, i: int) -> Option<ApparatusError>
    decreases s.len() - i,
{
    if i < 0 || i >= s.len() {
        None
    } else if let Some(f) = beam_fault(s[i]) {
        Some(ApparatusError::Beam { index: i as usize, fault: f })
    } else {
        first_beam_error(s, i + 1)
    }
}

/// The error that construction of an apparatus stops on: the field source
/// first, then the beams in order, then the bounding volume.
pub open spec fn apparatus_error(
    field: FieldSource,
    beams: Seq<BeamSpec>,
    boundary: BoundaryVolume,
) -> Option<ApparatusError> {
    if field.gradient_gauss_per_cm == 0 {
        Some(ApparatusError::FieldGradient)
    } else if !is_lattice_step(field.axis) {
        Some(ApparatusError::FieldAxis)
    } else if first_beam_error(beams, 0) is Some {
        first_beam_error(beams, 0)
    } else if !(boundary.half_width_um.x > 0 && boundary.half_width_um.y > 0
        && boundary.half_width_um.z > 0) {
        Some(ApparatusError::Boundary)
    } else {
        None
    }
}

/// Whether some beam of `s` points along `d`.
pub open spec fn has_direction(s: Seq<BeamSpec>, d: Vec3i) -> bool {
    exists|j: int| 0 <= j < s.len() && s[j].direction == d
}

/// A symmetric beam set: every direction is a lattice step, no direction
/// repeats, and each beam is matched by one pointing the opposite way. The unit
/// directions of such a set cancel in pairs.
pub open spec fn is_symmetric_set(s: Seq<BeamSpec>) -> bool {
    &&& forall|i: int| 0 <= i < s.len() ==> is_lattice_step(#[trigger] s[i].direction)
    &&& forall|i: int| 0 <= i < s.len() ==> has_direction(s, neg(#[trigger] s[i].direction))
    &&& forall|i: int, j: int|
        0 <= i < j < s.len() ==> s[i].direction != s[j].direction
}

/// The sum of the lattice directions of the first `n` beams.
pub open spec fn direction_sum(s: Seq<BeamSpec>, n: nat) -> (int, int, int)
    decreases n,
{
    if n == 0 || n > s.len() {
        (0, 0, 0)
    } else {
        let r = direction_sum(s, (n - 1) as nat);
        let d = s[n - 1].direction;
        (r.0 + d.x, r.1 + d.y, r.2 + d.z)
    }
}

pub open spec fn lattice(x: int, y: int, z: int) -> Vec3i {
    Vec3i { x: x as i64, y: y as i64, z: z as i64 }
}

pub open spec fn cell_mot_beam(x: int, y: int, z: int, polarization: int) -> BeamSpec {
    BeamSpec {
        direction: lattice(x, y, z),
        polarization: polarization as i32,
        waist_um: 5000,
        power_uw: 5000,
    }
}

/// The six beams of the cell MOT: a pair along ±z and four diagonals in the
/// transverse plane, 5 mm in radius and 5 mW each.
pub open spec fn cell_mot_beam_seq() -> Seq<BeamSpec> {
    seq![
        cell_mot_beam(0, 0, 1, -1),
        cell_mot_beam(0, 0, -1, -1),
        cell_mot_beam(1, 1, 0, 1),
        cell_mot_beam(1, -1, 0, 1),
        cell_mot_beam(-1, -1, 0, 1),
        cell_mot_beam(-1, 1, 0, 1),
    ]
}

/// The cell MOT's beam set is symmetric, so its restoring forces balance, and
/// its lattice directions sum to the zero vector.
pub proof fn lemma_cell_mot_beams_balanced()
    ensures
        is_symmetric_set(cell_mot_beam_seq()),
        direction_sum(cell_mot_beam_seq(), 6) == (0int, 0int, 0int),
{
    let s = cell_mot_beam_seq();
    assert(has_direction(s, neg(s[0].direction))) by { assert(s[1].direction == neg(s[0].direction)); }
    assert(has_direction(s, neg(s[1].direction))) by { assert(s[0].direction == neg(s[1].direction)); }
    assert(has_direction(s, neg(s[2].direction))) by { assert(s[4].direction == neg(s[2].direction)); }
    assert(has_direction(s, neg(s[3].direction))) by { assert(s[5].direction == neg(s[3].direction)); }
    assert(has_direction(s, neg(s[4].direction))) by { assert(s[2].direction == neg(s[4].direction)); }
    assert(has_direction(s, neg(s[5].direction))) by { assert(s[3].direction == neg(s[5].direction)); }
    assert(direction_sum(s, 6) == (0int, 0int, 0int)) by {
        reveal_with_fuel(direction_sum, 7);
    }
}

fn beam(x: i64, y: i64, z: i64, polarization: i32) -> (r: BeamSpec)
    ensures
        r == cell_mot_beam(x as int, y as int, z as int, polarization as int),
{
    BeamSpec { direction: Vec3i { x, y, z }, polarization, waist_um: 5000, power_uw: 5000 }
}

/// The six beams of the cell MOT, in a fixed order.
pub fn cell_mot_beams() -> (r: Vec<BeamSpec>)
    ensures
        r@ == cell_mot_beam_seq(),
{
    let mut r: Vec<BeamSpec> = Vec::new();
    r.push(beam(0, 0, 1, -1));
    r.push(beam(0, 0, -1, -1));
    r.push(beam(1, 1, 0, 1));
    r.push(beam(1, -1, 0, 1));
    r.push(beam(-1, -1, 0, 1));
    r.push(beam(-1, 1, 0, 1));
    assert(r@ =~= cell_mot_beam_seq());
    r
}

/// The cell MOT: a 45 G/cm quadrupole along z at the origin, the six beams,
/// and an inclusive cuboid centred at x = -130 mm with half-widths of 170 mm,
/// 12.5 mm and 12.5 mm.
pub fn cell_mot_apparatus() -> (r: Apparatus)
    ensures
        r.field == (FieldSource {
            centre_um: lattice(0, 0, 0),
            axis: lattice(0, 0, 1),
            gradient_gauss_per_cm: 45,
        }),
        r.beams@ == cell_mot_beam_seq(),
        r.boundary == (BoundaryVolume {
            centre_um: lattice(-130000, 0, 0),
            half_width_um: lattice(170000, 12500, 12500),
            inclusive: true,
        }),
        apparatus_error(r.field, r.beams@, r.boundary) is None,
{
    let field = FieldSource {
        centre_um: Vec3i { x: 0, y: 0, z: 0 },
        axis: Vec3i { x: 0, y: 0, z: 1 },
        gradient_gauss_per_cm: 45,
    };
    let boundary = BoundaryVolume {
        centre_um: Vec3i { x: -130000, y: 0, z: 0 },
        half_width_um: Vec3i { x: 170000, y: 12500, z: 12500 },
        inclusive: true,
    };
    let beams = cell_mot_beams();
    proof {
        let s = beams@;
        reveal_with_fuel(first_beam_error, 7);
        assert(first_beam_error(s, 0) is None);
    }
    Apparatus { field, beams, boundary }
}

/// Whether the beams form a symmetric set, whose restoring forces balance.
pub fn is_symmetric(beams: &Vec<BeamSpec>) -> (r: bool)
    ensures
        r == is_symmetric_set(beams@),
{
    let n = beams.len();
    let mut i: usize = 0;
    while i < n
        invariant
            n == beams@.len(),
            i <= n,
            forall|a: int| 0 <= a < i ==> is_lattice_step(#[trigger] beams@[a].direction),
            forall|a: int|
                0 <= a < i ==> has_direction(beams@, neg(#[trigger] beams@[a].direction)),
            forall|a: int, b: int|
                0 <= a < i && a < b < n ==> beams@[a].direction != beams@[b].direction,
        decreases n - i,
    {
        let d = beams[i].direction;
        if !check_lattice_step(d) {
            return false;
        }
        let nd = Vec3i { x: -d.x, y: -d.y, z: -d.z };
        assert(nd == neg(beams@[i as int].direction));
        let mut found = false;
        let mut j: usize = 0;
        while j < n
            invariant
                n == beams@.len(),
                i < n,
                j <= n,
                d == beams@[i as int].direction,
                found ==> has_direction(beams@, nd),
                !found ==> forall|b: int| 0 <= b < j ==> beams@[b].direction != nd,
                forall|b: int| i < b < j ==> beams@[i as int].direction != beams@[b].direction,
            decreases n - j,
        {
            let e = beams[j].direction;
            if j > i && e == d {
                assert(beams@[i as int].direction == beams@[j as int].direction);
                return false;
            }
            if e == nd {
                found = true;
            }
            j = j + 1;
        }
        if !found {
            assert(!has_direction(beams@, neg(beams@[i as int].direction)));
            return false;
        }
        i = i + 1;
    }
    true
}

fn check_lattice_step(v: Vec3i) -> (r: bool)
    ensures
        r == is_lattice_step(v),
{
    -1 <= v.x && v.x <= 1 && -1 <= v.y && v.y <= 1 && -1 <= v.z && v.z <= 1 && !(v.x == 0 && v.y
        == 0 && v.z == 0)
}

/// What is wrong with one beam, if anything.
pub fn check_beam(b: &BeamSpec) -> (r: Option<BeamFault>)
    ensures
        r == beam_fault(*b),
{
    if b.waist_um == 0 {
        Some(BeamFault::Waist)
    } else if b.power_uw == 0 {
        Some(BeamFault::Power)
    } else if !check_lattice_step(b.direction) {
        Some(BeamFault::Direction)
    } else if !(b.polarization == 1 || b.polarization == -1) {
        Some(BeamFault::Polarization)
    } else {
        None
    }
}

impl Apparatus {
    /// Checks that every physical quantity is in range: a positive gradient
    /// along a lattice axis, beams of positive waist and power with valid
    /// direction and polarisation, and a bounding volume of positive extent.
    /// Reports the first fault, in the order field, beams, boundary.
    pub fn validate(&self) -> (r: Result<(), ApparatusError>)
        ensures
            r is Ok <==> apparatus_error(self.field, self.beams@, self.boundary) is None,
            r is Err ==> Some(r->Err_0) == apparatus_error(self.field, self.beams@, self.boundary),
    {
        if self.field.gradient_gauss_per_cm == 0 {
            return Err(ApparatusError::FieldGradient);
        }
        if !check_lattice_step(self.field.axis) {
            return Err(ApparatusError::FieldAxis);
        }
        let mut i: usize = 0;
        while i < self.beams.len()
            invariant
                i <= self.beams@.len(),
                self.field.gradient_gauss_per_cm != 0,
                is_lattice_step(self.field.axis),
                first_beam_error(self.beams@, 0) == first_beam_error(self.beams@, i as int),
            decreases self.beams@.len() - i,
        {
            if let Some(f) = check_beam(&self.beams[i]) {
                assert(first_beam_error(self.beams@, i as int) == Some(
                    ApparatusError::Beam { index: i, fault: f },
                ));
                return Err(ApparatusError::Beam { index: i, fault: f });
            }
            i = i + 1;
        }
        let h = self.boundary.half_width_um;
        if !(h.x > 0 && h.y > 0 && h.z > 0) {
            return Err(ApparatusError::Boundary);
        }
        Ok(())
    }
}

} // verus!
