use cgmath::InnerSpace;
use cgmath::Rotation3;
use cgmath::Zero;

use irid::create_instances;
use irid::InstanceRotation;

#[test]
fn grid_of_ten_has_exactly_one_hundred_instances() {
    let instances = create_instances(10);
    assert_eq!(instances.len(), 100);
}

#[test]
fn grid_origin_instance_is_identity_all_others_quarter_pi() {
    let instances = create_instances(10);
    for (i, inst) in instances.iter().enumerate() {
        if i == 55 {
            assert_eq!(inst.rotation, InstanceRotation::Identity);
            assert_eq!(inst.position.double_x, 0);
            assert_eq!(inst.position.double_y, 0);
            assert_eq!(inst.position.double_z, 0);
        } else {
            assert_eq!(inst.rotation, InstanceRotation::QuarterPiAboutPosition);
        }
    }
}

#[test]
fn grid_positions_are_the_centered_lattice() {
    let instances = create_instances(10);
    // Row-major along z: index = z * 10 + x; position doubled is
    // (2x - 10, 0, 2z - 10).
    assert_eq!(instances[0].position.double_x, -10);
    assert_eq!(instances[0].position.double_z, -10);
    assert_eq!(instances[9].position.double_x, 8);
    assert_eq!(instances[9].position.double_z, -10);
    assert_eq!(instances[90].position.double_x, -10);
    assert_eq!(instances[90].position.double_z, 8);
    assert_eq!(instances[99].position.double_x, 8);
    assert_eq!(instances[99].position.double_z, 8);
    for inst in &instances {
        assert_eq!(inst.position.double_y, 0);
    }
}

#[test]
fn grid_rotation_branch_matches_float_zero_test() {
    // The identity branch exists exactly where the float position the
    // application reconstructs is the zero vector, the degenerate case a
    // quaternion axis cannot be built from.
    let n = 10u32;
    let instances = create_instances(n);
    for (i, inst) in instances.iter().enumerate() {
        let x = (i as u32) % n;
        let z = (i as u32) / n;
        let position = cgmath::Vector3 {
            x: x as f32,
            y: 0.0,
            z: z as f32,
        } - cgmath::Vector3::new(n as f32 * 0.5, 0.0, n as f32 * 0.5);
        // The doubled integer coordinates halve to the float position
        // exactly.
        assert_eq!(position.x, inst.position.double_x as f32 / 2.0);
        assert_eq!(position.y, inst.position.double_y as f32 / 2.0);
        assert_eq!(position.z, inst.position.double_z as f32 / 2.0);
        assert_eq!(position.is_zero(), inst.rotation == InstanceRotation::Identity);
        if !position.is_zero() {
            // The axis-angle quaternion the application builds from this
            // position is well defined: a unit quaternion.
            let q = cgmath::Quaternion::from_axis_angle(
                position.normalize(),
                cgmath::Rad(std::f32::consts::PI / 4.0f32),
            );
            assert!((q.magnitude() - 1.0).abs() < 1e-5);
        }
    }
}

#[test]
fn grid_is_reproducible_bit_for_bit() {
    assert_eq!(create_instances(10), create_instances(10));
}

#[test]
fn grid_edge_sizes() {
    assert_eq!(create_instances(0).len(), 0);

    // An odd grid has no instance exactly at the origin.
    let one = create_instances(1);
    assert_eq!(one.len(), 1);
    assert_eq!(one[0].position.double_x, -1);
    assert_eq!(one[0].position.double_z, -1);
    assert_eq!(one[0].rotation, InstanceRotation::QuarterPiAboutPosition);

    // An even grid puts instance (n/2, n/2) exactly at the origin.
    let two = create_instances(2);
    assert_eq!(two.len(), 4);
    assert_eq!(two[3].position.double_x, 0);
    assert_eq!(two[3].position.double_z, 0);
    assert_eq!(two[3].rotation, InstanceRotation::Identity);
}
