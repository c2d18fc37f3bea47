use vr_lab::controller::{ControllerId, ControllerReading, ControllerSample, PoseGuru};
use vr_lab::draw::{DrawCommand, MeshHandle};
use vr_lab::grab::{Contact, GrabState};
use vr_lab::object::Pending;
use vr_lab::physics::{PhysicsGuru, Resolved, RigidBody, Shape, Solid, Token};
use vr_lab::pose::{Pose, Vector, Velocity};
use vr_lab::scalar::Scalar;
use vr_lab::snowflakes::{Snowblock, Snowflakes};

const SNOWMAN: MeshHandle = MeshHandle { id: 7 };
const BLOCK: MeshHandle = MeshHandle { id: 8 };

fn s(x: f32) -> Scalar {
    Scalar::from_bits(x.to_bits())
}

fn f(x: Scalar) -> f32 {
    f32::from_bits(x.to_bits())
}

fn vector(x: f32, y: f32, z: f32) -> Vector {
    Vector::from_bits(x.to_bits(), y.to_bits(), z.to_bits())
}

fn at(x: f32, y: f32, z: f32) -> Pose {
    Pose::from_translation(x.to_bits(), y.to_bits(), z.to_bits())
}

fn sample(pose: Pose, trigger: f32, before: f32) -> ControllerSample {
    ControllerSample {
        pose,
        velocity: Velocity { linear: vector(0.5, 0.25, 0.125), angular: vector(1.0, 2.0, 4.0) },
        trigger: s(trigger),
        trigger_before: s(before),
    }
}

fn idle(pose: Pose) -> ControllerSample {
    sample(pose, 0.0, 0.0)
}

/// The physics step of these tests: every body drops by a quarter.
fn step(physics: &PhysicsGuru) -> Resolved {
    let mut out = Vec::new();
    for n in 0..physics.len() {
        let mut b = physics.body(Token { index: n }).unwrap();
        b.pose.translation.y = s(f(b.pose.translation.y) - 0.25);
        out.push(b);
    }
    Resolved::new(out)
}

/// One whole frame of the scene without any block being pointed at.
fn quiet_frame(scene: &mut Snowflakes, primary: &ControllerSample, spawner: &ControllerSample) -> (Vec<Pending>, Vec<DrawCommand>) {
    let mut physics = PhysicsGuru::new(vector(0.0, -9.81, 0.0));
    let pending = scene.begin_update(primary, spawner, &Vec::new(), &mut physics);
    let resolved = step(&physics);
    let draws = scene.finish(&pending, &resolved, &Vec::new(), primary);
    (pending, draws)
}

#[test]
fn new_scene_is_empty() {
    let scene = Snowflakes::new(SNOWMAN, BLOCK);
    assert_eq!(scene.len(), 0);
    assert_eq!(scene.staged_len(), 0);
    assert_eq!(scene.block(0), None);
    assert_eq!(scene.staged_block(0), None);
    assert_eq!(scene.snowman(), SNOWMAN);
    assert_eq!(scene.snow_block(), BLOCK);
}

#[test]
fn spawned_block_takes_pose_and_velocity_from_the_controller() {
    let c = sample(at(1.0, 2.0, 3.0), 0.6, 0.3);
    let block = Snowblock::spawn(&c);
    assert_eq!(block.object.grab, GrabState::Free);
    assert_eq!(block.object.body.pose, at(1.0, 2.0, 3.0));
    assert_eq!(block.object.body.velocity, c.velocity);
    assert_eq!(
        block.object.body.shape,
        Shape::Single { solid: Solid::Cuboid { half_extents: vector(0.15, 0.15, 0.3) } }
    );
    assert_eq!(block.object.body.density, s(100.0));
    assert_eq!(block.object.body.restitution, s(0.0));
    assert_eq!(block.object.body.friction, s(0.8));
    assert_eq!(block.object.body.margin, Some(s(0.00001)));
}

#[test]
fn trigger_sequence_spawns_exactly_one_block() {
    let mut guru = PoseGuru::new();
    let mut scene = Snowflakes::new(SNOWMAN, BLOCK);
    let mut counts = Vec::new();
    for trigger in [0.3f32, 0.6, 0.6, 0.3] {
        guru.refresh(
            ControllerId::Secondary,
            Some(ControllerReading { pose: at(0.0, 1.0, 0.0), velocity: Velocity::at_rest(), trigger: s(trigger) }),
        );
        guru.refresh(ControllerId::Primary, None);
        let primary = guru.sample(ControllerId::Primary);
        let spawner = guru.sample(ControllerId::Secondary);
        quiet_frame(&mut scene, &primary, &spawner);
        counts.push(scene.len() + scene.staged_len());
    }
    assert_eq!(counts, vec![0, 1, 1, 1]);
    quiet_frame(&mut scene, &guru.sample(ControllerId::Primary), &guru.sample(ControllerId::Primary));
    assert_eq!(scene.len(), 1);
    assert_eq!(scene.staged_len(), 0);
}

#[test]
fn primary_trigger_spawns_nothing() {
    let mut scene = Snowflakes::new(SNOWMAN, BLOCK);
    quiet_frame(&mut scene, &sample(at(0.0, 0.0, 0.0), 0.9, 0.1), &idle(at(0.0, 0.0, 0.0)));
    assert_eq!(scene.len() + scene.staged_len(), 0);
}

#[test]
fn every_crossing_spawns_one_block() {
    let mut scene = Snowflakes::new(SNOWMAN, BLOCK);
    let primary = idle(at(0.0, 0.0, 0.0));
    let mut before = 0.0f32;
    for trigger in [0.9f32, 0.1, 0.7, 0.7, 0.5, 0.51, 0.2, 1.0] {
        quiet_frame(&mut scene, &primary, &sample(at(0.0, 1.0, 0.0), trigger, before));
        before = trigger;
    }
    assert_eq!(scene.len() + scene.staged_len(), 4);
}

#[test]
fn spawned_block_waits_for_the_next_frame() {
    let mut scene = Snowflakes::new(SNOWMAN, BLOCK);
    let primary = idle(at(0.0, 0.0, 0.0));
    let spawner = sample(at(0.0, 4.0, 0.0), 0.8, 0.2);

    let (pending, draws) = quiet_frame(&mut scene, &primary, &spawner);
    assert_eq!(pending.len(), 0);
    assert_eq!(draws.len(), 1);
    assert_eq!(scene.len(), 0);
    assert_eq!(scene.staged_len(), 1);
    assert_eq!(scene.staged_block(0), Some(Snowblock::spawn(&spawner)));
    assert_eq!(scene.staged_block(1), None);

    let (pending, draws) = quiet_frame(&mut scene, &primary, &idle(at(0.0, 4.0, 0.0)));
    assert_eq!(pending.len(), 1);
    assert_eq!(pending[0].token, Token { index: 0 });
    assert_eq!(draws.len(), 2);
    assert_eq!(scene.len(), 1);
    assert_eq!(scene.staged_len(), 0);
    let block = scene.block(0).unwrap();
    assert_eq!(f(block.object.body.pose.translation.y), 4.0 - 0.25);
    assert_eq!(draws[0], DrawCommand { mesh: BLOCK, pose: block.object.body.pose });
}

#[test]
fn blocks_keep_the_order_in_which_they_were_spawned() {
    let mut scene = Snowflakes::new(SNOWMAN, BLOCK);
    let primary = idle(at(9.0, 9.0, 9.0));
    for k in 0..3 {
        quiet_frame(&mut scene, &primary, &sample(at(k as f32, 100.0, 0.0), 0.8, 0.2));
    }
    let (pending, draws) = quiet_frame(&mut scene, &primary, &idle(at(0.0, 0.0, 0.0)));
    assert_eq!(scene.len(), 3);
    assert_eq!(pending.len(), 3);
    assert_eq!(draws.len(), 4);
    for k in 0..3 {
        let block = scene.block(k).unwrap();
        assert_eq!(f(block.object.body.pose.translation.x), k as f32);
        assert_eq!(pending[k].token, Token { index: k });
        assert_eq!(draws[k], DrawCommand { mesh: BLOCK, pose: block.object.body.pose });
    }
    assert_eq!(draws[3], DrawCommand { mesh: BLOCK, pose: at(9.0, 9.0, 9.0) });
    assert_eq!(scene.block(3), None);
}

#[test]
fn tokens_follow_the_bodies_already_in_the_batch() {
    let mut scene = Snowflakes::new(SNOWMAN, BLOCK);
    let primary = idle(at(0.0, 0.0, 0.0));
    quiet_frame(&mut scene, &primary, &sample(at(1.0, 1.0, 1.0), 0.8, 0.2));
    quiet_frame(&mut scene, &primary, &sample(at(2.0, 2.0, 2.0), 0.8, 0.2));

    let mut physics = PhysicsGuru::new(vector(0.0, -9.81, 0.0));
    let floor = RigidBody {
        pose: at(0.0, 0.0, 0.0),
        velocity: Velocity::at_rest(),
        shape: Shape::Single { solid: Solid::Cuboid { half_extents: vector(50.0, 0.1, 50.0) } },
        density: s(0.0),
        restitution: s(0.1),
        friction: s(0.6),
        margin: Some(s(0.00001)),
    };
    physics.submit(floor);
    let pending = scene.begin_update(&primary, &idle(at(0.0, 0.0, 0.0)), &Vec::new(), &mut physics);
    assert_eq!(scene.len(), 2);
    assert_eq!(pending.len(), 2);
    assert_eq!(pending[0].token, Token { index: 1 });
    assert_eq!(pending[1].token, Token { index: 2 });
    assert_eq!(physics.len(), 3);
    assert_eq!(physics.body(Token { index: 0 }), Some(floor));
    assert_eq!(physics.body(pending[0].token), Some(scene.block(0).unwrap().object.body));
    assert_eq!(physics.body(pending[1].token), Some(scene.block(1).unwrap().object.body));
    assert_eq!(physics.pull(), vector(0.0, -9.81, 0.0));

    let resolved = step(&physics);
    scene.finish(&pending, &resolved, &Vec::new(), &primary);
    assert_eq!(f(scene.block(0).unwrap().object.body.pose.translation.x), 1.0);
    assert_eq!(f(scene.block(0).unwrap().object.body.pose.translation.y), 1.0 - 0.25 - 0.25);
    assert_eq!(f(scene.block(1).unwrap().object.body.pose.translation.x), 2.0);
}

#[test]
fn block_is_taken_carried_and_thrown() {
    let mut scene = Snowflakes::new(SNOWMAN, BLOCK);
    let rest = idle(at(0.0, 0.0, 0.0));
    quiet_frame(&mut scene, &rest, &sample(at(1.0, 1.0, 1.0), 0.8, 0.2));
    quiet_frame(&mut scene, &rest, &sample(at(2.0, 2.0, 2.0), 0.8, 0.2));
    quiet_frame(&mut scene, &rest, &rest);
    assert_eq!(scene.len(), 2);

    let hand = sample(at(0.0, 1.0, 0.0), 0.9, 0.1);
    let offset = at(0.0, 0.0, -0.5);
    let contacts = vec![Contact::none(), Contact { hit: true, relative: offset }];
    let mut physics = PhysicsGuru::new(vector(0.0, -9.81, 0.0));
    let pending = scene.begin_update(&hand, &rest, &contacts, &mut physics);
    assert_eq!(pending[0].next, GrabState::Free);
    assert_eq!(pending[0].offset(), None);
    assert_eq!(pending[1].next, GrabState::Held { offset });
    assert_eq!(pending[1].offset(), Some(offset));
    let resolved = step(&physics);
    let carried = vec![at(50.0, 50.0, 50.0), at(0.0, 1.0, -0.5)];
    let draws = scene.finish(&pending, &resolved, &carried, &hand);
    assert_eq!(scene.block(0).unwrap().object.grab, GrabState::Free);
    assert_ne!(scene.block(0).unwrap().object.body.pose, at(50.0, 50.0, 50.0));
    assert_eq!(scene.block(1).unwrap().object.grab, GrabState::Held { offset });
    assert_eq!(scene.block(1).unwrap().object.body.pose, at(0.0, 1.0, -0.5));
    assert_eq!(scene.block(1).unwrap().object.body.velocity, hand.velocity);
    assert_eq!(draws[1], DrawCommand { mesh: BLOCK, pose: at(0.0, 1.0, -0.5) });
    assert_eq!(draws[2], DrawCommand { mesh: BLOCK, pose: at(0.0, 1.0, 0.0) });

    let moved = sample(at(3.0, 1.0, 0.0), 0.9, 0.9);
    let mut physics = PhysicsGuru::new(vector(0.0, -9.81, 0.0));
    let pending = scene.begin_update(&moved, &rest, &Vec::new(), &mut physics);
    let resolved = step(&physics);
    scene.finish(&pending, &resolved, &vec![at(0.0, 0.0, 0.0), at(3.0, 1.0, -0.5)], &moved);
    assert_eq!(scene.block(1).unwrap().object.grab, GrabState::Held { offset });
    assert_eq!(scene.block(1).unwrap().object.body.pose, at(3.0, 1.0, -0.5));

    let open = sample(at(3.0, 1.0, 0.0), 0.2, 0.9);
    let mut physics = PhysicsGuru::new(vector(0.0, -9.81, 0.0));
    let pending = scene.begin_update(&open, &rest, &Vec::new(), &mut physics);
    let resolved = step(&physics);
    scene.finish(&pending, &resolved, &Vec::new(), &open);
    let thrown = scene.block(1).unwrap().object;
    assert_eq!(thrown.grab, GrabState::Free);
    assert_eq!(thrown.body.velocity.linear, vector(0.5, 0.25, 0.125));
    assert_eq!(thrown.body.velocity.angular, vector(1.0, 2.0, 4.0));
    assert_eq!(thrown.body.pose, at(3.0, 1.0 - 0.25, -0.5));
}

#[test]
fn held_block_without_a_carried_pose_stays_where_it_was() {
    let mut scene = Snowflakes::new(SNOWMAN, BLOCK);
    let rest = idle(at(0.0, 0.0, 0.0));
    quiet_frame(&mut scene, &rest, &sample(at(1.0, 1.0, 1.0), 0.8, 0.2));
    quiet_frame(&mut scene, &rest, &rest);
    let before = scene.block(0).unwrap().object.body.pose;
    let hand = sample(at(0.0, 1.0, 0.0), 0.9, 0.1);
    let mut physics = PhysicsGuru::new(vector(0.0, -9.81, 0.0));
    let contacts = vec![Contact { hit: true, relative: at(0.0, 0.0, -0.5) }];
    let pending = scene.begin_update(&hand, &rest, &contacts, &mut physics);
    let resolved = step(&physics);
    scene.finish(&pending, &resolved, &Vec::new(), &hand);
    assert_eq!(scene.block(0).unwrap().object.grab, GrabState::Held { offset: at(0.0, 0.0, -0.5) });
    assert_eq!(scene.block(0).unwrap().object.body.pose, before);
}

#[test]
fn block_without_a_proposal_is_drawn_where_it_is() {
    let mut scene = Snowflakes::new(SNOWMAN, BLOCK);
    let rest = idle(at(0.0, 0.0, 0.0));
    quiet_frame(&mut scene, &rest, &sample(at(1.0, 1.0, 1.0), 0.8, 0.2));
    quiet_frame(&mut scene, &rest, &sample(at(2.0, 2.0, 2.0), 0.8, 0.2));
    quiet_frame(&mut scene, &rest, &rest);
    let first = scene.block(0).unwrap();
    let second = scene.block(1).unwrap();
    let mut physics = PhysicsGuru::new(vector(0.0, -9.81, 0.0));
    let mut pending = scene.begin_update(&rest, &rest, &Vec::new(), &mut physics);
    let resolved = step(&physics);
    pending.truncate(1);
    let draws = scene.finish(&pending, &resolved, &Vec::new(), &rest);
    assert_ne!(scene.block(0).unwrap(), first);
    assert_eq!(scene.block(1).unwrap(), second);
    assert_eq!(draws.len(), 3);
    assert_eq!(draws[1], DrawCommand { mesh: BLOCK, pose: second.object.body.pose });
}

#[test]
fn malformed_trigger_spawns_nothing() {
    let primary = idle(at(0.0, 0.0, 0.0));
    for x in [f32::INFINITY, 1.0000001, 2.0, -0.1, f32::NEG_INFINITY, f32::NAN] {
        let mut scene = Snowflakes::new(SNOWMAN, BLOCK);
        quiet_frame(&mut scene, &primary, &sample(at(0.0, 1.0, 0.0), x, 0.3));
        quiet_frame(&mut scene, &primary, &sample(at(0.0, 1.0, 0.0), 0.8, x));
        quiet_frame(&mut scene, &primary, &sample(at(0.0, 1.0, 0.0), x, x));
        assert_eq!(scene.len() + scene.staged_len(), 0, "{x}");
    }
}

#[test]
fn infinite_reading_on_the_spawning_controller_spawns_nothing() {
    let mut guru = PoseGuru::new();
    let mut scene = Snowflakes::new(SNOWMAN, BLOCK);
    for trigger in [0.3f32, f32::INFINITY, 0.3] {
        guru.refresh(
            ControllerId::Secondary,
            Some(ControllerReading { pose: at(0.0, 1.0, 0.0), velocity: Velocity::at_rest(), trigger: s(trigger) }),
        );
        let primary = guru.sample(ControllerId::Primary);
        let spawner = guru.sample(ControllerId::Secondary);
        quiet_frame(&mut scene, &primary, &spawner);
        assert_eq!(scene.len() + scene.staged_len(), 0);
    }
}

#[test]
fn pointed_block_is_not_taken_on_a_malformed_trigger() {
    for (x, before) in [(f32::INFINITY, 0.3f32), (2.0, 0.3), (f32::NAN, 0.3), (0.9, f32::NEG_INFINITY), (0.9, -0.5), (0.9, f32::NAN)] {
        let mut block = Snowblock::spawn(&idle(at(1.0, 1.0, 1.0)));
        let hand = sample(at(0.0, 1.0, 0.0), x, before);
        let mut physics = PhysicsGuru::new(vector(0.0, -9.81, 0.0));
        let contact = Contact { hit: true, relative: at(0.0, 0.0, -0.5) };
        let pending = block.begin_update(&hand, &contact, &mut physics);
        assert_eq!(pending.next, GrabState::Pointed);
        assert_eq!(pending.handover, None);
        let resolved = step(&physics);
        let draw = block.finish(&pending, &resolved, at(0.0, 1.0, -0.5), BLOCK);
        assert_eq!(block.object.grab, GrabState::Pointed);
        assert_eq!(draw.pose, at(1.0, 1.0 - 0.25, 1.0));
        assert_eq!(block.object.body.pose, draw.pose);
    }
}
