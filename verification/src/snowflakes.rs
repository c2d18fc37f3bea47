//! The snow scene: blocks of snow that the secondary controller spawns and
//! the primary controller picks up and throws.

use vstd::prelude::*;
use crate::controller::{threshold, well_formed, ControllerSample};
use crate::draw::{DrawCommand, MeshHandle};
use crate::grab::{Contact, GrabState};
use crate::object::{Frame, ObjectController, Pending};
use crate::physics::{lookup, PhysicsGuru, Resolved, RigidBody, Shape, Solid, Token};
use crate::pose::{Pose, Vector};
use crate::scalar::Scalar;

verus! {

/// The bits of 0.15, half the width and half the height of a block.
pub const BLOCK_HALF_WIDTH_BITS: u32 = 0x3E19_999A;

/// The bits of 0.3, half the length of a block.
pub const BLOCK_HALF_LENGTH_BITS: u32 = 0x3E99_999A;

/// The bits of 100.0, the density of a block.
pub const BLOCK_DENSITY_BITS: u32 = 0x42C8_0000;

/// The bits of 0.0: a block does not bounce.
pub const BLOCK_RESTITUTION_BITS: u32 = 0x0000_0000;

/// The bits of 0.8, the friction of a block.
pub const BLOCK_FRICTION_BITS: u32 = 0x3F4C_CCCD;

/// The bits of 0.00001, the collision margin of a block: thin, so that
/// blocks at rest on each other do not jitter.
pub const BLOCK_MARGIN_BITS: u32 = 0x3727_C5AC;

/// One block of snow.
#[derive(Clone, Copy, Debug, PartialEq, Eq, Structural)]
pub struct Snowblock {
    pub object: ObjectController,
}

impl Snowblock {
    /// The shape of every block.
    pub open spec fn shape() -> Shape {
        Shape::Single {
            solid: Solid::Cuboid {
                half_extents: Vector::of(
                    BLOCK_HALF_WIDTH_BITS,
                    BLOCK_HALF_WIDTH_BITS,
                    BLOCK_HALF_LENGTH_BITS,
                ),
            },
        }
    }

    /// The block that a controller spawns: free, at the controller's pose
    /// and with the controller's velocity.
    pub open spec fn spawned(sample: ControllerSample) -> Snowblock {
        Snowblock {
            object: ObjectController {
                body: RigidBody {
                    pose: sample.pose,
                    velocity: sample.velocity,
                    shape: Snowblock::shape(),
                    density: Scalar { bits: BLOCK_DENSITY_BITS },
                    restitution: Scalar { bits: BLOCK_RESTITUTION_BITS },
                    friction: Scalar { bits: BLOCK_FRICTION_BITS },
                    margin: Some(Scalar { bits: BLOCK_MARGIN_BITS }),
                },
                grab: GrabState::Free,
            },
        }
    }

    /// Makes the block that a controller spawns.
    pub fn spawn(sample: &ControllerSample) -> (block: Snowblock)
        ensures
            block == Snowblock::spawned(*sample),
    {
        let body = RigidBody {
            pose: sample.pose,
            velocity: sample.velocity,
            shape: Shape::Single {
                solid: Solid::Cuboid {
                    half_extents: Vector::from_bits(
                        BLOCK_HALF_WIDTH_BITS,
                        BLOCK_HALF_WIDTH_BITS,
                        BLOCK_HALF_LENGTH_BITS,
                    ),
                },
            },
            density: Scalar { bits: BLOCK_DENSITY_BITS },
            restitution: Scalar { bits: BLOCK_RESTITUTION_BITS },
            friction: Scalar { bits: BLOCK_FRICTION_BITS },
            margin: Some(Scalar { bits: BLOCK_MARGIN_BITS }),
        };
        Snowblock { object: ObjectController::new_free(body) }
    }

    /// First phase of the block's update: submits its body and proposes
    /// its next state.
    pub fn begin_update(
        &self,
        sample: &ControllerSample,
        contact: &Contact,
        physics: &mut PhysicsGuru,
    ) -> (pending: Pending)
        ensures
            pending == self.object.pending(*sample, *contact, pending.token),
            pending.token.index == old(physics).submitted().len(),
            final(physics).submitted() == old(physics).submitted().push(self.object.body),
            final(physics).gravity() == old(physics).gravity(),
    {
        self.object.begin_update(sample, contact, physics)
    }

    /// Second phase of the block's update: settles the block and says
    /// where to draw it.
    pub fn finish(
        &mut self,
        pending: &Pending,
        resolved: &Resolved,
        carried: Pose,
        mesh: MeshHandle,
    ) -> (draw: DrawCommand)
        ensures
            final(self).object == old(self).object.settled(
                *pending,
                lookup(resolved.bodies(), pending.token),
                carried,
            ),
            draw == (DrawCommand { mesh, pose: final(self).object.body.pose }),
    {
        let pose = self.object.finish(pending, resolved, carried);
        DrawCommand { mesh, pose }
    }
}

/// The contact of the block at place `i`: the one given for it, or none.
pub open spec fn contact_at(contacts: Seq<Contact>, i: int) -> Contact {
    if 0 <= i < contacts.len() {
        contacts[i]
    } else {
        Contact::absent()
    }
}

/// The pose for carrying the block at place `i`: the one given for it, or
/// the pose the block has.
pub open spec fn carried_at(carried: Seq<Pose>, blocks: Seq<Snowblock>, i: int) -> Pose {
    if 0 <= i < carried.len() {
        carried[i]
    } else {
        blocks[i].object.body.pose
    }
}

/// What the blocks propose in a frame, block by block in their order. The
/// batch holds `base` bodies before the first block submits its own.
pub open spec fn proposals(
    blocks: Seq<Snowblock>,
    primary: ControllerSample,
    contacts: Seq<Contact>,
    base: nat,
) -> Seq<Pending> {
    Seq::new(
        blocks.len(),
        |i: int|
            blocks[i].object.pending(
                primary,
                contact_at(contacts, i),
                Token { index: (base + i) as usize },
            ),
    )
}

/// The bodies of the blocks, in their order.
pub open spec fn bodies_of(blocks: Seq<Snowblock>) -> Seq<RigidBody> {
    Seq::new(blocks.len(), |i: int| blocks[i].object.body)
}

/// The blocks after a frame: each settles on what it proposed, and a block
/// that proposed nothing stays as it is.
pub open spec fn settled_blocks(
    blocks: Seq<Snowblock>,
    pending: Seq<Pending>,
    stepped: Seq<RigidBody>,
    carried: Seq<Pose>,
) -> Seq<Snowblock> {
    Seq::new(
        blocks.len(),
        |i: int|
            if i < pending.len() {
                Snowblock {
                    object: blocks[i].object.settled(
                        pending[i],
                        lookup(stepped, pending[i].token),
                        carried_at(carried, blocks, i),
                    ),
                }
            } else {
                blocks[i]
            },
    )
}

/// What a frame draws: every block where its body is, in the blocks'
/// order, and after them one more block at the cursor.
pub open spec fn drawn(blocks: Seq<Snowblock>, mesh: MeshHandle, cursor: Pose) -> Seq<DrawCommand> {
    Seq::new(
        blocks.len() + 1,
        |i: int|
            if i < blocks.len() {
                DrawCommand { mesh, pose: blocks[i].object.body.pose }
            } else {
                DrawCommand { mesh, pose: cursor }
            },
    )
}

/// The blocks a spawning controller adds in a frame: one when its trigger
/// crosses the threshold, none otherwise.
pub open spec fn spawns(spawner: ControllerSample) -> Seq<Snowblock> {
    if spawner.rising() {
        seq![Snowblock::spawned(spawner)]
    } else {
        Seq::empty()
    }
}

/// The scene as contracts see it.
pub struct SnowflakesView {
    /// The blocks that take part in a frame's update, oldest first.
    pub blocks: Seq<Snowblock>,
    /// The blocks spawned since the last update began. They join `blocks`
    /// when the next update begins.
    pub staged: Seq<Snowblock>,
    pub snowman: MeshHandle,
    pub snow_block: MeshHandle,
}

impl SnowflakesView {
    /// The scene once a frame's update has begun: the staged blocks have
    /// joined the others, behind them, and what the frame spawns is staged.
    pub open spec fn begun(self, spawner: ControllerSample) -> SnowflakesView {
        SnowflakesView { blocks: self.blocks + self.staged, staged: spawns(spawner), ..self }
    }

    /// The scene once a frame's update is finished.
    pub open spec fn finished(
        self,
        pending: Seq<Pending>,
        stepped: Seq<RigidBody>,
        carried: Seq<Pose>,
    ) -> SnowflakesView {
        SnowflakesView { blocks: settled_blocks(self.blocks, pending, stepped, carried), ..self }
    }
}

/// The snow scene.
pub struct Snowflakes {
    blocks: Vec<Snowblock>,
    new_blocks: Vec<Snowblock>,
    snowman: MeshHandle,
    snow_block: MeshHandle,
}

impl View for Snowflakes {
    type V = SnowflakesView;

    closed spec fn view(&self) -> SnowflakesView {
        SnowflakesView {
            blocks: self.blocks@,
            staged: self.new_blocks@,
            snowman: self.snowman,
            snow_block: self.snow_block,
        }
    }
}

impl Snowflakes {
    /// An empty scene that draws with the given meshes.
    pub fn new(snowman: MeshHandle, snow_block: MeshHandle) -> (scene: Snowflakes)
        ensures
            scene@.blocks == Seq::<Snowblock>::empty(),
            scene@.staged == Seq::<Snowblock>::empty(),
            scene@.snowman == snowman,
            scene@.snow_block == snow_block,
    {
        Snowflakes { blocks: Vec::new(), new_blocks: Vec::new(), snowman, snow_block }
    }

    /// How many blocks take part in updates.
    pub fn len(&self) -> (n: usize)
        ensures
            n == self@.blocks.len(),
    {
        self.blocks.len()
    }

    /// How many blocks wait for the next update to begin.
    pub fn staged_len(&self) -> (n: usize)
        ensures
            n == self@.staged.len(),
    {
        self.new_blocks.len()
    }

    /// The block at place `i`, counted from the oldest.
    pub fn block(&self, i: usize) -> (b: Option<Snowblock>)
        ensures
            b == if i < self@.blocks.len() {
                Some(self@.blocks[i as int])
            } else {
                None
            },
    {
        if i < self.blocks.len() {
            Some(self.blocks[i])
        } else {
            None
        }
    }

    /// The waiting block at place `i`.
    pub fn staged_block(&self, i: usize) -> (b: Option<Snowblock>)
        ensures
            b == if i < self@.staged.len() {
                Some(self@.staged[i as int])
            } else {
                None
            },
    {
        if i < self.new_blocks.len() {
            Some(self.new_blocks[i])
        } else {
            None
        }
    }

    /// The mesh of a block.
    pub fn snow_block(&self) -> (m: MeshHandle)
        ensures
            m == self@.snow_block,
    {
        self.snow_block
    }

    /// The mesh of the snowman.
    pub fn snowman(&self) -> (m: MeshHandle)
        ensures
            m == self@.snowman,
    {
        self.snowman
    }

    /// First phase of a frame.
    ///
    /// The blocks staged by the frame before join the others. The spawning
    /// controller stages a new block if its trigger crossed the threshold;
    /// that block takes no part in this frame. Then every block, oldest
    /// first, submits its body and proposes its next state against the
    /// primary controller. `contacts` holds the contact of each block with
    /// the primary controller, in the blocks' order once the staged ones
    /// have joined; a block without one counts as not pointed at.
    pub fn begin_update(
        &mut self,
        primary: &ControllerSample,
        spawner: &ControllerSample,
        contacts: &Vec<Contact>,
        physics: &mut PhysicsGuru,
    ) -> (pending: Vec<Pending>)
        ensures
            final(self)@ == old(self)@.begun(*spawner),
            pending@ == proposals(
                final(self)@.blocks,
                *primary,
                contacts@,
                old(physics).submitted().len(),
            ),
            final(physics).submitted() == old(physics).submitted() + bodies_of(final(self)@.blocks),
            final(physics).gravity() == old(physics).gravity(),
    {
        self.blocks.append(&mut self.new_blocks);
        if spawner.is_rising() {
            self.new_blocks.push(Snowblock::spawn(spawner));
        }
        assert(self@ == old(self)@.begun(*spawner)) by {
            assert(self.new_blocks@ =~= spawns(*spawner));
        }
        let ghost before = physics.submitted();
        let n: usize = self.blocks.len();
        let mut pending: Vec<Pending> = Vec::new();
        let mut i: usize = 0;
        while i < n
            invariant
                i <= n,
                n == self.blocks@.len(),
                self@ == old(self)@.begun(*spawner),
                pending@.len() == i,
                forall|j: int|
                    0 <= j < i ==> pending@[j] == self.blocks@[j].object.pending(
                        *primary,
                        contact_at(contacts@, j),
                        Token { index: (before.len() + j) as usize },
                    ),
                physics.submitted().len() == before.len() + i,
                forall|j: int| 0 <= j < before.len() ==> physics.submitted()[j] == before[j],
                forall|j: int|
                    0 <= j < i ==> physics.submitted()[before.len() + j]
                        == self.blocks@[j].object.body,
                physics.gravity() == old(physics).gravity(),
            decreases n - i,
        {
            let contact = if i < contacts.len() {
                contacts[i]
            } else {
                Contact::none()
            };
            let p = self.blocks[i].begin_update(primary, &contact, physics);
            pending.push(p);
            i = i + 1;
        }
        assert(pending@ =~= proposals(self@.blocks, *primary, contacts@, before.len()));
        assert(physics.submitted() =~= before + bodies_of(self@.blocks));
        pending
    }

    /// Second phase of a frame, after the physics step.
    ///
    /// Every block, oldest first, settles on what it proposed: it takes
    /// its stepped body from `resolved`, and if it is held it is put at its
    /// place in `carried`, the primary controller's pose followed by the
    /// block's offset. A held block without a place in `carried` stays
    /// where it was. The result says what to draw: each block where its
    /// body now is, then one more block at the primary controller.
    pub fn finish(
        &mut self,
        pending: &Vec<Pending>,
        resolved: &Resolved,
        carried: &Vec<Pose>,
        primary: &ControllerSample,
    ) -> (draws: Vec<DrawCommand>)
        ensures
            final(self)@ == old(self)@.finished(pending@, resolved.bodies(), carried@),
            draws@ == drawn(final(self)@.blocks, final(self)@.snow_block, primary.pose),
    {
        let n: usize = self.blocks.len();
        let mesh = self.snow_block;
        let mut draws: Vec<DrawCommand> = Vec::new();
        let mut i: usize = 0;
        while i < n
            invariant
                i <= n,
                n == self.blocks@.len(),
                n == old(self)@.blocks.len(),
                self.new_blocks@ == old(self).new_blocks@,
                self.snowman == old(self).snowman,
                self.snow_block == old(self).snow_block,
                mesh == self.snow_block,
                forall|j: int|
                    0 <= j < i ==> self.blocks@[j] == settled_blocks(
                        old(self)@.blocks,
                        pending@,
                        resolved.bodies(),
                        carried@,
                    )[j],
                forall|j: int| i <= j < n ==> self.blocks@[j] == old(self)@.blocks[j],
                draws@.len() == i,
                forall|j: int|
                    0 <= j < i ==> draws@[j] == (DrawCommand {
                        mesh,
                        pose: self.blocks@[j].object.body.pose,
                    }),
            decreases n - i,
        {
            let mut block = self.blocks[i];
            if i < pending.len() {
                let place = if i < carried.len() {
                    carried[i]
                } else {
                    block.object.body.pose
                };
                let draw = block.finish(&pending[i], resolved, place, mesh);
                self.blocks.set(i, block);
                draws.push(draw);
            } else {
                draws.push(DrawCommand { mesh, pose: block.object.body.pose });
            }
            i = i + 1;
        }
        draws.push(DrawCommand { mesh, pose: primary.pose });
        assert(self.blocks@ =~= settled_blocks(
            old(self)@.blocks,
            pending@,
            resolved.bodies(),
            carried@,
        ));
        assert(draws@ =~= drawn(self@.blocks, mesh, primary.pose));
        draws
    }
}

/// What a frame brings to the block at place `i`.
pub open spec fn frame_at(
    blocks: Seq<Snowblock>,
    primary: ControllerSample,
    contacts: Seq<Contact>,
    base: nat,
    stepped: Seq<RigidBody>,
    carried: Seq<Pose>,
    i: int,
) -> Frame {
    Frame {
        sample: primary,
        contact: contact_at(contacts, i),
        stepped: lookup(stepped, Token { index: (base + i) as usize }),
        carried: carried_at(carried, blocks, i),
    }
}

/// In a frame every block settles on what the frame brings to it alone:
/// the controller's snapshot, its own contact, its own stepped body and its
/// own place in the controller's hand. No other block has a say.
pub proof fn lemma_blocks_settle_each_for_itself(
    blocks: Seq<Snowblock>,
    primary: ControllerSample,
    contacts: Seq<Contact>,
    base: nat,
    stepped: Seq<RigidBody>,
    carried: Seq<Pose>,
    i: int,
)
    requires
        0 <= i < blocks.len(),
    ensures
        settled_blocks(
            blocks,
            proposals(blocks, primary, contacts, base),
            stepped,
            carried,
        )[i].object == blocks[i].object.after(
            frame_at(blocks, primary, contacts, base, stepped, carried, i),
        ),
{
}

/// Every block of a frame has a body of its own in the batch: no two
/// blocks get the same token, and a block's token names the body that the
/// block submitted.
pub proof fn lemma_each_block_has_its_own_body(
    blocks: Seq<Snowblock>,
    primary: ControllerSample,
    contacts: Seq<Contact>,
    before: Seq<RigidBody>,
    i: int,
    j: int,
)
    requires
        before.len() + blocks.len() <= usize::MAX,
        0 <= i < blocks.len(),
        0 <= j < blocks.len(),
    ensures
        i != j ==> proposals(blocks, primary, contacts, before.len())[i].token != proposals(
            blocks,
            primary,
            contacts,
            before.len(),
        )[j].token,
        lookup(
            before + bodies_of(blocks),
            proposals(blocks, primary, contacts, before.len())[i].token,
        ) == Some(blocks[i].object.body),
{
}

/// A controller spawns in the frame in which its trigger crosses the
/// threshold, and in no other: not while the trigger stays pulled, not
/// when it opens, and not where the trigger's value, now or one frame
/// earlier, is malformed.
pub proof fn lemma_spawn_on_rising_edge_only(spawner: ControllerSample)
    ensures
        spawner.rising() ==> spawns(spawner) == seq![Snowblock::spawned(spawner)],
        !spawner.rising() ==> spawns(spawner).len() == 0,
        threshold().less(spawner.trigger_before) ==> spawns(spawner).len() == 0,
        spawner.trigger.at_most(threshold()) ==> spawns(spawner).len() == 0,
        !well_formed(spawner.trigger) ==> spawns(spawner).len() == 0,
        !well_formed(spawner.trigger_before) ==> spawns(spawner).len() == 0,
{
}

/// A block spawned in a frame takes no part in that frame. The frame
/// visits the blocks there were, those staged by the frame before
/// included, and leaves the new block staged and untouched; the frame
/// after visits it as the last of its blocks.
pub proof fn lemma_spawned_block_waits_one_frame(
    scene: SnowflakesView,
    spawner: ControllerSample,
    primary: ControllerSample,
    contacts: Seq<Contact>,
    base: nat,
    pending: Seq<Pending>,
    stepped: Seq<RigidBody>,
    carried: Seq<Pose>,
    next_spawner: ControllerSample,
)
    requires
        spawner.rising(),
    ensures
        scene.begun(spawner).blocks == scene.blocks + scene.staged,
        scene.begun(spawner).staged == seq![Snowblock::spawned(spawner)],
        proposals(scene.begun(spawner).blocks, primary, contacts, base).len() == scene.blocks.len()
            + scene.staged.len(),
        scene.begun(spawner).finished(pending, stepped, carried).staged == seq![
            Snowblock::spawned(spawner),
        ],
        scene.begun(spawner).finished(pending, stepped, carried).blocks.len() == scene.blocks.len()
            + scene.staged.len(),
        scene.begun(spawner).finished(pending, stepped, carried).begun(next_spawner).blocks.len()
            == scene.blocks.len() + scene.staged.len() + 1,
        scene.begun(spawner).finished(pending, stepped, carried).begun(next_spawner).blocks.last()
            == Snowblock::spawned(spawner),
{
}

} // verus!
