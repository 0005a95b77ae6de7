use vstd::prelude::*;

verus! {

/// A three-component vector of the `glam` crate; Verus sees nothing inside.
#[verifier::external_type_specification]
#[verifier::external_body]
pub struct ExVec3(glam::Vec3);

/// A rotation quaternion of the `glam` crate; Verus sees nothing inside.
#[verifier::external_type_specification]
#[verifier::external_body]
pub struct ExQuat(glam::Quat);

/// A 4x4 matrix of the `glam` crate; Verus sees nothing inside.
#[verifier::external_type_specification]
#[verifier::external_body]
pub struct ExMat4(glam::Mat4);

/// The entity store of the `hecs` crate.
#[verifier::external_type_specification]
#[verifier::external_body]
pub struct ExWorld(hecs::World);

/// An entity handle of the `hecs` crate.
#[verifier::external_type_specification]
#[verifier::external_body]
pub struct ExEntity(hecs::Entity);

/// The live entities of `world`, each keyed by its handle's bits
/// (`hecs::Entity::to_bits`) and mapped to the characters of its [`Name`]
/// component, or to `None` where it has none.
pub uninterp spec fn live_entities(world: hecs::World) -> Map<u64, Option<Seq<char>>>;

/// The [`Transform`] components of `world`: each live entity that has one,
/// keyed by its handle's bits, mapped to that component.
pub uninterp spec fn live_transforms(world: hecs::World) -> Map<u64, Transform>;

/// The number of components of each live entity of `world` (what
/// `hecs::EntityRef::len` gives), keyed by its handle's bits.
pub uninterp spec fn live_component_counts(world: hecs::World) -> Map<u64, nat>;

/// What holds of every hecs world under the model above: finitely many live
/// entities; transforms and component counts only for live entities, a count
/// for each; and each count at least the number of its name and transform
/// components.
pub open spec fn world_model_consistent(world: hecs::World) -> bool {
    &&& live_entities(world).dom().finite()
    &&& live_transforms(world).dom().subset_of(live_entities(world).dom())
    &&& live_component_counts(world).dom() == live_entities(world).dom()
    &&& forall|k: u64|
        #[trigger] live_component_counts(world).contains_key(k) ==> live_component_counts(world)[k]
            >= (if live_entities(world)[k] is Some { 1int } else { 0int }) + (if live_transforms(
            world,
        ).contains_key(k) { 1int } else { 0int })
}

/// The bits of an entity handle, `hecs::Entity::to_bits` (generation in the
/// high half, index in the low half); two handles are equal exactly when
/// their bits are.
pub uninterp spec fn entity_bits(entity: hecs::Entity) -> u64;

/// `hecs::World::new`: the new world holds no entity.
/// (It also bumps a process-wide world counter that panics only after 2^64
/// worlds; that is left unsaid.)
#[verifier::external_body]
fn world_new() -> (fresh: hecs::World)
    ensures
        live_entities(fresh).dom() == Set::<u64>::empty(),
        live_transforms(fresh).dom() == Set::<u64>::empty(),
        live_component_counts(fresh).dom() == Set::<u64>::empty(),
        world_model_consistent(fresh),
{
    hecs::World::new()
}

/// `hecs::World::spawn` with the bundle `(name, transform)`: it allocates an
/// entity handle that no live entity holds (a fresh index, or a freed index
/// whose generation was bumped when it was freed), gives it exactly these two
/// components and returns it; no other entity changes. The values of
/// components of other types are not modelled. hecs panics ("too many entities")
/// once 2^32 entity indices have been allocated; that machine limit is left
/// unsaid.
#[verifier::external_body]
fn world_spawn_named(world: &mut hecs::World, name: Name, transform: Transform) -> (entity: hecs::Entity)
    ensures
        world_model_consistent(*old(world)),
        world_model_consistent(*final(world)),
        !live_entities(*old(world)).dom().contains(entity_bits(entity)),
        live_entities(*final(world)) == live_entities(*old(world)).insert(entity_bits(entity), Some(name.0@)),
        live_transforms(*final(world)) == live_transforms(*old(world)).insert(entity_bits(entity), transform),
        live_component_counts(*final(world)) == live_component_counts(*old(world)).insert(entity_bits(entity), 2),
{
    world.spawn((name, transform))
}

/// `glam::Vec3::ZERO`. Nothing is stated of the value.
#[verifier::external_body]
fn vec3_zero() -> glam::Vec3 {
    glam::Vec3::ZERO
}

/// `glam::Vec3::ONE`. Nothing is stated of the value.
#[verifier::external_body]
fn vec3_one() -> glam::Vec3 {
    glam::Vec3::ONE
}

/// `glam::Quat::IDENTITY`. Nothing is stated of the value.
#[verifier::external_body]
fn quat_identity() -> glam::Quat {
    glam::Quat::IDENTITY
}

/// `glam::Mat4::from_scale_rotation_translation`: floating-point matrix
/// arithmetic of which nothing is stated.
#[verifier::external_body]
fn mat4_from_scale_rotation_translation(
    scale: glam::Vec3,
    rotation: glam::Quat,
    translation: glam::Vec3,
) -> glam::Mat4 {
    glam::Mat4::from_scale_rotation_translation(scale, rotation, translation)
}

/// Transform component: position, rotation and scale of an entity in 3D
/// space.
#[derive(Debug, Clone, Copy)]
pub struct Transform {
    pub position: glam::Vec3,
    pub rotation: glam::Quat,
    pub scale: glam::Vec3,
}

impl Default for Transform {
    /// The identity transform: at the origin, unrotated, unit scale.
    fn default() -> Self {
        Transform { position: vec3_zero(), rotation: quat_identity(), scale: vec3_one() }
    }
}

impl Transform {
    /// The identity transform moved to `position`.
    pub fn from_position(position: glam::Vec3) -> (t: Transform)
        ensures
            t.position == position,
    {
        let base = Transform::default();
        Transform { position, rotation: base.rotation, scale: base.scale }
    }

    /// The model matrix (local to world) of this transform: scale, then
    /// rotation, then translation.
    pub fn matrix(&self) -> glam::Mat4 {
        mat4_from_scale_rotation_translation(self.scale, self.rotation, self.position)
    }
}

/// Tag component giving an entity a human-readable name.
#[derive(Debug, Clone)]
pub struct Name(pub String);

/// The scene: the entity store that every object of the renderer lives in.
pub struct Scene {
    pub world: hecs::World,
}

impl Scene {
    /// The scene's live entities, keyed by entity handle bits, each with
    /// its name where it has one.
    pub open spec fn entities(&self) -> Map<u64, Option<Seq<char>>> {
        live_entities(self.world)
    }

    /// The scene's transform components, keyed by entity handle bits.
    pub open spec fn transforms(&self) -> Map<u64, Transform> {
        live_transforms(self.world)
    }

    /// The number of components of each live entity, keyed by handle bits.
    pub open spec fn component_counts(&self) -> Map<u64, nat> {
        live_component_counts(self.world)
    }

    /// An empty scene.
    pub fn new() -> (scene: Scene)
        ensures
            scene.entities().dom() == Set::<u64>::empty(),
            scene.transforms().dom() == Set::<u64>::empty(),
            scene.component_counts().dom() == Set::<u64>::empty(),
            world_model_consistent(scene.world),
    {
        Scene { world: world_new() }
    }

    /// Spawns an entity with the given name and transform and returns its
    /// handle: the scene gains exactly one entity, under the returned handle,
    /// which no live entity had, named `name`, carrying `transform` and no
    /// other component; every other entity keeps its name, its transform and
    /// its number of components.
    pub fn spawn_empty(&mut self, name: &str, transform: Transform) -> (entity: hecs::Entity)
        ensures
            !old(self).entities().dom().contains(entity_bits(entity)),
            final(self).entities() == old(self).entities().insert(entity_bits(entity), Some(name@)),
            final(self).transforms() == old(self).transforms().insert(entity_bits(entity), transform),
            !old(self).transforms().dom().contains(entity_bits(entity)),
            final(self).component_counts() == old(self).component_counts().insert(entity_bits(entity), 2),
            world_model_consistent(final(self).world),
            final(self).entities().dom().len() == old(self).entities().dom().len() + 1,
    {
        broadcast use vstd::string::group_string_axioms;

        let owned = name.to_string();
        assert(owned@ == name@);
        let ghost before = self.entities();
        let entity = world_spawn_named(&mut self.world, Name(owned), transform);
        proof {
            lemma_spawn_grows_scene(before, self.entities(), entity_bits(entity), name@);
        }
        entity
    }
}


/// Spawning never replaces an entity: every entity of the scene before a
/// spawn is still there with the same name, the new entity carries the given
/// name, and a finite scene stays finite and grows by exactly one entity.
pub proof fn lemma_spawn_grows_scene(
    before: Map<u64, Option<Seq<char>>>,
    after: Map<u64, Option<Seq<char>>>,
    key: u64,
    name: Seq<char>,
)
    requires
        before.dom().finite(),
        !before.dom().contains(key),
        after == before.insert(key, Some(name)),
    ensures
        after.dom().finite(),
        after.dom().len() == before.dom().len() + 1,
        forall|k: u64| #[trigger] before.dom().contains(k) ==> after.dom().contains(k) && after[k] == before[k],
        after.dom().contains(key) && after[key] == Some(name),
{
    assert(after.dom() == before.dom().insert(key));
}

/// Two successive spawns return distinct handles: the second handle was not
/// live after the first spawn, and the first one was.
pub proof fn lemma_successive_spawns_distinct(
    s0: Map<u64, Option<Seq<char>>>,
    s1: Map<u64, Option<Seq<char>>>,
    s2: Map<u64, Option<Seq<char>>>,
    k1: u64,
    k2: u64,
    name1: Seq<char>,
    name2: Seq<char>,
)
    requires
        !s0.dom().contains(k1),
        s1 == s0.insert(k1, Some(name1)),
        !s1.dom().contains(k2),
        s2 == s1.insert(k2, Some(name2)),
    ensures
        k1 != k2,
        s2[k1] == Some(name1),
        s2[k2] == Some(name2),
{
}

} // verus!
