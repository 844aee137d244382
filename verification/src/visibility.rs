//! Which entities a view sees.

use vstd::prelude::*;
use bevy_ecs::entity::Entity;

verus! {

/// `bevy_ecs::entity::Entity`, the identity of an entity of the world. It
/// is carried through as it is: nothing here looks inside one, and nothing
/// is claimed of it.
#[verifier::external_type_specification]
#[verifier::external_body]
pub struct ExEntity(Entity);

/// Whether the user wants an entity to be seen.
#[derive(Clone, Copy, Debug, PartialEq, Eq, Hash, Structural)]
pub struct Visibility {
    pub is_visible: bool,
}

impl Default for Visibility {
    fn default() -> (visibility: Self)
        ensures
            visibility.is_visible == true,
    {
        Visibility { is_visible: true }
    }
}

/// Whether an entity is seen by some view and is to be rendered.
#[derive(Clone, Copy, Debug, PartialEq, Eq, Hash, Structural)]
pub struct ComputedVisibility {
    pub is_visible: bool,
}

impl Default for ComputedVisibility {
    fn default() -> (visibility: Self)
        ensures
            visibility.is_visible == true,
    {
        ComputedVisibility { is_visible: true }
    }
}

/// Marks an entity that is not to be culled by the frustum of the view.
#[derive(Clone, Copy, Debug, Default)]
pub struct NoFrustumCulling;

/// The entities that a view sees.
pub struct VisibleEntities {
    pub entities: Vec<Entity>,
}

impl VisibleEntities {
    pub fn len(&self) -> (n: usize)
        ensures
            n == self.entities@.len(),
    {
        self.entities.len()
    }

    pub fn is_empty(&self) -> (empty: bool)
        ensures
            empty == (self.entities@.len() == 0),
    {
        self.entities.len() == 0
    }

    /// The entity at `index`.
    pub fn get(&self, index: usize) -> (entity: Option<&Entity>)
        ensures
            index < self.entities@.len() ==> entity == Some(&self.entities@[index as int]),
            index >= self.entities@.len() ==> entity is None,
    {
        if index < self.entities.len() {
            Some(&self.entities[index])
        } else {
            None
        }
    }
}

/// The layers that a view renders or an entity belongs to, one bit for
/// each layer.
#[derive(Clone, Copy, Debug, PartialEq, Eq, Hash, Structural)]
pub struct RenderLayers(pub u32);

impl Default for RenderLayers {
    /// The first layer alone.
    fn default() -> (layers: Self)
        ensures
            layers == RenderLayers(1),
    {
        RenderLayers(1)
    }
}

impl RenderLayers {
    /// Whether the two have a layer in common.
    pub open spec fn spec_intersects(self, other: RenderLayers) -> bool {
        self.0 & other.0 != 0
    }

    pub fn intersects(&self, other: &RenderLayers) -> (common: bool)
        ensures
            common == self.spec_intersects(*other),
    {
        (self.0 & other.0) != 0
    }
}

/// The layers of a view or an entity that may have none set: the first
/// layer then.
pub open spec fn spec_layers_or_default(layers: Option<RenderLayers>) -> RenderLayers {
    match layers {
        Some(layers) => layers,
        None => RenderLayers(1),
    }
}

/// What the tests of an entity against the frustum of a view have found.
#[derive(Clone, Copy, Debug, PartialEq, Eq, Hash, Structural)]
pub struct FrustumTests {
    /// Whether the sphere around the entity meets the frustum.
    pub intersects_sphere: bool,
    /// Whether the oriented bounding box of the entity meets the frustum.
    pub intersects_obb: bool,
}

/// Whether an entity is tested against the frustum: it has a bounding box
/// and a transform and is not exempt from culling.
pub fn is_frustum_culled(has_aabb: bool, no_frustum_culling: bool, has_transform: bool) -> (culled:
    bool)
    ensures
        culled == (has_aabb && !no_frustum_culling && has_transform),
{
    has_aabb && !no_frustum_culling && has_transform
}

/// Whether a view sees an entity: the user wants it seen, the view
/// renders a layer that the entity belongs to, and, if the entity is
/// tested against the frustum, both its sphere and its box meet it.
pub open spec fn spec_entity_is_visible(
    visibility: Visibility,
    view_mask: Option<RenderLayers>,
    entity_mask: Option<RenderLayers>,
    frustum_tests: Option<FrustumTests>,
) -> bool {
    &&& visibility.is_visible
    &&& spec_layers_or_default(view_mask).spec_intersects(spec_layers_or_default(entity_mask))
    &&& frustum_tests is Some ==> frustum_tests->Some_0.intersects_sphere
        && frustum_tests->Some_0.intersects_obb
}

/// Decides whether a view sees an entity and records the decision in
/// `computed_visibility`. `frustum_tests` is `None` for an entity that is
/// not tested against the frustum.
pub fn check_visibility(
    visibility: &Visibility,
    computed_visibility: &mut ComputedVisibility,
    view_mask: Option<RenderLayers>,
    entity_mask: Option<RenderLayers>,
    frustum_tests: Option<FrustumTests>,
) -> (visible: bool)
    ensures
        visible == spec_entity_is_visible(*visibility, view_mask, entity_mask, frustum_tests),
        final(computed_visibility).is_visible == visible,
{
    computed_visibility.is_visible = false;
    if !visibility.is_visible {
        return false;
    }
    let view_mask = match view_mask {
        Some(mask) => mask,
        None => RenderLayers::default(),
    };
    let entity_mask = match entity_mask {
        Some(mask) => mask,
        None => RenderLayers::default(),
    };
    if !view_mask.intersects(&entity_mask) {
        return false;
    }
    match frustum_tests {
        Some(tests) => {
            if !tests.intersects_sphere {
                return false;
            }
            if !tests.intersects_obb {
                return false;
            }
        },
        None => {},
    }
    computed_visibility.is_visible = true;
    true
}

} // verus!
