use bevy_ecs::entity::Entity;
use sky_atmosphere::visibility::{
    check_visibility, is_frustum_culled, ComputedVisibility, FrustumTests, RenderLayers,
    Visibility, VisibleEntities,
};

fn seen() -> Option<FrustumTests> {
    Some(FrustumTests { intersects_sphere: true, intersects_obb: true })
}

#[test]
fn visibility_defaults() {
    assert!(Visibility::default().is_visible);
    assert!(ComputedVisibility::default().is_visible);
    assert_eq!(RenderLayers::default(), RenderLayers(1));
}

#[test]
fn layers_intersect_if_they_share_a_bit() {
    assert!(RenderLayers(0b0110).intersects(&RenderLayers(0b0100)));
    assert!(!RenderLayers(0b0110).intersects(&RenderLayers(0b1001)));
    assert!(!RenderLayers(0).intersects(&RenderLayers(u32::MAX)));
    assert!(RenderLayers(1 << 31).intersects(&RenderLayers(u32::MAX)));
}

#[test]
fn entity_with_everything_in_view_is_visible() {
    let mut computed = ComputedVisibility { is_visible: false };
    assert!(check_visibility(&Visibility { is_visible: true }, &mut computed, None, None, seen()));
    assert!(computed.is_visible);
}

#[test]
fn hidden_entity_is_not_visible() {
    let mut computed = ComputedVisibility { is_visible: true };
    assert!(!check_visibility(&Visibility { is_visible: false }, &mut computed, None, None, seen()));
    assert!(!computed.is_visible);
}

#[test]
fn entity_on_another_layer_is_not_visible() {
    let visible = Visibility { is_visible: true };
    let mut computed = ComputedVisibility { is_visible: true };
    assert!(!check_visibility(&visible, &mut computed, Some(RenderLayers(2)), None, None));
    assert!(!computed.is_visible);
    assert!(!check_visibility(&visible, &mut computed, None, Some(RenderLayers(4)), None));
    assert!(check_visibility(&visible, &mut computed, Some(RenderLayers(6)), Some(RenderLayers(4)), None));
    assert!(computed.is_visible);
    assert!(check_visibility(&visible, &mut computed, Some(RenderLayers(3)), None, None));
}

#[test]
fn entity_outside_the_frustum_is_not_visible() {
    let visible = Visibility { is_visible: true };
    let mut computed = ComputedVisibility { is_visible: true };
    let outside_sphere = Some(FrustumTests { intersects_sphere: false, intersects_obb: true });
    let outside_box = Some(FrustumTests { intersects_sphere: true, intersects_obb: false });
    assert!(!check_visibility(&visible, &mut computed, None, None, outside_sphere));
    assert!(!computed.is_visible);
    computed.is_visible = true;
    assert!(!check_visibility(&visible, &mut computed, None, None, outside_box));
    assert!(!computed.is_visible);
}

#[test]
fn entity_without_tests_is_not_culled() {
    let mut computed = ComputedVisibility { is_visible: false };
    assert!(check_visibility(&Visibility { is_visible: true }, &mut computed, None, None, None));
    assert!(computed.is_visible);
}

#[test]
fn culling_needs_bounds_and_transform() {
    assert!(is_frustum_culled(true, false, true));
    assert!(!is_frustum_culled(false, false, true));
    assert!(!is_frustum_culled(true, true, true));
    assert!(!is_frustum_culled(true, false, false));
}

#[test]
fn visible_entities_by_index() {
    let first = Entity::from_raw(3);
    let second = Entity::from_raw(5);
    let entities = VisibleEntities { entities: vec![first, second] };
    assert_eq!(entities.len(), 2);
    assert!(!entities.is_empty());
    assert_eq!(entities.get(0), Some(&first));
    assert_eq!(entities.get(1), Some(&second));
    assert_eq!(entities.get(2), None);
    let none = VisibleEntities { entities: vec![] };
    assert_eq!(none.len(), 0);
    assert!(none.is_empty());
    assert_eq!(none.get(0), None);
}
