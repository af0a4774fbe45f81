use render_core::math::{Mat4, Vector3};
use render_core::node::{
    update_hierarchy, Handle, ModelResource, Node, NodeBuilder, NodeKind, Transform,
};

#[test]
fn node_kind_ids_round_trip() {
    for id in 0u8..=5 {
        let kind = NodeKind::new(id).unwrap();
        assert_eq!(kind.id(), id);
    }
}

#[test]
fn node_kind_rejects_unknown_ids() {
    assert_eq!(NodeKind::new(6).unwrap_err(), "Invalid node kind 6");
    assert_eq!(NodeKind::new(42).unwrap_err(), "Invalid node kind 42");
    assert_eq!(NodeKind::new(255).unwrap_err(), "Invalid node kind 255");
}

#[test]
fn fresh_nodes_are_detached_and_visible() {
    let node = Node::new(NodeKind::Base);
    assert_eq!(node.get_name(), "");
    assert!(node.get_visibility());
    assert!(node.get_global_visibility());
    assert!(node.get_parent().is_none());
    assert!(node.get_children().is_empty());
    assert_eq!(*node.get_global_transform(), Mat4::identity());
    let by_default = Node::default();
    assert_eq!(by_default.get_kind().id(), 0);
}

#[test]
fn kind_predicates_match_the_variant() {
    let camera = Node::new(NodeKind::new(2).unwrap());
    assert!(camera.is_camera());
    assert!(!camera.is_mesh());
    let mesh = Node::new(NodeKind::new(3).unwrap());
    assert!(mesh.is_mesh());
    assert!(!mesh.is_light());
    let light = Node::new(NodeKind::new(1).unwrap());
    assert!(light.is_light());
    let sprite = Node::new(NodeKind::new(4).unwrap());
    assert!(sprite.is_sprite());
    let particles = Node::new(NodeKind::new(5).unwrap());
    assert!(particles.is_particle_system());
}

#[test]
fn make_copy_resets_the_hierarchy_links() {
    let mut node = Node::new(NodeKind::Base);
    node.set_name("rock");
    node.set_visibility(false);
    node.set_resource(ModelResource { id: 9 });
    node.add_child(Handle::new(4, 1));
    node.set_parent(Handle::new(2, 1));
    let template = Handle::new(7, 3);
    let copy = node.make_copy(template);
    assert_eq!(copy.get_name(), "rock");
    assert!(!copy.get_visibility());
    assert_eq!(copy.get_resource(), Some(ModelResource { id: 9 }));
    assert!(copy.get_children().is_empty());
    assert!(copy.get_parent().is_none());
    assert_eq!(copy.get_original_handle(), template);
}

#[test]
fn hierarchy_update_composes_transforms_top_down() {
    let mut root = Node::new(NodeKind::Base);
    *root.get_local_transform_mut() =
        Transform::from_matrix(Mat4::translation(Vector3::new(1, 2, 3)));

    let mut child = Node::new(NodeKind::Base);
    *child.get_local_transform_mut() =
        Transform::from_matrix(Mat4::translation(Vector3::new(10, 0, 0)));
    child.set_parent(Handle::new(0, 1));

    let mut grandchild = Node::new(NodeKind::Base);
    *grandchild.get_local_transform_mut() =
        Transform::from_matrix(Mat4::translation(Vector3::new(0, 5, 0)));
    grandchild.set_parent(Handle::new(1, 1));
    grandchild.set_visibility(false);

    let mut nodes = vec![root, child, grandchild];
    update_hierarchy(&mut nodes);

    // A root's global transform equals its local transform.
    assert_eq!(nodes[0].get_global_position(), Vector3::new(1, 2, 3));
    // Every other node composes its parent's global with its local.
    let expected_child = nodes[0]
        .get_global_transform()
        .mul(&nodes[1].get_local_transform().matrix());
    assert_eq!(*nodes[1].get_global_transform(), expected_child);
    assert_eq!(nodes[1].get_global_position(), Vector3::new(11, 2, 3));
    let expected_grandchild = nodes[1]
        .get_global_transform()
        .mul(&nodes[2].get_local_transform().matrix());
    assert_eq!(*nodes[2].get_global_transform(), expected_grandchild);
    assert_eq!(nodes[2].get_global_position(), Vector3::new(11, 7, 3));
    // Visibility propagates the same way.
    assert!(nodes[1].get_global_visibility());
    assert!(!nodes[2].get_global_visibility());
}

#[test]
fn basis_vector_accessors_read_the_global_transform() {
    let mut node = Node::new(NodeKind::Base);
    node.set_inv_bind_pose_transform(Mat4::translation(Vector3::new(4, 4, 4)));
    assert_eq!(node.get_inv_bind_pose_transform().m03, 4);
    assert_eq!(node.get_side_vector(), Vector3::new(1, 0, 0));
    assert_eq!(node.get_up_vector(), Vector3::new(0, 1, 0));
    assert_eq!(node.get_look_vector(), Vector3::new(0, 0, 1));
}

#[test]
fn node_builder_starts_with_only_the_kind() {
    let builder = NodeBuilder::new(NodeKind::Base);
    assert!(builder.name.is_none());
    assert!(builder.visibility.is_none());
    assert!(builder.parent.is_none());
    assert!(builder.local_transform.is_none());
    assert!(builder.children.is_none());
    assert!(builder.inv_bind_pose_transform.is_none());
}

#[test]
fn saturating_matrix_product_clamps_at_the_range_edge() {
    let big = Mat4 {
        m03: i64::MAX - 1,
        ..Mat4::identity()
    };
    let shift = Mat4::translation(Vector3::new(10, 0, 0));
    let composed = big.mul(&shift);
    assert_eq!(composed.m03, i64::MAX);
}
