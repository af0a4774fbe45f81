//! Scene nodes: polymorphic entities with a transform hierarchy.
//!
//! A node's kind is a tagged union over the entity sorts the engine knows;
//! per-kind behaviour is reached by pattern matching, never by virtual
//! dispatch. Nodes are arena-allocated and referenced through
//! generation-checked handles. The derived fields `global_transform` and
//! `global_visibility` are recomputed top-down by [`update_hierarchy`] and
//! must never be hand-set.

use vstd::prelude::*;
use vstd::string::StringExecFns;

use crate::math::{spec_mat_mul, Mat4};

verus! {

/// A generation-checked reference to an arena-stored node.
#[derive(Clone, Copy, Debug, PartialEq, Eq, Hash, Structural)]
pub struct Handle {
    /// Slot of the node in the arena.
    pub index: u32,
    /// Generation the slot had when the handle was issued.
    pub generation: u32,
}

impl Handle {
    /// The handle that points at nothing.
    pub open spec fn spec_none() -> Handle {
        Handle { index: 0, generation: 0 }
    }

    /// Whether the handle points at nothing.
    pub open spec fn spec_is_none(self) -> bool {
        self == Handle::spec_none()
    }

    /// Builds the handle that points at nothing.
    pub fn none() -> (r: Handle)
        ensures
            r == Handle::spec_none(),
    {
        Handle { index: 0, generation: 0 }
    }

    /// Builds a handle from its slot and generation.
    pub fn new(index: u32, generation: u32) -> (r: Handle)
        ensures
            r == (Handle { index, generation }),
    {
        Handle { index, generation }
    }

    /// Whether the handle points at nothing.
    pub fn is_none(&self) -> (r: bool)
        ensures
            r == self.spec_is_none(),
    {
        self.index == 0 && self.generation == 0
    }
}

/// A local-to-parent transform. The engine stores it as a fixed-point
/// matrix; position, rotation and scale are the backend's decomposition.
#[derive(Clone, Copy, Debug, PartialEq, Eq, Structural)]
pub struct Transform {
    /// The local transform matrix.
    pub matrix: Mat4,
}

impl Transform {
    /// The identity transform.
    pub fn identity() -> (r: Transform)
        ensures
            r.matrix == Mat4::spec_identity(),
    {
        Transform { matrix: Mat4::identity() }
    }

    /// Builds a transform from a matrix.
    pub fn from_matrix(matrix: Mat4) -> (r: Transform)
        ensures
            r.matrix == matrix,
    {
        Transform { matrix }
    }

    /// The transform as a matrix.
    pub fn matrix(&self) -> (r: Mat4)
        ensures
            r == self.matrix,
    {
        self.matrix
    }
}

/// Light-specific state; its shape parameters live with the renderer.
#[derive(Clone, Copy, Debug, Default, PartialEq, Eq, Structural)]
pub struct Light {}

/// Camera-specific state; projection parameters live with the renderer.
#[derive(Clone, Copy, Debug, Default, PartialEq, Eq, Structural)]
pub struct Camera {}

/// Mesh-specific state; surfaces live with the resource system.
#[derive(Clone, Copy, Debug, Default, PartialEq, Eq, Structural)]
pub struct Mesh {}

/// Sprite-specific state.
#[derive(Clone, Copy, Debug, Default, PartialEq, Eq, Structural)]
pub struct Sprite {}

/// Particle-system-specific state.
#[derive(Clone, Copy, Debug, Default, PartialEq, Eq, Structural)]
pub struct ParticleSystem {}

/// The sort of entity a node is, with the sort-specific payload.
#[derive(Clone, Copy, Debug, PartialEq, Eq, Structural)]
pub enum NodeKind {
    Base,
    Light(Light),
    Camera(Camera),
    Mesh(Mesh),
    Sprite(Sprite),
    ParticleSystem(ParticleSystem),
}

/// The character of a single decimal digit.
pub open spec fn spec_digit_char(d: int) -> char {
    if d == 0 {
        '0'
    } else if d == 1 {
        '1'
    } else if d == 2 {
        '2'
    } else if d == 3 {
        '3'
    } else if d == 4 {
        '4'
    } else if d == 5 {
        '5'
    } else if d == 6 {
        '6'
    } else if d == 7 {
        '7'
    } else if d == 8 {
        '8'
    } else {
        '9'
    }
}

/// The decimal rendering of a byte, without leading zeros.
pub open spec fn spec_u8_decimal(n: u8) -> Seq<char> {
    if n >= 100 {
        seq![
            spec_digit_char(n as int / 100),
            spec_digit_char((n as int / 10) % 10),
            spec_digit_char(n as int % 10),
        ]
    } else if n >= 10 {
        seq![spec_digit_char((n as int / 10) % 10), spec_digit_char(n as int % 10)]
    } else {
        seq![spec_digit_char(n as int % 10)]
    }
}

/// Appends one decimal digit to a string.
fn append_digit(m: &mut String, d: u8)
    requires
        d < 10,
    ensures
        final(m)@ == old(m)@ + seq![spec_digit_char(d as int)],
{
    proof {
        reveal_strlit("0");
        reveal_strlit("1");
        reveal_strlit("2");
        reveal_strlit("3");
        reveal_strlit("4");
        reveal_strlit("5");
        reveal_strlit("6");
        reveal_strlit("7");
        reveal_strlit("8");
        reveal_strlit("9");
    }
    match d {
        0 => m.append("0"),
        1 => m.append("1"),
        2 => m.append("2"),
        3 => m.append("3"),
        4 => m.append("4"),
        5 => m.append("5"),
        6 => m.append("6"),
        7 => m.append("7"),
        8 => m.append("8"),
        _ => m.append("9"),
    }
    proof {
        assert(final(m)@ =~= old(m)@ + seq![spec_digit_char(d as int)]);
    }
}

/// The node kind a serialized variant id denotes; ids above 5 denote none.
pub open spec fn spec_kind_from_id(id: u8) -> NodeKind {
    if id == 0 {
        NodeKind::Base
    } else if id == 1 {
        NodeKind::Light(Light {  })
    } else if id == 2 {
        NodeKind::Camera(Camera {  })
    } else if id == 3 {
        NodeKind::Mesh(Mesh {  })
    } else if id == 4 {
        NodeKind::Sprite(Sprite {  })
    } else {
        NodeKind::ParticleSystem(ParticleSystem {  })
    }
}

impl NodeKind {
    /// The variant id under which the kind serializes.
    pub open spec fn spec_id(self) -> u8 {
        match self {
            NodeKind::Base => 0,
            NodeKind::Light(_) => 1,
            NodeKind::Camera(_) => 2,
            NodeKind::Mesh(_) => 3,
            NodeKind::Sprite(_) => 4,
            NodeKind::ParticleSystem(_) => 5,
        }
    }

    /// Creates a new kind based on its variant id, with a default payload.
    /// Ids 0 through 5 are the valid ones; any other id is rejected with an
    /// error naming it, never a panic.
    pub fn new(id: u8) -> (r: Result<Self, String>)
        ensures
            id <= 5 ==> (r matches Ok(k) && k == spec_kind_from_id(id)),
            id > 5 ==> (r matches Err(m) && m@ == "Invalid node kind "@ + spec_u8_decimal(id)),
    {
        match id {
            0 => Ok(NodeKind::Base),
            1 => Ok(NodeKind::Light(Light {  })),
            2 => Ok(NodeKind::Camera(Camera {  })),
            3 => Ok(NodeKind::Mesh(Mesh {  })),
            4 => Ok(NodeKind::Sprite(Sprite {  })),
            5 => Ok(NodeKind::ParticleSystem(ParticleSystem {  })),
            _ => {
                let mut m = String::from_str("Invalid node kind ");
                if id >= 100 {
                    append_digit(&mut m, id / 100);
                }
                if id >= 10 {
                    append_digit(&mut m, (id / 10) % 10);
                }
                append_digit(&mut m, id % 10);
                proof {
                    assert(m@ =~= "Invalid node kind "@ + spec_u8_decimal(id));
                }
                Err(m)
            },
        }
    }

    /// Returns the actual variant id.
    pub fn id(&self) -> (r: u8)
        ensures
            r == self.spec_id(),
            r <= 5,
    {
        match self {
            NodeKind::Base => 0,
            NodeKind::Light(_) => 1,
            NodeKind::Camera(_) => 2,
            NodeKind::Mesh(_) => 3,
            NodeKind::Sprite(_) => 4,
            NodeKind::ParticleSystem(_) => 5,
        }
    }
}

/// Every valid variant id round-trips through [`NodeKind::new`] and
/// [`NodeKind::id`]: building a kind from an id hands the same id back.
pub proof fn lemma_node_kind_id_round_trip(id: u8)
    requires
        id <= 5,
    ensures
        spec_kind_from_id(id).spec_id() == id,
{
}

/// A shared reference to the model resource a node was instantiated from.
#[derive(Clone, Copy, Debug, PartialEq, Eq, Structural)]
pub struct ModelResource {
    /// Identity of the loaded model asset.
    pub id: u64,
}

/// A scene entity: name, kind, transform hierarchy links and visibility
/// state.
#[derive(Debug)]
pub struct Node {
    /// The node's name.
    pub name: String,
    /// The sort of entity the node is.
    pub kind: NodeKind,
    /// The local-to-parent transform.
    pub local_transform: Transform,
    /// The node's own visibility flag.
    pub visibility: bool,
    /// Derived visibility: the conjunction of the flags up the hierarchy.
    pub global_visibility: bool,
    /// Handle of the parent node, or the none handle for a root.
    pub parent: Handle,
    /// Ordered handles of the child nodes.
    pub children: Vec<Handle>,
    /// Derived transform: the composition down from the root.
    pub global_transform: Mat4,
    /// Bone-specific matrix, not serialized.
    pub inv_bind_pose_transform: Mat4,
    /// The resource this node was instantiated from, paired with `original`
    /// to find the corresponding node in that resource.
    pub resource: Option<ModelResource>,
    /// Handle to the node in the resource's scene this node was
    /// instantiated from.
    pub original: Handle,
    /// True on the root of a node hierarchy instantiated from `resource`.
    pub is_resource_instance: bool,
}

/// The state every fresh node starts from: the given kind, empty name, no
/// links, full visibility and identity transforms.
pub open spec fn spec_fresh_node(n: Node, kind: NodeKind) -> bool {
    &&& n.name@ == Seq::<char>::empty()
    &&& n.kind == kind
    &&& n.local_transform.matrix == Mat4::spec_identity()
    &&& n.visibility
    &&& n.global_visibility
    &&& n.parent == Handle::spec_none()
    &&& n.children@ == Seq::<Handle>::empty()
    &&& n.global_transform == Mat4::spec_identity()
    &&& n.inv_bind_pose_transform == Mat4::spec_identity()
    &&& n.resource is None
    &&& n.original == Handle::spec_none()
    &&& !n.is_resource_instance
}

impl Default for Node {
    fn default() -> (r: Self)
        ensures
            spec_fresh_node(r, NodeKind::Base),
    {
        Node::new(NodeKind::Base)
    }
}

impl Node {
    /// Creates a detached node of the given kind.
    pub fn new(kind: NodeKind) -> (r: Self)
        ensures
            spec_fresh_node(r, kind),
    {
        Node {
            kind,
            name: String::new(),
            children: Vec::new(),
            parent: Handle::none(),
            visibility: true,
            global_visibility: true,
            local_transform: Transform::identity(),
            global_transform: Mat4::identity(),
            inv_bind_pose_transform: Mat4::identity(),
            resource: None,
            original: Handle::none(),
            is_resource_instance: false,
        }
    }

    /// Creates a copy of the node without its hierarchy links: the copy has
    /// no parent and no children, and records `original` as the template
    /// this copy was made from. The caller is responsible for recreating
    /// hierarchy links.
    pub fn make_copy(&self, original: Handle) -> (r: Self)
        ensures
            r.name == self.name,
            r.kind == self.kind,
            r.local_transform == self.local_transform,
            r.global_transform == self.global_transform,
            r.visibility == self.visibility,
            r.global_visibility == self.global_visibility,
            r.inv_bind_pose_transform == self.inv_bind_pose_transform,
            r.children@ == Seq::<Handle>::empty(),
            r.parent == Handle::spec_none(),
            r.resource == self.resource,
            r.is_resource_instance == self.is_resource_instance,
            r.original == original,
    {
        Self {
            kind: self.kind,
            name: self.name.clone(),
            local_transform: self.local_transform,
            global_transform: self.global_transform,
            visibility: self.visibility,
            global_visibility: self.global_visibility,
            inv_bind_pose_transform: self.inv_bind_pose_transform,
            children: Vec::new(),
            parent: Handle::none(),
            resource: self.get_resource(),
            is_resource_instance: self.is_resource_instance,
            original,
        }
    }

    /// Returns the handle of the template node this node was instantiated
    /// from.
    pub fn get_original_handle(&self) -> (r: Handle)
        ensures
            r == self.original,
    {
        self.original
    }

    /// Records the template node this node was instantiated from.
    pub fn set_original_handle(&mut self, original: Handle)
        ensures
            *final(self) == (Node { original, ..*old(self) }),
    {
        self.original = original;
    }

    /// Returns the node's kind.
    pub fn get_kind(&self) -> (r: &NodeKind)
        ensures
            r == &self.kind,
    {
        &self.kind
    }

    /// Records the resource this node was instantiated from.
    pub fn set_resource(&mut self, resource_handle: ModelResource)
        ensures
            *final(self) == (Node { resource: Some(resource_handle), ..*old(self) }),
    {
        self.resource = Some(resource_handle);
    }

    /// Returns the resource this node was instantiated from, if any.
    pub fn get_resource(&self) -> (r: Option<ModelResource>)
        ensures
            r == self.resource,
    {
        self.resource
    }

    /// Returns the local transform.
    pub fn get_local_transform(&self) -> (r: &Transform)
        ensures
            r == &self.local_transform,
    {
        &self.local_transform
    }

    /// Returns the local transform for modification.
    pub fn get_local_transform_mut(&mut self) -> (r: &mut Transform)
        ensures
            *r == old(self).local_transform,
            *final(self) == (Node { local_transform: *final(r), ..*old(self) }),
    {
        &mut self.local_transform
    }

    /// Returns the node's kind for modification.
    pub fn get_kind_mut(&mut self) -> (r: &mut NodeKind)
        ensures
            *r == old(self).kind,
            *final(self) == (Node { kind: *final(r), ..*old(self) }),
    {
        &mut self.kind
    }

    /// Sets the node's own visibility. The effective visibility is derived
    /// from it by the next hierarchy update.
    pub fn set_visibility(&mut self, visibility: bool)
        ensures
            *final(self) == (Node { visibility, ..*old(self) }),
    {
        self.visibility = visibility;
    }

    /// Returns the node's own visibility.
    pub fn get_visibility(&self) -> (r: bool)
        ensures
            r == self.visibility,
    {
        self.visibility
    }

    /// Returns the visibility the last hierarchy update derived for the
    /// node.
    pub fn get_global_visibility(&self) -> (r: bool)
        ensures
            r == self.global_visibility,
    {
        self.global_visibility
    }

    /// Sets the node's name.
    pub fn set_name(&mut self, name: &str)
        ensures
            final(self).name@ == name@,
            final(self).kind == old(self).kind,
            final(self).local_transform == old(self).local_transform,
            final(self).visibility == old(self).visibility,
            final(self).global_visibility == old(self).global_visibility,
            final(self).parent == old(self).parent,
            final(self).children == old(self).children,
            final(self).global_transform == old(self).global_transform,
            final(self).inv_bind_pose_transform == old(self).inv_bind_pose_transform,
            final(self).resource == old(self).resource,
            final(self).original == old(self).original,
            final(self).is_resource_instance == old(self).is_resource_instance,
    {
        self.name = String::from_str(name);
    }

    /// Returns the node's name.
    pub fn get_name(&self) -> (r: &str)
        ensures
            r@ == self.name@,
    {
        self.name.as_str()
    }

    /// Returns the handle of the node's parent.
    pub fn get_parent(&self) -> (r: Handle)
        ensures
            r == self.parent,
    {
        self.parent
    }

    /// Returns the handles of the node's children, in order.
    pub fn get_children(&self) -> (r: &Vec<Handle>)
        ensures
            r == &self.children,
    {
        &self.children
    }

    /// Returns the transform the last hierarchy update derived for the
    /// node.
    pub fn get_global_transform(&self) -> (r: &Mat4)
        ensures
            r == &self.global_transform,
    {
        &self.global_transform
    }

    /// Sets the bone-specific inverse bind pose matrix.
    pub fn set_inv_bind_pose_transform(&mut self, transform: Mat4)
        ensures
            *final(self) == (Node { inv_bind_pose_transform: transform, ..*old(self) }),
    {
        self.inv_bind_pose_transform = transform;
    }

    /// Returns the bone-specific inverse bind pose matrix.
    pub fn get_inv_bind_pose_transform(&self) -> (r: &Mat4)
        ensures
            r == &self.inv_bind_pose_transform,
    {
        &self.inv_bind_pose_transform
    }

    /// Returns the node's position in world space.
    pub fn get_global_position(&self) -> (r: crate::math::Vector3)
        ensures
            r == self.global_transform.spec_position(),
    {
        self.global_transform.position()
    }

    /// Returns the node's look (local Z axis) vector in world space.
    pub fn get_look_vector(&self) -> (r: crate::math::Vector3)
        ensures
            r == (crate::math::Vector3 {
                x: self.global_transform.m02,
                y: self.global_transform.m12,
                z: self.global_transform.m22,
            }),
    {
        self.global_transform.look()
    }

    /// Returns the node's side (local X axis) vector in world space.
    pub fn get_side_vector(&self) -> (r: crate::math::Vector3)
        ensures
            r == (crate::math::Vector3 {
                x: self.global_transform.m00,
                y: self.global_transform.m10,
                z: self.global_transform.m20,
            }),
    {
        self.global_transform.side()
    }

    /// Returns the node's up (local Y axis) vector in world space.
    pub fn get_up_vector(&self) -> (r: crate::math::Vector3)
        ensures
            r == (crate::math::Vector3 {
                x: self.global_transform.m01,
                y: self.global_transform.m11,
                z: self.global_transform.m21,
            }),
    {
        self.global_transform.up()
    }

    /// Whether the node is a camera.
    pub fn is_camera(&self) -> (r: bool)
        ensures
            r == (self.kind matches NodeKind::Camera(_)),
    {
        match &self.kind {
            NodeKind::Camera(_) => true,
            _ => false,
        }
    }

    /// Whether the node is a sprite.
    pub fn is_sprite(&self) -> (r: bool)
        ensures
            r == (self.kind matches NodeKind::Sprite(_)),
    {
        match &self.kind {
            NodeKind::Sprite(_) => true,
            _ => false,
        }
    }

    /// Whether the node is a particle system.
    pub fn is_particle_system(&self) -> (r: bool)
        ensures
            r == (self.kind matches NodeKind::ParticleSystem(_)),
    {
        match &self.kind {
            NodeKind::ParticleSystem(_) => true,
            _ => false,
        }
    }

    /// Whether the node is a light.
    pub fn is_light(&self) -> (r: bool)
        ensures
            r == (self.kind matches NodeKind::Light(_)),
    {
        match &self.kind {
            NodeKind::Light(_) => true,
            _ => false,
        }
    }

    /// Whether the node is a mesh.
    pub fn is_mesh(&self) -> (r: bool)
        ensures
            r == (self.kind matches NodeKind::Mesh(_)),
    {
        match &self.kind {
            NodeKind::Mesh(_) => true,
            _ => false,
        }
    }

    /// Links the node under a parent handle. The derived fields follow at
    /// the next hierarchy update.
    pub fn set_parent(&mut self, parent: Handle)
        ensures
            *final(self) == (Node { parent, ..*old(self) }),
    {
        self.parent = parent;
    }

    /// Appends a child handle to the node's ordered child list.
    pub fn add_child(&mut self, child: Handle)
        ensures
            final(self).children@ == old(self).children@.push(child),
            final(self).name == old(self).name,
            final(self).kind == old(self).kind,
            final(self).local_transform == old(self).local_transform,
            final(self).visibility == old(self).visibility,
            final(self).global_visibility == old(self).global_visibility,
            final(self).parent == old(self).parent,
            final(self).global_transform == old(self).global_transform,
            final(self).inv_bind_pose_transform == old(self).inv_bind_pose_transform,
            final(self).resource == old(self).resource,
            final(self).original == old(self).original,
            final(self).is_resource_instance == old(self).is_resource_instance,
    {
        self.children.push(child);
    }
}

/// Whether an arena of nodes is laid out parents-first: every parent handle
/// either points at nothing or at a strictly earlier slot. A tree stored
/// this way is in topological order, so one forward pass visits parents
/// before children.
pub open spec fn spec_parents_first(nodes: Seq<Node>) -> bool {
    forall|i: int|
        0 <= i < nodes.len() ==> ((#[trigger] nodes[i]).parent.spec_is_none()
            || nodes[i].parent.index < i)
}

/// Whether two nodes agree on everything except the derived fields
/// `global_transform` and `global_visibility`.
pub open spec fn spec_same_but_derived(a: Node, b: Node) -> bool {
    &&& a.name == b.name
    &&& a.kind == b.kind
    &&& a.local_transform == b.local_transform
    &&& a.visibility == b.visibility
    &&& a.parent == b.parent
    &&& a.children == b.children
    &&& a.inv_bind_pose_transform == b.inv_bind_pose_transform
    &&& a.resource == b.resource
    &&& a.original == b.original
    &&& a.is_resource_instance == b.is_resource_instance
}

/// Whether slot `i` of the arena carries the derived state the hierarchy
/// update pass computes: a root's global transform is its local transform
/// and its effective visibility its own; any other node composes its
/// parent's global transform with its local one and is visible exactly when
/// both it and its parent are.
pub open spec fn spec_node_updated(nodes: Seq<Node>, i: int) -> bool {
    let n = nodes[i];
    if n.parent.spec_is_none() {
        &&& n.global_transform == n.local_transform.matrix
        &&& n.global_visibility == n.visibility
    } else {
        let p = nodes[n.parent.index as int];
        &&& n.global_transform == spec_mat_mul(p.global_transform, n.local_transform.matrix)
        &&& n.global_visibility == (p.global_visibility && n.visibility)
    }
}

/// The graph-wide hierarchy update pass: recomputes every node's
/// `global_transform` and `global_visibility` from its parent, visiting
/// parents before children. After the pass, every node's global transform
/// equals its parent's global transform composed with its own local
/// transform, and a root's global transform equals its local transform.
#[verifier::loop_isolation(false)]
pub fn update_hierarchy(nodes: &mut Vec<Node>)
    requires
        spec_parents_first(old(nodes)@),
    ensures
        final(nodes).len() == old(nodes).len(),
        forall|i: int|
            0 <= i < old(nodes).len() ==> spec_same_but_derived(
                #[trigger] final(nodes)@[i],
                old(nodes)@[i],
            ),
        forall|i: int| 0 <= i < old(nodes).len() ==> spec_node_updated(final(nodes)@, i),
{
    let n = nodes.len();
    let mut i: usize = 0;
    while i < n
        invariant
            nodes.len() == n,
            i <= n,
            forall|j: int|
                0 <= j < n ==> spec_same_but_derived(#[trigger] nodes@[j], old(nodes)@[j]),
            forall|j: int| (i as int) <= j < n ==> #[trigger] nodes@[j] == old(nodes)@[j],
            forall|j: int| 0 <= j < i ==> spec_node_updated(nodes@, j),
        decreases n - i,
    {
        let parent = nodes[i].parent;
        let local = nodes[i].local_transform.matrix;
        let visible = nodes[i].visibility;
        let (global, global_visible): (Mat4, bool) = if parent.is_none() {
            (local, visible)
        } else {
            let p = &nodes[parent.index as usize];
            (p.global_transform.mul(&local), p.global_visibility && visible)
        };
        let ghost pre = nodes@;
        let node = &mut nodes[i];
        node.global_transform = global;
        node.global_visibility = global_visible;
        proof {
            assert(nodes@.len() == pre.len());
            assert(forall|j: int| 0 <= j < pre.len() && j != i ==> nodes@[j] == pre[j]);
            assert(spec_node_updated(nodes@, i as int));
            assert forall|j: int| 0 <= j < i implies spec_node_updated(nodes@, j) by {
                assert(spec_node_updated(pre, j));
                assert(nodes@[j] == pre[j]);
                assert(spec_same_but_derived(pre[j], old(nodes)@[j]));
                let pj = pre[j].parent;
                if !pj.spec_is_none() {
                    assert(pj.index < j);
                    assert(nodes@[pj.index as int] == pre[pj.index as int]);
                }
            }
        }
        i = i + 1;
    }
}

/// Builds nodes field by field; unset fields fall back to the defaults of
/// [`Node::new`].
#[derive(Debug)]
pub struct NodeBuilder {
    /// The sort of entity to build.
    pub kind: NodeKind,
    /// The name, if one was chosen.
    pub name: Option<String>,
    /// The visibility flag, if one was chosen.
    pub visibility: Option<bool>,
    /// The parent handle, if one was chosen.
    pub parent: Option<Handle>,
    /// The local transform, if one was chosen.
    pub local_transform: Option<Transform>,
    /// The child handles, if any were chosen.
    pub children: Option<Vec<Handle>>,
    /// The inverse bind pose matrix, if one was chosen.
    pub inv_bind_pose_transform: Option<Mat4>,
}

impl NodeBuilder {
    /// Starts a builder for a node of the given kind.
    pub fn new(kind: NodeKind) -> (r: Self)
        ensures
            r.kind == kind,
            r.name is None,
            r.visibility is None,
            r.parent is None,
            r.local_transform is None,
            r.children is None,
            r.inv_bind_pose_transform is None,
    {
        Self {
            kind,
            name: None,
            visibility: None,
            parent: None,
            local_transform: None,
            children: None,
            inv_bind_pose_transform: None,
        }
    }
}

} // verus!
