//! Importing models: the engine node types that a model's nodes may ask for, and the
//! faces of a collision shape built from a mesh's vertices and indices.

use vstd::prelude::*;

use crate::text::same_text;

verus! {

/// Turns nodes of imported models into engine nodes of the type their extras name.
#[derive(Clone, Copy, Debug, Default)]
pub struct GltfImporter;

/// The engine node types that a model's node may name in its extras.
#[derive(Clone, Copy, Debug, PartialEq, Eq, Structural)]
pub enum SupportedNodeTypes {
    Decal,
    Collision,
    Occluder,
    Unsupported,
}

/// The node type a name stands for; any other name is unsupported.
pub open spec fn node_type_named(name: Seq<char>) -> SupportedNodeTypes {
    if name == "Decal"@ {
        SupportedNodeTypes::Decal
    } else if name == "Collision"@ {
        SupportedNodeTypes::Collision
    } else if name == "Occluder"@ {
        SupportedNodeTypes::Occluder
    } else {
        SupportedNodeTypes::Unsupported
    }
}

/// The name of a node type.
pub open spec fn node_type_name(t: SupportedNodeTypes) -> Seq<char> {
    match t {
        SupportedNodeTypes::Decal => "Decal"@,
        SupportedNodeTypes::Collision => "Collision"@,
        SupportedNodeTypes::Occluder => "Occluder"@,
        SupportedNodeTypes::Unsupported => "UNSUPPORTED"@,
    }
}

impl SupportedNodeTypes {
    /// The node type a name in a model's extras stands for.
    pub fn from_name(name: &str) -> (r: Self)
        ensures
            r == node_type_named(name@),
    {
        if same_text(name, "Decal") {
            Self::Decal
        } else if same_text(name, "Collision") {
            Self::Collision
        } else if same_text(name, "Occluder") {
            Self::Occluder
        } else {
            Self::Unsupported
        }
    }

    /// The name of the node type.
    pub fn as_str(&self) -> (r: &'static str)
        ensures
            r@ == node_type_name(*self),
    {
        match self {
            Self::Decal => "Decal",
            Self::Collision => "Collision",
            Self::Occluder => "Occluder",
            Self::Unsupported => "UNSUPPORTED",
        }
    }
}

/// Every supported node type reads back from its name.
pub proof fn lemma_node_type_names(t: SupportedNodeTypes)
    requires
        t != SupportedNodeTypes::Unsupported,
    ensures
        node_type_named(node_type_name(t)) == t,
{
    reveal_strlit("Decal");
    reveal_strlit("Collision");
    reveal_strlit("Occluder");
    assert("Decal"@.len() == 5 && "Collision"@.len() == 9 && "Occluder"@.len() == 8);
}

impl GltfImporter {
    /// The node that a model's node becomes, from the `gd_node` entry of its extras: none
    /// where it names no type or the type is unsupported.
    pub fn node_type(gd_node: Option<&str>) -> (r: Option<SupportedNodeTypes>)
        ensures
            r == (match gd_node {
                Some(name) => if node_type_named(name@) == SupportedNodeTypes::Unsupported {
                    None::<SupportedNodeTypes>
                } else {
                    Some(node_type_named(name@))
                },
                None => None,
            }),
    {
        match gd_node {
            Some(name) => match SupportedNodeTypes::from_name(name) {
                SupportedNodeTypes::Unsupported => None,
                t => Some(t),
            },
            None => None,
        }
    }
}

/// The vertex each index of a collision mesh picks: the vertex at that position, or none
/// where the index lies past the vertices (the default vertex is used then).
pub open spec fn picked_vertex(index: i32, vertex_count: usize) -> Option<usize> {
    if index < vertex_count {
        Some(index as usize)
    } else {
        None
    }
}

/// The vertex each index of a collision mesh picks, in order.
pub fn face_vertex_indices(indices: &Vec<i32>, vertex_count: usize) -> (r: Vec<Option<usize>>)
    requires
        forall|i: int| 0 <= i < indices@.len() ==> #[trigger] indices@[i] >= 0,
    ensures
        r@.len() == indices@.len(),
        forall|i: int| 0 <= i < r@.len() ==> #[trigger] r@[i] == picked_vertex(indices@[i], vertex_count),
{
    let mut picked: Vec<Option<usize>> = Vec::new();
    let mut i: usize = 0;
    while i < indices.len()
        invariant
            0 <= i <= indices.len(),
            forall|j: int| 0 <= j < indices@.len() ==> #[trigger] indices@[j] >= 0,
            picked@.len() == i,
            forall|j: int| 0 <= j < i ==> #[trigger] picked@[j] == picked_vertex(indices@[j], vertex_count),
        decreases indices.len() - i,
    {
        let index = indices[i];
        let as_position = index as u32 as usize;
        if as_position < vertex_count {
            picked.push(Some(as_position));
        } else {
            picked.push(None);
        }
        i = i + 1;
    }
    picked
}

} // verus!
