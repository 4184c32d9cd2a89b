//! The closed set of allocation categories.

use vstd::prelude::*;

verus! {

/// Number of allocation categories.
pub const TAG_COUNT: usize = 17;

/// Category that an allocation is accounted under.
#[derive(Clone, Copy, PartialEq, Eq, Structural, Debug)]
pub enum MemoryTag {
    Unknown,
    Array,
    Vector,
    Mapping,
    CircularQueue,
    BinarySearchTree,
    String,
    Application,
    Job,
    Texture,
    Material,
    Renderer,
    Game,
    Transform,
    Entity,
    EntityNode,
    Scene,
}

/// Position of each tag in enumeration order.
pub open spec fn tag_index(tag: MemoryTag) -> nat {
    match tag {
        MemoryTag::Unknown => 0,
        MemoryTag::Array => 1,
        MemoryTag::Vector => 2,
        MemoryTag::Mapping => 3,
        MemoryTag::CircularQueue => 4,
        MemoryTag::BinarySearchTree => 5,
        MemoryTag::String => 6,
        MemoryTag::Application => 7,
        MemoryTag::Job => 8,
        MemoryTag::Texture => 9,
        MemoryTag::Material => 10,
        MemoryTag::Renderer => 11,
        MemoryTag::Game => 12,
        MemoryTag::Transform => 13,
        MemoryTag::Entity => 14,
        MemoryTag::EntityNode => 15,
        MemoryTag::Scene => 16,
    }
}

/// The tag at a position of the enumeration, if the position is in range.
pub open spec fn tag_at(index: nat) -> Option<MemoryTag> {
    if index == 0 {
        Some(MemoryTag::Unknown)
    } else if index == 1 {
        Some(MemoryTag::Array)
    } else if index == 2 {
        Some(MemoryTag::Vector)
    } else if index == 3 {
        Some(MemoryTag::Mapping)
    } else if index == 4 {
        Some(MemoryTag::CircularQueue)
    } else if index == 5 {
        Some(MemoryTag::BinarySearchTree)
    } else if index == 6 {
        Some(MemoryTag::String)
    } else if index == 7 {
        Some(MemoryTag::Application)
    } else if index == 8 {
        Some(MemoryTag::Job)
    } else if index == 9 {
        Some(MemoryTag::Texture)
    } else if index == 10 {
        Some(MemoryTag::Material)
    } else if index == 11 {
        Some(MemoryTag::Renderer)
    } else if index == 12 {
        Some(MemoryTag::Game)
    } else if index == 13 {
        Some(MemoryTag::Transform)
    } else if index == 14 {
        Some(MemoryTag::Entity)
    } else if index == 15 {
        Some(MemoryTag::EntityNode)
    } else if index == 16 {
        Some(MemoryTag::Scene)
    } else {
        None
    }
}

/// The name of each tag as it is printed in reports.
pub open spec fn tag_name(tag: MemoryTag) -> Seq<char> {
    match tag {
        MemoryTag::Unknown => "Unknown"@,
        MemoryTag::Array => "Array"@,
        MemoryTag::Vector => "Vector"@,
        MemoryTag::Mapping => "Map"@,
        MemoryTag::CircularQueue => "CircularQueue"@,
        MemoryTag::BinarySearchTree => "BinarySearchTree"@,
        MemoryTag::String => "String"@,
        MemoryTag::Application => "Application"@,
        MemoryTag::Job => "Job"@,
        MemoryTag::Texture => "Texture"@,
        MemoryTag::Material => "Material"@,
        MemoryTag::Renderer => "Renderer"@,
        MemoryTag::Game => "Game"@,
        MemoryTag::Transform => "Transform"@,
        MemoryTag::Entity => "Entity"@,
        MemoryTag::EntityNode => "EntityNode"@,
        MemoryTag::Scene => "Scene"@,
    }
}

impl MemoryTag {
    /// Position of the tag in enumeration order, which is also its slot in the ledger.
    pub fn index(self) -> (i: usize)
        ensures
            i == tag_index(self),
            i < TAG_COUNT,
    {
        match self {
            MemoryTag::Unknown => 0,
            MemoryTag::Array => 1,
            MemoryTag::Vector => 2,
            MemoryTag::Mapping => 3,
            MemoryTag::CircularQueue => 4,
            MemoryTag::BinarySearchTree => 5,
            MemoryTag::String => 6,
            MemoryTag::Application => 7,
            MemoryTag::Job => 8,
            MemoryTag::Texture => 9,
            MemoryTag::Material => 10,
            MemoryTag::Renderer => 11,
            MemoryTag::Game => 12,
            MemoryTag::Transform => 13,
            MemoryTag::Entity => 14,
            MemoryTag::EntityNode => 15,
            MemoryTag::Scene => 16,
        }
    }

    /// The tag at position `index` of the enumeration; `None` from `TAG_COUNT` on.
    pub fn from_repr(index: usize) -> (tag: Option<MemoryTag>)
        ensures
            tag == tag_at(index as nat),
            tag.is_some() <==> index < TAG_COUNT,
            tag matches Some(t) ==> tag_index(t) == index,
    {
        match index {
            0 => Some(MemoryTag::Unknown),
            1 => Some(MemoryTag::Array),
            2 => Some(MemoryTag::Vector),
            3 => Some(MemoryTag::Mapping),
            4 => Some(MemoryTag::CircularQueue),
            5 => Some(MemoryTag::BinarySearchTree),
            6 => Some(MemoryTag::String),
            7 => Some(MemoryTag::Application),
            8 => Some(MemoryTag::Job),
            9 => Some(MemoryTag::Texture),
            10 => Some(MemoryTag::Material),
            11 => Some(MemoryTag::Renderer),
            12 => Some(MemoryTag::Game),
            13 => Some(MemoryTag::Transform),
            14 => Some(MemoryTag::Entity),
            15 => Some(MemoryTag::EntityNode),
            16 => Some(MemoryTag::Scene),
            _ => None,
        }
    }

    /// The tag's name.
    pub fn name(self) -> (s: &'static str)
        ensures
            s@ == tag_name(self),
    {
        match self {
            MemoryTag::Unknown => "Unknown",
            MemoryTag::Array => "Array",
            MemoryTag::Vector => "Vector",
            MemoryTag::Mapping => "Map",
            MemoryTag::CircularQueue => "CircularQueue",
            MemoryTag::BinarySearchTree => "BinarySearchTree",
            MemoryTag::String => "String",
            MemoryTag::Application => "Application",
            MemoryTag::Job => "Job",
            MemoryTag::Texture => "Texture",
            MemoryTag::Material => "Material",
            MemoryTag::Renderer => "Renderer",
            MemoryTag::Game => "Game",
            MemoryTag::Transform => "Transform",
            MemoryTag::Entity => "Entity",
            MemoryTag::EntityNode => "EntityNode",
            MemoryTag::Scene => "Scene",
        }
    }
}

/// Every tag is found again at its own position, and no two tags share one.
pub proof fn lemma_tag_index_roundtrip(tag: MemoryTag)
    ensures
        tag_index(tag) < TAG_COUNT,
        tag_at(tag_index(tag)) == Some(tag),
{
}

} // verus!
