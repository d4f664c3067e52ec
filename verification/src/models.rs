use vstd::prelude::*;

verus! {

/// What a principal asks to do with an entity.
#[derive(Clone, Copy, PartialEq, Eq, Structural, Debug)]
pub enum PermissionAction {
    View,
    Edit,
    Delete,
    Manage,
    List,
    Execute,
}

/// A grant of an action on an entity to a group.
#[derive(Clone, Copy, PartialEq, Eq, Structural, Debug)]
pub struct Permission {
    pub entity_id: u128,
    pub group_id: u128,
    pub action: PermissionAction,
}

/// The part of a metadata record that the server's decisions read.
#[derive(Debug)]
pub struct Metadata {
    pub id: u128,
    pub name: String,
    pub content_type: String,
    pub version: i32,
    pub active_version: i32,
    pub deleted: bool,
    pub public: bool,
    pub public_content: bool,
    pub public_supplementary: bool,
    pub workflow_state_id: String,
    /// When the metadata was set ready (seconds since the epoch), if it was.
    pub ready: Option<i64>,
}

/// The part of a collection record that the server's decisions read.
#[derive(Debug)]
pub struct Collection {
    pub id: u128,
    pub name: String,
    pub deleted: bool,
    pub public: bool,
    pub public_list: bool,
    pub public_supplementary: bool,
    pub workflow_state_id: String,
    /// When the collection was set ready (seconds since the epoch), if it was.
    pub ready: Option<i64>,
}

/// A supplementary file of a metadata record.
#[derive(Debug)]
pub struct MetadataSupplementary {
    pub id: u128,
    pub metadata_id: u128,
    pub key: String,
    pub content_type: String,
}

/// A supplementary file of a collection.
#[derive(Debug)]
pub struct CollectionSupplementary {
    pub id: u128,
    pub collection_id: u128,
    pub key: String,
    pub content_type: String,
}

/// Who may see a profile.
#[derive(Clone, Copy, PartialEq, Eq, Structural, Debug)]
pub enum ProfileVisibility {
    Public,
    User,
}

/// The part of a profile that the access check reads.
#[derive(Debug)]
pub struct Profile {
    pub id: u128,
    /// The principal that owns the profile, if any.
    pub principal: Option<u128>,
    pub visibility: ProfileVisibility,
}

/// What a slug names.
#[derive(Clone, Copy, PartialEq, Eq, Structural, Debug)]
pub enum SlugType {
    Metadata,
    Collection,
    Profile,
}

/// A slug resolved to the entity it names.
#[derive(Clone, Copy, PartialEq, Eq, Structural, Debug)]
pub struct Slug {
    pub id: u128,
    pub slug_type: SlugType,
}

} // verus!
