use vstd::prelude::*;
use crate::ids::{uuid_text, uuid_to_string};
use crate::json::{json_string, json_string_text};
use crate::metadata_input::MetadataProfileInput;
use crate::content::{guide_step_title, numbered_title, ContentError};
use crate::workflow::{clone_entries, config_view, entries_map, lemma_entries_map_append, ConfigValue, ConfigView};

verus! {

/// The attribute that names the editor of a content item.
pub const EDITOR_TYPE_ATTRIBUTE: &'static str = "editor.type";

/// The attributes of an item made from a template: the editor type, with the
/// template's default attributes (when they are an object) laid over it.
pub open spec fn template_attributes(editor_type: Seq<char>, defaults: Option<ConfigValue>) -> Map<Seq<char>, Seq<char>> {
    let base = map!["editor.type"@ => json_string_text(editor_type)];
    match defaults {
        Some(ConfigValue::Object(d)) => base.union_prefer_right(entries_map(d@)),
        _ => base,
    }
}

/// The attributes of an item made from a template.
pub fn template_item_attributes(editor_type: &str, defaults: &Option<ConfigValue>) -> (r: ConfigValue)
    ensures
        config_view(r) == ConfigView::Object(template_attributes(editor_type@, *defaults)),
{
    let key = String::from_str(EDITOR_TYPE_ATTRIBUTE);
    let value = json_string(editor_type);
    let mut entries: Vec<(String, String)> = Vec::new();
    entries.push((key, value));
    let ghost first = entries@;
    proof {
        assert(first.drop_last() =~= Seq::<(String, String)>::empty());
        assert(entries_map(first.drop_last()) == Map::<Seq<char>, Seq<char>>::empty());
        assert(first.last().0@ == "editor.type"@);
        assert(first.last().1@ == json_string_text(editor_type@));
        assert(entries_map(first) == Map::<Seq<char>, Seq<char>>::empty().insert("editor.type"@, json_string_text(editor_type@)));
        assert(entries_map(first) =~= map!["editor.type"@ => json_string_text(editor_type@)]);
    }
    match defaults {
        Some(ConfigValue::Object(d)) => {
            let mut extra = clone_entries(d);
            entries.append(&mut extra);
            proof {
                lemma_entries_map_append(first, d@);
            }
        },
        _ => {},
    }
    ConfigValue::Object(entries)
}

/// The profiles of an item made from a template: the creator's profile, as
/// its author, when the creator has one.
pub fn author_profiles(profile_id: Option<u128>) -> (r: Option<Vec<MetadataProfileInput>>)
    ensures
        match profile_id {
            None => r is None,
            Some(p) => r matches Some(v) && v@.len() == 1 && v@[0].profile_id@ == uuid_text(p)
                && v@[0].relationship@ == "author"@,
        },
{
    match profile_id {
        None => None,
        Some(p) => {
            let mut v: Vec<MetadataProfileInput> = Vec::new();
            v.push(MetadataProfileInput { profile_id: uuid_to_string(p), relationship: String::from_str("author") });
            Some(v)
        },
    }
}

/// The texts of a list of ids, in order, as an item's categories are named.
pub fn id_texts(ids: &Vec<u128>) -> (r: Vec<String>)
    ensures
        r@.len() == ids@.len(),
        forall|i: int| 0 <= i < ids@.len() ==> (#[trigger] r@[i])@ == uuid_text(ids@[i]),
{
    let mut r: Vec<String> = Vec::new();
    let mut i: usize = 0;
    while i < ids.len()
        invariant
            i <= ids@.len(),
            r@.len() == i,
            forall|k: int| 0 <= k < i ==> (#[trigger] r@[k])@ == uuid_text(ids@[k]),
        decreases ids@.len() - i,
    {
        r.push(uuid_to_string(ids[i]));
        i += 1;
    }
    r
}

/// A template's parts must exist: its document template and, for a guide,
/// its guide template, checked in that order.
pub fn check_template_parts(document_found: bool, guide_needed: bool, guide_found: bool) -> (r: Result<(), ContentError>)
    ensures
        r == (if !document_found {
            Err::<(), ContentError>(ContentError::MissingTemplate)
        } else if guide_needed && !guide_found {
            Err::<(), ContentError>(ContentError::MissingGuide)
        } else {
            Ok::<(), ContentError>(())
        }),
{
    if !document_found {
        Err(ContentError::MissingTemplate)
    } else if guide_needed && !guide_found {
        Err(ContentError::MissingGuide)
    } else {
        Ok(())
    }
}

/// The metadata made from a template, as it is handed to the metadata store.
#[derive(Debug)]
pub struct NewTemplateItem {
    pub name: String,
    pub content_type: String,
    pub parent_collection_id: Option<String>,
    pub category_ids: Vec<String>,
    pub attributes: ConfigValue,
    /// The template the item's document (and guide) is made from.
    pub template_metadata_id: String,
    pub template_metadata_version: i32,
    /// The title of the item's document.
    pub document_title: String,
    pub profiles: Option<Vec<MetadataProfileInput>>,
}

/// Whether `item` is the item made from the template: named and titled
/// `title`, of `content_type`, under the given parent, in the given
/// categories (by their ids' texts, in order), with the template's
/// attributes for `editor_type`, referring to the template, and authored by
/// the creator's profile when there is one.
pub open spec fn made_from_template(
    item: NewTemplateItem,
    title: Seq<char>,
    content_type: Seq<char>,
    parent: Option<u128>,
    categories: Seq<u128>,
    editor_type: Seq<char>,
    defaults: Option<ConfigValue>,
    template_id: u128,
    template_version: i32,
    profile: Option<u128>,
) -> bool {
    &&& item.name@ == title
    &&& item.document_title@ == title
    &&& item.content_type@ == content_type
    &&& match parent {
        Some(p) => item.parent_collection_id matches Some(t) && t@ == uuid_text(p),
        None => item.parent_collection_id is None,
    }
    &&& item.category_ids@.len() == categories.len()
    &&& forall|i: int| 0 <= i < categories.len() ==> (#[trigger] item.category_ids@[i])@ == uuid_text(categories[i])
    &&& config_view(item.attributes) == ConfigView::Object(template_attributes(editor_type, defaults))
    &&& item.template_metadata_id@ == uuid_text(template_id)
    &&& item.template_metadata_version == template_version
    &&& match profile {
        None => item.profiles is None,
        Some(p) => item.profiles matches Some(v) && v@.len() == 1 && v@[0].profile_id@ == uuid_text(p)
            && v@[0].relationship@ == "author"@,
    }
}

fn template_item(
    title: &str,
    content_type: &str,
    parent: Option<u128>,
    categories: &Vec<u128>,
    editor_type: &str,
    defaults: &Option<ConfigValue>,
    template_id: u128,
    template_version: i32,
    profile: Option<u128>,
) -> (r: NewTemplateItem)
    ensures
        made_from_template(r, title@, content_type@, parent, categories@, editor_type@, *defaults, template_id, template_version, profile),
{
    let parent_collection_id = match parent {
        Some(p) => Some(uuid_to_string(p)),
        None => None,
    };
    NewTemplateItem {
        name: String::from_str(title),
        content_type: String::from_str(content_type),
        parent_collection_id,
        category_ids: id_texts(categories),
        attributes: template_item_attributes(editor_type, defaults),
        template_metadata_id: uuid_to_string(template_id),
        template_metadata_version: template_version,
        document_title: String::from_str(title),
        profiles: author_profiles(profile),
    }
}

/// The guide made from a guide template: "New Guide", a guide, in the given
/// collection and the categories of that collection, edited as a guide.
pub fn new_guide_item(
    parent: u128,
    categories: &Vec<u128>,
    template_id: u128,
    template_version: i32,
    defaults: &Option<ConfigValue>,
    profile: Option<u128>,
) -> (r: NewTemplateItem)
    ensures
        made_from_template(r, "New Guide"@, "bosca/v-guide"@, Some(parent), categories@, "Guide"@, *defaults, template_id, template_version, profile),
{
    template_item("New Guide", "bosca/v-guide", Some(parent), categories, "Guide", defaults, template_id, template_version, profile)
}

/// The document made from a document template: titled as asked, of the
/// asked content type, in the given collection if any, in the template's
/// categories, edited with the template's editor.
pub fn new_document_item(
    parent: Option<u128>,
    title: &str,
    content_type: &str,
    editor_type: &str,
    categories: &Vec<u128>,
    template_id: u128,
    template_version: i32,
    defaults: &Option<ConfigValue>,
    profile: Option<u128>,
) -> (r: NewTemplateItem)
    ensures
        made_from_template(r, title@, content_type@, parent, categories@, editor_type@, *defaults, template_id, template_version, profile),
{
    template_item(title, content_type, parent, categories, editor_type, defaults, template_id, template_version, profile)
}

/// A step of a new guide, made from the template step at `index`.
#[derive(Debug)]
pub struct GuideStepPlan {
    /// The title of the step's document.
    pub title: String,
    /// The content type of the step's document.
    pub content_type: String,
    /// The template the step's document is made from.
    pub template_metadata_id: u128,
    pub template_metadata_version: i32,
    /// The step's position in the guide.
    pub sort: i32,
}

/// The steps of a new guide: one per template step, in order, each titled by
/// its position, placed at it, and made from that template step.
pub fn guide_step_plans(template_steps: &Vec<(u128, i32)>) -> (r: Vec<GuideStepPlan>)
    requires
        template_steps@.len() < i64::MAX,
    ensures
        r@.len() == template_steps@.len(),
        forall|i: int| 0 <= i < r@.len() ==> {
            &&& (#[trigger] r@[i]).title@ == numbered_title("New Step"@, i)
            &&& r@[i].content_type@ == "bosca/v-guide-step"@
            &&& r@[i].template_metadata_id == template_steps@[i].0
            &&& r@[i].template_metadata_version == template_steps@[i].1
            &&& r@[i].sort == i as i32
        },
{
    let mut r: Vec<GuideStepPlan> = Vec::new();
    let mut i: usize = 0;
    while i < template_steps.len()
        invariant
            i <= template_steps@.len(),
            template_steps@.len() < i64::MAX,
            r@.len() == i,
            forall|k: int| 0 <= k < i ==> {
                &&& (#[trigger] r@[k]).title@ == numbered_title("New Step"@, k)
                &&& r@[k].content_type@ == "bosca/v-guide-step"@
                &&& r@[k].template_metadata_id == template_steps@[k].0
                &&& r@[k].template_metadata_version == template_steps@[k].1
                &&& r@[k].sort == k as i32
            },
        decreases template_steps@.len() - i,
    {
        let (id, version) = template_steps[i];
        r.push(GuideStepPlan {
            title: guide_step_title(i),
            content_type: String::from_str("bosca/v-guide-step"),
            template_metadata_id: id,
            template_metadata_version: version,
            sort: i as i32,
        });
        i += 1;
    }
    r
}

/// The row that links a new step to its guide: the guide's id and version,
/// the step document's id and version, and the step's position.
#[derive(Clone, Copy, PartialEq, Eq, Structural, Debug)]
pub struct GuideStepRow {
    pub metadata_id: u128,
    pub metadata_version: i32,
    pub step_metadata_id: u128,
    pub step_metadata_version: i32,
    pub sort: i32,
}

/// The row of the step added at `index` of a guide, once its document was
/// added.
pub fn guide_step_row(metadata_id: u128, metadata_version: i32, index: usize, step_document: (u128, i32)) -> (r: GuideStepRow)
    ensures
        r == (GuideStepRow {
            metadata_id: metadata_id,
            metadata_version: metadata_version,
            step_metadata_id: step_document.0,
            step_metadata_version: step_document.1,
            sort: index as i32,
        }),
{
    GuideStepRow {
        metadata_id,
        metadata_version,
        step_metadata_id: step_document.0,
        step_metadata_version: step_document.1,
        sort: index as i32,
    }
}

} // verus!
