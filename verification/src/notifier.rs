use vstd::prelude::*;
use crate::ids::{uuid_text, uuid_to_string};
use crate::text::{append_decimal, decimal};

verus! {

/// The publish/subscribe channels on which the server announces changes.
#[derive(Clone, Copy, PartialEq, Eq, Structural, Debug)]
pub enum Channel {
    WorkflowPlanFinished,
    WorkflowPlanFailed,
    CategoryChanges,
    ConfigurationChanges,
    MetadataChanges,
    MetadataSupplementaryChanges,
    CollectionSupplementaryChanges,
    TransitionChanges,
    CollectionChanges,
    WorkflowChanges,
    WorkflowActivityChanges,
    WorkflowScheduleChanges,
    ActivityChanges,
    TraitChanges,
    StorageSystemChanges,
    ModelChanges,
    PromptChanges,
    StateChanges,
}

/// The name of a channel.
pub open spec fn channel_text(c: Channel) -> Seq<char> {
    match c {
        Channel::WorkflowPlanFinished => "workflow_plan_finished"@,
        Channel::WorkflowPlanFailed => "workflow_plan_failed"@,
        Channel::CategoryChanges => "category_changes"@,
        Channel::ConfigurationChanges => "configuration_changes"@,
        Channel::MetadataChanges => "metadata_changes"@,
        Channel::MetadataSupplementaryChanges => "metadata_supplementary_changes"@,
        Channel::CollectionSupplementaryChanges => "collection_supplementary_changes"@,
        Channel::TransitionChanges => "transition_changes"@,
        Channel::CollectionChanges => "collection_changes"@,
        Channel::WorkflowChanges => "workflow_changes"@,
        Channel::WorkflowActivityChanges => "workflow_activity_changes"@,
        Channel::WorkflowScheduleChanges => "workflow_schedule_changes"@,
        Channel::ActivityChanges => "activity_changes"@,
        Channel::TraitChanges => "trait_changes"@,
        Channel::StorageSystemChanges => "storage_system_changes"@,
        Channel::ModelChanges => "model_changes"@,
        Channel::PromptChanges => "prompt_changes"@,
        Channel::StateChanges => "state_changes"@,
    }
}

/// The name of a channel.
pub fn channel_name(c: Channel) -> (r: &'static str)
    ensures
        r@ == channel_text(c),
{
    match c {
        Channel::WorkflowPlanFinished => "workflow_plan_finished",
        Channel::WorkflowPlanFailed => "workflow_plan_failed",
        Channel::CategoryChanges => "category_changes",
        Channel::ConfigurationChanges => "configuration_changes",
        Channel::MetadataChanges => "metadata_changes",
        Channel::MetadataSupplementaryChanges => "metadata_supplementary_changes",
        Channel::CollectionSupplementaryChanges => "collection_supplementary_changes",
        Channel::TransitionChanges => "transition_changes",
        Channel::CollectionChanges => "collection_changes",
        Channel::WorkflowChanges => "workflow_changes",
        Channel::WorkflowActivityChanges => "workflow_activity_changes",
        Channel::WorkflowScheduleChanges => "workflow_schedule_changes",
        Channel::ActivityChanges => "activity_changes",
        Channel::TraitChanges => "trait_changes",
        Channel::StorageSystemChanges => "storage_system_changes",
        Channel::ModelChanges => "model_changes",
        Channel::PromptChanges => "prompt_changes",
        Channel::StateChanges => "state_changes",
    }
}

/// Three facts that tell the channel names apart: length, first character
/// and tenth character.
spec fn name_key(s: Seq<char>) -> (int, char, char) {
    (s.len() as int, s[0], s[9])
}

spec fn channel_key(c: Channel) -> (int, char, char) {
    match c {
        Channel::WorkflowPlanFinished => (22int, 'w', 'p'),
        Channel::WorkflowPlanFailed => (20int, 'w', 'p'),
        Channel::CategoryChanges => (16int, 'c', 'c'),
        Channel::ConfigurationChanges => (21int, 'c', 't'),
        Channel::MetadataChanges => (16int, 'm', 'c'),
        Channel::MetadataSupplementaryChanges => (30int, 'm', 's'),
        Channel::CollectionSupplementaryChanges => (32int, 'c', 'n'),
        Channel::TransitionChanges => (18int, 't', 'n'),
        Channel::CollectionChanges => (18int, 'c', 'n'),
        Channel::WorkflowChanges => (16int, 'w', 'c'),
        Channel::WorkflowActivityChanges => (25int, 'w', 'a'),
        Channel::WorkflowScheduleChanges => (25int, 'w', 's'),
        Channel::ActivityChanges => (16int, 'a', 'c'),
        Channel::TraitChanges => (13int, 't', 'n'),
        Channel::StorageSystemChanges => (22int, 's', 'y'),
        Channel::ModelChanges => (13int, 'm', 'n'),
        Channel::PromptChanges => (14int, 'p', 'a'),
        Channel::StateChanges => (13int, 's', 'n'),
    }
}

proof fn lemma_channel_key(c: Channel)
    ensures
        channel_text(c).len() >= 10,
        name_key(channel_text(c)) == channel_key(c),
{
    reveal_strlit("workflow_plan_finished");
    reveal_strlit("workflow_plan_failed");
    reveal_strlit("category_changes");
    reveal_strlit("configuration_changes");
    reveal_strlit("metadata_changes");
    reveal_strlit("metadata_supplementary_changes");
    reveal_strlit("collection_supplementary_changes");
    reveal_strlit("transition_changes");
    reveal_strlit("collection_changes");
    reveal_strlit("workflow_changes");
    reveal_strlit("workflow_activity_changes");
    reveal_strlit("workflow_schedule_changes");
    reveal_strlit("activity_changes");
    reveal_strlit("trait_changes");
    reveal_strlit("storage_system_changes");
    reveal_strlit("model_changes");
    reveal_strlit("prompt_changes");
    reveal_strlit("state_changes");
}

/// Every channel has a name of its own, so that listeners of one channel
/// never hear another's announcements; collection changes go out on
/// `collection_changes`, the channel their listeners subscribe to.
pub proof fn law_channel_names_distinct(a: Channel, b: Channel)
    ensures
        a != b ==> channel_text(a) != channel_text(b),
        channel_text(Channel::CollectionChanges) == "collection_changes"@,
        channel_text(Channel::CategoryChanges) == "category_changes"@,
        channel_text(Channel::MetadataChanges) == "metadata_changes"@,
{
    lemma_channel_key(a);
    lemma_channel_key(b);
}

/// A message to publish: its channel and its text.
#[derive(Debug)]
pub struct Publication {
    pub channel: Channel,
    pub payload: String,
}

/// The announcement that a supplementary file changed.
#[derive(Debug)]
pub struct SupplementaryIdObject {
    pub id: String,
    pub content_id: String,
    pub key: String,
    pub plan_id: Option<String>,
}

/// The announcement that a workflow transition changed.
#[derive(Debug)]
pub struct TransitionIdObject {
    pub from_state_id: String,
    pub to_state_id: String,
}

fn id_publication(channel: Channel, id: u128) -> (p: Publication)
    ensures
        p.channel == channel,
        p.payload@ == uuid_text(id),
{
    Publication { channel, payload: uuid_to_string(id) }
}

fn text_publication(channel: Channel, id: &str) -> (p: Publication)
    ensures
        p.channel == channel,
        p.payload@ == id@,
{
    Publication { channel, payload: String::from_str(id) }
}

/// Announces changes to subscribers: each method gives the message that
/// goes out for one kind of change, which the caller then publishes.
pub struct Notifier {}

impl Notifier {
    /// A notifier.
    pub fn new() -> (n: Notifier) {
        Notifier {}
    }

    /// Announces a changed category: its id on the category channel.
    pub fn category_changed(&self, id: u128) -> (p: Publication)
        ensures
            p.channel == Channel::CategoryChanges,
            p.payload@ == uuid_text(id),
    {
        id_publication(Channel::CategoryChanges, id)
    }

    /// Announces changed metadata: its id on the metadata channel.
    pub fn metadata_changed(&self, id: u128) -> (p: Publication)
        ensures
            p.channel == Channel::MetadataChanges,
            p.payload@ == uuid_text(id),
    {
        id_publication(Channel::MetadataChanges, id)
    }

    /// Announces a changed collection: its id on the collection channel.
    pub fn collection_changed(&self, id: u128) -> (p: Publication)
        ensures
            p.channel == Channel::CollectionChanges,
            p.payload@ == uuid_text(id),
    {
        id_publication(Channel::CollectionChanges, id)
    }

    /// Announces a changed workflow schedule: its id on the schedule channel.
    pub fn workflow_schedule_changed(&self, id: u128) -> (p: Publication)
        ensures
            p.channel == Channel::WorkflowScheduleChanges,
            p.payload@ == uuid_text(id),
    {
        id_publication(Channel::WorkflowScheduleChanges, id)
    }

    /// Announces a changed workflow: its id on the workflow channel.
    pub fn workflow_changed(&self, id: &str) -> (p: Publication)
        ensures
            p.channel == Channel::WorkflowChanges,
            p.payload@ == id@,
    {
        text_publication(Channel::WorkflowChanges, id)
    }

    /// Announces a changed workflow activity: its number, in decimal.
    pub fn workflow_activity_changed(&self, id: i64) -> (p: Publication)
        ensures
            p.channel == Channel::WorkflowActivityChanges,
            p.payload@ == decimal(id as int),
    {
        let mut payload = String::new();
        append_decimal(&mut payload, id);
        proof {
            assert(payload@ =~= decimal(id as int));
        }
        Publication { channel: Channel::WorkflowActivityChanges, payload }
    }

    /// Announces a changed activity: its id on the activity channel.
    pub fn activity_changed(&self, id: &str) -> (p: Publication)
        ensures
            p.channel == Channel::ActivityChanges,
            p.payload@ == id@,
    {
        text_publication(Channel::ActivityChanges, id)
    }

    /// Announces a changed trait: its id on the trait channel.
    pub fn trait_changed(&self, id: &str) -> (p: Publication)
        ensures
            p.channel == Channel::TraitChanges,
            p.payload@ == id@,
    {
        text_publication(Channel::TraitChanges, id)
    }

    /// Announces a changed storage system: its id on the storage system channel.
    pub fn storage_system_changed(&self, id: &str) -> (p: Publication)
        ensures
            p.channel == Channel::StorageSystemChanges,
            p.payload@ == id@,
    {
        text_publication(Channel::StorageSystemChanges, id)
    }

    /// Announces a changed model: its id on the model channel.
    pub fn model_changed(&self, id: &str) -> (p: Publication)
        ensures
            p.channel == Channel::ModelChanges,
            p.payload@ == id@,
    {
        text_publication(Channel::ModelChanges, id)
    }

    /// Announces a changed prompt: its id on the prompt channel.
    pub fn prompt_changed(&self, id: &str) -> (p: Publication)
        ensures
            p.channel == Channel::PromptChanges,
            p.payload@ == id@,
    {
        text_publication(Channel::PromptChanges, id)
    }

    /// Announces a changed workflow state: its id on the state channel.
    pub fn state_changed(&self, id: &str) -> (p: Publication)
        ensures
            p.channel == Channel::StateChanges,
            p.payload@ == id@,
    {
        text_publication(Channel::StateChanges, id)
    }

    /// Announces a changed configuration: its id on the configuration channel.
    pub fn configuration_changed(&self, id: &str) -> (p: Publication)
        ensures
            p.channel == Channel::ConfigurationChanges,
            p.payload@ == id@,
    {
        text_publication(Channel::ConfigurationChanges, id)
    }

    /// The announcement of a changed transition, published as JSON on the
    /// transition channel.
    pub fn transition_changed(&self, from_state_id: &str, to_state_id: &str) -> (t: TransitionIdObject)
        ensures
            t.from_state_id@ == from_state_id@,
            t.to_state_id@ == to_state_id@,
    {
        TransitionIdObject { from_state_id: String::from_str(from_state_id), to_state_id: String::from_str(to_state_id) }
    }

    /// The announcement of a changed metadata supplementary file, published as
    /// JSON on the metadata supplementary channel.
    pub fn metadata_supplementary_changed(&self, supplementary_id: u128, metadata_id: u128, key: &str, plan_id: Option<String>) -> (s: SupplementaryIdObject)
        ensures
            s.id@ == uuid_text(supplementary_id),
            s.content_id@ == uuid_text(metadata_id),
            s.key@ == key@,
            s.plan_id == plan_id,
    {
        SupplementaryIdObject {
            id: uuid_to_string(supplementary_id),
            content_id: uuid_to_string(metadata_id),
            key: String::from_str(key),
            plan_id,
        }
    }

    /// The announcement of a changed collection supplementary file, published
    /// as JSON on the collection supplementary channel.
    pub fn collection_supplementary_changed(&self, supplementary_id: u128, collection_id: u128, key: &str, plan_id: Option<u128>) -> (s: SupplementaryIdObject)
        ensures
            s.id@ == uuid_text(supplementary_id),
            s.content_id@ == uuid_text(collection_id),
            s.key@ == key@,
            match plan_id {
                Some(p) => s.plan_id matches Some(t) && t@ == uuid_text(p),
                None => s.plan_id is None,
            },
    {
        let plan = match plan_id {
            Some(p) => Some(uuid_to_string(p)),
            None => None,
        };
        SupplementaryIdObject {
            id: uuid_to_string(supplementary_id),
            content_id: uuid_to_string(collection_id),
            key: String::from_str(key),
            plan_id: plan,
        }
    }
}

} // verus!
