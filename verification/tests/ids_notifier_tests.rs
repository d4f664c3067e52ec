use bosca_server::ids::{append_uuid, hex_encode, uuid_to_string};
use bosca_server::notifier::{channel_name, Channel, Notifier};

const SAMPLE: u128 = 0x67e5504410b1426f9247bb680e5fe0c8;

#[test]
fn uuid_text_is_hyphenated_lower_case() {
    assert_eq!(uuid_to_string(SAMPLE), "67e55044-10b1-426f-9247-bb680e5fe0c8");
    assert_eq!(uuid_to_string(0), "00000000-0000-0000-0000-000000000000");
    assert_eq!(uuid_to_string(u128::MAX), "ffffffff-ffff-ffff-ffff-ffffffffffff");
}

#[test]
fn uuid_text_agrees_with_the_uuid_crate() {
    for id in [SAMPLE, 1, 0xdeadbeef, u128::MAX - 1, 1u128 << 100] {
        assert_eq!(uuid_to_string(id), uuid::Uuid::from_u128(id).to_string());
    }
}

#[test]
fn append_uuid_appends() {
    let mut s = "principal.".to_string();
    append_uuid(&mut s, 1);
    assert_eq!(s, "principal.00000000-0000-0000-0000-000000000001");
}

#[test]
fn hex_encode_two_digits_per_byte() {
    assert_eq!(hex_encode(&[0x00, 0xab, 0x10]), "00ab10");
    assert_eq!(hex_encode(&[]), "");
    let bytes = *uuid::Uuid::from_u128(SAMPLE).as_bytes();
    assert_eq!(hex_encode(&bytes), "67e5504410b1426f9247bb680e5fe0c8");
}

#[test]
fn channel_names() {
    assert_eq!(channel_name(Channel::WorkflowPlanFinished), "workflow_plan_finished");
    assert_eq!(channel_name(Channel::MetadataSupplementaryChanges), "metadata_supplementary_changes");
    assert_eq!(channel_name(Channel::StateChanges), "state_changes");
    assert_eq!(channel_name(Channel::WorkflowActivityChanges), "workflow_activity_changes");
}

#[test]
fn id_changes_are_published_as_uuid_text() {
    let n = Notifier::new();
    let p = n.metadata_changed(SAMPLE);
    assert_eq!(p.channel, Channel::MetadataChanges);
    assert_eq!(p.payload, "67e55044-10b1-426f-9247-bb680e5fe0c8");
    assert_eq!(n.category_changed(1).channel, Channel::CategoryChanges);
    assert_eq!(n.collection_changed(2).payload, "00000000-0000-0000-0000-000000000002");
    assert_eq!(n.workflow_schedule_changed(3).channel, Channel::WorkflowScheduleChanges);
}

#[test]
fn text_changes_are_published_as_given() {
    let n = Notifier::new();
    let p = n.workflow_changed("wf.process");
    assert_eq!((p.channel, p.payload.as_str()), (Channel::WorkflowChanges, "wf.process"));
    assert_eq!(n.activity_changed("a").channel, Channel::ActivityChanges);
    assert_eq!(n.trait_changed("t").channel, Channel::TraitChanges);
    assert_eq!(n.storage_system_changed("s").channel, Channel::StorageSystemChanges);
    assert_eq!(n.model_changed("m").channel, Channel::ModelChanges);
    assert_eq!(n.prompt_changed("p").channel, Channel::PromptChanges);
    assert_eq!(n.state_changed("draft").payload, "draft");
    assert_eq!(n.configuration_changed("key").channel, Channel::ConfigurationChanges);
}

#[test]
fn workflow_activity_changes_carry_the_decimal_id() {
    let n = Notifier::new();
    assert_eq!(n.workflow_activity_changed(42).payload, "42");
    assert_eq!(n.workflow_activity_changed(-7).payload, "-7");
}

#[test]
fn supplementary_and_transition_announcements() {
    let n = Notifier::new();
    let s = n.metadata_supplementary_changed(1, 2, "thumbnail", Some("plan".to_string()));
    assert_eq!(s.id, "00000000-0000-0000-0000-000000000001");
    assert_eq!(s.content_id, "00000000-0000-0000-0000-000000000002");
    assert_eq!(s.key, "thumbnail");
    assert_eq!(s.plan_id.as_deref(), Some("plan"));
    let c = n.collection_supplementary_changed(3, 4, "k", Some(SAMPLE));
    assert_eq!(c.plan_id.as_deref(), Some("67e55044-10b1-426f-9247-bb680e5fe0c8"));
    assert!(n.collection_supplementary_changed(3, 4, "k", None).plan_id.is_none());
    let t = n.transition_changed("draft", "published");
    assert_eq!((t.from_state_id.as_str(), t.to_state_id.as_str()), ("draft", "published"));
}
