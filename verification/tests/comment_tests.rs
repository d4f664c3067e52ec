use bosca_server::comments::{comment_audience, comment_visible, moderate_comment, CommentAudience, CommentRow};

fn row(profile_id: u128, public: bool, approved: bool) -> CommentRow {
    CommentRow { profile_id, public, approved, deleted: false }
}

#[test]
fn audiences() {
    assert_eq!(comment_audience(true, Some(1)), CommentAudience::Manager);
    assert_eq!(comment_audience(false, Some(1)), CommentAudience::Profile(1));
    assert_eq!(comment_audience(false, None), CommentAudience::Public);
}

#[test]
fn visibility_rules() {
    let approved_public = row(1, true, true);
    let pending = row(1, true, false);
    assert!(comment_visible(CommentAudience::Public, &approved_public));
    assert!(!comment_visible(CommentAudience::Public, &pending));
    assert!(comment_visible(CommentAudience::Profile(1), &pending));
    assert!(!comment_visible(CommentAudience::Profile(2), &pending));
    assert!(comment_visible(CommentAudience::Manager, &pending));
    let private = row(3, false, true);
    assert!(!comment_visible(CommentAudience::Public, &private));
    assert!(comment_visible(CommentAudience::Profile(3), &private));
}

#[test]
fn blocked_comments_disappear() {
    let c = moderate_comment(&row(1, true, true), false, true);
    assert!(c.deleted && !c.approved);
    for audience in [CommentAudience::Manager, CommentAudience::Profile(1), CommentAudience::Public] {
        assert!(!comment_visible(audience, &c));
    }
    let approved = moderate_comment(&row(1, true, false), true, false);
    assert!(approved.approved && !approved.deleted);
    assert!(comment_visible(CommentAudience::Public, &approved));
}
