use vstd::prelude::*;

verus! {

/// Who is reading comments: a manager of the metadata, a signed-in profile,
/// or the public.
#[derive(Clone, Copy, PartialEq, Eq, Structural, Debug)]
pub enum CommentAudience {
    Manager,
    Profile(u128),
    Public,
}

/// Decides who is reading: managers first, then a reader with a profile.
pub fn comment_audience(manager: bool, profile_id: Option<u128>) -> (r: CommentAudience)
    ensures
        r == (if manager {
            CommentAudience::Manager
        } else {
            match profile_id {
                Some(p) => CommentAudience::Profile(p),
                None => CommentAudience::Public,
            }
        }),
{
    if manager {
        CommentAudience::Manager
    } else {
        match profile_id {
            Some(p) => CommentAudience::Profile(p),
            None => CommentAudience::Public,
        }
    }
}

/// The part of a comment that decides who sees it.
#[derive(Clone, Copy, PartialEq, Eq, Structural, Debug)]
pub struct CommentRow {
    /// The author's profile.
    pub profile_id: u128,
    /// Whether its visibility is public.
    pub public: bool,
    /// Whether its status is approved.
    pub approved: bool,
    pub deleted: bool,
}

/// Whether a comment is shown: never once deleted; to managers always; to
/// others when it is public and approved, and to its author as well.
pub open spec fn comment_shown(audience: CommentAudience, c: CommentRow) -> bool {
    !c.deleted && match audience {
        CommentAudience::Manager => true,
        CommentAudience::Profile(p) => (c.public && c.approved) || c.profile_id == p,
        CommentAudience::Public => c.public && c.approved,
    }
}

/// Whether a comment is shown to the audience.
pub fn comment_visible(audience: CommentAudience, c: &CommentRow) -> (r: bool)
    ensures
        r == comment_shown(audience, *c),
{
    if c.deleted {
        return false;
    }
    match audience {
        CommentAudience::Manager => true,
        CommentAudience::Profile(p) => (c.public && c.approved) || c.profile_id == p,
        CommentAudience::Public => c.public && c.approved,
    }
}

/// A comment after a moderator set its status: blocking also deletes it;
/// approving makes it approved; any other status leaves it unapproved.
pub open spec fn moderated(c: CommentRow, approved: bool, blocked: bool) -> CommentRow {
    CommentRow {
        approved: approved && !blocked,
        deleted: c.deleted || blocked,
        ..c
    }
}

/// Applies a moderator's status to a comment.
pub fn moderate_comment(c: &CommentRow, approved: bool, blocked: bool) -> (r: CommentRow)
    ensures
        r == moderated(*c, approved, blocked),
{
    CommentRow { approved: approved && !blocked, deleted: c.deleted || blocked, ..*c }
}

/// What any reader sees, a manager sees; an author sees each of their
/// comments that is not deleted; and a blocked comment is shown to no one.
pub proof fn law_comment_visibility(audience: CommentAudience, c: CommentRow, approved: bool)
    ensures
        comment_shown(audience, c) ==> comment_shown(CommentAudience::Manager, c),
        comment_shown(CommentAudience::Public, c) ==> comment_shown(audience, c),
        !c.deleted ==> comment_shown(CommentAudience::Profile(c.profile_id), c),
        !comment_shown(audience, moderated(c, approved, true)),
{
}

/// A signed-in reader sees another profile's comment exactly when the
/// public does: when it is public, approved and not deleted. A private or
/// unapproved comment reaches only its author and the managers.
pub proof fn law_others_see_only_public_approved(p: u128, c: CommentRow)
    ensures
        c.profile_id != p ==> (comment_shown(CommentAudience::Profile(p), c) == comment_shown(CommentAudience::Public, c)),
        comment_shown(CommentAudience::Public, c) == (c.public && c.approved && !c.deleted),
        (!c.public || !c.approved) && c.profile_id != p ==> !comment_shown(CommentAudience::Profile(p), c),
{
}

} // verus!
