use crate::config::Local;
use crate::federation::discipline::inbox_run;
use crate::federation::inbox::{
    actor_row, inbox_begins, inbox_continues, user_row, Draft, InboxAction, InboxEvent,
    InboxRequest, InboxState, Job, Pending,
};
use crate::fresh::Fresh;
use crate::time::Timestamp;
use crate::types::ap;
use crate::types::db::{ActorView, FollowView, PostView, UserView};
use vstd::prelude::*;

verus! {

/// What the federation engine expects of the data store: the rows of its
/// tables and what each operation of its interface does to them. Inserts
/// leave a table alone where a row with the same key is there already.
pub struct Store {
    pub actors: Seq<ActorView>,
    pub users: Seq<UserView>,
    pub follows: Seq<FollowView>,
    pub posts: Seq<PostView>,
}

impl Store {
    pub open spec fn has_actor(self, id: Seq<char>) -> bool {
        exists|i: int| 0 <= i < self.actors.len() && #[trigger] self.actors[i].id == id
    }

    pub open spec fn has_user_of(self, actor: Seq<char>) -> bool {
        exists|i: int| 0 <= i < self.users.len() && #[trigger] self.users[i].actor.id == actor
    }

    pub open spec fn has_follow(self, id: Seq<char>) -> bool {
        exists|i: int| 0 <= i < self.follows.len() && #[trigger] self.follows[i].id == id
    }

    pub open spec fn has_post(self, uri: Seq<char>) -> bool {
        exists|i: int| 0 <= i < self.posts.len() && #[trigger] self.posts[i].uri == uri
    }

    /// Exactly one actor row has the id.
    pub open spec fn one_actor(self, id: Seq<char>) -> bool {
        exists|i: int|
            0 <= i < self.actors.len() && #[trigger] self.actors[i].id == id && forall|j: int|
                0 <= j < self.actors.len() && #[trigger] self.actors[j].id == id ==> j == i
    }

    /// Exactly one user row belongs to the actor.
    pub open spec fn one_user_of(self, actor: Seq<char>) -> bool {
        exists|i: int|
            0 <= i < self.users.len() && #[trigger] self.users[i].actor.id == actor && forall|
                j: int,
            |
                0 <= j < self.users.len() && #[trigger] self.users[j].actor.id == actor ==> j == i
    }

    /// Exactly one post row has the address.
    pub open spec fn one_post(self, uri: Seq<char>) -> bool {
        exists|i: int|
            0 <= i < self.posts.len() && #[trigger] self.posts[i].uri == uri && forall|j: int|
                0 <= j < self.posts.len() && #[trigger] self.posts[j].uri == uri ==> j == i
    }

    /// No two actors share an id, no two users an actor, no two posts an
    /// address.
    pub open spec fn keys_unique(self) -> bool {
        &&& forall|i: int, j: int|
            0 <= i < self.actors.len() && 0 <= j < self.actors.len() && #[trigger] self.actors[i].id
                == #[trigger] self.actors[j].id ==> i == j
        &&& forall|i: int, j: int|
            0 <= i < self.users.len() && 0 <= j < self.users.len()
                && #[trigger] self.users[i].actor.id == #[trigger] self.users[j].actor.id ==> i
                == j
        &&& forall|i: int, j: int|
            0 <= i < self.posts.len() && 0 <= j < self.posts.len() && #[trigger] self.posts[i].uri
                == #[trigger] self.posts[j].uri ==> i == j
    }

    /// What a user row refers to is there: its actor.
    pub open spec fn user_linked(self, user: UserView) -> bool {
        self.has_actor(user.actor.id)
    }

    /// What a post row refers to is there: its author, and the post that it
    /// boosts.
    pub open spec fn post_linked(self, post: PostView) -> bool {
        &&& self.has_user_of(post.user.actor.id)
        &&& post.boosted_post matches Some(original) ==> self.has_post(original.uri)
    }

    /// What a follow edge refers to is there: the actors at both ends.
    pub open spec fn follow_linked(self, follow: FollowView) -> bool {
        &&& self.has_actor(follow.follower)
        &&& self.has_actor(follow.followed)
    }

    /// Every row finds what it refers to.
    pub open spec fn linked(self) -> bool {
        &&& forall|i: int| 0 <= i < self.users.len() ==> self.user_linked(#[trigger] self.users[i])
        &&& forall|i: int| 0 <= i < self.posts.len() ==> self.post_linked(#[trigger] self.posts[i])
        &&& forall|i: int|
            0 <= i < self.follows.len() ==> self.follow_linked(#[trigger] self.follows[i])
    }

    pub open spec fn well_formed(self) -> bool {
        self.keys_unique() && self.linked()
    }

    /// Everything that `self` holds, `later` holds too.
    pub open spec fn kept_in(self, later: Store) -> bool {
        &&& forall|id: Seq<char>| self.has_actor(id) ==> #[trigger] later.has_actor(id)
        &&& forall|id: Seq<char>| self.has_user_of(id) ==> #[trigger] later.has_user_of(id)
        &&& forall|id: Seq<char>| self.has_post(id) ==> #[trigger] later.has_post(id)
        &&& forall|id: Seq<char>| self.has_follow(id) ==> #[trigger] later.has_follow(id)
    }

    /// `new_actor`: the actor is added unless its id is taken.
    pub open spec fn new_actor(self, actor: ActorView) -> Store {
        if self.has_actor(actor.id) {
            self
        } else {
            Store { actors: self.actors.push(actor), ..self }
        }
    }

    /// `user_by_actor_uri`: the user of the actor, if there is one.
    pub open spec fn user_by_actor_uri(self, actor: Seq<char>) -> Option<UserView> {
        if self.has_user_of(actor) {
            Some(
                self.users[choose|i: int|
                    0 <= i < self.users.len() && #[trigger] self.users[i].actor.id == actor],
            )
        } else {
            None
        }
    }

    /// `new_user`: the user is added unless its actor has one.
    pub open spec fn new_user(self, user: UserView) -> Store {
        if self.has_user_of(user.actor.id) {
            self
        } else {
            Store { users: self.users.push(user), ..self }
        }
    }

    /// `new_follow`: the edge is added unless its id is taken.
    pub open spec fn new_follow(self, follow: FollowView) -> Store {
        if self.has_follow(follow.id) {
            self
        } else {
            Store { follows: self.follows.push(follow), ..self }
        }
    }

    /// `new_post`: the post is added, with its attachments, unless its
    /// address is taken.
    pub open spec fn new_post(self, post: PostView) -> Store {
        if self.has_post(post.uri) {
            self
        } else {
            Store { posts: self.posts.push(post), ..self }
        }
    }

    /// What resolving an actor does to the store and which user it gives:
    /// the actor's row first, then the user that the actor has, or else
    /// `candidate`, which becomes its user.
    pub open spec fn resolve(self, actor: ActorView, candidate: UserView) -> (Store, UserView) {
        let with_actor = self.new_actor(actor);
        let user = match with_actor.user_by_actor_uri(actor.id) {
            Some(found) => found,
            None => candidate,
        };
        (with_actor.new_user(user), user)
    }
}

/// A table that only grew by a row keeps what it held.
proof fn lemma_kept_in(s: Store, t: Store)
    requires
        t.actors == s.actors || exists|a: ActorView| t.actors == s.actors.push(a),
        t.users == s.users || exists|u: UserView| t.users == s.users.push(u),
        t.posts == s.posts || exists|p: PostView| t.posts == s.posts.push(p),
        t.follows == s.follows || exists|f: FollowView| t.follows == s.follows.push(f),
    ensures
        s.kept_in(t),
{
    assert forall|id: Seq<char>| s.has_actor(id) implies #[trigger] t.has_actor(id) by {
        let i = choose|i: int| 0 <= i < s.actors.len() && #[trigger] s.actors[i].id == id;
        assert(t.actors[i].id == id);
    }
    assert forall|id: Seq<char>| s.has_user_of(id) implies #[trigger] t.has_user_of(id) by {
        let i = choose|i: int| 0 <= i < s.users.len() && #[trigger] s.users[i].actor.id == id;
        assert(t.users[i].actor.id == id);
    }
    assert forall|id: Seq<char>| s.has_post(id) implies #[trigger] t.has_post(id) by {
        let i = choose|i: int| 0 <= i < s.posts.len() && #[trigger] s.posts[i].uri == id;
        assert(t.posts[i].uri == id);
    }
    assert forall|id: Seq<char>| s.has_follow(id) implies #[trigger] t.has_follow(id) by {
        let i = choose|i: int| 0 <= i < s.follows.len() && #[trigger] s.follows[i].id == id;
        assert(t.follows[i].id == id);
    }
}

/// Rows that found what they refer to still find it in a store that kept
/// everything.
proof fn lemma_links_kept(s: Store, t: Store)
    requires
        s.linked(),
        s.kept_in(t),
    ensures
        forall|i: int| 0 <= i < s.users.len() ==> t.user_linked(#[trigger] s.users[i]),
        forall|i: int| 0 <= i < s.posts.len() ==> t.post_linked(#[trigger] s.posts[i]),
        forall|i: int| 0 <= i < s.follows.len() ==> t.follow_linked(#[trigger] s.follows[i]),
{
    assert forall|i: int| 0 <= i < s.users.len() implies t.user_linked(#[trigger] s.users[i]) by {
        assert(s.user_linked(s.users[i]));
    }
    assert forall|i: int| 0 <= i < s.posts.len() implies t.post_linked(#[trigger] s.posts[i]) by {
        assert(s.post_linked(s.posts[i]));
    }
    assert forall|i: int| 0 <= i < s.follows.len() implies t.follow_linked(
        #[trigger] s.follows[i],
    ) by {
        assert(s.follow_linked(s.follows[i]));
    }
}

/// Inserting an actor keeps the store well formed and what it held, and
/// leaves exactly one row with the actor's id; a second insert under the
/// same id changes nothing.
pub proof fn new_actor_is_idempotent(s: Store, actor: ActorView, again: ActorView)
    requires
        s.well_formed(),
        again.id == actor.id,
    ensures
        s.new_actor(actor).well_formed(),
        s.kept_in(s.new_actor(actor)),
        s.new_actor(actor).one_actor(actor.id),
        s.new_actor(actor).new_actor(again) == s.new_actor(actor),
{
    let t = s.new_actor(actor);
    if s.has_actor(actor.id) {
        let i = choose|i: int| 0 <= i < s.actors.len() && #[trigger] s.actors[i].id == actor.id;
        assert(t.actors[i].id == actor.id);
    } else {
        let last = s.actors.len() as int;
        assert(t.actors[last].id == actor.id);
    }
    assert(t.has_actor(actor.id));
    lemma_kept_in(s, t);
    lemma_links_kept(s, t);
}

/// Inserting a user whose actor is there keeps the store well formed and
/// what it held, and leaves exactly one user for the actor.
pub proof fn new_user_is_idempotent(s: Store, user: UserView, again: UserView)
    requires
        s.well_formed(),
        s.user_linked(user),
        again.actor.id == user.actor.id,
    ensures
        s.new_user(user).well_formed(),
        s.kept_in(s.new_user(user)),
        s.new_user(user).one_user_of(user.actor.id),
        s.new_user(user).new_user(again) == s.new_user(user),
{
    let t = s.new_user(user);
    if s.has_user_of(user.actor.id) {
        let i = choose|i: int|
            0 <= i < s.users.len() && #[trigger] s.users[i].actor.id == user.actor.id;
        assert(t.users[i].actor.id == user.actor.id);
    } else {
        let last = s.users.len() as int;
        assert(t.users[last].actor.id == user.actor.id);
    }
    assert(t.has_user_of(user.actor.id));
    lemma_kept_in(s, t);
    lemma_links_kept(s, t);
}

/// Inserting a post whose author and original are there keeps the store
/// well formed and what it held, and leaves exactly one row with the
/// post's address; a second post under the same address changes nothing.
pub proof fn new_post_is_idempotent(s: Store, post: PostView, again: PostView)
    requires
        s.well_formed(),
        s.post_linked(post),
        again.uri == post.uri,
    ensures
        s.new_post(post).well_formed(),
        s.kept_in(s.new_post(post)),
        s.new_post(post).one_post(post.uri),
        s.new_post(post).new_post(again) == s.new_post(post),
{
    let t = s.new_post(post);
    if s.has_post(post.uri) {
        let i = choose|i: int| 0 <= i < s.posts.len() && #[trigger] s.posts[i].uri == post.uri;
        assert(t.posts[i].uri == post.uri);
    } else {
        let last = s.posts.len() as int;
        assert(t.posts[last].uri == post.uri);
    }
    assert(t.has_post(post.uri));
    lemma_kept_in(s, t);
    lemma_links_kept(s, t);
}

/// Inserting a follow edge between actors that are there keeps the store
/// well formed and what it held.
pub proof fn new_follow_keeps_links(s: Store, follow: FollowView)
    requires
        s.well_formed(),
        s.follow_linked(follow),
    ensures
        s.new_follow(follow).well_formed(),
        s.kept_in(s.new_follow(follow)),
        s.new_follow(follow).has_follow(follow.id),
{
    let t = s.new_follow(follow);
    if s.has_follow(follow.id) {
    } else {
        let last = s.follows.len() as int;
        assert(t.follows[last].id == follow.id);
    }
    lemma_kept_in(s, t);
    lemma_links_kept(s, t);
}

/// The user that a look-up finds belongs to the actor asked for.
pub proof fn lookup_finds_the_actors_user(s: Store, actor: Seq<char>)
    ensures
        s.user_by_actor_uri(actor) matches Some(found) ==> found.actor.id == actor,
        s.user_by_actor_uri(actor) is Some <==> s.has_user_of(actor),
{
}

/// Resolving an actor keeps the store well formed and what it held, leaves
/// exactly one actor row and one user row for the actor, and gives the
/// user that the store then has for it.
pub proof fn resolve_leaves_one_of_each(s: Store, actor: ActorView, candidate: UserView)
    requires
        s.well_formed(),
        candidate.actor.id == actor.id,
    ensures
        s.resolve(actor, candidate).0.well_formed(),
        s.kept_in(s.resolve(actor, candidate).0),
        s.resolve(actor, candidate).0.one_actor(actor.id),
        s.resolve(actor, candidate).0.one_user_of(actor.id),
        s.resolve(actor, candidate).0.user_by_actor_uri(actor.id) == Some(
            s.resolve(actor, candidate).1,
        ),
        s.resolve(actor, candidate).1.actor.id == actor.id,
{
    new_actor_is_idempotent(s, actor, actor);
    let a = s.new_actor(actor);
    let (t, user) = s.resolve(actor, candidate);
    lookup_finds_the_actors_user(a, actor.id);
    new_user_is_idempotent(a, user, user);
    assert(t.one_actor(actor.id)) by {
        let i = choose|i: int|
            0 <= i < a.actors.len() && #[trigger] a.actors[i].id == actor.id && forall|j: int|
                0 <= j < a.actors.len() && #[trigger] a.actors[j].id == actor.id ==> j == i;
        assert(t.actors[i].id == actor.id);
    }
    if a.has_user_of(actor.id) {
        assert(t == a);
    } else {
        let last = a.users.len() as int;
        assert(t.users == a.users.push(candidate));
        assert(t.users[last].actor.id == actor.id);
        assert(t.has_user_of(actor.id));
        let k = choose|k: int| 0 <= k < t.users.len() && #[trigger] t.users[k].actor.id == actor.id;
        assert(k == last);
    }
}

/// Resolving the same actor a second time, whatever its document then says,
/// adds no row and gives the user of the first time unchanged; the store
/// holds exactly one actor row and one user row for it.
pub proof fn resolving_twice_changes_nothing(
    s: Store,
    first: ap::Person,
    first_info: ap::RemoteInfo,
    first_id: Seq<char>,
    first_now: Timestamp,
    second: ap::Person,
    second_info: ap::RemoteInfo,
    second_id: Seq<char>,
    second_now: Timestamp,
    base: Seq<char>,
)
    requires
        s.well_formed(),
        first.obj.id@ == second.obj.id@,
    ensures
        ({
            let once = s.resolve(
                actor_row(first),
                user_row(first, first_info, first_id, first_now, base),
            );
            let twice = once.0.resolve(
                actor_row(second),
                user_row(second, second_info, second_id, second_now, base),
            );
            &&& twice.0 == once.0
            &&& twice.1 == once.1
            &&& twice.0.one_actor(first.obj.id@)
            &&& twice.0.one_user_of(first.obj.id@)
        }),
{
    let a1 = actor_row(first);
    let c1 = user_row(first, first_info, first_id, first_now, base);
    let a2 = actor_row(second);
    resolve_leaves_one_of_each(s, a1, c1);
    let once = s.resolve(a1, c1);
    assert(once.0.one_actor(a2.id));
    assert(once.0.has_actor(a2.id));
    assert(once.0.new_actor(a2) == once.0);
    assert(once.0.has_user_of(a2.id));
}

/// Two inbound messages that name the same actor, unknown so far, handled
/// one after the other: the second finds the actor and the user that the
/// first left, and the store has one actor row for the address, not two.
pub proof fn second_message_finds_first_actor(
    s: Store,
    first: ap::Person,
    first_info: ap::RemoteInfo,
    first_id: Seq<char>,
    first_now: Timestamp,
    second: ap::Person,
    second_info: ap::RemoteInfo,
    second_id: Seq<char>,
    second_now: Timestamp,
    base: Seq<char>,
)
    requires
        s.well_formed(),
        first.obj.id@ == second.obj.id@,
        !s.has_actor(first.obj.id@),
    ensures
        ({
            let after_first = s.resolve(
                actor_row(first),
                user_row(first, first_info, first_id, first_now, base),
            );
            let after_second = after_first.0.resolve(
                actor_row(second),
                user_row(second, second_info, second_id, second_now, base),
            );
            &&& after_first.1 == user_row(first, first_info, first_id, first_now, base)
            &&& after_first.0.actors == s.actors.push(actor_row(first))
            &&& after_second.0.actors == after_first.0.actors
            &&& after_second.0.one_actor(first.obj.id@)
            &&& after_second.1 == after_first.1
        }),
{
    resolving_twice_changes_nothing(
        s,
        first,
        first_info,
        first_id,
        first_now,
        second,
        second_info,
        second_id,
        second_now,
        base,
    );
    let a1 = actor_row(first);
    let with_actor = s.new_actor(a1);
    if with_actor.has_user_of(a1.id) {
        let i = choose|i: int|
            0 <= i < with_actor.users.len() && #[trigger] with_actor.users[i].actor.id == a1.id;
        assert(s.user_linked(s.users[i]));
    }
}

impl Store {
    /// What the handling of a note or of a boost does to the store: the
    /// actor is resolved, and the post is stored in the name of the user
    /// that the actor then has.
    pub open spec fn posted(self, actor: ActorView, candidate: UserView, post: PostView) -> Store {
        let (resolved, user) = self.resolve(actor, candidate);
        resolved.new_post(PostView { user, ..post })
    }
}

/// After an actor's post is handled, the store is well formed still and
/// has the actor, its user and the post, and all that it had.
pub proof fn posted_leaves_its_rows(s: Store, actor: ActorView, candidate: UserView, post: PostView)
    requires
        s.well_formed(),
        candidate.actor.id == actor.id,
        post.boosted_post matches Some(original) ==> s.has_post(original.uri),
    ensures
        s.posted(actor, candidate, post).well_formed(),
        s.posted(actor, candidate, post).has_actor(actor.id),
        s.posted(actor, candidate, post).has_user_of(actor.id),
        s.posted(actor, candidate, post).has_post(post.uri),
        s.kept_in(s.posted(actor, candidate, post)),
{
    resolve_leaves_one_of_each(s, actor, candidate);
    let (resolved, user) = s.resolve(actor, candidate);
    let row = PostView { user, ..post };
    assert(resolved.one_actor(actor.id));
    assert(resolved.has_actor(actor.id));
    assert(resolved.has_user_of(actor.id));
    new_post_is_idempotent(resolved, row, row);
}

/// Where the store has an actor, its user and a post, handling a post of
/// that actor under that address again changes nothing.
pub proof fn posted_again_adds_nothing(s: Store, actor: ActorView, candidate: UserView, post: PostView)
    requires
        s.has_actor(actor.id),
        s.has_user_of(actor.id),
        s.has_post(post.uri),
    ensures
        s.posted(actor, candidate, post) == s,
{
    lookup_finds_the_actors_user(s, actor.id);
}

/// No duplicate rows on a second delivery. A boost is handled as two
/// posts, the original in its author's name and the boost, which points
/// at the original, in the booster's. Where the same boost is delivered
/// again (the same actors, the same addresses of the two posts, whatever
/// else the documents then say and whatever identifiers are drawn), the
/// store after the second handling is the store after the first.
pub proof fn second_delivery_adds_nothing(
    s: Store,
    author: ActorView,
    author_candidate: UserView,
    original: PostView,
    booster: ActorView,
    booster_candidate: UserView,
    boost: PostView,
    author_again: ActorView,
    author_candidate_again: UserView,
    original_again: PostView,
    booster_again: ActorView,
    booster_candidate_again: UserView,
    boost_again: PostView,
)
    requires
        s.well_formed(),
        author_candidate.actor.id == author.id,
        booster_candidate.actor.id == booster.id,
        original.boosted_post is None,
        boost.boosted_post matches Some(pointed) && pointed.uri == original.uri,
        author_again.id == author.id,
        booster_again.id == booster.id,
        original_again.uri == original.uri,
        boost_again.uri == boost.uri,
    ensures
        ({
            let once = s.posted(author, author_candidate, original).posted(
                booster,
                booster_candidate,
                boost,
            );
            &&& once.well_formed()
            &&& once.posted(author_again, author_candidate_again, original_again).posted(
                booster_again,
                booster_candidate_again,
                boost_again,
            ) == once
        }),
{
    let first = s.posted(author, author_candidate, original);
    posted_leaves_its_rows(s, author, author_candidate, original);
    let once = first.posted(booster, booster_candidate, boost);
    posted_leaves_its_rows(first, booster, booster_candidate, boost);
    posted_again_adds_nothing(once, author_again, author_candidate_again, original_again);
    posted_again_adds_nothing(once, booster_again, booster_candidate_again, boost_again);
}

/// How the data store answers an action of the inbox, and what it holds
/// afterwards. The actions that are not the store's leave it as it is.
pub open spec fn answers(before: Store, action: InboxAction, event: InboxEvent, after: Store) -> bool {
    match action {
        InboxAction::StoreActor(actor) => {
            &&& event == InboxEvent::Stored(Ok(()))
            &&& after == before.new_actor(actor@)
        },
        InboxAction::FindUser(actor) => {
            &&& after == before
            &&& match before.user_by_actor_uri(actor@) {
                Some(user) => event matches InboxEvent::User(Ok(Some(found))) && found@ == user,
                None => event == InboxEvent::User(Ok(None)),
            }
        },
        InboxAction::StoreUser(user) => {
            &&& event == InboxEvent::Stored(Ok(()))
            &&& after == before.new_user(user@)
        },
        InboxAction::StoreFollow(follow) => {
            &&& event == InboxEvent::Stored(Ok(()))
            &&& after == before.new_follow(follow@)
        },
        InboxAction::StorePost(post) => {
            &&& event == InboxEvent::Stored(Ok(()))
            &&& after == before.new_post(post@)
        },
        _ => after == before,
    }
}

/// How the data store reacts to an action of the inbox: it answers it, or
/// it refuses a write or fails at a look-up and stays as it was.
pub open spec fn reacts(before: Store, action: InboxAction, event: InboxEvent, after: Store) -> bool {
    ||| answers(before, action, event, after)
    ||| {
        &&& action is StoreActor || action is StoreUser || action is StoreFollow
            || action is StorePost
        &&& event matches InboxEvent::Stored(Err(_))
        &&& after == before
    }
    ||| {
        &&& action is FindUser
        &&& event matches InboxEvent::User(Err(_))
        &&& after == before
    }
}

/// The inbox resolves an actor as `Store::resolve` says. From the state in
/// which the actor's row goes out, with a store that answers each action,
/// the next two steps look the user up and store it, and then the store and
/// the user in hand are those of `resolve` for the actor's row and the row
/// of a new user under the first fresh identifier.
pub proof fn inbox_resolves_by_the_store(
    job: Job,
    then: Option<Pending>,
    local: Local,
    key_pem: Seq<char>,
    first: InboxAction,
    stores: Seq<Store>,
    events: Seq<InboxEvent>,
    fresh: Seq<Fresh>,
    states: Seq<InboxState>,
    actions: Seq<InboxAction>,
)
    requires
        stores.len() == 4,
        events.len() == 3,
        fresh.len() == 2,
        states.len() == 2,
        actions.len() == 2,
        first matches InboxAction::StoreActor(a) && a@ == actor_row(job.person),
        answers(stores[0], first, events[0], stores[1]),
        inbox_continues(
            InboxState::StoringActor { job, then },
            events[0],
            local,
            key_pem,
            fresh[0],
            states[0],
            actions[0],
        ),
        answers(stores[1], actions[0], events[1], stores[2]),
        fresh[1].ids@.len() >= 1,
        inbox_continues(states[0], events[1], local, key_pem, fresh[1], states[1], actions[1]),
        answers(stores[2], actions[1], events[2], stores[3]),
    ensures
        states[1] matches InboxState::StoringUser { job: j, then: t, user } && j == job && t
            == then && (stores[3], user@) == stores[0].resolve(
            actor_row(job.person),
            user_row(job.person, job.info, fresh[1].ids@[0]@, fresh[1].now, local.config.base()),
        ),
{
}

/// What a job writes at its end refers only to what the store has besides
/// the job's own actor: for a follow, the followed actor; for a boost, the
/// original post.
pub open spec fn draft_linked(draft: Draft, s: Store) -> bool {
    match draft {
        Draft::Follow { followed, .. } => s.has_actor(followed.actor.id@),
        Draft::Note { .. } => true,
        Draft::Boost { original, .. } => s.has_post(original.uri@),
    }
}

/// The write that the inbox is about to ask for refers only to rows that
/// the store has: a user to its actor, a post to its author and to what it
/// boosts, a follow edge to the actors at its ends.
pub open spec fn write_is_linked(action: InboxAction, s: Store) -> bool {
    match action {
        InboxAction::StoreUser(user) => s.user_linked(user@),
        InboxAction::StorePost(post) => s.post_linked(post@),
        InboxAction::StoreFollow(follow) => s.follow_linked(follow@),
        _ => true,
    }
}

/// What holds between the inbox's state, the action that it has asked for
/// and the store, at every step: the action is the one that belongs to the
/// state, and everything that is still to be written will find what it
/// refers to.
pub open spec fn in_order(state: InboxState, action: InboxAction, s: Store) -> bool {
    &&& write_is_linked(action, s)
    &&& match state {
        InboxState::FetchingFollower { followed, .. } => s.has_actor(followed.actor.id@),
        InboxState::StoringActor { job, .. } => {
            &&& action matches InboxAction::StoreActor(a) && a@ == actor_row(job.person)
            &&& draft_linked(job.draft, s)
        },
        InboxState::FindingUser { job, .. } => {
            &&& action == InboxAction::FindUser(job.person.obj.id)
            &&& s.has_actor(job.person.obj.id@)
            &&& draft_linked(job.draft, s)
        },
        InboxState::StoringUser { job, user, .. } => {
            &&& action == InboxAction::StoreUser(user)
            &&& user.actor.id@ == job.person.obj.id@
            &&& s.has_actor(job.person.obj.id@)
            &&& draft_linked(job.draft, s)
        },
        InboxState::StoringPost { post, .. } => {
            action matches InboxAction::StorePost(p) && p@ == post@
        },
        InboxState::StoringFollow { .. } => action is StoreFollow,
        _ => true,
    }
}

/// The handling of an activity begins in order, given that the local user
/// whom a follow is about has an actor in the store.
pub proof fn inbox_begins_in_order(
    req: InboxRequest,
    s: Store,
    local: Local,
    key_pem: Seq<char>,
    at: Timestamp,
    next: InboxState,
    action: InboxAction,
)
    requires
        req matches InboxRequest::Follow { followed, .. } ==> s.has_actor(followed.actor.id@),
        inbox_begins(req, local, key_pem, at, next, action),
    ensures
        in_order(next, action, s),
{
}

/// Resolve, then link. Where the store is well formed and the inbox is in
/// order, then after the store has answered or refused the action and the
/// inbox has taken its next step, the store is well formed still, it has
/// lost nothing, and the inbox is in order again: no row is ever written
/// before the rows that it refers to.
pub proof fn inbox_writes_in_order(
    state: InboxState,
    action: InboxAction,
    before: Store,
    event: InboxEvent,
    after: Store,
    local: Local,
    key_pem: Seq<char>,
    fresh: Fresh,
    next: InboxState,
    then: InboxAction,
)
    requires
        before.well_formed(),
        in_order(state, action, before),
        reacts(before, action, event, after),
        inbox_continues(state, event, local, key_pem, fresh, next, then),
    ensures
        after.well_formed(),
        before.kept_in(after),
        in_order(next, then, after),
{
    match action {
        InboxAction::StoreActor(actor) => {
            new_actor_is_idempotent(before, actor@, actor@);
        },
        InboxAction::StoreUser(user) => {
            new_user_is_idempotent(before, user@, user@);
        },
        InboxAction::StorePost(post) => {
            new_post_is_idempotent(before, post@, post@);
        },
        InboxAction::StoreFollow(follow) => {
            new_follow_keeps_links(before, follow@);
        },
        InboxAction::FindUser(actor) => {
            lookup_finds_the_actors_user(before, actor@);
        },
        _ => {},
    }
    match state {
        InboxState::StoringPost { post, then: held } => {
            if held is Some && event == InboxEvent::Stored(Ok(())) {
                assert(after.has_post(post.uri@));
            }
        },
        InboxState::StoringUser { job, user, .. } => {
            if event == InboxEvent::Stored(Ok(())) {
                assert(after.has_user_of(user.actor.id@));
                assert(after.has_actor(job.person.obj.id@));
            }
        },
        _ => {},
    }
}

/// The data store stays well formed for as long as an activity is
/// handled. Where it was well formed when the handling began (and, for a
/// follow, held the actor of the local user who is followed), and it has
/// answered or refused each action since, then after every step it is well
/// formed, it holds all that it held at the beginning, and the inbox is in
/// order.
pub proof fn store_stays_well_formed(
    req: InboxRequest,
    local: Local,
    key_pem: Seq<char>,
    begun_at: Timestamp,
    states: Seq<InboxState>,
    actions: Seq<InboxAction>,
    events: Seq<InboxEvent>,
    fresh: Seq<Fresh>,
    stores: Seq<Store>,
    k: int,
)
    requires
        inbox_run(req, local, key_pem, begun_at, states, actions, events, fresh),
        stores.len() == states.len(),
        stores[0].well_formed(),
        req matches InboxRequest::Follow { followed, .. } ==> stores[0].has_actor(
            followed.actor.id@,
        ),
        forall|i: int|
            0 <= i < events.len() ==> reacts(
                #[trigger] stores[i],
                actions[i],
                events[i],
                stores[i + 1],
            ),
        0 <= k < stores.len(),
    ensures
        stores[k].well_formed(),
        stores[0].kept_in(stores[k]),
        in_order(states[k], actions[k], stores[k]),
    decreases k,
{
    if k == 0 {
        inbox_begins_in_order(req, stores[0], local, key_pem, begun_at, states[0], actions[0]);
    } else {
        store_stays_well_formed(
            req,
            local,
            key_pem,
            begun_at,
            states,
            actions,
            events,
            fresh,
            stores,
            k - 1,
        );
        let _ = states[k - 1];
        assert(inbox_continues(
            states[k - 1],
            events[k - 1],
            local,
            key_pem,
            fresh[k - 1],
            states[k],
            actions[k],
        ));
        assert(reacts(stores[k - 1], actions[k - 1], events[k - 1], stores[k]));
        inbox_writes_in_order(
            states[k - 1],
            actions[k - 1],
            stores[k - 1],
            events[k - 1],
            stores[k],
            local,
            key_pem,
            fresh[k - 1],
            states[k],
            actions[k],
        );
    }
}

} // verus!
