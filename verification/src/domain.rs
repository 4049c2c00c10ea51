//! Session and subscription domain logic: the listing rule that annotates
//! and filters sessions for a player, the coach's own-sessions rule, the
//! subscription table with its one-row-per-pair invariant, and the
//! completion rule.
use vstd::prelude::*;

use crate::models::Session;
use crate::models::SessionWithSubscription;
use crate::models::SkillLevel;
use crate::models::Subscription;
use crate::models::SubscriptionStatus;
use crate::ui::session_filter::SessionFilter;
use vstd::string::StrSliceExecFns;

verus! {

// ------------------------------------------------------------------
// Looking a subscription up by (user, session)
// ------------------------------------------------------------------

pub open spec fn pair_matches(r: Subscription, user_id: i64, session_id: i64) -> bool {
    r.user_id == user_id && r.session_id == session_id
}

/// The index of the first subscription of `user_id` for `session_id`.
pub open spec fn spec_find_pair(rows: Seq<Subscription>, user_id: i64, session_id: i64) -> Option<
    int,
>
    decreases rows.len(),
{
    if rows.len() == 0 {
        None
    } else if pair_matches(rows[0], user_id, session_id) {
        Some(0)
    } else {
        match spec_find_pair(rows.drop_first(), user_id, session_id) {
            Some(i) => Some(i + 1),
            None => None,
        }
    }
}

/// The first subscription of `user_id` for `session_id`, if any.
pub open spec fn spec_lookup(rows: Seq<Subscription>, user_id: i64, session_id: i64) -> Option<
    Subscription,
> {
    match spec_find_pair(rows, user_id, session_id) {
        Some(i) => Some(rows[i]),
        None => None,
    }
}

pub proof fn lemma_find_pair_properties(rows: Seq<Subscription>, user_id: i64, session_id: i64)
    ensures
        match spec_find_pair(rows, user_id, session_id) {
            Some(i) => 0 <= i < rows.len() && pair_matches(rows[i], user_id, session_id) && (
            forall|j: int| 0 <= j < i ==> !pair_matches(rows[j], user_id, session_id)),
            None => forall|j: int|
                0 <= j < rows.len() ==> !pair_matches(rows[j], user_id, session_id),
        },
    decreases rows.len(),
{
    if rows.len() > 0 {
        if !pair_matches(rows[0], user_id, session_id) {
            let rest = rows.drop_first();
            lemma_find_pair_properties(rest, user_id, session_id);
            match spec_find_pair(rest, user_id, session_id) {
                Some(i) => {
                    assert(rows[i + 1] == rest[i]);
                    assert forall|j: int|
                        0 <= j < i + 1 implies !pair_matches(
                        rows[j],
                        user_id,
                        session_id,
                    ) by {
                        if j > 0 {
                            assert(rest[j - 1] == rows[j]);
                        }
                    }
                },
                None => {
                    assert forall|j: int|
                        0 <= j < rows.len() implies !pair_matches(
                        rows[j],
                        user_id,
                        session_id,
                    ) by {
                        if j > 0 {
                            assert(rest[j - 1] == rows[j]);
                        }
                    }
                },
            }
        }
    }
}

/// Replacing the found row by another row of the same pair leaves the find
/// at the same index.
proof fn lemma_find_pair_update(
    rows: Seq<Subscription>,
    user_id: i64,
    session_id: i64,
    i: int,
    row: Subscription,
)
    requires
        spec_find_pair(rows, user_id, session_id) == Some(i),
        pair_matches(row, user_id, session_id),
    ensures
        spec_find_pair(rows.update(i, row), user_id, session_id) == Some(i),
    decreases rows.len(),
{
    lemma_find_pair_properties(rows, user_id, session_id);
    if rows.len() > 0 {
        if pair_matches(rows[0], user_id, session_id) {
            assert(rows.update(0, row)[0] == row);
        } else {
            lemma_find_pair_update(rows.drop_first(), user_id, session_id, i - 1, row);
            assert(rows.update(i, row).drop_first() =~= rows.drop_first().update(i - 1, row));
            assert(rows.update(i, row)[0] == rows[0]);
        }
    }
}

// ------------------------------------------------------------------
// The listing rule
// ------------------------------------------------------------------

/// A session list entry, annotated with the player's own subscription.
pub open spec fn spec_annotated(sessions: Seq<Session>, subs: Seq<Subscription>, user_id: i64) -> Seq<
    SessionWithSubscription,
> {
    Seq::new(
        sessions.len(),
        |i: int|
            SessionWithSubscription {
                session: sessions[i],
                subscription: spec_lookup(subs, user_id, sessions[i].id),
            },
    )
}

/// The entries that carry a subscription.
pub open spec fn subscribed_only(views: Seq<SessionWithSubscription>) -> Seq<
    SessionWithSubscription,
> {
    views.filter(|v: SessionWithSubscription| v.subscription is Some)
}

/// A player's session list: every session annotated with the player's own
/// subscription, then narrowed by the active filter.
pub open spec fn spec_player_views(
    sessions: Seq<Session>,
    subs: Seq<Subscription>,
    user_id: i64,
    filter: SessionFilter,
) -> Seq<SessionWithSubscription> {
    match filter {
        SessionFilter::MySubscriptions => subscribed_only(spec_annotated(sessions, subs, user_id)),
        SessionFilter::AllAvailable => spec_annotated(sessions, subs, user_id),
    }
}

/// Law: under the `MySubscriptions` filter the listing is exactly the
/// subset of the `AllAvailable` listing whose entries carry a subscription,
/// whatever the sessions and subscriptions are.
pub proof fn lemma_my_subscriptions_is_subscribed_subset(
    sessions: Seq<Session>,
    subs: Seq<Subscription>,
    user_id: i64,
)
    ensures
        spec_player_views(sessions, subs, user_id, SessionFilter::MySubscriptions)
            == subscribed_only(
            spec_player_views(sessions, subs, user_id, SessionFilter::AllAvailable),
        ),
{
}

proof fn lemma_subscribed_only_push(s: Seq<SessionWithSubscription>, v: SessionWithSubscription)
    ensures
        subscribed_only(s.push(v)) == (if v.subscription is Some {
            subscribed_only(s).push(v)
        } else {
            subscribed_only(s)
        }),
{
    reveal(Seq::filter);
    assert(s.push(v).drop_last() =~= s);
    assert(s.push(v).last() == v);
}

/// The first subscription in `subs` of `user_id` for `session_id`, cloned.
pub fn find_subscription(subs: &Vec<Subscription>, user_id: i64, session_id: i64) -> (r: Option<
    Subscription,
>)
    ensures
        r == spec_lookup(subs@, user_id, session_id),
{
    proof {
        lemma_find_pair_properties(subs@, user_id, session_id);
    }
    let mut i: usize = 0;
    while i < subs.len()
        invariant
            i <= subs@.len(),
            forall|j: int| 0 <= j < i ==> !pair_matches(subs@[j], user_id, session_id),
            match spec_find_pair(subs@, user_id, session_id) {
                Some(k) => 0 <= k < subs@.len() && pair_matches(subs@[k], user_id, session_id) && (
                forall|j: int| 0 <= j < k ==> !pair_matches(subs@[j], user_id, session_id)),
                None => forall|j: int|
                    0 <= j < subs@.len() ==> !pair_matches(subs@[j], user_id, session_id),
            },
        decreases subs@.len() - i,
    {
        let row = &subs[i];
        if row.user_id == user_id && row.session_id == session_id {
            proof {
                match spec_find_pair(subs@, user_id, session_id) {
                    Some(k) => {
                        assert(k == i);
                    },
                    None => {
                        assert(false);
                    },
                }
            }
            return Some(subs[i].clone());
        }
        i = i + 1;
    }
    None
}

/// Annotates every session with the player's own subscription.
pub fn annotate_sessions(sessions: &Vec<Session>, subs: &Vec<Subscription>, user_id: i64) -> (r:
    Vec<SessionWithSubscription>)
    ensures
        r@ == spec_annotated(sessions@, subs@, user_id),
{
    let ghost all = spec_annotated(sessions@, subs@, user_id);
    let mut r: Vec<SessionWithSubscription> = Vec::new();
    let mut i: usize = 0;
    while i < sessions.len()
        invariant
            i <= sessions@.len(),
            all == spec_annotated(sessions@, subs@, user_id),
            r@ =~= all.take(i as int),
        decreases sessions@.len() - i,
    {
        let subscription = find_subscription(subs, user_id, sessions[i].id);
        r.push(SessionWithSubscription { session: sessions[i].clone(), subscription });
        proof {
            assert(r@ =~= all.take(i as int + 1));
        }
        i = i + 1;
    }
    proof {
        assert(r@ =~= all);
    }
    r
}

/// Keeps the entries that carry a subscription.
pub fn filter_subscribed(views: &Vec<SessionWithSubscription>) -> (r: Vec<SessionWithSubscription>)
    ensures
        r@ == subscribed_only(views@),
{
    let mut r: Vec<SessionWithSubscription> = Vec::new();
    let mut i: usize = 0;
    while i < views.len()
        invariant
            i <= views@.len(),
            r@ == subscribed_only(views@.take(i as int)),
        decreases views@.len() - i,
    {
        proof {
            assert(views@.take(i as int + 1) =~= views@.take(i as int).push(views@[i as int]));
            lemma_subscribed_only_push(views@.take(i as int), views@[i as int]);
        }
        if views[i].is_subscribed() {
            r.push(views[i].clone());
            proof {
                assert(views@[i as int].subscription is Some);
            }
        }
        i = i + 1;
    }
    proof {
        assert(views@.take(i as int) =~= views@);
    }
    r
}

/// A player's session list under the active filter.
pub fn build_player_views(
    sessions: &Vec<Session>,
    subs: &Vec<Subscription>,
    user_id: i64,
    filter: &SessionFilter,
) -> (r: Vec<SessionWithSubscription>)
    ensures
        r@ == spec_player_views(sessions@, subs@, user_id, *filter),
{
    let all = annotate_sessions(sessions, subs, user_id);
    match filter {
        SessionFilter::MySubscriptions => filter_subscribed(&all),
        SessionFilter::AllAvailable => all,
    }
}

// ------------------------------------------------------------------
// The coach's listing rule
// ------------------------------------------------------------------

/// The sessions created by `coach_id`, in their given order.
pub open spec fn owned_by(sessions: Seq<Session>, coach_id: i64) -> Seq<Session> {
    sessions.filter(|s: Session| s.created_by == coach_id)
}

/// A coach's session list: the sessions they created, with no subscription
/// annotation.
pub open spec fn spec_coach_views(sessions: Seq<Session>, coach_id: i64) -> Seq<
    SessionWithSubscription,
> {
    owned_by(sessions, coach_id).map_values(
        |s: Session| SessionWithSubscription { session: s, subscription: None },
    )
}

proof fn lemma_coach_views_push(sessions: Seq<Session>, s: Session, coach_id: i64)
    ensures
        spec_coach_views(sessions.push(s), coach_id) == (if s.created_by == coach_id {
            spec_coach_views(sessions, coach_id).push(
                SessionWithSubscription { session: s, subscription: None },
            )
        } else {
            spec_coach_views(sessions, coach_id)
        }),
{
    reveal(Seq::filter);
    assert(sessions.push(s).drop_last() =~= sessions);
    assert(sessions.push(s).last() == s);
    if s.created_by == coach_id {
        assert(owned_by(sessions.push(s), coach_id) == owned_by(sessions, coach_id).push(s));
        assert(owned_by(sessions, coach_id).push(s).map_values(
            |x: Session| SessionWithSubscription { session: x, subscription: None },
        ) =~= spec_coach_views(sessions, coach_id).push(
            SessionWithSubscription { session: s, subscription: None },
        ));
    }
}

/// A coach's session list, built from the full session table.
pub fn build_coach_views(sessions: &Vec<Session>, coach_id: i64) -> (r: Vec<
    SessionWithSubscription,
>)
    ensures
        r@ == spec_coach_views(sessions@, coach_id),
{
    let mut r: Vec<SessionWithSubscription> = Vec::new();
    let mut i: usize = 0;
    while i < sessions.len()
        invariant
            i <= sessions@.len(),
            r@ == spec_coach_views(sessions@.take(i as int), coach_id),
        decreases sessions@.len() - i,
    {
        proof {
            assert(sessions@.take(i as int + 1) =~= sessions@.take(i as int).push(
                sessions@[i as int],
            ));
            lemma_coach_views_push(sessions@.take(i as int), sessions@[i as int], coach_id);
        }
        if sessions[i].created_by == coach_id {
            r.push(SessionWithSubscription { session: sessions[i].clone(), subscription: None });
        }
        i = i + 1;
    }
    proof {
        assert(sessions@.take(i as int) =~= sessions@);
    }
    r
}

// ------------------------------------------------------------------
// The subscription table
// ------------------------------------------------------------------

/// What marking the subscription at index `i` complete at `now` does to the
/// row: the completion instant is set and the status becomes `Completed`;
/// every other field is kept.
pub open spec fn completed_row(row: Subscription, now: i64) -> Subscription {
    Subscription {
        completed_at: Some(now),
        status: SubscriptionStatus::Completed,
        ..row
    }
}

#[derive(Debug, Clone, Copy, PartialEq, Eq, Structural)]
pub enum MarkOutcome {
    NotSubscribed,
    AlreadyComplete,
    Completed,
}

/// What the completion rule does to a subscription table: no row for the
/// pair reports `NotSubscribed`; an already-completed row reports
/// `AlreadyComplete`; otherwise the row's completion instant is set once.
pub open spec fn spec_mark_complete(
    rows: Seq<Subscription>,
    user_id: i64,
    session_id: i64,
    now: i64,
) -> (Seq<Subscription>, MarkOutcome) {
    match spec_find_pair(rows, user_id, session_id) {
        None => (rows, MarkOutcome::NotSubscribed),
        Some(i) => if rows[i].completed_at is Some {
            (rows, MarkOutcome::AlreadyComplete)
        } else {
            (rows.update(i, completed_row(rows[i], now)), MarkOutcome::Completed)
        },
    }
}

/// An in-memory subscription table with the repository's own invariant:
/// at most one subscription per (user, session) pair.
#[derive(Debug, Clone)]
pub struct SubscriptionTable {
    pub rows: Vec<Subscription>,
}

/// At most one row per (user, session) pair.
pub open spec fn distinct_rows(rows: Seq<Subscription>) -> bool {
    forall|i: int, j: int|
        0 <= i < j < rows.len() ==> !(rows[i].user_id == rows[j].user_id && rows[i].session_id
            == rows[j].session_id)
}

/// Every element of a filtered sequence occurs in the sequence.
proof fn lemma_filter_subset<A>(s: Seq<A>, pred: spec_fn(A) -> bool)
    ensures
        forall|i: int| 0 <= i < s.filter(pred).len() ==> s.contains(#[trigger] s.filter(pred)[i]),
    decreases s.len(),
{
    reveal(Seq::filter);
    if s.len() > 0 {
        lemma_filter_subset(s.drop_last(), pred);
        let f = s.filter(pred);
        let g = s.drop_last().filter(pred);
        assert forall|i: int| 0 <= i < f.len() implies s.contains(f[i]) by {
            if i < g.len() {
                assert(s.drop_last().contains(g[i]));
                let j = choose|j: int| 0 <= j < s.drop_last().len() && s.drop_last()[j] == g[i];
                assert(s[j] == g[i]);
            } else {
                assert(f[i] == s.last());
                assert(s[s.len() - 1] == s.last());
            }
        }
    }
}

/// Filtering a table whose rows are pairwise distinct leaves them pairwise
/// distinct.
proof fn lemma_filter_distinct(s: Seq<Subscription>, pred: spec_fn(Subscription) -> bool)
    requires
        distinct_rows(s),
    ensures
        distinct_rows(s.filter(pred)),
    decreases s.len(),
{
    reveal(Seq::filter);
    if s.len() > 0 {
        assert(distinct_rows(s.drop_last()));
        lemma_filter_distinct(s.drop_last(), pred);
        if pred(s.last()) {
            let g = s.drop_last().filter(pred);
            lemma_filter_subset(s.drop_last(), pred);
            assert forall|i: int| 0 <= i < g.len() implies !(g[i].user_id == s.last().user_id
                && g[i].session_id == s.last().session_id) by {
                assert(s.drop_last().contains(g[i]));
                let j = choose|j: int|
                    0 <= j < s.drop_last().len() && s.drop_last()[j] == g[i];
                assert(s[j] == g[i]);
                assert(s[s.len() - 1] == s.last());
            }
        }
    }
}

impl SubscriptionTable {
    pub open spec fn wf(self) -> bool {
        distinct_rows(self.rows@)
    }

    pub fn new() -> (r: SubscriptionTable)
        ensures
            r.wf(),
            r.rows@ == Seq::<Subscription>::empty(),
    {
        SubscriptionTable { rows: Vec::new() }
    }

    /// The subscription of `user_id` for `session_id`, if any.
    pub fn find_by_user_and_session(&self, user_id: i64, session_id: i64) -> (r: Option<
        Subscription,
    >)
        ensures
            r == spec_lookup(self.rows@, user_id, session_id),
    {
        find_subscription(&self.rows, user_id, session_id)
    }

    /// Whether `user_id` is subscribed to `session_id`.
    pub fn is_subscribed(&self, user_id: i64, session_id: i64) -> (r: bool)
        ensures
            r == (spec_lookup(self.rows@, user_id, session_id) is Some),
    {
        match self.find_by_user_and_session(user_id, session_id) {
            Some(_) => true,
            None => false,
        }
    }

    /// Subscribe `user_id` to `session_id`: a new `Active` row is appended.
    /// A second subscription for the same pair is refused, as the store's
    /// unique constraint refuses it; `id` is the store's fresh row id.
    pub fn subscribe(&mut self, id: i64, user_id: i64, session_id: i64, now: i64) -> (r: Result<
        (),
        (),
    >)
        requires
            old(self).wf(),
        ensures
            final(self).wf(),
            if spec_lookup(old(self).rows@, user_id, session_id) is None {
                r is Ok && final(self).rows@ == old(self).rows@.push(
                    Subscription {
                        id,
                        user_id,
                        session_id,
                        subscribed_at: now,
                        completed_at: None,
                        status: SubscriptionStatus::Active,
                        notes: None,
                    },
                )
            } else {
                r is Err && final(self).rows@ == old(self).rows@
            },
    {
        proof {
            lemma_find_pair_properties(self.rows@, user_id, session_id);
        }
        if self.is_subscribed(user_id, session_id) {
            Err(())
        } else {
            let row = Subscription {
                id,
                user_id,
                session_id,
                subscribed_at: now,
                completed_at: None,
                status: SubscriptionStatus::Active,
                notes: None,
            };
            self.rows.push(row);
            Ok(())
        }
    }

    /// Delete the subscription of `user_id` for `session_id`; without one,
    /// the table is left as it is.
    pub fn unsubscribe(&mut self, user_id: i64, session_id: i64)
        requires
            old(self).wf(),
        ensures
            final(self).wf(),
            final(self).rows@ == old(self).rows@.filter(
                |r: Subscription| !pair_matches(r, user_id, session_id),
            ),
    {
        let ghost orig = self.rows@;
        let mut kept: Vec<Subscription> = Vec::new();
        let mut i: usize = 0;
        while i < self.rows.len()
            invariant
                i <= orig.len(),
                self.rows@ == orig,
                kept@ == orig.take(i as int).filter(
                    |r: Subscription| !pair_matches(r, user_id, session_id),
                ),
            decreases orig.len() - i,
        {
            proof {
                let pred = |r: Subscription| !pair_matches(r, user_id, session_id);
                let pre = orig.take(i as int);
                let cur = orig.take(i as int + 1);
                assert(cur.drop_last() =~= pre);
                assert(cur.last() == orig[i as int]);
                reveal(Seq::filter);
                assert(cur.filter(pred) == (if pred(orig[i as int]) {
                    pre.filter(pred).push(orig[i as int])
                } else {
                    pre.filter(pred)
                }));
            }
            let row = &self.rows[i];
            if !(row.user_id == user_id && row.session_id == session_id) {
                kept.push(self.rows[i].clone());
            }
            i = i + 1;
        }
        proof {
            assert(orig.take(i as int) =~= orig);
        }
        self.rows = kept;
        proof {
            let pred = |r: Subscription| !pair_matches(r, user_id, session_id);
            lemma_filter_distinct(orig, pred);
        }
    }

    /// Apply the completion rule for `user_id` and `session_id` at `now`.
    pub fn mark_session_complete(&mut self, user_id: i64, session_id: i64, now: i64) -> (r:
        MarkOutcome)
        requires
            old(self).wf(),
        ensures
            final(self).wf(),
            (final(self).rows@, r) == spec_mark_complete(old(self).rows@, user_id, session_id, now),
    {
        proof {
            lemma_find_pair_properties(self.rows@, user_id, session_id);
        }
        let ghost orig = self.rows@;
        let mut i: usize = 0;
        while i < self.rows.len()
            invariant
                i <= orig.len(),
                self.rows@ == orig,
                old(self).rows@ == orig,
                old(self).wf(),
                forall|j: int| 0 <= j < i ==> !pair_matches(orig[j], user_id, session_id),
                match spec_find_pair(orig, user_id, session_id) {
                    Some(k) => 0 <= k < orig.len() && pair_matches(orig[k], user_id, session_id)
                        && (forall|j: int|
                        0 <= j < k ==> !pair_matches(orig[j], user_id, session_id)),
                    None => forall|j: int|
                        0 <= j < orig.len() ==> !pair_matches(orig[j], user_id, session_id),
                },
            decreases orig.len() - i,
        {
            let row = &self.rows[i];
            if row.user_id == user_id && row.session_id == session_id {
                proof {
                    match spec_find_pair(orig, user_id, session_id) {
                        Some(k) => {
                            assert(k == i);
                        },
                        None => {
                            assert(false);
                        },
                    }
                }
                if row.completed_at.is_some() {
                    return MarkOutcome::AlreadyComplete;
                }
                let updated = Subscription {
                    id: row.id,
                    user_id: row.user_id,
                    session_id: row.session_id,
                    subscribed_at: row.subscribed_at,
                    completed_at: Some(now),
                    status: SubscriptionStatus::Completed,
                    notes: row.notes.clone(),
                };
                self.rows.set(i, updated);
                proof {
                    assert(self.rows@ == orig.update(i as int, completed_row(orig[i as int], now)));
                }
                return MarkOutcome::Completed;
            }
            i = i + 1;
        }
        MarkOutcome::NotSubscribed
    }
}

/// Law: subscribing a pair that has no subscription and then unsubscribing
/// the same pair leaves the subscription table exactly as it was.
pub proof fn lemma_subscribe_unsubscribe_roundtrip(rows: Seq<Subscription>, sub: Subscription)
    requires
        spec_lookup(rows, sub.user_id, sub.session_id) is None,
    ensures
        rows.push(sub).filter(
            |r: Subscription| !pair_matches(r, sub.user_id, sub.session_id),
        ) == rows,
{
    let pred = |r: Subscription| !pair_matches(r, sub.user_id, sub.session_id);
    reveal(Seq::filter);
    assert(rows.push(sub).drop_last() =~= rows);
    assert(rows.push(sub).last() == sub);
    lemma_find_pair_properties(rows, sub.user_id, sub.session_id);
    lemma_filter_all_true(rows, pred);
}

proof fn lemma_filter_all_true<A>(s: Seq<A>, pred: spec_fn(A) -> bool)
    requires
        forall|i: int| 0 <= i < s.len() ==> pred(s[i]),
    ensures
        s.filter(pred) == s,
    decreases s.len(),
{
    reveal(Seq::filter);
    if s.len() > 0 {
        lemma_filter_all_true(s.drop_last(), pred);
        assert(s.drop_last().push(s.last()) =~= s);
    }
}

/// Law: marking the same pair complete twice has one effect — the first
/// call sets the completion instant once and reports success; the second
/// reports "already complete" and changes nothing.
pub proof fn lemma_mark_complete_once(
    rows: Seq<Subscription>,
    user_id: i64,
    session_id: i64,
    t1: i64,
    t2: i64,
)
    requires
        spec_lookup(rows, user_id, session_id) matches Some(row) && row.completed_at is None,
    ensures
        ({
            let (rows1, r1) = spec_mark_complete(rows, user_id, session_id, t1);
            let (rows2, r2) = spec_mark_complete(rows1, user_id, session_id, t2);
            &&& r1 == MarkOutcome::Completed
            &&& r2 == MarkOutcome::AlreadyComplete
            &&& rows2 == rows1
            &&& spec_lookup(rows1, user_id, session_id) matches Some(row1) && row1.completed_at
                == Some(t1)
        }),
{
    lemma_find_pair_properties(rows, user_id, session_id);
    let i = spec_find_pair(rows, user_id, session_id)->Some_0;
    let row1 = completed_row(rows[i], t1);
    lemma_find_pair_update(rows, user_id, session_id, i, row1);
}

// ------------------------------------------------------------------
// Preparing a session record for persistence
// ------------------------------------------------------------------

/// The normalized `YYYY-MM-DD` text of a calendar-valid date string, `None`
/// where the text does not parse; named because calendar validity is not
/// written out here.
pub uninterp spec fn date_norm(s: Seq<char>) -> Option<Seq<char>>;

/// The normalized `HH:MM` text of a clock-valid time string, `None` where
/// the text does not parse; named because clock validity is not written out
/// here.
pub uninterp spec fn time_norm(s: Seq<char>) -> Option<Seq<char>>;

/// Relies on chrono::NaiveDate::parse_from_str with the `%Y-%m-%d` format
/// and on chrono's formatting of the parsed date with the same format: the
/// result depends on the text alone.
#[verifier::external_body]
fn normalize_date(s: &str) -> (r: Option<String>)
    ensures
        (r is Some) == (date_norm(s@) is Some),
        r matches Some(d) ==> date_norm(s@) == Some(d@),
{
    chrono::NaiveDate::parse_from_str(s, "%Y-%m-%d").ok().map(
        |d| d.format("%Y-%m-%d").to_string(),
    )
}

/// Relies on chrono::NaiveTime::parse_from_str with the `%H:%M` format and
/// on chrono's formatting of the parsed time with the same format: the
/// result depends on the text alone.
#[verifier::external_body]
fn normalize_time(s: &str) -> (r: Option<String>)
    ensures
        (r is Some) == (time_norm(s@) is Some),
        r matches Some(t) ==> time_norm(s@) == Some(t@),
{
    chrono::NaiveTime::parse_from_str(s, "%H:%M").ok().map(|t| t.format("%H:%M").to_string())
}

/// The plain values a session is created or updated with, after the silent
/// best-effort date and time normalization.
#[derive(Debug, Clone)]
pub struct SessionRecord {
    pub title: String,
    pub description: Option<String>,
    pub scheduled_date: Option<String>,
    pub scheduled_time: Option<String>,
    pub duration_minutes: Option<i32>,
    pub skill_level: Option<SkillLevel>,
}

/// How a committed record relates to the submitted form's buffers: the
/// title is kept, an empty description becomes `None`, the date and time
/// texts survive exactly when they normalize (and then as their normalized
/// forms), the duration text is parsed as a signed number, and the skill
/// text is parsed as a level.
pub open spec fn spec_session_record(
    title: Seq<char>,
    description: Seq<char>,
    date: Seq<char>,
    time: Seq<char>,
    duration: Seq<char>,
    skill: Seq<char>,
    rec: SessionRecord,
) -> bool {
    &&& rec.title@ == title
    &&& (match rec.description {
        Some(d) => description.len() > 0 && d@ == description,
        None => description.len() == 0,
    })
    &&& (match rec.scheduled_date {
        Some(nd) => date.len() > 0 && date_norm(date) == Some(nd@),
        None => date.len() == 0 || date_norm(date) is None,
    })
    &&& (match rec.scheduled_time {
        Some(nt) => time.len() > 0 && time_norm(time) == Some(nt@),
        None => time.len() == 0 || time_norm(time) is None,
    })
    &&& rec.duration_minutes == (if duration.len() == 0 {
        None::<i32>
    } else {
        crate::strutil::spec_parse_i32(duration)
    })
    &&& rec.skill_level == SkillLevel::spec_from_str(skill)
}

/// Builds the record a validated session form commits: an empty description
/// becomes `None`, the date and time texts are kept only where they parse
/// (and are normalized), and the skill level text is parsed.
pub fn make_session_record(
    title: String,
    description: String,
    date: Option<String>,
    time: Option<String>,
    duration: Option<i32>,
    skill_str: &str,
) -> (r: SessionRecord)
    ensures
        r.title == title,
        (match r.description {
            Some(d) => description@.len() > 0 && d == description,
            None => description@.len() == 0,
        }),
        (match (date, r.scheduled_date) {
            (None, None) => true,
            (Some(d), None) => date_norm(d@) is None,
            (Some(d), Some(nd)) => date_norm(d@) == Some(nd@),
            (None, Some(_)) => false,
        }),
        (match (time, r.scheduled_time) {
            (None, None) => true,
            (Some(t), None) => time_norm(t@) is None,
            (Some(t), Some(nt)) => time_norm(t@) == Some(nt@),
            (None, Some(_)) => false,
        }),
        r.duration_minutes == duration,
        r.skill_level == SkillLevel::spec_from_str(skill_str@),
{
    let description = if description.as_str().unicode_len() == 0 {
        None
    } else {
        Some(description)
    };
    let scheduled_date = match date {
        Some(d) => normalize_date(d.as_str()),
        None => None,
    };
    let scheduled_time = match time {
        Some(t) => normalize_time(t.as_str()),
        None => None,
    };
    SessionRecord {
        title,
        description,
        scheduled_date,
        scheduled_time,
        duration_minutes: duration,
        skill_level: SkillLevel::from_str(skill_str),
    }
}

} // verus!
