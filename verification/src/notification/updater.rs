//! Which fetched notifications are new: the notifications of a request come
//! newest first, and those newer than the newest one seen before are posted.
//! The first request only records where the account stands.

use vstd::prelude::*;

use crate::health_monitor::config_builder::services_view;
use crate::health_monitor::ServiceType;
use crate::notification::notification::{created_timestamp, Notification};
use crate::status_checker::services::{Service, ServiceView};

verus! {

/// The service whose notifications are read: the last GoToSocial service of
/// the list, or an empty WordPress service when there is none.
pub open spec fn gotosocial_service(services: Seq<ServiceView>) -> ServiceView
    decreases services.len(),
{
    if services.len() == 0 {
        ServiceView { service_type: ServiceType::Wordpress, url: Seq::empty() }
    } else if services.last().service_type == ServiceType::Gotosocial {
        services.last()
    } else {
        gotosocial_service(services.drop_last())
    }
}

/// The number of leading timestamps that are newer than `newest`: the new
/// notifications of a request. None while nothing has been seen (`newest` 0).
pub open spec fn fresh_count(newest: i64, stamps: Seq<i64>) -> nat
    decreases stamps.len(),
{
    if newest == 0 || stamps.len() == 0 || stamps[0] <= newest {
        0
    } else {
        1 + fresh_count(newest, stamps.drop_first())
    }
}

/// The newest timestamp seen after a request: that of its first notification,
/// or the one before when the request gave none.
pub open spec fn next_newest(newest: i64, stamps: Seq<i64>) -> i64 {
    if stamps.len() > 0 {
        stamps[0]
    } else {
        newest
    }
}

/// The creation times of a list of notifications.
pub open spec fn timestamps(notifications: Seq<Notification>) -> Seq<i64> {
    notifications.map_values(|n: Notification| created_timestamp(n))
}

/// What a request leads to.
#[derive(Debug, Clone, Copy, PartialEq, Eq, Structural)]
pub enum Fresh {
    /// The first notifications ever fetched: nothing is posted.
    SkippedInit,
    /// The number of leading notifications to post.
    Count(usize),
}

/// What a request whose notifications have the creation times `stamps` leads
/// to, when `newest` is the newest time seen before.
pub open spec fn fresh_outcome(newest: i64, stamps: Seq<i64>) -> Fresh {
    if newest == 0 && stamps.len() > 0 {
        Fresh::SkippedInit
    } else {
        Fresh::Count(fresh_count(newest, stamps) as usize)
    }
}

/// The creation time of the newest notification seen so far (0 before the
/// first request).
pub struct NotificationWatcher {
    pub newest_ts: i64,
}

/// The access token for notifications: the configured one, unless it is
/// missing or empty, in which case notifications are not fetched at all.
pub fn notification_token(configured: &Option<String>) -> (token: Option<String>)
    ensures
        match token {
            Some(t) => configured == Some(t) && t@.len() > 0,
            None => configured is None || configured->0@.len() == 0,
        },
{
    match configured {
        Some(t) => {
            if t.as_str().is_empty() {
                None
            } else {
                Some(t.clone())
            }
        },
        None => None,
    }
}

/// The service whose notifications are read.
pub fn find_gotosocial(services: &Vec<Service>) -> (s: Service)
    ensures
        s@ == gotosocial_service(services_view(services@)),
{
    let ghost all = services_view(services@);
    let mut i: usize = services.len();
    assert(all.take(i as int) =~= all);
    while i > 0
        invariant
            all == services_view(services@),
            i <= services@.len(),
            gotosocial_service(all) == gotosocial_service(all.take(i as int)),
        decreases i,
    {
        assert(all.take(i as int).drop_last() =~= all.take(i - 1));
        assert(all.take(i as int).last() == services@[i - 1]@);
        if *services[i - 1].get_type() == ServiceType::Gotosocial {
            return services[i - 1].duplicate();
        }
        i -= 1;
    }
    Service::new(String::new(), ServiceType::Wordpress)
}

/// The number of leading timestamps newer than `newest`.
pub fn count_fresh(newest: i64, stamps: &Vec<i64>) -> (count: usize)
    ensures
        count == fresh_count(newest, stamps@),
{
    if newest == 0 {
        return 0;
    }
    let mut i: usize = 0;
    assert(stamps@.skip(0) =~= stamps@);
    while i < stamps.len() && stamps[i] > newest
        invariant
            newest != 0,
            i <= stamps@.len(),
            forall|j: int| 0 <= j < i ==> stamps@[j] > newest,
            fresh_count(newest, stamps@) == i + fresh_count(newest, stamps@.skip(i as int)),
        decreases stamps@.len() - i,
    {
        assert(stamps@.skip(i as int).drop_first() =~= stamps@.skip(i + 1));
        i += 1;
    }
    i
}

impl NotificationWatcher {
    pub fn new() -> (w: NotificationWatcher)
        ensures
            w.newest_ts == 0,
    {
        NotificationWatcher { newest_ts: 0 }
    }

    /// Takes in the creation times of the notifications of a request, newest
    /// first, and says which of them to post.
    pub fn take_in_timestamps(&mut self, stamps: &Vec<i64>) -> (fresh: Fresh)
        ensures
            fresh == fresh_outcome(old(self).newest_ts, stamps@),
            final(self).newest_ts == next_newest(old(self).newest_ts, stamps@),
    {
        let fresh = if self.newest_ts == 0 && stamps.len() > 0 {
            Fresh::SkippedInit
        } else {
            Fresh::Count(count_fresh(self.newest_ts, stamps))
        };
        if stamps.len() > 0 {
            self.newest_ts = stamps[0];
        }
        fresh
    }

    /// Takes in the notifications of a request, newest first, and says which
    /// of them to post.
    pub fn take_in(&mut self, notifications: &Vec<Notification>) -> (fresh: Fresh)
        ensures
            fresh == fresh_outcome(old(self).newest_ts, timestamps(notifications@)),
            final(self).newest_ts == next_newest(old(self).newest_ts, timestamps(notifications@)),
    {
        let mut stamps: Vec<i64> = Vec::new();
        let mut i: usize = 0;
        while i < notifications.len()
            invariant
                i <= notifications@.len(),
                stamps@ == timestamps(notifications@).take(i as int),
            decreases notifications@.len() - i,
        {
            let ts = notifications[i].parse_created_at();
            stamps.push(ts);
            assert(stamps@ =~= timestamps(notifications@).take(i + 1));
            i += 1;
        }
        assert(stamps@ =~= timestamps(notifications@));
        self.take_in_timestamps(&stamps)
    }
}

/// Whether the timestamps of a request strictly decrease (newest first, no two
/// notifications at the same second).
pub open spec fn strictly_newest_first(stamps: Seq<i64>) -> bool {
    forall|i: int, j: int| 0 <= i < j < stamps.len() ==> stamps[i] > stamps[j]
}

/// The timestamps posted over a run of requests whose notifications have the
/// creation times `fetches[0]`, `fetches[1]`, ..., starting from `newest`.
pub open spec fn posted_in_run(newest: i64, fetches: Seq<Seq<i64>>) -> Seq<i64>
    decreases fetches.len(),
{
    if fetches.len() == 0 {
        Seq::empty()
    } else {
        let f = fetches[0];
        f.take(fresh_count(newest, f) as int) + posted_in_run(next_newest(newest, f), fetches.drop_first())
    }
}

/// Whether every request of a run lists its notifications newest first, and
/// the newest notification of a request that lists any is never older than
/// that of an earlier request that listed any.
pub open spec fn orderly_run(fetches: Seq<Seq<i64>>) -> bool {
    &&& forall|k: int| 0 <= k < fetches.len() ==> strictly_newest_first(#[trigger] fetches[k])
    &&& forall|k: int, m: int|
        0 <= k < m < fetches.len() && fetches[k].len() > 0 && fetches[m].len() > 0
            ==> #[trigger] fetches[k][0] <= #[trigger] fetches[m][0]
}

/// The newest timestamp of the first request of a run that lists any.
pub open spec fn first_head(fetches: Seq<Seq<i64>>) -> Option<i64>
    decreases fetches.len(),
{
    if fetches.len() == 0 {
        None
    } else if fetches[0].len() > 0 {
        Some(fetches[0][0])
    } else {
        first_head(fetches.drop_first())
    }
}

proof fn lemma_first_head_is_a_head(fetches: Seq<Seq<i64>>)
    ensures
        first_head(fetches) matches Some(h) ==> exists|k: int|
            0 <= k < fetches.len() && fetches[k].len() > 0 && #[trigger] fetches[k][0] == h,
    decreases fetches.len(),
{
    if fetches.len() > 0 && fetches[0].len() == 0 {
        let tail = fetches.drop_first();
        lemma_first_head_is_a_head(tail);
        if first_head(tail) is Some {
            let k = choose|k: int| 0 <= k < tail.len() && tail[k].len() > 0 && #[trigger] tail[k][0]
                == first_head(tail)->0;
            assert(fetches[k + 1] == tail[k]);
        }
    }
}

/// The bound below every timestamp posted in a run from `newest`: `newest`
/// itself once something has been seen, else the newest timestamp of the
/// first request that lists any.
pub open spec fn posted_bound(newest: i64, fetches: Seq<Seq<i64>>) -> Option<i64> {
    if newest != 0 {
        Some(newest)
    } else {
        first_head(fetches)
    }
}

/// In an orderly run, every notification posted lies above the bound, and
/// none is posted twice.
pub proof fn lemma_run_posted_newer_and_once(newest: i64, fetches: Seq<Seq<i64>>)
    requires
        orderly_run(fetches),
        newest == 0 || forall|k: int|
            0 <= k < fetches.len() && fetches[k].len() > 0 ==> #[trigger] fetches[k][0] >= newest,
    ensures
        posted_in_run(newest, fetches).len() > 0 ==> posted_bound(newest, fetches) is Some,
        forall|k: int|
            0 <= k < posted_in_run(newest, fetches).len() ==> #[trigger] posted_in_run(newest, fetches)[k]
                > posted_bound(newest, fetches)->0,
        posted_in_run(newest, fetches).no_duplicates(),
    decreases fetches.len(),
{
    if fetches.len() > 0 {
        let f = fetches[0];
        let tail = fetches.drop_first();
        let c = fresh_count(newest, f);
        let next = next_newest(newest, f);
        let head = f.take(c as int);
        let rest = posted_in_run(next, tail);
        let all = posted_in_run(newest, fetches);
        assert(orderly_run(tail)) by {
            assert forall|k: int| 0 <= k < tail.len() implies strictly_newest_first(
                #[trigger] tail[k],
            ) by {
                assert(tail[k] == fetches[k + 1]);
            }
            assert forall|k: int, m: int|
                0 <= k < m < tail.len() && tail[k].len() > 0 && tail[m].len() > 0 implies #[trigger] tail[k][0]
                <= #[trigger] tail[m][0] by {
                assert(tail[k] == fetches[k + 1]);
                assert(tail[m] == fetches[m + 1]);
            }
        }
        assert(strictly_newest_first(f));
        if f.len() > 0 {
            assert forall|k: int| 0 <= k < tail.len() && tail[k].len() > 0 implies #[trigger] tail[k][0]
                >= next by {
                assert(tail[k] == fetches[k + 1]);
                assert(fetches[0][0] <= fetches[k + 1][0]);
            }
        } else if newest != 0 {
            assert forall|k: int| 0 <= k < tail.len() && tail[k].len() > 0 implies #[trigger] tail[k][0]
                >= next by {
                assert(tail[k] == fetches[k + 1]);
                assert(fetches[k + 1][0] >= newest);
            }
        }
        lemma_run_posted_newer_and_once(next, tail);
        lemma_first_head_is_a_head(tail);
        if newest != 0 {
            lemma_posted_are_newer(newest, f);
        } else {
            lemma_first_request_posts_nothing(f);
        }
        assert(all =~= head + rest);
        // The bound of the rest of the run is at least the newest timestamp of this request.
        if f.len() > 0 {
            if let Some(b) = posted_bound(next, tail) {
                if next == 0 {
                    let k = choose|k: int| 0 <= k < tail.len() && tail[k].len() > 0 && #[trigger] tail[k][0]
                        == b;
                    assert(tail[k][0] >= next);
                }
                assert(b >= f[0]);
            }
        }
        assert forall|k: int| 0 <= k < head.len() implies head[k] <= f[0] && head[k] > newest by {
            if k > 0 {
                assert(f[0] > f[k]);
            }
        }
        assert forall|k: int| 0 <= k < all.len() implies posted_bound(newest, fetches) is Some
            && #[trigger] all[k] > posted_bound(newest, fetches)->0 by {
            if k >= head.len() {
                assert(all[k] == rest[k - head.len()]);
                if f.len() == 0 {
                    assert(first_head(fetches) == first_head(tail));
                } else {
                    if newest != 0 {
                        assert(f[0] >= newest);
                    }
                }
            }
        }
        if all.len() > 0 {
            assert(posted_bound(newest, fetches) is Some && all[0] > posted_bound(newest, fetches)->0);
        }
        assert forall|a: int, b: int| 0 <= a < all.len() && 0 <= b < all.len() && a != b implies all[a]
            != all[b] by {
            if a < head.len() && b < head.len() {
                if a < b {
                    assert(f[a] > f[b]);
                } else {
                    assert(f[b] > f[a]);
                }
            } else if a < head.len() {
                assert(all[b] == rest[b - head.len()]);
            } else if b < head.len() {
                assert(all[a] == rest[a - head.len()]);
            } else {
                assert(all[a] == rest[a - head.len()]);
                assert(all[b] == rest[b - head.len()]);
            }
        }
    }
}

/// Over a whole orderly run of the watcher, which starts from 0, no
/// notification is posted twice.
pub proof fn lemma_no_notification_posted_twice(fetches: Seq<Seq<i64>>)
    requires
        orderly_run(fetches),
    ensures
        posted_in_run(0, fetches).no_duplicates(),
{
    lemma_run_posted_newer_and_once(0, fetches);
}

/// What a request leads to, described by the timestamps alone: before
/// anything has been seen, a request that lists notifications only records the
/// newest (an empty one posts none); afterwards, exactly the leading
/// notifications newer than the newest seen are posted: all posted ones are
/// newer, and the first one not posted, if any, is not.
pub proof fn lemma_fresh_outcome_is_the_newer_prefix(newest: i64, stamps: Seq<i64>)
    requires
        stamps.len() <= usize::MAX,
    ensures
        newest == 0 && stamps.len() > 0 ==> fresh_outcome(newest, stamps) == Fresh::SkippedInit,
        newest == 0 && stamps.len() == 0 ==> fresh_outcome(newest, stamps) == Fresh::Count(0),
        newest != 0 ==> (fresh_outcome(newest, stamps) matches Fresh::Count(k) && {
            &&& k <= stamps.len()
            &&& forall|i: int| 0 <= i < k ==> stamps[i] > newest
            &&& k < stamps.len() ==> stamps[k as int] <= newest
        }),
{
    if newest != 0 {
        lemma_posted_are_newer(newest, stamps);
    }
}

/// The first request posts nothing.
pub proof fn lemma_first_request_posts_nothing(stamps: Seq<i64>)
    ensures
        fresh_count(0, stamps) == 0,
{
}

/// Every notification posted is newer than the newest one seen before, and the
/// first one not posted (if any) is not.
pub proof fn lemma_posted_are_newer(newest: i64, stamps: Seq<i64>)
    requires
        newest != 0,
    ensures
        fresh_count(newest, stamps) <= stamps.len(),
        forall|i: int| 0 <= i < fresh_count(newest, stamps) ==> stamps[i] > newest,
        fresh_count(newest, stamps) < stamps.len() ==> stamps[fresh_count(newest, stamps) as int]
            <= newest,
    decreases stamps.len(),
{
    if stamps.len() > 0 && stamps[0] > newest {
        let rest = stamps.drop_first();
        lemma_posted_are_newer(newest, rest);
        assert forall|i: int| 0 <= i < fresh_count(newest, stamps) implies stamps[i] > newest by {
            if i > 0 {
                assert(stamps[i] == rest[i - 1]);
            }
        }
    }
}

/// Fetching the same notifications again posts none of them a second time.
pub proof fn lemma_refetch_posts_nothing(newest: i64, stamps: Seq<i64>)
    ensures
        fresh_count(next_newest(newest, stamps), stamps) == 0,
{
}

} // verus!
