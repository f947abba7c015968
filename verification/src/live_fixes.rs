//! Live fixes: the messages sent to web clients, the subjects subscribed to, and the
//! bookkeeping of shared subscriptions (one upstream subscription per aircraft or area,
//! shared by all the clients that asked for it).

use vstd::prelude::*;
use vstd::hash_map::StringHashMap;

use crate::aircraft::Aircraft;
use crate::fixes::Fix;
use crate::text::{signed_decimal, to_signed_decimal};

verus! {

/// A message sent to a web client.
pub enum WebSocketMessage {
    /// A new position report.
    Fix(Box<Fix>),
    /// Aircraft details.
    Aircraft(Box<Aircraft>),
}

/// The subject on which the fixes of one aircraft are published: `{prefix}.fix.{id}`.
pub open spec fn aircraft_subject_spec(prefix: Seq<char>, aircraft_id: Seq<char>) -> Seq<char> {
    prefix + ".fix."@ + aircraft_id
}

/// The key of an area subscription: `area.{lat}.{lon}`.
pub open spec fn area_key_spec(latitude: int, longitude: int) -> Seq<char> {
    "area."@ + signed_decimal(latitude) + "."@ + signed_decimal(longitude)
}

/// The subject on which the fixes of one area are published: `{prefix}.area.{lat}.{lon}`.
pub open spec fn area_subject_spec(prefix: Seq<char>, latitude: int, longitude: int) -> Seq<char> {
    prefix + "."@ + area_key_spec(latitude, longitude)
}

/// The subject for the fixes of one aircraft.
pub fn aircraft_subject(prefix: &str, aircraft_id: &str) -> (r: String)
    ensures
        r@ == aircraft_subject_spec(prefix@, aircraft_id@),
{
    let mut s = String::from_str(prefix);
    s.append(".fix.");
    s.append(aircraft_id);
    proof {
        reveal_strlit(".fix.");
    }
    s
}

/// The key of the subscription to one area, given by whole degrees.
pub fn area_key(latitude: i32, longitude: i32) -> (r: String)
    ensures
        r@ == area_key_spec(latitude as int, longitude as int),
{
    let mut s = String::from_str("area.");
    let lat = to_signed_decimal(latitude as i64);
    s.append(lat.as_str());
    s.append(".");
    let lon = to_signed_decimal(longitude as i64);
    s.append(lon.as_str());
    proof {
        reveal_strlit("area.");
        reveal_strlit(".");
    }
    s
}

/// The subject for the fixes of one area, given by whole degrees.
pub fn area_subject(prefix: &str, latitude: i32, longitude: i32) -> (r: String)
    ensures
        r@ == area_subject_spec(prefix@, latitude as int, longitude as int),
{
    let mut s = String::from_str(prefix);
    s.append(".");
    let key = area_key(latitude, longitude);
    s.append(key.as_str());
    proof {
        reveal_strlit(".");
    }
    s
}

/// What subscribing did.
#[derive(Debug, Clone, Copy, PartialEq, Eq, Structural)]
pub enum Subscribed {
    /// An upstream subscription existed; the client joined it, which now has this many
    /// clients.
    Joined(usize),
    /// There was none: a new upstream subscription must be made, with this one client.
    Created,
}

/// What unsubscribing did.
#[derive(Debug, Clone, Copy, PartialEq, Eq, Structural)]
pub enum Unsubscribed {
    /// The client left; this many remain.
    Remaining(usize),
    /// The last client left: the upstream subscription must be cancelled.
    Closed,
    /// There was no such subscription.
    NotFound,
}

/// The number of clients of each shared subscription, by key.
pub struct SubscriptionRegistry {
    counts: StringHashMap<usize>,
}

/// The clients per key after one more client subscribes to `key`.
pub open spec fn after_subscribe(m: Map<Seq<char>, usize>, key: Seq<char>) -> Map<Seq<char>, usize> {
    if m.contains_key(key) {
        m.insert(key, (m[key] + 1) as usize)
    } else {
        m.insert(key, 1)
    }
}

/// The clients per key after one client leaves `key`: the count drops by one, and the
/// key goes when none remain; an unknown key changes nothing.
pub open spec fn after_unsubscribe(m: Map<Seq<char>, usize>, key: Seq<char>) -> Map<Seq<char>, usize> {
    if !m.contains_key(key) {
        m
    } else if m[key] <= 1 {
        m.remove(key)
    } else {
        m.insert(key, (m[key] - 1) as usize)
    }
}

/// Every subscription that is kept has at least one client.
pub open spec fn all_counted(m: Map<Seq<char>, usize>) -> bool {
    forall|k: Seq<char>| #[trigger] m.contains_key(k) ==> m[k] >= 1
}

impl View for SubscriptionRegistry {
    type V = Map<Seq<char>, usize>;

    closed spec fn view(&self) -> Map<Seq<char>, usize> {
        self.counts@
    }
}

impl SubscriptionRegistry {
    /// The registry invariant: every kept subscription has a client.
    pub open spec fn wf(&self) -> bool {
        all_counted(self@)
    }

    /// An empty registry.
    pub fn new() -> (r: Self)
        ensures
            r@ == Map::<Seq<char>, usize>::empty(),
            r.wf(),
    {
        SubscriptionRegistry { counts: StringHashMap::new() }
    }

    /// The number of clients of `key` (zero when there is no such subscription).
    pub fn subscriber_count(&self, key: &str) -> (r: usize)
        ensures
            self@.contains_key(key@) ==> r == self@[key@],
            !self@.contains_key(key@) ==> r == 0,
    {
        match self.counts.get(key) {
            Some(c) => *c,
            None => 0,
        }
    }

    /// Count one more client of `key`: join the existing subscription, or record a new
    /// one with a single client.
    pub fn subscribe(&mut self, key: &str) -> (r: Subscribed)
        requires
            old(self).wf(),
            old(self)@.contains_key(key@) ==> old(self)@[key@] < usize::MAX,
        ensures
            final(self).wf(),
            final(self)@ == after_subscribe(old(self)@, key@),
            old(self)@.contains_key(key@) ==> r == Subscribed::Joined(
                (old(self)@[key@] + 1) as usize,
            ),
            !old(self)@.contains_key(key@) ==> r == Subscribed::Created,
    {
        let current = match self.counts.get(key) {
            Some(c) => Some(*c),
            None => None,
        };
        match current {
            Some(c) => {
                self.counts.insert(String::from_str(key), c + 1);
                Subscribed::Joined(c + 1)
            },
            None => {
                self.counts.insert(String::from_str(key), 1);
                Subscribed::Created
            },
        }
    }

    /// Count one client less of `key`: when none remain the subscription is dropped and
    /// must be cancelled; an unknown key is reported and changes nothing.
    pub fn unsubscribe(&mut self, key: &str) -> (r: Unsubscribed)
        requires
            old(self).wf(),
        ensures
            final(self).wf(),
            final(self)@ == after_unsubscribe(old(self)@, key@),
            !old(self)@.contains_key(key@) ==> r == Unsubscribed::NotFound,
            old(self)@.contains_key(key@) && old(self)@[key@] == 1 ==> r == Unsubscribed::Closed,
            old(self)@.contains_key(key@) && old(self)@[key@] > 1 ==> r == Unsubscribed::Remaining(
                (old(self)@[key@] - 1) as usize,
            ),
    {
        let current = match self.counts.get(key) {
            Some(c) => Some(*c),
            None => None,
        };
        match current {
            Some(c) => {
                if c <= 1 {
                    self.counts.remove(key);
                    Unsubscribed::Closed
                } else {
                    self.counts.insert(String::from_str(key), c - 1);
                    Unsubscribed::Remaining(c - 1)
                }
            },
            None => Unsubscribed::NotFound,
        }
    }
}

/// Law: a client that subscribes and then unsubscribes leaves the registry as it found it.
pub proof fn lemma_unsubscribe_undoes_subscribe(m: Map<Seq<char>, usize>, key: Seq<char>)
    requires
        all_counted(m),
        m.contains_key(key) ==> m[key] < usize::MAX,
    ensures
        after_unsubscribe(after_subscribe(m, key), key) == m,
{
    assert(after_unsubscribe(after_subscribe(m, key), key) =~= m);
}

/// Law: subscriptions for different keys do not affect each other.
pub proof fn lemma_keys_independent(m: Map<Seq<char>, usize>, a: Seq<char>, b: Seq<char>)
    requires
        a != b,
    ensures
        after_subscribe(m, a).contains_key(b) == m.contains_key(b),
        m.contains_key(b) ==> after_subscribe(m, a)[b] == m[b],
        after_unsubscribe(m, a).contains_key(b) == m.contains_key(b),
        m.contains_key(b) ==> after_unsubscribe(m, a)[b] == m[b],
{
}

/// How many messages in a row may find no client before the delivery loop stops.
pub const MAX_NO_RECEIVER_ATTEMPTS: usize = 3;

/// Counts consecutive messages that found no client to deliver to.
#[derive(Debug, Clone, Copy, PartialEq, Eq, Structural)]
pub struct DeliveryMonitor {
    pub consecutive_undelivered: usize,
}

impl DeliveryMonitor {
    pub fn new() -> (r: Self)
        ensures
            r.consecutive_undelivered == 0,
    {
        DeliveryMonitor { consecutive_undelivered: 0 }
    }

    /// Record whether a message reached some client; returns whether to keep delivering.
    /// A delivery resets the count; the loop stops once the count of undelivered messages
    /// in a row reaches the limit.
    pub fn record(&mut self, delivered: bool) -> (keep_going: bool)
        requires
            old(self).consecutive_undelivered < MAX_NO_RECEIVER_ATTEMPTS,
        ensures
            delivered ==> final(self).consecutive_undelivered == 0 && keep_going,
            !delivered ==> final(self).consecutive_undelivered == old(
                self,
            ).consecutive_undelivered + 1,
            keep_going == (final(self).consecutive_undelivered < MAX_NO_RECEIVER_ATTEMPTS),
    {
        if delivered {
            self.consecutive_undelivered = 0;
        } else {
            self.consecutive_undelivered = self.consecutive_undelivered + 1;
        }
        self.consecutive_undelivered < MAX_NO_RECEIVER_ATTEMPTS
    }
}

} // verus!
