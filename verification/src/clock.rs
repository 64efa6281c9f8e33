//! Injectable time and deadlines.

use vstd::prelude::*;
use vstd::string::StringExecFns;

use crate::fingerprint::{group_absorb, Encoded, FingerprintHasher};
use crate::order::Ordered;
use crate::record::Record;
use crate::text::decimal_text;

verus! {

/// A point in time expressed as milliseconds since the Unix epoch.
#[derive(Debug, Clone, Copy, PartialEq, Eq, PartialOrd, Ord, Structural)]
pub struct Timestamp(pub u64);

impl DeepView for Timestamp {
    type V = Timestamp;

    open spec fn deep_view(&self) -> Timestamp {
        *self
    }
}

impl Record for Timestamp {
    fn same(&self, other: &Self) -> (r: bool) {
        self.0 == other.0
    }

    fn copied(&self) -> (r: Self) {
        *self
    }
}

impl Ordered for Timestamp {
    open spec fn before(a: Timestamp, b: Timestamp) -> bool {
        a.0 < b.0
    }

    fn precedes(&self, other: &Self) -> (r: bool) {
        self.0 < other.0
    }

    proof fn lemma_order(a: Timestamp, b: Timestamp, c: Timestamp) {
    }
}

impl Encoded for Timestamp {
    open spec fn fields(view: Timestamp) -> Seq<Seq<char>> {
        seq![crate::text::decimal(view.0 as nat)]
    }

    fn encode(&self, hasher: &mut FingerprintHasher) {
        broadcast use group_absorb;

        hasher.field(decimal_text(self.0).as_str());
    }

    proof fn lemma_decodable(a: Timestamp, b: Timestamp, x: Seq<Seq<char>>, y: Seq<Seq<char>>) {
        u64::lemma_decodable(a.0, b.0, x, y);
    }
}

impl Timestamp {
    /// The epoch.
    pub fn zero() -> (r: Timestamp)
        ensures
            r.0 == 0,
    {
        Timestamp(0)
    }

    /// The raw milliseconds value.
    pub fn as_millis(self) -> (r: u64)
        ensures
            r == self.0,
    {
        self.0
    }

    /// The timestamp `millis` after this one, or the last one there is.
    pub fn plus_millis(self, millis: u64) -> (r: Timestamp)
        ensures
            r == later(self, millis),
    {
        Timestamp(self.0.saturating_add(millis))
    }

    /// The timestamp as text: its milliseconds, followed by `ms`.
    pub fn to_text(&self) -> (r: String)
        ensures
            r@ == crate::text::decimal(self.0 as nat) + "ms"@,
    {
        let mut out = decimal_text(self.0);
        out.append("ms");
        out
    }
}

/// The timestamp `millis` after `from`, or the last one there is.
pub open spec fn later(from: Timestamp, millis: u64) -> Timestamp {
    if from.0 + millis <= u64::MAX {
        Timestamp((from.0 + millis) as u64)
    } else {
        Timestamp(u64::MAX)
    }
}

/// A source of the current time.
pub trait Clock: Send + Sync {
    /// The current time.
    fn now(&self) -> Timestamp;
}

/// A clock backed by the operating system wall clock.
#[derive(Debug, Clone, Copy, Default)]
pub struct SystemClock;

/// What `std::time::SystemTime::now` reads, as whole milliseconds since the Unix
/// epoch, or nothing where the clock stands before the epoch. Nothing is promised of
/// the reading.
#[verifier::external_body]
fn millis_since_epoch() -> (r: Option<u128>) {
    let elapsed = std::time::SystemTime::now().duration_since(std::time::UNIX_EPOCH);
    elapsed.ok().map(|elapsed| elapsed.as_millis())
}

impl SystemClock {
    /// The timestamp of a reading of the wall clock: zero where the clock stands
    /// before the epoch, and the low 64 bits of the milliseconds since it otherwise.
    pub fn timestamp_of(reading: Option<u128>) -> (r: Timestamp)
        ensures
            r == (match reading {
                Some(millis) => Timestamp((millis % 0x1_0000_0000_0000_0000u128) as u64),
                None => Timestamp(0),
            }),
    {
        match reading {
            Some(millis) => {
                assert((millis as u64) == (millis % 0x1_0000_0000_0000_0000u128) as u64)
                    by (bit_vector);
                Timestamp(millis as u64)
            },
            None => Timestamp(0),
        }
    }
}

impl Clock for SystemClock {
    fn now(&self) -> Timestamp {
        SystemClock::timestamp_of(millis_since_epoch())
    }
}

/// An absolute deadline, checked against a [`Clock`].
#[derive(Debug, Clone, Copy, PartialEq, Eq, Structural)]
pub struct Deadline {
    at: Option<Timestamp>,
}

impl DeepView for Deadline {
    type V = Option<Timestamp>;

    open spec fn deep_view(&self) -> Option<Timestamp> {
        self@
    }
}

impl View for Deadline {
    type V = Option<Timestamp>;

    closed spec fn view(&self) -> Option<Timestamp> {
        self.at
    }
}

impl Record for Deadline {
    fn same(&self, other: &Self) -> (r: bool) {
        self.at.same(&other.at)
    }

    fn copied(&self) -> (r: Self) {
        *self
    }
}

/// Whether a deadline has passed at `now`.
pub open spec fn expired(deadline: Option<Timestamp>, now: Timestamp) -> bool {
    deadline matches Some(at) && now.0 >= at.0
}

/// The milliseconds from `now` to a deadline; none without a deadline, zero
/// once it has passed.
pub open spec fn remaining(deadline: Option<Timestamp>, now: Timestamp) -> Option<u64> {
    match deadline {
        Some(at) => Some(
            if at.0 >= now.0 {
                (at.0 - now.0) as u64
            } else {
                0
            },
        ),
        None => None,
    }
}

/// The earlier of two deadlines, where none is later than every instant.
pub open spec fn earlier(a: Option<Timestamp>, b: Option<Timestamp>) -> Option<Timestamp> {
    match (a, b) {
        (Some(x), Some(y)) => Some(
            if x.0 <= y.0 {
                x
            } else {
                y
            },
        ),
        (Some(x), None) => Some(x),
        (None, y) => y,
    }
}

impl Deadline {
    /// A deadline that never expires.
    pub fn never() -> (r: Deadline)
        ensures
            r@ == None::<Timestamp>,
    {
        Deadline { at: None }
    }

    /// A deadline `millis` after `now`.
    pub fn after_instant(now: Timestamp, millis: u64) -> (r: Deadline)
        ensures
            r@ == Some(later(now, millis)),
    {
        Deadline { at: Some(now.plus_millis(millis)) }
    }

    /// A deadline `millis` from now, per `clock`.
    pub fn after<C: Clock>(clock: &C, millis: u64) -> (r: Deadline)
        ensures
            exists|now: Timestamp| #[trigger]
                call_ensures(C::now, (clock,), now) && r@ == Some(later(now, millis)),
    {
        Deadline::after_instant(clock.now(), millis)
    }

    /// An absolute deadline.
    pub fn at(at: Timestamp) -> (r: Deadline)
        ensures
            r@ == Some(at),
    {
        Deadline { at: Some(at) }
    }

    /// Whether the deadline has passed at `now`.
    pub fn is_expired_at(&self, now: Timestamp) -> (r: bool)
        ensures
            r == expired(self@, now),
    {
        match self.at {
            Some(at) => now.0 >= at.0,
            None => false,
        }
    }

    /// Whether the deadline has passed as of `clock`'s current time.
    pub fn is_expired<C: Clock>(&self, clock: &C) -> (r: bool)
        ensures
            self@ is None ==> !r,
            self@ is Some ==> exists|now: Timestamp| #[trigger]
                call_ensures(C::now, (clock,), now) && r == expired(self@, now),
    {
        match self.at {
            Some(_) => self.is_expired_at(clock.now()),
            None => false,
        }
    }

    /// Milliseconds from `now` to the deadline, or `None` if there is none.
    pub fn remaining_millis_at(&self, now: Timestamp) -> (r: Option<u64>)
        ensures
            r == remaining(self@, now),
    {
        match self.at {
            Some(at) => Some(at.0.saturating_sub(now.0)),
            None => None,
        }
    }

    /// Milliseconds remaining, or `None` if there is no deadline.
    pub fn remaining_millis<C: Clock>(&self, clock: &C) -> (r: Option<u64>)
        ensures
            self@ is None ==> r is None,
            self@ is Some ==> exists|now: Timestamp| #[trigger]
                call_ensures(C::now, (clock,), now) && r == remaining(self@, now),
    {
        match self.at {
            Some(_) => self.remaining_millis_at(clock.now()),
            None => None,
        }
    }

    /// The absolute expiry instant, if any.
    pub fn instant(&self) -> (r: Option<Timestamp>)
        ensures
            r == self@,
    {
        self.at
    }

    /// The earlier of two deadlines. A finite deadline is always earlier than
    /// [`Deadline::never`].
    pub fn earliest(self, other: Deadline) -> (r: Deadline)
        ensures
            r@ == earlier(self@, other@),
    {
        match (self.at, other.at) {
            (Some(left), Some(right)) => Deadline::at(
                if left.0 <= right.0 {
                    left
                } else {
                    right
                },
            ),
            (Some(left), None) => Deadline::at(left),
            (None, Some(right)) => Deadline::at(right),
            (None, None) => Deadline::never(),
        }
    }
}

/// The earlier of two deadlines has passed exactly when one of the two has.
pub proof fn earliest_expires_with_either(
    a: Option<Timestamp>,
    b: Option<Timestamp>,
    now: Timestamp,
)
    ensures
        expired(earlier(a, b), now) == (expired(a, now) || expired(b, now)),
{
}

/// The earlier of two deadlines does not depend on their order.
pub proof fn earliest_is_commutative(a: Option<Timestamp>, b: Option<Timestamp>)
    ensures
        earlier(a, b) == earlier(b, a),
{
}

/// A deadline that has passed stays passed.
pub proof fn expiry_is_permanent(deadline: Option<Timestamp>, now: Timestamp, then: Timestamp)
    requires
        expired(deadline, now),
        now.0 <= then.0,
    ensures
        expired(deadline, then),
{
}

/// A deadline has passed exactly when nothing remains of it.
pub proof fn expired_means_nothing_remains(deadline: Option<Timestamp>, now: Timestamp)
    ensures
        expired(deadline, now) <==> remaining(deadline, now) == Some(0u64),
{
}

/// A time that is later by some milliseconds is exactly that much later, unless there is
/// no such time: it is the last there is.
pub proof fn a_later_time_is_that_much_later(from: Timestamp, millis: u64)
    ensures
        from.0 <= later(from, millis).0 <= from.0 + millis,
        later(from, millis).0 == from.0 + millis || later(from, millis).0 == u64::MAX,
{
}

/// A deadline has passed from its very instant on and not before; one that never comes
/// never has. What remains until it, with the time, makes up the instant.
pub proof fn a_deadline_passes_at_its_instant(at: Timestamp, now: Timestamp)
    ensures
        !expired(None, now),
        remaining(None, now) is None,
        expired(Some(at), now) <==> at.0 <= now.0,
        remaining(Some(at), now) matches Some(left) && (if now.0 < at.0 {
            now.0 + left == at.0
        } else {
            left == 0
        }),
{
}

/// The earlier of two deadlines is one of the two, and neither comes before it. One that
/// never comes is earlier than none.
pub proof fn the_earliest_is_the_first_to_come(a: Option<Timestamp>, b: Option<Timestamp>)
    ensures
        earlier(a, b) == a || earlier(a, b) == b,
        earlier(a, b) is None <==> a is None && b is None,
        earlier(a, b) matches Some(first) ==> {
            &&& a matches Some(x) ==> first.0 <= x.0
            &&& b matches Some(y) ==> first.0 <= y.0
        },
{
}

/// A deadline that was set for some time ahead has not passed before that time, and has once it
/// is reached.
pub proof fn a_deadline_ahead_passes_in_time(
    now: Timestamp,
    millis: u64,
    then: Timestamp,
    deadline: Deadline,
    passed: bool,
    left: Option<u64>,
)
    requires
        call_ensures(Deadline::after_instant, (now, millis), deadline),
        call_ensures(Deadline::is_expired_at, (&deadline, then), passed),
        call_ensures(Deadline::remaining_millis_at, (&deadline, then), left),
        now.0 + millis <= u64::MAX,
    ensures
        passed <==> now.0 + millis <= then.0,
        left matches Some(rest) && (if then.0 < now.0 + millis {
            then.0 + rest == now.0 + millis
        } else {
            rest == 0
        }),
{
}

/// One that never comes never passes and leaves nothing to count.
pub proof fn never_does_not_come(
    now: Timestamp,
    deadline: Deadline,
    passed: bool,
    left: Option<u64>,
)
    requires
        call_ensures(Deadline::never, (), deadline),
        call_ensures(Deadline::is_expired_at, (&deadline, now), passed),
        call_ensures(Deadline::remaining_millis_at, (&deadline, now), left),
    ensures
        !passed,
        left is None,
{
}

/// The earliest of two deadlines has passed exactly when either has.
pub proof fn the_earliest_passes_with_either(
    a: Deadline,
    b: Deadline,
    now: Timestamp,
    earliest: Deadline,
    passed: bool,
    a_passed: bool,
    b_passed: bool,
)
    requires
        call_ensures(Deadline::earliest, (a, b), earliest),
        call_ensures(Deadline::is_expired_at, (&earliest, now), passed),
        call_ensures(Deadline::is_expired_at, (&a, now), a_passed),
        call_ensures(Deadline::is_expired_at, (&b, now), b_passed),
    ensures
        passed <==> a_passed || b_passed,
        earliest@ == a@ || earliest@ == b@,
{
}

/// Adding milliseconds goes on by exactly that much, and never past the last time there is.
pub proof fn adding_goes_on_by_that_much(from: Timestamp, millis: u64, r: Timestamp)
    requires
        call_ensures(Timestamp::plus_millis, (from, millis), r),
    ensures
        from.0 + millis <= u64::MAX ==> r.0 == from.0 + millis,
        from.0 + millis > u64::MAX ==> r.0 == u64::MAX,
{
}

/// A reading of the wall clock is its own timestamp as long as one can hold it; a clock before
/// the epoch reads as the epoch.
pub proof fn a_reading_is_its_own_timestamp(reading: Option<u128>, r: Timestamp)
    requires
        call_ensures(SystemClock::timestamp_of, (reading,), r),
    ensures
        reading is None ==> r.0 == 0,
        reading matches Some(millis) ==> (millis <= u64::MAX ==> r.0 == millis),
{
}

} // verus!
