//! The rate of published messages: a count for each minute of the wall clock,
//! reported when the minute has passed.

use vstd::prelude::*;
use vstd::string::*;
use crate::decimal::{decimal, push_decimal};
use crate::packet::optional_text;

verus! {

/// The count of the messages published in the current minute.
#[derive(Debug, Clone, Copy, PartialEq, Eq, Structural)]
pub struct RateCounter {
    /// The messages published in the minute `minute`.
    pub count: u32,
    /// The minute of the hour that was seen last; `None` before the first.
    pub minute: Option<i32>,
}

pub struct RateView {
    pub count: nat,
    pub minute: Option<int>,
}

impl View for RateCounter {
    type V = RateView;

    open spec fn view(&self) -> RateView {
        RateView {
            count: self.count as nat,
            minute: match self.minute {
                Some(m) => Some(m as int),
                None => None,
            },
        }
    }
}

/// The counter before anything was published.
pub open spec fn fresh() -> RateView {
    RateView { count: 0, minute: None }
}

/// The counter after a message was published in the minute `minute`, and the
/// count to report: that of the minute that has passed, where the minute has
/// changed and was not the first.
pub open spec fn observed(state: RateView, minute: int) -> (RateView, Option<nat>) {
    if state.minute == Some(minute) {
        (RateView { count: state.count + 1, minute: state.minute }, None)
    } else {
        (
            RateView { count: 1, minute: Some(minute) },
            match state.minute {
                Some(_) => Some(state.count),
                None => None,
            },
        )
    }
}

/// The view of an optional count.
pub open spec fn optional_count(count: Option<u32>) -> Option<nat> {
    match count {
        Some(c) => Some(c as nat),
        None => None,
    }
}

/// The counter after one message was published in each of the minutes
/// `minutes`, in that order.
pub open spec fn after(state: RateView, minutes: Seq<int>) -> RateView
    decreases minutes.len(),
{
    if minutes.len() == 0 {
        state
    } else {
        observed(after(state, minutes.drop_last()), minutes.last()).0
    }
}

/// The text of a rate record.
pub open spec fn rate_text(count: nat) -> Seq<char> {
    "packets_per_minute rate="@ + decimal(count) + seq!['i']
}

/// What metering one published message gives: the counter after it and the
/// rate record to publish, if there is one.
pub open spec fn metered(state: RateView, minute: int) -> (RateView, Option<Seq<char>>) {
    (
        observed(state, minute).0,
        match observed(state, minute).1 {
            Some(count) => Some(rate_text(count)),
            None => None,
        },
    )
}

/// The rate record that is to be published when the message at position `i`
/// of `minutes` is counted, if there is one.
pub open spec fn reported_at(state: RateView, minutes: Seq<int>, i: int) -> Option<Seq<char>> {
    metered(after(state, minutes.take(i)), minutes[i]).1
}

/// The minutes of `first` messages in the minute `m1` followed by `second`
/// messages in the minute `m2`.
pub open spec fn two_minutes(m1: int, first: nat, m2: int, second: nat) -> Seq<int> {
    Seq::new(
        first + second,
        |i: int|
            if i < first {
                m1
            } else {
                m2
            },
    )
}

proof fn lemma_after_two_minutes(m1: int, first: nat, m2: int, second: nat, k: int)
    requires
        m1 != m2,
        first >= 1,
        0 <= k <= first + second,
    ensures
        after(fresh(), two_minutes(m1, first, m2, second).take(k)) == (if k == 0 {
            fresh()
        } else if k <= first {
            RateView { count: k as nat, minute: Some(m1) }
        } else {
            RateView { count: (k - first) as nat, minute: Some(m2) }
        }),
    decreases k,
{
    let minutes = two_minutes(m1, first, m2, second);
    if k > 0 {
        lemma_after_two_minutes(m1, first, m2, second, k - 1);
        assert(minutes.take(k).drop_last() =~= minutes.take(k - 1));
    }
}

/// Messages are published in a first minute and then in another: `first` of
/// them in the one, `second` in the other, at least one in each. Then exactly
/// one rate record is to be published: that of the first minute with its
/// count, when the first message of the second minute is counted. Nothing is
/// reported for the first minute seen.
pub proof fn lemma_rate_reported_once(m1: int, first: nat, m2: int, second: nat)
    requires
        m1 != m2,
        first >= 1,
        second >= 1,
    ensures
        forall|i: int|
            0 <= i < first + second ==> #[trigger] reported_at(
                fresh(),
                two_minutes(m1, first, m2, second),
                i,
            ) == (if i == first {
                Some(rate_text(first))
            } else {
                None::<Seq<char>>
            }),
{
    let minutes = two_minutes(m1, first, m2, second);
    assert forall|i: int| 0 <= i < first + second implies #[trigger] reported_at(
        fresh(),
        minutes,
        i,
    ) == (if i == first {
        Some(rate_text(first))
    } else {
        None::<Seq<char>>
    }) by {
        lemma_after_two_minutes(m1, first, m2, second, i);
    }
}

/// The rate record for a count, as one line of text.
pub fn rate_line(count: u32) -> (line: String)
    ensures
        line@ == rate_text(count as nat),
{
    proof {
        reveal_strlit("i");
    }
    let mut line: String = "packets_per_minute rate=".to_owned();
    push_decimal(&mut line, count as u128);
    line.append("i");
    line
}

/// Reads the local wall clock with `time::now` and gives the minute of the
/// hour.
///
/// Trusted: the minute lies between 0 and 59, as the field's documentation
/// says. Nothing else is known of it.
#[verifier::external_body]
pub(crate) fn local_minute() -> (minute: i32)
    ensures
        0 <= minute <= 59,
{
    time::now().tm_min
}

impl RateCounter {
    /// The counter before anything was published.
    pub fn new() -> (counter: RateCounter)
        ensures
            counter@ == fresh(),
    {
        RateCounter { count: 0, minute: None }
    }

    /// Whether one more message can be counted in the minute `minute`: the
    /// count of a minute ends at `u32::MAX`.
    pub open spec fn has_room(self, minute: int) -> bool {
        self@.minute == Some(minute) ==> self.count < u32::MAX
    }

    /// Counts a message published in the minute `minute`. Gives the count of
    /// the minute that has passed, where the minute has changed and was not
    /// the first.
    pub fn observe(&mut self, minute: i32) -> (completed: Option<u32>)
        requires
            old(self).has_room(minute as int),
        ensures
            (final(self)@, optional_count(completed)) == observed(old(self)@, minute as int),
    {
        match self.minute {
            Some(current) => {
                if current == minute {
                    self.count = self.count + 1;
                    None
                } else {
                    let completed: u32 = self.count;
                    self.minute = Some(minute);
                    self.count = 1;
                    Some(completed)
                }
            },
            None => {
                self.minute = Some(minute);
                self.count = 1;
                None
            },
        }
    }

    /// Counts a message published in the minute `minute` and gives the rate
    /// record to publish, if a minute has passed.
    pub fn meter(&mut self, minute: i32) -> (line: Option<String>)
        requires
            old(self).has_room(minute as int),
        ensures
            (final(self)@, optional_text(line)) == metered(old(self)@, minute as int),
    {
        match self.observe(minute) {
            Some(count) => Some(rate_line(count)),
            None => None,
        }
    }
}

/// Counts a message published now, in the current minute of the wall clock,
/// and gives the rate record to publish, if a minute has passed.
pub fn update_packets_per_min(counter: &mut RateCounter) -> (line: Option<String>)
    requires
        old(counter).count < u32::MAX,
    ensures
        exists|minute: int|
            0 <= minute <= 59 && (final(counter)@, optional_text(line)) == #[trigger] metered(
                old(counter)@,
                minute,
            ),
{
    let minute: i32 = local_minute();
    let line: Option<String> = counter.meter(minute);
    line
}

} // verus!
