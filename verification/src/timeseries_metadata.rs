//! Statistics derived from the samples of one series: the change over the
//! last hours, the climatology of each hour of the year, and last year's
//! values.
//!
//! The library selects, groups and orders; it does no arithmetic on
//! values. Where a number has to be computed from values, the caller hands
//! in the function that computes it, and the contracts say on which
//! arguments that function is called and where its result goes.

use vstd::prelude::*;
use std::collections::BTreeMap;

use crate::order::{
    ascending_hours, ascending_slots, hour_append, hour_get, hour_insert, hour_keys, slot_append,
    slot_get, slot_insert, slot_keys,
};
use crate::time::{
    minutes_between, now, start_of_year, utc_minutes_between, utc_year_start, whole_minutes,
    year_of, Timestamp, MAX_SECONDS, MAX_YEAR, MIN_SECONDS, MIN_YEAR,
};
use crate::timeseries::{Observation, TimeSeriesId, ValidatedObservation};
use crate::value::{is_max_of, is_min_of, max_value, min_value, Value};

verus! {

/// How long a sample must have lain before it is taken as settled: four
/// hours, in seconds.
pub const SETTLING_SECONDS: u32 = 14_400;

/// How far before the start of a lookback a sample may lie and still be
/// compared: thirty minutes, in seconds.
pub const WINDOW_SECONDS: u32 = 1_800;

/// The resolution, in minutes, to which every change is scaled.
pub const TARGET_RESOLUTION_MINUTES: u32 = 60;

/// The shortest lookback: one hour, in seconds.
pub const LOOKBACK_1H: u32 = 3_600;

/// The middle lookback: six hours, in seconds.
pub const LOOKBACK_6H: u32 = 21_600;

/// The longest lookback: a day, in seconds.
pub const LOOKBACK_24H: u32 = 86_400;

/// A series with what was derived from it.
#[derive(Debug, Clone, PartialEq)]
pub struct TimeSeriesData {
    pub timeseries_id: TimeSeriesId,
    pub delta: Option<TimeSeriesDelta>,
    pub metadata: Option<TimeseriesMetaData>,
    pub data: Vec<Observation>,
}

/// The change of a series over the last day, six hours and hour: for each
/// lookback the rate of change and the instant of the sample it was
/// measured against, where there is such a sample.
#[derive(Debug, Clone, Copy, PartialEq)]
pub struct TimeSeriesDelta {
    pub change_min24h: Option<(Value, Timestamp)>,
    pub change_min6h: Option<(Value, Timestamp)>,
    pub change_min1h: Option<(Value, Timestamp)>,
}

/// The climatology and last year's values of a series.
#[derive(Debug, Clone, PartialEq)]
pub struct TimeseriesMetaData {
    pub timeseries_id: TimeSeriesId,
    pub ordinate_calculations: Vec<OrdinateToMetaData>,
    pub last_year_observations: Vec<OrdinateToValue>,
}

/// The climatology of one hour of the year.
#[derive(Debug, Clone, Copy, PartialEq)]
pub struct OrdinateToMetaData {
    pub day: u32,
    pub hour: u32,
    pub metdata: OrdinateTimeSeriesMetadata,
}

/// The value of one hour of the year.
#[derive(Debug, Clone, Copy, PartialEq)]
pub struct OrdinateToValue {
    pub day: u32,
    pub hour: u32,
    pub value: Value,
}

/// Statistics of one hour of the year over every year on record.
#[derive(Debug, Clone, Copy, PartialEq)]
pub struct OrdinateTimeSeriesMetadata {
    pub count: u32,
    pub mean: Value,
    pub max: Option<Value>,
    pub min: Option<Value>,
}

/// Whether a sample can anchor the changes: it enters the statistics and
/// lies at least four hours before `now`.
pub open spec fn settled(observation: Observation, now: Timestamp) -> bool {
    observation.counts() && observation.datetime.lags(now, SETTLING_SECONDS as int)
}

/// The most recent settled sample: of the settled samples the one with the
/// latest instant, and of several at that instant the first in the
/// sequence.
pub open spec fn latest_settled(observations: Seq<Observation>, now: Timestamp) -> Option<
    Observation,
>
    decreases observations.len(),
{
    if observations.len() == 0 {
        None
    } else {
        let earlier = latest_settled(observations.drop_last(), now);
        let last = observations.last();
        if settled(last, now) && (earlier matches Some(best) ==> !last.datetime.at_or_before(
            best.datetime,
        )) {
            Some(last)
        } else {
            earlier
        }
    }
}

/// Whether a sample lies in the window of a lookback: not after the start
/// of the lookback, and at most thirty minutes before it.
pub open spec fn in_window(observation: Observation, now: Timestamp, lookback: int) -> bool {
    observation.datetime.lags(now, lookback) && observation.datetime.within(
        now,
        lookback + WINDOW_SECONDS,
    )
}

/// The first sample of the sequence that lies in the window of a lookback.
pub open spec fn first_in_window(
    observations: Seq<Observation>,
    now: Timestamp,
    lookback: int,
) -> Option<Observation>
    decreases observations.len(),
{
    if observations.len() == 0 {
        None
    } else if in_window(observations[0], now, lookback) {
        Some(observations[0])
    } else {
        first_in_window(observations.drop_first(), now, lookback)
    }
}

/// The whole minutes from `b` to `a`, as they are handed to the function
/// that computes a rate.
pub open spec fn minutes_from(a: ValidatedObservation, b: ValidatedObservation) -> i64 {
    utc_minutes_between(
        a.datetime.spec_secs(),
        a.datetime.spec_nanos(),
        b.datetime.spec_secs(),
        b.datetime.spec_nanos(),
    )
}

/// Whether `delta` is a result of `rate` for the change from `b` to `a`:
/// `rate` is given the value of `a`, the value of `b`, the whole minutes
/// from `b` to `a`, and the resolution to scale to. Where neither sample
/// was taken inside a leap second, the minutes are those of the exact
/// difference of the two instants, cut off towards zero.
pub open spec fn is_delta<F: Fn(Value, Value, i64, u32) -> Value>(
    rate: F,
    a: ValidatedObservation,
    b: ValidatedObservation,
    target_resolution_in_minutes: u32,
    delta: Value,
) -> bool {
    &&& rate.ensures((a.value, b.value, minutes_from(a, b), target_resolution_in_minutes), delta)
    &&& a.datetime.spec_nanos() < 1_000_000_000 && b.datetime.spec_nanos() < 1_000_000_000
        ==> minutes_from(a, b) == whole_minutes(
        a.datetime.spec_secs(),
        a.datetime.spec_nanos(),
        b.datetime.spec_secs(),
        b.datetime.spec_nanos(),
    )
}

/// Whether `change` is the change of one lookback: absent where the window
/// holds no sample or its first sample holds no value, and else the rate
/// from that sample to the anchor, with that sample's instant.
pub open spec fn is_change<F: Fn(Value, Value, i64, u32) -> Value>(
    rate: F,
    anchor: ValidatedObservation,
    candidate: Option<Observation>,
    change: Option<(Value, Timestamp)>,
) -> bool {
    match candidate {
        Some(observation) => match ValidatedObservation::validated(observation) {
            Some(compared) => change matches Some((delta, at)) && at == compared.datetime
                && is_delta(rate, anchor, compared, TARGET_RESOLUTION_MINUTES, delta),
            None => change is None,
        },
        None => change is None,
    }
}

/// The rate of change from `b` to `a`, scaled to a resolution.
///
/// `rate` does the arithmetic. It is handed the value of `a`, the value of
/// `b`, the whole minutes from `b` to `a` and the resolution, in this
/// order: the two samples are compared with each other, never a sample
/// with itself, so that the difference of the two values per minute is a
/// rate that is zero only between samples of equal value.
pub fn calculate_delta<F: Fn(Value, Value, i64, u32) -> Value>(
    a: &ValidatedObservation,
    b: &ValidatedObservation,
    target_resolution_in_minutes: u32,
    rate: &F,
) -> (delta: Value)
    requires
        forall|x: Value, y: Value, minutes: i64, target: u32|
            rate.requires((x, y, minutes, target)),
    ensures
        is_delta(*rate, *a, *b, target_resolution_in_minutes, delta),
{
    let minutes = minutes_between(&a.datetime, &b.datetime);
    rate(a.value, b.value, minutes, target_resolution_in_minutes)
}

/// Finds the most recent settled sample.
pub fn find_latest_settled(observation: &[Observation], now: &Timestamp) -> (anchor: Option<
    Observation,
>)
    ensures
        anchor == latest_settled(observation@, *now),
{
    let mut anchor: Option<Observation> = None;
    let mut i: usize = 0;
    while i < observation.len()
        invariant
            i <= observation.len(),
            anchor == latest_settled(observation@.take(i as int), *now),
        decreases observation.len() - i,
    {
        let last = observation[i];
        proof {
            let upto = observation@.take(i + 1);
            assert(upto.drop_last() == observation@.take(i as int));
            assert(upto.last() == last);
        }
        if last.is_good_quality() && last.value.is_some() && last.datetime.is_at_least_before(
            now,
            SETTLING_SECONDS as u64,
        ) {
            let later = match anchor {
                Some(best) => !last.datetime.is_at_or_before(&best.datetime),
                None => true,
            };
            if later {
                anchor = Some(last);
            }
        }
        i += 1;
    }
    assert(observation@.take(observation.len() as int) == observation@);
    anchor
}

/// Finds the first sample in the window of a lookback.
pub fn find_first_in_window(observation: &[Observation], now: &Timestamp, lookback: u32) -> (found:
    Option<Observation>)
    ensures
        found == first_in_window(observation@, *now, lookback as int),
{
    let mut i: usize = 0;
    assert(observation@.skip(0) == observation@);
    while i < observation.len()
        invariant
            i <= observation.len(),
            first_in_window(observation@, *now, lookback as int) == first_in_window(
                observation@.skip(i as int),
                *now,
                lookback as int,
            ),
        decreases observation.len() - i,
    {
        let candidate = observation[i];
        proof {
            let rest = observation@.skip(i as int);
            assert(rest[0] == candidate);
            assert(rest.drop_first() == observation@.skip(i + 1));
        }
        if candidate.datetime.is_at_least_before(now, lookback as u64)
            && candidate.datetime.is_at_most_before(now, lookback as u64 + WINDOW_SECONDS as u64) {
            return Some(candidate);
        }
        i += 1;
    }
    None
}

impl TimeSeriesDelta {
    /// The changes of a series as of the current instant.
    ///
    /// Whatever the current instant is, the result is that of
    /// `from_observations_at` for it.
    pub fn from_observations<F: Fn(Value, Value, i64, u32) -> Value>(
        observation: &[Observation],
        rate: F,
    ) -> (delta: Option<Self>)
        requires
            forall|x: Value, y: Value, minutes: i64, target: u32|
                rate.requires((x, y, minutes, target)),
        ensures
            exists|now: Timestamp| Self::is_delta_at(observation@, now, rate, delta),
    {
        let current = now();
        Self::from_observations_at(observation, &current, rate)
    }

    /// Whether `delta` holds the changes of the samples as of `now`:
    /// nothing where no sample is settled, and else one change for each
    /// lookback, each measured from the first sample in its own window to
    /// the most recent settled sample.
    pub open spec fn is_delta_at<F: Fn(Value, Value, i64, u32) -> Value>(
        observations: Seq<Observation>,
        now: Timestamp,
        rate: F,
        delta: Option<Self>,
    ) -> bool {
        match latest_settled(observations, now) {
            None => delta is None,
            Some(recent) => {
                &&& delta is Some
                &&& ValidatedObservation::validated(recent) is Some
                &&& is_change(
                    rate,
                    ValidatedObservation::validated(recent)->0,
                    first_in_window(observations, now, LOOKBACK_1H as int),
                    delta->0.change_min1h,
                )
                &&& is_change(
                    rate,
                    ValidatedObservation::validated(recent)->0,
                    first_in_window(observations, now, LOOKBACK_6H as int),
                    delta->0.change_min6h,
                )
                &&& is_change(
                    rate,
                    ValidatedObservation::validated(recent)->0,
                    first_in_window(observations, now, LOOKBACK_24H as int),
                    delta->0.change_min24h,
                )
            },
        }
    }

    /// The changes of a series as of `now`.
    pub fn from_observations_at<F: Fn(Value, Value, i64, u32) -> Value>(
        observation: &[Observation],
        now: &Timestamp,
        rate: F,
    ) -> (delta: Option<Self>)
        requires
            forall|x: Value, y: Value, minutes: i64, target: u32|
                rate.requires((x, y, minutes, target)),
        ensures
            Self::is_delta_at(observation@, *now, rate, delta),
    {
        let anchor = find_latest_settled(observation, now);
        proof {
            lemma_latest_settled(observation@, *now);
        }
        let recent = match anchor {
            Some(found) => match ValidatedObservation::from_observation(&found) {
                Some(validated) => validated,
                None => {
                    return None;
                },
            },
            None => {
                return None;
            },
        };
        let change_min1h = change_over(observation, now, &recent, LOOKBACK_1H, &rate);
        let change_min6h = change_over(observation, now, &recent, LOOKBACK_6H, &rate);
        let change_min24h = change_over(observation, now, &recent, LOOKBACK_24H, &rate);
        Some(TimeSeriesDelta { change_min24h, change_min6h, change_min1h })
    }
}

/// The change of one lookback, measured against the anchor `recent`.
pub fn change_over<F: Fn(Value, Value, i64, u32) -> Value>(
    observation: &[Observation],
    now: &Timestamp,
    recent: &ValidatedObservation,
    lookback: u32,
    rate: &F,
) -> (change: Option<(Value, Timestamp)>)
    requires
        forall|x: Value, y: Value, minutes: i64, target: u32|
            rate.requires((x, y, minutes, target)),
    ensures
        is_change(*rate, *recent, first_in_window(observation@, *now, lookback as int), change),
{
    match find_first_in_window(observation, now, lookback) {
        Some(candidate) => match ValidatedObservation::from_observation(&candidate) {
            Some(compared) => {
                let delta = calculate_delta(recent, &compared, TARGET_RESOLUTION_MINUTES, rate);
                Some((delta, compared.datetime))
            },
            None => None,
        },
        None => None,
    }
}

/// Whether the sample at `at` is the most recent settled sample: it is
/// settled, no settled sample is later, and every settled sample before it
/// in the sequence is earlier.
pub open spec fn is_latest_settled_at(observations: Seq<Observation>, now: Timestamp, at: int) -> bool {
    &&& 0 <= at < observations.len()
    &&& settled(observations[at], now)
    &&& forall|i: int|
        0 <= i < observations.len() && settled(#[trigger] observations[i], now)
            ==> observations[i].datetime.at_or_before(observations[at].datetime)
    &&& forall|i: int|
        0 <= i < at && settled(#[trigger] observations[i], now)
            ==> !observations[at].datetime.at_or_before(observations[i].datetime)
}

/// There is no most recent settled sample exactly when no sample is
/// settled; where there is one, it stands at a place of the sequence that
/// `is_latest_settled_at` describes.
pub proof fn lemma_latest_settled(observations: Seq<Observation>, now: Timestamp)
    ensures
        latest_settled(observations, now) is None <==> forall|i: int|
            0 <= i < observations.len() ==> !settled(#[trigger] observations[i], now),
        latest_settled(observations, now) matches Some(recent) ==> exists|at: int|
            is_latest_settled_at(observations, now, at) && observations[at] == recent,
    decreases observations.len(),
{
    if observations.len() > 0 {
        let earlier = observations.drop_last();
        let last = observations.last();
        let end = observations.len() - 1;
        lemma_latest_settled(earlier, now);
        assert forall|i: int| 0 <= i < earlier.len() implies earlier[i] == observations[i] by {}
        match latest_settled(earlier, now) {
            Some(best) => {
                let at = choose|at: int|
                    is_latest_settled_at(earlier, now, at) && earlier[at] == best;
                if settled(last, now) && !last.datetime.at_or_before(best.datetime) {
                    assert forall|i: int|
                        0 <= i < observations.len() && settled(
                            #[trigger] observations[i],
                            now,
                        ) implies observations[i].datetime.at_or_before(last.datetime) by {
                        if i < end {
                            assert(settled(earlier[i], now));
                            assert(earlier[i].datetime.at_or_before(best.datetime));
                        }
                    }
                    assert forall|i: int|
                        0 <= i < end && settled(
                            #[trigger] observations[i],
                            now,
                        ) implies !last.datetime.at_or_before(observations[i].datetime) by {
                        assert(settled(earlier[i], now));
                        assert(earlier[i].datetime.at_or_before(best.datetime));
                    }
                    assert(is_latest_settled_at(observations, now, end));
                } else {
                    assert forall|i: int|
                        0 <= i < observations.len() && settled(
                            #[trigger] observations[i],
                            now,
                        ) implies observations[i].datetime.at_or_before(
                        observations[at].datetime,
                    ) by {
                        if i < end {
                            assert(settled(earlier[i], now));
                        }
                    }
                    assert forall|i: int|
                        0 <= i < at && settled(
                            #[trigger] observations[i],
                            now,
                        ) implies !observations[at].datetime.at_or_before(
                        observations[i].datetime,
                    ) by {
                        assert(settled(earlier[i], now));
                    }
                    assert(is_latest_settled_at(observations, now, at));
                }
            },
            None => {
                if settled(last, now) {
                    assert forall|i: int|
                        0 <= i < observations.len() && settled(
                            #[trigger] observations[i],
                            now,
                        ) implies observations[i].datetime.at_or_before(last.datetime) by {
                        if i < end {
                            assert(!settled(earlier[i], now));
                        }
                    }
                    assert forall|i: int|
                        0 <= i < end && settled(
                            #[trigger] observations[i],
                            now,
                        ) implies !last.datetime.at_or_before(observations[i].datetime) by {
                        assert(!settled(earlier[i], now));
                    }
                    assert(is_latest_settled_at(observations, now, end));
                } else {
                    assert forall|i: int| 0 <= i < observations.len() implies !settled(
                        #[trigger] observations[i],
                        now,
                    ) by {
                        if i < end {
                            assert(!settled(earlier[i], now));
                        }
                    }
                }
            },
        }
    }
}

/// At most one place of a sequence holds its most recent settled sample.
pub proof fn lemma_latest_settled_unique(
    observations: Seq<Observation>,
    now: Timestamp,
    a: int,
    b: int,
)
    requires
        is_latest_settled_at(observations, now, a),
        is_latest_settled_at(observations, now, b),
    ensures
        a == b,
{
    if a < b {
        assert(settled(observations[a], now));
        assert(observations[b].datetime.at_or_before(observations[a].datetime));
    } else if b < a {
        assert(settled(observations[b], now));
        assert(observations[a].datetime.at_or_before(observations[b].datetime));
    }
}

/// A lookback has no first sample in its window exactly when no sample of
/// the sequence lies in the window, whatever lies in the windows of other
/// lookbacks.
pub proof fn lemma_first_in_window(observations: Seq<Observation>, now: Timestamp, lookback: int)
    ensures
        first_in_window(observations, now, lookback) is None <==> forall|i: int|
            0 <= i < observations.len() ==> !in_window(#[trigger] observations[i], now, lookback),
        first_in_window(observations, now, lookback) matches Some(found) ==> observations.contains(
            found,
        ) && in_window(found, now, lookback),
    decreases observations.len(),
{
    if observations.len() > 0 {
        let rest = observations.drop_first();
        lemma_first_in_window(rest, now, lookback);
        assert forall|i: int| 0 <= i < rest.len() implies rest[i] == observations[i + 1] by {}
        if in_window(observations[0], now, lookback) {
        } else {
            match first_in_window(rest, now, lookback) {
                Some(found) => {
                    let at = choose|i: int| 0 <= i < rest.len() && rest[i] == found;
                    assert(observations[at + 1] == found);
                },
                None => {
                    assert forall|i: int| 0 <= i < observations.len() implies !in_window(
                        #[trigger] observations[i],
                        now,
                        lookback,
                    ) by {
                        if i > 0 {
                            assert(rest[i - 1] == observations[i]);
                        }
                    }
                },
            }
        }
    }
}

/// Where no sample lies in the window of a lookback, the change of that
/// lookback is absent. The changes of the other two lookbacks are measured
/// against the samples of their own windows and stay as they are.
pub proof fn lemma_empty_window_gives_no_change<F: Fn(Value, Value, i64, u32) -> Value>(
    observations: Seq<Observation>,
    now: Timestamp,
    rate: F,
    delta: TimeSeriesDelta,
)
    requires
        TimeSeriesDelta::is_delta_at(observations, now, rate, Some(delta)),
    ensures
        (forall|i: int|
            0 <= i < observations.len() ==> !in_window(
                #[trigger] observations[i],
                now,
                LOOKBACK_1H as int,
            )) ==> delta.change_min1h is None,
        (forall|i: int|
            0 <= i < observations.len() ==> !in_window(
                #[trigger] observations[i],
                now,
                LOOKBACK_6H as int,
            )) ==> delta.change_min6h is None,
        (forall|i: int|
            0 <= i < observations.len() ==> !in_window(
                #[trigger] observations[i],
                now,
                LOOKBACK_24H as int,
            )) ==> delta.change_min24h is None,
{
    lemma_first_in_window(observations, now, LOOKBACK_1H as int);
    lemma_first_in_window(observations, now, LOOKBACK_6H as int);
    lemma_first_in_window(observations, now, LOOKBACK_24H as int);
}

/// The samples that enter the statistics, validated, in the order of the
/// sequence: those of good quality that hold a value.
pub open spec fn validated_samples(observations: Seq<Observation>) -> Seq<ValidatedObservation>
    decreases observations.len(),
{
    if observations.len() == 0 {
        Seq::empty()
    } else {
        let earlier = validated_samples(observations.drop_last());
        let last = observations.last();
        if last.counts() {
            earlier.push(ValidatedObservation::validated(last)->0)
        } else {
            earlier
        }
    }
}

/// Validates the samples: drops those of doubtful quality and those
/// without a value, and keeps the others in their order.
pub fn validate(observations: &[Observation]) -> (validated: Vec<ValidatedObservation>)
    ensures
        validated@ == validated_samples(observations@),
{
    let mut validated: Vec<ValidatedObservation> = Vec::new();
    let mut i: usize = 0;
    while i < observations.len()
        invariant
            i <= observations.len(),
            validated@ == validated_samples(observations@.take(i as int)),
        decreases observations.len() - i,
    {
        let obs = &observations[i];
        proof {
            let next = observations@.take(i + 1);
            assert(next.drop_last() == observations@.take(i as int));
            assert(next.last() == *obs);
        }
        if obs.is_good_quality() {
            if let Some(o) = ValidatedObservation::from_observation(obs) {
                validated.push(o);
            }
        }
        i += 1;
    }
    assert(observations@.take(observations.len() as int) == observations@);
    validated
}

/// The samples of one hour of a year are the validated samples that fall
/// in that hour.
pub proof fn lemma_hourly_bucket_filters_validated(
    observations: Seq<Observation>,
    key: (u32, u32, u32),
)
    ensures
        hourly_bucket(observations, key) == validated_samples(observations).filter(
            |o: ValidatedObservation| o.datetime.hour_of_year() == key,
        ),
    decreases observations.len(),
{
    reveal(Seq::filter);
    if observations.len() > 0 {
        let earlier = observations.drop_last();
        let last = observations.last();
        lemma_hourly_bucket_filters_validated(earlier, key);
        if last.counts() {
            let o = ValidatedObservation::validated(last)->0;
            let kept = validated_samples(earlier);
            assert(kept.push(o).drop_last() == kept);
        }
    }
}

/// The validated samples of one hour of a year, in the order of the
/// sequence: those samples that enter the statistics and fall in that hour.
pub open spec fn hourly_bucket(observations: Seq<Observation>, key: (u32, u32, u32)) -> Seq<
    ValidatedObservation,
>
    decreases observations.len(),
{
    if observations.len() == 0 {
        Seq::empty()
    } else {
        let earlier = hourly_bucket(observations.drop_last(), key);
        let last = observations.last();
        if last.counts() && last.datetime.hour_of_year() == key {
            earlier.push(ValidatedObservation::validated(last)->0)
        } else {
            earlier
        }
    }
}

/// Whether `dataset` is the hourly dataset of the samples: it holds an
/// hour of a year exactly when a sample that enters the statistics falls
/// in it, and holds for it the validated samples of that hour.
pub open spec fn is_hourly_dataset(
    observations: Seq<Observation>,
    dataset: Map<(u32, u32, u32), Vec<ValidatedObservation>>,
) -> bool {
    &&& forall|key: (u32, u32, u32)| #[trigger]
        dataset.contains_key(key) <==> hourly_bucket(observations, key).len() > 0
    &&& forall|key: (u32, u32, u32)| #[trigger]
        dataset.contains_key(key) ==> dataset[key]@ == hourly_bucket(observations, key)
}

/// Groups the samples that enter the statistics by the hour of the year
/// in which they fall. Samples of doubtful quality and samples without a
/// value are left out. The 366th day of a leap year has hours of its own,
/// which are not folded into those of the 365th; so the days run from 1 to
/// 366 and the hours from 0 to 23.
pub fn create_a_hourly_dataset(observations: &[Observation]) -> (dataset: BTreeMap<
    (u32, u32, u32),
    Vec<ValidatedObservation>,
>)
    ensures
        is_hourly_dataset(observations@, dataset@),
        observations@.len() == 0 ==> dataset@ == Map::<
            (u32, u32, u32),
            Vec<ValidatedObservation>,
        >::empty(),
        forall|key: (u32, u32, u32)| #[trigger]
            dataset@.contains_key(key) ==> 1 <= key.1 <= 366 && key.2 <= 23,
{
    let mut dataset: BTreeMap<(u32, u32, u32), Vec<ValidatedObservation>> = BTreeMap::new();
    let mut i: usize = 0;
    while i < observations.len()
        invariant
            i <= observations.len(),
            is_hourly_dataset(observations@.take(i as int), dataset@),
            i == 0 ==> dataset@ == Map::<(u32, u32, u32), Vec<ValidatedObservation>>::empty(),
            forall|key: (u32, u32, u32)| #[trigger]
                dataset@.contains_key(key) ==> 1 <= key.1 <= 366 && key.2 <= 23,
        decreases observations.len() - i,
    {
        let obs = &observations[i];
        let ghost seen = observations@.take(i as int);
        let ghost next = observations@.take(i + 1);
        let ghost before = dataset@;
        proof {
            assert(next.drop_last() == seen);
            assert(next.last() == *obs);
        }
        if obs.is_good_quality() {
            if let Some(o) = ValidatedObservation::from_observation(obs) {
                let key = obs.datetime.to_hour_of_year();
                hour_append(&mut dataset, key, o);
                proof {
                    assert(hourly_bucket(next, key) == hourly_bucket(seen, key).push(o));
                    if !before.contains_key(key) {
                        assert(hourly_bucket(seen, key) =~= Seq::empty());
                    }
                    assert forall|other: (u32, u32, u32)| #[trigger]
                        dataset@.contains_key(other) <==> hourly_bucket(next, other).len()
                            > 0 by {
                        if other != key {
                            assert(before.contains_key(other) <==> dataset@.contains_key(other));
                        }
                    }
                    assert forall|other: (u32, u32, u32)| #[trigger]
                        dataset@.contains_key(other) implies dataset@[other]@ == hourly_bucket(
                        next,
                        other,
                    ) by {
                        if other != key {
                            assert(before.contains_key(other));
                        }
                    }
                }
            }
        }
        i += 1;
    }
    assert(observations@.take(observations.len() as int) == observations@);
    dataset
}

/// The values of the samples, in their order.
pub open spec fn values_of(bucket: Seq<ValidatedObservation>) -> Seq<Value> {
    bucket.map_values(|o: ValidatedObservation| o.value)
}

/// Whether `result` is a result of `mean` for a list of exactly these
/// values.
pub open spec fn is_mean_of<F: Fn(&Vec<Value>) -> Value>(
    mean: F,
    values: Seq<Value>,
    result: Value,
) -> bool {
    exists|list: Vec<Value>| list@ == values && mean.ensures((&list,), result)
}

/// Whether `means` holds, in the same order, a mean for each of the lists
/// of values.
pub open spec fn are_means_of<F: Fn(&Vec<Value>) -> Value>(
    mean: F,
    lists: Seq<Seq<Value>>,
    means: Seq<Value>,
) -> bool {
    &&& means.len() == lists.len()
    &&& forall|i: int| 0 <= i < lists.len() ==> is_mean_of(mean, #[trigger] lists[i], means[i])
}

/// One more than the largest year that a key can hold.
pub open spec fn all_years() -> nat {
    0x1_0000_0000
}

/// The values of one hour of any year, year by year: for each year below
/// `years` for which the dataset holds samples in that hour, the values of
/// those samples, in ascending order of the year.
pub open spec fn yearly_values(
    dataset: Map<(u32, u32, u32), Vec<ValidatedObservation>>,
    day: u32,
    hour: u32,
    years: nat,
) -> Seq<Seq<Value>>
    decreases years,
{
    if years == 0 {
        Seq::empty()
    } else {
        let earlier = yearly_values(dataset, day, hour, (years - 1) as nat);
        let key = ((years - 1) as u32, day, hour);
        if dataset.contains_key(key) && dataset[key]@.len() > 0 {
            earlier.push(values_of(dataset[key]@))
        } else {
            earlier
        }
    }
}

/// Whether `means` holds the hourly means of the dataset: for each hour of
/// any year for which some year has samples, one mean for each such year,
/// in ascending order of the year.
pub open spec fn is_hourly_mean<F: Fn(&Vec<Value>) -> Value>(
    mean: F,
    dataset: Map<(u32, u32, u32), Vec<ValidatedObservation>>,
    means: Map<(u32, u32), Vec<Value>>,
) -> bool {
    &&& forall|day: u32, hour: u32| #[trigger]
        means.contains_key((day, hour)) <==> yearly_values(dataset, day, hour, all_years()).len()
            > 0
    &&& forall|day: u32, hour: u32| #[trigger]
        means.contains_key((day, hour)) ==> are_means_of(
            mean,
            yearly_values(dataset, day, hour, all_years()),
            means[(day, hour)]@,
        )
}

/// As `is_hourly_mean`, for the years of each hour below a bound of its
/// own.
spec fn is_hourly_mean_below<F: Fn(&Vec<Value>) -> Value>(
    mean: F,
    dataset: Map<(u32, u32, u32), Vec<ValidatedObservation>>,
    means: Map<(u32, u32), Vec<Value>>,
    bound: spec_fn(u32, u32) -> nat,
) -> bool {
    &&& forall|day: u32, hour: u32| #[trigger]
        means.contains_key((day, hour)) <==> yearly_values(
            dataset,
            day,
            hour,
            bound(day, hour),
        ).len() > 0
    &&& forall|day: u32, hour: u32| #[trigger]
        means.contains_key((day, hour)) ==> are_means_of(
            mean,
            yearly_values(dataset, day, hour, bound(day, hour)),
            means[(day, hour)]@,
        )
}

/// How many years of an hour of any year lie before the key at `next` in
/// the ascending keys: all of them once the keys are used up.
spec fn years_before(keys: Seq<(u32, u32, u32)>, next: int, day: u32, hour: u32) -> nat {
    if 0 <= next < keys.len() {
        let key = keys[next];
        if day < key.1 || (day == key.1 && hour < key.2) {
            (key.0 + 1) as nat
        } else {
            key.0 as nat
        }
    } else {
        all_years()
    }
}

/// Where the dataset holds no hour of a year between two consecutive keys,
/// the years in between add nothing to the values of an hour.
proof fn lemma_yearly_values_gap(
    dataset: Map<(u32, u32, u32), Vec<ValidatedObservation>>,
    keys: Seq<(u32, u32, u32)>,
    next: int,
    day: u32,
    hour: u32,
    low: nat,
    high: nat,
)
    requires
        ascending_hours(keys),
        forall|k: (u32, u32, u32)| dataset.contains_key(k) <==> keys.contains(k),
        0 <= next <= keys.len(),
        low <= high <= years_before(keys, next, day, hour),
        next > 0 ==> low >= years_before(keys, next - 1, day, hour) && (keys[next - 1].1 == day
            && keys[next - 1].2 == hour ==> low > keys[next - 1].0),
    ensures
        yearly_values(dataset, day, hour, high) == yearly_values(dataset, day, hour, low),
    decreases high - low,
{
    if high > low {
        let key = ((high - 1) as u32, day, hour);
        assert(key.0 == high - 1);
        if dataset.contains_key(key) {
            assert(keys.contains(key));
            let at = choose|j: int| 0 <= j < keys.len() && keys[j] == key;
            if at < next {
                if at < next - 1 {
                    assert(crate::order::hour_before(keys[at], keys[next - 1]));
                }
            } else {
                if at > next {
                    assert(crate::order::hour_before(keys[next], keys[at]));
                }
            }
            assert(false);
        }
        lemma_yearly_values_gap(dataset, keys, next, day, hour, low, (high - 1) as nat);
    }
}

/// Collapses each hour of a year to the mean of its values and gathers the
/// means by hour of any year, one for each year that has samples in that
/// hour, in ascending order of the year. An hour of a year without samples
/// adds nothing. `mean` does the arithmetic and is only called on lists
/// that hold a value.
pub fn calculate_hourly_mean<F: Fn(&Vec<Value>) -> Value>(
    ordinal_dataset: BTreeMap<(u32, u32, u32), Vec<ValidatedObservation>>,
    mean: F,
) -> (means: BTreeMap<(u32, u32), Vec<Value>>)
    requires
        forall|list: Vec<Value>| list@.len() > 0 ==> mean.requires((&list,)),
    ensures
        is_hourly_mean(mean, ordinal_dataset@, means@),
{
    let keys = hour_keys(&ordinal_dataset);
    let mut means: BTreeMap<(u32, u32), Vec<Value>> = BTreeMap::new();
    let ghost dataset = ordinal_dataset@;
    let mut i: usize = 0;
    proof {
        assert forall|day: u32, hour: u32|
            yearly_values(dataset, day, hour, years_before(keys@, 0, day, hour)).len() == 0 by {
            lemma_yearly_values_gap(
                dataset,
                keys@,
                0,
                day,
                hour,
                0,
                years_before(keys@, 0, day, hour),
            );
        }
    }
    while i < keys.len()
        invariant
            i <= keys.len(),
            dataset == ordinal_dataset@,
            ascending_hours(keys@),
            forall|k: (u32, u32, u32)| dataset.contains_key(k) <==> keys@.contains(k),
            forall|list: Vec<Value>| list@.len() > 0 ==> mean.requires((&list,)),
            is_hourly_mean_below(
                mean,
                dataset,
                means@,
                |day: u32, hour: u32| years_before(keys@, i as int, day, hour),
            ),
        decreases keys.len() - i,
    {
        let key = keys[i];
        let ghost before = means@;
        let ghost was = |day: u32, hour: u32| years_before(keys@, i as int, day, hour);
        let ghost will = |day: u32, hour: u32| years_before(keys@, i + 1, day, hour);
        assert(keys@.contains(key));
        let bucket = hour_get(&ordinal_dataset, &key).unwrap();
        let ghost own_before = yearly_values(dataset, key.1, key.2, key.0 as nat);
        let ghost own_after = yearly_values(dataset, key.1, key.2, (key.0 + 1) as nat);
        proof {
            assert(was(key.1, key.2) == key.0);
            assert(((key.0 + 1) - 1) as u32 == key.0);
            if i + 1 < keys.len() {
                assert(crate::order::hour_before(keys@[i as int], keys@[i + 1]));
            }
            lemma_yearly_values_gap(
                dataset,
                keys@,
                i + 1,
                key.1,
                key.2,
                (key.0 + 1) as nat,
                will(key.1, key.2),
            );
        }
        if bucket.len() > 0 {
            let values = values_in(bucket);
            let hourly_mean = mean(&values);
            slot_append(&mut means, (key.1, key.2), hourly_mean);
            proof {
                assert(is_mean_of(mean, values_of(bucket@), hourly_mean));
                assert(own_after == own_before.push(values_of(bucket@)));
                if !before.contains_key((key.1, key.2)) {
                    assert(own_before =~= Seq::empty());
                }
            }
        } else {
            proof {
                assert(own_after == own_before);
            }
        }
        proof {
            assert forall|day: u32, hour: u32| #[trigger]
                means@.contains_key((day, hour)) <==> yearly_values(
                    dataset,
                    day,
                    hour,
                    will(day, hour),
                ).len() > 0 by {
                if (day, hour) != (key.1, key.2) {
                    lemma_yearly_values_gap(
                        dataset,
                        keys@,
                        i + 1,
                        day,
                        hour,
                        was(day, hour),
                        will(day, hour),
                    );
                    assert(before.contains_key((day, hour)) <==> means@.contains_key((day, hour)));
                }
            }
            assert forall|day: u32, hour: u32| #[trigger]
                means@.contains_key((day, hour)) implies are_means_of(
                mean,
                yearly_values(dataset, day, hour, will(day, hour)),
                means@[(day, hour)]@,
            ) by {
                if (day, hour) != (key.1, key.2) {
                    lemma_yearly_values_gap(
                        dataset,
                        keys@,
                        i + 1,
                        day,
                        hour,
                        was(day, hour),
                        will(day, hour),
                    );
                    assert(before.contains_key((day, hour)));
                } else {
                    if before.contains_key((key.1, key.2)) {
                        assert(are_means_of(mean, own_before, before[(key.1, key.2)]@));
                    }
                }
            }
        }
        i += 1;
    }
    proof {
        assert forall|day: u32, hour: u32|
            years_before(keys@, keys.len() as int, day, hour) == all_years() by {}
    }
    means
}

/// The values of the samples, in their order.
pub fn values_in(bucket: &Vec<ValidatedObservation>) -> (values: Vec<Value>)
    ensures
        values@ == values_of(bucket@),
{
    let mut values: Vec<Value> = Vec::new();
    let mut i: usize = 0;
    while i < bucket.len()
        invariant
            i <= bucket.len(),
            values@ == values_of(bucket@.take(i as int)),
        decreases bucket.len() - i,
    {
        values.push(bucket[i].value);
        assert(values@ =~= values_of(bucket@.take(i + 1)));
        i += 1;
    }
    assert(bucket@.take(bucket.len() as int) == bucket@);
    values
}

/// Whether `record` holds the statistics of the values: how many there
/// are, a mean of them, and the greatest and the least of them in the
/// total order of values.
pub open spec fn is_climatology<F: Fn(&Vec<Value>) -> Value>(
    mean: F,
    values: Seq<Value>,
    record: OrdinateTimeSeriesMetadata,
) -> bool {
    &&& record.count == values.len() as u32
    &&& is_mean_of(mean, values, record.mean)
    &&& record.max matches Some(top) && is_max_of(values, top)
    &&& record.min matches Some(bottom) && is_min_of(values, bottom)
}

/// Whether `records` holds the climatology of the dataset: a record for
/// each hour of any year that has a value, and none for an hour that has
/// none.
pub open spec fn is_climatology_of<F: Fn(&Vec<Value>) -> Value>(
    mean: F,
    dataset: Map<(u32, u32), Vec<Value>>,
    records: Map<(u32, u32), OrdinateTimeSeriesMetadata>,
) -> bool {
    &&& forall|slot: (u32, u32)| #[trigger]
        records.contains_key(slot) <==> dataset.contains_key(slot) && dataset[slot]@.len() > 0
    &&& forall|slot: (u32, u32)| #[trigger]
        records.contains_key(slot) ==> is_climatology(mean, dataset[slot]@, records[slot])
}

/// The statistics of each hour of any year over the values gathered for
/// it. An hour without a value gets no record: nothing is divided by zero.
/// `mean` does the arithmetic and is only called on lists that hold a
/// value. A count beyond 32 bits keeps its low 32 bits.
pub fn ordinate_calulations<F: Fn(&Vec<Value>) -> Value>(
    ordinate_dataset: BTreeMap<(u32, u32), Vec<Value>>,
    mean: F,
) -> (records: BTreeMap<(u32, u32), OrdinateTimeSeriesMetadata>)
    requires
        forall|list: Vec<Value>| list@.len() > 0 ==> mean.requires((&list,)),
    ensures
        is_climatology_of(mean, ordinate_dataset@, records@),
{
    let keys = slot_keys(&ordinate_dataset);
    let mut daily_calculation: BTreeMap<(u32, u32), OrdinateTimeSeriesMetadata> = BTreeMap::new();
    let ghost dataset = ordinate_dataset@;
    let mut i: usize = 0;
    while i < keys.len()
        invariant
            i <= keys.len(),
            dataset == ordinate_dataset@,
            forall|k: (u32, u32)| dataset.contains_key(k) <==> keys@.contains(k),
            forall|list: Vec<Value>| list@.len() > 0 ==> mean.requires((&list,)),
            forall|slot: (u32, u32)| #[trigger]
                daily_calculation@.contains_key(slot) <==> keys@.take(i as int).contains(slot)
                    && dataset[slot]@.len() > 0,
            forall|slot: (u32, u32)| #[trigger]
                daily_calculation@.contains_key(slot) ==> is_climatology(
                    mean,
                    dataset[slot]@,
                    daily_calculation@[slot],
                ),
        decreases keys.len() - i,
    {
        let key = keys[i];
        let ghost before = daily_calculation@;
        let ghost seen = keys@.take(i as int);
        let ghost next = keys@.take(i + 1);
        assert(keys@.contains(key));
        proof {
            assert(next == seen.push(key));
            assert forall|slot: (u32, u32)| next.contains(slot) <==> seen.contains(slot) || slot
                == key by {
                if seen.contains(slot) {
                    let at = choose|j: int| 0 <= j < seen.len() && seen[j] == slot;
                    assert(next[at] == slot);
                }
                if slot == key {
                    assert(next[i as int] == key);
                }
            }
        }
        let data = slot_get(&ordinate_dataset, &key).unwrap();
        if data.len() > 0 {
            let count = data.len() as u32;
            let mean_of_data = mean(data);
            let max = max_value(data);
            let min = min_value(data);
            let calc = OrdinateTimeSeriesMetadata { count, mean: mean_of_data, max, min };
            slot_insert(&mut daily_calculation, key, calc);
            assert(is_climatology(mean, dataset[key]@, calc));
        }
        i += 1;
    }
    proof {
        assert(keys@.take(keys.len() as int) == keys@);
    }
    daily_calculation
}

/// Whether `snapshot` holds the values of one year of the dataset: for
/// each hour of that year that has samples, and for no other hour, a mean
/// of the values of its samples.
pub open spec fn is_year_snapshot<F: Fn(&Vec<Value>) -> Value>(
    mean: F,
    dataset: Map<(u32, u32, u32), Vec<ValidatedObservation>>,
    year: u32,
    snapshot: Map<(u32, u32, u32), Value>,
) -> bool {
    &&& forall|key: (u32, u32, u32)| #[trigger]
        snapshot.contains_key(key) <==> key.0 == year && dataset.contains_key(key)
            && dataset[key]@.len() > 0
    &&& forall|key: (u32, u32, u32)| #[trigger]
        snapshot.contains_key(key) ==> is_mean_of(mean, values_of(dataset[key]@), snapshot[key])
}

/// The values of one year: the mean of each hour of that year that has
/// samples. Hours of other years, and hours without samples, are left out.
pub fn extract_year_observations<F: Fn(&Vec<Value>) -> Value>(
    hourly_dataset: &BTreeMap<(u32, u32, u32), Vec<ValidatedObservation>>,
    year: u32,
    mean: &F,
) -> (snapshot: BTreeMap<(u32, u32, u32), Value>)
    requires
        forall|list: Vec<Value>| list@.len() > 0 ==> mean.requires((&list,)),
    ensures
        is_year_snapshot(*mean, hourly_dataset@, year, snapshot@),
{
    let keys = hour_keys(hourly_dataset);
    let mut ordinate_to_mean_data: BTreeMap<(u32, u32, u32), Value> = BTreeMap::new();
    let ghost dataset = hourly_dataset@;
    let mut i: usize = 0;
    while i < keys.len()
        invariant
            i <= keys.len(),
            dataset == hourly_dataset@,
            forall|k: (u32, u32, u32)| dataset.contains_key(k) <==> keys@.contains(k),
            forall|list: Vec<Value>| list@.len() > 0 ==> mean.requires((&list,)),
            forall|key: (u32, u32, u32)| #[trigger]
                ordinate_to_mean_data@.contains_key(key) <==> key.0 == year && keys@.take(
                    i as int,
                ).contains(key) && dataset[key]@.len() > 0,
            forall|key: (u32, u32, u32)| #[trigger]
                ordinate_to_mean_data@.contains_key(key) ==> is_mean_of(
                    *mean,
                    values_of(dataset[key]@),
                    ordinate_to_mean_data@[key],
                ),
        decreases keys.len() - i,
    {
        let key = keys[i];
        let ghost seen = keys@.take(i as int);
        let ghost next = keys@.take(i + 1);
        assert(keys@.contains(key));
        proof {
            assert(next == seen.push(key));
            assert forall|other: (u32, u32, u32)|
                next.contains(other) <==> seen.contains(other) || other == key by {
                if seen.contains(other) {
                    let at = choose|j: int| 0 <= j < seen.len() && seen[j] == other;
                    assert(next[at] == other);
                }
                if other == key {
                    assert(next[i as int] == key);
                }
            }
        }
        if key.0 == year {
            let bucket = hour_get(hourly_dataset, &key).unwrap();
            if bucket.len() > 0 {
                let values = values_in(bucket);
                let value = mean(&values);
                hour_insert(&mut ordinate_to_mean_data, key, value);
                assert(is_mean_of(*mean, values_of(dataset[key]@), value));
            }
        }
        i += 1;
    }
    proof {
        assert(keys@.take(keys.len() as int) == keys@);
    }
    ordinate_to_mean_data
}

/// The year before the one in which an instant falls, as a key holds it;
/// `None` where the instant falls in the year that a key holds as 0.
pub open spec fn year_before(now: Timestamp) -> Option<u32> {
    let year = now.hour_of_year().0;
    if year == 0 {
        None
    } else {
        Some((year - 1) as u32)
    }
}

/// Whether `snapshot` holds last year's values as of `now`: the values of
/// the year before the one in which `now` falls, and nothing where a key
/// cannot hold that year.
pub open spec fn is_last_year_snapshot<F: Fn(&Vec<Value>) -> Value>(
    mean: F,
    dataset: Map<(u32, u32, u32), Vec<ValidatedObservation>>,
    now: Timestamp,
    snapshot: Map<(u32, u32, u32), Value>,
) -> bool {
    match year_before(now) {
        Some(year) => is_year_snapshot(mean, dataset, year, snapshot),
        None => snapshot == Map::<(u32, u32, u32), Value>::empty(),
    }
}

/// Last year's values as of `now`.
pub fn extract_last_year_observations_at<F: Fn(&Vec<Value>) -> Value>(
    hourly_dataset: &BTreeMap<(u32, u32, u32), Vec<ValidatedObservation>>,
    now: &Timestamp,
    mean: &F,
) -> (snapshot: BTreeMap<(u32, u32, u32), Value>)
    requires
        forall|list: Vec<Value>| list@.len() > 0 ==> mean.requires((&list,)),
    ensures
        is_last_year_snapshot(*mean, hourly_dataset@, *now, snapshot@),
        forall|key: (u32, u32, u32)| #[trigger]
            snapshot@.contains_key(key) ==> key.0 + 1 == now.hour_of_year().0,
{
    let this_year = now.to_hour_of_year().0;
    if this_year == 0 {
        BTreeMap::new()
    } else {
        extract_year_observations(hourly_dataset, this_year - 1, mean)
    }
}

/// Last year's values as of the current instant.
///
/// Whatever the current instant is, the result is that of
/// `extract_last_year_observations_at` for it.
pub fn extract_last_year_observations<F: Fn(&Vec<Value>) -> Value>(
    hourly_dataset: &BTreeMap<(u32, u32, u32), Vec<ValidatedObservation>>,
    mean: &F,
) -> (snapshot: BTreeMap<(u32, u32, u32), Value>)
    requires
        forall|list: Vec<Value>| list@.len() > 0 ==> mean.requires((&list,)),
    ensures
        exists|now: Timestamp| is_last_year_snapshot(*mean, hourly_dataset@, now, snapshot@),
{
    let current = now();
    extract_last_year_observations_at(hourly_dataset, &current, mean)
}

/// Whether `listed` lists the records of the map: one entry for each hour
/// of any year that the map holds, with the record held for it, in
/// ascending order of day and hour.
pub open spec fn lists_records(
    map: Map<(u32, u32), OrdinateTimeSeriesMetadata>,
    listed: Seq<OrdinateToMetaData>,
) -> bool {
    let keys = listed.map_values(|entry: OrdinateToMetaData| (entry.day, entry.hour));
    &&& ascending_slots(keys)
    &&& forall|slot: (u32, u32)| map.contains_key(slot) <==> keys.contains(slot)
    &&& forall|i: int|
        0 <= i < listed.len() ==> (#[trigger] listed[i]).metdata == map[(
            listed[i].day,
            listed[i].hour,
        )]
}

/// Whether `listed` lists the values of the map along `keys`: the keys are
/// the hours of a year that the map holds, in ascending order, and each
/// entry holds the day and the hour of its key and the value held for it.
pub open spec fn lists_values_along(
    map: Map<(u32, u32, u32), Value>,
    keys: Seq<(u32, u32, u32)>,
    listed: Seq<OrdinateToValue>,
) -> bool {
    &&& ascending_hours(keys)
    &&& forall|key: (u32, u32, u32)| map.contains_key(key) <==> keys.contains(key)
    &&& listed.len() == keys.len()
    &&& forall|i: int|
        0 <= i < keys.len() ==> #[trigger] listed[i] == (OrdinateToValue {
            day: keys[i].1,
            hour: keys[i].2,
            value: map[keys[i]],
        })
}

/// Whether `listed` lists the values of the map: one entry for each hour
/// of a year that the map holds, in ascending order of year, day and hour,
/// with the day, the hour and the value.
pub open spec fn lists_values(
    map: Map<(u32, u32, u32), Value>,
    listed: Seq<OrdinateToValue>,
) -> bool {
    exists|keys: Seq<(u32, u32, u32)>| lists_values_along(map, keys, listed)
}

impl OrdinateToMetaData {
    /// Lists the records of the map in ascending order of day and hour.
    pub fn from(map: BTreeMap<(u32, u32), OrdinateTimeSeriesMetadata>) -> (listed: Vec<
        OrdinateToMetaData,
    >)
        ensures
            lists_records(map@, listed@),
    {
        let keys = slot_keys(&map);
        let mut listed: Vec<OrdinateToMetaData> = Vec::new();
        let mut i: usize = 0;
        while i < keys.len()
            invariant
                i <= keys.len(),
                forall|k: (u32, u32)| map@.contains_key(k) <==> keys@.contains(k),
                listed@.len() == i,
                forall|j: int|
                    0 <= j < i ==> #[trigger] listed@[j] == (OrdinateToMetaData {
                        day: keys@[j].0,
                        hour: keys@[j].1,
                        metdata: map@[keys@[j]],
                    }),
            decreases keys.len() - i,
        {
            let key = keys[i];
            assert(keys@.contains(key));
            let metdata = *slot_get(&map, &key).unwrap();
            listed.push(OrdinateToMetaData { day: key.0, hour: key.1, metdata });
            i += 1;
        }
        proof {
            let slots = listed@.map_values(|entry: OrdinateToMetaData| (entry.day, entry.hour));
            assert(slots =~= keys@);
        }
        listed
    }
}

impl OrdinateToValue {
    /// Lists the values of the map in ascending order of year, day and
    /// hour; the year is left out of the entries.
    pub fn from(map: BTreeMap<(u32, u32, u32), Value>) -> (listed: Vec<OrdinateToValue>)
        ensures
            lists_values(map@, listed@),
    {
        let keys = hour_keys(&map);
        let mut listed: Vec<OrdinateToValue> = Vec::new();
        let mut i: usize = 0;
        while i < keys.len()
            invariant
                i <= keys.len(),
                forall|k: (u32, u32, u32)| map@.contains_key(k) <==> keys@.contains(k),
                listed@.len() == i,
                forall|j: int|
                    0 <= j < i ==> #[trigger] listed@[j] == (OrdinateToValue {
                        day: keys@[j].1,
                        hour: keys@[j].2,
                        value: map@[keys@[j]],
                    }),
            decreases keys.len() - i,
        {
            let key = keys[i];
            assert(keys@.contains(key));
            let value = *hour_get(&map, &key).unwrap();
            listed.push(OrdinateToValue { day: key.1, hour: key.2, value });
            i += 1;
        }
        assert(lists_values_along(map@, keys@, listed@));
        listed
    }
}

impl TimeseriesMetaData {
    /// Whether `metadata` holds what is derived from the samples as of
    /// `now`: the samples are grouped by hour of a year; last year's values
    /// are taken from the groups; the groups are collapsed to hourly means,
    /// the means to the climatology of each hour of any year; and both are
    /// listed in ascending order.
    pub open spec fn is_metadata_at<F: Fn(&Vec<Value>) -> Value>(
        observations: Seq<Observation>,
        timeseries_id: TimeSeriesId,
        now: Timestamp,
        mean: F,
        metadata: TimeseriesMetaData,
    ) -> bool {
        &&& metadata.timeseries_id == timeseries_id
        &&& exists|
            hourly: Map<(u32, u32, u32), Vec<ValidatedObservation>>,
            last_year: Map<(u32, u32, u32), Value>,
            means: Map<(u32, u32), Vec<Value>>,
            records: Map<(u32, u32), OrdinateTimeSeriesMetadata>,
        |
            {
                &&& is_hourly_dataset(observations, hourly)
                &&& is_last_year_snapshot(mean, hourly, now, last_year)
                &&& lists_values(last_year, metadata.last_year_observations@)
                &&& is_hourly_mean(mean, hourly, means)
                &&& is_climatology_of(mean, means, records)
                &&& lists_records(records, metadata.ordinate_calculations@)
            }
    }

    /// What is derived from the samples of a series as of `now`.
    pub fn calculate_metadata_from_observations_at<F: Fn(&Vec<Value>) -> Value>(
        observations: &[Observation],
        timeseries_id: TimeSeriesId,
        now: &Timestamp,
        mean: F,
    ) -> (metadata: TimeseriesMetaData)
        requires
            forall|list: Vec<Value>| list@.len() > 0 ==> mean.requires((&list,)),
        ensures
            Self::is_metadata_at(observations@, timeseries_id, *now, mean, metadata),
            observations@.len() == 0 ==> metadata.ordinate_calculations@.len() == 0
                && metadata.last_year_observations@.len() == 0,
    {
        let hourly_dataset = create_a_hourly_dataset(observations);
        let last_year_map = extract_last_year_observations_at(&hourly_dataset, now, &mean);
        let ghost hourly = hourly_dataset@;
        let ghost last_year = last_year_map@;
        let last_year_observations = OrdinateToValue::from(last_year_map);
        let hourly_means = calculate_hourly_mean(hourly_dataset, &mean);
        let ghost means = hourly_means@;
        let ordinate_calculation_map = ordinate_calulations(hourly_means, &mean);
        let ghost records = ordinate_calculation_map@;
        let ordinate_calculations = OrdinateToMetaData::from(ordinate_calculation_map);
        proof {
            assert(is_hourly_dataset(observations@, hourly));
            assert(is_last_year_snapshot(mean, hourly, *now, last_year));
            assert(lists_values(last_year, last_year_observations@));
            assert(is_hourly_mean(mean, hourly, means));
            assert(is_climatology_of(mean, means, records));
            assert(lists_records(records, ordinate_calculations@));
            if observations@.len() == 0 {
                lemma_nothing_from_nothing(
                    mean,
                    *now,
                    last_year,
                    means,
                    records,
                    last_year_observations@,
                    ordinate_calculations@,
                );
            }
        }
        TimeseriesMetaData { timeseries_id, ordinate_calculations, last_year_observations }
    }

    /// What is derived from the samples of a series as of the current
    /// instant.
    ///
    /// Whatever the current instant is, the result is that of
    /// `calculate_metadata_from_observations_at` for it.
    pub fn calculate_metadata_from_observations<F: Fn(&Vec<Value>) -> Value>(
        observations: &[Observation],
        timeseries_id: TimeSeriesId,
        mean: F,
    ) -> (metadata: TimeseriesMetaData)
        requires
            forall|list: Vec<Value>| list@.len() > 0 ==> mean.requires((&list,)),
        ensures
            exists|now: Timestamp|
                Self::is_metadata_at(observations@, timeseries_id, now, mean, metadata),
            observations@.len() == 0 ==> metadata.ordinate_calculations@.len() == 0
                && metadata.last_year_observations@.len() == 0,
    {
        let current = now();
        Self::calculate_metadata_from_observations_at(observations, timeseries_id, &current, mean)
    }
}

/// From an empty dataset every later stage derives nothing.
proof fn lemma_nothing_from_nothing<F: Fn(&Vec<Value>) -> Value>(
    mean: F,
    now: Timestamp,
    last_year: Map<(u32, u32, u32), Value>,
    means: Map<(u32, u32), Vec<Value>>,
    records: Map<(u32, u32), OrdinateTimeSeriesMetadata>,
    listed_values: Seq<OrdinateToValue>,
    listed_records: Seq<OrdinateToMetaData>,
)
    requires
        is_last_year_snapshot(
            mean,
            Map::<(u32, u32, u32), Vec<ValidatedObservation>>::empty(),
            now,
            last_year,
        ),
        is_hourly_mean(mean, Map::<(u32, u32, u32), Vec<ValidatedObservation>>::empty(), means),
        is_climatology_of(mean, means, records),
        lists_values(last_year, listed_values),
        lists_records(records, listed_records),
    ensures
        listed_values.len() == 0,
        listed_records.len() == 0,
{
    let nothing = Map::<(u32, u32, u32), Vec<ValidatedObservation>>::empty();
    assert forall|day: u32, hour: u32| !means.contains_key((day, hour)) by {
        lemma_no_values_from_nothing(day, hour, all_years());
    }
    if listed_records.len() > 0 {
        let slots = listed_records.map_values(|entry: OrdinateToMetaData| (entry.day, entry.hour));
        assert(slots.contains(slots[0]));
        assert(records.contains_key(slots[0]));
        assert(means.contains_key((slots[0].0, slots[0].1)));
    }
    if listed_values.len() > 0 {
        let keys = choose|keys: Seq<(u32, u32, u32)>|
            lists_values_along(last_year, keys, listed_values);
        assert(keys.contains(keys[0]));
        assert(last_year.contains_key(keys[0]));
    }
}

/// An empty dataset holds no values for any hour.
proof fn lemma_no_values_from_nothing(day: u32, hour: u32, years: nat)
    ensures
        yearly_values(
            Map::<(u32, u32, u32), Vec<ValidatedObservation>>::empty(),
            day,
            hour,
            years,
        ).len() == 0,
    decreases years,
{
    if years > 0 {
        lemma_no_values_from_nothing(day, hour, (years - 1) as nat);
    }
}

/// Whether `span` is the span from `start` back over `days` days: the
/// start and the instant that many days before it where the calendar holds
/// that instant, and nothing where it does not.
pub open spec fn is_negative_span(
    start: Timestamp,
    days: i64,
    span: Option<(Timestamp, Timestamp)>,
) -> bool {
    match span {
        Some((first, second)) => first == start && Timestamp::is_shifted(
            Some(second),
            start,
            days * 86_400,
        ),
        None => Timestamp::is_shifted(None, start, days * 86_400),
    }
}

/// Whether `span` is the span from the start of a year back over `days`
/// days. The start of a year is one second past the midnight that begins
/// it.
pub open spec fn is_negative_span_from_year(
    year: i32,
    days: i64,
    span: Option<(Timestamp, Timestamp)>,
) -> bool {
    exists|start: Timestamp|
        utc_year_start(year) == Some(start.spec_secs()) && start.spec_nanos() == 0 && MIN_SECONDS
            <= start.spec_secs() <= MAX_SECONDS && is_negative_span(start, days, span)
}

/// The span from an instant back over a number of days: the instant, then
/// the instant that many days before it. `None` where the calendar does
/// not reach that far.
pub fn negative_span_from(start: Timestamp, days: i64) -> (span: Option<(Timestamp, Timestamp)>)
    ensures
        is_negative_span(start, days, span),
{
    match start.minus_days(days) {
        Some(end) => Some((start, end)),
        None => None,
    }
}

/// The span from the start of the current year back over a number of
/// days.
///
/// Whatever the current year is, it is a year of the calendar, and the
/// result is that of `negative_span_from` for the start of that year: so
/// there is a span wherever the calendar reaches that far back.
pub fn provide_a_negative_span_from_start_of_the_year(days: i64) -> (span: Option<
    (Timestamp, Timestamp),
>)
    ensures
        exists|year: i32|
            MIN_YEAR <= year <= MAX_YEAR && is_negative_span_from_year(year, days, span),
{
    let current = now();
    let y = year_of(&current);
    let span = match start_of_year(y) {
        Some(this_year_start) => {
            let start_secs = this_year_start.secs();
            let span = negative_span_from(this_year_start, days);
            assert(utc_year_start(y) == Some(start_secs) && is_negative_span_from_year(
                y,
                days,
                span,
            ));
            span
        },
        None => None,
    };
    assert(MIN_YEAR <= y <= MAX_YEAR && is_negative_span_from_year(y, days, span));
    span
}

} // verus!
