//! Monitor filters and events, and the reading of events handed over by the C API.
use vstd::prelude::*;

use crate::kinds::{
    event_flag_bits, event_flag_from_bits, is_event_flag_bits, lemma_event_flag_round_trip,
    FswEventFlag, FswFilterType,
};

verus! {

/// A monitor filter.
#[derive(Debug, PartialEq)]
pub struct FswMonitorFilter {
    /// A regular expression to match paths against.
    pub text: String,
    /// The type of filter.
    pub filter_type: FswFilterType,
    /// Whether the regular expression in `text` should be case sensitive.
    pub case_sensitive: bool,
    /// Whether the regular expression in `text` is an extended regular expression.
    pub extended: bool,
}

/// What a monitor filter holds.
pub struct FilterView {
    pub text: Seq<char>,
    pub filter_type: FswFilterType,
    pub case_sensitive: bool,
    pub extended: bool,
}

impl View for FswMonitorFilter {
    type V = FilterView;

    open spec fn view(&self) -> FilterView {
        FilterView {
            text: self.text@,
            filter_type: self.filter_type,
            case_sensitive: self.case_sensitive,
            extended: self.extended,
        }
    }
}

impl Clone for FswMonitorFilter {
    fn clone(&self) -> (r: Self)
        ensures
            r == *self,
    {
        FswMonitorFilter {
            text: self.text.clone(),
            filter_type: self.filter_type,
            case_sensitive: self.case_sensitive,
            extended: self.extended,
        }
    }
}

impl FswMonitorFilter {
    /// Makes a filter from its text, its type and its two options.
    pub fn new(text: &str, filter_type: FswFilterType, case_sensitive: bool, extended: bool) -> (r:
        Self)
        ensures
            r@ == (FilterView { text: text@, filter_type, case_sensitive, extended }),
    {
        FswMonitorFilter { text: text.to_owned(), filter_type, case_sensitive, extended }
    }
}

/// An event from fswatch.
///
/// No changes done to this struct or its fields will affect libfswatch. All the data is a copy of
/// the original.
#[derive(Debug, PartialEq)]
pub struct FswEvent {
    /// The file path for this event.
    pub path: String,
    /// The time at which this event took place.
    pub time: i64,
    /// The flags set on this event.
    pub flags: Vec<FswEventFlag>,
}

/// What an event holds.
pub struct EventView {
    pub path: Seq<char>,
    pub time: i64,
    pub flags: Seq<FswEventFlag>,
}

impl View for FswEvent {
    type V = EventView;

    open spec fn view(&self) -> EventView {
        EventView { path: self.path@, time: self.time, flags: self.flags@ }
    }
}

/// An event as the C API hands it over: its path already read as text, its time, and the values
/// of its flags.
#[derive(Debug)]
pub struct RawEvent {
    /// The file path for this event.
    pub path: String,
    /// The time at which this event took place.
    pub time: i64,
    /// The values of `fsw_event_flag` set on this event.
    pub flags: Vec<u32>,
}

/// The flags that a sequence of `fsw_event_flag` values stands for, in order, or `None` where
/// some value is no flag.
pub open spec fn flags_from_bits(bits: Seq<u32>) -> Option<Seq<FswEventFlag>> {
    if forall|i: int| 0 <= i < bits.len() ==> #[trigger] is_event_flag_bits(bits[i]) {
        Some(Seq::new(bits.len(), |i: int| event_flag_from_bits(bits[i]).unwrap()))
    } else {
        None
    }
}

/// The event that a raw event stands for, or `None` where one of its flag values is no flag.
pub open spec fn event_from_raw(path: Seq<char>, time: i64, bits: Seq<u32>) -> Option<EventView> {
    match flags_from_bits(bits) {
        Some(flags) => Some(EventView { path, time, flags }),
        None => None,
    }
}

/// Reads the flags of a raw event in order; `None` where some value is no flag.
fn read_flags(bits: &Vec<u32>) -> (r: Option<Vec<FswEventFlag>>)
    ensures
        match r {
            Some(v) => flags_from_bits(bits@) == Some(v@),
            None => flags_from_bits(bits@) is None,
        },
{
    let mut flags: Vec<FswEventFlag> = Vec::new();
    let n = bits.len();
    for i in 0..n
        invariant
            n == bits@.len(),
            flags@.len() == i,
            forall|j: int| 0 <= j < i ==> #[trigger] is_event_flag_bits(bits@[j]),
            forall|j: int|
                0 <= j < i ==> event_flag_from_bits(bits@[j]) == Some(#[trigger] flags@[j]),
    {
        match FswEventFlag::from_bits(bits[i]) {
            Some(f) => {
                flags.push(f);
            },
            None => {
                return None;
            },
        }
    }
    proof {
        let s = Seq::new(bits@.len(), |i: int| event_flag_from_bits(bits@[i]).unwrap());
        assert(flags@ =~= s);
    }
    Some(flags)
}

impl RawEvent {
    /// The event this raw event stands for; `None` where one of its flag values is no flag.
    pub fn into_event(self) -> (r: Option<FswEvent>)
        ensures
            match r {
                Some(e) => event_from_raw(self.path@, self.time, self.flags@) == Some(e@),
                None => event_from_raw(self.path@, self.time, self.flags@) is None,
            },
    {
        match read_flags(&self.flags) {
            Some(flags) => Some(FswEvent { path: self.path, time: self.time, flags }),
            None => None,
        }
    }
}

impl FswEvent {
    /// Reads a batch of events handed over by the C API, in order: `None` where one of them holds
    /// a flag value that is no flag.
    pub fn from_raw_events(raw: &Vec<RawEvent>) -> (r: Option<Vec<FswEvent>>)
        ensures
            r is Some <==> forall|i: int|
                0 <= i < raw@.len() ==> #[trigger] event_from_raw(
                    raw@[i].path@,
                    raw@[i].time,
                    raw@[i].flags@,
                ) is Some,
            r matches Some(v) ==> v@.len() == raw@.len() && forall|i: int|
                0 <= i < raw@.len() ==> event_from_raw(raw@[i].path@, raw@[i].time, raw@[i].flags@)
                    == Some(#[trigger] v@[i]@),
    {
        let mut events: Vec<FswEvent> = Vec::new();
        let n = raw.len();
        for i in 0..n
            invariant
                n == raw@.len(),
                events@.len() == i,
                forall|j: int|
                    0 <= j < i ==> event_from_raw(raw@[j].path@, raw@[j].time, raw@[j].flags@)
                        == Some(#[trigger] events@[j]@),
        {
            let item = &raw[i];
            match read_flags(&item.flags) {
                Some(flags) => {
                    events.push(FswEvent { path: item.path.clone(), time: item.time, flags });
                },
                None => {
                    assert(event_from_raw(raw@[i as int].path@, raw@[i as int].time, raw@[i as int].flags@) is None);
                    return None;
                },
            }
        }
        assert forall|i: int| 0 <= i < raw@.len() implies #[trigger] event_from_raw(
            raw@[i].path@,
            raw@[i].time,
            raw@[i].flags@,
        ) is Some by {
            assert(event_from_raw(raw@[i].path@, raw@[i].time, raw@[i].flags@) == Some(
                events@[i]@,
            ));
        }
        Some(events)
    }
}

/// Whether no flag has these bits.
pub open spec fn bits_of_no_flag(b: u32) -> bool {
    forall|f: FswEventFlag| event_flag_bits(f) != b
}

/// Reading raw flags keeps their number and order, each flag read having exactly the bits it was
/// read from; reading fails exactly where some value is the bits of no flag. A raw event keeps its
/// path and its time.
pub proof fn lemma_reading_flags(bits: Seq<u32>, path: Seq<char>, time: i64)
    ensures
        flags_from_bits(bits) matches Some(fs) ==> fs.len() == bits.len() && forall|i: int|
            0 <= i < bits.len() ==> event_flag_bits(#[trigger] fs[i]) == bits[i],
        flags_from_bits(bits) is None <==> exists|i: int|
            0 <= i < bits.len() && #[trigger] bits_of_no_flag(bits[i]),
        event_from_raw(path, time, bits) matches Some(e) ==> e.path == path && e.time == time
            && Some(e.flags) == flags_from_bits(bits),
        event_from_raw(path, time, bits) is None <==> flags_from_bits(bits) is None,
{
    if let Some(fs) = flags_from_bits(bits) {
        assert forall|i: int| 0 <= i < bits.len() implies event_flag_bits(#[trigger] fs[i])
            == bits[i] by {
            assert(is_event_flag_bits(bits[i]));
            let f = choose|f: FswEventFlag| #[trigger] event_flag_bits(f) == bits[i];
            lemma_event_flag_round_trip(f, bits[i]);
        }
        if exists|k: int| 0 <= k < bits.len() && #[trigger] bits_of_no_flag(bits[k]) {
            let k = choose|k: int| 0 <= k < bits.len() && #[trigger] bits_of_no_flag(bits[k]);
            assert(event_flag_bits(fs[k]) == bits[k]);
            assert(false);
        }
    } else {
        let i = choose|i: int| 0 <= i < bits.len() && !#[trigger] is_event_flag_bits(bits[i]);
        assert forall|f: FswEventFlag| event_flag_bits(f) != bits[i] by {
            if event_flag_bits(f) == bits[i] {
                assert(is_event_flag_bits(bits[i]));
            }
        }
        assert(bits_of_no_flag(bits[i]));
    }
}

} // verus!
