//! The options of a session, gathered before the session is made, and the order in which they
//! are applied.
use vstd::prelude::*;

use crate::event::{FilterView, FswMonitorFilter};
use crate::kinds::{FswEventFlag, FswMonitorType};
use crate::status::{FswError, FswResult};

verus! {

/// One option to apply to a new session, as the C API takes it.
#[derive(Debug, PartialEq)]
pub enum SessionOp {
    /// Watch a path.
    AddPath(String),
    /// Set a custom property: its name and its value.
    AddProperty(String, String),
    /// Allow overflow or not.
    SetAllowOverflow(bool),
    /// Set the latency: the bits of the latency in seconds, as a 64-bit float.
    SetLatency(u64),
    /// Watch recursively or not.
    SetRecursive(bool),
    /// Watch directories only or not.
    SetDirectoryOnly(bool),
    /// Follow symbolic links or not.
    SetFollowSymlinks(bool),
    /// Only report events with this flag.
    AddEventTypeFilter(FswEventFlag),
    /// Filter paths.
    AddFilter(FswMonitorFilter),
}

/// What an option holds.
pub enum OpView {
    AddPath(Seq<char>),
    AddProperty(Seq<char>, Seq<char>),
    SetAllowOverflow(bool),
    SetLatency(u64),
    SetRecursive(bool),
    SetDirectoryOnly(bool),
    SetFollowSymlinks(bool),
    AddEventTypeFilter(FswEventFlag),
    AddFilter(FilterView),
}

impl View for SessionOp {
    type V = OpView;

    open spec fn view(&self) -> OpView {
        match self {
            SessionOp::AddPath(p) => OpView::AddPath(p@),
            SessionOp::AddProperty(n, v) => OpView::AddProperty(n@, v@),
            SessionOp::SetAllowOverflow(b) => OpView::SetAllowOverflow(*b),
            SessionOp::SetLatency(l) => OpView::SetLatency(*l),
            SessionOp::SetRecursive(b) => OpView::SetRecursive(*b),
            SessionOp::SetDirectoryOnly(b) => OpView::SetDirectoryOnly(*b),
            SessionOp::SetFollowSymlinks(b) => OpView::SetFollowSymlinks(*b),
            SessionOp::AddEventTypeFilter(f) => OpView::AddEventTypeFilter(*f),
            SessionOp::AddFilter(f) => OpView::AddFilter(f@),
        }
    }
}

/// What a sequence of options holds, in order.
pub open spec fn ops_view(ops: Seq<SessionOp>) -> Seq<OpView> {
    ops.map_values(|o: SessionOp| o@)
}

/// What is needed to build a session: the monitor type to make it with, and the options to apply
/// to it, in order.
#[derive(Debug)]
pub struct BuildPlan {
    pub monitor_type: FswMonitorType,
    pub ops: Vec<SessionOp>,
}

/// A builder for sessions.
///
/// This struct saves all the options passed to it by the builder methods, which means it is safe
/// to call the builder methods multiple times, as nothing is passed to the C API until the session
/// is built.
#[derive(Debug)]
pub struct FswSessionBuilder {
    paths: Vec<String>,
    monitor_type: FswMonitorType,
    properties: PropertyList,
    overflow: Option<bool>,
    latency: Option<u64>,
    recursive: Option<bool>,
    directory_only: Option<bool>,
    follow_symlinks: Option<bool>,
    event_type_filters: Vec<FswEventFlag>,
    filters: Vec<FswMonitorFilter>,
}

/// What a builder holds. Properties are kept in the order in which their names were first given,
/// each name once, with the last value given for it.
pub struct BuilderView {
    pub paths: Seq<Seq<char>>,
    pub monitor_type: FswMonitorType,
    pub properties: Seq<(Seq<char>, Seq<char>)>,
    pub overflow: Option<bool>,
    pub latency: Option<u64>,
    pub recursive: Option<bool>,
    pub directory_only: Option<bool>,
    pub follow_symlinks: Option<bool>,
    pub event_type_filters: Seq<FswEventFlag>,
    pub filters: Seq<FilterView>,
}

/// No name occurs twice among the properties.
pub open spec fn names_distinct(props: Seq<(Seq<char>, Seq<char>)>) -> bool {
    forall|i: int, j: int|
        0 <= i < props.len() && 0 <= j < props.len() && i != j ==> #[trigger] props[i].0
            != #[trigger] props[j].0
}

/// Whether a property of that name is set.
pub open spec fn has_property(props: Seq<(Seq<char>, Seq<char>)>, name: Seq<char>) -> bool {
    exists|i: int| 0 <= i < props.len() && #[trigger] props[i].0 == name
}

/// The value of the property of that name, if it is set.
pub open spec fn property_value(props: Seq<(Seq<char>, Seq<char>)>, name: Seq<char>) -> Option<
    Seq<char>,
> {
    if has_property(props, name) {
        Some(props[choose|i: int| 0 <= i < props.len() && #[trigger] props[i].0 == name].1)
    } else {
        None
    }
}

/// The options that a builder applies to a new session, in order: its paths in the order added,
/// its properties, then overflow, latency, recursion, directory only and symbolic links where set,
/// then its event type filters and its filters in the order added.
pub open spec fn plan_ops(b: BuilderView) -> Seq<OpView> {
    b.paths.map_values(|p: Seq<char>| OpView::AddPath(p)) + b.properties.map_values(
        |kv: (Seq<char>, Seq<char>)| OpView::AddProperty(kv.0, kv.1),
    ) + option_ops(b) + b.event_type_filters.map_values(
        |f: FswEventFlag| OpView::AddEventTypeFilter(f),
    ) + b.filters.map_values(|f: FilterView| OpView::AddFilter(f))
}

/// The options of a builder that may be unset, in the order applied, those that are set.
pub open spec fn option_ops(b: BuilderView) -> Seq<OpView> {
    (match b.overflow {
        Some(v) => seq![OpView::SetAllowOverflow(v)],
        None => Seq::empty(),
    }) + (match b.latency {
        Some(v) => seq![OpView::SetLatency(v)],
        None => Seq::empty(),
    }) + (match b.recursive {
        Some(v) => seq![OpView::SetRecursive(v)],
        None => Seq::empty(),
    }) + (match b.directory_only {
        Some(v) => seq![OpView::SetDirectoryOnly(v)],
        None => Seq::empty(),
    }) + (match b.follow_symlinks {
        Some(v) => seq![OpView::SetFollowSymlinks(v)],
        None => Seq::empty(),
    })
}

/// Custom properties, each name once, in the order in which their names were first given.
#[derive(Debug)]
struct PropertyList {
    entries: Vec<(String, String)>,
}

impl View for PropertyList {
    type V = Seq<(Seq<char>, Seq<char>)>;

    closed spec fn view(&self) -> Seq<(Seq<char>, Seq<char>)> {
        self.entries@.map_values(|kv: (String, String)| (kv.0@, kv.1@))
    }
}

impl PropertyList {
    #[verifier::type_invariant]
    spec fn names_are_distinct(self) -> bool {
        names_distinct(self@)
    }

    fn new() -> (r: Self)
        ensures
            r@ == Seq::<(Seq<char>, Seq<char>)>::empty(),
    {
        let r = PropertyList { entries: Vec::new() };
        assert(r@ =~= Seq::empty());
        r
    }

    /// Sets the property `name` to `value`, in place where it is already set.
    fn insert(self, name: &str, value: &str) -> (r: Self)
        ensures
            has_property(self@, name@) ==> exists|i: int|
                0 <= i < self@.len() && self@[i].0 == name@ && r@ == self@.update(
                    i,
                    (name@, value@),
                ),
            !has_property(self@, name@) ==> r@ == self@.push((name@, value@)),
            property_value(r@, name@) == Some(value@),
            forall|other: Seq<char>|
                other != name@ ==> property_value(r@, other) == property_value(self@, other),
            names_distinct(self@),
            names_distinct(r@),
    {
        proof {
            use_type_invariant(&self);
        }
        let ghost old = self@;
        let mut entries = self.entries;
        let name_s = name.to_owned();
        let value_s = value.to_owned();
        let n = entries.len();
        let mut i: usize = 0;
        while i < n
            invariant
                n == entries@.len(),
                i <= n,
                entries@.map_values(|kv: (String, String)| (kv.0@, kv.1@)) == old,
                names_distinct(old),
                old == self@,
                name_s@ == name@,
                value_s@ == value@,
                forall|j: int| 0 <= j < i ==> old[j].0 != name@,
            decreases n - i,
        {
            if entries[i].0 == name_s {
                assert(old[i as int].0 == name@);
                entries.set(i, (name_s, value_s));
                proof {
                    assert(entries@.map_values(|kv: (String, String)| (kv.0@, kv.1@))
                        =~= old.update(i as int, (name@, value@)));
                    lemma_update_property(old, i as int, name@, value@);
                }
                return PropertyList { entries };
            }
            i += 1;
        }
        entries.push((name_s, value_s));
        proof {
            assert(entries@.map_values(|kv: (String, String)| (kv.0@, kv.1@)) =~= old.push(
                (name@, value@),
            ));
            lemma_push_property(old, name@, value@);
        }
        PropertyList { entries }
    }
}

impl View for FswSessionBuilder {
    type V = BuilderView;

    closed spec fn view(&self) -> BuilderView {
        BuilderView {
            paths: self.paths@.map_values(|p: String| p@),
            monitor_type: self.monitor_type,
            properties: self.properties@,
            overflow: self.overflow,
            latency: self.latency,
            recursive: self.recursive,
            directory_only: self.directory_only,
            follow_symlinks: self.follow_symlinks,
            event_type_filters: self.event_type_filters@,
            filters: self.filters@.map_values(|f: FswMonitorFilter| f@),
        }
    }
}

impl FswSessionBuilder {
    /// Creates an empty builder, not requiring `paths` to be set.
    ///
    /// This is mainly useful when constructing a session for use as an iterator.
    pub fn empty() -> (r: Self)
        ensures
            r@ == empty_builder(Seq::empty()),
    {
        FswSessionBuilder::create(None)
    }

    /// Make a new builder with the required paths.
    pub fn new(paths: Vec<&str>) -> (r: Self)
        ensures
            r@ == empty_builder(paths@.map_values(|p: &str| p@)),
    {
        let mut owned: Vec<String> = Vec::new();
        let n = paths.len();
        for i in 0..n
            invariant
                n == paths@.len(),
                owned@.map_values(|p: String| p@) =~= paths@.take(i as int).map_values(
                    |p: &str| p@,
                ),
        {
            let ghost before = owned@;
            owned.push(paths[i].to_owned());
            assert(owned@.map_values(|p: String| p@) =~= before.map_values(|p: String| p@).push(
                paths@[i as int]@,
            ));
            assert(paths@.take(i + 1) =~= paths@.take(i as int).push(paths@[i as int]));
        }
        assert(paths@.take(n as int) =~= paths@);
        FswSessionBuilder::create(Some(owned))
    }

    fn create(paths: Option<Vec<String>>) -> (r: Self)
        ensures
            r@ == empty_builder(optional_paths(paths)),
    {
        let ghost expected = optional_paths(paths);
        let list = match paths {
            Some(p) => p,
            None => Vec::new(),
        };
        let r = FswSessionBuilder {
            paths: list,
            monitor_type: FswMonitorType::SystemDefault,
            properties: PropertyList::new(),
            overflow: None,
            latency: None,
            recursive: None,
            directory_only: None,
            follow_symlinks: None,
            event_type_filters: Vec::new(),
            filters: Vec::new(),
        };
        assert(r@.properties =~= Seq::empty());
        assert(r@.paths =~= expected);
        assert(r@.event_type_filters =~= Seq::empty());
        assert(r@.filters =~= Seq::empty());
        r
    }

    /// Add a path to monitor for this session.
    pub fn add_path(self, path: &str) -> (r: Self)
        ensures
            r@ == (BuilderView { paths: self@.paths.push(path@), ..self@ }),
    {
        let mut b = self;
        let ghost old_paths = b.paths@;
        b.paths.push(path.to_owned());
        assert(b.paths@.map_values(|p: String| p@) =~= old_paths.map_values(|p: String| p@).push(
            path@,
        ));
        b
    }

    /// Set the type of monitor for this session.
    pub fn monitor(self, monitor: FswMonitorType) -> (r: Self)
        ensures
            r@ == (BuilderView { monitor_type: monitor, ..self@ }),
    {
        let mut b = self;
        b.monitor_type = monitor;
        b
    }

    /// Add a custom property to this session. Properties with the same name will keep the last
    /// value specified.
    pub fn property(self, name: &str, value: &str) -> (r: Self)
        ensures
            has_property(self@.properties, name@) ==> exists|i: int|
                0 <= i < self@.properties.len() && self@.properties[i].0 == name@ && r@ == (
                BuilderView { properties: self@.properties.update(i, (name@, value@)), ..self@ }),
            !has_property(self@.properties, name@) ==> r@ == (BuilderView {
                properties: self@.properties.push((name@, value@)),
                ..self@
            }),
            property_value(r@.properties, name@) == Some(value@),
            forall|other: Seq<char>|
                other != name@ ==> property_value(r@.properties, other) == property_value(
                    self@.properties,
                    other,
                ),
            names_distinct(self@.properties),
            names_distinct(r@.properties),
    {
        let mut b = self;
        let props = b.properties.insert(name, value);
        b.properties = props;
        b
    }

    /// Set the overflow property for this session.
    pub fn overflow(self, overflow: Option<bool>) -> (r: Self)
        ensures
            r@ == (BuilderView { overflow, ..self@ }),
    {
        let mut b = self;
        b.overflow = overflow;
        b
    }

    /// Set the latency for this session, for monitors using this property: the bits of the latency
    /// in seconds, as a 64-bit float.
    pub fn latency_bits(self, latency: Option<u64>) -> (r: Self)
        ensures
            r@ == (BuilderView { latency, ..self@ }),
    {
        let mut b = self;
        b.latency = latency;
        b
    }

    /// Set whether this session should be recursive.
    pub fn recursive(self, recursive: Option<bool>) -> (r: Self)
        ensures
            r@ == (BuilderView { recursive, ..self@ }),
    {
        let mut b = self;
        b.recursive = recursive;
        b
    }

    /// Set whether this session is directory only.
    pub fn directory_only(self, directory_only: Option<bool>) -> (r: Self)
        ensures
            r@ == (BuilderView { directory_only, ..self@ }),
    {
        let mut b = self;
        b.directory_only = directory_only;
        b
    }

    /// Set whether this session should follow symlinks.
    pub fn follow_symlinks(self, follow_symlinks: Option<bool>) -> (r: Self)
        ensures
            r@ == (BuilderView { follow_symlinks, ..self@ }),
    {
        let mut b = self;
        b.follow_symlinks = follow_symlinks;
        b
    }

    /// Add an event flag filter for this session.
    pub fn add_event_filter(self, filter_type: FswEventFlag) -> (r: Self)
        ensures
            r@ == (BuilderView {
                event_type_filters: self@.event_type_filters.push(filter_type),
                ..self@
            }),
    {
        let mut b = self;
        b.event_type_filters.push(filter_type);
        b
    }

    /// Add a filter for this session.
    pub fn add_filter(self, filter: FswMonitorFilter) -> (r: Self)
        ensures
            r@ == (BuilderView { filters: self@.filters.push(filter@), ..self@ }),
    {
        let mut b = self;
        let ghost old_filters = b.filters@;
        let ghost fv = filter@;
        b.filters.push(filter);
        assert(b.filters@.map_values(|f: FswMonitorFilter| f@) =~= old_filters.map_values(
            |f: FswMonitorFilter| f@,
        ).push(fv));
        b
    }

    /// The monitor type and the options, in order, with which this builder makes a session.
    ///
    /// Building a session makes it with the monitor type, then applies the options in order and
    /// stops at the first that fails.
    pub fn build_plan(self) -> (r: BuildPlan)
        ensures
            r.monitor_type == self@.monitor_type,
            ops_view(r.ops@) == plan_ops(self@),
            names_distinct(self@.properties),
    {
        proof {
            use_type_invariant(&self.properties);
        }
        let ghost b = self@;
        let mut ops: Vec<SessionOp> = Vec::new();
        push_path_ops(&mut ops, &self.paths);
        let ghost s1 = ops_view(ops@);
        push_property_ops(&mut ops, &self.properties);
        let ghost s2 = ops_view(ops@);
        self.push_option_ops(&mut ops);
        let ghost s3 = ops_view(ops@);
        push_event_filter_ops(&mut ops, &self.event_type_filters);
        let ghost s4 = ops_view(ops@);
        push_filter_ops(&mut ops, &self.filters);
        assert(ops_view(ops@) =~= plan_ops(b));
        BuildPlan { monitor_type: self.monitor_type, ops }
    }

    fn push_option_ops(&self, ops: &mut Vec<SessionOp>)
        ensures
            ops_view(final(ops)@) == ops_view(old(ops)@) + option_ops(self@),
    {
        let ghost start = ops_view(ops@);
        if let Some(v) = self.overflow {
            ops.push(SessionOp::SetAllowOverflow(v));
        }
        if let Some(v) = self.latency {
            ops.push(SessionOp::SetLatency(v));
        }
        if let Some(v) = self.recursive {
            ops.push(SessionOp::SetRecursive(v));
        }
        if let Some(v) = self.directory_only {
            ops.push(SessionOp::SetDirectoryOnly(v));
        }
        if let Some(v) = self.follow_symlinks {
            ops.push(SessionOp::SetFollowSymlinks(v));
        }
        assert(ops_view(ops@) =~= start + option_ops(self@));
    }
}

fn push_path_ops(ops: &mut Vec<SessionOp>, paths: &Vec<String>)
    ensures
        ops_view(final(ops)@) == ops_view(old(ops)@) + paths@.map_values(|p: String| p@).map_values(
            |p: Seq<char>| OpView::AddPath(p),
        ),
{
    let ghost start = ops_view(ops@);
    let ghost pv = paths@.map_values(|p: String| p@);
    let n = paths.len();
    for i in 0..n
        invariant
            n == paths@.len(),
            pv == paths@.map_values(|p: String| p@),
            ops_view(ops@) =~= start + pv.take(i as int).map_values(|p: Seq<char>| OpView::AddPath(p)),
    {
        let ghost before = ops@;
        ops.push(SessionOp::AddPath(paths[i].clone()));
        assert(ops_view(ops@) =~= ops_view(before).push(OpView::AddPath(pv[i as int])));
        assert(pv.take(i + 1) =~= pv.take(i as int).push(pv[i as int]));
    }
    assert(pv.take(n as int) =~= pv);
}

fn push_property_ops(ops: &mut Vec<SessionOp>, props: &PropertyList)
    ensures
        ops_view(final(ops)@) == ops_view(old(ops)@) + props@.map_values(
            |kv: (Seq<char>, Seq<char>)| OpView::AddProperty(kv.0, kv.1),
        ),
{
    let ghost start = ops_view(ops@);
    let ghost pv = props@;
    let m = props.entries.len();
    for i in 0..m
        invariant
            m == props.entries@.len(),
            pv == props@,
            ops_view(ops@) =~= start + pv.take(i as int).map_values(
                |kv: (Seq<char>, Seq<char>)| OpView::AddProperty(kv.0, kv.1),
            ),
    {
        let ghost before = ops@;
        let name = props.entries[i].0.clone();
        let value = props.entries[i].1.clone();
        ops.push(SessionOp::AddProperty(name, value));
        assert(ops_view(ops@) =~= ops_view(before).push(
            OpView::AddProperty(pv[i as int].0, pv[i as int].1),
        ));
        assert(pv.take(i + 1) =~= pv.take(i as int).push(pv[i as int]));
    }
    assert(pv.take(m as int) =~= pv);
}

fn push_event_filter_ops(ops: &mut Vec<SessionOp>, flags: &Vec<FswEventFlag>)
    ensures
        ops_view(final(ops)@) == ops_view(old(ops)@) + flags@.map_values(
            |f: FswEventFlag| OpView::AddEventTypeFilter(f),
        ),
{
    let ghost start = ops_view(ops@);
    let k = flags.len();
    for i in 0..k
        invariant
            k == flags@.len(),
            ops_view(ops@) =~= start + flags@.take(i as int).map_values(
                |f: FswEventFlag| OpView::AddEventTypeFilter(f),
            ),
    {
        let ghost before = ops@;
        ops.push(SessionOp::AddEventTypeFilter(flags[i]));
        assert(ops_view(ops@) =~= ops_view(before).push(OpView::AddEventTypeFilter(flags@[i as int])));
        assert(flags@.take(i + 1) =~= flags@.take(i as int).push(flags@[i as int]));
    }
    assert(flags@.take(k as int) =~= flags@);
}

fn push_filter_ops(ops: &mut Vec<SessionOp>, filters: &Vec<FswMonitorFilter>)
    ensures
        ops_view(final(ops)@) == ops_view(old(ops)@) + filters@.map_values(
            |f: FswMonitorFilter| f@,
        ).map_values(|f: FilterView| OpView::AddFilter(f)),
{
    let ghost start = ops_view(ops@);
    let ghost fv = filters@.map_values(|f: FswMonitorFilter| f@);
    let l = filters.len();
    for i in 0..l
        invariant
            l == filters@.len(),
            fv == filters@.map_values(|f: FswMonitorFilter| f@),
            ops_view(ops@) =~= start + fv.take(i as int).map_values(|f: FilterView| OpView::AddFilter(f)),
    {
        let ghost before = ops@;
        ops.push(SessionOp::AddFilter(filters[i].clone()));
        assert(ops_view(ops@) =~= ops_view(before).push(OpView::AddFilter(fv[i as int])));
        assert(fv.take(i + 1) =~= fv.take(i as int).push(fv[i as int]));
    }
    assert(fv.take(l as int) =~= fv);
}

/// The paths held by an optional list of paths.
pub open spec fn optional_paths(paths: Option<Vec<String>>) -> Seq<Seq<char>> {
    match paths {
        Some(p) => p@.map_values(|s: String| s@),
        None => Seq::empty(),
    }
}

/// A builder with the given paths and nothing else set.
pub open spec fn empty_builder(paths: Seq<Seq<char>>) -> BuilderView {
    BuilderView {
        paths,
        monitor_type: FswMonitorType::SystemDefault,
        properties: Seq::empty(),
        overflow: None,
        latency: None,
        recursive: None,
        directory_only: None,
        follow_symlinks: None,
        event_type_filters: Seq::empty(),
        filters: Seq::empty(),
    }
}

proof fn lemma_update_property(
    props: Seq<(Seq<char>, Seq<char>)>,
    i: int,
    name: Seq<char>,
    value: Seq<char>,
)
    requires
        names_distinct(props),
        0 <= i < props.len(),
        props[i].0 == name,
    ensures
        names_distinct(props.update(i, (name, value))),
        property_value(props.update(i, (name, value)), name) == Some(value),
        forall|other: Seq<char>|
            other != name ==> property_value(props.update(i, (name, value)), other)
                == property_value(props, other),
{
    let np = props.update(i, (name, value));
    assert(np[i].0 == name);
    let k = choose|k: int| 0 <= k < np.len() && #[trigger] np[k].0 == name;
    assert(k == i);
    assert forall|other: Seq<char>| other != name implies property_value(np, other)
        == property_value(props, other) by {
        if has_property(props, other) {
            let a = choose|a: int| 0 <= a < props.len() && #[trigger] props[a].0 == other;
            assert(np[a].0 == other);
            let b = choose|b: int| 0 <= b < np.len() && #[trigger] np[b].0 == other;
            assert(props[b].0 == other);
        } else {
            if has_property(np, other) {
                let b = choose|b: int| 0 <= b < np.len() && #[trigger] np[b].0 == other;
                assert(props[b].0 == other);
            }
        }
    }
}

proof fn lemma_push_property(props: Seq<(Seq<char>, Seq<char>)>, name: Seq<char>, value: Seq<char>)
    requires
        names_distinct(props),
        !has_property(props, name),
    ensures
        names_distinct(props.push((name, value))),
        property_value(props.push((name, value)), name) == Some(value),
        forall|other: Seq<char>|
            other != name ==> property_value(props.push((name, value)), other) == property_value(
                props,
                other,
            ),
{
    let np = props.push((name, value));
    let last = props.len() as int;
    assert(np[last].0 == name);
    assert forall|i: int, j: int|
        0 <= i < np.len() && 0 <= j < np.len() && i != j implies #[trigger] np[i].0
        != #[trigger] np[j].0 by {
        if i == last {
            assert(props[j].0 == np[j].0);
        } else if j == last {
            assert(props[i].0 == np[i].0);
        } else {
            assert(props[i].0 == np[i].0);
            assert(props[j].0 == np[j].0);
        }
    }
    let k = choose|k: int| 0 <= k < np.len() && #[trigger] np[k].0 == name;
    if k != last {
        assert(props[k].0 == name);
    }
    assert forall|other: Seq<char>| other != name implies property_value(np, other)
        == property_value(props, other) by {
        if has_property(props, other) {
            let a = choose|a: int| 0 <= a < props.len() && #[trigger] props[a].0 == other;
            assert(np[a].0 == other);
            let b = choose|b: int| 0 <= b < np.len() && #[trigger] np[b].0 == other;
            assert(b != last);
            assert(props[b].0 == other);
        } else {
            if has_property(np, other) {
                let b = choose|b: int| 0 <= b < np.len() && #[trigger] np[b].0 == other;
                assert(props[b].0 == other);
            }
        }
    }
}

/// The course of building a session: the options of its plan, how many of them were applied, and
/// the error of the option that failed, if one did.
///
/// Options are handed out one at a time, in the order of the plan. Building stops at the first
/// option that fails, and gives its error; where every option succeeds, building succeeds.
#[derive(Debug)]
pub struct BuildRun {
    ops: Vec<SessionOp>,
    applied: usize,
    failure: Option<FswError>,
}

/// What a build run holds.
pub struct BuildRunView {
    pub ops: Seq<OpView>,
    pub applied: nat,
    pub failure: Option<FswError>,
}

impl View for BuildRun {
    type V = BuildRunView;

    closed spec fn view(&self) -> BuildRunView {
        BuildRunView { ops: ops_view(self.ops@), applied: self.applied as nat, failure: self.failure }
    }
}

/// Whether a build run is over: an option failed, or every option was applied.
pub open spec fn run_finished(r: BuildRunView) -> bool {
    r.failure is Some || r.applied >= r.ops.len()
}

/// The run after the option it handed out gave `result`; a run that is over stays as it is.
pub open spec fn run_after(r: BuildRunView, result: FswResult<()>) -> BuildRunView {
    if run_finished(r) {
        r
    } else {
        BuildRunView {
            applied: r.applied + 1,
            failure: match result {
                Ok(_) => None,
                Err(e) => Some(e),
            },
            ..r
        }
    }
}

/// What building gives: the error of the option that failed, else success.
pub open spec fn run_outcome(r: BuildRunView) -> FswResult<()> {
    match r.failure {
        Some(e) => Err(e),
        None => Ok(()),
    }
}

impl BuildRun {
    /// A run over the options of a plan, none applied yet.
    pub fn new(ops: Vec<SessionOp>) -> (r: BuildRun)
        ensures
            r@ == (BuildRunView { ops: ops_view(ops@), applied: 0, failure: None }),
    {
        BuildRun { ops, applied: 0, failure: None }
    }

    /// The next option to apply, or `None` where the run is over.
    pub fn next_op(&self) -> (r: Option<&SessionOp>)
        ensures
            r is None <==> run_finished(self@),
            r matches Some(op) ==> op@ == self@.ops[self@.applied as int],
    {
        if self.failure.is_some() || self.applied >= self.ops.len() {
            None
        } else {
            Some(&self.ops[self.applied])
        }
    }

    /// Takes note of what applying the option handed out gave.
    pub fn record(&mut self, result: FswResult<()>)
        ensures
            final(self)@ == run_after(old(self)@, result),
    {
        if self.failure.is_some() || self.applied >= self.ops.len() {
            return;
        }
        self.applied = self.applied + 1;
        match result {
            Ok(()) => {},
            Err(e) => {
                self.failure = Some(e);
            },
        }
    }

    /// Whether the run is over.
    pub fn is_finished(&self) -> (r: bool)
        ensures
            r == run_finished(self@),
    {
        self.failure.is_some() || self.applied >= self.ops.len()
    }

    /// What building gives: the error of the option that failed, else success.
    pub fn finish(self) -> (r: FswResult<()>)
        ensures
            r == run_outcome(self@),
    {
        match self.failure {
            Some(e) => Err(e),
            None => Ok(()),
        }
    }
}

/// Once an option fails the run is over: no further option is handed out, and building gives that
/// option's error.
pub proof fn lemma_run_stops_at_first_failure(r: BuildRunView, e: FswError)
    requires
        !run_finished(r),
    ensures
        run_finished(run_after(r, Err(e))),
        run_outcome(run_after(r, Err(e))) == Err::<(), FswError>(e),
        forall|later: FswResult<()>| run_after(run_after(r, Err(e)), later) == run_after(r, Err(e)),
{
}

/// Where every option succeeds, the run hands out each option in order and building succeeds.
pub proof fn lemma_run_succeeds_when_all_succeed(r: BuildRunView)
    requires
        r.failure is None,
        r.applied < r.ops.len(),
    ensures
        run_after(r, Ok(())).applied == r.applied + 1,
        run_after(r, Ok(())).failure is None,
        run_after(r, Ok(())).applied == r.ops.len() ==> run_finished(run_after(r, Ok(())))
            && run_outcome(run_after(r, Ok(()))) == Ok::<(), FswError>(()),
{
}

/// A run is over exactly when an option failed or every option was applied: while no option has
/// failed and options remain, the next one is handed out. Recording a result applies one more
/// option and keeps its error, and a run that is over does not change.
pub proof fn lemma_run_goes_through_every_option(r: BuildRunView, result: FswResult<()>)
    ensures
        run_finished(r) <==> (r.failure is Some || r.applied >= r.ops.len()),
        (r.failure is None && r.applied < r.ops.len()) ==> !run_finished(r) && run_after(
            r,
            result,
        ) == (BuildRunView {
            ops: r.ops,
            applied: r.applied + 1,
            failure: match result {
                Ok(_) => None,
                Err(e) => Some(e),
            },
        }),
        (r.failure is Some || r.applied >= r.ops.len()) ==> run_after(r, result) == r,
        run_outcome(r) is Ok <==> r.failure is None,
        r.failure matches Some(e) ==> run_outcome(r) == Err::<(), FswError>(e),
{
}

/// The number of options that a builder sets among overflow, latency, recursion, directory only
/// and symbolic links.
pub open spec fn set_option_count(b: BuilderView) -> nat {
    (if b.overflow is Some { 1nat } else { 0nat }) + (if b.latency is Some { 1nat } else { 0nat })
        + (if b.recursive is Some { 1nat } else { 0nat }) + (if b.directory_only is Some {
        1nat
    } else {
        0nat
    }) + (if b.follow_symlinks is Some { 1nat } else { 0nat })
}

/// The plan holds one option for each path, property, set option, event type filter and filter,
/// and nothing else: first every path in order, then every property, then the options that are
/// set, then every event type filter in order, and last every filter in order.
pub proof fn lemma_plan_layout(b: BuilderView)
    ensures
        plan_ops(b).len() == b.paths.len() + b.properties.len() + set_option_count(b)
            + b.event_type_filters.len() + b.filters.len(),
        forall|i: int|
            0 <= i < b.paths.len() ==> plan_ops(b)[i] == OpView::AddPath(#[trigger] b.paths[i]),
        forall|i: int|
            0 <= i < b.properties.len() ==> plan_ops(b)[b.paths.len() + i] == OpView::AddProperty(
                (#[trigger] b.properties[i]).0,
                b.properties[i].1,
            ),
        forall|i: int|
            0 <= i < b.event_type_filters.len() ==> plan_ops(b)[b.paths.len() + b.properties.len()
                + set_option_count(b) + i] == OpView::AddEventTypeFilter(
                #[trigger] b.event_type_filters[i],
            ),
        forall|i: int|
            0 <= i < b.filters.len() ==> plan_ops(b)[plan_ops(b).len() - b.filters.len() + i]
                == OpView::AddFilter(#[trigger] b.filters[i]),
        option_ops(b).len() == set_option_count(b),
        b.overflow matches Some(v) ==> option_ops(b).contains(OpView::SetAllowOverflow(v)),
        b.latency matches Some(v) ==> option_ops(b).contains(OpView::SetLatency(v)),
        b.recursive matches Some(v) ==> option_ops(b).contains(OpView::SetRecursive(v)),
        b.directory_only matches Some(v) ==> option_ops(b).contains(OpView::SetDirectoryOnly(v)),
        b.follow_symlinks matches Some(v) ==> option_ops(b).contains(OpView::SetFollowSymlinks(v)),
{
    let p = b.paths.map_values(|p: Seq<char>| OpView::AddPath(p));
    let q = b.properties.map_values(|kv: (Seq<char>, Seq<char>)| OpView::AddProperty(kv.0, kv.1));
    let o = option_ops(b);
    let e = b.event_type_filters.map_values(|f: FswEventFlag| OpView::AddEventTypeFilter(f));
    let f = b.filters.map_values(|f: FilterView| OpView::AddFilter(f));
    assert(plan_ops(b) == p + q + o + e + f);
    let ov = match b.overflow {
        Some(v) => seq![OpView::SetAllowOverflow(v)],
        None => Seq::<OpView>::empty(),
    };
    let lv = match b.latency {
        Some(v) => seq![OpView::SetLatency(v)],
        None => Seq::<OpView>::empty(),
    };
    let rv = match b.recursive {
        Some(v) => seq![OpView::SetRecursive(v)],
        None => Seq::<OpView>::empty(),
    };
    let dv = match b.directory_only {
        Some(v) => seq![OpView::SetDirectoryOnly(v)],
        None => Seq::<OpView>::empty(),
    };
    let sv = match b.follow_symlinks {
        Some(v) => seq![OpView::SetFollowSymlinks(v)],
        None => Seq::<OpView>::empty(),
    };
    assert(o == ov + lv + rv + dv + sv);
    assert(o.len() == set_option_count(b));
    if let Some(v) = b.overflow {
        assert(o[0] == OpView::SetAllowOverflow(v));
    }
    if let Some(v) = b.latency {
        assert(o[ov.len() as int] == OpView::SetLatency(v));
    }
    if let Some(v) = b.recursive {
        assert(o[(ov.len() + lv.len()) as int] == OpView::SetRecursive(v));
    }
    if let Some(v) = b.directory_only {
        assert(o[(ov.len() + lv.len() + rv.len()) as int] == OpView::SetDirectoryOnly(v));
    }
    if let Some(v) = b.follow_symlinks {
        assert(o[(ov.len() + lv.len() + rv.len() + dv.len()) as int] == OpView::SetFollowSymlinks(v));
    }
    let all = p + q + o + e + f;
    assert forall|i: int| 0 <= i < b.paths.len() implies all[i] == OpView::AddPath(
        #[trigger] b.paths[i],
    ) by {
        assert(all[i] == p[i]);
    }
    assert forall|i: int| 0 <= i < b.properties.len() implies all[b.paths.len() + i]
        == OpView::AddProperty((#[trigger] b.properties[i]).0, b.properties[i].1) by {
        assert(all[b.paths.len() + i] == q[i]);
    }
    assert forall|i: int| 0 <= i < b.event_type_filters.len() implies all[b.paths.len()
        + b.properties.len() + set_option_count(b) + i] == OpView::AddEventTypeFilter(
        #[trigger] b.event_type_filters[i],
    ) by {
        assert(all[b.paths.len() + b.properties.len() + set_option_count(b) + i] == e[i]);
    }
    assert forall|i: int| 0 <= i < b.filters.len() implies all[all.len() - b.filters.len() + i]
        == OpView::AddFilter(#[trigger] b.filters[i]) by {
        assert(all[all.len() - b.filters.len() + i] == f[i]);
    }
}

/// A new builder holds the paths it was given, in order, uses the system default monitor and sets
/// nothing else, whatever the paths.
pub proof fn lemma_new_builder_defaults(paths: Seq<Seq<char>>)
    ensures
        empty_builder(paths).paths == paths,
        empty_builder(paths).monitor_type == FswMonitorType::SystemDefault,
        empty_builder(paths).properties.len() == 0,
        empty_builder(paths).overflow is None,
        empty_builder(paths).latency is None,
        empty_builder(paths).recursive is None,
        empty_builder(paths).directory_only is None,
        empty_builder(paths).follow_symlinks is None,
        empty_builder(paths).event_type_filters.len() == 0,
        empty_builder(paths).filters.len() == 0,
        plan_ops(empty_builder(paths)).len() == paths.len(),
{
    lemma_plan_layout(empty_builder(paths));
}

} // verus!
