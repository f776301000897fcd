use vstd::prelude::*;
use vstd::std_specs::cmp::PartialEqSpec;
use crate::non_empty::{elements_eq, lemma_pushed_all, pushed_all, NonEmptyVec, ValidationError};

verus! {

/// The text of an optional string, if it is present.
pub open spec fn opt_view(o: Option<String>) -> Option<Seq<char>> {
    match o {
        Some(s) => Some(s@),
        None => None,
    }
}

/// The views of the elements of `s`, in order.
pub open spec fn views<T: View>(s: Seq<T>) -> Seq<T::V> {
    s.map_values(|x: T| x@)
}

/// A flow node as plain values: its id and its optional name.
pub type NodeView = (Seq<char>, Option<Seq<char>>);

/// A sequence flow as plain values: id, name, source and target ids.
pub type FlowView = (Seq<char>, Option<Seq<char>>, Seq<char>, Seq<char>);

/// A process as plain values: id, name, then its start events, tasks,
/// gateways, end events and sequence flows, each in order.
pub type ProcessView = (
    Seq<char>,
    Option<Seq<char>>,
    Seq<NodeView>,
    Seq<NodeView>,
    Seq<NodeView>,
    Seq<NodeView>,
    Seq<FlowView>,
);

/// Whether two optional strings are both absent, or both present with the
/// same text.
fn opt_str_eq(a: &Option<String>, b: &Option<String>) -> (r: bool)
    ensures
        r == (opt_view(*a) == opt_view(*b)),
{
    match a {
        Some(x) => match b {
            Some(y) => *x == *y,
            None => false,
        },
        None => b.is_none(),
    }
}

/// A copy of an optional string.
fn clone_opt_str(o: &Option<String>) -> (r: Option<String>)
    ensures
        r == *o,
{
    match o {
        Some(x) => Some(x.clone()),
        None => None,
    }
}

/// Sequences of values whose equality agrees with equality of their views
/// are equal element by element exactly when their views are equal.
proof fn lemma_views_eq<T: View + PartialEqSpec>(a: Seq<T>, b: Seq<T>)
    requires
        forall|x: T, y: T| #[trigger] x.eq_spec(&y) <==> x@ == y@,
    ensures
        (a.len() == b.len() && forall|i: int| 0 <= i < a.len() ==> (#[trigger] a[i]).eq_spec(&b[i]))
            <==> views(a) == views(b),
{
    assert(views(a).len() == a.len() && views(b).len() == b.len());
    if views(a) == views(b) {
        assert forall|i: int| 0 <= i < a.len() implies (#[trigger] a[i]).eq_spec(&b[i]) by {
            assert(views(a)[i] == a[i]@ && views(b)[i] == b[i]@);
        }
    }
    if a.len() == b.len() && forall|i: int| 0 <= i < a.len() ==> (#[trigger] a[i]).eq_spec(&b[i]) {
        assert(views(a) =~= views(b));
    }
}

/// An event where a process starts.
#[derive(Debug, Eq)]
pub struct StartEvent {
    pub id: String,
    pub name: Option<String>,
}

impl View for StartEvent {
    type V = NodeView;

    open spec fn view(&self) -> NodeView {
        (self.id@, opt_view(self.name))
    }
}

impl Clone for StartEvent {
    /// An identical copy.
    fn clone(&self) -> (r: Self)
        ensures
            r == *self,
    {
        StartEvent { id: self.id.clone(), name: clone_opt_str(&self.name) }
    }
}

impl PartialEq for StartEvent {
    /// Equal ids and equal names.
    fn eq(&self, other: &Self) -> (r: bool) {
        self.id == other.id && opt_str_eq(&self.name, &other.name)
    }
}

impl vstd::std_specs::cmp::PartialEqSpecImpl for StartEvent {
    open spec fn obeys_eq_spec() -> bool {
        true
    }

    open spec fn eq_spec(&self, other: &Self) -> bool {
        self@ == other@
    }
}

/// A unit of work in a process.
#[derive(Debug, Eq)]
pub struct Task {
    pub id: String,
    pub name: Option<String>,
}

impl View for Task {
    type V = NodeView;

    open spec fn view(&self) -> NodeView {
        (self.id@, opt_view(self.name))
    }
}

impl Clone for Task {
    /// An identical copy.
    fn clone(&self) -> (r: Self)
        ensures
            r == *self,
    {
        Task { id: self.id.clone(), name: clone_opt_str(&self.name) }
    }
}

impl PartialEq for Task {
    /// Equal ids and equal names.
    fn eq(&self, other: &Self) -> (r: bool) {
        self.id == other.id && opt_str_eq(&self.name, &other.name)
    }
}

impl vstd::std_specs::cmp::PartialEqSpecImpl for Task {
    open spec fn obeys_eq_spec() -> bool {
        true
    }

    open spec fn eq_spec(&self, other: &Self) -> bool {
        self@ == other@
    }
}

/// A node where control flow branches or merges.
#[derive(Debug, Eq)]
pub struct Gateway {
    pub id: String,
    pub name: Option<String>,
}

impl View for Gateway {
    type V = NodeView;

    open spec fn view(&self) -> NodeView {
        (self.id@, opt_view(self.name))
    }
}

impl Clone for Gateway {
    /// An identical copy.
    fn clone(&self) -> (r: Self)
        ensures
            r == *self,
    {
        Gateway { id: self.id.clone(), name: clone_opt_str(&self.name) }
    }
}

impl PartialEq for Gateway {
    /// Equal ids and equal names.
    fn eq(&self, other: &Self) -> (r: bool) {
        self.id == other.id && opt_str_eq(&self.name, &other.name)
    }
}

impl vstd::std_specs::cmp::PartialEqSpecImpl for Gateway {
    open spec fn obeys_eq_spec() -> bool {
        true
    }

    open spec fn eq_spec(&self, other: &Self) -> bool {
        self@ == other@
    }
}

/// An event where a process ends.
#[derive(Debug, Eq)]
pub struct EndEvent {
    pub id: String,
    pub name: Option<String>,
}

impl View for EndEvent {
    type V = NodeView;

    open spec fn view(&self) -> NodeView {
        (self.id@, opt_view(self.name))
    }
}

impl Clone for EndEvent {
    /// An identical copy.
    fn clone(&self) -> (r: Self)
        ensures
            r == *self,
    {
        EndEvent { id: self.id.clone(), name: clone_opt_str(&self.name) }
    }
}

impl PartialEq for EndEvent {
    /// Equal ids and equal names.
    fn eq(&self, other: &Self) -> (r: bool) {
        self.id == other.id && opt_str_eq(&self.name, &other.name)
    }
}

impl vstd::std_specs::cmp::PartialEqSpecImpl for EndEvent {
    open spec fn obeys_eq_spec() -> bool {
        true
    }

    open spec fn eq_spec(&self, other: &Self) -> bool {
        self@ == other@
    }
}

/// A directed edge between two nodes of a process, referenced by id. The
/// ids are not checked against the nodes of the process.
#[derive(Debug, Eq)]
pub struct SequenceFlow {
    pub id: String,
    pub name: Option<String>,
    pub source_ref: String,
    pub target_ref: String,
}

impl View for SequenceFlow {
    type V = FlowView;

    open spec fn view(&self) -> FlowView {
        (self.id@, opt_view(self.name), self.source_ref@, self.target_ref@)
    }
}

impl Clone for SequenceFlow {
    /// An identical copy.
    fn clone(&self) -> (r: Self)
        ensures
            r == *self,
    {
        SequenceFlow {
            id: self.id.clone(),
            name: clone_opt_str(&self.name),
            source_ref: self.source_ref.clone(),
            target_ref: self.target_ref.clone(),
        }
    }
}

impl PartialEq for SequenceFlow {
    /// Equal ids, names, sources and targets.
    fn eq(&self, other: &Self) -> (r: bool) {
        self.id == other.id && opt_str_eq(&self.name, &other.name) && self.source_ref
            == other.source_ref && self.target_ref == other.target_ref
    }
}

impl vstd::std_specs::cmp::PartialEqSpecImpl for SequenceFlow {
    open spec fn obeys_eq_spec() -> bool {
        true
    }

    open spec fn eq_spec(&self, other: &Self) -> bool {
        self@ == other@
    }
}

/// A business process. It has at least one start event by construction:
/// `start_events` cannot be empty.
#[derive(Debug, Eq)]
pub struct Process {
    pub id: String,
    pub name: Option<String>,
    pub start_events: NonEmptyVec<StartEvent>,
    pub tasks: Vec<Task>,
    pub gateways: Vec<Gateway>,
    pub end_events: Vec<EndEvent>,
    pub sequence_flows: Vec<SequenceFlow>,
}

impl View for Process {
    type V = ProcessView;

    open spec fn view(&self) -> ProcessView {
        (
            self.id@,
            opt_view(self.name),
            views(self.start_events@),
            views(self.tasks@),
            views(self.gateways@),
            views(self.end_events@),
            views(self.sequence_flows@),
        )
    }
}

/// Clones of the elements of `a`, where a clone has the view of its
/// original, have the same views.
proof fn lemma_clones_same<T: Clone + View>(a: Seq<T>, b: Seq<T>)
    requires
        a.len() == b.len(),
        forall|i: int| 0 <= i < a.len() ==> cloned::<T>(a[i], #[trigger] b[i]),
        forall|x: T, y: T| #[trigger] cloned::<T>(x, y) ==> x@ == y@,
    ensures
        views(a) == views(b),
{
    assert forall|i: int| 0 <= i < a.len() implies views(a)[i] == views(b)[i] by {
        assert(cloned::<T>(a[i], b[i]));
    }
    assert(views(a) =~= views(b));
}

impl Clone for Process {
    /// A copy with the same values.
    fn clone(&self) -> (r: Self)
        ensures
            r@ == self@,
    {
        let r = Process {
            id: self.id.clone(),
            name: clone_opt_str(&self.name),
            start_events: self.start_events.clone(),
            tasks: self.tasks.clone(),
            gateways: self.gateways.clone(),
            end_events: self.end_events.clone(),
            sequence_flows: self.sequence_flows.clone(),
        };
        proof {
            lemma_clones_same(self.start_events@, r.start_events@);
            lemma_clones_same(self.tasks@, r.tasks@);
            lemma_clones_same(self.gateways@, r.gateways@);
            lemma_clones_same(self.end_events@, r.end_events@);
            lemma_clones_same(self.sequence_flows@, r.sequence_flows@);
        }
        r
    }
}

impl PartialEq for Process {
    /// Field by field; each collection element-wise and in order.
    fn eq(&self, other: &Self) -> (r: bool) {
        self.id == other.id && opt_str_eq(&self.name, &other.name) && self.start_events.elements_equal(
            &other.start_events,
        ) && self.tasks == other.tasks && self.gateways == other.gateways
            && self.end_events == other.end_events && self.sequence_flows == other.sequence_flows
    }
}

impl vstd::std_specs::cmp::PartialEqSpecImpl for Process {
    open spec fn obeys_eq_spec() -> bool {
        true
    }

    open spec fn eq_spec(&self, other: &Self) -> bool {
        &&& self.id@ == other.id@
        &&& opt_view(self.name) == opt_view(other.name)
        &&& elements_eq(self.start_events@, other.start_events@)
        &&& PartialEqSpec::eq_spec(&self.tasks, &other.tasks)
        &&& PartialEqSpec::eq_spec(&self.gateways, &other.gateways)
        &&& PartialEqSpec::eq_spec(&self.end_events, &other.end_events)
        &&& PartialEqSpec::eq_spec(&self.sequence_flows, &other.sequence_flows)
    }
}

/// Two processes are equal exactly when they have the same id and name and
/// the same start events, tasks, gateways, end events and sequence flows,
/// each in the same order.
pub proof fn lemma_process_equality(a: Process, b: Process)
    ensures
        a.eq_spec(&b) <==> a@ == b@,
{
    lemma_views_eq(a.start_events@, b.start_events@);
    lemma_views_eq(a.tasks@, b.tasks@);
    lemma_views_eq(a.gateways@, b.gateways@);
    lemma_views_eq(a.end_events@, b.end_events@);
    lemma_views_eq(a.sequence_flows@, b.sequence_flows@);
}

/// `a` and `b` agree in every field but their start events.
pub open spec fn same_but_start_events(a: Process, b: Process) -> bool {
    &&& a@.0 == b@.0
    &&& a@.1 == b@.1
    &&& a@.3 == b@.3
    &&& a@.4 == b@.4
    &&& a@.5 == b@.5
    &&& a@.6 == b@.6
}

/// Processes that agree in every other field, and whose start events were
/// built by `new` and then `push` of equal values in the same order, are
/// equal.
pub proof fn lemma_built_alike_equal(
    a: Process,
    b: Process,
    h1: StartEvent,
    ts1: Seq<StartEvent>,
    h2: StartEvent,
    ts2: Seq<StartEvent>,
)
    requires
        same_but_start_events(a, b),
        a.start_events@ == pushed_all(seq![h1], ts1),
        b.start_events@ == pushed_all(seq![h2], ts2),
        h1@ == h2@,
        views(ts1) == views(ts2),
    ensures
        a.eq_spec(&b),
{
    lemma_pushed_all(seq![h1], ts1);
    lemma_pushed_all(seq![h2], ts2);
    assert(views(ts1).len() == ts1.len() && views(ts2).len() == ts2.len());
    assert forall|i: int| 0 <= i < ts1.len() implies ts1[i]@ == ts2[i]@ by {
        assert(views(ts1)[i] == views(ts2)[i]);
    }
    assert(views(a.start_events@) =~= views(b.start_events@));
    lemma_process_equality(a, b);
}

/// Processes that agree in every other field, but whose start events are
/// `h, x, y` in one and `h, y, x` in the other, with `x` and `y` different,
/// are not equal.
pub proof fn lemma_reordered_start_events_unequal(
    a: Process,
    b: Process,
    h: StartEvent,
    x: StartEvent,
    y: StartEvent,
)
    requires
        same_but_start_events(a, b),
        a.start_events@ == pushed_all(seq![h], seq![x, y]),
        b.start_events@ == pushed_all(seq![h], seq![y, x]),
        x@ != y@,
    ensures
        !a.eq_spec(&b),
{
    lemma_pushed_all(seq![h], seq![x, y]);
    lemma_pushed_all(seq![h], seq![y, x]);
    lemma_process_equality(a, b);
    assert(a.start_events@[1] == x && b.start_events@[1] == y);
    assert(views(a.start_events@)[1] != views(b.start_events@)[1]);
}

/// A process in the shape of an external representation, where the start
/// events are a plain list that may be empty.
#[derive(Debug, Clone)]
pub struct ProcessRecord {
    pub id: String,
    pub name: Option<String>,
    pub start_events: Vec<StartEvent>,
    pub tasks: Vec<Task>,
    pub gateways: Vec<Gateway>,
    pub end_events: Vec<EndEvent>,
    pub sequence_flows: Vec<SequenceFlow>,
}

impl View for ProcessRecord {
    type V = ProcessView;

    open spec fn view(&self) -> ProcessView {
        (
            self.id@,
            opt_view(self.name),
            views(self.start_events@),
            views(self.tasks@),
            views(self.gateways@),
            views(self.end_events@),
            views(self.sequence_flows@),
        )
    }
}

/// What decoding the record `r` gives: `ValidationError::Empty` where it
/// has no start event, and otherwise a process of the same values.
pub open spec fn process_decodes_to(r: ProcessView, d: Result<Process, ValidationError>) -> bool {
    &&& r.2.len() == 0 <==> d is Err
    &&& d matches Err(e) ==> e == ValidationError::Empty
    &&& d matches Ok(p) ==> p@ == r
}

impl Process {
    /// The process holding the values of `r`, or `ValidationError::Empty`
    /// where `r` has no start event.
    pub fn try_from_record(r: ProcessRecord) -> (d: Result<Process, ValidationError>)
        ensures
            process_decodes_to(r@, d),
    {
        let ProcessRecord { id, name, start_events, tasks, gateways, end_events, sequence_flows } =
            r;
        match NonEmptyVec::try_from_vec(start_events) {
            Ok(start_events) => Ok(
                Process { id, name, start_events, tasks, gateways, end_events, sequence_flows },
            ),
            Err(e) => Err(e),
        }
    }

    /// The record holding the values of this process.
    pub fn into_record(self) -> (r: ProcessRecord)
        ensures
            r@ == self@,
    {
        let Process { id, name, start_events, tasks, gateways, end_events, sequence_flows } = self;
        let start_events = start_events.into_vec();
        ProcessRecord { id, name, start_events, tasks, gateways, end_events, sequence_flows }
    }
}

/// Encoding a process as a record and decoding that record succeeds and
/// gives back an equal process.
pub proof fn lemma_process_decode_encode(p: Process, e: ProcessView, d: Result<Process, ValidationError>)
    requires
        e == p@,
        process_decodes_to(e, d),
    ensures
        d matches Ok(q) && q@ == p@ && q.eq_spec(&p),
{
    p.start_events.lemma_non_empty();
    let q = d->Ok_0;
    lemma_process_equality(q, p);
}

/// Decoding a record with at least one start event succeeds, and encoding
/// the result gives back the same values; a record without start events is
/// rejected.
pub proof fn lemma_process_encode_decode(
    r: ProcessView,
    d: Result<Process, ValidationError>,
    e: ProcessView,
)
    requires
        process_decodes_to(r, d),
        d matches Ok(p) ==> e == p@,
    ensures
        r.2.len() > 0 ==> (d is Ok && e == r),
        r.2.len() == 0 ==> d == Err::<Process, ValidationError>(ValidationError::Empty),
{
}

/// A document as plain values: name, target namespace, and its processes
/// in order.
pub type DefinitionsView = (Option<Seq<char>>, Option<Seq<char>>, Seq<ProcessView>);

/// The root of a BPMN document: an optional name and target namespace, and
/// the processes it holds, in order.
#[derive(Debug, Eq)]
pub struct Definitions {
    pub name: Option<String>,
    pub target_namespace: Option<String>,
    pub processes: Vec<Process>,
}

impl View for Definitions {
    type V = DefinitionsView;

    open spec fn view(&self) -> DefinitionsView {
        (opt_view(self.name), opt_view(self.target_namespace), views(self.processes@))
    }
}

impl Clone for Definitions {
    /// A copy with the same values.
    fn clone(&self) -> (r: Self)
        ensures
            r@ == self@,
    {
        let r = Definitions {
            name: clone_opt_str(&self.name),
            target_namespace: clone_opt_str(&self.target_namespace),
            processes: self.processes.clone(),
        };
        proof {
            lemma_clones_same(self.processes@, r.processes@);
        }
        r
    }
}

impl PartialEq for Definitions {
    /// Equal names and namespaces, and equal processes in the same order.
    fn eq(&self, other: &Self) -> (r: bool) {
        opt_str_eq(&self.name, &other.name) && opt_str_eq(
            &self.target_namespace,
            &other.target_namespace,
        ) && self.processes == other.processes
    }
}

impl vstd::std_specs::cmp::PartialEqSpecImpl for Definitions {
    open spec fn obeys_eq_spec() -> bool {
        true
    }

    open spec fn eq_spec(&self, other: &Self) -> bool {
        &&& opt_view(self.name) == opt_view(other.name)
        &&& opt_view(self.target_namespace) == opt_view(other.target_namespace)
        &&& PartialEqSpec::eq_spec(&self.processes, &other.processes)
    }
}

/// Two documents are equal exactly when they have the same name, the same
/// target namespace, and equal processes in the same order.
pub proof fn lemma_definitions_equality(a: Definitions, b: Definitions)
    ensures
        a.eq_spec(&b) <==> a@ == b@,
{
    assert forall|x: Process, y: Process| #[trigger] x.eq_spec(&y) <==> x@ == y@ by {
        lemma_process_equality(x, y);
    }
    lemma_views_eq(a.processes@, b.processes@);
}

/// A document in the shape of an external representation, whose processes
/// are records with plain lists of start events.
#[derive(Debug, Clone)]
pub struct DefinitionsRecord {
    pub name: Option<String>,
    pub target_namespace: Option<String>,
    pub processes: Vec<ProcessRecord>,
}

impl View for DefinitionsRecord {
    type V = DefinitionsView;

    open spec fn view(&self) -> DefinitionsView {
        (opt_view(self.name), opt_view(self.target_namespace), views(self.processes@))
    }
}

/// Every process of the document has at least one start event.
pub open spec fn all_have_start(r: DefinitionsView) -> bool {
    forall|i: int| 0 <= i < r.2.len() ==> (#[trigger] r.2[i]).2.len() > 0
}

/// What decoding the document `r` gives: `ValidationError::Empty` where one
/// of its processes has no start event, and otherwise a document of the same
/// values.
pub open spec fn definitions_decode_to(
    r: DefinitionsView,
    d: Result<Definitions, ValidationError>,
) -> bool {
    &&& all_have_start(r) <==> d is Ok
    &&& d matches Err(e) ==> e == ValidationError::Empty
    &&& d matches Ok(x) ==> x@ == r
}

impl Definitions {
    /// The document holding the values of `r`, or `ValidationError::Empty`
    /// where one of its processes has no start event.
    pub fn try_from_record(r: DefinitionsRecord) -> (d: Result<Definitions, ValidationError>)
        ensures
            definitions_decode_to(r@, d),
    {
        let ghost rs = r.processes@;
        let DefinitionsRecord { name, target_namespace, processes: records } = r;
        let mut processes: Vec<Process> = Vec::new();
        for rec in it: records.into_iter()
            invariant
                it.seq() == rs,
                rs == r.processes@,
                processes@.len() == it.index(),
                forall|j: int| 0 <= j < it.index() ==> (#[trigger] processes@[j])@ == rs[j]@,
                forall|j: int| 0 <= j < it.index() ==> (#[trigger] rs[j]@).2.len() > 0,
        {
            let ghost k = it.index() as int;
            assert(rec == rs[k]);
            match Process::try_from_record(rec) {
                Ok(p) => {
                    proof {
                        p.start_events.lemma_non_empty();
                    }
                    processes.push(p);
                },
                Err(e) => {
                    proof {
                        assert(r@.2[k] == rs[k]@);
                        assert(!all_have_start(r@));
                    }
                    return Err(e);
                },
            }
        }
        let d = Definitions { name, target_namespace, processes };
        assert(views(processes@) =~= views(rs));
        assert forall|i: int| 0 <= i < r@.2.len() implies (#[trigger] r@.2[i]).2.len() > 0 by {
            assert(r@.2[i] == rs[i]@);
        }
        Ok(d)
    }

    /// The record holding the values of this document.
    pub fn into_record(self) -> (r: DefinitionsRecord)
        ensures
            r@ == self@,
    {
        let Definitions { name, target_namespace, processes } = self;
        let ghost ps = processes@;
        let mut records: Vec<ProcessRecord> = Vec::new();
        for p in it: processes.into_iter()
            invariant
                it.seq() == ps,
                records@.len() == it.index(),
                forall|j: int| 0 <= j < it.index() ==> (#[trigger] records@[j])@ == ps[j]@,
        {
            records.push(p.into_record());
        }
        let r = DefinitionsRecord { name, target_namespace, processes: records };
        assert(views(records@) =~= views(ps));
        r
    }
}

/// Encoding a document as a record and decoding that record succeeds and
/// gives back an equal document.
pub proof fn lemma_definitions_decode_encode(
    x: Definitions,
    e: DefinitionsView,
    d: Result<Definitions, ValidationError>,
)
    requires
        e == x@,
        definitions_decode_to(e, d),
    ensures
        d matches Ok(y) && y@ == x@ && y.eq_spec(&x),
{
    assert forall|i: int| 0 <= i < e.2.len() implies (#[trigger] e.2[i]).2.len() > 0 by {
        x.processes@[i].start_events.lemma_non_empty();
    }
    lemma_definitions_equality(d->Ok_0, x);
}

/// Decoding a document whose processes all have a start event succeeds, and
/// encoding the result gives back the same values; any other document is
/// rejected.
pub proof fn lemma_definitions_encode_decode(
    r: DefinitionsView,
    d: Result<Definitions, ValidationError>,
    e: DefinitionsView,
)
    requires
        definitions_decode_to(r, d),
        d matches Ok(x) ==> e == x@,
    ensures
        all_have_start(r) ==> (d is Ok && e == r),
        !all_have_start(r) ==> d == Err::<Definitions, ValidationError>(ValidationError::Empty),
{
}

} // verus!
