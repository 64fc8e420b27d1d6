//! Queries: which kinds to fetch, in which scope, and which records to keep.
use crate::constant::{ANNOTATION_QUERY, LABEL_QUERY, NAMESPACE_QUERY};
use crate::error::{KubeQueryError, KubeQueryResult};
use crate::matcher::{meets, query_match};
use crate::resource::Resource;
use crate::resource_collection::ResourceCollection;
use crate::resource_type::ResourceType;
use serde_json::Value;
use crate::text::{is_word, lowercase, to_lowercase};
use vstd::prelude::*;
use vstd::string::*;

verus! {

/// Where in a record a filter looks.
#[derive(Debug, Clone)]
pub enum PathMatch {
    Namespace,
    Annotation,
    Label,
    Query(String),
    Empty,
}

/// A `PathMatch` with its text as a sequence of characters.
pub enum PathMatchView {
    Namespace,
    Annotation,
    Label,
    Query(Seq<char>),
    Empty,
}

impl View for PathMatch {
    type V = PathMatchView;

    open spec fn view(&self) -> PathMatchView {
        match self {
            PathMatch::Namespace => PathMatchView::Namespace,
            PathMatch::Annotation => PathMatchView::Annotation,
            PathMatch::Label => PathMatchView::Label,
            PathMatch::Query(q) => PathMatchView::Query(q@),
            PathMatch::Empty => PathMatchView::Empty,
        }
    }
}

impl PathMatchView {
    /// The path expression that this stands for: a fixed one for each of the
    /// three keywords, the text itself for `Query`, and the empty text for
    /// `Empty`.
    pub open spec fn path(self) -> Seq<char> {
        match self {
            PathMatchView::Namespace => NAMESPACE_QUERY@,
            PathMatchView::Annotation => ANNOTATION_QUERY@,
            PathMatchView::Label => LABEL_QUERY@,
            PathMatchView::Query(q) => q,
            PathMatchView::Empty => ""@,
        }
    }

    /// What a key means, given the key and its lower-case form: one of the
    /// three keywords in any case, nothing for the empty text, and otherwise
    /// the key itself, unchanged, as a path expression.
    pub open spec fn of_lowercase(lower: Seq<char>, key: Seq<char>) -> PathMatchView {
        if lower == "annotation"@ {
            PathMatchView::Annotation
        } else if lower == "namespace"@ {
            PathMatchView::Namespace
        } else if lower == "label"@ {
            PathMatchView::Label
        } else if lower == ""@ {
            PathMatchView::Empty
        } else {
            PathMatchView::Query(key)
        }
    }

    /// What a key means, whatever its case.
    pub open spec fn of_key(key: Seq<char>) -> PathMatchView {
        Self::of_lowercase(lowercase(key), key)
    }
}

impl PathMatch {
    /// What `key` means, given its lower-case form `lower`.
    pub fn of_lowercase(lower: &String, key: &str) -> (m: PathMatch)
        ensures
            m@ == PathMatchView::of_lowercase(lower@, key@),
    {
        if is_word(lower, "annotation") {
            PathMatch::Annotation
        } else if is_word(lower, "namespace") {
            PathMatch::Namespace
        } else if is_word(lower, "label") {
            PathMatch::Label
        } else if is_word(lower, "") {
            PathMatch::Empty
        } else {
            PathMatch::Query(String::from_str(key))
        }
    }

    /// The path expression that this stands for.
    pub fn to_string(&self) -> (path: String)
        ensures
            path@ == self@.path(),
    {
        match self {
            PathMatch::Namespace => String::from_str(NAMESPACE_QUERY),
            PathMatch::Annotation => String::from_str(ANNOTATION_QUERY),
            PathMatch::Label => String::from_str(LABEL_QUERY),
            PathMatch::Query(q) => q.clone(),
            PathMatch::Empty => String::from_str(""),
        }
    }
}

impl<'a> From<&'a str> for PathMatch {
    /// What `key` means as the key of a filter. Every text gives a value.
    fn from(key: &'a str) -> (m: Self)
        ensures
            m@ == PathMatchView::of_key(key@),
    {
        let lower = to_lowercase(key);
        PathMatch::of_lowercase(&lower, key)
    }
}

/// What this conversion gives is stated on `from` itself: a path expression
/// is held as a `String`, which cannot be written down as a mathematical
/// value.
impl<'a> vstd::std_specs::convert::FromSpecImpl<&'a str> for PathMatch {
    open spec fn obeys_from_spec() -> bool {
        false
    }

    open spec fn from_spec(key: &'a str) -> Self {
        arbitrary()
    }
}

/// One predicate on a record: the value found at `key` must be `value`, or,
/// where no value is given, must be there and not be empty.
#[derive(Debug, Clone)]
pub struct FilterMatch {
    pub key: PathMatch,
    pub value: Option<String>,
}

/// A `FilterMatch` with its texts as sequences of characters.
pub struct FilterMatchView {
    pub key: PathMatchView,
    pub value: Option<Seq<char>>,
}

impl View for FilterMatch {
    type V = FilterMatchView;

    open spec fn view(&self) -> FilterMatchView {
        FilterMatchView { key: self.key@, value: text_of(self.value) }
    }
}

/// The characters of an optional text.
pub open spec fn text_of(text: Option<String>) -> Option<Seq<char>> {
    match text {
        Some(s) => Some(s@),
        None => None,
    }
}

/// A predicate on the annotations of a record.
#[derive(Clone)]
pub struct AnnotationFilter {
    pub key: String,
    pub value: Option<String>,
}

/// Which kinds to fetch, in which scope, and which records to keep.
#[derive(Clone)]
pub struct ResourceQuery {
    /// The kinds to fetch, in the order in which their records are wanted.
    /// A kind may occur more than once.
    pub resource: Vec<ResourceType>,
    /// The predicates that a record must all meet.
    pub filter: Vec<FilterMatch>,
    /// The namespace to list in; all namespaces where there is none.
    pub namespace: Option<String>,
    /// The exact name that a record must have, if any.
    pub name: Option<String>,
}

/// A `ResourceQuery` as mathematical values.
pub struct ResourceQueryView {
    pub resource: Seq<ResourceType>,
    pub filter: Seq<FilterMatchView>,
    pub namespace: Option<Seq<char>>,
    pub name: Option<Seq<char>>,
}

impl View for ResourceQuery {
    type V = ResourceQueryView;

    open spec fn view(&self) -> ResourceQueryView {
        ResourceQueryView {
            resource: self.resource@,
            filter: Seq::new(self.filter@.len(), |i: int| self.filter@[i]@),
            namespace: text_of(self.namespace),
            name: text_of(self.name),
        }
    }
}

impl ResourceQueryView {
    /// The key under which a filter is kept: the annotation and label
    /// keywords are replaced by their path expressions, every other key is
    /// kept as it is.
    pub open spec fn stored_key(key: PathMatchView) -> PathMatchView {
        match key {
            PathMatchView::Annotation => PathMatchView::Query(ANNOTATION_QUERY@),
            PathMatchView::Label => PathMatchView::Query(LABEL_QUERY@),
            other => other,
        }
    }

    /// What a given key means; no key means no path.
    pub open spec fn key_of(key: Option<Seq<char>>) -> PathMatchView {
        match key {
            Some(k) => PathMatchView::of_key(k),
            None => PathMatchView::Empty,
        }
    }

    /// The query with one more filter. A filter on the namespace that gives a
    /// value also makes that value the namespace to list in; the filter is
    /// kept all the same.
    pub open spec fn with_filter(self, key: Option<Seq<char>>, value: Option<Seq<char>>) -> ResourceQueryView {
        let meant = Self::key_of(key);
        ResourceQueryView {
            resource: self.resource,
            filter: self.filter.push(FilterMatchView { key: Self::stored_key(meant), value }),
            namespace: if meant is Namespace && value is Some {
                value
            } else {
                self.namespace
            },
            name: self.name,
        }
    }
}

impl ResourceQuery {
    /// Replaces the kinds to fetch by `resource`, each item converted to a
    /// kind, in the order given. Nothing of the earlier selection stays.
    pub fn select<T: Into<ResourceType>>(&mut self, resource: Vec<T>) -> (same: &mut Self)
        ensures
            *final(self) == *final(same),
            same@.resource.len() == resource@.len(),
            forall|i: int|
                0 <= i < resource@.len() ==> call_ensures(
                    <T as Into<ResourceType>>::into,
                    (resource@[i],),
                    #[trigger] same@.resource[i],
                ),
            same@.filter == old(self)@.filter,
            same@.namespace == old(self)@.namespace,
            same@.name == old(self)@.name,
    {
        let mut kinds: Vec<ResourceType> = Vec::new();
        let ghost all = resource@;
        for item in it: resource
            invariant
                it.seq() == all,
                kinds@.len() == it.index(),
                forall|j: int|
                    0 <= j < kinds@.len() ==> call_ensures(
                        <T as Into<ResourceType>>::into,
                        (all[j],),
                        #[trigger] kinds@[j],
                    ),
        {
            let kind: ResourceType = item.into();
            kinds.push(kind);
        }
        self.resource = kinds;
        self
    }

    /// Adds one filter, made of `key` and `value`.
    pub fn filter(&mut self, key: Option<String>, value: Option<String>) -> (same: &mut Self)
        ensures
            *final(self) == *final(same),
            same@ == old(self)@.with_filter(text_of(key), text_of(value)),
    {
        let meant = match key {
            None => PathMatch::Empty,
            Some(s) => PathMatch::from(s.as_str()),
        };
        let stored = match meant {
            PathMatch::Namespace => {
                if let Some(ns) = &value {
                    self.namespace = Some(ns.clone());
                }
                PathMatch::Namespace
            },
            PathMatch::Annotation => PathMatch::Query(String::from_str(ANNOTATION_QUERY)),
            PathMatch::Label => PathMatch::Query(String::from_str(LABEL_QUERY)),
            other => other,
        };
        let ghost before = self@.filter;
        self.filter.push(FilterMatch { key: stored, value });
        assert(self@.filter =~= before.push(self.filter@[self.filter@.len() - 1]@));
        self
    }
}

impl Default for ResourceQuery {
    /// The query for the eight common kinds, with no filter and no scope.
    fn default() -> (q: Self)
        ensures
            q@.resource == seq![
                ResourceType::Gateway,
                ResourceType::VirtualService,
                ResourceType::Service,
                ResourceType::Ingress,
                ResourceType::Namespace,
                ResourceType::Pod,
                ResourceType::Deployment,
                ResourceType::CronJob,
            ],
            q@.filter == Seq::<FilterMatchView>::empty(),
            q@.namespace is None,
            q@.name is None,
    {
        let mut resource: Vec<ResourceType> = Vec::new();
        resource.push(ResourceType::Gateway);
        resource.push(ResourceType::VirtualService);
        resource.push(ResourceType::Service);
        resource.push(ResourceType::Ingress);
        resource.push(ResourceType::Namespace);
        resource.push(ResourceType::Pod);
        resource.push(ResourceType::Deployment);
        resource.push(ResourceType::CronJob);
        let q = ResourceQuery { resource, filter: Vec::new(), namespace: None, name: None };
        assert(q@.resource =~= seq![
            ResourceType::Gateway,
            ResourceType::VirtualService,
            ResourceType::Service,
            ResourceType::Ingress,
            ResourceType::Namespace,
            ResourceType::Pod,
            ResourceType::Deployment,
            ResourceType::CronJob,
        ]);
        assert(q@.filter =~= Seq::<FilterMatchView>::empty());
        q
    }
}

/// A copy of an optional text.
pub fn copy_text(text: &Option<String>) -> (copy: Option<String>)
    ensures
        text_of(copy) == text_of(*text),
{
    match text {
        Some(s) => Some(s.clone()),
        None => None,
    }
}

/// Where a fetch lists: in one namespace or in all, and with what selector
/// on the records' fields.
pub struct ListScope {
    pub namespace: Option<String>,
    pub field_selector: Option<String>,
}

/// A fetched record with what resolving each filter's path on it gave, in the
/// order of the filters.
pub struct Candidate<K> {
    pub record: K,
    pub found: Vec<KubeQueryResult<Value>>,
}

/// How far a query has come: the position in the list of kinds of the kind
/// that is fetched next, and the records gathered so far.
pub struct QueryRun {
    pub next: usize,
    pub gathered: ResourceCollection,
}

/// The selector that asks for the record with exactly the given name.
pub open spec fn name_selector(name: Seq<char>) -> Seq<char> {
    "metadata.name="@ + name
}

/// Whether a record meets every filter, given what resolving each filter's
/// path on it gave. A filter for which nothing was resolved is not met. With
/// no filter, every record passes.
pub open spec fn passes(filters: Seq<FilterMatchView>, found: Seq<KubeQueryResult<Value>>) -> bool {
    forall|i: int|
        0 <= i < filters.len() ==> i < found.len() && meets(
            found[i],
            (#[trigger] filters[i]).value,
        )
}

/// The records of the candidates that pass every filter, in the candidates'
/// order.
pub open spec fn admitted<K>(filters: Seq<FilterMatchView>, candidates: Seq<Candidate<K>>) -> Seq<
    K,
>
    decreases candidates.len(),
{
    if candidates.len() == 0 {
        Seq::empty()
    } else {
        let earlier = admitted(filters, candidates.drop_last());
        if passes(filters, candidates.last().found@) {
            earlier.push(candidates.last().record)
        } else {
            earlier
        }
    }
}

/// The position of the first kind at or after `from` that is fetched, which
/// is every kind but `DynamicObject`; the length of the list where there is
/// none.
pub open spec fn next_fetched(kinds: Seq<ResourceType>, from: int) -> int
    decreases kinds.len() - from,
{
    if from < 0 || from >= kinds.len() {
        from
    } else if kinds[from] != ResourceType::DynamicObject {
        from
    } else {
        next_fetched(kinds, from + 1)
    }
}

/// What the fetch for one kind adds to the result: its records where it
/// succeeded, nothing where it failed, and nothing for `DynamicObject`, which
/// is never fetched.
pub open spec fn contribution(
    kind: ResourceType,
    fetched: KubeQueryResult<ResourceCollection>,
) -> Seq<Resource> {
    match fetched {
        Ok(records) if kind != ResourceType::DynamicObject => records@,
        _ => Seq::empty(),
    }
}

/// The result of a query over `kinds`, given the outcomes of the fetches in
/// the order in which they were made: one for each kind but `DynamicObject`.
/// The records come in the order of the kinds, and within a kind in the order
/// in which they were fetched. A kind for which there is no outcome adds
/// nothing.
pub open spec fn merged(
    kinds: Seq<ResourceType>,
    fetched: Seq<KubeQueryResult<ResourceCollection>>,
) -> Seq<Resource>
    decreases kinds.len(),
{
    if kinds.len() == 0 || fetched.len() == 0 {
        Seq::empty()
    } else if kinds[0] == ResourceType::DynamicObject {
        merged(kinds.skip(1), fetched)
    } else {
        contribution(kinds[0], fetched[0]) + merged(kinds.skip(1), fetched.skip(1))
    }
}

/// Kinds that are not fetched can be left out in front.
pub proof fn lemma_merged_skips(
    kinds: Seq<ResourceType>,
    fetched: Seq<KubeQueryResult<ResourceCollection>>,
    from: int,
)
    requires
        0 <= from <= kinds.len(),
    ensures
        from <= next_fetched(kinds, from) <= kinds.len(),
        next_fetched(kinds, from) < kinds.len() ==> kinds[next_fetched(kinds, from)]
            != ResourceType::DynamicObject,
        merged(kinds.skip(from), fetched) == merged(
            kinds.skip(next_fetched(kinds, from)),
            fetched,
        ),
    decreases kinds.len() - from,
{
    if from < kinds.len() && kinds[from] == ResourceType::DynamicObject {
        lemma_merged_skips(kinds, fetched, from + 1);
        assert(kinds.skip(from).skip(1) =~= kinds.skip(from + 1));
    }
}

impl ResourceQuery {
    /// The scope of every fetch of this query: the namespace, if one is set,
    /// and a selector for the exact name, if one is set.
    pub fn scope(&self) -> (scope: ListScope)
        ensures
            text_of(scope.namespace) == self@.namespace,
            text_of(scope.field_selector) == match self@.name {
                Some(name) => Some(name_selector(name)),
                None => None,
            },
    {
        let field_selector = match &self.name {
            Some(name) => Some(String::from_str("metadata.name=").concat(name.as_str())),
            None => None,
        };
        ListScope { namespace: copy_text(&self.namespace), field_selector }
    }

    /// The path expression of each filter, in the order of the filters.
    pub fn paths(&self) -> (paths: Vec<String>)
        ensures
            paths@.len() == self@.filter.len(),
            forall|i: int| 0 <= i < paths@.len() ==> (#[trigger] paths@[i])@ == self@.filter[i].key.path(),
    {
        let mut paths: Vec<String> = Vec::new();
        let mut i: usize = 0;
        while i < self.filter.len()
            invariant
                i <= self.filter@.len(),
                paths@.len() == i,
                forall|j: int| 0 <= j < i ==> (#[trigger] paths@[j])@ == self@.filter[j].key.path(),
            decreases self.filter@.len() - i,
        {
            paths.push(self.filter[i].key.to_string());
            i = i + 1;
        }
        paths
    }

    /// Whether a record meets every filter of this query, given what
    /// resolving each filter's path on the record gave.
    pub fn passes(&self, found: Vec<KubeQueryResult<Value>>) -> (b: bool)
        ensures
            b == passes(self@.filter, found@),
    {
        let n = self.filter.len();
        if found.len() < n {
            assert(!passes(self@.filter, found@)) by {
                let short = self@.filter[found@.len() as int];
            }
            return false;
        }
        let ghost all = found@;
        let total = found.len();
        let mut met = true;
        let mut i: usize = 0;
        for item in it: found
            invariant
                it.seq() == all,
                i == it.index(),
                n == self.filter@.len(),
                n <= all.len() == total,
                met == (forall|j: int|
                    0 <= j < i && j < n ==> meets(all[j], (#[trigger] self@.filter[j]).value)),
        {
            assert(item == all[i as int]);
            if i < n {
                let pattern = copy_text(&self.filter[i].value);
                assert(text_of(pattern) == self@.filter[i as int].value);
                if !query_match(item, pattern) {
                    met = false;
                }
            }
            i = i + 1;
        }
        met
    }

    /// The records of the candidates that meet every filter of this query, in
    /// the candidates' order.
    pub fn retain<K>(&self, candidates: Vec<Candidate<K>>) -> (kept: Vec<K>)
        ensures
            kept@ == admitted(self@.filter, candidates@),
    {
        let mut kept: Vec<K> = Vec::new();
        let ghost all = candidates@;
        for candidate in it: candidates
            invariant
                it.seq() == all,
                kept@ == admitted(self@.filter, all.take(it.index())),
        {
            proof {
                let at = it.index();
                assert(all.take(at + 1).drop_last() =~= all.take(at));
                assert(all.take(at + 1).last() == candidate);
            }
            let Candidate { record, found } = candidate;
            if self.passes(found) {
                kept.push(record);
            }
        }
        assert(all.take(all.len() as int) =~= all);
        kept
    }

    /// Starts a query, given how connecting to the cluster went. A query can
    /// only start on a connection; without one it fails, with the error of
    /// the connection.
    pub fn begin<C>(&self, connected: Result<C, kube::Error>) -> (started: KubeQueryResult<
        (C, QueryRun),
    >)
        ensures
            match connected {
                Ok(client) => started matches Ok((c, run)) && c == client && run.next == 0
                    && run.gathered@ == Seq::<Resource>::empty(),
                Err(e) => started matches Err(KubeQueryError::KubeError(cause)) && cause == e,
            },
    {
        match connected {
            Ok(client) => Ok((client, QueryRun { next: 0, gathered: ResourceCollection::default() })),
            Err(e) => Err(KubeQueryError::from(e)),
        }
    }

    /// The kind to fetch next, if any is left. Kinds that are not fetched are
    /// passed over.
    pub fn pending(&self, run: &mut QueryRun) -> (kind: Option<ResourceType>)
        ensures
            final(run).gathered == old(run).gathered,
            final(run).next == next_fetched(self@.resource, old(run).next as int),
            kind == if final(run).next < self@.resource.len() {
                Some(self@.resource[final(run).next as int])
            } else {
                None
            },
    {
        while run.next < self.resource.len() && self.resource[run.next] == ResourceType::DynamicObject
            invariant
                run.gathered == old(run).gathered,
                next_fetched(self@.resource, run.next as int) == next_fetched(
                    self@.resource,
                    old(run).next as int,
                ),
            decreases self.resource@.len() - run.next,
        {
            run.next = run.next + 1;
        }
        if run.next < self.resource.len() {
            Some(self.resource[run.next])
        } else {
            None
        }
    }

    /// Takes in the outcome of the fetch for the kind that is next, and moves
    /// on to the kind after it. A fetch that failed adds nothing, and the
    /// query goes on. Once every kind has had its turn, nothing changes any
    /// more.
    pub fn absorb(&self, run: &mut QueryRun, fetched: KubeQueryResult<ResourceCollection>)
        ensures
            old(run).next < self@.resource.len() ==> {
                &&& final(run).next == old(run).next + 1
                &&& final(run).gathered@ == old(run).gathered@ + contribution(
                    self@.resource[old(run).next as int],
                    fetched,
                )
            },
            old(run).next >= self@.resource.len() ==> *final(run) == *old(run),
    {
        if run.next < self.resource.len() {
            let kind = self.resource[run.next];
            run.next = run.next + 1;
            match fetched {
                Ok(records) => {
                    if kind != ResourceType::DynamicObject {
                        run.gathered.concat(records);
                    } else {
                        assert(run.gathered@ =~= run.gathered@ + Seq::<Resource>::empty());
                    }
                },
                Err(_) => {
                    assert(run.gathered@ =~= run.gathered@ + Seq::<Resource>::empty());
                },
            }
        }
    }

    /// The result of the whole query, given how connecting went and the
    /// outcomes of the fetches, one for each kind that is fetched, in the
    /// order of the kinds. Only a failed connection makes the query fail.
    pub fn query(
        &self,
        connected: Result<(), kube::Error>,
        fetched: Vec<KubeQueryResult<ResourceCollection>>,
    ) -> (result: KubeQueryResult<ResourceCollection>)
        ensures
            match connected {
                Ok(_) => result matches Ok(records) && records@ == merged(self@.resource, fetched@),
                Err(e) => result matches Err(KubeQueryError::KubeError(cause)) && cause == e,
            },
    {
        let mut run = match self.begin(connected) {
            Ok((_, run)) => run,
            Err(e) => {
                return Err(e);
            },
        };
        let ghost kinds = self@.resource;
        let ghost all = fetched@;
        assert(kinds.skip(0) =~= kinds && all.skip(0) =~= all);
        for outcome in it: fetched
            invariant
                it.seq() == all,
                kinds == self@.resource,
                run.next <= kinds.len(),
                run.gathered@ + merged(kinds.skip(run.next as int), all.skip(it.index())) == merged(
                    kinds,
                    all,
                ),
        {
            let ghost at = it.index();
            let ghost before = run;
            proof {
                lemma_merged_skips(kinds, all.skip(at), run.next as int);
            }
            match self.pending(&mut run) {
                Some(kind) => {
                    self.absorb(&mut run, outcome);
                    proof {
                        let rest = kinds.skip(run.next as int - 1);
                        assert(rest.skip(1) =~= kinds.skip(run.next as int));
                        assert(all.skip(at).skip(1) =~= all.skip(at + 1));
                        assert(run.gathered@ + merged(kinds.skip(run.next as int), all.skip(at + 1))
                            =~= before.gathered@ + merged(rest, all.skip(at)));
                    }
                },
                None => {},
            }
        }
        Ok(run.gathered)
    }
}

/// The three keywords and the empty key mean what their names say.
pub proof fn law_keys()
    ensures
        PathMatchView::of_lowercase("annotation"@, "annotation"@) == PathMatchView::Annotation,
        PathMatchView::of_lowercase("namespace"@, "namespace"@) == PathMatchView::Namespace,
        PathMatchView::of_lowercase("label"@, "label"@) == PathMatchView::Label,
        PathMatchView::of_lowercase(""@, ""@) == PathMatchView::Empty,
{
    reveal_strlit("annotation");
    reveal_strlit("namespace");
    reveal_strlit("label");
    reveal_strlit("");
    assert("annotation"@.len() == 10);
    assert("namespace"@.len() == 9);
    assert("label"@.len() == 5);
    assert(""@.len() == 0);
}

/// A key whose lower-case form is none of the keywords and is not empty is
/// kept as a path expression, in the case in which it was given.
pub proof fn law_other_keys(key: Seq<char>)
    requires
        lowercase(key) != "annotation"@,
        lowercase(key) != "namespace"@,
        lowercase(key) != "label"@,
        lowercase(key) != ""@,
    ensures
        PathMatchView::of_key(key) == PathMatchView::Query(key),
        PathMatchView::of_key(key).path() == key,
{
}

/// A filter on the namespace with a value is applied twice: the value
/// becomes the namespace to list in, and the filter itself is kept, so that
/// each record's own namespace is compared with the value as well.
pub proof fn law_namespace_filter(query: ResourceQueryView, key: Seq<char>, value: Seq<char>)
    requires
        PathMatchView::of_key(key) is Namespace,
    ensures
        query.with_filter(Some(key), Some(value)).namespace == Some(value),
        query.with_filter(Some(key), Some(value)).filter == query.filter.push(
            FilterMatchView { key: PathMatchView::Namespace, value: Some(value) },
        ),
        PathMatchView::Namespace.path() == NAMESPACE_QUERY@,
{
}

/// A filter on any other key leaves the namespace to list in as it was.
pub proof fn law_other_filter(query: ResourceQueryView, key: Option<Seq<char>>, value: Option<Seq<char>>)
    requires
        !(ResourceQueryView::key_of(key) is Namespace),
    ensures
        query.with_filter(key, value).namespace == query.namespace,
        query.with_filter(key, value).filter.len() == query.filter.len() + 1,
{
}

/// With no filter, every record passes, whatever was resolved on it.
pub proof fn law_no_filter(found: Seq<KubeQueryResult<Value>>)
    ensures
        passes(Seq::<FilterMatchView>::empty(), found),
{
}

/// A record passes a list of filters and one more exactly where it passes
/// the list and meets the one more.
pub proof fn law_conjunction(
    filters: Seq<FilterMatchView>,
    last: FilterMatchView,
    found: Seq<KubeQueryResult<Value>>,
)
    ensures
        passes(filters.push(last), found) <==> {
            &&& passes(filters, found)
            &&& filters.len() < found.len()
            &&& meets(found[filters.len() as int], last.value)
        },
{
    let more = filters.push(last);
    if passes(more, found) {
        assert forall|i: int| 0 <= i < filters.len() implies i < found.len() && meets(
            found[i],
            (#[trigger] filters[i]).value,
        ) by {
            assert(more[i] == filters[i]);
        }
        assert(more[filters.len() as int] == last);
    }
    if passes(filters, found) && filters.len() < found.len() && meets(
        found[filters.len() as int],
        last.value,
    ) {
        assert forall|i: int| 0 <= i < more.len() implies i < found.len() && meets(
            found[i],
            (#[trigger] more[i]).value,
        ) by {
            if i < filters.len() {
                assert(more[i] == filters[i]);
            }
        }
    }
}

/// A fetch that failed adds nothing, and the fetches after it count as
/// before: the result is that of the other kinds and their outcomes.
pub proof fn law_failed_fetch(
    kinds: Seq<ResourceType>,
    fetched: Seq<KubeQueryResult<ResourceCollection>>,
)
    requires
        kinds.len() > 0,
        fetched.len() > 0,
        kinds[0] != ResourceType::DynamicObject,
        fetched[0] is Err,
    ensures
        merged(kinds, fetched) == merged(kinds.skip(1), fetched.skip(1)),
{
    assert(Seq::<Resource>::empty() + merged(kinds.skip(1), fetched.skip(1)) =~= merged(
        kinds.skip(1),
        fetched.skip(1),
    ));
}

/// The records of the first kind come first, in their order, and the records
/// of the later kinds after them.
pub proof fn law_kind_order(
    kinds: Seq<ResourceType>,
    fetched: Seq<KubeQueryResult<ResourceCollection>>,
)
    requires
        kinds.len() > 0,
        fetched.len() > 0,
        kinds[0] != ResourceType::DynamicObject,
    ensures
        merged(kinds, fetched) == contribution(kinds[0], fetched[0]) + merged(
            kinds.skip(1),
            fetched.skip(1),
        ),
        fetched[0] matches Ok(records) ==> merged(kinds, fetched).take(records@.len() as int)
            == records@,
{
    if let Ok(records) = fetched[0] {
        assert(merged(kinds, fetched).take(records@.len() as int) =~= records@);
    }
}

} // verus!
