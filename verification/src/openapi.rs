//! A minimal in-memory model of the parts of an OpenAPI document that the
//! transform helpers edit: paths, operations, parameters and responses.
//!
//! Each executable type has a mathematical view (`…View`) that the
//! contracts speak of.  Response maps preserve insertion order and keep
//! their status-code keys unique, like the ordered maps of a full
//! document model.

use vstd::prelude::*;

verus! {

/// An HTTP status code key for a response: either an exact code such as
/// `200`, or a `100`-based range such as `2` for `2xx`.
#[derive(Debug, Clone, Copy, PartialEq, Eq, Structural)]
pub enum StatusCode {
    Code(u16),
    Range(u16),
}

/// Either a reference to a component elsewhere in the document, or an
/// inlined item.
#[derive(Debug)]
pub enum ReferenceOr<T> {
    Reference { reference: String },
    Item(T),
}

/// The view of a [`ReferenceOr`], over the view of the item type.
#[verifier::ext_equal]
pub ghost enum ReferenceOrView<V> {
    Reference { reference: Seq<char> },
    Item(V),
}

impl<T: View> View for ReferenceOr<T> {
    type V = ReferenceOrView<T::V>;

    open spec fn view(&self) -> ReferenceOrView<T::V> {
        match self {
            ReferenceOr::Reference { reference } => ReferenceOrView::Reference { reference: reference@ },
            ReferenceOr::Item(item) => ReferenceOrView::Item(item@),
        }
    }
}

/// Declares `serde_json::Value` to the verifier.  Values of it are
/// opaque here and are only carried through, as response examples.
#[verifier::external_type_specification]
#[verifier::external_body]
pub struct ExValue(serde_json::Value);

/// Relies on `serde_json::Value::clone` (a derived clone): the copy is a
/// deep, structurally equal image of its source.
#[verifier::external_body]
pub(crate) fn clone_value(v: &serde_json::Value) -> (r: serde_json::Value)
    ensures
        r == *v,
{
    v.clone()
}

/// The content of a response for one media type.  Only the example value
/// is modelled here; it carries an already-encoded JSON value.
#[derive(Debug)]
pub struct MediaType {
    pub example: Option<serde_json::Value>,
}

impl MediaType {
    /// Create a media type entry with no example.
    pub fn new() -> (r: Self)
        ensures
            r.example is None,
    {
        MediaType { example: None }
    }

    /// An exact copy of this media type.
    pub fn duplicate(&self) -> (r: Self)
        ensures
            r == *self,
    {
        match &self.example {
            Some(v) => MediaType { example: Some(clone_value(v)) },
            None => MediaType { example: None },
        }
    }
}

/// A single response: a description and per-media-type content.
#[derive(Debug)]
pub struct Response {
    pub description: String,
    pub content: Vec<(String, MediaType)>,
}

/// The view of a [`Response`].  A media type carries no unbounded data,
/// so it stands for itself.
#[verifier::ext_equal]
pub ghost struct ResponseView {
    pub description: Seq<char>,
    pub content: Seq<(Seq<char>, MediaType)>,
}

impl View for Response {
    type V = ResponseView;

    open spec fn view(&self) -> ResponseView {
        ResponseView {
            description: self.description@,
            content: Seq::new(self.content@.len(), |i: int| (self.content@[i].0@, self.content@[i].1)),
        }
    }
}

impl Response {
    /// Create a response with the given description and no content.
    pub fn new(description: &str) -> (r: Self)
        ensures
            r@.description == description@,
            r@.content == Seq::<(Seq<char>, MediaType)>::empty(),
    {
        let r = Response { description: description.to_string(), content: Vec::new() };
        proof {
            assert(r@.content =~= Seq::<(Seq<char>, MediaType)>::empty());
        }
        r
    }

    /// Add a content entry for a media type name.  Entries keep the
    /// order of the calls that added them.
    pub fn add_content(&mut self, media_type: &str, media: MediaType)
        ensures
            final(self)@.description == old(self)@.description,
            final(self)@.content == old(self)@.content.push((media_type@, media)),
    {
        self.content.push((media_type.to_string(), media));
        proof {
            assert(self@.content =~= old(self)@.content.push((media_type@, media)));
        }
    }

    /// An exact copy of this response.
    pub fn duplicate(&self) -> (r: Self)
        ensures
            r@ == self@,
    {
        let mut content: Vec<(String, MediaType)> = Vec::new();
        let mut i: usize = 0;
        while i < self.content.len()
            invariant
                0 <= i <= self.content.len(),
                content@ == self.content@.subrange(0, i as int),
            decreases self.content.len() - i,
        {
            let (name, media) = &self.content[i];
            content.push((name.clone(), media.duplicate()));
            proof {
                assert(content@ =~= self.content@.subrange(0, i as int + 1));
            }
            i += 1;
        }
        proof {
            assert(content@ =~= self.content@);
        }
        let r = Response { description: self.description.clone(), content };
        proof {
            assert(r@.content =~= self@.content);
        }
        r
    }
}


/// The data common to every kind of parameter.
#[derive(Debug)]
pub struct ParameterData {
    pub name: String,
    pub description: Option<String>,
}

/// The view of a [`ParameterData`].
#[verifier::ext_equal]
pub ghost struct ParameterDataView {
    pub name: Seq<char>,
    pub description: Option<Seq<char>>,
}

impl View for ParameterData {
    type V = ParameterDataView;

    open spec fn view(&self) -> ParameterDataView {
        ParameterDataView {
            name: self.name@,
            description: match &self.description {
                Some(d) => Some(d@),
                None => None,
            },
        }
    }
}

/// A parameter of an operation, distinguished by where it is carried.
#[derive(Debug)]
pub enum Parameter {
    Query { parameter_data: ParameterData },
    Header { parameter_data: ParameterData },
    Path { parameter_data: ParameterData },
    Cookie { parameter_data: ParameterData },
}

/// The view of a [`Parameter`].
#[verifier::ext_equal]
pub ghost enum ParameterView {
    Query { parameter_data: ParameterDataView },
    Header { parameter_data: ParameterDataView },
    Path { parameter_data: ParameterDataView },
    Cookie { parameter_data: ParameterDataView },
}

impl View for Parameter {
    type V = ParameterView;

    open spec fn view(&self) -> ParameterView {
        match self {
            Parameter::Query { parameter_data } => ParameterView::Query { parameter_data: parameter_data@ },
            Parameter::Header { parameter_data } => ParameterView::Header { parameter_data: parameter_data@ },
            Parameter::Path { parameter_data } => ParameterView::Path { parameter_data: parameter_data@ },
            Parameter::Cookie { parameter_data } => ParameterView::Cookie { parameter_data: parameter_data@ },
        }
    }
}

impl ParameterView {
    /// The data of the parameter, whichever kind it is.
    pub open spec fn data(self) -> ParameterDataView {
        match self {
            ParameterView::Query { parameter_data } => parameter_data,
            ParameterView::Header { parameter_data } => parameter_data,
            ParameterView::Path { parameter_data } => parameter_data,
            ParameterView::Cookie { parameter_data } => parameter_data,
        }
    }

    /// The same kind of parameter, with its data replaced.
    pub open spec fn with_data(self, d: ParameterDataView) -> ParameterView {
        match self {
            ParameterView::Query { .. } => ParameterView::Query { parameter_data: d },
            ParameterView::Header { .. } => ParameterView::Header { parameter_data: d },
            ParameterView::Path { .. } => ParameterView::Path { parameter_data: d },
            ParameterView::Cookie { .. } => ParameterView::Cookie { parameter_data: d },
        }
    }
}

impl Parameter {
    /// A shared borrow of the data of the parameter, whichever kind it is.
    pub fn parameter_data_ref(&self) -> (r: &ParameterData)
        ensures
            r@ == self@.data(),
    {
        match self {
            Parameter::Query { parameter_data }
            | Parameter::Header { parameter_data }
            | Parameter::Path { parameter_data }
            | Parameter::Cookie { parameter_data } => parameter_data,
        }
    }
}

/// The responses of an operation: an optional default response, and an
/// insertion-ordered map from status code to response.
#[derive(Debug)]
pub struct Responses {
    pub default: Option<ReferenceOr<Response>>,
    pub responses: Vec<(StatusCode, ReferenceOr<Response>)>,
}

/// The view of a [`Responses`].
#[verifier::ext_equal]
pub ghost struct ResponsesView {
    pub default: Option<ReferenceOrView<ResponseView>>,
    pub responses: Seq<(StatusCode, ReferenceOrView<ResponseView>)>,
}

impl View for Responses {
    type V = ResponsesView;

    open spec fn view(&self) -> ResponsesView {
        ResponsesView {
            default: match &self.default {
                Some(d) => Some(d@),
                None => None,
            },
            responses: Seq::new(self.responses@.len(), |i: int| (self.responses@[i].0, self.responses@[i].1@)),
        }
    }
}

/// Whether the map holds an entry under the given status code.
pub open spec fn responses_has_key(
    rs: Seq<(StatusCode, ReferenceOrView<ResponseView>)>,
    code: StatusCode,
) -> bool {
    exists|i: int| 0 <= i < rs.len() && rs[i].0 == code
}

/// The position of the entry under the given status code.  Meaningful
/// only when the key is present and the keys are unique.
pub open spec fn responses_key_index(
    rs: Seq<(StatusCode, ReferenceOrView<ResponseView>)>,
    code: StatusCode,
) -> int {
    choose|i: int| 0 <= i < rs.len() && rs[i].0 == code
}

/// The status-code keys of the map are unique.
pub open spec fn responses_wf(v: ResponsesView) -> bool {
    forall|i: int, j: int|
        0 <= i < j < v.responses.len() ==> v.responses[i].0 != v.responses[j].0
}

/// The map after an insertion: an existing entry under the same key is
/// replaced in place, keeping its position; a new key is appended.
pub open spec fn responses_insert(
    v: ResponsesView,
    code: StatusCode,
    value: ReferenceOrView<ResponseView>,
) -> ResponsesView {
    if responses_has_key(v.responses, code) {
        ResponsesView {
            default: v.default,
            responses: v.responses.update(responses_key_index(v.responses, code), (code, value)),
        }
    } else {
        ResponsesView { default: v.default, responses: v.responses.push((code, value)) }
    }
}

/// Inserting keeps the status-code keys of the map unique, so an
/// operation holds at most one response per status code.
pub proof fn lemma_insert_keeps_unique_keys(
    v: ResponsesView,
    code: StatusCode,
    value: ReferenceOrView<ResponseView>,
)
    requires
        responses_wf(v),
    ensures
        responses_wf(responses_insert(v, code, value)),
{
    if responses_has_key(v.responses, code) {
        let k = responses_key_index(v.responses, code);
        assert(0 <= k < v.responses.len() && v.responses[k].0 == code);
        let updated = v.responses.update(k, (code, value));
        assert(forall|a: int| 0 <= a < updated.len() ==> updated[a].0 == v.responses[a].0);
    }
}

impl Responses {
    /// Create an empty set of responses.
    pub fn new() -> (r: Self)
        ensures
            r@.default is None,
            r@.responses == Seq::<(StatusCode, ReferenceOrView<ResponseView>)>::empty(),
            responses_wf(r@),
    {
        let r = Responses { default: None, responses: Vec::new() };
        proof {
            assert(r@.responses =~= Seq::<(StatusCode, ReferenceOrView<ResponseView>)>::empty());
        }
        r
    }

    /// Insert a response under a status code, keeping keys unique and
    /// insertion order stable.  Returns the entry previously held under
    /// that code, if there was one.
    pub fn insert(&mut self, code: StatusCode, value: ReferenceOr<Response>) -> (prev: Option<
        ReferenceOr<Response>,
    >)
        requires
            responses_wf(old(self)@),
        ensures
            responses_wf(final(self)@),
            final(self)@ == responses_insert(old(self)@, code, value@),
            prev is Some <==> responses_has_key(old(self)@.responses, code),
            prev matches Some(p) ==> p@ == old(self)@.responses[responses_key_index(
                old(self)@.responses,
                code,
            )].1,
    {
        let ghost v0 = self@;
        proof {
            assert(v0 == old(self)@);
        }
        let mut i: usize = 0;
        while i < self.responses.len()
            invariant
                0 <= i <= self.responses.len(),
                self@ == v0,
                v0 == old(self)@,
                responses_wf(v0),
                forall|j: int| 0 <= j < i ==> v0.responses[j].0 != code,
            decreases self.responses.len() - i,
        {
            if self.responses[i].0 == code {
                proof {
                    assert(self@.responses[i as int].0 == code);
                    assert(responses_has_key(v0.responses, code));
                    let k = responses_key_index(v0.responses, code);
                    assert(0 <= k < v0.responses.len() && v0.responses[k].0 == code);
                    assert(k == i as int);
                }
                let prev_pair = self.responses.remove(i);
                self.responses.insert(i, (code, value));
                proof {
                    let updated = v0.responses.update(i as int, (code, value@));
                    assert(self@.responses =~= updated);
                    assert(self@ =~= responses_insert(v0, code, value@));
                    assert(forall|a: int|
                        0 <= a < updated.len() ==> updated[a].0 == v0.responses[a].0);
                    assert(responses_wf(self@));
                }
                return Some(prev_pair.1);
            }
            i += 1;
        }
        self.responses.push((code, value));
        proof {
            assert(!responses_has_key(v0.responses, code));
            assert(self@.responses =~= v0.responses.push((code, value@)));
            assert(self@ =~= responses_insert(v0, code, value@));
            assert(responses_wf(self@));
        }
        None
    }
}

/// An operation of a path: identifier, description, parameters and
/// responses.
#[derive(Debug)]
pub struct Operation {
    pub operation_id: Option<String>,
    pub description: Option<String>,
    pub parameters: Vec<ReferenceOr<Parameter>>,
    pub responses: Option<Responses>,
}

/// The view of an [`Operation`].
#[verifier::ext_equal]
pub ghost struct OperationView {
    pub operation_id: Option<Seq<char>>,
    pub description: Option<Seq<char>>,
    pub parameters: Seq<ReferenceOrView<ParameterView>>,
    pub responses: Option<ResponsesView>,
}

impl View for Operation {
    type V = OperationView;

    open spec fn view(&self) -> OperationView {
        OperationView {
            operation_id: match &self.operation_id {
                Some(d) => Some(d@),
                None => None,
            },
            description: match &self.description {
                Some(d) => Some(d@),
                None => None,
            },
            parameters: Seq::new(self.parameters@.len(), |i: int| self.parameters@[i]@),
            responses: match &self.responses {
                Some(r) => Some(r@),
                None => None,
            },
        }
    }
}

impl Operation {
    /// Create an empty operation.
    pub fn new() -> (r: Self)
        ensures
            r@.operation_id is None,
            r@.description is None,
            r@.parameters == Seq::<ReferenceOrView<ParameterView>>::empty(),
            r@.responses is None,
    {
        let r = Operation {
            operation_id: None,
            description: None,
            parameters: Vec::new(),
            responses: None,
        };
        proof {
            assert(r@.parameters =~= Seq::<ReferenceOrView<ParameterView>>::empty());
        }
        r
    }
}

/// The operations of one path, one slot for each HTTP method, and a
/// description of the path itself.
#[derive(Debug)]
pub struct PathItem {
    pub description: Option<String>,
    pub get: Option<Operation>,
    pub put: Option<Operation>,
    pub post: Option<Operation>,
    pub delete: Option<Operation>,
    pub options: Option<Operation>,
    pub head: Option<Operation>,
    pub patch: Option<Operation>,
    pub trace: Option<Operation>,
}

/// The view of a [`PathItem`].
#[verifier::ext_equal]
pub ghost struct PathItemView {
    pub description: Option<Seq<char>>,
    pub get: Option<OperationView>,
    pub put: Option<OperationView>,
    pub post: Option<OperationView>,
    pub delete: Option<OperationView>,
    pub options: Option<OperationView>,
    pub head: Option<OperationView>,
    pub patch: Option<OperationView>,
    pub trace: Option<OperationView>,
}

impl View for PathItem {
    type V = PathItemView;

    open spec fn view(&self) -> PathItemView {
        PathItemView {
            description: match &self.description {
                Some(d) => Some(d@),
                None => None,
            },
            get: match &self.get { Some(o) => Some(o@), None => None },
            put: match &self.put { Some(o) => Some(o@), None => None },
            post: match &self.post { Some(o) => Some(o@), None => None },
            delete: match &self.delete { Some(o) => Some(o@), None => None },
            options: match &self.options { Some(o) => Some(o@), None => None },
            head: match &self.head { Some(o) => Some(o@), None => None },
            patch: match &self.patch { Some(o) => Some(o@), None => None },
            trace: match &self.trace { Some(o) => Some(o@), None => None },
        }
    }
}

impl PathItem {
    /// Create an empty path item.
    pub fn new() -> (r: Self)
        ensures
            r@ == (PathItemView {
                description: None,
                get: None,
                put: None,
                post: None,
                delete: None,
                options: None,
                head: None,
                patch: None,
                trace: None,
            }),
    {
        PathItem {
            description: None,
            get: None,
            put: None,
            post: None,
            delete: None,
            options: None,
            head: None,
            patch: None,
            trace: None,
        }
    }
}

/// The paths of a document, in insertion order.
#[derive(Debug)]
pub struct Paths {
    pub paths: Vec<(String, ReferenceOr<PathItem>)>,
}

/// The view of a [`Paths`].
#[verifier::ext_equal]
pub ghost struct PathsView {
    pub paths: Seq<(Seq<char>, ReferenceOrView<PathItemView>)>,
}

impl View for Paths {
    type V = PathsView;

    open spec fn view(&self) -> PathsView {
        PathsView {
            paths: Seq::new(self.paths@.len(), |i: int| (self.paths@[i].0@, self.paths@[i].1@)),
        }
    }
}

/// A whole OpenAPI document, reduced to what the transform helpers
/// edit: its paths.
#[derive(Debug)]
pub struct OpenApi {
    pub paths: Option<Paths>,
}

/// The view of an [`OpenApi`].
#[verifier::ext_equal]
pub ghost struct OpenApiView {
    pub paths: Option<PathsView>,
}

impl View for OpenApi {
    type V = OpenApiView;

    open spec fn view(&self) -> OpenApiView {
        OpenApiView {
            paths: match &self.paths {
                Some(p) => Some(p@),
                None => None,
            },
        }
    }
}

} // verus!
