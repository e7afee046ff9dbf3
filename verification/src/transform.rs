//! Transform helpers: each wraps one layer of an OpenAPI document and
//! enables modifications with method chaining in a declarative way.
//! Non-fatal problems (a duplicate response code, a missing parameter)
//! are recorded into a [`GenContext`] rather than aborting the chain.
//!
//! A transform function is a function that accepts a single transform
//! helper and returns it; the `with` methods apply one, which makes
//! documentation composable.

use vstd::prelude::*;
use crate::error::{Error, ErrorView};
use crate::gen::{context_record, filter_allows, ErrorFilter, GenContext};
use crate::openapi::{
    clone_value, responses_has_key, responses_insert, responses_wf, MediaType, OpenApi,
    OpenApiView, Operation,
    OperationView, Parameter, ParameterView, PathItem, PathItemView, ReferenceOr, ReferenceOrView,
    PathsView, Response, ResponseView, Responses, ResponsesView, StatusCode,
};

verus! {

/// Lets every error through but those that say a response already
/// exists; the bulk default-response helpers run under this filter.
pub fn filter_no_duplicate_response(err: &Error) -> (r: bool)
    ensures
        r == !(err@ is DefaultResponseExists || err@ is ResponseExists),
{
    !(matches!(err, Error::DefaultResponseExists) || matches!(err, Error::ResponseExists(_)))
}

/// Relies on `str`'s `==`: two string slices are equal exactly when
/// their character sequences are.
#[verifier::external_body]
fn str_eq(a: &str, b: &str) -> (r: bool)
    ensures
        r == (a@ == b@),
{
    a == b
}

/// The view of an optional response argument.
pub open spec fn opt_response_view(res: Option<Response>) -> Option<ResponseView> {
    match res {
        Some(r) => Some(r@),
        None => None,
    }
}

/// The content entries of a response, each with the given example
/// value.
pub open spec fn spec_set_example(
    content: Seq<(Seq<char>, MediaType)>,
    v: serde_json::Value,
) -> Seq<(Seq<char>, MediaType)> {
    Seq::new(content.len(), |i: int| (content[i].0, MediaType { example: Some(v) }))
}

/// The operation with its set of responses present: an absent set is
/// replaced by an empty one.
pub open spec fn spec_ensure_responses(op: OperationView) -> OperationView {
    match op.responses {
        Some(_) => op,
        None => OperationView {
            responses: Some(ResponsesView { default: None, responses: Seq::empty() }),
            ..op
        },
    }
}

/// The operation with the given response as its default.  Meaningful
/// only when the set of responses is present.
pub open spec fn spec_with_default(op: OperationView, r: ResponseView) -> OperationView {
    OperationView {
        responses: Some(ResponsesView {
            default: Some(ReferenceOrView::Item(r)),
            responses: op.responses->Some_0.responses,
        }),
        ..op
    }
}

/// The operation after asking for a default response: the set of
/// responses is made present, and the given response becomes the
/// default if there was none.
pub open spec fn spec_default_response(op: OperationView, res: Option<ResponseView>) -> OperationView {
    let op1 = spec_ensure_responses(op);
    match res {
        None => op1,
        Some(r) => if op1.responses->Some_0.default is None {
            spec_with_default(op1, r)
        } else {
            op1
        },
    }
}

/// Asking for a default response a second time never overwrites the
/// one already installed: an operation keeps at most one default
/// response.
pub proof fn lemma_default_response_keeps_first(
    op: OperationView,
    first: Option<ResponseView>,
    second: ResponseView,
)
    requires
        first is Some || (op.responses is Some && op.responses->Some_0.default is Some),
    ensures
        spec_default_response(spec_default_response(op, first), Some(second))
            == spec_default_response(op, first),
{
}

/// The error that asking for a default response records: the default
/// already existed, and a response to install was at hand.
pub open spec fn spec_default_response_error(op: OperationView, has_res: bool) -> Option<ErrorView> {
    if has_res && op.responses is Some && op.responses->Some_0.default is Some {
        Some(ErrorView::DefaultResponseExists)
    } else {
        None
    }
}

/// The operation after inserting a response under a status code.
pub open spec fn spec_insert_response(op: OperationView, code: StatusCode, r: ResponseView) -> OperationView {
    let op1 = spec_ensure_responses(op);
    OperationView {
        responses: Some(responses_insert(
            op1.responses->Some_0,
            code,
            ReferenceOrView::Item(r),
        )),
        ..op1
    }
}

/// Whether inserting under this status code displaces an entry.
pub open spec fn spec_insert_had_key(op: OperationView, code: StatusCode) -> bool {
    op.responses is Some && responses_has_key(op.responses->Some_0.responses, code)
}

/// The set of responses of the operation, when present, has unique
/// status-code keys.
pub open spec fn operation_wf(op: OperationView) -> bool {
    match op.responses {
        None => true,
        Some(rs) => responses_wf(rs),
    }
}

/// A transform helper that wraps a whole [`OpenApi`] document.
#[must_use]
pub struct TransformOpenApi {
    pub api: OpenApi,
}

/// The view of a [`TransformOpenApi`].
#[verifier::ext_equal]
pub ghost struct TransformOpenApiView {
    pub api: OpenApiView,
}

impl View for TransformOpenApi {
    type V = TransformOpenApiView;

    open spec fn view(&self) -> TransformOpenApiView {
        TransformOpenApiView { api: self.api@ }
    }
}

impl TransformOpenApi {
    /// Create a new transform helper.
    pub fn new(api: OpenApi) -> (r: Self)
        ensures
            r@.api == api@,
    {
        TransformOpenApi { api }
    }

    /// Apply an another transform function.
    pub fn with(self, transform: impl FnOnce(TransformOpenApi) -> TransformOpenApi) -> (r: Self)
        requires
            call_requires(transform, (self,)),
        ensures
            call_ensures(transform, (self,), r),
    {
        transform(self)
    }

    /// Access the inner [`OpenApi`].
    #[inline]
    pub fn inner_mut(&mut self) -> (r: &mut OpenApi)
        ensures
            *r == old(self).api,
            *final(self) == (TransformOpenApi { api: *final(r) }),
    {
        &mut self.api
    }

    /// Take the edited document back out of the helper.
    pub fn into_inner(self) -> (r: OpenApi)
        ensures
            r@ == self@.api,
    {
        self.api
    }
}

/// A transform helper that wraps a [`PathItem`].
#[must_use]
pub struct TransformPathItem {
    pub hidden: bool,
    pub path: PathItem,
}

/// The view of a [`TransformPathItem`].
#[verifier::ext_equal]
pub ghost struct TransformPathItemView {
    pub hidden: bool,
    pub path: PathItemView,
}

impl View for TransformPathItem {
    type V = TransformPathItemView;

    open spec fn view(&self) -> TransformPathItemView {
        TransformPathItemView { hidden: self.hidden, path: self.path@ }
    }
}

impl TransformPathItem {
    /// Create a new transform helper.
    pub fn new(path: PathItem) -> (r: Self)
        ensures
            r@.hidden == false,
            r@.path == path@,
    {
        TransformPathItem { hidden: false, path }
    }

    /// Hide the path from the documentation.
    ///
    /// Hiding an item causes it to be ignored completely; there is no
    /// way to restore or "unhide" it afterwards.
    pub fn hidden(self, hidden: bool) -> (r: Self)
        ensures
            r@.hidden == hidden,
            r@.path == self@.path,
    {
        let mut s = self;
        s.hidden = hidden;
        s
    }

    /// Provide a description for the path.
    pub fn description(self, desc: &str) -> (r: Self)
        ensures
            r@.hidden == self@.hidden,
            r@.path == (PathItemView { description: Some(desc@), ..self@.path }),
    {
        let mut s = self;
        let ghost v0 = s@;
        s.path.description = Some(desc.to_string());
        proof {
            assert(s@.path =~= (PathItemView { description: Some(desc@), ..v0.path }));
        }
        s
    }

    /// Apply an another transform function.
    pub fn with(self, transform: impl FnOnce(TransformPathItem) -> TransformPathItem) -> (r: Self)
        requires
            call_requires(transform, (self,)),
        ensures
            call_ensures(transform, (self,), r),
    {
        transform(self)
    }

    /// Access the inner [`PathItem`].
    #[inline]
    pub fn inner_mut(&mut self) -> (r: &mut PathItem)
        ensures
            *r == old(self).path,
            *final(self) == (TransformPathItem { hidden: old(self).hidden, path: *final(r) }),
    {
        &mut self.path
    }

    /// Take the edited path item back out of the helper.
    pub fn into_inner(self) -> (r: PathItem)
        ensures
            r@ == self@.path,
    {
        self.path
    }
}

/// A transform helper that wraps an [`Operation`].
#[must_use]
pub struct TransformOperation {
    pub hidden: bool,
    pub operation: Operation,
}

/// The view of a [`TransformOperation`].
#[verifier::ext_equal]
pub ghost struct TransformOperationView {
    pub hidden: bool,
    pub operation: OperationView,
}

impl View for TransformOperation {
    type V = TransformOperationView;

    open spec fn view(&self) -> TransformOperationView {
        TransformOperationView { hidden: self.hidden, operation: self.operation@ }
    }
}

impl TransformOperation {
    /// Create a new transform helper.
    pub fn new(operation: Operation) -> (r: Self)
        ensures
            r@.hidden == false,
            r@.operation == operation@,
    {
        TransformOperation { hidden: false, operation }
    }

    /// Specify the operation ID.
    pub fn id(self, name: &str) -> (r: Self)
        ensures
            r@.hidden == self@.hidden,
            r@.operation == (OperationView { operation_id: Some(name@), ..self@.operation }),
    {
        let mut s = self;
        let ghost v0 = s@;
        s.operation.operation_id = Some(name.to_string());
        proof {
            assert(s@.operation =~= (OperationView {
                operation_id: Some(name@),
                ..v0.operation
            }));
        }
        s
    }

    /// Provide a description for the operation.
    pub fn description(self, desc: &str) -> (r: Self)
        ensures
            r@.hidden == self@.hidden,
            r@.operation == (OperationView { description: Some(desc@), ..self@.operation }),
    {
        let mut s = self;
        let ghost v0 = s@;
        s.operation.description = Some(desc.to_string());
        proof {
            assert(s@.operation =~= (OperationView {
                description: Some(desc@),
                ..v0.operation
            }));
        }
        s
    }

    /// Hide the operation from the documentation.
    ///
    /// Hiding an item causes it to be ignored completely; there is no
    /// way to restore or "unhide" it afterwards.
    pub fn hidden(self, hidden: bool) -> (r: Self)
        ensures
            r@.hidden == hidden,
            r@.operation == self@.operation,
    {
        let mut s = self;
        s.hidden = hidden;
        s
    }

    /// Apply an another transform function.
    pub fn with(self, transform: impl FnOnce(TransformOperation) -> TransformOperation) -> (r: Self)
        requires
            call_requires(transform, (self,)),
        ensures
            call_ensures(transform, (self,), r),
    {
        transform(self)
    }

    /// Access the inner [`Operation`].
    #[inline]
    pub fn inner_mut(&mut self) -> (r: &mut Operation)
        ensures
            *r == old(self).operation,
            *final(self) == (TransformOperation {
                hidden: old(self).hidden,
                operation: *final(r),
            }),
    {
        &mut self.operation
    }

    /// Take the edited operation back out of the helper.
    pub fn into_inner(self) -> (r: Operation)
        ensures
            r@ == self@.operation,
    {
        self.operation
    }
}

impl TransformOperation {
    /// Set a default response for the operation if it does not already
    /// have one.  The response derived for the output type is handed
    /// in; `None` stands for a type without response documentation.
    pub fn default_response(self, res: Option<Response>, ctx: &mut GenContext) -> (r: Self)
        ensures
            r@.hidden == self@.hidden,
            r@.operation == spec_default_response(self@.operation, opt_response_view(res)),
            final(ctx)@ == context_record(
                old(ctx)@,
                spec_default_response_error(self@.operation, res is Some),
            ),
            operation_wf(self@.operation) ==> operation_wf(r@.operation),
    {
        let mut s = self;
        let ghost op0 = s@.operation;
        let ghost resv = opt_response_view(res);
        if s.operation.responses.is_none() {
            s.operation.responses = Some(Responses::new());
        }
        proof {
            assert(s@.operation =~= spec_ensure_responses(op0));
        }
        match res {
            None => {},
            Some(resp) => {
                match &mut s.operation.responses {
                    Some(responses) => {
                        if responses.default.is_none() {
                            responses.default = Some(ReferenceOr::Item(resp));
                        } else {
                            ctx.error(Error::DefaultResponseExists);
                        }
                    },
                    None => {
                        proof {
                            assert(false);
                        }
                    },
                }
            },
        }
        proof {
            assert(s@.operation =~= spec_default_response(op0, resv));
        }
        s
    }

    /// Insert a response under the given key, recording a duplicate
    /// under the given error key.  The shared core of the response
    /// methods.
    fn response_keyed(
        self,
        insert_key: StatusCode,
        err_key: StatusCode,
        res: Option<Response>,
        ctx: &mut GenContext,
    ) -> (r: Self)
        requires
            operation_wf(self@.operation),
        ensures
            r@.hidden == self@.hidden,
            operation_wf(r@.operation),
            r@.operation == (match opt_response_view(res) {
                None => spec_ensure_responses(self@.operation),
                Some(rv) => spec_insert_response(self@.operation, insert_key, rv),
            }),
            final(ctx)@ == context_record(
                old(ctx)@,
                if res is Some && spec_insert_had_key(self@.operation, insert_key) {
                    Some(ErrorView::ResponseExists(err_key))
                } else {
                    None
                },
            ),
    {
        let mut s = self;
        let ghost op0 = s@.operation;
        let ghost resv = opt_response_view(res);
        if s.operation.responses.is_none() {
            s.operation.responses = Some(Responses::new());
        }
        proof {
            assert(s@.operation =~= spec_ensure_responses(op0));
        }
        match res {
            None => {},
            Some(resp) => {
                match &mut s.operation.responses {
                    Some(responses) => {
                        let prev = responses.insert(insert_key, ReferenceOr::Item(resp));
                        if prev.is_some() {
                            ctx.error(Error::ResponseExists(err_key));
                        }
                    },
                    None => {
                        proof {
                            assert(false);
                        }
                    },
                }
            },
        }
        proof {
            assert(match resv {
                None => s@.operation =~= spec_ensure_responses(op0),
                Some(rv) => s@.operation =~= spec_insert_response(op0, insert_key, rv),
            });
        }
        s
    }

    /// Add a response to the operation with the given status code.
    pub fn response(self, code: u16, res: Option<Response>, ctx: &mut GenContext) -> (r: Self)
        requires
            operation_wf(self@.operation),
        ensures
            r@.hidden == self@.hidden,
            operation_wf(r@.operation),
            r@.operation == (match opt_response_view(res) {
                None => spec_ensure_responses(self@.operation),
                Some(rv) => spec_insert_response(self@.operation, StatusCode::Code(code), rv),
            }),
            final(ctx)@ == context_record(
                old(ctx)@,
                if res is Some && spec_insert_had_key(self@.operation, StatusCode::Code(code)) {
                    Some(ErrorView::ResponseExists(StatusCode::Code(code)))
                } else {
                    None
                },
            ),
    {
        self.response_keyed(StatusCode::Code(code), StatusCode::Code(code), res, ctx)
    }

    /// Add a response to the operation with the given status code range
    /// (e.g. 2xx).  The range is `100`-based, so for the range `2xx`,
    /// `2` must be provided.
    pub fn response_range(self, range: u16, res: Option<Response>, ctx: &mut GenContext) -> (r: Self)
        requires
            operation_wf(self@.operation),
        ensures
            r@.hidden == self@.hidden,
            operation_wf(r@.operation),
            r@.operation == (match opt_response_view(res) {
                None => spec_ensure_responses(self@.operation),
                Some(rv) => spec_insert_response(self@.operation, StatusCode::Range(range), rv),
            }),
            final(ctx)@ == context_record(
                old(ctx)@,
                if res is Some && spec_insert_had_key(self@.operation, StatusCode::Range(range)) {
                    Some(ErrorView::ResponseExists(StatusCode::Range(range)))
                } else {
                    None
                },
            ),
    {
        self.response_keyed(StatusCode::Range(range), StatusCode::Range(range), res, ctx)
    }
}

/// Whether the entry is an inlined parameter with the given name.
pub open spec fn param_matches(p: ReferenceOrView<ParameterView>, name: Seq<char>) -> bool {
    p matches ReferenceOrView::Item(pv) && pv.data().name == name
}

/// The position of the first inlined parameter with the given name, or
/// `-1` when there is none.
pub open spec fn spec_find_param(
    params: Seq<ReferenceOrView<ParameterView>>,
    name: Seq<char>,
) -> int
    decreases params.len(),
{
    if params.len() == 0 {
        -1
    } else if param_matches(params[0], name) {
        0
    } else {
        let rest = spec_find_param(params.drop_first(), name);
        if rest == -1 {
            -1
        } else {
            rest + 1
        }
    }
}

proof fn lemma_find_param_at(params: Seq<ReferenceOrView<ParameterView>>, name: Seq<char>, i: int)
    requires
        0 <= i < params.len(),
        param_matches(params[i], name),
        forall|j: int| 0 <= j < i ==> !param_matches(params[j], name),
    ensures
        spec_find_param(params, name) == i,
    decreases i,
{
    if i == 0 {
    } else {
        assert(params.drop_first()[i - 1] == params[i]);
        assert(forall|j: int| 0 <= j < i - 1 ==> params.drop_first()[j] == params[j + 1]);
        lemma_find_param_at(params.drop_first(), name, i - 1);
    }
}

proof fn lemma_find_param_none(params: Seq<ReferenceOrView<ParameterView>>, name: Seq<char>)
    requires
        forall|j: int| 0 <= j < params.len() ==> !param_matches(params[j], name),
    ensures
        spec_find_param(params, name) == -1,
    decreases params.len(),
{
    if params.len() == 0 {
    } else {
        assert(forall|j: int| 0 <= j < params.len() - 1 ==> params.drop_first()[j] == params[j + 1]);
        lemma_find_param_none(params.drop_first(), name);
    }
}

impl TransformOperation {
    /// Modify the first parameter of the operation with the given name.
    /// When no inlined parameter has the name, the operation is left as
    /// it is and a [`Error::ParameterNotExists`] is recorded.  A hidden
    /// result removes the parameter.
    #[verifier::loop_isolation(false)]
    pub fn parameter<F: FnOnce(TransformParameter) -> TransformParameter>(
        self,
        name: &str,
        transform: F,
        ctx: &mut GenContext,
    ) -> (r: Self)
        requires
            spec_find_param(self@.operation.parameters, name@) >= 0 ==> (forall|
                tp: TransformParameter,
            |
                #![trigger tp@]
                tp@ == (TransformParameterView {
                    hidden: false,
                    param: self@.operation.parameters[spec_find_param(
                        self@.operation.parameters,
                        name@,
                    )]->Item_0,
                }) ==> call_requires(transform, (tp,))),
        ensures
            r@.hidden == self@.hidden,
            ({
                let fi = spec_find_param(self@.operation.parameters, name@);
                if fi == -1 {
                    &&& r@.operation == self@.operation
                    &&& final(ctx)@ == context_record(
                        old(ctx)@,
                        Some(ErrorView::ParameterNotExists(name@)),
                    )
                } else {
                    &&& final(ctx)@ == old(ctx)@
                    &&& exists|tp: TransformParameter, t: TransformParameter|
                        #[trigger] call_ensures(transform, (tp,), t)
                        && tp@ == (TransformParameterView {
                            hidden: false,
                            param: self@.operation.parameters[fi]->Item_0,
                        })
                        && r@.operation == (OperationView {
                            parameters: if t@.hidden {
                                self@.operation.parameters.remove(fi)
                            } else {
                                self@.operation.parameters.update(fi, ReferenceOrView::Item(t@.param))
                            },
                            ..self@.operation
                        })
                }
            }),
    {
        let mut s = self;
        let ghost v0 = s@;
        let ghost params0 = s@.operation.parameters;
        let n = s.operation.parameters.len();
        let mut i: usize = 0;
        while i < n
            invariant
                i <= n,
                s@ == v0,
                n == s.operation.parameters@.len(),
                params0 == v0.operation.parameters,
                forall|j: int| 0 <= j < i ==> !param_matches(params0[j], name@),
            decreases n - i,
        {
            let found = match &s.operation.parameters[i] {
                ReferenceOr::Item(p) => str_eq(p.parameter_data_ref().name.as_str(), name),
                ReferenceOr::Reference { .. } => false,
            };
            if found {
                proof {
                    assert(param_matches(params0[i as int], name@));
                    lemma_find_param_at(params0, name@, i as int);
                }
                let entry = s.operation.parameters.remove(i);
                match entry {
                    ReferenceOr::Item(p) => {
                        let tp_arg = TransformParameter::new(p);
                        let ghost gtp = tp_arg;
                        proof {
                            assert(params0[i as int] == ReferenceOrView::Item(gtp@.param));
                            assert(gtp@ == (TransformParameterView {
                                hidden: false,
                                param: params0[i as int]->Item_0,
                            }));
                        }
                        proof {
                            assert(call_requires(transform, (gtp,)));
                        }
                        let t = transform(tp_arg);
                        let ghost gt = t;
                        if t.hidden {
                        } else {
                            s.operation.parameters.insert(i, ReferenceOr::Item(t.param));
                        }
                        proof {
                            if gt@.hidden {
                                assert(s@.operation.parameters =~= params0.remove(i as int));
                            } else {
                                assert(s@.operation.parameters =~= params0.update(
                                    i as int,
                                    ReferenceOrView::Item(gt@.param),
                                ));
                            }
                            assert(s@.operation =~= (OperationView {
                                parameters: if gt@.hidden {
                                    params0.remove(i as int)
                                } else {
                                    params0.update(i as int, ReferenceOrView::Item(gt@.param))
                                },
                                ..v0.operation
                            }));
                            assert(call_ensures(transform, (gtp,), gt));
                        }
                    },
                    ReferenceOr::Reference { .. } => {
                        proof {
                            assert(false);
                        }
                    },
                }
                return s;
            }
            i += 1;
        }
        proof {
            lemma_find_param_none(params0, name@);
        }
        ctx.error(Error::ParameterNotExists(name.to_string()));
        s
    }

    /// Modify a parameter of the operation; the same as `parameter`,
    /// kept for chains that do not care about the parameter type.
    pub fn parameter_untyped<F: FnOnce(TransformParameter) -> TransformParameter>(
        self,
        name: &str,
        transform: F,
        ctx: &mut GenContext,
    ) -> (r: Self)
        requires
            spec_find_param(self@.operation.parameters, name@) >= 0 ==> (forall|
                tp: TransformParameter,
            |
                #![trigger tp@]
                tp@ == (TransformParameterView {
                    hidden: false,
                    param: self@.operation.parameters[spec_find_param(
                        self@.operation.parameters,
                        name@,
                    )]->Item_0,
                }) ==> call_requires(transform, (tp,))),
        ensures
            r@.hidden == self@.hidden,
            ({
                let fi = spec_find_param(self@.operation.parameters, name@);
                if fi == -1 {
                    &&& r@.operation == self@.operation
                    &&& final(ctx)@ == context_record(
                        old(ctx)@,
                        Some(ErrorView::ParameterNotExists(name@)),
                    )
                } else {
                    &&& final(ctx)@ == old(ctx)@
                    &&& exists|tp: TransformParameter, t: TransformParameter|
                        #[trigger] call_ensures(transform, (tp,), t)
                        && tp@ == (TransformParameterView {
                            hidden: false,
                            param: self@.operation.parameters[fi]->Item_0,
                        })
                        && r@.operation == (OperationView {
                            parameters: if t@.hidden {
                                self@.operation.parameters.remove(fi)
                            } else {
                                self@.operation.parameters.update(fi, ReferenceOrView::Item(t@.param))
                            },
                            ..self@.operation
                        })
                }
            }),
    {
        self.parameter(name, transform, ctx)
    }
}

impl TransformOperation {
    /// Set a default response for the operation if it does not already
    /// have one, passing the generated documentation through a
    /// transform function first.  A hidden result leaves the default
    /// unset.
    pub fn default_response_with<F: FnOnce(TransformResponse) -> TransformResponse>(
        self,
        res: Option<Response>,
        transform: F,
        ctx: &mut GenContext,
    ) -> (r: Self)
        requires
            (res is Some && spec_ensure_responses(self@.operation).responses->Some_0.default
                is None) ==> (forall|tr: TransformResponse|
                #![trigger tr@]
                tr@ == (TransformResponseView {
                    hidden: false,
                    response: opt_response_view(res)->Some_0,
                }) ==> call_requires(transform, (tr,))),
        ensures
            r@.hidden == self@.hidden,
            final(ctx)@ == context_record(
                old(ctx)@,
                spec_default_response_error(self@.operation, res is Some),
            ),
            operation_wf(self@.operation) ==> operation_wf(r@.operation),
            ({
                let op1 = spec_ensure_responses(self@.operation);
                match opt_response_view(res) {
                    None => r@.operation == op1,
                    Some(rv) => if op1.responses->Some_0.default is Some {
                        r@.operation == op1
                    } else {
                        exists|tr: TransformResponse, t: TransformResponse|
                            #[trigger] call_ensures(transform, (tr,), t)
                            && tr@ == (TransformResponseView { hidden: false, response: rv })
                            && r@.operation == (if t@.hidden {
                                op1
                            } else {
                                spec_with_default(op1, t@.response)
                            })
                    },
                }
            }),
    {
        let mut s = self;
        let ghost op0 = s@.operation;
        let ghost resv = opt_response_view(res);
        if s.operation.responses.is_none() {
            s.operation.responses = Some(Responses::new());
        }
        proof {
            assert(s@.operation =~= spec_ensure_responses(op0));
        }
        match res {
            None => {},
            Some(resp) => {
                let has_default = match &s.operation.responses {
                    Some(rs) => rs.default.is_some(),
                    None => false,
                };
                if !has_default {
                    let tr_arg = TransformResponse::new(resp);
                    let ghost gtr = tr_arg;
                    proof {
                        assert(gtr@ == (TransformResponseView {
                            hidden: false,
                            response: resv->Some_0,
                        }));
                        assert(call_requires(transform, (tr_arg,)));
                    }
                    let t = transform(tr_arg);
                    let ghost gt = t;
                    if !t.hidden {
                        match &mut s.operation.responses {
                            Some(rs) => {
                                rs.default = Some(ReferenceOr::Item(t.response));
                            },
                            None => {
                                proof {
                                    assert(false);
                                }
                            },
                        }
                    }
                    proof {
                        if gt@.hidden {
                            assert(s@.operation =~= spec_ensure_responses(op0));
                        } else {
                            assert(s@.operation =~= spec_with_default(
                                spec_ensure_responses(op0),
                                gt@.response,
                            ));
                        }
                        assert(call_ensures(transform, (gtr,), gt));
                    }
                } else {
                    ctx.error(Error::DefaultResponseExists);
                }
            },
        }
        s
    }

    /// Insert a transformed response under the given key; the shared
    /// core of the `_with` response methods.  A hidden result inserts
    /// nothing.
    fn response_keyed_with<F: FnOnce(TransformResponse) -> TransformResponse>(
        self,
        key: StatusCode,
        res: Option<Response>,
        transform: F,
        ctx: &mut GenContext,
    ) -> (r: Self)
        requires
            operation_wf(self@.operation),
            res is Some ==> (forall|tr: TransformResponse|
                #![trigger tr@]
                tr@ == (TransformResponseView {
                    hidden: false,
                    response: opt_response_view(res)->Some_0,
                }) ==> call_requires(transform, (tr,))),
        ensures
            r@.hidden == self@.hidden,
            operation_wf(r@.operation),
            ({
                let op1 = spec_ensure_responses(self@.operation);
                match opt_response_view(res) {
                    None => r@.operation == op1 && final(ctx)@ == old(ctx)@,
                    Some(rv) => exists|tr: TransformResponse, t: TransformResponse|
                        #[trigger] call_ensures(transform, (tr,), t)
                        && tr@ == (TransformResponseView { hidden: false, response: rv })
                        && if t@.hidden {
                            r@.operation == op1 && final(ctx)@ == old(ctx)@
                        } else {
                            r@.operation == spec_insert_response(self@.operation, key, t@.response)
                            && final(ctx)@ == context_record(
                                old(ctx)@,
                                if spec_insert_had_key(self@.operation, key) {
                                    Some(ErrorView::ResponseExists(key))
                                } else {
                                    None
                                },
                            )
                        },
                }
            }),
    {
        let mut s = self;
        let ghost op0 = s@.operation;
        let ghost resv = opt_response_view(res);
        if s.operation.responses.is_none() {
            s.operation.responses = Some(Responses::new());
        }
        proof {
            assert(s@.operation =~= spec_ensure_responses(op0));
        }
        match res {
            None => {},
            Some(resp) => {
                let tr_arg = TransformResponse::new(resp);
                let ghost gtr = tr_arg;
                proof {
                    assert(gtr@ == (TransformResponseView {
                        hidden: false,
                        response: resv->Some_0,
                    }));
                    assert(call_requires(transform, (tr_arg,)));
                }
                let t = transform(tr_arg);
                let ghost gt = t;
                if !t.hidden {
                    match &mut s.operation.responses {
                        Some(responses) => {
                            let prev = responses.insert(key, ReferenceOr::Item(t.response));
                            if prev.is_some() {
                                ctx.error(Error::ResponseExists(key));
                            }
                        },
                        None => {
                            proof {
                                assert(false);
                            }
                        },
                    }
                    proof {
                        assert(s@.operation =~= spec_insert_response(op0, key, gt@.response));
                    }
                }
                proof {
                    assert(call_ensures(transform, (gtr,), gt));
                }
            },
        }
        s
    }

    /// Add a response to the operation with the given status code,
    /// passing the generated documentation through a transform function
    /// first.  A hidden result adds nothing.
    pub fn response_with<F: FnOnce(TransformResponse) -> TransformResponse>(
        self,
        code: u16,
        res: Option<Response>,
        transform: F,
        ctx: &mut GenContext,
    ) -> (r: Self)
        requires
            operation_wf(self@.operation),
            res is Some ==> (forall|tr: TransformResponse|
                #![trigger tr@]
                tr@ == (TransformResponseView {
                    hidden: false,
                    response: opt_response_view(res)->Some_0,
                }) ==> call_requires(transform, (tr,))),
        ensures
            r@.hidden == self@.hidden,
            operation_wf(r@.operation),
            ({
                let op1 = spec_ensure_responses(self@.operation);
                match opt_response_view(res) {
                    None => r@.operation == op1 && final(ctx)@ == old(ctx)@,
                    Some(rv) => exists|tr: TransformResponse, t: TransformResponse|
                        #[trigger] call_ensures(transform, (tr,), t)
                        && tr@ == (TransformResponseView { hidden: false, response: rv })
                        && if t@.hidden {
                            r@.operation == op1 && final(ctx)@ == old(ctx)@
                        } else {
                            r@.operation == spec_insert_response(
                                self@.operation,
                                StatusCode::Code(code),
                                t@.response,
                            )
                            && final(ctx)@ == context_record(
                                old(ctx)@,
                                if spec_insert_had_key(self@.operation, StatusCode::Code(code)) {
                                    Some(ErrorView::ResponseExists(StatusCode::Code(code)))
                                } else {
                                    None
                                },
                            )
                        },
                }
            }),
    {
        self.response_keyed_with(StatusCode::Code(code), res, transform, ctx)
    }

    /// Add a response to the operation with the given status code range
    /// (e.g. 2xx), passing the generated documentation through a
    /// transform function first.  The range is `100`-based, so for the
    /// range `2xx`, `2` must be provided.  A hidden result adds
    /// nothing.
    pub fn response_range_with<F: FnOnce(TransformResponse) -> TransformResponse>(
        self,
        range: u16,
        res: Option<Response>,
        transform: F,
        ctx: &mut GenContext,
    ) -> (r: Self)
        requires
            operation_wf(self@.operation),
            res is Some ==> (forall|tr: TransformResponse|
                #![trigger tr@]
                tr@ == (TransformResponseView {
                    hidden: false,
                    response: opt_response_view(res)->Some_0,
                }) ==> call_requires(transform, (tr,))),
        ensures
            r@.hidden == self@.hidden,
            operation_wf(r@.operation),
            ({
                let op1 = spec_ensure_responses(self@.operation);
                match opt_response_view(res) {
                    None => r@.operation == op1 && final(ctx)@ == old(ctx)@,
                    Some(rv) => exists|tr: TransformResponse, t: TransformResponse|
                        #[trigger] call_ensures(transform, (tr,), t)
                        && tr@ == (TransformResponseView { hidden: false, response: rv })
                        && if t@.hidden {
                            r@.operation == op1 && final(ctx)@ == old(ctx)@
                        } else {
                            r@.operation == spec_insert_response(
                                self@.operation,
                                StatusCode::Range(range),
                                t@.response,
                            )
                            && final(ctx)@ == context_record(
                                old(ctx)@,
                                if spec_insert_had_key(self@.operation, StatusCode::Range(range)) {
                                    Some(ErrorView::ResponseExists(StatusCode::Range(range)))
                                } else {
                                    None
                                },
                            )
                        },
                }
            }),
    {
        self.response_keyed_with(StatusCode::Range(range), res, transform, ctx)
    }
}

/// The view of an optional operation slot.
pub open spec fn opt_op_view(o: Option<Operation>) -> Option<OperationView> {
    match o {
        Some(op) => Some(op@),
        None => None,
    }
}

/// One operation slot after asking for a default response.
pub open spec fn spec_opt_op_default(
    o: Option<OperationView>,
    res: Option<ResponseView>,
) -> Option<OperationView> {
    match o {
        None => None,
        Some(op) => Some(spec_default_response(op, res)),
    }
}

/// The error that one operation slot records when asked for a default
/// response.
pub open spec fn spec_opt_op_default_error(
    o: Option<OperationView>,
    has_res: bool,
) -> Option<ErrorView> {
    match o {
        None => None,
        Some(op) => spec_default_response_error(op, has_res),
    }
}

/// A path item after asking for a default response on every operation
/// it holds.
pub open spec fn spec_path_default(p: PathItemView, res: Option<ResponseView>) -> PathItemView {
    PathItemView {
        description: p.description,
        get: spec_opt_op_default(p.get, res),
        put: spec_opt_op_default(p.put, res),
        post: spec_opt_op_default(p.post, res),
        delete: spec_opt_op_default(p.delete, res),
        options: spec_opt_op_default(p.options, res),
        head: spec_opt_op_default(p.head, res),
        patch: spec_opt_op_default(p.patch, res),
        trace: spec_opt_op_default(p.trace, res),
    }
}

/// One entry of the path map after asking for a default response: a
/// reference is left alone, an inlined path item is transformed.
pub open spec fn spec_path_entry_default(
    e: (Seq<char>, ReferenceOrView<PathItemView>),
    res: Option<ResponseView>,
) -> (Seq<char>, ReferenceOrView<PathItemView>) {
    match e.1 {
        ReferenceOrView::Reference { .. } => e,
        ReferenceOrView::Item(p) => (e.0, ReferenceOrView::Item(spec_path_default(p, res))),
    }
}

/// A whole document after asking for a default response on every
/// operation of every inlined path.
pub open spec fn spec_openapi_default(a: OpenApiView, res: Option<ResponseView>) -> OpenApiView {
    match a.paths {
        None => a,
        Some(ps) => OpenApiView {
            paths: Some(PathsView {
                paths: Seq::new(ps.paths.len(), |i: int| spec_path_entry_default(ps.paths[i], res)),
            }),
        },
    }
}

/// Whether the document holds at least one inlined path item.
pub open spec fn spec_has_item_path(a: OpenApiView) -> bool {
    match a.paths {
        None => false,
        Some(ps) => exists|i: int| 0 <= i < ps.paths.len() && ps.paths[i].1 is Item,
    }
}

/// A fresh copy of an optional response, equal in view.
fn duplicate_opt_response(res: &Option<Response>) -> (r: Option<Response>)
    ensures
        opt_response_view(r) == opt_response_view(*res),
        r is Some <==> *res is Some,
{
    match res {
        Some(x) => Some(x.duplicate()),
        None => None,
    }
}

/// Ask one operation slot for a default response.
fn apply_default_to_op(op: &mut Option<Operation>, res: &Option<Response>, ctx: &mut GenContext)
    ensures
        opt_op_view(*final(op)) == spec_opt_op_default(opt_op_view(*old(op)), opt_response_view(*res)),
        final(ctx)@ == context_record(
            old(ctx)@,
            spec_opt_op_default_error(opt_op_view(*old(op)), *res is Some),
        ),
{
    match op.take() {
        None => {},
        Some(o) => {
            let dup = duplicate_opt_response(res);
            let t = TransformOperation::new(o).default_response(dup, ctx);
            *op = Some(t.into_inner());
        },
    }
}

impl TransformPathItem {
    /// Set a default response for all operations in the path that do
    /// not already have one.  Duplicate-response errors are filtered
    /// out while this runs.
    pub fn default_response(self, res: Option<Response>, ctx: &mut GenContext) -> (r: Self)
        ensures
            r@.hidden == self@.hidden,
            r@.path == spec_path_default(self@.path, opt_response_view(res)),
            final(ctx)@.errors == old(ctx)@.errors,
            final(ctx)@.show_error == ErrorFilter::All,
    {
        let mut s = self;
        let ghost p0 = s@.path;
        ctx.show_error = ErrorFilter::NoDuplicateResponse;
        apply_default_to_op(&mut s.path.get, &res, ctx);
        apply_default_to_op(&mut s.path.put, &res, ctx);
        apply_default_to_op(&mut s.path.post, &res, ctx);
        apply_default_to_op(&mut s.path.delete, &res, ctx);
        apply_default_to_op(&mut s.path.options, &res, ctx);
        apply_default_to_op(&mut s.path.head, &res, ctx);
        apply_default_to_op(&mut s.path.patch, &res, ctx);
        apply_default_to_op(&mut s.path.trace, &res, ctx);
        ctx.reset_error_filter();
        proof {
            assert(s@.path =~= spec_path_default(p0, opt_response_view(res)));
        }
        s
    }
}

impl TransformOpenApi {
    /// Set a default response for all operations of all inlined paths
    /// that do not already have one.
    #[verifier::loop_isolation(false)]
    pub fn default_response(self, res: Option<Response>, ctx: &mut GenContext) -> (r: Self)
        ensures
            r@.api == spec_openapi_default(self@.api, opt_response_view(res)),
            final(ctx)@.errors == old(ctx)@.errors,
            final(ctx)@.show_error == (if spec_has_item_path(self@.api) {
                ErrorFilter::All
            } else {
                old(ctx)@.show_error
            }),
    {
        let mut s = self;
        let ghost a0 = s@.api;
        let ghost resv = opt_response_view(res);
        let ghost ctx0 = ctx@;
        match &mut s.api.paths {
            None => {},
            Some(paths) => {
                let ghost ps0 = paths@.paths;
                let n = paths.paths.len();
                let mut i: usize = 0;
                while i < n
                    invariant
                        i <= n,
                        n == paths.paths@.len(),
                        ps0.len() == n,
                        forall|j: int|
                            0 <= j < i ==> paths@.paths[j] == spec_path_entry_default(ps0[j], resv),
                        forall|j: int| i <= j < n ==> paths@.paths[j] == ps0[j],
                        ctx@.errors == ctx0.errors,
                        ctx@.show_error == (if exists|j: int| 0 <= j < i && ps0[j].1 is Item {
                            ErrorFilter::All
                        } else {
                            ctx0.show_error
                        }),
                    decreases n - i,
                {
                    let ghost it0 = paths@.paths;
                    let ghost ctx_it = ctx@;
                    let entry = paths.paths.remove(i);
                    match entry {
                        (name, ReferenceOr::Item(p)) => {
                            let dup = duplicate_opt_response(&res);
                            let t = TransformPathItem::new(p).default_response(dup, ctx);
                            paths.paths.insert(i, (name, ReferenceOr::Item(t.into_inner())));
                            proof {
                                assert(ps0[i as int].1 is Item);
                                assert(paths@.paths =~= it0.update(
                                    i as int,
                                    spec_path_entry_default(ps0[i as int], resv),
                                ));
                            }
                        },
                        (name, other) => {
                            paths.paths.insert(i, (name, other));
                            proof {
                                assert(paths@.paths =~= it0);
                                assert(ctx@ == ctx_it);
                            }
                        },
                    }
                    i += 1;
                }
                proof {
                    assert(paths@.paths =~= Seq::new(
                        ps0.len(),
                        |j: int| spec_path_entry_default(ps0[j], resv),
                    ));
                }
            },
        }
        proof {
            if a0.paths is Some {
                assert(s@.api =~= spec_openapi_default(a0, resv));
            }
        }
        s
    }
}

/// How one operation relates to its earlier state after asking for a
/// default response through a transform function.
#[verifier::opaque]
pub open spec fn spec_op_default_with_rel<F: FnOnce(TransformResponse) -> TransformResponse>(
    f: F,
    op: OperationView,
    op2: OperationView,
    res: Option<ResponseView>,
) -> bool {
    let op1 = spec_ensure_responses(op);
    match res {
        None => op2 == op1,
        Some(rv) => if op1.responses->Some_0.default is Some {
            op2 == op1
        } else {
            exists|tr: TransformResponse, t: TransformResponse|
                #[trigger] call_ensures(f, (tr,), t)
                && tr@ == (TransformResponseView { hidden: false, response: rv })
                && op2 == (if t@.hidden {
                    op1
                } else {
                    spec_with_default(op1, t@.response)
                })
        },
    }
}

/// The relation of one operation slot, absent slots staying absent.
pub open spec fn spec_opt_op_default_with_rel<F: FnOnce(TransformResponse) -> TransformResponse>(
    f: F,
    o: Option<OperationView>,
    o2: Option<OperationView>,
    res: Option<ResponseView>,
) -> bool {
    match o {
        None => o2 is None,
        Some(op) => o2 is Some && spec_op_default_with_rel(f, op, o2->Some_0, res),
    }
}

/// The relation of a whole path item, slot by slot.
pub open spec fn spec_path_default_with_rel<F: FnOnce(TransformResponse) -> TransformResponse>(
    f: F,
    p: PathItemView,
    p2: PathItemView,
    res: Option<ResponseView>,
) -> bool {
    &&& p2.description == p.description
    &&& spec_opt_op_default_with_rel(f, p.get, p2.get, res)
    &&& spec_opt_op_default_with_rel(f, p.put, p2.put, res)
    &&& spec_opt_op_default_with_rel(f, p.post, p2.post, res)
    &&& spec_opt_op_default_with_rel(f, p.delete, p2.delete, res)
    &&& spec_opt_op_default_with_rel(f, p.options, p2.options, res)
    &&& spec_opt_op_default_with_rel(f, p.head, p2.head, res)
    &&& spec_opt_op_default_with_rel(f, p.patch, p2.patch, res)
    &&& spec_opt_op_default_with_rel(f, p.trace, p2.trace, res)
}

/// The relation of one entry of the path map: a reference is left
/// alone, an inlined path item is transformed slot by slot.
pub open spec fn spec_entry_default_with_rel<F: FnOnce(TransformResponse) -> TransformResponse>(
    f: F,
    e: (Seq<char>, ReferenceOrView<PathItemView>),
    e2: (Seq<char>, ReferenceOrView<PathItemView>),
    res: Option<ResponseView>,
) -> bool {
    match e.1 {
        ReferenceOrView::Reference { .. } => e2 == e,
        ReferenceOrView::Item(p) => e2.0 == e.0 && e2.1 is Item && spec_path_default_with_rel(
            f,
            p,
            e2.1->Item_0,
            res,
        ),
    }
}

/// What one optional error contributes to the record, under a filter.
#[verifier::opaque]
pub open spec fn err_seq_of(e: Option<ErrorView>, filter: ErrorFilter) -> Seq<ErrorView> {
    match e {
        None => Seq::empty(),
        Some(ev) => if filter_allows(filter, ev) {
            seq![ev]
        } else {
            Seq::empty()
        },
    }
}

/// The errors one path item records when every operation is asked for
/// a default response, in the order the operations are visited.
pub open spec fn spec_path_default_err_seq(
    p: PathItemView,
    has_res: bool,
    filter: ErrorFilter,
) -> Seq<ErrorView> {
    err_seq_of(spec_opt_op_default_error(p.get, has_res), filter)
        + err_seq_of(spec_opt_op_default_error(p.put, has_res), filter)
        + err_seq_of(spec_opt_op_default_error(p.post, has_res), filter)
        + err_seq_of(spec_opt_op_default_error(p.delete, has_res), filter)
        + err_seq_of(spec_opt_op_default_error(p.options, has_res), filter)
        + err_seq_of(spec_opt_op_default_error(p.head, has_res), filter)
        + err_seq_of(spec_opt_op_default_error(p.patch, has_res), filter)
        + err_seq_of(spec_opt_op_default_error(p.trace, has_res), filter)
}

/// Ask one operation slot for a default response through a transform
/// function, and hand the function back for the next slot.
fn apply_default_with_to_op<F: Fn(TransformResponse) -> TransformResponse>(
    op: &mut Option<Operation>,
    res: &Option<Response>,
    transform: F,
    ctx: &mut GenContext,
) -> (rt: F)
    requires
        *res is Some ==> (forall|tr: TransformResponse|
            #![trigger tr@]
            tr@ == (TransformResponseView {
                hidden: false,
                response: opt_response_view(*res)->Some_0,
            }) ==> call_requires(transform, (tr,))),
    ensures
        rt == transform,
        spec_opt_op_default_with_rel(
            transform,
            opt_op_view(*old(op)),
            opt_op_view(*final(op)),
            opt_response_view(*res),
        ),
        final(ctx)@.show_error == old(ctx)@.show_error,
        final(ctx)@.errors == old(ctx)@.errors + err_seq_of(
            spec_opt_op_default_error(opt_op_view(*old(op)), *res is Some),
            old(ctx)@.show_error,
        ),
{
    proof {
        reveal(spec_op_default_with_rel);
        reveal(err_seq_of);
    }
    let ghost ctx0 = ctx@;
    match op.take() {
        None => {},
        Some(o) => {
            let dup = duplicate_opt_response(res);
            let wrapper = |x: TransformResponse| -> (w: TransformResponse)
                requires
                    call_requires(transform, (x,)),
                ensures
                    call_ensures(transform, (x,), w),
                {
                    transform(x)
                };
            let t = TransformOperation::new(o).default_response_with(dup, wrapper, ctx);
            *op = Some(t.into_inner());
        },
    }
    proof {
        assert(ctx@.errors =~= ctx0.errors + err_seq_of(
            spec_opt_op_default_error(opt_op_view(*old(op)), *res is Some),
            ctx0.show_error,
        ));
    }
    transform
}

proof fn lemma_path_default_err_seq(p: PathItemView, hr: bool, f: ErrorFilter)
    ensures
        spec_path_default_err_seq(p, hr, f) == err_seq_of(spec_opt_op_default_error(p.get, hr), f)
            + err_seq_of(spec_opt_op_default_error(p.put, hr), f)
            + err_seq_of(spec_opt_op_default_error(p.post, hr), f)
            + err_seq_of(spec_opt_op_default_error(p.delete, hr), f)
            + err_seq_of(spec_opt_op_default_error(p.options, hr), f)
            + err_seq_of(spec_opt_op_default_error(p.head, hr), f)
            + err_seq_of(spec_opt_op_default_error(p.patch, hr), f)
            + err_seq_of(spec_opt_op_default_error(p.trace, hr), f),
{
}

/// Under the duplicate-suppressing filter, a bulk default-response
/// pass over a path item records nothing.
proof fn lemma_path_default_err_seq_suppressed(p: PathItemView, hr: bool)
    ensures
        spec_path_default_err_seq(p, hr, ErrorFilter::NoDuplicateResponse)
            == Seq::<ErrorView>::empty(),
{
    reveal(err_seq_of);
    assert(spec_path_default_err_seq(p, hr, ErrorFilter::NoDuplicateResponse)
        =~= Seq::<ErrorView>::empty());
}

/// Ask every operation slot of one path item for a default response
/// through a transform function, and hand the item and the function
/// back.
#[verifier::rlimit(100)]
#[verifier::spinoff_prover]
fn apply_default_with_to_path<F: Fn(TransformResponse) -> TransformResponse>(
    item: PathItem,
    res: &Option<Response>,
    transform: F,
    ctx: &mut GenContext,
) -> (pr: (PathItem, F))
    requires
        *res is Some ==> (forall|tr: TransformResponse|
            #![trigger tr@]
            tr@ == (TransformResponseView {
                hidden: false,
                response: opt_response_view(*res)->Some_0,
            }) ==> call_requires(transform, (tr,))),
    ensures
        pr.1 == transform,
        spec_path_default_with_rel(transform, item@, pr.0@, opt_response_view(*res)),
        final(ctx)@.show_error == old(ctx)@.show_error,
        final(ctx)@.errors == old(ctx)@.errors
            + err_seq_of(spec_opt_op_default_error(item@.get, *res is Some), old(ctx)@.show_error)
            + err_seq_of(spec_opt_op_default_error(item@.put, *res is Some), old(ctx)@.show_error)
            + err_seq_of(spec_opt_op_default_error(item@.post, *res is Some), old(ctx)@.show_error)
            + err_seq_of(spec_opt_op_default_error(item@.delete, *res is Some), old(ctx)@.show_error)
            + err_seq_of(spec_opt_op_default_error(item@.options, *res is Some), old(ctx)@.show_error)
            + err_seq_of(spec_opt_op_default_error(item@.head, *res is Some), old(ctx)@.show_error)
            + err_seq_of(spec_opt_op_default_error(item@.patch, *res is Some), old(ctx)@.show_error)
            + err_seq_of(spec_opt_op_default_error(item@.trace, *res is Some), old(ctx)@.show_error),
{
    let ghost ctx0 = ctx@;
    let ghost p0 = item@;
    let ghost hr = *res is Some;
    let PathItem {
        description,
        mut get,
        mut put,
        mut post,
        mut delete,
        mut options,
        mut head,
        mut patch,
        mut trace,
    } = item;
    let transform = apply_default_with_to_op(&mut get, res, transform, ctx);
    let transform = apply_default_with_to_op(&mut put, res, transform, ctx);
    let transform = apply_default_with_to_op(&mut post, res, transform, ctx);
    let transform = apply_default_with_to_op(&mut delete, res, transform, ctx);
    let transform = apply_default_with_to_op(&mut options, res, transform, ctx);
    let transform = apply_default_with_to_op(&mut head, res, transform, ctx);
    let transform = apply_default_with_to_op(&mut patch, res, transform, ctx);
    let transform = apply_default_with_to_op(&mut trace, res, transform, ctx);
    let out = PathItem { description, get, put, post, delete, options, head, patch, trace };
    proof {
        assert(spec_path_default_with_rel(transform, p0, out@, opt_response_view(*res)));
    }
    (out, transform)
}

/// The per-path helper, with its recorded errors stated as one
/// aggregated sequence.
#[verifier::rlimit(100)]
#[verifier::spinoff_prover]
fn apply_default_with_to_path_agg<F: Fn(TransformResponse) -> TransformResponse>(
    item: PathItem,
    res: &Option<Response>,
    transform: F,
    ctx: &mut GenContext,
) -> (pr: (PathItem, F))
    requires
        *res is Some ==> (forall|tr: TransformResponse|
            #![trigger tr@]
            tr@ == (TransformResponseView {
                hidden: false,
                response: opt_response_view(*res)->Some_0,
            }) ==> call_requires(transform, (tr,))),
    ensures
        pr.1 == transform,
        spec_path_default_with_rel(transform, item@, pr.0@, opt_response_view(*res)),
        final(ctx)@.show_error == old(ctx)@.show_error,
        final(ctx)@.errors == old(ctx)@.errors + spec_path_default_err_seq(
            item@,
            *res is Some,
            old(ctx)@.show_error,
        ),
{
    let ghost ctx0 = ctx@;
    let ghost p0 = item@;
    let ghost hr = *res is Some;
    let ghost f = ctx0.show_error;
    let ghost t1 = err_seq_of(spec_opt_op_default_error(p0.get, hr), f);
    let ghost t2 = err_seq_of(spec_opt_op_default_error(p0.put, hr), f);
    let ghost t3 = err_seq_of(spec_opt_op_default_error(p0.post, hr), f);
    let ghost t4 = err_seq_of(spec_opt_op_default_error(p0.delete, hr), f);
    let ghost t5 = err_seq_of(spec_opt_op_default_error(p0.options, hr), f);
    let ghost t6 = err_seq_of(spec_opt_op_default_error(p0.head, hr), f);
    let ghost t7 = err_seq_of(spec_opt_op_default_error(p0.patch, hr), f);
    let ghost t8 = err_seq_of(spec_opt_op_default_error(p0.trace, hr), f);
    let pr = apply_default_with_to_path(item, res, transform, ctx);
    proof {
        let e0 = ctx0.errors;
        assert(ctx@.errors == e0 + t1 + t2 + t3 + t4 + t5 + t6 + t7 + t8);
        lemma_path_default_err_seq(p0, hr, f);
        assert(spec_path_default_err_seq(p0, hr, f) == t1 + t2 + t3 + t4 + t5 + t6 + t7 + t8);
        vstd::seq_lib::lemma_concat_associative(e0, t1, t2);
        vstd::seq_lib::lemma_concat_associative(e0, t1 + t2, t3);
        vstd::seq_lib::lemma_concat_associative(e0, t1 + t2 + t3, t4);
        vstd::seq_lib::lemma_concat_associative(e0, t1 + t2 + t3 + t4, t5);
        vstd::seq_lib::lemma_concat_associative(e0, t1 + t2 + t3 + t4 + t5, t6);
        vstd::seq_lib::lemma_concat_associative(e0, t1 + t2 + t3 + t4 + t5 + t6, t7);
        vstd::seq_lib::lemma_concat_associative(e0, t1 + t2 + t3 + t4 + t5 + t6 + t7, t8);
        assert(ctx@.errors == e0 + spec_path_default_err_seq(p0, hr, f));
    }
    pr
}

impl TransformPathItem {
    /// Set a default response for all operations in the path that do
    /// not already have one, passing each generated documentation
    /// through the transform function.  Duplicate-response errors are
    /// filtered out while this runs.
    pub fn default_response_with<F: Fn(TransformResponse) -> TransformResponse>(
        self,
        res: Option<Response>,
        transform: F,
        ctx: &mut GenContext,
    ) -> (r: Self)
        requires
            res is Some ==> (forall|tr: TransformResponse|
                #![trigger tr@]
                tr@ == (TransformResponseView {
                    hidden: false,
                    response: opt_response_view(res)->Some_0,
                }) ==> call_requires(transform, (tr,))),
        ensures
            r@.hidden == self@.hidden,
            spec_path_default_with_rel(transform, self@.path, r@.path, opt_response_view(res)),
            final(ctx)@.errors == old(ctx)@.errors,
            final(ctx)@.show_error == ErrorFilter::All,
    {
        let mut s = self;
        ctx.show_error = ErrorFilter::NoDuplicateResponse;
        let ghost ctxf = ctx@;
        let transform = apply_default_with_to_op(&mut s.path.get, &res, transform, ctx);
        let transform = apply_default_with_to_op(&mut s.path.put, &res, transform, ctx);
        let transform = apply_default_with_to_op(&mut s.path.post, &res, transform, ctx);
        let transform = apply_default_with_to_op(&mut s.path.delete, &res, transform, ctx);
        let transform = apply_default_with_to_op(&mut s.path.options, &res, transform, ctx);
        let transform = apply_default_with_to_op(&mut s.path.head, &res, transform, ctx);
        let transform = apply_default_with_to_op(&mut s.path.patch, &res, transform, ctx);
        let _transform = apply_default_with_to_op(&mut s.path.trace, &res, transform, ctx);
        proof {
            reveal(err_seq_of);
            assert(ctx@.errors =~= ctxf.errors);
        }
        ctx.reset_error_filter();
        s
    }
}

impl TransformOpenApi {
    /// Set a default response for all operations of all inlined paths
    /// that do not already have one, passing each generated
    /// documentation through the transform function.  Duplicate
    /// defaults are filtered out while this runs.
    #[verifier::loop_isolation(false)]
    #[verifier::rlimit(100)]
    #[verifier::spinoff_prover]
    pub fn default_response_with<F: Fn(TransformResponse) -> TransformResponse>(
        self,
        res: Option<Response>,
        transform: F,
        ctx: &mut GenContext,
    ) -> (r: Self)
        requires
            res is Some ==> (forall|tr: TransformResponse|
                #![trigger tr@]
                tr@ == (TransformResponseView {
                    hidden: false,
                    response: opt_response_view(res)->Some_0,
                }) ==> call_requires(transform, (tr,))),
        ensures
            final(ctx)@.errors == old(ctx)@.errors,
            final(ctx)@.show_error == ErrorFilter::All,
            ({
                match self@.api.paths {
                    None => r@.api == self@.api,
                    Some(ps0) => {
                        &&& r@.api.paths is Some
                        &&& r@.api.paths->Some_0.paths.len() == ps0.paths.len()
                        &&& forall|k: int|
                            0 <= k < ps0.paths.len() ==> spec_entry_default_with_rel(
                                transform,
                                ps0.paths[k],
                                #[trigger] r@.api.paths->Some_0.paths[k],
                                opt_response_view(res),
                            )
                    },
                }
            }),
    {
        let mut s = self;
        let ghost resv = opt_response_view(res);
        ctx.show_error = ErrorFilter::NoDuplicateResponse;
        let ghost ctx0 = ctx@;
        let mut tfm = transform;
        let ghost tf0 = tfm;
        match &mut s.api.paths {
            None => {},
            Some(paths) => {
                let ghost ps0 = paths@.paths;
                let n = paths.paths.len();
                let mut i: usize = 0;
                while i < n
                    invariant
                        i <= n,
                        n == paths.paths@.len(),
                        ps0.len() == n,
                        tfm == tf0,
                        forall|j: int|
                            0 <= j < i ==> spec_entry_default_with_rel(
                                tf0,
                                ps0[j],
                                #[trigger] paths@.paths[j],
                                resv,
                            ),
                        forall|j: int| i <= j < n ==> paths@.paths[j] == ps0[j],
                        ctx@.errors == ctx0.errors,
                        ctx@.show_error == ErrorFilter::NoDuplicateResponse,
                    decreases n - i,
                {
                    let ghost it0 = paths@.paths;
                    let ghost ctx_it = ctx@;
                    let entry = paths.paths.remove(i);
                    match entry {
                        (name, ReferenceOr::Item(p)) => {
                            let ghost pv = ps0[i as int].1->Item_0;
                            let pr = apply_default_with_to_path_agg(p, &res, tfm, ctx);
                            let item = pr.0;
                            tfm = pr.1;
                            proof {
                                lemma_path_default_err_seq_suppressed(pv, resv is Some);
                                assert(ctx@.errors =~= ctx_it.errors);
                            }
                            paths.paths.insert(i, (name, ReferenceOr::Item(item)));
                            proof {
                                assert(spec_path_default_with_rel(
                                    tf0,
                                    pv,
                                    paths@.paths[i as int].1->Item_0,
                                    resv,
                                ));
                                assert(forall|j: int|
                                    0 <= j < i ==> #[trigger] paths@.paths[j] == it0[j]);
                                assert(forall|j: int|
                                    i < j < n ==> #[trigger] paths@.paths[j] == it0[j]);
                            }
                        },
                        (name, other) => {
                            paths.paths.insert(i, (name, other));
                            proof {
                                assert(paths@.paths =~= it0);
                                assert(ctx@ == ctx_it);
                            }
                        },
                    }
                    i += 1;
                }
            },
        }
        ctx.reset_error_filter();
        s
    }
}

/// A transform helper that wraps a [`Parameter`].
#[must_use]
pub struct TransformParameter {
    pub hidden: bool,
    pub param: Parameter,
}

/// The view of a [`TransformParameter`].
#[verifier::ext_equal]
pub ghost struct TransformParameterView {
    pub hidden: bool,
    pub param: ParameterView,
}

impl View for TransformParameter {
    type V = TransformParameterView;

    open spec fn view(&self) -> TransformParameterView {
        TransformParameterView { hidden: self.hidden, param: self.param@ }
    }
}

impl TransformParameter {
    /// Create a new transform helper.
    pub fn new(param: Parameter) -> (r: Self)
        ensures
            r@.hidden == false,
            r@.param == param@,
    {
        TransformParameter { hidden: false, param }
    }

    /// Hide the parameter from the documentation.
    ///
    /// Hiding an item causes it to be ignored completely; there is no
    /// way to restore or "unhide" it afterwards.
    pub fn hidden(self, hidden: bool) -> (r: Self)
        ensures
            r@.hidden == hidden,
            r@.param == self@.param,
    {
        let mut s = self;
        s.hidden = hidden;
        s
    }

    /// Provide or override the description of the parameter.
    pub fn description(self, desc: &str) -> (r: Self)
        ensures
            r@.hidden == self@.hidden,
            r@.param == self@.param.with_data(crate::openapi::ParameterDataView {
                description: Some(desc@),
                ..self@.param.data()
            }),
    {
        let mut s = self;
        let ghost v0 = s@;
        match &mut s.param {
            Parameter::Query { parameter_data } => {
                parameter_data.description = Some(desc.to_string());
            },
            Parameter::Header { parameter_data } => {
                parameter_data.description = Some(desc.to_string());
            },
            Parameter::Path { parameter_data } => {
                parameter_data.description = Some(desc.to_string());
            },
            Parameter::Cookie { parameter_data } => {
                parameter_data.description = Some(desc.to_string());
            },
        }
        proof {
            assert(s@.param =~= v0.param.with_data(crate::openapi::ParameterDataView {
                description: Some(desc@),
                ..v0.param.data()
            }));
        }
        s
    }

    /// Apply an another transform function.
    pub fn with(self, transform: impl FnOnce(TransformParameter) -> TransformParameter) -> (r: Self)
        requires
            call_requires(transform, (self,)),
        ensures
            call_ensures(transform, (self,), r),
    {
        transform(self)
    }

    /// Access the inner [`Parameter`].
    #[inline]
    pub fn inner_mut(&mut self) -> (r: &mut Parameter)
        ensures
            *r == old(self).param,
            *final(self) == (TransformParameter { hidden: old(self).hidden, param: *final(r) }),
    {
        &mut self.param
    }
}

/// A transform helper that wraps a [`Response`].
#[must_use]
pub struct TransformResponse {
    pub hidden: bool,
    pub response: Response,
}

/// The view of a [`TransformResponse`].
#[verifier::ext_equal]
pub ghost struct TransformResponseView {
    pub hidden: bool,
    pub response: ResponseView,
}

impl View for TransformResponse {
    type V = TransformResponseView;

    open spec fn view(&self) -> TransformResponseView {
        TransformResponseView { hidden: self.hidden, response: self.response@ }
    }
}

impl TransformResponse {
    /// Create a new transform helper.
    pub fn new(response: Response) -> (r: Self)
        ensures
            r@.hidden == false,
            r@.response == response@,
    {
        TransformResponse { hidden: false, response }
    }

    /// Hide the response from the documentation.
    ///
    /// Hiding an item causes it to be ignored completely; there is no
    /// way to restore or "unhide" it afterwards.
    pub fn hidden(self, hidden: bool) -> (r: Self)
        ensures
            r@.hidden == hidden,
            r@.response == self@.response,
    {
        let mut s = self;
        s.hidden = hidden;
        s
    }

    /// Provide or override the description of the response.
    pub fn description(self, desc: &str) -> (r: Self)
        ensures
            r@.hidden == self@.hidden,
            r@.response == (ResponseView { description: desc@, ..self@.response }),
    {
        let mut s = self;
        let ghost v0 = s@;
        s.response.description = desc.to_string();
        proof {
            assert(s@.response =~= (ResponseView {
                description: desc@,
                ..v0.response
            }));
        }
        s
    }

    /// Provide or override an example for the response: every content
    /// entry receives the given already-encoded JSON value.
    pub fn example(self, example: serde_json::Value) -> (r: Self)
        ensures
            r@.hidden == self@.hidden,
            r@.response.description == self@.response.description,
            r@.response.content == spec_set_example(self@.response.content, example),
    {
        let mut s = self;
        let ghost v0 = s@;
        let n = s.response.content.len();
        let mut i: usize = 0;
        while i < n
            invariant
                i <= n,
                n == s.response.content@.len(),
                s@.hidden == v0.hidden,
                s@.response.description == v0.response.description,
                s@.response.content.len() == v0.response.content.len(),
                forall|j: int|
                    0 <= j < i ==> s@.response.content[j] == (
                    v0.response.content[j].0,
                    MediaType { example: Some(example) },
                ),
                forall|j: int| i <= j < n ==> s@.response.content[j] == v0.response.content[j],
            decreases n - i,
        {
            let ghost c0 = s@.response.content;
            let entry = s.response.content.remove(i);
            let media = MediaType { example: Some(clone_value(&example)) };
            s.response.content.insert(i, (entry.0, media));
            proof {
                assert(s@.response.content =~= c0.update(
                    i as int,
                    (c0[i as int].0, MediaType { example: Some(example) }),
                ));
            }
            i += 1;
        }
        proof {
            assert(s@.response.content =~= spec_set_example(v0.response.content, example));
        }
        s
    }

    /// Apply an another transform function.
    pub fn with(self, transform: impl FnOnce(TransformResponse) -> TransformResponse) -> (r: Self)
        requires
            call_requires(transform, (self,)),
        ensures
            call_ensures(transform, (self,), r),
    {
        transform(self)
    }

    /// Access the inner [`Response`].
    pub fn inner(&mut self) -> (r: &mut Response)
        ensures
            *r == old(self).response,
            *final(self) == (TransformResponse { hidden: old(self).hidden, response: *final(r) }),
    {
        &mut self.response
    }
}

} // verus!
