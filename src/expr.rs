//! The expression algebra: filter fragments, at most one KNN clause and bound
//! parameters, composed with `and` / `or` and materialized into a search.
use vstd::prelude::*;

use crate::args::copy_bytes;
use crate::error::Error;
use crate::field::Field;
use crate::query::{params_view, FTSearch, FTSearchOption, FTSearchParam};

verus! {

/// The direction of a sort.
#[derive(Debug, Clone, Copy, PartialEq, Eq, Structural)]
pub enum SortOrder {
    ASC,
    DESC,
}

/// A query expression under construction.
///
/// Every combinator consumes its operands and returns a fresh value. Once an
/// error is recorded it is the only thing that materialization reports.
#[derive(Debug)]
pub struct Expr {
    filter: String,
    knn_query: Option<String>,
    params: Vec<FTSearchParam>,
    error: Option<Error>,
    dialect: Option<usize>,
    sort_by: Option<(String, SortOrder)>,
}

/// The mathematical value of an [`Expr`].
pub struct ExprView {
    pub filter: Seq<char>,
    pub knn: Option<Seq<char>>,
    pub params: Seq<(Seq<char>, Seq<u8>)>,
    pub error: Option<Error>,
    pub dialect: Option<usize>,
    pub sort_by: Option<(Seq<char>, SortOrder)>,
}

impl View for Expr {
    type V = ExprView;

    closed spec fn view(&self) -> ExprView {
        ExprView {
            filter: self.filter@,
            knn: match self.knn_query {
                Some(k) => Some(k@),
                None => None,
            },
            params: params_view(self.params@),
            error: self.error,
            dialect: self.dialect,
            sort_by: match self.sort_by {
                Some((f, o)) => Some((f@, o)),
                None => None,
            },
        }
    }
}

/// No two parameters share a name.
pub open spec fn names_unique(p: Seq<(Seq<char>, Seq<u8>)>) -> bool {
    forall|i: int, j: int| 0 <= i < j < p.len() ==> p[i].0 != p[j].0
}

/// Some parameter name occurs in both sequences.
pub open spec fn names_overlap(a: Seq<(Seq<char>, Seq<u8>)>, b: Seq<(Seq<char>, Seq<u8>)>) -> bool {
    exists|i: int, j: int| 0 <= i < a.len() && 0 <= j < b.len() && a[i].0 == b[j].0
}

/// An expression that only carries a filter.
pub open spec fn filter_view(filter: Seq<char>) -> ExprView {
    ExprView {
        filter,
        knn: None,
        params: Seq::empty(),
        error: None,
        dialect: None,
        sort_by: None,
    }
}

/// An expression that only carries an error.
pub open spec fn failed_view(e: Error) -> ExprView {
    ExprView {
        filter: Seq::empty(),
        knn: None,
        params: Seq::empty(),
        error: Some(e),
        dialect: None,
        sort_by: None,
    }
}

/// Conjunction of two filters: adjacency, with an empty side dropped.
pub open spec fn and_filter(a: Seq<char>, b: Seq<char>) -> Seq<char> {
    if a.len() == 0 {
        b
    } else if b.len() == 0 {
        a
    } else {
        a + " "@ + b
    }
}

/// Disjunction of two filters: both sides parenthesized around `|`, with an
/// empty side dropped.
pub open spec fn or_filter(a: Seq<char>, b: Seq<char>) -> Seq<char> {
    if a.len() == 0 {
        b
    } else if b.len() == 0 {
        a
    } else {
        "("@ + a + ")|("@ + b + ")"@
    }
}

/// The composition of two expressions whose filters join into `filter`.
///
/// The left error wins, then the right one; two KNN clauses or a shared
/// parameter name are errors. Dialect and sort order are not carried over.
pub open spec fn compose(a: ExprView, b: ExprView, filter: Seq<char>) -> ExprView {
    if a.error is Some {
        failed_view(a.error->0)
    } else if b.error is Some {
        failed_view(b.error->0)
    } else if a.knn is Some && b.knn is Some {
        failed_view(Error::DuplicatedVectorQuery)
    } else if names_overlap(a.params, b.params) {
        failed_view(Error::DuplicatedParam)
    } else {
        ExprView {
            filter,
            knn: if a.knn is Some { a.knn } else { b.knn },
            params: a.params + b.params,
            error: None,
            dialect: None,
            sort_by: None,
        }
    }
}

/// `a.and(b)`.
pub open spec fn and_view(a: ExprView, b: ExprView) -> ExprView {
    compose(a, b, and_filter(a.filter, b.filter))
}

/// `a.or(b)`.
pub open spec fn or_view(a: ExprView, b: ExprView) -> ExprView {
    compose(a, b, or_filter(a.filter, b.filter))
}

/// The query text of a materialized expression.
pub open spec fn query_text(v: ExprView) -> Seq<char> {
    match v.knn {
        Some(k) => if v.filter.len() == 0 {
            "*=>"@ + k
        } else {
            "("@ + v.filter + ")=>"@ + k
        },
        None => v.filter,
    }
}

/// Materialization succeeds: no error, and a filter or a KNN clause.
pub open spec fn materializes(v: ExprView) -> bool {
    v.error is None && (v.knn is Some || v.filter.len() > 0)
}

/// `s` is the search that `v` materializes into against `index`.
pub open spec fn search_of(s: FTSearch, index: Seq<char>, v: ExprView) -> bool {
    &&& s.index@ == index
    &&& s.query@ == query_text(v)
    &&& s.option.returns is None
    &&& s.option.params is Some
    &&& params_view(s.option.params->0@) == v.params
    &&& s.option.sortby is None
    &&& s.option.dialect == v.dialect
}

fn names_collide(a: &Vec<FTSearchParam>, b: &Vec<FTSearchParam>) -> (r: bool)
    ensures
        r == names_overlap(params_view(a@), params_view(b@)),
{
    let ghost pa = params_view(a@);
    let ghost pb = params_view(b@);
    let mut i: usize = 0;
    while i < a.len()
        invariant
            0 <= i <= a@.len(),
            pa == params_view(a@),
            pb == params_view(b@),
            forall|x: int, y: int| 0 <= x < i && 0 <= y < b@.len() ==> pa[x].0 != pb[y].0,
        decreases a@.len() - i,
    {
        let mut j: usize = 0;
        while j < b.len()
            invariant
                0 <= i < a@.len(),
                0 <= j <= b@.len(),
                pa == params_view(a@),
                pb == params_view(b@),
                forall|x: int, y: int| 0 <= x < i && 0 <= y < b@.len() ==> pa[x].0 != pb[y].0,
                forall|y: int| 0 <= y < j ==> pa[i as int].0 != pb[y].0,
            decreases b@.len() - j,
        {
            if a[i].name == b[j].name {
                assert(pa[i as int].0 == pb[j as int].0);
                return true;
            }
            j = j + 1;
        }
        i = i + 1;
    }
    false
}

proof fn lemma_concat_unique(a: Seq<(Seq<char>, Seq<u8>)>, b: Seq<(Seq<char>, Seq<u8>)>)
    requires
        names_unique(a),
        names_unique(b),
        !names_overlap(a, b),
    ensures
        names_unique(a + b),
{
    assert forall|i: int, j: int| 0 <= i < j < (a + b).len() implies (a + b)[i].0 != (a + b)[j].0 by {
        if j < a.len() {
        } else if i >= a.len() {
            assert((a + b)[i] == b[i - a.len()]);
            assert((a + b)[j] == b[j - a.len()]);
        } else {
            assert((a + b)[i] == a[i]);
            assert((a + b)[j] == b[j - a.len()]);
        }
    }
}

fn and_strings(a: String, b: String) -> (r: String)
    ensures
        r@ == and_filter(a@, b@),
{
    if a.as_str().is_empty() {
        b
    } else if b.as_str().is_empty() {
        a
    } else {
        let mut s = a;
        s.append(" ");
        s.append(b.as_str());
        s
    }
}

fn or_strings(a: String, b: String) -> (r: String)
    ensures
        r@ == or_filter(a@, b@),
{
    if a.as_str().is_empty() {
        b
    } else if b.as_str().is_empty() {
        a
    } else {
        let mut s = String::from_str("(");
        s.append(a.as_str());
        s.append(")|(");
        s.append(b.as_str());
        s.append(")");
        assert(s@ =~= "("@ + a@ + ")|("@ + b@ + ")"@);
        s
    }
}

impl Expr {
    /// The expression is well formed: its parameter names are unique, and an
    /// error leaves no filter, KNN clause or parameter beside it.
    pub open spec fn wf(&self) -> bool {
        &&& names_unique(self@.params)
        &&& self@.error is Some ==> self@.filter.len() == 0 && self@.knn is None && self@.params.len() == 0
    }

    /// An expression that only carries `filter`.
    pub fn from_filter(filter: String) -> (r: Expr)
        ensures
            r.wf(),
            r@ == filter_view(filter@),
    {
        let r = Expr {
            filter,
            knn_query: None,
            params: Vec::new(),
            error: None,
            dialect: None,
            sort_by: None,
        };
        assert(r@.params =~= Seq::<(Seq<char>, Seq<u8>)>::empty());
        r
    }

    /// An expression that carries a KNN clause and its one parameter.
    pub fn from_knn(knn: String, name: String, value: Vec<u8>) -> (r: Expr)
        ensures
            r.wf(),
            r@ == (ExprView {
                filter: Seq::empty(),
                knn: Some(knn@),
                params: seq![(name@, value@)],
                error: None,
                dialect: None,
                sort_by: None,
            }),
    {
        let mut params: Vec<FTSearchParam> = Vec::new();
        params.push(FTSearchParam { name, value });
        let r = Expr {
            filter: String::new(),
            knn_query: Some(knn),
            params,
            error: None,
            dialect: None,
            sort_by: None,
        };
        assert(r@.params =~= seq![(name@, value@)]);
        assert(r@.filter =~= Seq::<char>::empty());
        r
    }

    fn failed(e: Error) -> (r: Expr)
        ensures
            r.wf(),
            r@ == failed_view(e),
    {
        let r = Expr {
            filter: String::new(),
            knn_query: None,
            params: Vec::new(),
            error: Some(e),
            dialect: None,
            sort_by: None,
        };
        assert(r@.params =~= Seq::<(Seq<char>, Seq<u8>)>::empty());
        assert(r@.filter =~= Seq::<char>::empty());
        r
    }

    fn compose(self, other: Expr, disjunction: bool) -> (r: Expr)
        requires
            self.wf(),
            other.wf(),
        ensures
            r.wf(),
            r@ == compose(
                self@,
                other@,
                if disjunction { or_filter(self@.filter, other@.filter) } else { and_filter(self@.filter, other@.filter) },
            ),
    {
        if let Some(e) = self.error {
            return Expr::failed(e);
        }
        if let Some(e) = other.error {
            return Expr::failed(e);
        }
        if self.knn_query.is_some() && other.knn_query.is_some() {
            return Expr::failed(Error::DuplicatedVectorQuery);
        }
        if names_collide(&self.params, &other.params) {
            return Expr::failed(Error::DuplicatedParam);
        }
        let Expr { filter: lf, knn_query: lk, params: lp, .. } = self;
        let Expr { filter: rf, knn_query: rk, params: rp, .. } = other;
        let ghost (pa, pb) = (params_view(lp@), params_view(rp@));
        let filter = if disjunction { or_strings(lf, rf) } else { and_strings(lf, rf) };
        let knn_query = if lk.is_some() { lk } else { rk };
        let mut params = lp;
        let mut rest = rp;
        params.append(&mut rest);
        proof {
            assert(params_view(params@) =~= pa + pb);
            lemma_concat_unique(pa, pb);
        }
        Expr { filter, knn_query, params, error: None, dialect: None, sort_by: None }
    }

    /// Conjunction: the filters are joined by adjacency.
    pub fn and(self, other: Expr) -> (r: Expr)
        requires
            self.wf(),
            other.wf(),
        ensures
            r.wf(),
            r@ == and_view(self@, other@),
    {
        self.compose(other, false)
    }

    /// Disjunction: each filter is parenthesized and the two are joined by `|`.
    pub fn or(self, other: Expr) -> (r: Expr)
        requires
            self.wf(),
            other.wf(),
        ensures
            r.wf(),
            r@ == or_view(self@, other@),
    {
        self.compose(other, true)
    }

    /// Sets the sort attribute and direction.
    pub fn sort_by<F: Field>(self, field: F, order: SortOrder) -> (r: Expr)
        requires
            self.wf(),
        ensures
            r.wf(),
            r@ == (ExprView { sort_by: Some((field.name_view(), order)), ..self@ }),
    {
        let name = String::from_str(field.field_name());
        Expr { sort_by: Some((name, order)), ..self }
    }

    /// Sets the query dialect.
    pub fn dialect(self, dialect: usize) -> (r: Expr)
        requires
            self.wf(),
        ensures
            r.wf(),
            r@ == (ExprView { dialect: Some(dialect), ..self@ }),
    {
        Expr { dialect: Some(dialect), ..self }
    }

    /// Materializes the expression into a search against `index`.
    pub fn ft_search(&self, index: &str) -> (r: Result<FTSearch, Error>)
        ensures
            self@.error is Some ==> r == Err::<FTSearch, Error>(self@.error->0),
            self@.error is None && self@.knn is None && self@.filter.len() == 0 ==> r == Err::<
                FTSearch,
                Error,
            >(Error::EmptyQueryBody),
            r is Ok <==> materializes(self@),
            r is Ok ==> search_of(r->Ok_0, index@, self@),
    {
        if let Some(e) = self.error {
            return Err(e);
        }
        let query = match &self.knn_query {
            Some(knn) => {
                if self.filter.as_str().is_empty() {
                    let mut q = String::from_str("*=>");
                    q.append(knn.as_str());
                    q
                } else {
                    let mut q = String::from_str("(");
                    q.append(self.filter.as_str());
                    q.append(")=>");
                    q.append(knn.as_str());
                    assert(q@ =~= "("@ + self@.filter + ")=>"@ + knn@);
                    q
                }
            },
            None => {
                if self.filter.as_str().is_empty() {
                    return Err(Error::EmptyQueryBody);
                }
                self.filter.clone()
            },
        };
        let mut params: Vec<FTSearchParam> = Vec::new();
        let mut i: usize = 0;
        while i < self.params.len()
            invariant
                0 <= i <= self.params@.len(),
                params@.len() == i,
                params_view(params@) == params_view(self.params@).take(i as int),
            decreases self.params@.len() - i,
        {
            let p = &self.params[i];
            let name = p.name.clone();
            let value = copy_bytes(&p.value);
            let ghost before = params@;
            params.push(FTSearchParam { name, value });
            assert forall|k: int| 0 <= k < i + 1 implies params_view(params@)[k] == params_view(self.params@)[k] by {
                if k < i {
                    assert(params@[k] == before[k]);
                    assert(params_view(before)[k] == params_view(self.params@).take(i as int)[k]);
                }
            }
            assert(params_view(params@) =~= params_view(self.params@).take(i + 1));
            i = i + 1;
        }
        assert(params_view(self.params@).take(self.params@.len() as int) =~= params_view(self.params@));
        Ok(
            FTSearch {
                query,
                index: String::from_str(index),
                option: FTSearchOption { returns: None, params: Some(params), sortby: None, dialect: self.dialect },
            },
        )
    }
}

/// Composing two expressions that both carry a KNN clause, with `and` or
/// with `or`, fails with `DuplicatedVectorQuery`.
pub proof fn lemma_two_knn_clauses_fail(a: Expr, b: Expr)
    requires
        a.wf(),
        b.wf(),
        a@.knn is Some,
        b@.knn is Some,
    ensures
        and_view(a@, b@) == failed_view(Error::DuplicatedVectorQuery),
        or_view(a@, b@) == failed_view(Error::DuplicatedVectorQuery),
{
}

/// Composing two expressions that bind a common parameter name fails with
/// `DuplicatedParam`, with `and` or with `or`, unless both also carry a KNN
/// clause (that error is reported first).
pub proof fn lemma_shared_param_name_fails(a: Expr, b: Expr, i: int, j: int)
    requires
        a.wf(),
        b.wf(),
        0 <= i < a@.params.len(),
        0 <= j < b@.params.len(),
        a@.params[i].0 == b@.params[j].0,
        !(a@.knn is Some && b@.knn is Some),
    ensures
        and_view(a@, b@) == failed_view(Error::DuplicatedParam),
        or_view(a@, b@) == failed_view(Error::DuplicatedParam),
{
}

/// With both filters nonempty, `or` parenthesizes each side around `|` and
/// `and` joins them with one space. Without a KNN clause the composed
/// expression materializes to exactly that text. Excluded are the inputs on
/// which the composition fails instead: two KNN clauses or a shared
/// parameter name.
pub proof fn lemma_join_syntax(a: Expr, b: Expr)
    requires
        a.wf(),
        b.wf(),
        a@.filter.len() > 0,
        b@.filter.len() > 0,
        !(a@.knn is Some && b@.knn is Some),
        !names_overlap(a@.params, b@.params),
    ensures
        or_view(a@, b@).filter == "("@ + a@.filter + ")|("@ + b@.filter + ")"@,
        and_view(a@, b@).filter == a@.filter + " "@ + b@.filter,
        or_view(a@, b@).error is None,
        and_view(a@, b@).error is None,
        a@.knn is None && b@.knn is None ==> materializes(or_view(a@, b@)) && query_text(or_view(a@, b@))
            == "("@ + a@.filter + ")|("@ + b@.filter + ")"@,
        a@.knn is None && b@.knn is None ==> materializes(and_view(a@, b@)) && query_text(and_view(a@, b@))
            == a@.filter + " "@ + b@.filter,
{
}

} // verus!
