//! The search command and its encoding as arguments.
use vstd::prelude::*;

use crate::args::{args_view, decimal, push_blob, push_count, push_text, text, Arg, ArgView};

verus! {

/// A search command: an index, a query text and the options.
#[derive(Debug)]
pub struct FTSearch {
    pub query: String,
    pub index: String,
    pub option: FTSearchOption,
}

/// The optional sections of a search command.
#[derive(Debug)]
pub struct FTSearchOption {
    pub returns: Option<Vec<FTSearchReturn>>,
    pub params: Option<Vec<FTSearchParam>>,
    pub sortby: Option<SortBy>,
    pub dialect: Option<usize>,
}

/// The sort section of a search command.
#[derive(Debug)]
pub struct SortBy {
    pub attribute: String,
    pub asc: bool,
    pub with_count: Option<usize>,
}

/// One returned attribute. Only the identifier is encoded.
#[derive(Debug)]
pub struct FTSearchReturn {
    pub identifier: String,
    pub property: String,
}

/// One bound query parameter: a name and an opaque byte value.
#[derive(Debug)]
pub struct FTSearchParam {
    pub name: String,
    pub value: Vec<u8>,
}

/// The name and value of each parameter, in order.
pub open spec fn params_view(p: Seq<FTSearchParam>) -> Seq<(Seq<char>, Seq<u8>)> {
    p.map_values(|x: FTSearchParam| (x.name@, x.value@))
}

/// Parameters as interleaved name and value arguments.
pub open spec fn param_args(p: Seq<(Seq<char>, Seq<u8>)>) -> Seq<ArgView>
    decreases p.len(),
{
    if p.len() == 0 {
        Seq::empty()
    } else {
        param_args(p.drop_last()).push(text(p.last().0)).push(ArgView::Blob(p.last().1))
    }
}

/// The identifiers of the returned attributes.
pub open spec fn return_args(r: Seq<FTSearchReturn>) -> Seq<ArgView> {
    r.map_values(|x: FTSearchReturn| text(x.identifier@))
}

impl SortBy {
    /// The encoded sort section, without its keyword.
    pub open spec fn spec_args(&self) -> Seq<ArgView> {
        seq![text(self.attribute@), text(if self.asc { "ASC"@ } else { "DESC"@ })] + match self.with_count {
            Some(c) => seq![text(decimal(c as nat))],
            None => Seq::empty(),
        }
    }

    /// Appends the encoded sort section.
    pub fn write_args(&self, out: &mut Vec<Arg>)
        ensures
            args_view(final(out)@) == args_view(old(out)@) + self.spec_args(),
    {
        let ghost start = args_view(out@);
        push_text(out, self.attribute.as_str());
        if self.asc {
            push_text(out, "ASC");
        } else {
            push_text(out, "DESC");
        }
        if let Some(c) = self.with_count {
            push_count(out, c);
        }
        assert(args_view(out@) =~= start + self.spec_args());
    }
}

impl FTSearchOption {
    /// The encoded RETURN section, if any.
    pub open spec fn returns_args(&self) -> Seq<ArgView> {
        match self.returns {
            Some(r) => seq![text("RETURN"@), text(decimal(r@.len()))] + return_args(r@),
            None => Seq::empty(),
        }
    }

    /// The encoded PARAMS section: absent when no parameter is bound.
    pub open spec fn params_args(&self) -> Seq<ArgView> {
        match self.params {
            Some(p) => if p.len() > 0 {
                seq![text("PARAMS"@), text(decimal(2 * p@.len()))] + param_args(params_view(p@))
            } else {
                Seq::empty()
            },
            None => Seq::empty(),
        }
    }

    /// The encoded SORTBY section, if any.
    pub open spec fn sortby_args(&self) -> Seq<ArgView> {
        match self.sortby {
            Some(s) => seq![text("SORTBY"@)] + s.spec_args(),
            None => Seq::empty(),
        }
    }

    /// The encoded DIALECT section, if any.
    pub open spec fn dialect_args(&self) -> Seq<ArgView> {
        match self.dialect {
            Some(d) => seq![text("DIALECT"@), text(decimal(d as nat))],
            None => Seq::empty(),
        }
    }

    /// The encoded options, in protocol order.
    pub open spec fn spec_args(&self) -> Seq<ArgView> {
        self.returns_args() + self.params_args() + self.sortby_args() + self.dialect_args()
    }

    fn write_returns(&self, out: &mut Vec<Arg>)
        ensures
            args_view(final(out)@) == args_view(old(out)@) + self.returns_args(),
    {
        let ghost start = args_view(out@);
        if let Some(rets) = &self.returns {
            push_text(out, "RETURN");
            push_count(out, rets.len());
            let mut i: usize = 0;
            while i < rets.len()
                invariant
                    0 <= i <= rets@.len(),
                    args_view(out@) == start + seq![text("RETURN"@), text(decimal(rets@.len()))]
                        + return_args(rets@.take(i as int)),
                decreases rets@.len() - i,
            {
                push_text(out, rets[i].identifier.as_str());
                assert(return_args(rets@.take(i + 1)) =~= return_args(rets@.take(i as int)).push(
                    text(rets@[i as int].identifier@),
                ));
                i = i + 1;
            }
            assert(rets@.take(rets@.len() as int) =~= rets@);
        }
        assert(args_view(out@) =~= start + self.returns_args());
    }

    fn write_params(&self, out: &mut Vec<Arg>)
        ensures
            args_view(final(out)@) == args_view(old(out)@) + self.params_args(),
    {
        let ghost start = args_view(out@);
        if let Some(params) = &self.params {
            if params.len() > 0 {
                push_text(out, "PARAMS");
                let s = crate::args::u128_text(params.len() as u128 * 2);
                push_text(out, s.as_str());
                let ghost pv = params_view(params@);
                let mut i: usize = 0;
                while i < params.len()
                    invariant
                        0 <= i <= params@.len(),
                        pv == params_view(params@),
                        args_view(out@) == start + seq![text("PARAMS"@), text(decimal(2 * params@.len()))]
                            + param_args(pv.take(i as int)),
                    decreases params@.len() - i,
                {
                    push_text(out, params[i].name.as_str());
                    push_blob(out, &params[i].value);
                    assert(pv.take(i + 1).drop_last() =~= pv.take(i as int));
                    i = i + 1;
                }
                assert(pv.take(params@.len() as int) =~= pv);
            }
        }
        assert(args_view(out@) =~= start + self.params_args());
    }

    /// Appends the encoded options.
    pub fn write_args(&self, out: &mut Vec<Arg>)
        ensures
            args_view(final(out)@) == args_view(old(out)@) + self.spec_args(),
    {
        let ghost start = args_view(out@);
        self.write_returns(out);
        self.write_params(out);
        let ghost after_params = args_view(out@);
        if let Some(sort_by) = &self.sortby {
            push_text(out, "SORTBY");
            sort_by.write_args(out);
        }
        assert(args_view(out@) =~= after_params + self.sortby_args());
        let ghost after_sort = args_view(out@);
        if let Some(dialect) = self.dialect {
            push_text(out, "DIALECT");
            push_count(out, dialect);
        }
        assert(args_view(out@) =~= after_sort + self.dialect_args());
        assert(args_view(out@) =~= start + self.spec_args());
    }
}

impl FTSearch {
    /// The encoded command: index, query text, then the options.
    pub open spec fn spec_args(&self) -> Seq<ArgView> {
        seq![text(self.index@), text(self.query@)] + self.option.spec_args()
    }

    /// Appends the encoded command.
    pub fn write_args(&self, out: &mut Vec<Arg>)
        ensures
            args_view(final(out)@) == args_view(old(out)@) + self.spec_args(),
    {
        let ghost start = args_view(out@);
        push_text(out, self.index.as_str());
        push_text(out, self.query.as_str());
        self.option.write_args(out);
        assert(args_view(out@) =~= start + self.spec_args());
    }

    /// The encoded command as a fresh argument list.
    pub fn to_args(&self) -> (r: Vec<Arg>)
        ensures
            args_view(r@) == self.spec_args(),
    {
        let mut out: Vec<Arg> = Vec::new();
        self.write_args(&mut out);
        assert(args_view(Seq::<Arg>::empty()) =~= Seq::<ArgView>::empty());
        assert(args_view(out@) =~= self.spec_args());
        out
    }
}

} // verus!
