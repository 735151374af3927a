//! Bound statements: the validated, typed form of a `SELECT`.

use vstd::prelude::*;

use crate::ast::{Query, Select, SelectItem, SelectItemV, SelectV};
use crate::binder::expression::{bound_exprs_view, lemma_bound_exprs_view, spec_bind_expr, BoundExpr, BoundExprV};
use crate::binder::table::{spec_bind_table_ref, BoundTableRef};
use crate::binder::{BindError, BindErrorV, Binder, BinderV};
use crate::catalog::TableCatalogV;

verus! {

/// A bound `SELECT`: its projection list, its source table and its predicate.
#[derive(Debug)]
pub struct BoundSelect {
    pub select_list: Vec<BoundExpr>,
    pub from_table: Option<BoundTableRef>,
    pub where_clause: Option<BoundExpr>,
}

/// The model of a `BoundSelect`.
#[verifier::ext_equal]
pub struct BoundSelectV {
    pub select_list: Seq<BoundExprV>,
    pub from_table: Option<TableCatalogV>,
    pub where_clause: Option<BoundExprV>,
}

impl View for BoundSelect {
    type V = BoundSelectV;

    open spec fn view(&self) -> BoundSelectV {
        BoundSelectV {
            select_list: bound_exprs_view(self.select_list@),
            from_table: match &self.from_table {
                Some(t) => Some(t@),
                None => None,
            },
            where_clause: match &self.where_clause {
                Some(e) => Some(e@),
                None => None,
            },
        }
    }
}

/// A bound statement: the engine understands `SELECT` alone.
#[derive(Debug)]
pub enum BoundStatement {
    Select(BoundSelect),
}

/// The model of a `BoundStatement`.
#[verifier::ext_equal]
pub enum BoundStatementV {
    Select(BoundSelectV),
}

impl View for BoundStatement {
    type V = BoundStatementV;

    open spec fn view(&self) -> BoundStatementV {
        match self {
            BoundStatement::Select(s) => BoundStatementV::Select(s@),
        }
    }
}

/// Binding a projection list, left to right: only plain unaliased
/// expressions are understood; the first failure aborts.
pub open spec fn spec_bind_select_items(b: BinderV, items: Seq<SelectItemV>) -> Result<
    Seq<BoundExprV>,
    BindErrorV,
>
    decreases items,
{
    if items.len() == 0 {
        Ok(Seq::empty())
    } else {
        match spec_bind_select_item(b, items[0]) {
            Err(er) => Err(er),
            Ok(x) => match spec_bind_select_items(b, items.drop_first()) {
                Err(er) => Err(er),
                Ok(rest) => Ok(seq![x] + rest),
            },
        }
    }
}

/// Binding one projection item.
pub open spec fn spec_bind_select_item(b: BinderV, item: SelectItemV) -> Result<
    BoundExprV,
    BindErrorV,
> {
    match item {
        SelectItemV::UnnamedExpr(e) => spec_bind_expr(b, e),
        SelectItemV::ExprWithAlias { .. } => Err(
            BindErrorV::UnsupportedStmt("alias in select list"@),
        ),
        SelectItemV::Wildcard => Err(BindErrorV::UnsupportedStmt("wildcard in select list"@)),
        SelectItemV::QualifiedWildcard(_) => Err(
            BindErrorV::UnsupportedStmt("wildcard in select list"@),
        ),
    }
}

/// What binding a `SELECT` yields, and the scope it leaves behind: the
/// `FROM` table is bound and brought into scope first, then the projection
/// list, then the `WHERE` predicate.
pub open spec fn spec_bind_select(b: BinderV, s: SelectV) -> (Result<BoundSelectV, BindErrorV>, Seq<
    TableCatalogV,
>) {
    let from_res = if s.from.len() == 0 {
        Ok(None)
    } else {
        match spec_bind_table_ref(b, s.from[0]) {
            Ok(t) => Ok(Some(t)),
            Err(e) => Err(e),
        }
    };
    match from_res {
        Err(e) => (Err(e), b.context),
        Ok(opt) => {
            let ctx2 = match opt {
                Some(t) => b.context.push(t),
                None => b.context,
            };
            let b2 = BinderV { catalog: b.catalog, context: ctx2 };
            match spec_bind_select_items(b2, s.projection) {
                Err(e) => (Err(e), ctx2),
                Ok(list) => match s.selection {
                    None => (
                        Ok(BoundSelectV { select_list: list, from_table: opt, where_clause: None }),
                        ctx2,
                    ),
                    Some(e) => match spec_bind_expr(b2, e) {
                        Err(er) => (Err(er), ctx2),
                        Ok(w) => (
                            Ok(
                                BoundSelectV {
                                    select_list: list,
                                    from_table: opt,
                                    where_clause: Some(w),
                                },
                            ),
                            ctx2,
                        ),
                    },
                },
            }
        },
    }
}

impl Binder {
    /// Bind a `SELECT`: its source table, its projection list and its
    /// predicate, in that order.
    pub fn bind_select(&mut self, query: &Query) -> (r: Result<BoundSelect, BindError>)
        ensures
            final(self)@.catalog == old(self)@.catalog,
            match query@ {
                crate::ast::QueryV::Select(sv) => {
                    &&& final(self)@.context == spec_bind_select(old(self)@, sv).1
                    &&& match r {
                        Ok(bs) => spec_bind_select(old(self)@, sv).0 == Ok::<
                            BoundSelectV,
                            BindErrorV,
                        >(bs@),
                        Err(e) => spec_bind_select(old(self)@, sv).0 == Err::<
                            BoundSelectV,
                            BindErrorV,
                        >(e@),
                    }
                },
                crate::ast::QueryV::Unsupported(s) => {
                    &&& final(self)@.context == old(self)@.context
                    &&& r matches Err(e) && e@ == BindErrorV::UnsupportedStmt(s)
                },
            },
    {
        let sel = match query {
            Query::Select(s) => s,
            Query::Unsupported(s) => {
                return Err(BindError::UnsupportedStmt(s.clone()));
            },
        };
        let ghost b0 = self@;
        let ghost sv = sel@;

        let from_table: Option<BoundTableRef> = if sel.from.len() == 0 {
            None
        } else {
            proof {
                assert(sv.from[0] == sel.from@[0]@);
            }
            match self.bind_table_with_joins(&sel.from[0]) {
                Ok(t) => Some(t),
                Err(e) => {
                    return Err(e);
                },
            }
        };
        let ghost b2 = self@;

        let ghost items_v = sv.projection;
        proof {
            assert(items_v.skip(0) =~= items_v);
            if let Ok(all) = spec_bind_select_items(b2, items_v) {
                assert(Seq::<BoundExprV>::empty() + all =~= all);
            }
        }
        let n = sel.projection.len();
        let mut select_list: Vec<BoundExpr> = Vec::new();
        proof {
            assert(bound_exprs_view(select_list@) =~= Seq::<
                BoundExprV,
            >::empty());
        }
        let mut i: usize = 0;
        #[verifier::loop_isolation(false)]
        while i < n
            invariant
                i <= n,
                select_list@.len() == i,
                bound_exprs_view(select_list@).len() == i,
                self@ == b2,
                spec_bind_select_items(b2, items_v) == match spec_bind_select_items(
                    b2,
                    items_v.skip(i as int),
                ) {
                    Ok(rest) => Ok::<Seq<BoundExprV>, BindErrorV>(
                        bound_exprs_view(select_list@) + rest,
                    ),
                    Err(er) => Err::<Seq<BoundExprV>, BindErrorV>(er),
                },
            decreases n - i,
        {
            let ghost tail = items_v.skip(i as int);
            proof {
                assert(tail[0] == items_v[i as int]);
                assert(items_v[i as int] == sel.projection@[i as int]@);
            }
            let bound = match &sel.projection[i] {
                SelectItem::UnnamedExpr(e) => match self.bind_expr(e) {
                    Ok(x) => x,
                    Err(er) => {
                        proof {
                            assert(spec_bind_select_items(b2, tail) == Err::<
                                Seq<BoundExprV>,
                                BindErrorV,
                            >(er@));
                        }
                        return Err(er);
                    },
                },
                SelectItem::ExprWithAlias { .. } => {
                    return Err(BindError::UnsupportedStmt(String::from_str(
                        "alias in select list",
                    )));
                },
                SelectItem::Wildcard => {
                    return Err(BindError::UnsupportedStmt(String::from_str(
                        "wildcard in select list",
                    )));
                },
                SelectItem::QualifiedWildcard(_) => {
                    return Err(BindError::UnsupportedStmt(String::from_str(
                        "wildcard in select list",
                    )));
                },
            };
            let ghost old_views = bound_exprs_view(select_list@);
            proof {
                lemma_bound_exprs_view(select_list@);
            }
            select_list.push(bound);
            proof {
                lemma_bound_exprs_view(select_list@);
                assert(bound_exprs_view(select_list@) =~= old_views.push(
                    bound@,
                ));
                assert(tail.drop_first() =~= items_v.skip(i + 1));
                assert forall|rest: Seq<BoundExprV>| true implies old_views + (seq![bound@] + rest)
                    =~= bound_exprs_view(select_list@) + rest by {}
            }
            i += 1;
        }
        proof {
            assert(items_v.skip(n as int) =~= Seq::<SelectItemV>::empty());
            assert(bound_exprs_view(select_list@) + Seq::<
                BoundExprV,
            >::empty() =~= bound_exprs_view(select_list@));
        }

        let where_clause: Option<BoundExpr> = match &sel.selection {
            None => None,
            Some(e) => match self.bind_expr(e) {
                Ok(w) => Some(w),
                Err(er) => {
                    return Err(er);
                },
            },
        };

        Ok(BoundSelect { select_list, from_table, where_clause })
    }
}

} // verus!
