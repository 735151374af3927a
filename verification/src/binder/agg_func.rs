//! Aggregate functions: the closed set the binder resolves, and the binding
//! of an aggregate call.

use vstd::prelude::*;

use crate::ast::{exprs_view, lemma_exprs_view, ExprV, Function};
use crate::types::DataType;
use crate::binder::expression::{
    bound_exprs_view, lemma_bound_exprs_view, spec_agg_of, spec_bind_args, spec_bind_expr,
    BoundExpr, BoundExprV,
};
use crate::binder::{BindError, BindErrorV, Binder, BinderV};

verus! {

/// The aggregate functions the engine understands.
#[derive(Debug, Clone, Copy, PartialEq, Eq, Structural)]
pub enum AggFunc {
    Count,
    Sum,
    Min,
    Max,
}

/// A bound aggregate call: the resolved function, its bound arguments and its
/// return type.
#[derive(Debug, PartialEq)]
pub struct BoundAggFunc {
    pub func: AggFunc,
    pub exprs: Vec<crate::binder::expression::BoundExpr>,
    pub return_type: DataType,
}

impl Binder {
    /// Bind an aggregate call: bind its arguments, resolve its name among
    /// `count`, `sum`, `min` and `max`, and derive its return type.
    pub fn bind_agg_func(&self, func: &Function) -> (r: Result<BoundExpr, BindError>)
        ensures
            match r {
                Ok(e) => spec_bind_expr(
                    self@,
                    ExprV::Function { name: func.name@, args: exprs_view(func.args@) },
                ) == Ok::<BoundExprV, BindErrorV>(e@),
                Err(er) => spec_bind_expr(
                    self@,
                    ExprV::Function { name: func.name@, args: exprs_view(func.args@) },
                ) == Err::<BoundExprV, BindErrorV>(er@),
            },
        decreases func,
    {
        let ghost b = self@;
        let ghost args_v = exprs_view(func.args@);
        proof {
            lemma_exprs_view(func.args@);
        }
        let n = func.args.len();
        let mut bargs: Vec<BoundExpr> = Vec::new();
        proof {
            assert(args_v.skip(0) =~= args_v);
            assert(bound_exprs_view(bargs@) =~= Seq::<BoundExprV>::empty());
            if let Ok(all) = spec_bind_args(b, args_v) {
                assert(bound_exprs_view(bargs@) + all =~= all);
            }
        }
        let mut i: usize = 0;
        #[verifier::loop_isolation(false)]
        while i < n
            invariant
                i <= n,
                bargs@.len() == i,
                bound_exprs_view(bargs@).len() == i,
                spec_bind_args(b, args_v) == match spec_bind_args(b, args_v.skip(i as int)) {
                    Ok(rest) => Ok::<Seq<BoundExprV>, BindErrorV>(
                        bound_exprs_view(bargs@) + rest,
                    ),
                    Err(er) => Err::<Seq<BoundExprV>, BindErrorV>(er),
                },
            decreases n - i,
        {
            let ghost tail = args_v.skip(i as int);
            proof {
                assert(tail.len() > 0);
                assert(tail[0] == args_v[i as int]);
                assert(args_v[i as int] == func.args@[i as int]@);
            }
            match self.bind_expr(&func.args[i]) {
                Err(er) => {
                    proof {
                        assert(spec_bind_args(b, tail) == Err::<Seq<BoundExprV>, BindErrorV>(er@));
                    }
                    return Err(er);
                },
                Ok(e) => {
                    let ghost old_views = bound_exprs_view(bargs@);
                    proof {
                        lemma_bound_exprs_view(bargs@);
                    }
                    bargs.push(e);
                    proof {
                        lemma_bound_exprs_view(bargs@);
                        assert(bound_exprs_view(bargs@) =~= old_views.push(e@));
                        assert(tail.drop_first() =~= args_v.skip(i + 1));
                        assert forall|rest: Seq<BoundExprV>| true implies old_views + (seq![e@]
                            + rest) =~= bound_exprs_view(bargs@) + rest by {}
                    }
                },
            }
            i += 1;
        }
        proof {
            assert(args_v.skip(n as int) =~= Seq::<ExprV>::empty());
            assert(bound_exprs_view(bargs@) + Seq::<BoundExprV>::empty() =~= bound_exprs_view(
                bargs@,
            ));
            assert(spec_bind_args(b, args_v) == Ok::<Seq<BoundExprV>, BindErrorV>(
                bound_exprs_view(bargs@),
            ));
            lemma_bound_exprs_view(bargs@);
        }
        let name = &func.name;
        let resolved: Option<AggFunc> = if crate::ident::eq_lower(name.as_str(), "count") {
            Some(AggFunc::Count)
        } else if crate::ident::eq_lower(name.as_str(), "sum") {
            Some(AggFunc::Sum)
        } else if crate::ident::eq_lower(name.as_str(), "min") {
            Some(AggFunc::Min)
        } else if crate::ident::eq_lower(name.as_str(), "max") {
            Some(AggFunc::Max)
        } else {
            None
        };
        match resolved {
            None => Err(BindError::UnsupportedStmt(name.clone())),
            Some(AggFunc::Count) => Ok(
                BoundExpr::AggFunc(
                    BoundAggFunc { func: AggFunc::Count, exprs: bargs, return_type: DataType::Int64 },
                ),
            ),
            Some(f) => {
                if bargs.len() > 0 {
                    match bargs[0].return_type() {
                        Some(dt) => Ok(
                            BoundExpr::AggFunc(
                                BoundAggFunc { func: f, exprs: bargs, return_type: dt },
                            ),
                        ),
                        None => Err(BindError::UnsupportedStmt(name.clone())),
                    }
                } else {
                    Err(BindError::UnsupportedStmt(name.clone()))
                }
            },
        }
    }
}

} // verus!
