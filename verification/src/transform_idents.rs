//! Rewrites a construction expression so that every identifier that stands
//! for a value reads the capture group of its name.
//!
//! The traversal carries a flag that says whether the position it is in is
//! exempt. In an exempt position (the callee of a call, the receiver of a
//! method call unless it is a parenthesized range) nothing is substituted.
//! Constructs that bind names of their own are refused wherever they stand.

use crate::expr::{
    field_models, model, models, Expr, ExprView, FieldValue, FieldValueView,
};
use vstd::pervasive::unreached;
use vstd::prelude::*;
use vstd::string::*;

verus! {

/// Why a construction expression is refused.
#[derive(Clone, Copy, Debug, PartialEq, Eq, Structural)]
pub enum RewriteError {
    /// A `let` statement inside a block.
    LocalBinding,
    /// An item declared inside a block.
    ItemDeclaration,
    /// An expression statement that ends in a semicolon.
    SeparatedStatement,
    /// A `loop`, `while` or `for` expression.
    Loop,
    /// A `match` expression.
    Match,
    /// A closure.
    Closure,
    /// A kind of expression that cannot hold a capture, where a value is
    /// expected.
    UnsupportedNode,
    /// The absence literal with a type annotation: it reads as a capture and
    /// as the literal at once.
    AmbiguousAbsence,
}

/// The text of a [`RewriteError`].
pub open spec fn rewrite_error_text(e: RewriteError) -> Seq<char> {
    match e {
        RewriteError::LocalBinding
        | RewriteError::ItemDeclaration
        | RewriteError::SeparatedStatement =>
            "Only expressions are allowed in construct_with attribute, this includes inside if/else blocks"@,
        RewriteError::Loop => "Loops are not supported in construct_with attribute"@,
        RewriteError::Match => "Match expressions are not supported in construct_with attribute"@,
        RewriteError::Closure => "Closures are not supported in construct_with attribute"@,
        RewriteError::UnsupportedNode =>
            "Unsupported kind of expression in construct_with attribute"@,
        RewriteError::AmbiguousAbsence =>
            "`None` with a type annotation is ambiguous in construct_with attribute"@,
    }
}

impl RewriteError {
    /// What to tell the author of the type.
    pub fn message(&self) -> (r: String)
        ensures
            r@ == rewrite_error_text(*self),
    {
        match self {
            RewriteError::LocalBinding
            | RewriteError::ItemDeclaration
            | RewriteError::SeparatedStatement => String::from_str(
                "Only expressions are allowed in construct_with attribute, this includes inside if/else blocks",
            ),
            RewriteError::Loop => String::from_str(
                "Loops are not supported in construct_with attribute",
            ),
            RewriteError::Match => String::from_str(
                "Match expressions are not supported in construct_with attribute",
            ),
            RewriteError::Closure => String::from_str(
                "Closures are not supported in construct_with attribute",
            ),
            RewriteError::UnsupportedNode => String::from_str(
                "Unsupported kind of expression in construct_with attribute",
            ),
            RewriteError::AmbiguousAbsence => String::from_str(
                "`None` with a type annotation is ambiguous in construct_with attribute",
            ),
        }
    }
}

/// The identifier that stands for "no value" and is never substituted.
pub open spec fn absence() -> Seq<char> {
    seq!['N', 'o', 'n', 'e']
}

/// Whether the receiver of a method call is a parenthesized range, the one
/// shape of receiver that is rewritten.
pub open spec fn is_paren_range(receiver: ExprView) -> bool {
    receiver matches ExprView::Paren(inner) && *inner is Range
}

/// The rewritten expression, or the first construct, in source order, for
/// which the expression is refused.
pub open spec fn rewritten(e: ExprView, exempt: bool) -> Result<ExprView, RewriteError>
    decreases e, 0nat,
{
    match e {
        ExprView::Ident(name) => Ok(
            if exempt || name == absence() {
                e
            } else {
                ExprView::Capture { name, target: None }
            },
        ),
        ExprView::Ascription { expr, ty } => if exempt {
            match rewritten(*expr, true) {
                Ok(x) => Ok(ExprView::Ascription { expr: Box::new(x), ty }),
                Err(err) => Err(err),
            }
        } else {
            match *expr {
                ExprView::Ident(name) => if name == absence() {
                    Err(RewriteError::AmbiguousAbsence)
                } else {
                    Ok(ExprView::Capture { name, target: Some(ty) })
                },
                _ => Err(RewriteError::UnsupportedNode),
            }
        },
        ExprView::Path(_) => Ok(e),
        ExprView::Lit(_) => Ok(e),
        ExprView::Capture { .. } => Ok(e),
        ExprView::Array(elems) => match rewritten_upto(elems, elems.len(), exempt) {
            Ok(xs) => Ok(ExprView::Array(xs)),
            Err(err) => Err(err),
        },
        ExprView::Tuple(elems) => match rewritten_upto(elems, elems.len(), exempt) {
            Ok(xs) => Ok(ExprView::Tuple(xs)),
            Err(err) => Err(err),
        },
        ExprView::Call { func, args } => match rewritten(*func, true) {
            Err(err) => Err(err),
            Ok(f) => match rewritten_upto(args, args.len(), exempt) {
                Ok(xs) => Ok(ExprView::Call { func: Box::new(f), args: xs }),
                Err(err) => Err(err),
            },
        },
        ExprView::MethodCall { receiver, method, args } => match rewritten(
            *receiver,
            exempt || !is_paren_range(*receiver),
        ) {
            Err(err) => Err(err),
            Ok(r) => match rewritten_upto(args, args.len(), exempt) {
                Ok(xs) => Ok(ExprView::MethodCall { receiver: Box::new(r), method, args: xs }),
                Err(err) => Err(err),
            },
        },
        ExprView::Binary { left, op, right } => match rewritten(*left, exempt) {
            Err(err) => Err(err),
            Ok(l) => match rewritten(*right, exempt) {
                Ok(r) => Ok(ExprView::Binary { left: Box::new(l), op, right: Box::new(r) }),
                Err(err) => Err(err),
            },
        },
        ExprView::Unary { op, expr } => match rewritten(*expr, exempt) {
            Ok(x) => Ok(ExprView::Unary { op, expr: Box::new(x) }),
            Err(err) => Err(err),
        },
        ExprView::Cast { expr, ty } => match rewritten(*expr, exempt) {
            Ok(x) => Ok(ExprView::Cast { expr: Box::new(x), ty }),
            Err(err) => Err(err),
        },
        ExprView::If { cond, then_branch, else_branch } => match rewritten(*cond, exempt) {
            Err(err) => Err(err),
            Ok(c) => match rewritten_upto(then_branch, then_branch.len(), exempt) {
                Err(err) => Err(err),
                Ok(t) => match rewritten_opt(else_branch, exempt) {
                    Ok(e) => Ok(
                        ExprView::If { cond: Box::new(c), then_branch: t, else_branch: e },
                    ),
                    Err(err) => Err(err),
                },
            },
        },
        ExprView::Block(stmts) => match rewritten_upto(stmts, stmts.len(), exempt) {
            Ok(xs) => Ok(ExprView::Block(xs)),
            Err(err) => Err(err),
        },
        ExprView::Range { from, closed, to } => match rewritten_opt(from, exempt) {
            Err(err) => Err(err),
            Ok(f) => match rewritten_opt(to, exempt) {
                Ok(t) => Ok(ExprView::Range { from: f, closed, to: t }),
                Err(err) => Err(err),
            },
        },
        ExprView::Reference { mutable, expr } => match rewritten(*expr, exempt) {
            Ok(x) => Ok(ExprView::Reference { mutable, expr: Box::new(x) }),
            Err(err) => Err(err),
        },
        ExprView::Struct { path, fields, rest } => match rewritten_fields_upto(fields, fields.len(), exempt) {
            Err(err) => Err(err),
            Ok(fs) => match rewritten_opt(rest, exempt) {
                Ok(r) => Ok(ExprView::Struct { path, fields: fs, rest: r }),
                Err(err) => Err(err),
            },
        },
        ExprView::Paren(expr) => match rewritten(*expr, exempt) {
            Ok(x) => Ok(ExprView::Paren(Box::new(x))),
            Err(err) => Err(err),
        },
        ExprView::Try(expr) => match rewritten(*expr, exempt) {
            Ok(x) => Ok(ExprView::Try(Box::new(x))),
            Err(err) => Err(err),
        },
        ExprView::Local => Err(RewriteError::LocalBinding),
        ExprView::Item => Err(RewriteError::ItemDeclaration),
        ExprView::Semi => Err(RewriteError::SeparatedStatement),
        ExprView::Loop => Err(RewriteError::Loop),
        ExprView::Match => Err(RewriteError::Match),
        ExprView::Closure => Err(RewriteError::Closure),
        ExprView::Other(_) => if exempt {
            Ok(e)
        } else {
            Err(RewriteError::UnsupportedNode)
        },
    }
}

/// An optional operand, rewritten where there is one.
pub open spec fn rewritten_opt(o: Option<Box<ExprView>>, exempt: bool) -> Result<
    Option<Box<ExprView>>,
    RewriteError,
>
    decreases o, 0nat,
{
    match o {
        None => Ok(None),
        Some(e) => match rewritten(*e, exempt) {
            Ok(x) => Ok(Some(Box::new(x))),
            Err(err) => Err(err),
        },
    }
}

/// The first `n` expressions of a list, rewritten from left to right.
pub open spec fn rewritten_upto(s: Seq<ExprView>, n: nat, exempt: bool) -> Result<
    Seq<ExprView>,
    RewriteError,
>
    decreases s, n,
{
    if n == 0 || n > s.len() {
        Ok(Seq::empty())
    } else {
        match rewritten_upto(s, (n - 1) as nat, exempt) {
            Err(err) => Err(err),
            Ok(front) => match rewritten(s[n - 1], exempt) {
                Ok(x) => Ok(front.push(x)),
                Err(err) => Err(err),
            },
        }
    }
}

/// A list of expressions, rewritten from left to right.
pub open spec fn rewritten_all(s: Seq<ExprView>, exempt: bool) -> Result<
    Seq<ExprView>,
    RewriteError,
> {
    rewritten_upto(s, s.len(), exempt)
}

/// One field of a struct literal: the value is rewritten, the name is kept,
/// and where something may be substituted the shorthand is written out.
pub open spec fn rewritten_field(f: FieldValueView, exempt: bool) -> Result<
    FieldValueView,
    RewriteError,
>
    decreases f, 0nat,
{
    match rewritten(f.value, exempt) {
        Ok(x) => Ok(FieldValueView { member: f.member, shorthand: exempt && f.shorthand, value: x }),
        Err(err) => Err(err),
    }
}

/// The first `n` fields of a struct literal, rewritten from left to right.
pub open spec fn rewritten_fields_upto(s: Seq<FieldValueView>, n: nat, exempt: bool) -> Result<
    Seq<FieldValueView>,
    RewriteError,
>
    decreases s, n,
{
    if n == 0 || n > s.len() {
        Ok(Seq::empty())
    } else {
        match rewritten_fields_upto(s, (n - 1) as nat, exempt) {
            Err(err) => Err(err),
            Ok(front) => match rewritten_field(s[n - 1], exempt) {
                Ok(x) => Ok(front.push(x)),
                Err(err) => Err(err),
            },
        }
    }
}

/// The fields of a struct literal, rewritten from left to right.
pub open spec fn rewritten_fields(s: Seq<FieldValueView>, exempt: bool) -> Result<
    Seq<FieldValueView>,
    RewriteError,
> {
    rewritten_fields_upto(s, s.len(), exempt)
}

/// The model of an optional operand.
pub open spec fn opt_model(o: Option<Box<Expr>>) -> Option<Box<ExprView>> {
    match o {
        Some(e) => Some(Box::new(model(*e))),
        None => None,
    }
}

/// What a visit of one expression hands back, in the model.
pub open spec fn outcome(r: Result<Expr, RewriteError>) -> Result<ExprView, RewriteError> {
    match r {
        Ok(e) => Ok(e@),
        Err(err) => Err(err),
    }
}

/// What a visit of an optional operand hands back, in the model.
pub open spec fn outcome_opt(r: Result<Option<Box<Expr>>, RewriteError>) -> Result<
    Option<Box<ExprView>>,
    RewriteError,
> {
    match r {
        Ok(o) => Ok(opt_model(o)),
        Err(err) => Err(err),
    }
}

/// What a visit of a list of expressions hands back, in the model.
pub open spec fn outcome_all(r: Result<Vec<Expr>, RewriteError>) -> Result<
    Seq<ExprView>,
    RewriteError,
> {
    match r {
        Ok(v) => Ok(models(v)),
        Err(err) => Err(err),
    }
}

/// What a visit of one field hands back, in the model.
pub open spec fn outcome_field(r: Result<FieldValue, RewriteError>) -> Result<
    FieldValueView,
    RewriteError,
> {
    match r {
        Ok(f) => Ok(f@),
        Err(err) => Err(err),
    }
}

/// What a visit of the fields of a struct literal hands back, in the model.
pub open spec fn outcome_fields(r: Result<Vec<FieldValue>, RewriteError>) -> Result<
    Seq<FieldValueView>,
    RewriteError,
> {
    match r {
        Ok(v) => Ok(field_models(v)),
        Err(err) => Err(err),
    }
}

/// Once an expression of a list is refused, the list is refused for it.
proof fn lemma_refusal_stays(s: Seq<ExprView>, n: nat, m: nat, exempt: bool)
    requires
        n <= m <= s.len(),
        rewritten_upto(s, n, exempt) is Err,
    ensures
        rewritten_upto(s, m, exempt) == rewritten_upto(s, n, exempt),
    decreases m,
{
    if n < m {
        lemma_refusal_stays(s, n, (m - 1) as nat, exempt);
    }
}

/// Once a field of a struct literal is refused, the literal is refused for it.
proof fn lemma_field_refusal_stays(s: Seq<FieldValueView>, n: nat, m: nat, exempt: bool)
    requires
        n <= m <= s.len(),
        rewritten_fields_upto(s, n, exempt) is Err,
    ensures
        rewritten_fields_upto(s, m, exempt) == rewritten_fields_upto(s, n, exempt),
    decreases m,
{
    if n < m {
        lemma_field_refusal_stays(s, n, (m - 1) as nat, exempt);
    }
}

/// Whether a name is the absence literal.
fn is_absence(name: &String) -> (r: bool)
    ensures
        r == (name@ == absence()),
{
    proof {
        reveal_strlit("None");
    }
    let lit = String::from_str("None");
    assert(lit@ =~= absence());
    *name == lit
}

/// Whether an expression is a parenthesized range.
fn holds_paren_range(receiver: &Expr) -> (r: bool)
    ensures
        r == is_paren_range(receiver@),
{
    reveal_with_fuel(model, 2);
    match receiver {
        Expr::Paren(inner) => match &**inner {
            Expr::Range { .. } => true,
            _ => false,
        },
        _ => false,
    }
}

/// The traversal that substitutes captures for identifiers.
#[derive(Debug)]
pub struct TransformIdents {}

impl TransformIdents {
    /// A traversal, ready to rewrite any number of expressions.
    pub fn new() -> Self {
        TransformIdents {}
    }

    /// Rewrites a construction expression: every identifier in a value
    /// position becomes the capture of its name, and everything else stays.
    /// An expression that holds a construct with bindings of its own, or
    /// that asks for a value of a kind that cannot hold one, is refused.
    pub fn rewrite(&self, expr: Expr) -> (r: Result<Expr, RewriteError>)
        ensures
            outcome(r) == rewritten(expr@, false),
    {
        self.visit_expr(expr, false)
    }

    /// Visits one expression, in an exempt position or in a value position.
    pub fn visit_expr(&self, expr: Expr, exempt: bool) -> (r: Result<Expr, RewriteError>)
        ensures
            outcome(r) == rewritten(expr@, exempt),
        decreases expr, 1nat,
    {
        match expr {
            Expr::Ident(_) => self.visit_ident(expr, exempt),
            Expr::Ascription { .. } => self.visit_expr_ascription(expr, exempt),
            Expr::Path(_) => Ok(expr),
            Expr::Lit(_) => Ok(expr),
            Expr::Capture { .. } => Ok(expr),
            Expr::Array(_) => self.visit_expr_array(expr, exempt),
            Expr::Tuple(_) => self.visit_expr_tuple(expr, exempt),
            Expr::Call { .. } => self.visit_expr_call(expr, exempt),
            Expr::MethodCall { .. } => self.visit_expr_method_call(expr, exempt),
            Expr::Binary { .. } => self.visit_expr_binary(expr, exempt),
            Expr::Unary { .. } => self.visit_expr_unary(expr, exempt),
            Expr::Cast { .. } => self.visit_expr_cast(expr, exempt),
            Expr::If { .. } => self.visit_expr_if(expr, exempt),
            Expr::Block(_) => self.visit_expr_block(expr, exempt),
            Expr::Range { .. } => self.visit_expr_range(expr, exempt),
            Expr::Reference { .. } => self.visit_expr_reference(expr, exempt),
            Expr::Struct { .. } => self.visit_expr_struct(expr, exempt),
            Expr::Paren(_) => self.visit_expr_paren(expr, exempt),
            Expr::Try(_) => self.visit_expr_try(expr, exempt),
            Expr::Local | Expr::Item | Expr::Semi => self.visit_stmt(expr, exempt),
            Expr::Loop => Err(RewriteError::Loop),
            Expr::Match => Err(RewriteError::Match),
            Expr::Closure => Err(RewriteError::Closure),
            Expr::Other(_) => if exempt {
                Ok(expr)
            } else {
                Err(RewriteError::UnsupportedNode)
            },
        }
    }

    /// An identifier: the capture of its name, unless the position is exempt
    /// or the identifier is the absence literal.
    fn visit_ident(&self, expr: Expr, exempt: bool) -> (r: Result<Expr, RewriteError>)
        requires
            expr is Ident,
        ensures
            outcome(r) == rewritten(expr@, exempt),
    {
        match expr {
            Expr::Ident(name) => {
                if exempt || is_absence(&name) {
                    Ok(Expr::Ident(name))
                } else {
                    Ok(Expr::Capture { name, target: None })
                }
            },
            _ => unreached(),
        }
    }

    /// An annotated identifier: the capture of its name, converted to the
    /// annotated type. The annotation goes. Nothing else may be annotated.
    fn visit_expr_ascription(&self, expr: Expr, exempt: bool) -> (r: Result<Expr, RewriteError>)
        requires
            expr is Ascription,
        ensures
            outcome(r) == rewritten(expr@, exempt),
        decreases expr, 0nat,
    {
        reveal_with_fuel(model, 2);
        match expr {
            Expr::Ascription { expr: inner, ty } => {
                if exempt {
                    match self.visit_expr(*inner, true) {
                        Ok(x) => Ok(Expr::Ascription { expr: Box::new(x), ty }),
                        Err(err) => Err(err),
                    }
                } else {
                    match *inner {
                        Expr::Ident(name) => {
                            if is_absence(&name) {
                                Err(RewriteError::AmbiguousAbsence)
                            } else {
                                Ok(Expr::Capture { name, target: Some(ty) })
                            }
                        },
                        _ => Err(RewriteError::UnsupportedNode),
                    }
                }
            },
            _ => unreached(),
        }
    }

    /// A list of expressions, each in the same kind of position.
    fn visit_exprs(&self, exprs: Vec<Expr>, exempt: bool) -> (r: Result<Vec<Expr>, RewriteError>)
        ensures
            outcome_all(r) == rewritten_all(models(exprs), exempt),
        decreases exprs, 0nat,
    {
        let ghost orig = exprs;
        let mut out: Vec<Expr> = Vec::new();
        assert(models(out) =~= Seq::empty());
        for x in it: exprs
            invariant
                exprs == orig,
                it.seq() == orig@,
                out.len() == it.index(),
                rewritten_upto(models(orig), it.index() as nat, exempt) == Ok::<
                    Seq<ExprView>,
                    RewriteError,
                >(models(out)),
        {
            let ghost before = out;
            assert(x == orig[it.index() as int]);
            assert(models(orig)[it.index() as int] == x@);
            match self.visit_expr(x, exempt) {
                Ok(y) => {
                    out.push(y);
                    assert(models(out) =~= models(before).push(y@));
                },
                Err(err) => {
                    proof {
                        lemma_refusal_stays(
                            models(orig),
                            (it.index() + 1) as nat,
                            orig.len() as nat,
                            exempt,
                        );
                    }
                    return Err(err);
                },
            }
        }
        Ok(out)
    }

    /// An optional operand.
    fn visit_opt(&self, o: Option<Box<Expr>>, exempt: bool) -> (r: Result<
        Option<Box<Expr>>,
        RewriteError,
    >)
        ensures
            outcome_opt(r) == rewritten_opt(opt_model(o), exempt),
        decreases o, 0nat,
    {
        match o {
            None => Ok(None),
            Some(e) => match self.visit_expr(*e, exempt) {
                Ok(x) => Ok(Some(Box::new(x))),
                Err(err) => Err(err),
            },
        }
    }

    /// An array literal: each element.
    fn visit_expr_array(&self, expr: Expr, exempt: bool) -> (r: Result<Expr, RewriteError>)
        requires
            expr is Array,
        ensures
            outcome(r) == rewritten(expr@, exempt),
        decreases expr, 0nat,
    {
        match expr {
            Expr::Array(elems) => match self.visit_exprs(elems, exempt) {
                Ok(xs) => Ok(Expr::Array(xs)),
                Err(err) => Err(err),
            },
            _ => unreached(),
        }
    }

    /// A tuple literal: each element.
    fn visit_expr_tuple(&self, expr: Expr, exempt: bool) -> (r: Result<Expr, RewriteError>)
        requires
            expr is Tuple,
        ensures
            outcome(r) == rewritten(expr@, exempt),
        decreases expr, 0nat,
    {
        match expr {
            Expr::Tuple(elems) => match self.visit_exprs(elems, exempt) {
                Ok(xs) => Ok(Expr::Tuple(xs)),
                Err(err) => Err(err),
            },
            _ => unreached(),
        }
    }

    /// A function call: each argument, never the callee.
    fn visit_expr_call(&self, expr: Expr, exempt: bool) -> (r: Result<Expr, RewriteError>)
        requires
            expr is Call,
        ensures
            outcome(r) == rewritten(expr@, exempt),
        decreases expr, 0nat,
    {
        match expr {
            Expr::Call { func, args } => {
                let func = match self.visit_expr(*func, true) {
                    Ok(f) => f,
                    Err(err) => { return Err(err); },
                };
                match self.visit_exprs(args, exempt) {
                    Ok(xs) => Ok(Expr::Call { func: Box::new(func), args: xs }),
                    Err(err) => Err(err),
                }
            },
            _ => unreached(),
        }
    }

    /// A method call: each argument, and the receiver only where it is a
    /// parenthesized range.
    fn visit_expr_method_call(&self, expr: Expr, exempt: bool) -> (r: Result<Expr, RewriteError>)
        requires
            expr is MethodCall,
        ensures
            outcome(r) == rewritten(expr@, exempt),
        decreases expr, 0nat,
    {
        match expr {
            Expr::MethodCall { receiver, method, args } => {
                let skip = exempt || !holds_paren_range(&*receiver);
                let receiver = match self.visit_expr(*receiver, skip) {
                    Ok(x) => x,
                    Err(err) => { return Err(err); },
                };
                match self.visit_exprs(args, exempt) {
                    Ok(xs) => Ok(Expr::MethodCall { receiver: Box::new(receiver), method, args: xs }),
                    Err(err) => Err(err),
                }
            },
            _ => unreached(),
        }
    }

    /// A binary operation: the left operand, then the right one.
    fn visit_expr_binary(&self, expr: Expr, exempt: bool) -> (r: Result<Expr, RewriteError>)
        requires
            expr is Binary,
        ensures
            outcome(r) == rewritten(expr@, exempt),
        decreases expr, 0nat,
    {
        match expr {
            Expr::Binary { left, op, right } => {
                let left = match self.visit_expr(*left, exempt) {
                    Ok(x) => x,
                    Err(err) => { return Err(err); },
                };
                match self.visit_expr(*right, exempt) {
                    Ok(x) => Ok(Expr::Binary { left: Box::new(left), op, right: Box::new(x) }),
                    Err(err) => Err(err),
                }
            },
            _ => unreached(),
        }
    }

    /// A unary operation: its operand.
    fn visit_expr_unary(&self, expr: Expr, exempt: bool) -> (r: Result<Expr, RewriteError>)
        requires
            expr is Unary,
        ensures
            outcome(r) == rewritten(expr@, exempt),
        decreases expr, 0nat,
    {
        match expr {
            Expr::Unary { op, expr: inner } => match self.visit_expr(*inner, exempt) {
                Ok(x) => Ok(Expr::Unary { op, expr: Box::new(x) }),
                Err(err) => Err(err),
            },
            _ => unreached(),
        }
    }

    /// A cast: the value that is cast, not the type.
    fn visit_expr_cast(&self, expr: Expr, exempt: bool) -> (r: Result<Expr, RewriteError>)
        requires
            expr is Cast,
        ensures
            outcome(r) == rewritten(expr@, exempt),
        decreases expr, 0nat,
    {
        match expr {
            Expr::Cast { expr: inner, ty } => match self.visit_expr(*inner, exempt) {
                Ok(x) => Ok(Expr::Cast { expr: Box::new(x), ty }),
                Err(err) => Err(err),
            },
            _ => unreached(),
        }
    }

    /// A conditional: the condition, the statements of the first branch, and
    /// the `else` branch where there is one.
    fn visit_expr_if(&self, expr: Expr, exempt: bool) -> (r: Result<Expr, RewriteError>)
        requires
            expr is If,
        ensures
            outcome(r) == rewritten(expr@, exempt),
        decreases expr, 0nat,
    {
        match expr {
            Expr::If { cond, then_branch, else_branch } => {
                let cond = match self.visit_expr(*cond, exempt) {
                    Ok(x) => x,
                    Err(err) => { return Err(err); },
                };
                let then_branch = match self.visit_exprs(then_branch, exempt) {
                    Ok(xs) => xs,
                    Err(err) => { return Err(err); },
                };
                match self.visit_opt(else_branch, exempt) {
                    Ok(e) => Ok(Expr::If { cond: Box::new(cond), then_branch, else_branch: e }),
                    Err(err) => Err(err),
                }
            },
            _ => unreached(),
        }
    }

    /// A block: each of its statements.
    fn visit_expr_block(&self, expr: Expr, exempt: bool) -> (r: Result<Expr, RewriteError>)
        requires
            expr is Block,
        ensures
            outcome(r) == rewritten(expr@, exempt),
        decreases expr, 0nat,
    {
        match expr {
            Expr::Block(stmts) => match self.visit_exprs(stmts, exempt) {
                Ok(xs) => Ok(Expr::Block(xs)),
                Err(err) => Err(err),
            },
            _ => unreached(),
        }
    }

    /// A statement that is no expression: only expressions are allowed, also
    /// inside the blocks of a conditional.
    fn visit_stmt(&self, expr: Expr, exempt: bool) -> (r: Result<Expr, RewriteError>)
        requires
            expr is Local || expr is Item || expr is Semi,
        ensures
            outcome(r) == rewritten(expr@, exempt),
    {
        match expr {
            Expr::Local => Err(RewriteError::LocalBinding),
            Expr::Item => Err(RewriteError::ItemDeclaration),
            _ => Err(RewriteError::SeparatedStatement),
        }
    }

    /// A range: the lower bound, then the upper bound, where there is one.
    fn visit_expr_range(&self, expr: Expr, exempt: bool) -> (r: Result<Expr, RewriteError>)
        requires
            expr is Range,
        ensures
            outcome(r) == rewritten(expr@, exempt),
        decreases expr, 0nat,
    {
        match expr {
            Expr::Range { from, closed, to } => {
                let from = match self.visit_opt(from, exempt) {
                    Ok(x) => x,
                    Err(err) => { return Err(err); },
                };
                match self.visit_opt(to, exempt) {
                    Ok(x) => Ok(Expr::Range { from, closed, to: x }),
                    Err(err) => Err(err),
                }
            },
            _ => unreached(),
        }
    }

    /// A borrow: the borrowed expression.
    fn visit_expr_reference(&self, expr: Expr, exempt: bool) -> (r: Result<Expr, RewriteError>)
        requires
            expr is Reference,
        ensures
            outcome(r) == rewritten(expr@, exempt),
        decreases expr, 0nat,
    {
        match expr {
            Expr::Reference { mutable, expr: inner } => match self.visit_expr(*inner, exempt) {
                Ok(x) => Ok(Expr::Reference { mutable, expr: Box::new(x) }),
                Err(err) => Err(err),
            },
            _ => unreached(),
        }
    }

    /// A struct literal: the value of each field, then the rest expression;
    /// never the path.
    fn visit_expr_struct(&self, expr: Expr, exempt: bool) -> (r: Result<Expr, RewriteError>)
        requires
            expr is Struct,
        ensures
            outcome(r) == rewritten(expr@, exempt),
        decreases expr, 0nat,
    {
        match expr {
            Expr::Struct { path, fields, rest } => {
                let fields = match self.visit_field_values(fields, exempt) {
                    Ok(x) => x,
                    Err(err) => { return Err(err); },
                };
                match self.visit_opt(rest, exempt) {
                    Ok(x) => Ok(Expr::Struct { path, fields, rest: x }),
                    Err(err) => Err(err),
                }
            },
            _ => unreached(),
        }
    }

    /// The fields of a struct literal, from left to right.
    fn visit_field_values(&self, fields: Vec<FieldValue>, exempt: bool) -> (r: Result<
        Vec<FieldValue>,
        RewriteError,
    >)
        ensures
            outcome_fields(r) == rewritten_fields(field_models(fields), exempt),
        decreases fields, 1nat,
    {
        let ghost orig = fields;
        let mut out: Vec<FieldValue> = Vec::new();
        assert(field_models(out) =~= Seq::empty());
        for f in it: fields
            invariant
                fields == orig,
                it.seq() == orig@,
                out.len() == it.index(),
                rewritten_fields_upto(field_models(orig), it.index() as nat, exempt) == Ok::<
                    Seq<FieldValueView>,
                    RewriteError,
                >(field_models(out)),
        {
            let ghost before = out;
            assert(f == orig[it.index() as int]);
            assert(field_models(orig)[it.index() as int] == f@);
            match self.visit_field_value(f, exempt) {
                Ok(y) => {
                    out.push(y);
                    assert(field_models(out) =~= field_models(before).push(y@));
                },
                Err(err) => {
                    proof {
                        lemma_field_refusal_stays(
                            field_models(orig),
                            (it.index() + 1) as nat,
                            orig.len() as nat,
                            exempt,
                        );
                    }
                    return Err(err);
                },
            }
        }
        Ok(out)
    }

    /// One field of a struct literal: the value, not the name. A field in
    /// shorthand is written out as `name: value` first.
    fn visit_field_value(&self, field: FieldValue, exempt: bool) -> (r: Result<
        FieldValue,
        RewriteError,
    >)
        ensures
            outcome_field(r) == rewritten_field(field@, exempt),
        decreases field, 0nat,
    {
        let FieldValue { member, shorthand, value } = field;
        match self.visit_expr(value, exempt) {
            Ok(x) => Ok(FieldValue { member, shorthand: exempt && shorthand, value: x }),
            Err(err) => Err(err),
        }
    }

    /// A parenthesized expression: what is inside.
    fn visit_expr_paren(&self, expr: Expr, exempt: bool) -> (r: Result<Expr, RewriteError>)
        requires
            expr is Paren,
        ensures
            outcome(r) == rewritten(expr@, exempt),
        decreases expr, 0nat,
    {
        match expr {
            Expr::Paren(inner) => match self.visit_expr(*inner, exempt) {
                Ok(x) => Ok(Expr::Paren(Box::new(x))),
                Err(err) => Err(err),
            },
            _ => unreached(),
        }
    }

    /// An expression followed by `?`: the expression.
    fn visit_expr_try(&self, expr: Expr, exempt: bool) -> (r: Result<Expr, RewriteError>)
        requires
            expr is Try,
        ensures
            outcome(r) == rewritten(expr@, exempt),
        decreases expr, 0nat,
    {
        match expr {
            Expr::Try(inner) => match self.visit_expr(*inner, exempt) {
                Ok(x) => Ok(Expr::Try(Box::new(x))),
                Err(err) => Err(err),
            },
            _ => unreached(),
        }
    }
}

} // verus!
