//! What holds of every rewriting, proved from its definition.

use crate::expr::{ExprView, FieldValueView};
use crate::transform_idents::{
    absence, is_paren_range, rewritten, rewritten_all, rewritten_field, rewritten_fields,
    rewritten_fields_upto, rewritten_opt, rewritten_upto, RewriteError,
};
use vstd::prelude::*;

verus! {

/// Whether an expression holds, anywhere in it, a construct that binds names
/// of its own or a statement that is no plain expression: a `let`, an item, a
/// statement that ends in a semicolon, a loop, a `match` or a closure.
pub open spec fn holds_binding_construct(e: ExprView) -> bool
    decreases e,
{
    match e {
        ExprView::Local => true,
        ExprView::Item => true,
        ExprView::Semi => true,
        ExprView::Loop => true,
        ExprView::Match => true,
        ExprView::Closure => true,
        ExprView::Ident(_) => false,
        ExprView::Path(_) => false,
        ExprView::Lit(_) => false,
        ExprView::Capture { .. } => false,
        ExprView::Other(_) => false,
        ExprView::Ascription { expr, .. } => holds_binding_construct(*expr),
        ExprView::Array(elems) => any_holds_binding_construct(elems),
        ExprView::Tuple(elems) => any_holds_binding_construct(elems),
        ExprView::Call { func, args } => holds_binding_construct(*func)
            || any_holds_binding_construct(args),
        ExprView::MethodCall { receiver, args, .. } => holds_binding_construct(*receiver)
            || any_holds_binding_construct(args),
        ExprView::Binary { left, right, .. } => holds_binding_construct(*left)
            || holds_binding_construct(*right),
        ExprView::Unary { expr, .. } => holds_binding_construct(*expr),
        ExprView::Cast { expr, .. } => holds_binding_construct(*expr),
        ExprView::If { cond, then_branch, else_branch } => holds_binding_construct(*cond)
            || any_holds_binding_construct(then_branch) || (else_branch matches Some(e)
            && holds_binding_construct(*e)),
        ExprView::Block(stmts) => any_holds_binding_construct(stmts),
        ExprView::Range { from, to, .. } => (from matches Some(e) && holds_binding_construct(*e))
            || (to matches Some(e) && holds_binding_construct(*e)),
        ExprView::Reference { expr, .. } => holds_binding_construct(*expr),
        ExprView::Struct { fields, rest, .. } => (exists|i: int|
            0 <= i < fields.len() && holds_binding_construct(#[trigger] fields[i].value)) || (
        rest matches Some(e) && holds_binding_construct(*e)),
        ExprView::Paren(expr) => holds_binding_construct(*expr),
        ExprView::Try(expr) => holds_binding_construct(*expr),
    }
}

/// Whether one expression of a list holds such a construct.
pub open spec fn any_holds_binding_construct(s: Seq<ExprView>) -> bool
    decreases s,
{
    exists|i: int| 0 <= i < s.len() && holds_binding_construct(#[trigger] s[i])
}

/// Refusal: an expression that holds a local binding, an item, a statement
/// with a separator, a loop, a `match` or a closure, anywhere in it, is never
/// rewritten. It is refused, in a value position and in an exempt one.
pub proof fn lemma_binding_constructs_refused(e: ExprView, exempt: bool)
    requires
        holds_binding_construct(e),
    ensures
        rewritten(e, exempt) is Err,
    decreases e, 0nat,
{
    match e {
        ExprView::Ascription { expr, .. } => {
            if exempt {
                lemma_binding_constructs_refused(*expr, true);
            } else {
                reveal_with_fuel(holds_binding_construct, 2);
                assert(!(*expr is Ident));
            }
        },
        ExprView::Array(elems) => {
            lemma_binding_constructs_refused_in_list(elems, exempt);
        },
        ExprView::Tuple(elems) => {
            lemma_binding_constructs_refused_in_list(elems, exempt);
        },
        ExprView::Call { func, args } => {
            if holds_binding_construct(*func) {
                lemma_binding_constructs_refused(*func, true);
            } else {
                lemma_binding_constructs_refused_in_list(args, exempt);
            }
        },
        ExprView::MethodCall { receiver, args, .. } => {
            if holds_binding_construct(*receiver) {
                lemma_binding_constructs_refused(*receiver, exempt || !is_paren_range(*receiver));
            } else {
                lemma_binding_constructs_refused_in_list(args, exempt);
            }
        },
        ExprView::Binary { left, right, .. } => {
            if holds_binding_construct(*left) {
                lemma_binding_constructs_refused(*left, exempt);
            } else {
                lemma_binding_constructs_refused(*right, exempt);
            }
        },
        ExprView::Unary { expr, .. } => {
            lemma_binding_constructs_refused(*expr, exempt);
        },
        ExprView::Cast { expr, .. } => {
            lemma_binding_constructs_refused(*expr, exempt);
        },
        ExprView::If { cond, then_branch, else_branch } => {
            if holds_binding_construct(*cond) {
                lemma_binding_constructs_refused(*cond, exempt);
            } else if any_holds_binding_construct(then_branch) {
                lemma_binding_constructs_refused_in_list(then_branch, exempt);
            } else {
                lemma_binding_constructs_refused(*else_branch->Some_0, exempt);
                assert(rewritten_opt(else_branch, exempt) is Err);
            }
        },
        ExprView::Block(stmts) => {
            lemma_binding_constructs_refused_in_list(stmts, exempt);
        },
        ExprView::Range { from, to, .. } => {
            if from matches Some(b) && holds_binding_construct(*b) {
                lemma_binding_constructs_refused(*from->Some_0, exempt);
                assert(rewritten_opt(from, exempt) is Err);
            } else {
                lemma_binding_constructs_refused(*to->Some_0, exempt);
                assert(rewritten_opt(to, exempt) is Err);
            }
        },
        ExprView::Reference { expr, .. } => {
            lemma_binding_constructs_refused(*expr, exempt);
        },
        ExprView::Struct { fields, rest, .. } => {
            if exists|i: int|
                0 <= i < fields.len() && holds_binding_construct(#[trigger] fields[i].value) {
                let i = choose|i: int|
                    0 <= i < fields.len() && holds_binding_construct(#[trigger] fields[i].value);
                lemma_binding_constructs_refused(fields[i].value, exempt);
                lemma_field_refused(fields, i, fields.len(), exempt);
                assert(rewritten_fields(fields, exempt) is Err);
            } else {
                lemma_binding_constructs_refused(*rest->Some_0, exempt);
                assert(rewritten_opt(rest, exempt) is Err);
            }
        },
        ExprView::Paren(expr) => {
            lemma_binding_constructs_refused(*expr, exempt);
        },
        ExprView::Try(expr) => {
            lemma_binding_constructs_refused(*expr, exempt);
        },
        _ => {},
    }
}

/// A list with an expression that holds such a construct is refused.
proof fn lemma_binding_constructs_refused_in_list(s: Seq<ExprView>, exempt: bool)
    requires
        any_holds_binding_construct(s),
    ensures
        rewritten_all(s, exempt) is Err,
    decreases s, s.len() + 1,
{
    let i = choose|i: int| 0 <= i < s.len() && holds_binding_construct(#[trigger] s[i]);
    lemma_binding_constructs_refused(s[i], exempt);
    lemma_element_refused(s, i, s.len(), exempt);
}

/// A list is refused as soon as one of its first `n` expressions is.
proof fn lemma_element_refused(s: Seq<ExprView>, i: int, n: nat, exempt: bool)
    requires
        0 <= i < n <= s.len(),
        rewritten(s[i], exempt) is Err,
    ensures
        rewritten_upto(s, n, exempt) is Err,
    decreases n,
{
    if i < n - 1 {
        lemma_element_refused(s, i, (n - 1) as nat, exempt);
    }
}

/// A struct literal is refused as soon as one of its first `n` fields is.
proof fn lemma_field_refused(s: Seq<FieldValueView>, i: int, n: nat, exempt: bool)
    requires
        0 <= i < n <= s.len(),
        rewritten(s[i].value, exempt) is Err,
    ensures
        rewritten_fields_upto(s, n, exempt) is Err,
    decreases n,
{
    assert(rewritten_field(s[i], exempt) is Err);
    if i < n - 1 {
        lemma_field_refused(s, i, (n - 1) as nat, exempt);
    }
}

/// In an exempt position nothing is replaced: where the expression is not
/// refused, it comes back as it went in.
pub proof fn lemma_exempt_position_unchanged(e: ExprView)
    requires
        rewritten(e, true) is Ok,
    ensures
        rewritten(e, true) == Ok::<ExprView, RewriteError>(e),
    decreases e, 0nat,
{
    match e {
        ExprView::Ascription { expr, .. } => {
            lemma_exempt_position_unchanged(*expr);
        },
        ExprView::Array(elems) => {
            lemma_exempt_list_unchanged(elems, elems.len());
        },
        ExprView::Tuple(elems) => {
            lemma_exempt_list_unchanged(elems, elems.len());
        },
        ExprView::Call { func, args } => {
            lemma_exempt_position_unchanged(*func);
            lemma_exempt_list_unchanged(args, args.len());
        },
        ExprView::MethodCall { receiver, args, .. } => {
            lemma_exempt_position_unchanged(*receiver);
            lemma_exempt_list_unchanged(args, args.len());
        },
        ExprView::Binary { left, right, .. } => {
            lemma_exempt_position_unchanged(*left);
            lemma_exempt_position_unchanged(*right);
        },
        ExprView::Unary { expr, .. } => {
            lemma_exempt_position_unchanged(*expr);
        },
        ExprView::Cast { expr, .. } => {
            lemma_exempt_position_unchanged(*expr);
        },
        ExprView::If { cond, then_branch, else_branch } => {
            lemma_exempt_position_unchanged(*cond);
            lemma_exempt_list_unchanged(then_branch, then_branch.len());
            lemma_exempt_operand_unchanged(else_branch);
        },
        ExprView::Block(stmts) => {
            lemma_exempt_list_unchanged(stmts, stmts.len());
        },
        ExprView::Range { from, to, .. } => {
            lemma_exempt_operand_unchanged(from);
            lemma_exempt_operand_unchanged(to);
        },
        ExprView::Reference { expr, .. } => {
            lemma_exempt_position_unchanged(*expr);
        },
        ExprView::Struct { fields, rest, .. } => {
            lemma_exempt_fields_unchanged(fields, fields.len());
            lemma_exempt_operand_unchanged(rest);
        },
        ExprView::Paren(expr) => {
            lemma_exempt_position_unchanged(*expr);
        },
        ExprView::Try(expr) => {
            lemma_exempt_position_unchanged(*expr);
        },
        _ => {},
    }
}

/// An optional operand in an exempt position comes back as it went in.
proof fn lemma_exempt_operand_unchanged(o: Option<Box<ExprView>>)
    requires
        rewritten_opt(o, true) is Ok,
    ensures
        rewritten_opt(o, true) == Ok::<Option<Box<ExprView>>, RewriteError>(o),
    decreases o, 0nat,
{
    match o {
        Some(e) => {
            lemma_exempt_position_unchanged(*e);
        },
        None => {},
    }
}

/// The first `n` expressions of a list in an exempt position come back as
/// they went in.
proof fn lemma_exempt_list_unchanged(s: Seq<ExprView>, n: nat)
    requires
        n <= s.len(),
        rewritten_upto(s, n, true) is Ok,
    ensures
        rewritten_upto(s, n, true) == Ok::<Seq<ExprView>, RewriteError>(s.take(n as int)),
        n == s.len() ==> rewritten_all(s, true) == Ok::<Seq<ExprView>, RewriteError>(s),
    decreases s, n,
{
    if n > 0 {
        lemma_exempt_list_unchanged(s, (n - 1) as nat);
        lemma_exempt_position_unchanged(s[n - 1]);
        assert(s.take(n - 1).push(s[n - 1]) =~= s.take(n as int));
    } else {
        assert(s.take(0) =~= Seq::empty());
    }
    if n == s.len() {
        assert(s.take(n as int) =~= s);
    }
}

/// The first `n` fields of a struct literal in an exempt position come back
/// as they went in.
proof fn lemma_exempt_fields_unchanged(s: Seq<FieldValueView>, n: nat)
    requires
        n <= s.len(),
        rewritten_fields_upto(s, n, true) is Ok,
    ensures
        rewritten_fields_upto(s, n, true) == Ok::<Seq<FieldValueView>, RewriteError>(
            s.take(n as int),
        ),
        n == s.len() ==> rewritten_fields(s, true) == Ok::<Seq<FieldValueView>, RewriteError>(s),
    decreases s, n,
{
    if n > 0 {
        lemma_exempt_fields_unchanged(s, (n - 1) as nat);
        assert(rewritten_field(s[n - 1], true) is Ok);
        lemma_exempt_position_unchanged(s[n - 1].value);
        assert(s.take(n - 1).push(s[n - 1]) =~= s.take(n as int));
    } else {
        assert(s.take(0) =~= Seq::empty());
    }
    if n == s.len() {
        assert(s.take(n as int) =~= s);
    }
}

/// What the first `n` expressions of a list are rewritten to depends on
/// those expressions only.
proof fn lemma_list_prefix(s: Seq<ExprView>, t: Seq<ExprView>, n: nat, exempt: bool)
    requires
        n <= s.len(),
        n <= t.len(),
        forall|i: int| 0 <= i < n ==> s[i] == t[i],
    ensures
        rewritten_upto(s, n, exempt) == rewritten_upto(t, n, exempt),
    decreases n,
{
    if n > 0 {
        lemma_list_prefix(s, t, (n - 1) as nat, exempt);
    }
}

/// What the first `n` fields of a struct literal are rewritten to depends on
/// those fields only.
proof fn lemma_fields_prefix(s: Seq<FieldValueView>, t: Seq<FieldValueView>, n: nat, exempt: bool)
    requires
        n <= s.len(),
        n <= t.len(),
        forall|i: int| 0 <= i < n ==> s[i] == t[i],
    ensures
        rewritten_fields_upto(s, n, exempt) == rewritten_fields_upto(t, n, exempt),
    decreases n,
{
    if n > 0 {
        lemma_fields_prefix(s, t, (n - 1) as nat, exempt);
    }
}

/// A rewritten list has as many expressions as the list it comes from.
pub proof fn lemma_list_length_kept(s: Seq<ExprView>, n: nat, exempt: bool)
    requires
        n <= s.len(),
        rewritten_upto(s, n, exempt) is Ok,
    ensures
        rewritten_upto(s, n, exempt)->Ok_0.len() == n,
        forall|i: int|
            0 <= i < n ==> rewritten(s[i], exempt) == Ok::<ExprView, RewriteError>(
                #[trigger] rewritten_upto(s, n, exempt)->Ok_0[i],
            ),
    decreases n,
{
    if n > 0 {
        lemma_list_length_kept(s, (n - 1) as nat, exempt);
    }
}

/// A rewritten struct literal has the fields of the one it comes from, under
/// their names, each with its value rewritten.
pub proof fn lemma_fields_length_kept(s: Seq<FieldValueView>, n: nat, exempt: bool)
    requires
        n <= s.len(),
        rewritten_fields_upto(s, n, exempt) is Ok,
    ensures
        rewritten_fields_upto(s, n, exempt)->Ok_0.len() == n,
        forall|i: int|
            0 <= i < n ==> rewritten_field(s[i], exempt) == Ok::<FieldValueView, RewriteError>(
                #[trigger] rewritten_fields_upto(s, n, exempt)->Ok_0[i],
            ),
    decreases n,
{
    if n > 0 {
        lemma_fields_length_kept(s, (n - 1) as nat, exempt);
    }
}

/// Rewriting changes neither a range into something else nor something else
/// into a range, and the same holds of parentheses.
proof fn lemma_shape_kept(e: ExprView, exempt: bool)
    requires
        rewritten(e, exempt) is Ok,
    ensures
        rewritten(e, exempt)->Ok_0 is Range <==> e is Range,
        rewritten(e, exempt)->Ok_0 is Paren <==> e is Paren,
        is_paren_range(rewritten(e, exempt)->Ok_0) <==> is_paren_range(e),
{
    reveal_with_fuel(rewritten, 2);
}

/// Rewriting what was rewritten changes nothing: a second pass finds no
/// identifier, no annotation and no field in shorthand left to work on.
pub proof fn lemma_rewrite_idempotent(e: ExprView, exempt: bool)
    requires
        rewritten(e, exempt) is Ok,
    ensures
        rewritten(rewritten(e, exempt)->Ok_0, exempt) == rewritten(e, exempt),
    decreases e, 0nat,
{
    match e {
        ExprView::Ascription { expr, .. } => {
            if exempt {
                lemma_rewrite_idempotent(*expr, true);
            }
        },
        ExprView::Array(elems) => {
            lemma_list_idempotent(elems, elems.len(), exempt);
        },
        ExprView::Tuple(elems) => {
            lemma_list_idempotent(elems, elems.len(), exempt);
        },
        ExprView::Call { func, args } => {
            lemma_rewrite_idempotent(*func, true);
            lemma_list_idempotent(args, args.len(), exempt);
        },
        ExprView::MethodCall { receiver, args, .. } => {
            let skip = exempt || !is_paren_range(*receiver);
            lemma_shape_kept(*receiver, skip);
            lemma_rewrite_idempotent(*receiver, skip);
            lemma_list_idempotent(args, args.len(), exempt);
        },
        ExprView::Binary { left, right, .. } => {
            lemma_rewrite_idempotent(*left, exempt);
            lemma_rewrite_idempotent(*right, exempt);
        },
        ExprView::Unary { expr, .. } => {
            lemma_rewrite_idempotent(*expr, exempt);
        },
        ExprView::Cast { expr, .. } => {
            lemma_rewrite_idempotent(*expr, exempt);
        },
        ExprView::If { cond, then_branch, else_branch } => {
            lemma_rewrite_idempotent(*cond, exempt);
            lemma_list_idempotent(then_branch, then_branch.len(), exempt);
            lemma_operand_idempotent(else_branch, exempt);
        },
        ExprView::Block(stmts) => {
            lemma_list_idempotent(stmts, stmts.len(), exempt);
        },
        ExprView::Range { from, to, .. } => {
            lemma_operand_idempotent(from, exempt);
            lemma_operand_idempotent(to, exempt);
        },
        ExprView::Reference { expr, .. } => {
            lemma_rewrite_idempotent(*expr, exempt);
        },
        ExprView::Struct { fields, rest, .. } => {
            lemma_fields_idempotent(fields, fields.len(), exempt);
            lemma_operand_idempotent(rest, exempt);
        },
        ExprView::Paren(expr) => {
            lemma_rewrite_idempotent(*expr, exempt);
        },
        ExprView::Try(expr) => {
            lemma_rewrite_idempotent(*expr, exempt);
        },
        _ => {},
    }
}

/// Rewriting a rewritten optional operand changes nothing.
proof fn lemma_operand_idempotent(o: Option<Box<ExprView>>, exempt: bool)
    requires
        rewritten_opt(o, exempt) is Ok,
    ensures
        rewritten_opt(rewritten_opt(o, exempt)->Ok_0, exempt) == rewritten_opt(o, exempt),
    decreases o, 0nat,
{
    match o {
        Some(e) => {
            lemma_rewrite_idempotent(*e, exempt);
        },
        None => {},
    }
}

/// Rewriting a rewritten list changes nothing.
proof fn lemma_list_idempotent(s: Seq<ExprView>, n: nat, exempt: bool)
    requires
        n <= s.len(),
        rewritten_upto(s, n, exempt) is Ok,
    ensures
        rewritten_upto(s, n, exempt)->Ok_0.len() == n,
        rewritten_upto(rewritten_upto(s, n, exempt)->Ok_0, n, exempt) == rewritten_upto(
            s,
            n,
            exempt,
        ),
    decreases s, n,
{
    if n > 0 {
        let front = rewritten_upto(s, (n - 1) as nat, exempt)->Ok_0;
        let all = rewritten_upto(s, n, exempt)->Ok_0;
        lemma_list_idempotent(s, (n - 1) as nat, exempt);
        lemma_rewrite_idempotent(s[n - 1], exempt);
        lemma_list_prefix(all, front, (n - 1) as nat, exempt);
    }
}

/// Rewriting the rewritten fields of a struct literal changes nothing.
proof fn lemma_fields_idempotent(s: Seq<FieldValueView>, n: nat, exempt: bool)
    requires
        n <= s.len(),
        rewritten_fields_upto(s, n, exempt) is Ok,
    ensures
        rewritten_fields_upto(s, n, exempt)->Ok_0.len() == n,
        rewritten_fields_upto(rewritten_fields_upto(s, n, exempt)->Ok_0, n, exempt)
            == rewritten_fields_upto(s, n, exempt),
    decreases s, n,
{
    if n > 0 {
        let front = rewritten_fields_upto(s, (n - 1) as nat, exempt)->Ok_0;
        let all = rewritten_fields_upto(s, n, exempt)->Ok_0;
        lemma_fields_idempotent(s, (n - 1) as nat, exempt);
        assert(rewritten_field(s[n - 1], exempt) is Ok);
        lemma_rewrite_idempotent(s[n - 1].value, exempt);
        let last = rewritten_field(s[n - 1], exempt)->Ok_0;
        assert(rewritten_field(last, exempt) == Ok::<FieldValueView, RewriteError>(last));
        lemma_fields_prefix(all, front, (n - 1) as nat, exempt);
    }
}

/// Exemption: what names a thing rather than a value is never replaced. A
/// rewritten call has its callee, a rewritten method call its method and,
/// unless that is a parenthesized range, its receiver; a cast keeps its type, a
/// struct literal its path and the names of its fields, written out in full;
/// and the absence literal stays. Every other identifier in the place of a
/// value becomes the capture of its name, with its annotation as the target.
pub proof fn lemma_exempt_positions_kept(e: ExprView)
    requires
        rewritten(e, false) is Ok,
    ensures
        ({
            let r = rewritten(e, false)->Ok_0;
            &&& e matches ExprView::Call { func, args } ==> r matches ExprView::Call {
                func: f,
                args: a,
            } && f == func && a.len() == args.len()
            &&& e matches ExprView::MethodCall { receiver, method, args }
                ==> r matches ExprView::MethodCall { receiver: x, method: m, args: a } && m
                == method && a.len() == args.len() && (!is_paren_range(*receiver) ==> x
                == receiver)
            &&& e matches ExprView::Cast { ty, .. } ==> r matches ExprView::Cast { ty: t, .. } && t
                == ty
            &&& e matches ExprView::Struct { path, fields, .. } ==> r matches ExprView::Struct {
                path: p,
                fields: fs,
                ..
            } && p == path && fs.len() == fields.len() && forall|i: int|
                0 <= i < fields.len() ==> (#[trigger] fs[i]).member == fields[i].member
                    && !fs[i].shorthand
            &&& e matches ExprView::Ident(name) ==> r == if name == absence() {
                e
            } else {
                ExprView::Capture { name, target: None }
            }
            &&& e matches ExprView::Ascription { expr, ty } ==> *expr matches ExprView::Ident(name)
                && r == (ExprView::Capture { name, target: Some(ty) })
        }),
{
    match e {
        ExprView::Call { func, args } => {
            lemma_exempt_position_unchanged(*func);
            lemma_list_length_kept(args, args.len(), false);
        },
        ExprView::MethodCall { receiver, args, .. } => {
            if !is_paren_range(*receiver) {
                lemma_exempt_position_unchanged(*receiver);
            }
            lemma_list_length_kept(args, args.len(), false);
        },
        ExprView::Struct { fields, .. } => {
            lemma_fields_length_kept(fields, fields.len(), false);
        },
        _ => {},
    }
}

/// Whether nothing is left to substitute in an expression that stands for a
/// value: every identifier in the place of a value is the absence literal, no
/// annotation is left, and every field of a struct literal is written out.
/// Callees, and receivers other than a parenthesized range, may hold anything.
pub open spec fn fully_substituted(e: ExprView) -> bool
    decreases e,
{
    match e {
        ExprView::Ident(name) => name == absence(),
        ExprView::Ascription { .. } => false,
        ExprView::Path(_) => true,
        ExprView::Lit(_) => true,
        ExprView::Capture { .. } => true,
        ExprView::Array(elems) => all_fully_substituted(elems),
        ExprView::Tuple(elems) => all_fully_substituted(elems),
        ExprView::Call { args, .. } => all_fully_substituted(args),
        ExprView::MethodCall { receiver, args, .. } => (is_paren_range(*receiver)
            ==> fully_substituted(*receiver)) && all_fully_substituted(args),
        ExprView::Binary { left, right, .. } => fully_substituted(*left) && fully_substituted(
            *right,
        ),
        ExprView::Unary { expr, .. } => fully_substituted(*expr),
        ExprView::Cast { expr, .. } => fully_substituted(*expr),
        ExprView::If { cond, then_branch, else_branch } => fully_substituted(*cond)
            && all_fully_substituted(then_branch) && (else_branch matches Some(e)
            ==> fully_substituted(*e)),
        ExprView::Block(stmts) => all_fully_substituted(stmts),
        ExprView::Range { from, to, .. } => (from matches Some(e) ==> fully_substituted(*e)) && (
        to matches Some(e) ==> fully_substituted(*e)),
        ExprView::Reference { expr, .. } => fully_substituted(*expr),
        ExprView::Struct { fields, rest, .. } => (forall|i: int|
            0 <= i < fields.len() ==> !(#[trigger] fields[i]).shorthand && fully_substituted(
                fields[i].value,
            )) && (rest matches Some(e) ==> fully_substituted(*e)),
        ExprView::Paren(expr) => fully_substituted(*expr),
        ExprView::Try(expr) => fully_substituted(*expr),
        ExprView::Local => false,
        ExprView::Item => false,
        ExprView::Semi => false,
        ExprView::Loop => false,
        ExprView::Match => false,
        ExprView::Closure => false,
        ExprView::Other(_) => false,
    }
}

/// Whether nothing is left to substitute in any expression of a list.
pub open spec fn all_fully_substituted(s: Seq<ExprView>) -> bool
    decreases s,
{
    forall|i: int| 0 <= i < s.len() ==> fully_substituted(#[trigger] s[i])
}

/// Completeness: in what a rewriting hands back, every identifier that stood
/// in the place of a value has been replaced.
pub proof fn lemma_rewrite_substitutes_every_identifier(e: ExprView)
    requires
        rewritten(e, false) is Ok,
    ensures
        fully_substituted(rewritten(e, false)->Ok_0),
    decreases e, 0nat,
{
    match e {
        ExprView::Array(elems) => {
            lemma_list_substituted(elems, elems.len());
        },
        ExprView::Tuple(elems) => {
            lemma_list_substituted(elems, elems.len());
        },
        ExprView::Call { args, .. } => {
            lemma_list_substituted(args, args.len());
        },
        ExprView::MethodCall { receiver, args, .. } => {
            lemma_shape_kept(*receiver, !is_paren_range(*receiver));
            if is_paren_range(*receiver) {
                lemma_rewrite_substitutes_every_identifier(*receiver);
            }
            lemma_list_substituted(args, args.len());
        },
        ExprView::Binary { left, right, .. } => {
            lemma_rewrite_substitutes_every_identifier(*left);
            lemma_rewrite_substitutes_every_identifier(*right);
        },
        ExprView::Unary { expr, .. } => {
            lemma_rewrite_substitutes_every_identifier(*expr);
        },
        ExprView::Cast { expr, .. } => {
            lemma_rewrite_substitutes_every_identifier(*expr);
        },
        ExprView::If { cond, then_branch, else_branch } => {
            lemma_rewrite_substitutes_every_identifier(*cond);
            lemma_list_substituted(then_branch, then_branch.len());
            lemma_operand_substituted(else_branch);
        },
        ExprView::Block(stmts) => {
            lemma_list_substituted(stmts, stmts.len());
        },
        ExprView::Range { from, to, .. } => {
            lemma_operand_substituted(from);
            lemma_operand_substituted(to);
        },
        ExprView::Reference { expr, .. } => {
            lemma_rewrite_substitutes_every_identifier(*expr);
        },
        ExprView::Struct { fields, rest, .. } => {
            lemma_fields_substituted(fields, fields.len());
            lemma_operand_substituted(rest);
        },
        ExprView::Paren(expr) => {
            lemma_rewrite_substitutes_every_identifier(*expr);
        },
        ExprView::Try(expr) => {
            lemma_rewrite_substitutes_every_identifier(*expr);
        },
        _ => {},
    }
}

/// Nothing is left to substitute in a rewritten optional operand.
proof fn lemma_operand_substituted(o: Option<Box<ExprView>>)
    requires
        rewritten_opt(o, false) is Ok,
    ensures
        rewritten_opt(o, false)->Ok_0 matches Some(e) ==> fully_substituted(*e),
    decreases o, 0nat,
{
    match o {
        Some(e) => {
            lemma_rewrite_substitutes_every_identifier(*e);
        },
        None => {},
    }
}

/// Nothing is left to substitute in a rewritten list.
proof fn lemma_list_substituted(s: Seq<ExprView>, n: nat)
    requires
        n <= s.len(),
        rewritten_upto(s, n, false) is Ok,
    ensures
        all_fully_substituted(rewritten_upto(s, n, false)->Ok_0),
    decreases s, n,
{
    if n > 0 {
        lemma_list_substituted(s, (n - 1) as nat);
        lemma_rewrite_substitutes_every_identifier(s[n - 1]);
        lemma_list_length_kept(s, (n - 1) as nat, false);
    }
}

/// Nothing is left to substitute in the rewritten fields of a struct
/// literal, and none of them is in shorthand.
proof fn lemma_fields_substituted(s: Seq<FieldValueView>, n: nat)
    requires
        n <= s.len(),
        rewritten_fields_upto(s, n, false) is Ok,
    ensures
        forall|i: int|
            0 <= i < rewritten_fields_upto(s, n, false)->Ok_0.len() ==> !(
            #[trigger] rewritten_fields_upto(s, n, false)->Ok_0[i]).shorthand && fully_substituted(
                rewritten_fields_upto(s, n, false)->Ok_0[i].value,
            ),
    decreases s, n,
{
    if n > 0 {
        lemma_fields_substituted(s, (n - 1) as nat);
        assert(rewritten_field(s[n - 1], false) is Ok);
        lemma_rewrite_substitutes_every_identifier(s[n - 1].value);
        lemma_fields_length_kept(s, (n - 1) as nat, false);
    }
}

} // verus!
