//! The construction expressions that a field may carry, as a tree, and the
//! mathematical model that the contracts speak of.

use vstd::prelude::*;
use vstd::string::*;

verus! {

/// A construction expression: what computes a field from the captures.
///
/// Text that the rewriting never looks into (operators, types, qualified paths,
/// literals) is carried as written.
#[derive(Debug, PartialEq, Eq)]
pub enum Expr {
    /// A bare identifier, such as `width`.
    Ident(String),
    /// An expression with a type annotation, such as `width: u8`.
    Ascription { expr: Box<Expr>, ty: String },
    /// A qualified path, such as `Default::default` or `u8::MAX`.
    Path(String),
    /// A literal, such as `1` or `"m/s"`.
    Lit(String),
    /// An array literal, `[a, b]`.
    Array(Vec<Expr>),
    /// A tuple literal, `(a, b)`.
    Tuple(Vec<Expr>),
    /// A function call, `func(args)`.
    Call { func: Box<Expr>, args: Vec<Expr> },
    /// A method call, `receiver.method(args)`; `method` holds the name and
    /// any explicit type arguments.
    MethodCall { receiver: Box<Expr>, method: String, args: Vec<Expr> },
    /// A binary operation, `left op right`.
    Binary { left: Box<Expr>, op: String, right: Box<Expr> },
    /// A unary operation, `op expr`.
    Unary { op: String, expr: Box<Expr> },
    /// A cast, `expr as ty`.
    Cast { expr: Box<Expr>, ty: String },
    /// A conditional; the `else` branch is a block or another conditional.
    If { cond: Box<Expr>, then_branch: Vec<Expr>, else_branch: Option<Box<Expr>> },
    /// A block, `{ .. }`, as the list of its statements.
    Block(Vec<Expr>),
    /// A range, `from..to` or, where `closed`, `from..=to`.
    Range { from: Option<Box<Expr>>, closed: bool, to: Option<Box<Expr>> },
    /// A borrow, `&expr` or `&mut expr`.
    Reference { mutable: bool, expr: Box<Expr> },
    /// A struct literal, `path { fields, ..rest }`.
    Struct { path: String, fields: Vec<FieldValue>, rest: Option<Box<Expr>> },
    /// A parenthesized expression.
    Paren(Box<Expr>),
    /// An expression followed by `?`.
    Try(Box<Expr>),
    /// Reads the capture group `name` and converts it to `target`, or to the type
    /// that the context asks for where `target` is `None`; a failure to read or to
    /// convert ends the whole parse. The target `&str` takes the text as it is.
    Capture { name: String, target: Option<String> },
    /// A `let` statement.
    Local,
    /// An item declared inside a block.
    Item,
    /// An expression statement that ends in a semicolon.
    Semi,
    /// A `loop`, `while` or `for` expression.
    Loop,
    /// A `match` expression.
    Match,
    /// A closure.
    Closure,
    /// Any other kind of expression, as written.
    Other(String),
}

/// One field of a struct literal. In shorthand (`Point { x }`) the value is
/// the identifier that names the field.
#[derive(Debug, PartialEq, Eq)]
pub struct FieldValue {
    pub member: String,
    pub shorthand: bool,
    pub value: Expr,
}

/// The mathematical content of an [`Expr`].
pub enum ExprView {
    Ident(Seq<char>),
    Ascription { expr: Box<ExprView>, ty: Seq<char> },
    Path(Seq<char>),
    Lit(Seq<char>),
    Array(Seq<ExprView>),
    Tuple(Seq<ExprView>),
    Call { func: Box<ExprView>, args: Seq<ExprView> },
    MethodCall { receiver: Box<ExprView>, method: Seq<char>, args: Seq<ExprView> },
    Binary { left: Box<ExprView>, op: Seq<char>, right: Box<ExprView> },
    Unary { op: Seq<char>, expr: Box<ExprView> },
    Cast { expr: Box<ExprView>, ty: Seq<char> },
    If { cond: Box<ExprView>, then_branch: Seq<ExprView>, else_branch: Option<Box<ExprView>> },
    Block(Seq<ExprView>),
    Range { from: Option<Box<ExprView>>, closed: bool, to: Option<Box<ExprView>> },
    Reference { mutable: bool, expr: Box<ExprView> },
    Struct { path: Seq<char>, fields: Seq<FieldValueView>, rest: Option<Box<ExprView>> },
    Paren(Box<ExprView>),
    Try(Box<ExprView>),
    Capture { name: Seq<char>, target: Option<Seq<char>> },
    Local,
    Item,
    Semi,
    Loop,
    Match,
    Closure,
    Other(Seq<char>),
}

/// The mathematical content of a [`FieldValue`].
pub struct FieldValueView {
    pub member: Seq<char>,
    pub shorthand: bool,
    pub value: ExprView,
}

/// The model of an optional type annotation.
pub open spec fn text_view(ty: Option<String>) -> Option<Seq<char>> {
    match ty {
        Some(t) => Some(t@),
        None => None,
    }
}

/// The model of an expression.
pub open spec fn model(e: Expr) -> ExprView
    decreases e,
{
    match e {
        Expr::Ident(name) => ExprView::Ident(name@),
        Expr::Ascription { expr, ty } => ExprView::Ascription {
            expr: Box::new(model(*expr)),
            ty: ty@,
        },
        Expr::Path(text) => ExprView::Path(text@),
        Expr::Lit(text) => ExprView::Lit(text@),
        Expr::Array(elems) => ExprView::Array(models(elems)),
        Expr::Tuple(elems) => ExprView::Tuple(models(elems)),
        Expr::Call { func, args } => ExprView::Call {
            func: Box::new(model(*func)),
            args: models(args),
        },
        Expr::MethodCall { receiver, method, args } => ExprView::MethodCall {
            receiver: Box::new(model(*receiver)),
            method: method@,
            args: models(args),
        },
        Expr::Binary { left, op, right } => ExprView::Binary {
            left: Box::new(model(*left)),
            op: op@,
            right: Box::new(model(*right)),
        },
        Expr::Unary { op, expr } => ExprView::Unary { op: op@, expr: Box::new(model(*expr)) },
        Expr::Cast { expr, ty } => ExprView::Cast { expr: Box::new(model(*expr)), ty: ty@ },
        Expr::If { cond, then_branch, else_branch } => ExprView::If {
            cond: Box::new(model(*cond)),
            then_branch: models(then_branch),
            else_branch: match else_branch {
                Some(e) => Some(Box::new(model(*e))),
                None => None,
            },
        },
        Expr::Block(stmts) => ExprView::Block(models(stmts)),
        Expr::Range { from, closed, to } => ExprView::Range {
            from: match from {
                Some(e) => Some(Box::new(model(*e))),
                None => None,
            },
            closed,
            to: match to {
                Some(e) => Some(Box::new(model(*e))),
                None => None,
            },
        },
        Expr::Reference { mutable, expr } => ExprView::Reference {
            mutable,
            expr: Box::new(model(*expr)),
        },
        Expr::Struct { path, fields, rest } => ExprView::Struct {
            path: path@,
            fields: field_models(fields),
            rest: match rest {
                Some(e) => Some(Box::new(model(*e))),
                None => None,
            },
        },
        Expr::Paren(expr) => ExprView::Paren(Box::new(model(*expr))),
        Expr::Try(expr) => ExprView::Try(Box::new(model(*expr))),
        Expr::Capture { name, target } => ExprView::Capture { name: name@, target: text_view(target) },
        Expr::Local => ExprView::Local,
        Expr::Item => ExprView::Item,
        Expr::Semi => ExprView::Semi,
        Expr::Loop => ExprView::Loop,
        Expr::Match => ExprView::Match,
        Expr::Closure => ExprView::Closure,
        Expr::Other(text) => ExprView::Other(text@),
    }
}

/// The models of a list of expressions, in order.
pub open spec fn models(exprs: Vec<Expr>) -> Seq<ExprView>
    decreases exprs,
{
    Seq::new(
        exprs.len() as nat,
        |i: int|
            if 0 <= i < exprs.len() {
                model(exprs[i])
            } else {
                ExprView::Local
            },
    )
}

/// The models of the fields of a struct literal, in order.
pub open spec fn field_models(fields: Vec<FieldValue>) -> Seq<FieldValueView>
    decreases fields,
{
    Seq::new(
        fields.len() as nat,
        |i: int|
            if 0 <= i < fields.len() {
                FieldValueView {
                    member: fields[i].member@,
                    shorthand: fields[i].shorthand,
                    value: model(fields[i].value),
                }
            } else {
                FieldValueView { member: Seq::empty(), shorthand: false, value: ExprView::Local }
            },
    )
}

impl View for Expr {
    type V = ExprView;

    open spec fn view(&self) -> ExprView {
        model(*self)
    }
}

impl View for FieldValue {
    type V = FieldValueView;

    open spec fn view(&self) -> FieldValueView {
        FieldValueView { member: self.member@, shorthand: self.shorthand, value: model(self.value) }
    }
}

/// Whether a conversion target is the type of borrowed text, `&str`, with
/// or without a space between its two tokens.
pub open spec fn is_text_target(ty: Seq<char>) -> bool {
    ty == "&str"@ || ty == "& str"@
}

/// Whether a capture hands on the captured text itself: that is so where its
/// target is `&str`, which no text can be parsed into. With any other target,
/// and with none, the text is parsed.
pub fn keeps_text(target: &Option<String>) -> (r: bool)
    ensures
        r == (target matches Some(ty) && is_text_target(ty@)),
{
    match target {
        Some(ty) => {
            let joined = String::from_str("&str");
            let spaced = String::from_str("& str");
            *ty == joined || *ty == spaced
        },
        None => false,
    }
}

} // verus!
