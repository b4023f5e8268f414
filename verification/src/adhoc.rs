//! Assembles the parser of a type: the normalized patterns, and for each field
//! the expression that computes it from the captures.

use crate::expr::{model, models, Expr, ExprView, FieldValue, FieldValueView};
use crate::regex::{
    normalized, prefix, replace_numbered_capture_groups, PatternError, PatternErrorView,
};
use crate::schema::{
    opt_text, opt_texts, texts, Arg, Attribute, Data, DataType, DeriveInput, Field,
    FieldAttributes, Fields, Lit, Variant,
};
use crate::transform_idents::{rewrite_error_text, rewritten, RewriteError, TransformIdents};
use vstd::prelude::*;
use vstd::string::*;

verus! {

/// Why no parser can be made for a type.
#[derive(Debug, PartialEq, Eq)]
pub enum DeriveError {
    /// The type is a struct without fields.
    UnitStruct,
    /// The type is a union.
    Union,
    /// The fields of a struct were asked for, and the type is none.
    ExpectedStruct,
    /// The variants of an enum were asked for, and the type is none.
    ExpectedEnum,
    /// The struct has no fields to parse.
    ExpectedFields,
    /// The struct has no pattern.
    MissingRegex,
    /// The enum has a pattern of its own: each variant brings its pattern.
    UnexpectedRegex,
    /// The named variant has no pattern.
    VariantMissingRegex(String),
    /// A pattern cannot be repaired.
    InvalidRegex(PatternError),
    /// A construction expression is given as something other than a string.
    ConstructWith,
    /// A construction expression is refused.
    Expression(RewriteError),
}

/// The mathematical content of a [`DeriveError`].
pub enum DeriveErrorView {
    UnitStruct,
    Union,
    ExpectedStruct,
    ExpectedEnum,
    ExpectedFields,
    MissingRegex,
    UnexpectedRegex,
    VariantMissingRegex(Seq<char>),
    InvalidRegex(PatternErrorView),
    ConstructWith,
    Expression(RewriteError),
}

impl View for DeriveError {
    type V = DeriveErrorView;

    open spec fn view(&self) -> DeriveErrorView {
        match self {
            DeriveError::UnitStruct => DeriveErrorView::UnitStruct,
            DeriveError::Union => DeriveErrorView::Union,
            DeriveError::ExpectedStruct => DeriveErrorView::ExpectedStruct,
            DeriveError::ExpectedEnum => DeriveErrorView::ExpectedEnum,
            DeriveError::ExpectedFields => DeriveErrorView::ExpectedFields,
            DeriveError::MissingRegex => DeriveErrorView::MissingRegex,
            DeriveError::UnexpectedRegex => DeriveErrorView::UnexpectedRegex,
            DeriveError::VariantMissingRegex(name) => DeriveErrorView::VariantMissingRegex(name@),
            DeriveError::InvalidRegex(e) => DeriveErrorView::InvalidRegex(e@),
            DeriveError::ConstructWith => DeriveErrorView::ConstructWith,
            DeriveError::Expression(e) => DeriveErrorView::Expression(*e),
        }
    }
}

/// The text of a [`DeriveError`].
pub open spec fn derive_error_text(e: DeriveErrorView) -> Seq<char> {
    match e {
        DeriveErrorView::UnitStruct => "Not implemented for unit structs!"@,
        DeriveErrorView::Union => "Not implemented for unions!"@,
        DeriveErrorView::ExpectedStruct => "Expected struct"@,
        DeriveErrorView::ExpectedEnum => "Expected enum"@,
        DeriveErrorView::ExpectedFields => "Expected named or unnamed fields"@,
        DeriveErrorView::MissingRegex => "No regex found!"@,
        DeriveErrorView::UnexpectedRegex =>
            "Unexpected regex as enum attribute. For enums, each variant needs to be annotated with a regex."@,
        DeriveErrorView::VariantMissingRegex(name) => "Variant "@ + name
            + " is missing a regex attribute."@,
        DeriveErrorView::InvalidRegex(e) => "Invalid regex: "@ + e.message,
        DeriveErrorView::ConstructWith => "construct_with must be a function call expression!"@,
        DeriveErrorView::Expression(e) => rewrite_error_text(e),
    }
}

impl DeriveError {
    /// What to tell the author of the type.
    pub fn message(&self) -> (r: String)
        ensures
            r@ == derive_error_text(self@),
    {
        match self {
            DeriveError::UnitStruct => String::from_str("Not implemented for unit structs!"),
            DeriveError::Union => String::from_str("Not implemented for unions!"),
            DeriveError::ExpectedStruct => String::from_str("Expected struct"),
            DeriveError::ExpectedEnum => String::from_str("Expected enum"),
            DeriveError::ExpectedFields => String::from_str("Expected named or unnamed fields"),
            DeriveError::MissingRegex => String::from_str("No regex found!"),
            DeriveError::UnexpectedRegex => String::from_str(
                "Unexpected regex as enum attribute. For enums, each variant needs to be annotated with a regex.",
            ),
            DeriveError::VariantMissingRegex(name) => {
                let mut text = String::from_str("Variant ");
                text.append(name.as_str());
                text.append(" is missing a regex attribute.");
                text
            },
            DeriveError::InvalidRegex(e) => {
                let mut text = String::from_str("Invalid regex: ");
                text.append(e.message.as_str());
                text
            },
            DeriveError::ConstructWith => String::from_str(
                "construct_with must be a function call expression!",
            ),
            DeriveError::Expression(e) => e.message(),
        }
    }
}

/// Whether a string is the given text.
fn text_is(s: &String, text: &str) -> (r: bool)
    ensures
        r == (s@ == text@),
{
    let other = String::from_str(text);
    *s == other
}

/// The pattern that one entry of an attribute gives: the value of
/// `regex = "..."`.
pub open spec fn regex_of_arg(arg: Arg) -> Option<Seq<char>> {
    match arg {
        Arg::NameValue { name, value: Lit::Str(s) } => if name@ == "regex"@ {
            Some(s@)
        } else {
            None
        },
        _ => None,
    }
}

/// The first pattern that the entries from `from` on give.
pub open spec fn regex_in_args(args: Seq<Arg>, from: nat) -> Option<Seq<char>>
    decreases args.len() - from,
{
    if from >= args.len() {
        None
    } else {
        match regex_of_arg(args[from as int]) {
            Some(r) => Some(r),
            None => regex_in_args(args, from + 1),
        }
    }
}

/// The entries that count: those of an attribute `adhoc(..)`.
pub open spec fn adhoc_args(attr: Attribute) -> Seq<Arg> {
    match attr.args {
        Some(args) => if attr.name@ == "adhoc"@ {
            args@
        } else {
            Seq::empty()
        },
        None => Seq::empty(),
    }
}

/// The first pattern that the attributes from `from` on give.
pub open spec fn regex_in_attrs(attrs: Seq<Attribute>, from: nat) -> Option<Seq<char>>
    decreases attrs.len() - from,
{
    if from >= attrs.len() {
        None
    } else {
        match regex_in_args(adhoc_args(attrs[from as int]), 0) {
            Some(r) => Some(r),
            None => regex_in_attrs(attrs, from + 1),
        }
    }
}

/// The pattern that a list of attributes gives: the value of the first
/// `regex = "..."` inside an `adhoc(..)`.
pub open spec fn extracted_regex(attrs: Seq<Attribute>) -> Option<Seq<char>> {
    regex_in_attrs(attrs, 0)
}

/// Finds the pattern among the attributes of a type or of a variant.
pub fn extract_regex(attrs: &Vec<Attribute>) -> (r: Option<String>)
    ensures
        opt_text(r) == extracted_regex(attrs@),
{
    let mut i: usize = 0;
    while i < attrs.len()
        invariant
            i <= attrs.len(),
            regex_in_attrs(attrs@, i as nat) == extracted_regex(attrs@),
        decreases attrs.len() - i,
    {
        let attr = &attrs[i];
        if text_is(&attr.name, "adhoc") {
            match &attr.args {
                Some(args) => {
                    let mut j: usize = 0;
                    while j < args.len()
                        invariant
                            j <= args.len(),
                            i < attrs.len(),
                            adhoc_args(attrs@[i as int]) == args@,
                            regex_in_args(args@, j as nat) == regex_in_args(args@, 0),
                            regex_in_attrs(attrs@, i as nat) == extracted_regex(attrs@),
                        decreases args.len() - j,
                    {
                        match &args[j] {
                            Arg::NameValue { name, value } => {
                                if text_is(name, "regex") {
                                    match value {
                                        Lit::Str(s) => {
                                            return Some(s.clone());
                                        },
                                        Lit::Other => {},
                                    }
                                }
                            },
                            Arg::Other => {},
                        }
                        j = j + 1;
                    }
                },
                None => {},
            }
        }
        i = i + 1;
    }
    None
}

/// What one entry of an attribute makes of the construction expression found
/// so far: `construct_with = "..."` replaces it, and `construct_with` with any
/// other literal is an error.
pub open spec fn construct_with_after(found: Option<Seq<char>>, arg: Arg) -> Result<
    Option<Seq<char>>,
    DeriveErrorView,
> {
    match arg {
        Arg::NameValue { name, value } => if name@ == "construct_with"@ {
            match value {
                Lit::Str(s) => Ok(Some(s@)),
                Lit::Other => Err(DeriveErrorView::ConstructWith),
            }
        } else {
            Ok(found)
        },
        Arg::Other => Ok(found),
    }
}

/// The construction expression after the first `n` entries, from what was
/// found before them.
pub open spec fn construct_with_in_args(args: Seq<Arg>, n: nat, found: Option<Seq<char>>) -> Result<
    Option<Seq<char>>,
    DeriveErrorView,
>
    decreases n,
{
    if n == 0 || n > args.len() {
        Ok(found)
    } else {
        match construct_with_in_args(args, (n - 1) as nat, found) {
            Ok(f) => construct_with_after(f, args[n - 1]),
            Err(e) => Err(e),
        }
    }
}

/// The construction expression after the first `n` attributes.
pub open spec fn construct_with_in_attrs(attrs: Seq<Attribute>, n: nat) -> Result<
    Option<Seq<char>>,
    DeriveErrorView,
>
    decreases n,
{
    if n == 0 || n > attrs.len() {
        Ok(None)
    } else {
        match construct_with_in_attrs(attrs, (n - 1) as nat) {
            Ok(f) => construct_with_in_args(
                adhoc_args(attrs[n - 1]),
                adhoc_args(attrs[n - 1]).len(),
                f,
            ),
            Err(e) => Err(e),
        }
    }
}

/// What the attributes of a field say: the text of the last
/// `construct_with = "..."` inside an `adhoc(..)`, or the error of the first
/// `construct_with` that is no string.
pub open spec fn parsed_attributes(attrs: Seq<Attribute>) -> Result<
    Option<Seq<char>>,
    DeriveErrorView,
> {
    construct_with_in_attrs(attrs, attrs.len())
}

/// Once an entry is refused, the attribute is refused for it.
proof fn lemma_args_refusal_stays(args: Seq<Arg>, n: nat, m: nat, found: Option<Seq<char>>)
    requires
        n <= m <= args.len(),
        construct_with_in_args(args, n, found) is Err,
    ensures
        construct_with_in_args(args, m, found) == construct_with_in_args(args, n, found),
    decreases m,
{
    if n < m {
        lemma_args_refusal_stays(args, n, (m - 1) as nat, found);
    }
}

/// Once an attribute is refused, the list is refused for it.
proof fn lemma_attrs_refusal_stays(attrs: Seq<Attribute>, n: nat, m: nat)
    requires
        n <= m <= attrs.len(),
        construct_with_in_attrs(attrs, n) is Err,
    ensures
        construct_with_in_attrs(attrs, m) == construct_with_in_attrs(attrs, n),
    decreases m,
{
    if n < m {
        lemma_attrs_refusal_stays(attrs, n, (m - 1) as nat);
    }
}

/// Reads the attributes of a field.
pub fn parse_attributes(attrs: &Vec<Attribute>) -> (r: Result<FieldAttributes, DeriveError>)
    ensures
        match r {
            Ok(a) => parsed_attributes(attrs@) == Ok::<Option<Seq<char>>, DeriveErrorView>(
                opt_text(a.construct_with),
            ),
            Err(e) => parsed_attributes(attrs@) == Err::<Option<Seq<char>>, DeriveErrorView>(e@),
        },
{
    let mut construct_with: Option<String> = None;
    let mut i: usize = 0;
    while i < attrs.len()
        invariant
            i <= attrs.len(),
            construct_with_in_attrs(attrs@, i as nat) == Ok::<Option<Seq<char>>, DeriveErrorView>(
                opt_text(construct_with),
            ),
        decreases attrs.len() - i,
    {
        let attr = &attrs[i];
        let ghost before = opt_text(construct_with);
        if text_is(&attr.name, "adhoc") {
            match &attr.args {
                Some(args) => {
                    let mut j: usize = 0;
                    while j < args.len()
                        invariant
                            j <= args.len(),
                            i < attrs.len(),
                            adhoc_args(attrs@[i as int]) == args@,
                            construct_with_in_attrs(attrs@, i as nat) == Ok::<
                                Option<Seq<char>>,
                                DeriveErrorView,
                            >(before),
                            construct_with_in_args(args@, j as nat, before) == Ok::<
                                Option<Seq<char>>,
                                DeriveErrorView,
                            >(opt_text(construct_with)),
                        decreases args.len() - j,
                    {
                        match &args[j] {
                            Arg::NameValue { name, value } => {
                                if text_is(name, "construct_with") {
                                    match value {
                                        Lit::Str(s) => {
                                            construct_with = Some(s.clone());
                                        },
                                        Lit::Other => {
                                            proof {
                                                lemma_args_refusal_stays(
                                                    args@,
                                                    (j + 1) as nat,
                                                    args@.len(),
                                                    before,
                                                );
                                                lemma_attrs_refusal_stays(
                                                    attrs@,
                                                    (i + 1) as nat,
                                                    attrs@.len(),
                                                );
                                            }
                                            return Err(DeriveError::ConstructWith);
                                        },
                                    }
                                }
                            },
                            Arg::Other => {},
                        }
                        j = j + 1;
                    }
                },
                None => {},
            }
        }
        i = i + 1;
    }
    Ok(FieldAttributes { construct_with })
}

/// The shape of a type.
pub open spec fn data_type(data: Data) -> DataType {
    match data {
        Data::Struct(Fields::Named(_)) => DataType::Struct,
        Data::Struct(Fields::Unnamed(_)) => DataType::TupleStruct,
        Data::Struct(Fields::Unit) => DataType::UnitStruct,
        Data::Enum(_) => DataType::Enum,
        Data::Union => DataType::Union,
    }
}

/// Tells the shape of a type.
pub fn determine_data_type(data: &Data) -> (r: DataType)
    ensures
        r == data_type(*data),
{
    match data {
        Data::Struct(fields) => match fields {
            Fields::Named(_) => DataType::Struct,
            Fields::Unnamed(_) => DataType::TupleStruct,
            Fields::Unit => DataType::UnitStruct,
        },
        Data::Enum(_) => DataType::Enum,
        Data::Union => DataType::Union,
    }
}

/// The character that writes a digit.
pub open spec fn digit(d: nat) -> char {
    if d == 0 {
        '0'
    } else if d == 1 {
        '1'
    } else if d == 2 {
        '2'
    } else if d == 3 {
        '3'
    } else if d == 4 {
        '4'
    } else if d == 5 {
        '5'
    } else if d == 6 {
        '6'
    } else if d == 7 {
        '7'
    } else if d == 8 {
        '8'
    } else {
        '9'
    }
}

/// A number written in decimal, without leading zeros.
pub open spec fn decimal(n: nat) -> Seq<char>
    decreases n,
{
    if n < 10 {
        seq![digit(n)]
    } else {
        decimal(n / 10).push(digit(n % 10))
    }
}

/// The name of the capture group that a positional field reads: the prefix
/// that repairs a numeric group name, and the field's position.
pub open spec fn positional_name(index: nat) -> Seq<char> {
    prefix() + decimal(index)
}

/// The name of the capture group that a field reads by default.
pub open spec fn field_name(field: Field, index: nat) -> Seq<char> {
    match field.ident {
        Some(name) => name@,
        None => positional_name(index),
    }
}

/// The expression that computes a field: its construction expression,
/// rewritten, or else the capture of its name, converted to its type.
pub open spec fn parse_expression(field: Field, index: nat) -> Result<ExprView, RewriteError> {
    match field.construct_with {
        Some(e) => rewritten(e@, false),
        None => Ok(ExprView::Capture { name: field_name(field, index), target: Some(field.ty@) }),
    }
}

/// The expressions that compute the first `n` fields, in their order.
pub open spec fn parse_expressions_upto(fields: Seq<Field>, n: nat) -> Result<
    Seq<ExprView>,
    RewriteError,
>
    decreases n,
{
    if n == 0 || n > fields.len() {
        Ok(Seq::empty())
    } else {
        match parse_expressions_upto(fields, (n - 1) as nat) {
            Err(err) => Err(err),
            Ok(front) => match parse_expression(fields[n - 1], (n - 1) as nat) {
                Ok(x) => Ok(front.push(x)),
                Err(err) => Err(err),
            },
        }
    }
}

/// The names of those of the first `n` fields that have one, in their order.
pub open spec fn idents_upto(fields: Seq<Field>, n: nat) -> Seq<Seq<char>>
    decreases n,
{
    if n == 0 || n > fields.len() {
        Seq::empty()
    } else {
        match fields[n - 1].ident {
            Some(name) => idents_upto(fields, (n - 1) as nat).push(name@),
            None => idents_upto(fields, (n - 1) as nat),
        }
    }
}

/// The names of the fields and the expressions that compute them, or the
/// reason for which the first offending construction expression is refused.
pub open spec fn parsed_fields(fields: Seq<Field>) -> Result<
    (Seq<Seq<char>>, Seq<ExprView>),
    DeriveErrorView,
> {
    match parse_expressions_upto(fields, fields.len()) {
        Ok(exprs) => Ok((idents_upto(fields, fields.len()), exprs)),
        Err(err) => Err(DeriveErrorView::Expression(err)),
    }
}

/// Once a field is refused, the list of fields is refused for it.
proof fn lemma_fields_refusal_stays(fields: Seq<Field>, n: nat, m: nat)
    requires
        n <= m <= fields.len(),
        parse_expressions_upto(fields, n) is Err,
    ensures
        parse_expressions_upto(fields, m) == parse_expressions_upto(fields, n),
    decreases m,
{
    if n < m {
        lemma_fields_refusal_stays(fields, n, (m - 1) as nat);
    }
}

/// The text of one digit.
fn digit_text(d: usize) -> (r: &'static str)
    requires
        d < 10,
    ensures
        r@ == seq![digit(d as nat)],
{
    proof {
        reveal_strlit("0");
        reveal_strlit("1");
        reveal_strlit("2");
        reveal_strlit("3");
        reveal_strlit("4");
        reveal_strlit("5");
        reveal_strlit("6");
        reveal_strlit("7");
        reveal_strlit("8");
        reveal_strlit("9");
    }
    let r = if d == 0 {
        "0"
    } else if d == 1 {
        "1"
    } else if d == 2 {
        "2"
    } else if d == 3 {
        "3"
    } else if d == 4 {
        "4"
    } else if d == 5 {
        "5"
    } else if d == 6 {
        "6"
    } else if d == 7 {
        "7"
    } else if d == 8 {
        "8"
    } else {
        "9"
    };
    assert(r@ =~= seq![digit(d as nat)]);
    r
}

/// Writes a number in decimal.
pub fn decimal_text(n: usize) -> (r: String)
    ensures
        r@ == decimal(n as nat),
    decreases n,
{
    if n < 10 {
        String::from_str(digit_text(n))
    } else {
        let mut text = decimal_text(n / 10);
        text.append(digit_text(n % 10));
        assert(text@ =~= decimal(n as nat));
        text
    }
}

/// The name of the capture group that the positional field `index` reads.
pub fn positional_field_name(index: usize) -> (r: String)
    ensures
        r@ == positional_name(index as nat),
{
    proof {
        reveal_strlit("__");
    }
    let mut name = String::from_str("__");
    assert(name@ =~= prefix());
    let digits = decimal_text(index);
    name.append(digits.as_str());
    name
}

/// What the fields of a struct or of a variant come to, as the caller sees it.
pub open spec fn fields_outcome(r: Result<(Vec<String>, Vec<Expr>), DeriveError>) -> Result<
    (Seq<Seq<char>>, Seq<ExprView>),
    DeriveErrorView,
> {
    match r {
        Ok((idents, exprs)) => Ok((texts(idents), models(exprs))),
        Err(e) => Err(e@),
    }
}

/// For each field, in order, the expression that computes it: the field's
/// construction expression with captures in the place of its identifiers, or
/// else the capture of the field's name (`__` and the position for a
/// positional field). The names of the named fields come with them.
pub fn parse_fields_internal(fields: Vec<Field>) -> (r: Result<
    (Vec<String>, Vec<Expr>),
    DeriveError,
>)
    ensures
        fields_outcome(r) == parsed_fields(fields@),
{
    let ghost orig = fields;
    let mut idents: Vec<String> = Vec::new();
    let mut parse_exprs: Vec<Expr> = Vec::new();
    let mut i: usize = 0;
    assert(texts(idents) =~= Seq::empty());
    assert(models(parse_exprs) =~= Seq::empty());
    for field in it: fields
        invariant
            fields == orig,
            it.seq() == orig@,
            i == it.index(),
            i <= orig.len(),
            parse_expressions_upto(orig@, i as nat) == Ok::<Seq<ExprView>, RewriteError>(
                models(parse_exprs),
            ),
            texts(idents) == idents_upto(orig@, i as nat),
    {
        let ghost idents_before = idents;
        let ghost exprs_before = parse_exprs;
        assert(field == orig@[i as int]);
        let Field { ident, ty, construct_with } = field;
        let field_name = match ident {
            Some(name) => {
                idents.push(name.clone());
                assert(texts(idents) =~= texts(idents_before).push(name@));
                name
            },
            None => positional_field_name(i),
        };
        match construct_with {
            Some(expr) => {
                let transform_idents = TransformIdents::new();
                match transform_idents.rewrite(expr) {
                    Ok(rewritten_expr) => {
                        parse_exprs.push(rewritten_expr);
                        assert(models(parse_exprs) =~= models(exprs_before).push(
                            rewritten_expr@,
                        ));
                    },
                    Err(err) => {
                        proof {
                            lemma_fields_refusal_stays(orig@, (i + 1) as nat, orig@.len());
                        }
                        return Err(DeriveError::Expression(err));
                    },
                }
            },
            None => {
                let capture = Expr::Capture { name: field_name, target: Some(ty) };
                parse_exprs.push(capture);
                assert(models(parse_exprs) =~= models(exprs_before).push(capture@));
            },
        }
        i = i + 1;
    }
    Ok((idents, parse_exprs))
}

/// What parsing the fields of a struct, or of a variant, comes to.
pub open spec fn fields_and_names(r: Result<(Option<Vec<String>>, Vec<Expr>), DeriveError>) -> Result<
    (Option<Seq<Seq<char>>>, Seq<ExprView>),
    DeriveErrorView,
> {
    match r {
        Ok((idents, exprs)) => Ok((opt_texts(idents), models(exprs))),
        Err(e) => Err(e@),
    }
}

/// The expressions that compute the fields of a variant, with the names of
/// named fields. A variant without fields has none.
pub open spec fn parsed_variant_fields(fields: Fields) -> Result<
    (Option<Seq<Seq<char>>>, Seq<ExprView>),
    DeriveErrorView,
> {
    match fields {
        Fields::Named(fields) => match parsed_fields(fields@) {
            Ok((idents, exprs)) => Ok((Some(idents), exprs)),
            Err(e) => Err(e),
        },
        Fields::Unnamed(fields) => match parsed_fields(fields@) {
            Ok((_, exprs)) => Ok((None, exprs)),
            Err(e) => Err(e),
        },
        Fields::Unit => Ok((None, Seq::empty())),
    }
}

/// The expressions that compute the fields of a struct, with the names of
/// named fields. Only a struct with fields has them.
pub open spec fn parsed_struct_fields(data: Data) -> Result<
    (Option<Seq<Seq<char>>>, Seq<ExprView>),
    DeriveErrorView,
> {
    match data {
        Data::Struct(Fields::Unit) => Err(DeriveErrorView::ExpectedFields),
        Data::Struct(fields) => parsed_variant_fields(fields),
        _ => Err(DeriveErrorView::ExpectedStruct),
    }
}

/// The fields of a variant, parsed.
fn parse_variant_fields(fields: Fields) -> (r: Result<
    (Option<Vec<String>>, Vec<Expr>),
    DeriveError,
>)
    ensures
        fields_and_names(r) == parsed_variant_fields(fields),
{
    match fields {
        Fields::Named(fields) => match parse_fields_internal(fields) {
            Ok((idents, parse_exprs)) => Ok((Some(idents), parse_exprs)),
            Err(e) => Err(e),
        },
        Fields::Unnamed(fields) => match parse_fields_internal(fields) {
            Ok((_, parse_exprs)) => Ok((None, parse_exprs)),
            Err(e) => Err(e),
        },
        Fields::Unit => {
            let parse_exprs: Vec<Expr> = Vec::new();
            assert(models(parse_exprs) =~= Seq::empty());
            Ok((None, parse_exprs))
        },
    }
}

/// The fields of a struct, parsed: the names of named fields, and for each
/// field the expression that computes it.
pub fn parse_fields(data: Data) -> (r: Result<(Option<Vec<String>>, Vec<Expr>), DeriveError>)
    ensures
        fields_and_names(r) == parsed_struct_fields(data),
{
    match data {
        Data::Struct(fields) => match fields {
            Fields::Unit => Err(DeriveError::ExpectedFields),
            _ => parse_variant_fields(fields),
        },
        _ => Err(DeriveError::ExpectedStruct),
    }
}

/// The initializers `name: value` that names and expressions pair up to.
pub open spec fn initializers(idents: Seq<Seq<char>>, exprs: Seq<ExprView>) -> Seq<
    FieldValueView,
> {
    Seq::new(
        if idents.len() <= exprs.len() {
            idents.len()
        } else {
            exprs.len()
        },
        |i: int| FieldValueView { member: idents[i], shorthand: false, value: exprs[i] },
    )
}

/// What makes a value of a type from the expressions of its fields: a struct
/// literal where the fields have names, else a call of the constructor.
pub open spec fn instantiation(path: Seq<char>, idents: Option<Seq<Seq<char>>>, exprs: Seq<
    ExprView,
>) -> ExprView {
    match idents {
        Some(names) => ExprView::Struct { path, fields: initializers(names, exprs), rest: None },
        None => ExprView::Call { func: Box::new(ExprView::Path(path)), args: exprs },
    }
}

/// What makes a struct: `Self { .. }` for named fields, `Name(..)` for
/// positional ones.
pub open spec fn struct_instantiation(name: Seq<char>, idents: Option<Seq<Seq<char>>>, exprs: Seq<
    ExprView,
>) -> ExprView {
    match idents {
        Some(_) => instantiation("Self"@, idents, exprs),
        None => instantiation(name, idents, exprs),
    }
}

/// What makes a variant: its path alone where it has no fields.
pub open spec fn enum_instantiation(path: Seq<char>, idents: Option<Seq<Seq<char>>>, exprs: Seq<
    ExprView,
>) -> ExprView {
    if exprs.len() == 0 {
        ExprView::Path(path)
    } else {
        instantiation(path, idents, exprs)
    }
}

/// Pairs names and expressions up to initializers.
fn initialize(idents: Vec<String>, exprs: Vec<Expr>) -> (r: Vec<FieldValue>)
    ensures
        crate::expr::field_models(r) == initializers(texts(idents), models(exprs)),
{
    let ghost orig = exprs;
    let mut out: Vec<FieldValue> = Vec::new();
    let mut i: usize = 0;
    for expr in it: exprs
        invariant
            exprs == orig,
            it.seq() == orig@,
            i == it.index(),
            i <= orig.len(),
            out.len() == if i <= idents.len() {
                i
            } else {
                idents.len()
            },
            forall|j: int|
                0 <= j < out.len() ==> (#[trigger] out[j])@ == (FieldValueView {
                    member: idents[j]@,
                    shorthand: false,
                    value: orig[j]@,
                }),
    {
        assert(expr == orig@[i as int]);
        if i < idents.len() {
            out.push(FieldValue { member: idents[i].clone(), shorthand: false, value: expr });
        }
        i = i + 1;
    }
    assert(crate::expr::field_models(out) =~= initializers(texts(idents), models(orig)));
    out
}

/// Makes a value from the expressions of its fields.
fn instantiate(path: String, field_idents: Option<Vec<String>>, parse_expressions: Vec<Expr>) -> (r:
    Expr)
    ensures
        r@ == instantiation(path@, opt_texts(field_idents), models(parse_expressions)),
{
    reveal_with_fuel(model, 2);
    match field_idents {
        Some(idents) => {
            let fields = initialize(idents, parse_expressions);
            Expr::Struct { path, fields, rest: None }
        },
        None => Expr::Call { func: Box::new(Expr::Path(path)), args: parse_expressions },
    }
}

/// The expression that makes the struct from the expressions of its fields.
pub fn generate_struct_instantiation(
    name: &String,
    field_idents: Option<Vec<String>>,
    parse_expressions: Vec<Expr>,
) -> (r: Expr)
    ensures
        r@ == struct_instantiation(name@, opt_texts(field_idents), models(parse_expressions)),
{
    let path = match &field_idents {
        Some(_) => String::from_str("Self"),
        None => name.clone(),
    };
    instantiate(path, field_idents, parse_expressions)
}

/// The expression that makes a variant from the expressions of its fields.
pub fn generate_enum_instantiation(
    variant_name: String,
    field_idents: Option<Vec<String>>,
    parse_expressions: Vec<Expr>,
) -> (r: Expr)
    ensures
        r@ == enum_instantiation(
            variant_name@,
            opt_texts(field_idents),
            models(parse_expressions),
        ),
{
    if parse_expressions.len() == 0 {
        Expr::Path(variant_name)
    } else {
        instantiate(variant_name, field_idents, parse_expressions)
    }
}

/// What a variant does before it makes its value: with fields, it matches its
/// own pattern once more, to have the captures; without, nothing.
pub fn generate_variant_instantiation_preamble(has_fields: bool, regex: &String) -> (r: Option<
    String,
>)
    ensures
        opt_text(r) == if has_fields {
            Some(regex@)
        } else {
            None
        },
{
    if has_fields {
        Some(regex.clone())
    } else {
        None
    }
}

/// A variant with its pattern and the expressions of its fields.
#[derive(Debug, PartialEq, Eq)]
pub struct EnumVariant {
    pub ident: String,
    pub regex: String,
    /// The names of named fields, and the expression of each field.
    pub fields: (Option<Vec<String>>, Vec<Expr>),
}

/// The mathematical content of an [`EnumVariant`].
pub struct EnumVariantView {
    pub ident: Seq<char>,
    pub regex: Seq<char>,
    pub idents: Option<Seq<Seq<char>>>,
    pub exprs: Seq<ExprView>,
}

impl View for EnumVariant {
    type V = EnumVariantView;

    open spec fn view(&self) -> EnumVariantView {
        EnumVariantView {
            ident: self.ident@,
            regex: self.regex@,
            idents: opt_texts(self.fields.0),
            exprs: models(self.fields.1),
        }
    }
}

/// The views of a list of variants, in order.
pub open spec fn variant_views(v: Vec<EnumVariant>) -> Seq<EnumVariantView> {
    Seq::new(v.len() as nat, |i: int| v[i]@)
}

/// A variant with the expressions of its fields. A variant needs a pattern.
pub open spec fn enum_variant(variant: Variant) -> Result<EnumVariantView, DeriveErrorView> {
    match variant.regex {
        None => Err(DeriveErrorView::VariantMissingRegex(variant.ident@)),
        Some(regex) => match parsed_variant_fields(variant.fields) {
            Ok((idents, exprs)) => Ok(
                EnumVariantView { ident: variant.ident@, regex: regex@, idents, exprs },
            ),
            Err(e) => Err(e),
        },
    }
}

/// The first `n` variants, in their order, or what is wrong with the first
/// of them that cannot be used.
pub open spec fn enum_variants_upto(variants: Seq<Variant>, n: nat) -> Result<
    Seq<EnumVariantView>,
    DeriveErrorView,
>
    decreases n,
{
    if n == 0 || n > variants.len() {
        Ok(Seq::empty())
    } else {
        match enum_variants_upto(variants, (n - 1) as nat) {
            Err(e) => Err(e),
            Ok(front) => match enum_variant(variants[n - 1]) {
                Ok(v) => Ok(front.push(v)),
                Err(e) => Err(e),
            },
        }
    }
}

/// The variants of an enum, in their order.
pub open spec fn enum_variants(data: Data) -> Result<Seq<EnumVariantView>, DeriveErrorView> {
    match data {
        Data::Enum(variants) => enum_variants_upto(variants@, variants.len() as nat),
        _ => Err(DeriveErrorView::ExpectedEnum),
    }
}

/// Once a variant is refused, the enum is refused for it.
proof fn lemma_variants_refusal_stays(variants: Seq<Variant>, n: nat, m: nat)
    requires
        n <= m <= variants.len(),
        enum_variants_upto(variants, n) is Err,
    ensures
        enum_variants_upto(variants, m) == enum_variants_upto(variants, n),
    decreases m,
{
    if n < m {
        lemma_variants_refusal_stays(variants, n, (m - 1) as nat);
    }
}

/// What reading the variants comes to, as the caller sees it.
pub open spec fn variants_outcome(r: Result<Vec<EnumVariant>, DeriveError>) -> Result<
    Seq<EnumVariantView>,
    DeriveErrorView,
> {
    match r {
        Ok(v) => Ok(variant_views(v)),
        Err(e) => Err(e@),
    }
}

/// The variants of an enum, in declaration order, each with its pattern and
/// the expressions of its fields.
pub fn get_enum_variants(data: Data) -> (r: Result<Vec<EnumVariant>, DeriveError>)
    ensures
        variants_outcome(r) == enum_variants(data),
{
    match data {
        Data::Enum(variants) => {
            let ghost orig = variants;
            let mut out: Vec<EnumVariant> = Vec::new();
            assert(variant_views(out) =~= Seq::empty());
            for variant in it: variants
                invariant
                    data == Data::Enum(orig),
                    variants == orig,
                    it.seq() == orig@,
                    out.len() == it.index(),
                    enum_variants_upto(orig@, it.index() as nat) == Ok::<
                        Seq<EnumVariantView>,
                        DeriveErrorView,
                    >(variant_views(out)),
            {
                let ghost before = out;
                let ghost n = it.index();
                assert(variant == orig@[n]);
                let Variant { ident, regex, fields } = variant;
                let regex = match regex {
                    Some(regex) => regex,
                    None => {
                        proof {
                            lemma_variants_refusal_stays(orig@, (n + 1) as nat, orig@.len());
                        }
                        return Err(DeriveError::VariantMissingRegex(ident));
                    },
                };
                let fields = match parse_variant_fields(fields) {
                    Ok(fields) => fields,
                    Err(e) => {
                        proof {
                            lemma_variants_refusal_stays(orig@, (n + 1) as nat, orig@.len());
                        }
                        return Err(e);
                    },
                };
                let parsed = EnumVariant { ident, regex, fields };
                out.push(parsed);
                assert(variant_views(out) =~= variant_views(before).push(parsed@));
            }
            Ok(out)
        },
        _ => Err(DeriveError::ExpectedEnum),
    }
}

/// The parser of a struct: the pattern to match the input against, and the
/// expression that makes the value from the captures.
#[derive(Debug, PartialEq, Eq)]
pub struct StructParser {
    pub regex: String,
    pub instantiation: Expr,
}

/// The mathematical content of a [`StructParser`].
pub struct StructParserView {
    pub regex: Seq<char>,
    pub instantiation: ExprView,
}

impl View for StructParser {
    type V = StructParserView;

    open spec fn view(&self) -> StructParserView {
        StructParserView { regex: self.regex@, instantiation: self.instantiation@ }
    }
}

/// What one variant of an enum does once it is the first whose pattern
/// matched.
#[derive(Debug, PartialEq, Eq)]
pub struct VariantParser {
    /// The variant's own pattern, matched once more for its captures; `None`
    /// where the variant has no fields.
    pub preamble: Option<String>,
    /// The expression that makes the variant from the captures.
    pub instantiation: Expr,
}

/// The mathematical content of a [`VariantParser`].
pub struct VariantParserView {
    pub preamble: Option<Seq<char>>,
    pub instantiation: ExprView,
}

impl View for VariantParser {
    type V = VariantParserView;

    open spec fn view(&self) -> VariantParserView {
        VariantParserView {
            preamble: opt_text(self.preamble),
            instantiation: self.instantiation@,
        }
    }
}

/// The parser of an enum: the patterns of its variants, to be matched as one
/// set, and what each variant does. The variant to use is the first, in this
/// order, whose pattern matches.
#[derive(Debug, PartialEq, Eq)]
pub struct EnumParser {
    pub regexes: Vec<String>,
    pub variants: Vec<VariantParser>,
}

/// The mathematical content of an [`EnumParser`].
pub struct EnumParserView {
    pub regexes: Seq<Seq<char>>,
    pub variants: Seq<VariantParserView>,
}

impl View for EnumParser {
    type V = EnumParserView;

    open spec fn view(&self) -> EnumParserView {
        EnumParserView {
            regexes: texts(self.regexes),
            variants: Seq::new(self.variants.len() as nat, |i: int| self.variants[i]@),
        }
    }
}

/// The parser of a type.
#[derive(Debug, PartialEq, Eq)]
pub enum Parser {
    Struct(StructParser),
    Enum(EnumParser),
}

/// The mathematical content of a [`Parser`].
pub enum ParserView {
    Struct(StructParserView),
    Enum(EnumParserView),
}

impl View for Parser {
    type V = ParserView;

    open spec fn view(&self) -> ParserView {
        match self {
            Parser::Struct(p) => ParserView::Struct(p@),
            Parser::Enum(p) => ParserView::Enum(p@),
        }
    }
}

/// The parser of a struct: its pattern, normalized, and the struct made from
/// the expressions of its fields. The pattern is looked at first.
pub open spec fn struct_parser(input: DeriveInput) -> Result<StructParserView, DeriveErrorView> {
    match input.regex {
        None => Err(DeriveErrorView::MissingRegex),
        Some(regex) => match normalized(regex@).failure {
            Some(failure) => Err(DeriveErrorView::InvalidRegex(failure)),
            None => match parsed_struct_fields(input.data) {
                Err(e) => Err(e),
                Ok((idents, exprs)) => Ok(
                    StructParserView {
                        regex: normalized(regex@).pattern,
                        instantiation: struct_instantiation(input.ident@, idents, exprs),
                    },
                ),
            },
        },
    }
}

/// Assembles the parser of a struct with named or positional fields.
pub fn from_str_derive_struct(input: DeriveInput) -> (r: Result<StructParser, DeriveError>)
    ensures
        match r {
            Ok(p) => struct_parser(input) == Ok::<StructParserView, DeriveErrorView>(p@),
            Err(e) => struct_parser(input) == Err::<StructParserView, DeriveErrorView>(e@),
        },
{
    let DeriveInput { ident: name, regex, data } = input;
    let mut regex_string = match regex {
        Some(regex) => regex,
        None => {
            return Err(DeriveError::MissingRegex);
        },
    };
    match replace_numbered_capture_groups(&mut regex_string) {
        Ok(_) => {},
        Err(e) => {
            return Err(DeriveError::InvalidRegex(e));
        },
    }
    let (field_idents, parse_expressions) = match parse_fields(data) {
        Ok(fields) => fields,
        Err(e) => {
            return Err(e);
        },
    };
    let instantiation = generate_struct_instantiation(&name, field_idents, parse_expressions);
    Ok(StructParser { regex: regex_string, instantiation })
}

/// The path of a variant, `Name::Variant`.
pub open spec fn variant_path(name: Seq<char>, variant: Seq<char>) -> Seq<char> {
    name + "::"@ + variant
}

/// The patterns of the first `n` variants, normalized, or the failure of the
/// first that cannot be repaired.
pub open spec fn normalized_upto(variants: Seq<EnumVariantView>, n: nat) -> Result<
    Seq<Seq<char>>,
    DeriveErrorView,
>
    decreases n,
{
    if n == 0 || n > variants.len() {
        Ok(Seq::empty())
    } else {
        match normalized_upto(variants, (n - 1) as nat) {
            Err(e) => Err(e),
            Ok(front) => match normalized(variants[n - 1].regex).failure {
                Some(failure) => Err(DeriveErrorView::InvalidRegex(failure)),
                None => Ok(front.push(normalized(variants[n - 1].regex).pattern)),
            },
        }
    }
}

/// Once a pattern cannot be repaired, the enum is refused for it.
proof fn lemma_patterns_refusal_stays(variants: Seq<EnumVariantView>, n: nat, m: nat)
    requires
        n <= m <= variants.len(),
        normalized_upto(variants, n) is Err,
    ensures
        normalized_upto(variants, m) == normalized_upto(variants, n),
    decreases m,
{
    if n < m {
        lemma_patterns_refusal_stays(variants, n, (m - 1) as nat);
    }
}

/// What a variant does, given its normalized pattern.
pub open spec fn variant_parser(name: Seq<char>, variant: EnumVariantView, regex: Seq<char>)
    -> VariantParserView {
    VariantParserView {
        preamble: if variant.exprs.len() > 0 {
            Some(regex)
        } else {
            None
        },
        instantiation: enum_instantiation(
            variant_path(name, variant.ident),
            variant.idents,
            variant.exprs,
        ),
    }
}

/// The parser of an enum: no pattern of its own, and for each variant, in
/// declaration order, its normalized pattern and what it does. All variants
/// are read before any pattern is looked at.
pub open spec fn enum_parser(input: DeriveInput) -> Result<EnumParserView, DeriveErrorView> {
    if input.regex is Some {
        Err(DeriveErrorView::UnexpectedRegex)
    } else {
        match enum_variants(input.data) {
            Err(e) => Err(e),
            Ok(variants) => match normalized_upto(variants, variants.len()) {
                Err(e) => Err(e),
                Ok(regexes) => Ok(
                    EnumParserView {
                        regexes,
                        variants: Seq::new(
                            variants.len(),
                            |i: int| variant_parser(input.ident@, variants[i], regexes[i]),
                        ),
                    },
                ),
            },
        }
    }
}

/// Assembles the parser of an enum.
pub fn from_str_derive_enum(input: DeriveInput) -> (r: Result<EnumParser, DeriveError>)
    ensures
        match r {
            Ok(p) => enum_parser(input) == Ok::<EnumParserView, DeriveErrorView>(p@),
            Err(e) => enum_parser(input) == Err::<EnumParserView, DeriveErrorView>(e@),
        },
{
    let DeriveInput { ident: name, regex, data } = input;
    if regex.is_some() {
        return Err(DeriveError::UnexpectedRegex);
    }
    let variants = match get_enum_variants(data) {
        Ok(variants) => variants,
        Err(e) => {
            return Err(e);
        },
    };
    let ghost parsed = variant_views(variants);
    let ghost orig = variants;
    let mut regexes: Vec<String> = Vec::new();
    let mut parsers: Vec<VariantParser> = Vec::new();
    assert(texts(regexes) =~= Seq::empty());
    for variant in it: variants
        invariant
            input.regex is None,
            input.ident == name,
            enum_variants(input.data) == Ok::<Seq<EnumVariantView>, DeriveErrorView>(parsed),
            variants == orig,
            it.seq() == orig@,
            parsed == variant_views(orig),
            regexes.len() == it.index(),
            parsers.len() == it.index(),
            normalized_upto(parsed, it.index() as nat) == Ok::<Seq<Seq<char>>, DeriveErrorView>(
                texts(regexes),
            ),
            forall|j: int|
                0 <= j < parsers.len() ==> (#[trigger] parsers[j])@ == variant_parser(
                    name@,
                    parsed[j],
                    regexes[j]@,
                ),
    {
        let ghost before = regexes;
        let ghost n = it.index();
        assert(variant == orig@[n]);
        assert(parsed[n] == variant@);
        let EnumVariant { ident, regex, fields } = variant;
        let mut regex = regex;
        match replace_numbered_capture_groups(&mut regex) {
            Ok(_) => {},
            Err(e) => {
                proof {
                    lemma_patterns_refusal_stays(parsed, (n + 1) as nat, parsed.len());
                }
                return Err(DeriveError::InvalidRegex(e));
            },
        }
        let (field_idents, parse_expressions) = fields;
        let mut path = name.clone();
        path.append("::");
        path.append(ident.as_str());
        let preamble = generate_variant_instantiation_preamble(
            parse_expressions.len() != 0,
            &regex,
        );
        let instantiation = generate_enum_instantiation(path, field_idents, parse_expressions);
        parsers.push(VariantParser { preamble, instantiation });
        regexes.push(regex);
        assert(texts(regexes) =~= texts(before).push(regex@));
    }
    let r = EnumParser { regexes, variants: parsers };
    assert(r@.variants =~= Seq::new(
        parsed.len(),
        |i: int| variant_parser(name@, parsed[i], texts(regexes)[i]),
    ));
    Ok(r)
}

/// The parser of a type: that of a struct with fields, or that of an enum.
pub open spec fn parser(input: DeriveInput) -> Result<ParserView, DeriveErrorView> {
    match data_type(input.data) {
        DataType::Struct | DataType::TupleStruct => match struct_parser(input) {
            Ok(p) => Ok(ParserView::Struct(p)),
            Err(e) => Err(e),
        },
        DataType::Enum => match enum_parser(input) {
            Ok(p) => Ok(ParserView::Enum(p)),
            Err(e) => Err(e),
        },
        DataType::UnitStruct => Err(DeriveErrorView::UnitStruct),
        DataType::Union => Err(DeriveErrorView::Union),
    }
}

/// Assembles the parser of a type from its description. A struct without
/// fields and a union have no parser.
pub fn from_str_derive(input: DeriveInput) -> (r: Result<Parser, DeriveError>)
    ensures
        match r {
            Ok(p) => parser(input) == Ok::<ParserView, DeriveErrorView>(p@),
            Err(e) => parser(input) == Err::<ParserView, DeriveErrorView>(e@),
        },
{
    match determine_data_type(&input.data) {
        DataType::Struct | DataType::TupleStruct => match from_str_derive_struct(input) {
            Ok(p) => Ok(Parser::Struct(p)),
            Err(e) => Err(e),
        },
        DataType::Enum => match from_str_derive_enum(input) {
            Ok(p) => Ok(Parser::Enum(p)),
            Err(e) => Err(e),
        },
        DataType::UnitStruct => Err(DeriveError::UnitStruct),
        DataType::Union => Err(DeriveError::Union),
    }
}

} // verus!
