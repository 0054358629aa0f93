use crate::error::{ErrorKind, SteelErr};
use crate::value::{elements, lemma_element_decreases, variant_name, SteelVal};
use std::rc::Rc;
use vstd::prelude::*;
use vstd::string::*;

verus! {

broadcast use vstd::std_specs::vec::group_vec_axioms, vstd::seq::group_seq_axioms;

/// A source location: a range of offsets in one source.
#[derive(Clone, Copy, Debug, PartialEq, Eq, Structural)]
pub struct Span {
    pub start: u32,
    pub end: u32,
    pub source_id: Option<u32>,
}

/// The location given to expressions that come from no source.
pub open spec fn no_span() -> Span {
    Span { start: 0, end: 0, source_id: None }
}

fn default_span() -> (r: Span)
    ensures
        r == no_span(),
{
    Span { start: 0, end: 0, source_id: None }
}

/// A value paired with an optional raw form and a source location.
#[derive(Clone)]
pub struct Syntax {
    pub raw: Option<SteelVal>,
    pub syntax: SteelVal,
    pub span: Span,
}

/// The literal of an atom in the expression tree.
#[derive(Clone, Debug, PartialEq, Eq)]
pub enum Token {
    BooleanLiteral(bool),
    /// The bit pattern of a binary64 number.
    NumberLiteral(u64),
    IntegerLiteral(isize),
    StringLiteral(String),
    Identifier(String),
    CharacterLiteral(char),
}

/// The expression tree that the parser and the macro expander work on.
#[derive(Debug)]
pub enum ExprKind {
    Atom(Token, Span),
    /// A literal list.
    List(Vec<ExprKind>),
    /// A list that the parser reads as a special form or an application.
    Form(Vec<ExprKind>),
}

/// The atom that a scalar value becomes at `span`, if it is one.
pub open spec fn atom_of(v: SteelVal, span: Span) -> Option<ExprKind> {
    match v {
        SteelVal::BoolV(b) => Some(ExprKind::Atom(Token::BooleanLiteral(b), span)),
        SteelVal::NumV(n) => Some(ExprKind::Atom(Token::NumberLiteral(n), span)),
        SteelVal::IntV(i) => Some(ExprKind::Atom(Token::IntegerLiteral(i), span)),
        SteelVal::StringV(s) => Some(ExprKind::Atom(Token::StringLiteral(*s.0), span)),
        SteelVal::SymbolV(s) => Some(ExprKind::Atom(Token::Identifier(*s.0), span)),
        SteelVal::CharV(c) => Some(ExprKind::Atom(Token::CharacterLiteral(c), span)),
        _ => None,
    }
}

fn atom(v: &SteelVal, span: Span) -> (r: Option<ExprKind>)
    ensures
        r == atom_of(*v, span),
{
    match v {
        SteelVal::BoolV(b) => Some(ExprKind::Atom(Token::BooleanLiteral(*b), span)),
        SteelVal::NumV(n) => Some(ExprKind::Atom(Token::NumberLiteral(*n), span)),
        SteelVal::IntV(i) => Some(ExprKind::Atom(Token::IntegerLiteral(*i), span)),
        SteelVal::StringV(s) => Some(ExprKind::Atom(Token::StringLiteral((*s.0).clone()), span)),
        SteelVal::SymbolV(s) => Some(ExprKind::Atom(Token::Identifier((*s.0).clone()), span)),
        SteelVal::CharV(c) => Some(ExprKind::Atom(Token::CharacterLiteral(*c), span)),
        _ => None,
    }
}

/// Whether a value has an expression-tree form: scalars, strings, symbols,
/// syntax objects around such values, and lists and vectors of them.
pub open spec fn expressible(v: SteelVal) -> bool
    decreases v,
{
    match v {
        SteelVal::SyntaxObject(s) => expressible(s.syntax),
        SteelVal::VectorV(l) => forall|i: int| #![trigger l@[i]] 0 <= i < l@.len() ==> expressible(l@[i]),
        SteelVal::ListV(l) => forall|i: int| #![trigger l@[i]] 0 <= i < l@.len() ==> expressible(l@[i]),
        _ => atom_of(v, no_span()) is Some,
    }
}

/// `e` is the expression-tree form of `v` at `span`: a syntax object takes
/// its own location, and the elements of lists and vectors become a literal
/// list of their forms.
pub open spec fn expr_of(v: SteelVal, span: Span, e: ExprKind) -> bool
    decreases v,
{
    match v {
        SteelVal::SyntaxObject(s) => expr_of(s.syntax, s.span, e),
        SteelVal::VectorV(l) => e matches ExprKind::List(items) && items@.len() == l@.len() && forall|
            i: int,
        |
            #![trigger l@[i]]
            0 <= i < l@.len() ==> expr_of(l@[i], no_span(), items@[i]),
        SteelVal::ListV(l) => e matches ExprKind::List(items) && items@.len() == l@.len() && forall|
            i: int,
        |
            #![trigger l@[i]]
            0 <= i < l@.len() ==> expr_of(l@[i], no_span(), items@[i]),
        _ => atom_of(v, span) == Some(e),
    }
}

/// The message for a value that has no expression-tree form.
pub open spec fn not_expressible_message(v: SteelVal) -> Seq<char> {
    "unable to convert "@ + variant_name(v) + " to expression"@
}

/// The value that a failed conversion of `v` names: inside a syntax object,
/// the one for its value; in a list or vector, the one for its first element
/// that has no expression-tree form; otherwise `v` itself.
pub open spec fn first_inexpressible(v: SteelVal) -> SteelVal
    decreases v, 0int,
{
    match v {
        SteelVal::SyntaxObject(s) => first_inexpressible(s.syntax),
        SteelVal::VectorV(l) => first_inexpressible_in(l@, 0),
        SteelVal::ListV(l) => first_inexpressible_in(l@, 0),
        _ => v,
    }
}

/// The value named for the first element from index `i` on that has no
/// expression-tree form.
pub open spec fn first_inexpressible_in(s: Seq<SteelVal>, i: int) -> SteelVal
    decreases s, s.len() - i + 1,
{
    if 0 <= i < s.len() {
        if expressible(s[i]) {
            first_inexpressible_in(s, i + 1)
        } else {
            first_inexpressible(s[i])
        }
    } else {
        SteelVal::Void
    }
}

proof fn lemma_first_inexpressible_in(s: Seq<SteelVal>, i: int, j: int)
    requires
        0 <= j <= i < s.len(),
        !expressible(s[i]),
        forall|k: int| #![trigger s[k]] 0 <= k < i ==> expressible(s[k]),
    ensures
        first_inexpressible_in(s, j) == first_inexpressible(s[i]),
    decreases i - j,
{
    if j < i {
        lemma_first_inexpressible_in(s, i, j + 1);
    }
}

fn not_expressible(v: &SteelVal) -> (e: SteelErr)
    ensures
        e.kind == ErrorKind::ConversionError,
        e.message@ == not_expressible_message(*v),
{
    let mut m = String::from_str("unable to convert ");
    m.append(v.variant_name());
    m.append(" to expression");
    SteelErr::new(ErrorKind::ConversionError, m)
}

fn exprs_of(outer: &SteelVal, l: &Vec<SteelVal>) -> (r: Result<Vec<ExprKind>, SteelErr>)
    requires
        l@ == elements(*outer),
    ensures
        r is Ok <==> forall|i: int| #![trigger l@[i]] 0 <= i < l@.len() ==> expressible(l@[i]),
        r matches Ok(items) ==> items@.len() == l@.len() && forall|i: int|
            #![trigger l@[i]]
            0 <= i < l@.len() ==> expr_of(l@[i], no_span(), items@[i]),
        r matches Err(e) ==> e.kind == ErrorKind::ConversionError,
        r matches Err(e) ==> e.message@ == not_expressible_message(first_inexpressible_in(l@, 0)),
    decreases *outer, 0nat,
{
    let mut items: Vec<ExprKind> = Vec::new();
    let mut i: usize = 0;
    while i < l.len()
        invariant
            l@ == elements(*outer),
            i <= l@.len(),
            items@.len() == i,
            forall|k: int| #![trigger l@[k]] 0 <= k < i ==> expressible(l@[k]),
            forall|k: int| #![trigger l@[k]] 0 <= k < i ==> expr_of(l@[k], no_span(), items@[k]),
        decreases l@.len() - i,
    {
        proof {
            lemma_element_decreases(*outer, i as int);
        }
        match expr_at(&l[i], default_span()) {
            Ok(e) => items.push(e),
            Err(e) => {
                assert(!expressible(l@[i as int]));
                proof {
                    lemma_first_inexpressible_in(l@, i as int, 0);
                }
                return Err(e);
            },
        }
        i += 1;
    }
    Ok(items)
}

fn expr_at(v: &SteelVal, span: Span) -> (r: Result<ExprKind, SteelErr>)
    ensures
        r is Ok <==> expressible(*v),
        r matches Ok(e) ==> expr_of(*v, span, e),
        r matches Err(e) ==> e.kind == ErrorKind::ConversionError,
        r matches Err(e) ==> e.message@ == not_expressible_message(first_inexpressible(*v)),
    decreases *v, 1nat,
{
    match v {
        SteelVal::SyntaxObject(s) => expr_at(&s.syntax, s.span),
        SteelVal::VectorV(l) => match exprs_of(v, &**l) {
            Ok(items) => Ok(ExprKind::List(items)),
            Err(e) => Err(e),
        },
        SteelVal::ListV(l) => match exprs_of(v, &**l) {
            Ok(items) => Ok(ExprKind::List(items)),
            Err(e) => Err(e),
        },
        _ => match atom(v, span) {
            Some(e) => Ok(e),
            None => Err(not_expressible(v)),
        },
    }
}

impl Syntax {
    pub fn new(syntax: SteelVal, span: Span) -> (r: Syntax)
        ensures
            r == (Syntax { raw: None, syntax, span }),
    {
        Syntax { raw: None, syntax, span }
    }

    /// A syntax object that keeps the raw form it was read from.
    pub fn proto(raw: SteelVal, syntax: SteelVal, span: Span) -> (r: Syntax)
        ensures
            r == (Syntax { raw: Some(raw), syntax, span }),
    {
        Syntax { raw: Some(raw), syntax, span }
    }

    pub fn syntax_e(&self) -> (r: SteelVal)
        ensures
            r == self.syntax,
    {
        self.syntax.share()
    }

    pub fn new_with_source(syntax: SteelVal, span: Span) -> (r: Syntax)
        ensures
            r == (Syntax { raw: None, syntax, span }),
    {
        Syntax { raw: None, syntax, span }
    }

    pub fn syntax_loc(&self) -> (r: Span)
        ensures
            r == self.span,
    {
        self.span
    }

    /// The raw form; only a syntax object made with `proto` has one.
    pub fn syntax_datum(&self) -> (r: SteelVal)
        requires
            self.raw is Some,
        ensures
            r == self.raw->0,
    {
        match &self.raw {
            Some(raw) => raw.share(),
            None => SteelVal::Void,
        }
    }

    /// The expression-tree form of a value outside any syntax object: atoms
    /// have no location.
    pub fn steelval_to_exprkind(value: &SteelVal) -> (r: Result<ExprKind, SteelErr>)
        ensures
            r is Ok <==> expressible(*value),
            r matches Ok(e) ==> expr_of(*value, no_span(), e),
            r matches Err(e) ==> e.kind == ErrorKind::ConversionError,
            r matches Err(e) ==> e.message@ == not_expressible_message(first_inexpressible(*value)),
    {
        expr_at(value, default_span())
    }

    /// The expression-tree form of this syntax object: atoms take its
    /// location, nested syntax objects their own.
    pub fn to_exprkind(&self) -> (r: Result<ExprKind, SteelErr>)
        ensures
            r is Ok <==> expressible(self.syntax),
            r matches Ok(e) ==> expr_of(self.syntax, self.span, e),
            r matches Err(e) ==> e.kind == ErrorKind::ConversionError,
            r matches Err(e) ==> e.message@ == not_expressible_message(first_inexpressible(self.syntax)),
    {
        expr_at(&self.syntax, self.span)
    }
}

/// The conversion of a host value into a runtime value.
pub trait IntoSteelVal: Sized {
    fn into_steelval(self) -> Result<SteelVal, SteelErr>;
}

impl IntoSteelVal for Syntax {
    fn into_steelval(self) -> (r: Result<SteelVal, SteelErr>)
        ensures
            r matches Ok(v) && v == SteelVal::SyntaxObject(Rc::new(self)),
    {
        Ok(SteelVal::SyntaxObject(Rc::new(self)))
    }
}

impl From<Syntax> for SteelVal {
    fn from(val: Syntax) -> (r: SteelVal)
        ensures
            r == SteelVal::SyntaxObject(Rc::new(val)),
    {
        SteelVal::SyntaxObject(Rc::new(val))
    }
}

impl vstd::std_specs::convert::FromSpecImpl<Syntax> for SteelVal {
    open spec fn obeys_from_spec() -> bool {
        true
    }

    open spec fn from_spec(v: Syntax) -> SteelVal {
        SteelVal::SyntaxObject(Rc::new(v))
    }
}

} // verus!

verus! {

/// The text of a symbol, bare or inside a syntax object.
pub open spec fn symbol_text(v: SteelVal) -> Option<Seq<char>> {
    match v {
        SteelVal::SymbolV(s) => Some(s@),
        SteelVal::SyntaxObject(x) => match x.syntax {
            SteelVal::SymbolV(s) => Some(s@),
            _ => None,
        },
        _ => None,
    }
}

/// A list whose head is the symbol `quote`.
pub open spec fn quote_form(l: Seq<SteelVal>) -> bool {
    l.len() > 0 && symbol_text(l[0]) == Some("quote"@)
}

fn is_quote_form(l: &Vec<SteelVal>) -> (r: bool)
    ensures
        r == quote_form(l@),
{
    if l.len() == 0 {
        return false;
    }
    let quote = String::from_str("quote");
    match &l[0] {
        SteelVal::SymbolV(s) => *s.0 == quote,
        SteelVal::SyntaxObject(x) => match &x.syntax {
            SteelVal::SymbolV(s) => *s.0 == quote,
            _ => false,
        },
        _ => false,
    }
}

/// `e` is what the visitor makes of `v` at `span` while `quoted` says
/// whether it is inside a quotation and `qq_depth` how deep it is inside
/// quasi-quotations. Outside quasi-quotation, a `(quote ...)` list inside a
/// quotation becomes a literal list; any other `(quote ...)` list becomes a
/// form whose elements are read as quoted. Every other list becomes a form,
/// and a vector a literal list.
pub open spec fn visited(quoted: bool, qq_depth: usize, v: SteelVal, span: Span, e: ExprKind) -> bool
    decreases v,
{
    match v {
        SteelVal::SyntaxObject(s) => visited(quoted, qq_depth, s.syntax, s.span, e),
        SteelVal::VectorV(l) => e matches ExprKind::List(items) && items@.len() == l@.len() && forall|
            i: int,
        |
            #![trigger l@[i]]
            0 <= i < l@.len() ==> visited(quoted, qq_depth, l@[i], no_span(), items@[i]),
        SteelVal::ListV(l) => {
            let quote = qq_depth == 0 && quote_form(l@);
            let inner = quoted || quote;
            match e {
                ExprKind::List(items) => quote && quoted && items@.len() == l@.len() && forall|i: int|
                    #![trigger l@[i]]
                    0 <= i < l@.len() ==> visited(inner, qq_depth, l@[i], no_span(), items@[i]),
                ExprKind::Form(items) => !(quote && quoted) && items@.len() == l@.len() && forall|
                    i: int,
                |
                    #![trigger l@[i]]
                    0 <= i < l@.len() ==> visited(inner, qq_depth, l@[i], no_span(), items@[i]),
                _ => false,
            }
        },
        _ => atom_of(v, span) == Some(e),
    }
}

} // verus!

verus! {

/// Turns syntax objects back into expression trees for the macro expander,
/// reading `(quote ...)` forms as it goes.
pub struct TryFromSteelValVisitorForExprKind {
    pub quoted: bool,
    pub qq_depth: usize,
}

impl TryFromSteelValVisitorForExprKind {
    /// A visitor outside any quotation.
    pub fn new() -> (r: TryFromSteelValVisitorForExprKind)
        ensures
            !r.quoted,
            r.qq_depth == 0,
    {
        TryFromSteelValVisitorForExprKind { quoted: false, qq_depth: 0 }
    }

    fn visit_items(&mut self, outer: &SteelVal, l: &Vec<SteelVal>) -> (r: Result<Vec<ExprKind>, SteelErr>)
        requires
            l@ == elements(*outer),
        ensures
            *final(self) == *old(self),
            r is Ok <==> forall|i: int| #![trigger l@[i]] 0 <= i < l@.len() ==> expressible(l@[i]),
            r matches Ok(items) ==> items@.len() == l@.len() && forall|i: int|
                #![trigger l@[i]]
                0 <= i < l@.len() ==> visited(
                    old(self).quoted,
                    old(self).qq_depth,
                    l@[i],
                    no_span(),
                    items@[i],
                ),
            r matches Err(e) ==> e.kind == ErrorKind::ConversionError,
            r matches Err(e) ==> e.message@ == not_expressible_message(first_inexpressible_in(l@, 0)),
        decreases *outer, 0nat,
    {
        let mut items: Vec<ExprKind> = Vec::new();
        let mut i: usize = 0;
        while i < l.len()
            invariant
                l@ == elements(*outer),
                *self == *old(self),
                i <= l@.len(),
                items@.len() == i,
                forall|k: int| #![trigger l@[k]] 0 <= k < i ==> expressible(l@[k]),
                forall|k: int|
                    #![trigger l@[k]]
                    0 <= k < i ==> visited(self.quoted, self.qq_depth, l@[k], no_span(), items@[k]),
            decreases l@.len() - i,
        {
            proof {
                lemma_element_decreases(*outer, i as int);
            }
            match self.visit_at(&l[i], default_span()) {
                Ok(e) => items.push(e),
                Err(e) => {
                    assert(!expressible(l@[i as int]));
                    proof {
                        lemma_first_inexpressible_in(l@, i as int, 0);
                    }
                    return Err(e);
                },
            }
            i += 1;
        }
        Ok(items)
    }

    fn visit_at(&mut self, v: &SteelVal, span: Span) -> (r: Result<ExprKind, SteelErr>)
        ensures
            *final(self) == *old(self),
            r is Ok <==> expressible(*v),
            r matches Ok(e) ==> visited(old(self).quoted, old(self).qq_depth, *v, span, e),
            r matches Err(e) ==> e.kind == ErrorKind::ConversionError,
            r matches Err(e) ==> e.message@ == not_expressible_message(first_inexpressible(*v)),
        decreases *v, 1nat,
    {
        match v {
            SteelVal::SyntaxObject(s) => self.visit_at(&s.syntax, s.span),
            SteelVal::VectorV(l) => match self.visit_items(v, &**l) {
                Ok(items) => Ok(ExprKind::List(items)),
                Err(e) => Err(e),
            },
            SteelVal::ListV(l) => {
                let quote = self.qq_depth == 0 && is_quote_form(&**l);
                if quote && self.quoted {
                    match self.visit_items(v, &**l) {
                        Ok(items) => Ok(ExprKind::List(items)),
                        Err(e) => Err(e),
                    }
                } else if quote {
                    self.quoted = true;
                    let r = self.visit_items(v, &**l);
                    self.quoted = false;
                    match r {
                        Ok(items) => Ok(ExprKind::Form(items)),
                        Err(e) => Err(e),
                    }
                } else {
                    match self.visit_items(v, &**l) {
                        Ok(items) => Ok(ExprKind::Form(items)),
                        Err(e) => Err(e),
                    }
                }
            },
            _ => match atom(v, span) {
                Some(e) => Ok(e),
                None => Err(not_expressible(v)),
            },
        }
    }

    /// The expression-tree form of a value: a syntax object is read at its
    /// own location, any other value without one.
    pub fn visit(&mut self, value: &SteelVal) -> (r: Result<ExprKind, SteelErr>)
        ensures
            *final(self) == *old(self),
            r is Ok <==> expressible(*value),
            r matches Ok(e) ==> visited(old(self).quoted, old(self).qq_depth, *value, no_span(), e),
            r matches Err(e) ==> e.kind == ErrorKind::ConversionError,
            r matches Err(e) ==> e.message@ == not_expressible_message(first_inexpressible(*value)),
    {
        self.visit_at(value, default_span())
    }

    /// The expression-tree form of a syntax object, at its location.
    pub fn visit_syntax_object(&mut self, value: &Syntax) -> (r: Result<ExprKind, SteelErr>)
        ensures
            *final(self) == *old(self),
            r is Ok <==> expressible(value.syntax),
            r matches Ok(e) ==> visited(
                old(self).quoted,
                old(self).qq_depth,
                value.syntax,
                value.span,
                e,
            ),
            r matches Err(e) ==> e.kind == ErrorKind::ConversionError,
            r matches Err(e) ==> e.message@ == not_expressible_message(first_inexpressible(value.syntax)),
    {
        self.visit_at(&value.syntax, value.span)
    }
}

} // verus!
