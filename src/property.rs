//! The value that stands for one implied token: a literal spelling, a kind,
//! or both.
use vstd::prelude::*;
use crate::registry::{CoverageError, KindRegistry, SyntaxKind, KindEntryView};
use crate::token::Token;
use crate::node::{Boolean, Integer};
use vstd::std_specs::cmp::PartialEqSpec;

verus! {

/// One implied token. At least one of the two fields is present.
#[derive(Clone, Debug)]
pub struct TokenProperty {
    pub value: Option<String>,
    pub kind: Option<SyntaxKind>,
}

/// What a token property is, as a mathematical value.
pub ghost struct TokenPropertyView {
    pub value: Option<Seq<char>>,
    pub kind: Option<SyntaxKind>,
}

pub open spec fn opt_text(o: Option<String>) -> Option<Seq<char>> {
    match o {
        Some(s) => Some(s@),
        None => None,
    }
}

impl View for TokenProperty {
    type V = TokenPropertyView;

    open spec fn view(&self) -> TokenPropertyView {
        TokenPropertyView { value: opt_text(self.value), kind: self.kind }
    }
}

impl PartialEq for TokenProperty {
    fn eq(&self, o: &TokenProperty) -> (r: bool) {
        let same_value = match (&self.value, &o.value) {
            (Some(a), Some(b)) => *a == *b,
            (None, None) => true,
            _ => false,
        };
        let same_kind = match (self.kind, o.kind) {
            (Some(a), Some(b)) => a.code == b.code,
            (None, None) => true,
            _ => false,
        };
        same_value && same_kind
    }
}

impl vstd::std_specs::cmp::PartialEqSpecImpl for TokenProperty {
    open spec fn obeys_eq_spec() -> bool {
        true
    }

    open spec fn eq_spec(&self, o: &TokenProperty) -> bool {
        self@ == o@
    }
}

/// Failure to construct a token property.
#[derive(Clone, Copy, PartialEq, Eq, Structural, Debug)]
pub enum PropertyError {
    /// Neither a spelling nor a kind was given.
    Empty,
    /// The text to spell the token with is empty.
    EmptyText,
}

/// A name for what `str::to_lowercase` returns.
pub uninterp spec fn lower_of(s: Seq<char>) -> Seq<char>;

/// The decimal digits of `n`, most significant first, without leading zeros.
pub open spec fn digits(n: nat) -> Seq<char>
    decreases n,
{
    let d = seq!['0', '1', '2', '3', '4', '5', '6', '7', '8', '9'];
    if n < 10 {
        seq![d[n as int]]
    } else {
        digits(n / 10).push(d[(n % 10) as int])
    }
}

/// The canonical decimal text of an integer: a minus sign when negative.
pub open spec fn decimal(n: int) -> Seq<char> {
    if n < 0 {
        seq!['-'] + digits((-n) as nat)
    } else {
        digits(n as nat)
    }
}

/// The text of a boolean.
pub open spec fn bool_text(b: bool) -> Seq<char> {
    if b {
        seq!['t', 'r', 'u', 'e']
    } else {
        seq!['f', 'a', 'l', 's', 'e']
    }
}

/// A property with a spelling and no kind.
pub open spec fn spelled(s: Seq<char>) -> TokenPropertyView {
    TokenPropertyView { value: Some(s), kind: None }
}

/// A property with a kind and no spelling.
pub open spec fn of_kind(k: SyntaxKind) -> TokenPropertyView {
    TokenPropertyView { value: None, kind: Some(k) }
}

/// The first kind of the registry that carries a token code.
pub open spec fn token_kind(reg: Seq<KindEntryView>, code: i32) -> Option<SyntaxKind> {
    if exists|i: int| is_first_with_code(reg, code, i) {
        Some(SyntaxKind { code: (choose|i: int| is_first_with_code(reg, code, i)) as u32 })
    } else {
        None
    }
}

pub open spec fn is_first_with_code(reg: Seq<KindEntryView>, code: i32, i: int) -> bool {
    &&& 0 <= i < reg.len()
    &&& reg[i].token_code == Some(code)
    &&& forall|j: int| 0 <= j < i ==> reg[j].token_code != Some(code)
}

/// Relies on the `Display` impl of `i128`: an optional minus sign, then the
/// decimal digits without leading zeros.
#[verifier::external_body]
fn decimal_text(v: i128) -> (r: String)
    ensures
        r@ == decimal(v as int),
{
    v.to_string()
}

/// Relies on `str::to_lowercase`: the lower-case form of each character.
#[verifier::external_body]
fn lowercase(s: &String) -> (r: String)
    ensures
        r@ == lower_of(s@),
{
    s.to_lowercase()
}

impl TokenProperty {
    /// At least one of spelling and kind is present.
    pub open spec fn wf(&self) -> bool {
        self.value is Some || self.kind is Some
    }

    /// A property from its two parts; fails when both are absent.
    pub fn new(value: Option<String>, kind: Option<SyntaxKind>) -> (r: Result<TokenProperty, PropertyError>)
        ensures
            (r is Err) <==> (value is None && kind is None),
            r matches Ok(p) ==> p.value == value && p.kind == kind && p.wf(),
            r matches Err(e) ==> e == PropertyError::Empty,
    {
        if value.is_none() && kind.is_none() {
            return Err(PropertyError::Empty);
        }
        Ok(TokenProperty { value, kind })
    }

    /// The decimal text of a signed 32-bit integer.
    pub fn from_i32(v: i32) -> (r: TokenProperty)
        ensures
            r@ == spelled(decimal(v as int)),
            r.wf(),
    {
        TokenProperty { value: Some(decimal_text(v as i128)), kind: None }
    }

    /// The decimal text of an unsigned 32-bit integer.
    pub fn from_u32(v: u32) -> (r: TokenProperty)
        ensures
            r@ == spelled(decimal(v as int)),
            r.wf(),
    {
        TokenProperty { value: Some(decimal_text(v as i128)), kind: None }
    }

    /// The decimal text of a signed 64-bit integer.
    pub fn from_i64(v: i64) -> (r: TokenProperty)
        ensures
            r@ == spelled(decimal(v as int)),
            r.wf(),
    {
        TokenProperty { value: Some(decimal_text(v as i128)), kind: None }
    }

    /// The decimal text of an unsigned 64-bit integer.
    pub fn from_u64(v: u64) -> (r: TokenProperty)
        ensures
            r@ == spelled(decimal(v as int)),
            r.wf(),
    {
        TokenProperty { value: Some(decimal_text(v as i128)), kind: None }
    }

    /// The text `true` or `false`.
    pub fn from_bool(v: bool) -> (r: TokenProperty)
        ensures
            r@ == spelled(bool_text(v)),
            r.wf(),
    {
        let text = if v {
            "true".to_owned()
        } else {
            "false".to_owned()
        };
        proof {
            reveal_strlit("true");
            reveal_strlit("false");
            assert(text@ =~= bool_text(v));
        }
        TokenProperty { value: Some(text), kind: None }
    }

    /// The lower-cased text; fails on empty text.
    pub fn from_text(s: String) -> (r: Result<TokenProperty, PropertyError>)
        ensures
            (r is Err) <==> s@.len() == 0,
            r matches Ok(p) ==> p@ == spelled(lower_of(s@)) && p.wf(),
            r matches Err(e) ==> e == PropertyError::EmptyText,
    {
        if s.as_str().is_empty() {
            return Err(PropertyError::EmptyText);
        }
        Ok(TokenProperty { value: Some(lowercase(&s)), kind: None })
    }

    /// A registered kind with no spelling.
    pub fn from_kind(kind: SyntaxKind) -> (r: TokenProperty)
        ensures
            r@ == of_kind(kind),
            r.wf(),
    {
        TokenProperty { value: None, kind: Some(kind) }
    }

    /// The kind that the registry gives a token; fails where none does.
    pub fn from_token(reg: &KindRegistry, token: Token) -> (r: Result<TokenProperty, CoverageError>)
        requires
            reg.wf(),
        ensures
            match token_kind(reg@, token.spec_code()) {
                Some(k) => r == Ok::<TokenProperty, CoverageError>(TokenProperty { value: None, kind: Some(k) }),
                None => r == Err::<TokenProperty, CoverageError>(CoverageError::UnknownToken { code: token.spec_code() }),
            },
    {
        let code = token.code();
        match reg.kind_of_token(code) {
            Ok(k) => {
                proof { lemma_token_kind(reg@, code, k.code as int); }
                Ok(TokenProperty::from_kind(k))
            },
            Err(e) => Err(e),
        }
    }
}

impl TokenProperty {
    /// An integer literal leaf: its decimal text, of the numeric-literal kind.
    pub fn from_integer(reg: &KindRegistry, node: &Integer) -> (r: Result<TokenProperty, CoverageError>)
        requires
            reg.wf(),
        ensures
            match token_kind(reg@, Token::Iconst.spec_code()) {
                Some(k) => r matches Ok(p) && p@ == (TokenPropertyView {
                    value: Some(decimal(node.ival as int)),
                    kind: Some(k),
                }),
                None => r == Err::<TokenProperty, CoverageError>(
                    CoverageError::UnknownToken { code: Token::Iconst.spec_code() },
                ),
            },
    {
        match TokenProperty::from_token(reg, Token::Iconst) {
            Ok(k) => Ok(TokenProperty { value: Some(decimal_text(node.ival as i128)), kind: k.kind }),
            Err(e) => Err(e),
        }
    }

    /// A boolean literal leaf: `true` or `false`, of the matching keyword kind.
    pub fn from_boolean(reg: &KindRegistry, node: &Boolean) -> (r: Result<TokenProperty, CoverageError>)
        requires
            reg.wf(),
        ensures
            match token_kind(reg@, boolean_token(node.boolval).spec_code()) {
                Some(k) => r matches Ok(p) && p@ == (TokenPropertyView {
                    value: Some(bool_text(node.boolval)),
                    kind: Some(k),
                }),
                None => r == Err::<TokenProperty, CoverageError>(
                    CoverageError::UnknownToken { code: boolean_token(node.boolval).spec_code() },
                ),
            },
    {
        let token = if node.boolval {
            Token::TrueP
        } else {
            Token::FalseP
        };
        match TokenProperty::from_token(reg, token) {
            Ok(k) => {
                let text = TokenProperty::from_bool(node.boolval);
                Ok(TokenProperty { value: text.value, kind: k.kind })
            },
            Err(e) => Err(e),
        }
    }
}

/// The keyword of a boolean literal.
pub open spec fn boolean_token(b: bool) -> Token {
    if b {
        Token::TrueP
    } else {
        Token::FalseP
    }
}

/// `token_kind` names the first entry that carries the code.
pub proof fn lemma_token_kind(reg: Seq<KindEntryView>, code: i32, i: int)
    requires
        is_first_with_code(reg, code, i),
        reg.len() <= u32::MAX,
    ensures
        token_kind(reg, code) == Some(SyntaxKind { code: i as u32 }),
{
    let c = choose|c: int| is_first_with_code(reg, code, c);
    if c < i {
        assert(reg[c].token_code == Some(code));
    } else if i < c {
        assert(reg[i].token_code == Some(code));
    }
}

/// Equality of token properties is an equivalence over spelling and kind.
pub proof fn lemma_property_eq_equivalence(a: TokenProperty, b: TokenProperty, c: TokenProperty)
    ensures
        a.eq_spec(&a),
        a.eq_spec(&b) ==> b.eq_spec(&a),
        a.eq_spec(&b) && b.eq_spec(&c) ==> a.eq_spec(&c),
        a.eq_spec(&b) <==> (a@.value == b@.value && a.kind == b.kind),
{
}

} // verus!
