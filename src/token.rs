//! The lexical tokens that the rule table emits, with their codes in the
//! parser's token numbering.
use vstd::prelude::*;

verus! {

/// A keyword, punctuation mark or literal token that a node can imply. Names
/// follow the parser's token names; a `P` suffix marks a name that clashes with
/// a word of the host language (`GroupP`, `SetP`). `Ascii42` is `*`, `Ascii61` is
/// `=`, `Iconst` an integer literal, `Typecast` the `::` operator.
#[derive(Clone, Copy, PartialEq, Eq, Structural, Debug)]
pub enum Token {
    Select,
    Distinct,
    Values,
    From,
    Where,
    GroupP,
    By,
    And,
    Or,
    Not,
    Join,
    On,
    InnerP,
    Left,
    Full,
    Right,
    As,
    Iconst,
    Ascii61,
    Collate,
    Any,
    InP,
    Window,
    Partition,
    TrueP,
    FalseP,
    Ascii42,
    Filter,
    Over,
    CurrentRole,
    CurrentUser,
    Order,
    Asc,
    Desc,
    NullP,
    Alter,
    Table,
    Column,
    SetP,
    Default,
    AddP,
    TypeP,
    To,
    Create,
    Policy,
    Using,
    With,
    Check,
    Copy,
    Rename,
    Primary,
    Key,
    References,
    Insert,
    Into,
    DeleteP,
    View,
    Replace,
    Tablespace,
    IfP,
    Exists,
    Of,
    For,
    Case,
    EndP,
    Else,
    Is,
    Function,
    Returns,
    OutP,
    Inout,
    Variadic,
    EqualsGreater,
    When,
    Then,
    Typecast,
    All,
    Nullif,
    Like,
    Ilike,
    Similar,
    Between,
    Symmetric,
    CurrentDate,
    CurrentTime,
    CurrentTimestamp,
    Localtime,
    Localtimestamp,
    User,
    SessionUser,
    CurrentCatalog,
    CurrentSchema,
    Generated,
    Always,
    IdentityP,
    Stored,
    Unique,
    Exclude,
    Deferrable,
    Initially,
    Deferred,
    Immediate,
    CurrentP,
    Reset,
    Drop,
    Union,
    Intersect,
    Except,
    Expression,
    Statistics,
    Storage,
    Compression,
    Validate,
    Constraint,
    Comment,
    Options,
    Owner,
    Cluster,
    Without,
    Logged,
    Unlogged,
    Oids,
    Access,
    Method,
    EnableP,
    DisableP,
    Trigger,
    Replica,
    Rule,
    Inherit,
    No,
    Row,
    Level,
    Security,
    Force,
    Attach,
    Detach,
    Finalize,
}

impl Token {
    /// The parser's numeric code of the token.
    pub open spec fn spec_code(self) -> i32 {
        match self {
            Token::Select => 651,
            Token::Distinct => 392,
            Token::Values => 734,
            Token::From => 434,
            Token::Where => 744,
            Token::GroupP => 443,
            Token::By => 316,
            Token::And => 292,
            Token::Or => 570,
            Token::Not => 549,
            Token::Join => 484,
            Token::On => 565,
            Token::InnerP => 469,
            Token::Left => 507,
            Token::Full => 435,
            Token::Right => 634,
            Token::As => 295,
            Token::Iconst => 266,
            Token::Ascii61 => 61,
            Token::Collate => 335,
            Token::Any => 293,
            Token::InP => 458,
            Token::Window => 746,
            Token::Partition => 586,
            Token::TrueP => 710,
            Token::FalseP => 420,
            Token::Ascii42 => 42,
            Token::Filter => 423,
            Token::Over => 576,
            Token::CurrentRole => 363,
            Token::CurrentUser => 367,
            Token::Order => 571,
            Token::Asc => 296,
            Token::Desc => 387,
            Token::NullP => 554,
            Token::Alter => 288,
            Token::Table => 690,
            Token::Column => 337,
            Token::SetP => 658,
            Token::Default => 377,
            Token::AddP => 282,
            Token::TypeP => 713,
            Token::To => 703,
            Token::Create => 356,
            Token::Policy => 593,
            Token::Using => 728,
            Token::With => 747,
            Token::Check => 329,
            Token::Copy => 354,
            Token::Rename => 623,
            Token::Primary => 600,
            Token::Key => 497,
            Token::References => 617,
            Token::Insert => 473,
            Token::Into => 479,
            Token::DeleteP => 382,
            Token::View => 740,
            Token::Replace => 625,
            Token::Tablespace => 693,
            Token::IfP => 452,
            Token::Exists => 414,
            Token::Of => 559,
            Token::For => 428,
            Token::Case => 322,
            Token::EndP => 404,
            Token::Else => 399,
            Token::Is => 481,
            Token::Function => 436,
            Token::Returns => 632,
            Token::OutP => 574,
            Token::Inout => 470,
            Token::Variadic => 736,
            Token::EqualsGreater => 271,
            Token::When => 743,
            Token::Then => 699,
            Token::Typecast => 268,
            Token::All => 286,
            Token::Nullif => 555,
            Token::Like => 509,
            Token::Ilike => 453,
            Token::Similar => 663,
            Token::Between => 309,
            Token::Symmetric => 686,
            Token::CurrentDate => 362,
            Token::CurrentTime => 365,
            Token::CurrentTimestamp => 366,
            Token::Localtime => 514,
            Token::Localtimestamp => 515,
            Token::User => 727,
            Token::SessionUser => 657,
            Token::CurrentCatalog => 361,
            Token::CurrentSchema => 364,
            Token::Generated => 438,
            Token::Always => 289,
            Token::IdentityP => 451,
            Token::Stored => 679,
            Token::Unique => 721,
            Token::Exclude => 410,
            Token::Deferrable => 379,
            Token::Initially => 467,
            Token::Deferred => 380,
            Token::Immediate => 454,
            Token::CurrentP => 360,
            Token::Reset => 627,
            Token::Drop => 397,
            Token::Union => 720,
            Token::Intersect => 477,
            Token::Except => 409,
            Token::Expression => 416,
            Token::Statistics => 675,
            Token::Storage => 678,
            Token::Compression => 343,
            Token::Validate => 731,
            Token::Constraint => 349,
            Token::Comment => 339,
            Token::Options => 569,
            Token::Owner => 581,
            Token::Cluster => 333,
            Token::Without => 749,
            Token::Logged => 519,
            Token::Unlogged => 724,
            Token::Oids => 562,
            Token::Access => 280,
            Token::Method => 527,
            Token::EnableP => 401,
            Token::DisableP => 390,
            Token::Trigger => 708,
            Token::Replica => 626,
            Token::Rule => 642,
            Token::Inherit => 465,
            Token::No => 545,
            Token::Row => 640,
            Token::Level => 508,
            Token::Security => 650,
            Token::Force => 429,
            Token::Attach => 303,
            Token::Detach => 388,
            Token::Finalize => 424,
        }
    }

    /// The parser's numeric code of the token.
    pub fn code(&self) -> (r: i32)
        ensures
            r == self.spec_code(),
    {
        match self {
            Token::Select => 651,
            Token::Distinct => 392,
            Token::Values => 734,
            Token::From => 434,
            Token::Where => 744,
            Token::GroupP => 443,
            Token::By => 316,
            Token::And => 292,
            Token::Or => 570,
            Token::Not => 549,
            Token::Join => 484,
            Token::On => 565,
            Token::InnerP => 469,
            Token::Left => 507,
            Token::Full => 435,
            Token::Right => 634,
            Token::As => 295,
            Token::Iconst => 266,
            Token::Ascii61 => 61,
            Token::Collate => 335,
            Token::Any => 293,
            Token::InP => 458,
            Token::Window => 746,
            Token::Partition => 586,
            Token::TrueP => 710,
            Token::FalseP => 420,
            Token::Ascii42 => 42,
            Token::Filter => 423,
            Token::Over => 576,
            Token::CurrentRole => 363,
            Token::CurrentUser => 367,
            Token::Order => 571,
            Token::Asc => 296,
            Token::Desc => 387,
            Token::NullP => 554,
            Token::Alter => 288,
            Token::Table => 690,
            Token::Column => 337,
            Token::SetP => 658,
            Token::Default => 377,
            Token::AddP => 282,
            Token::TypeP => 713,
            Token::To => 703,
            Token::Create => 356,
            Token::Policy => 593,
            Token::Using => 728,
            Token::With => 747,
            Token::Check => 329,
            Token::Copy => 354,
            Token::Rename => 623,
            Token::Primary => 600,
            Token::Key => 497,
            Token::References => 617,
            Token::Insert => 473,
            Token::Into => 479,
            Token::DeleteP => 382,
            Token::View => 740,
            Token::Replace => 625,
            Token::Tablespace => 693,
            Token::IfP => 452,
            Token::Exists => 414,
            Token::Of => 559,
            Token::For => 428,
            Token::Case => 322,
            Token::EndP => 404,
            Token::Else => 399,
            Token::Is => 481,
            Token::Function => 436,
            Token::Returns => 632,
            Token::OutP => 574,
            Token::Inout => 470,
            Token::Variadic => 736,
            Token::EqualsGreater => 271,
            Token::When => 743,
            Token::Then => 699,
            Token::Typecast => 268,
            Token::All => 286,
            Token::Nullif => 555,
            Token::Like => 509,
            Token::Ilike => 453,
            Token::Similar => 663,
            Token::Between => 309,
            Token::Symmetric => 686,
            Token::CurrentDate => 362,
            Token::CurrentTime => 365,
            Token::CurrentTimestamp => 366,
            Token::Localtime => 514,
            Token::Localtimestamp => 515,
            Token::User => 727,
            Token::SessionUser => 657,
            Token::CurrentCatalog => 361,
            Token::CurrentSchema => 364,
            Token::Generated => 438,
            Token::Always => 289,
            Token::IdentityP => 451,
            Token::Stored => 679,
            Token::Unique => 721,
            Token::Exclude => 410,
            Token::Deferrable => 379,
            Token::Initially => 467,
            Token::Deferred => 380,
            Token::Immediate => 454,
            Token::CurrentP => 360,
            Token::Reset => 627,
            Token::Drop => 397,
            Token::Union => 720,
            Token::Intersect => 477,
            Token::Except => 409,
            Token::Expression => 416,
            Token::Statistics => 675,
            Token::Storage => 678,
            Token::Compression => 343,
            Token::Validate => 731,
            Token::Constraint => 349,
            Token::Comment => 339,
            Token::Options => 569,
            Token::Owner => 581,
            Token::Cluster => 333,
            Token::Without => 749,
            Token::Logged => 519,
            Token::Unlogged => 724,
            Token::Oids => 562,
            Token::Access => 280,
            Token::Method => 527,
            Token::EnableP => 401,
            Token::DisableP => 390,
            Token::Trigger => 708,
            Token::Replica => 626,
            Token::Rule => 642,
            Token::Inherit => 465,
            Token::No => 545,
            Token::Row => 640,
            Token::Level => 508,
            Token::Security => 650,
            Token::Force => 429,
            Token::Attach => 303,
            Token::Detach => 388,
            Token::Finalize => 424,
        }
    }
}

} // verus!
