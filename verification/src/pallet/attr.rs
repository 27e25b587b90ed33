//! The attributes that mark the items of a pallet module, and what they
//! stand for.

use vstd::prelude::*;
use crate::pallet::span::Location;

verus! {

/// An attribute of an item, as it is written in the source.
#[derive(Clone, PartialEq, Eq, Debug)]
pub struct Attribute {
    pub text: String,
    pub span: Location,
}

/// What an [`Attribute`] stands for in contracts.
pub struct AttributeView {
    pub text: Seq<char>,
    pub span: Location,
}

impl View for Attribute {
    type V = AttributeView;

    open spec fn view(&self) -> AttributeView {
        AttributeView { text: self.text@, span: self.span }
    }
}

/// The sections that an item of a pallet module can be marked as.
#[derive(Clone, Copy, PartialEq, Eq, Structural, Debug)]
pub enum SectionKind {
    Config,
    Pallet,
    Hooks,
    Call,
    Error,
    Event,
    Origin,
    Inherent,
    Storage,
    GenesisConfig,
    GenesisBuild,
    ValidateUnsigned,
    TypeValue,
    ExtraConstants,
    Composite,
}

/// What is wrong with an attribute under `pallet`.
#[derive(Clone, Copy, PartialEq, Eq, Structural, Debug)]
pub enum GrammarFault {
    /// `#` is followed by `!`, not by `[`.
    ExpectedBracket,
    /// The path of the attribute starts with `::`, not with `pallet`.
    ExpectedNamespace,
    /// The attribute does not end with `]`.
    Unterminated,
    /// `pallet` is not followed by `::`.
    ExpectedPathSeparator,
    /// The word behind `pallet::` names no section.
    UnrecognizedKind,
    /// Something follows where the attribute should end.
    UnexpectedToken,
    /// The parentheses behind `config` hold something else than `with_default`.
    ExpectedWithDefault,
    /// The arguments of `call` are not enclosed in parentheses.
    ExpectedParenthesis,
    /// The arguments of `call` do not start with `weight`.
    ExpectedWeight,
    /// `weight` is followed neither by `(` nor by `=`.
    ExpectedWeightValue,
    /// What is given as the weight is not written as a type.
    InvalidType,
}

/// A malformed attribute: where it stands, where in it the reading stops,
/// and what is wrong there.
#[derive(Clone, Copy, PartialEq, Eq, Structural, Debug)]
pub struct GrammarError {
    pub span: Location,
    /// The place in the text of the attribute at which the fault stands,
    /// counted in characters.
    pub offset: usize,
    pub fault: GrammarFault,
}

/// The optional weight annotation on a `#[pallet::call]` like `#[pallet::call(weight($type))]`.
#[derive(Clone, PartialEq, Eq, Debug)]
pub struct InheritedCallWeightAttr {
    /// The type as it is written, without the blanks around it.
    pub typename: String,
    pub span: Location,
}

/// What an [`InheritedCallWeightAttr`] stands for in contracts.
pub struct InheritedCallWeightAttrView {
    pub typename: Seq<char>,
    pub span: Location,
}

impl View for InheritedCallWeightAttr {
    type V = InheritedCallWeightAttrView;

    open spec fn view(&self) -> InheritedCallWeightAttrView {
        InheritedCallWeightAttrView { typename: self.typename@, span: self.span }
    }
}

/// Parse attributes for item in pallet module
/// syntax must be `pallet::` (e.g. `#[pallet::config]`)
#[derive(Clone, PartialEq, Eq, Debug)]
pub enum PalletAttr {
    /// `#[pallet::config]`, and whether it is written with `with_default`.
    Config(Location, bool),
    Pallet(Location),
    Hooks(Location),
    /// A `#[pallet::call]` with the weight that its calls inherit, if one is given.
    RuntimeCall(Option<InheritedCallWeightAttr>, Location),
    Error(Location),
    RuntimeEvent(Location),
    RuntimeOrigin(Location),
    Inherent(Location),
    Storage(Location),
    GenesisConfig(Location),
    GenesisBuild(Location),
    ValidateUnsigned(Location),
    TypeValue(Location),
    ExtraConstants(Location),
    Composite(Location),
}

/// What a [`PalletAttr`] stands for in contracts: the section it marks, where
/// it stands, and the arguments it is written with.
pub struct PalletAttrView {
    pub kind: SectionKind,
    pub span: Location,
    /// Whether `config` is written with `with_default`.
    pub with_default: bool,
    /// The weight that `call` is written with.
    pub weight: Option<InheritedCallWeightAttrView>,
}

impl View for PalletAttr {
    type V = PalletAttrView;

    open spec fn view(&self) -> PalletAttrView {
        match self {
            PalletAttr::Config(span, with_default) => PalletAttrView {
                kind: SectionKind::Config,
                span: *span,
                with_default: *with_default,
                weight: None,
            },
            PalletAttr::RuntimeCall(weight, span) => PalletAttrView {
                kind: SectionKind::Call,
                span: *span,
                with_default: false,
                weight: match weight {
                    Some(w) => Some(w@),
                    None => None,
                },
            },
            _ => plain_attr(self.spec_kind(), self.spec_span()),
        }
    }
}

/// The attribute of a section that takes no arguments.
pub open spec fn plain_attr(kind: SectionKind, span: Location) -> PalletAttrView {
    PalletAttrView { kind, span, with_default: false, weight: None }
}

impl PalletAttr {
    /// The section that the attribute marks.
    pub open spec fn spec_kind(&self) -> SectionKind {
        match self {
            PalletAttr::Config(_, _) => SectionKind::Config,
            PalletAttr::Pallet(_) => SectionKind::Pallet,
            PalletAttr::Hooks(_) => SectionKind::Hooks,
            PalletAttr::RuntimeCall(_, _) => SectionKind::Call,
            PalletAttr::Error(_) => SectionKind::Error,
            PalletAttr::RuntimeEvent(_) => SectionKind::Event,
            PalletAttr::RuntimeOrigin(_) => SectionKind::Origin,
            PalletAttr::Inherent(_) => SectionKind::Inherent,
            PalletAttr::Storage(_) => SectionKind::Storage,
            PalletAttr::GenesisConfig(_) => SectionKind::GenesisConfig,
            PalletAttr::GenesisBuild(_) => SectionKind::GenesisBuild,
            PalletAttr::ValidateUnsigned(_) => SectionKind::ValidateUnsigned,
            PalletAttr::TypeValue(_) => SectionKind::TypeValue,
            PalletAttr::ExtraConstants(_) => SectionKind::ExtraConstants,
            PalletAttr::Composite(_) => SectionKind::Composite,
        }
    }

    /// Where the attribute stands.
    pub open spec fn spec_span(&self) -> Location {
        match self {
            PalletAttr::Config(span, _) => *span,
            PalletAttr::Pallet(span) => *span,
            PalletAttr::Hooks(span) => *span,
            PalletAttr::RuntimeCall(_, span) => *span,
            PalletAttr::Error(span) => *span,
            PalletAttr::RuntimeEvent(span) => *span,
            PalletAttr::RuntimeOrigin(span) => *span,
            PalletAttr::Inherent(span) => *span,
            PalletAttr::Storage(span) => *span,
            PalletAttr::GenesisConfig(span) => *span,
            PalletAttr::GenesisBuild(span) => *span,
            PalletAttr::ValidateUnsigned(span) => *span,
            PalletAttr::TypeValue(span) => *span,
            PalletAttr::ExtraConstants(span) => *span,
            PalletAttr::Composite(span) => *span,
        }
    }

    /// Where the attribute stands.
    pub fn span(&self) -> (span: Location)
        ensures
            span == self@.span,
    {
        match self {
            Self::Config(span, _) => *span,
            Self::Pallet(span) => *span,
            Self::Hooks(span) => *span,
            Self::RuntimeCall(_, span) => *span,
            Self::Error(span) => *span,
            Self::RuntimeEvent(span) => *span,
            Self::RuntimeOrigin(span) => *span,
            Self::Inherent(span) => *span,
            Self::Storage(span) => *span,
            Self::GenesisConfig(span) => *span,
            Self::GenesisBuild(span) => *span,
            Self::ValidateUnsigned(span) => *span,
            Self::TypeValue(span) => *span,
            Self::ExtraConstants(span) => *span,
            Self::Composite(span) => *span,
        }
    }

    /// The section that the attribute marks.
    pub fn kind(&self) -> (kind: SectionKind)
        ensures
            kind == self@.kind,
    {
        match self {
            Self::Config(_, _) => SectionKind::Config,
            Self::Pallet(_) => SectionKind::Pallet,
            Self::Hooks(_) => SectionKind::Hooks,
            Self::RuntimeCall(_, _) => SectionKind::Call,
            Self::Error(_) => SectionKind::Error,
            Self::RuntimeEvent(_) => SectionKind::Event,
            Self::RuntimeOrigin(_) => SectionKind::Origin,
            Self::Inherent(_) => SectionKind::Inherent,
            Self::Storage(_) => SectionKind::Storage,
            Self::GenesisConfig(_) => SectionKind::GenesisConfig,
            Self::GenesisBuild(_) => SectionKind::GenesisBuild,
            Self::ValidateUnsigned(_) => SectionKind::ValidateUnsigned,
            Self::TypeValue(_) => SectionKind::TypeValue,
            Self::ExtraConstants(_) => SectionKind::ExtraConstants,
            Self::Composite(_) => SectionKind::Composite,
        }
    }
}

} // verus!
