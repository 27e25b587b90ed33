//! Why a pallet module cannot be compiled into a definition.

use vstd::prelude::*;
use vstd::string::StringExecFns;
use crate::pallet::attr::{GrammarError, GrammarFault, SectionKind};
use crate::pallet::item::CompositeKeyword;
use crate::pallet::section::{SectionError, SectionFault};
use crate::pallet::span::Location;

verus! {

/// How the trait `Config` and the section `event` disagree.
#[derive(Clone, Copy, PartialEq, Eq, Structural, Debug)]
pub enum EventUsage {
    /// `Config` declares the associated type `RuntimeEvent`, and no item is
    /// marked as `event`.
    MissingEvent,
    /// An item is marked as `event`, and `Config` declares no associated type
    /// `RuntimeEvent`.
    MissingEventType,
}

/// A section that uses the instance where `Config` has none, or the other
/// way round.
#[derive(Clone, Copy, PartialEq, Eq, Structural, Debug)]
pub struct InstanceFinding {
    pub section: SectionKind,
    /// Where the generics of the section stand.
    pub span: Location,
}

/// Why a pallet module cannot be compiled into a definition.
#[derive(Clone, PartialEq, Eq, Debug)]
pub enum DefError {
    /// An attribute under `pallet` is malformed.
    Grammar(GrammarError),
    /// An item cannot be read as the section that it is marked as.
    Section(SectionError),
    /// No item is marked as `config`, or none as `pallet`.
    MissingRequiredSection(SectionKind),
    /// A section that may occur once is marked a second time, or a composite
    /// enum is declared a second time: `span` is where the second one stands,
    /// `keyword` the composite enum.
    DuplicateSection { kind: SectionKind, keyword: Option<CompositeKeyword>, span: Location },
    /// Only one of `genesis_config` and `genesis_build` is used.
    MismatchedPairing { genesis_config: bool, genesis_build: bool },
    /// The trait `Config` and the section `event` disagree.
    EventUsageMismatch(EventUsage),
    /// Sections disagree with `Config` on the instance: all of them, in the
    /// order in which the sections are checked. `with_instance` is what
    /// `Config` says.
    InstanceUsageMismatch { with_instance: bool, findings: Vec<InstanceFinding> },
}

/// What a [`DefError`] stands for in contracts.
pub enum DefErrorView {
    Grammar(GrammarError),
    Section(SectionError),
    MissingRequiredSection(SectionKind),
    DuplicateSection { kind: SectionKind, keyword: Option<CompositeKeyword>, span: Location },
    MismatchedPairing { genesis_config: bool, genesis_build: bool },
    EventUsageMismatch(EventUsage),
    InstanceUsageMismatch { with_instance: bool, findings: Seq<InstanceFinding> },
}

impl View for DefError {
    type V = DefErrorView;

    open spec fn view(&self) -> DefErrorView {
        match self {
            DefError::Grammar(error) => DefErrorView::Grammar(*error),
            DefError::Section(error) => DefErrorView::Section(*error),
            DefError::MissingRequiredSection(kind) => DefErrorView::MissingRequiredSection(*kind),
            DefError::DuplicateSection { kind, keyword, span } => DefErrorView::DuplicateSection {
                kind: *kind,
                keyword: *keyword,
                span: *span,
            },
            DefError::MismatchedPairing {
                genesis_config,
                genesis_build,
            } => DefErrorView::MismatchedPairing {
                genesis_config: *genesis_config,
                genesis_build: *genesis_build,
            },
            DefError::EventUsageMismatch(usage) => DefErrorView::EventUsageMismatch(*usage),
            DefError::InstanceUsageMismatch {
                with_instance,
                findings,
            } => DefErrorView::InstanceUsageMismatch {
                with_instance: *with_instance,
                findings: findings@,
            },
        }
    }
}


/// What is said of a malformed attribute.
pub open spec fn grammar_message(fault: GrammarFault) -> Seq<char> {
    match fault {
        GrammarFault::ExpectedBracket => "expected square brackets"@,
        GrammarFault::ExpectedNamespace => "expected `pallet`"@,
        GrammarFault::Unterminated => "expected `]`"@,
        GrammarFault::ExpectedPathSeparator => "expected `::`"@,
        GrammarFault::UnrecognizedKind => "expected one of: `config`, `pallet`, `hooks`, `call`, `error`, `event`, `origin`, `inherent`, `storage`, `genesis_config`, `genesis_build`, `validate_unsigned`, `type_value`, `extra_constants`, `composite_enum`"@,
        GrammarFault::UnexpectedToken => "unexpected token"@,
        GrammarFault::ExpectedWithDefault => "expected `with_default`"@,
        GrammarFault::ExpectedParenthesis => "expected parentheses"@,
        GrammarFault::ExpectedWeight => "expected `weight`"@,
        GrammarFault::ExpectedWeightValue => "expected parentheses or `=`"@,
        GrammarFault::InvalidType => "expected a type"@,
    }
}

/// What is said of an item that is not read as its section.
pub open spec fn section_message(fault: SectionFault) -> Seq<char> {
    match fault {
        SectionFault::WrongItem => "Invalid item, it is not written as the section of its attribute"@,
        SectionFault::Malformed => "Invalid item, it breaks the grammar of its section"@,
        SectionFault::MissingWeight => "Invalid pallet::call, requires weight attribute i.e. `#[pallet::weight($expr)]` or an inherited weight `#[pallet::call(weight($type))]`"@,
    }
}

/// The name of a composite enum.
pub open spec fn composite_name(keyword: CompositeKeyword) -> Seq<char> {
    match keyword {
        CompositeKeyword::FreezeReason => "FreezeReason"@,
        CompositeKeyword::HoldReason => "HoldReason"@,
        CompositeKeyword::LockId => "LockId"@,
        CompositeKeyword::SlashReason => "SlashReason"@,
    }
}

/// How the use of an attribute is called.
pub open spec fn usage_name(used: bool) -> Seq<char> {
    if used {
        "used"@
    } else {
        "unused"@
    }
}

impl DefErrorView {
    /// What is said of the failure. Sections that disagree with `Config` on
    /// the instance all get the same words, once for each of them.
    pub open spec fn message(self) -> Seq<char> {
        match self {
            DefErrorView::Grammar(error) => grammar_message(error.fault),
            DefErrorView::Section(error) => section_message(error.fault),
            DefErrorView::MissingRequiredSection(kind) => if kind == SectionKind::Config {
                "Missing `#[pallet::config]`"@
            } else {
                "Missing `#[pallet::pallet]`"@
            },
            DefErrorView::DuplicateSection { keyword, .. } => match keyword {
                Some(keyword) => "Invalid duplicated `"@ + composite_name(keyword) + "` definition"@,
                None => "Invalid duplicated attribute"@,
            },
            DefErrorView::MismatchedPairing {
                genesis_config,
                genesis_build,
            } => "`#[pallet::genesis_config]` and `#[pallet::genesis_build]` attributes must be either both used or both not used, instead genesis_config is "@
                + usage_name(genesis_config) + " and genesis_build is "@ + usage_name(genesis_build),
            DefErrorView::EventUsageMismatch(usage) => match usage {
                EventUsage::MissingEvent => "Invalid usage of RuntimeEvent, `Config` contains associated type `RuntimeEvent`, but enum `Event` is not declared (i.e. no use of `#[pallet::event]`). Note that type `RuntimeEvent` in trait is reserved to work alongside pallet event."@,
                EventUsage::MissingEventType => "Invalid usage of RuntimeEvent, `Config` contains no associated type `RuntimeEvent`, but enum `Event` is declared (in use of `#[pallet::event]`). An RuntimeEvent associated type must be declare on trait `Config`."@,
            },
            DefErrorView::InstanceUsageMismatch { with_instance, .. } => if with_instance {
                "Invalid generic declaration, trait is defined with instance but generic use none"@
            } else {
                "Invalid generic declaration, trait is defined without instance but generic use some"@
            },
        }
    }

    /// Where the failure stands, as far as it stands at places of the
    /// module: at one place, at one for each section that disagrees with
    /// `Config`, or at none.
    pub open spec fn spans(self) -> Seq<Location> {
        match self {
            DefErrorView::Grammar(error) => seq![error.span],
            DefErrorView::Section(error) => seq![error.span],
            DefErrorView::DuplicateSection { span, .. } => seq![span],
            DefErrorView::InstanceUsageMismatch { findings, .. } => Seq::new(
                findings.len(),
                |i: int| findings[i].span,
            ),
            DefErrorView::MissingRequiredSection(_)
            | DefErrorView::MismatchedPairing { .. }
            | DefErrorView::EventUsageMismatch(_) => Seq::empty(),
        }
    }
}

impl GrammarError {
    /// What is said of the malformed attribute.
    pub fn message(&self) -> (text: &'static str)
        ensures
            text@ == grammar_message(self.fault),
    {
        match self.fault {
            GrammarFault::ExpectedBracket => "expected square brackets",
            GrammarFault::ExpectedNamespace => "expected `pallet`",
            GrammarFault::Unterminated => "expected `]`",
            GrammarFault::ExpectedPathSeparator => "expected `::`",
            GrammarFault::UnrecognizedKind => "expected one of: `config`, `pallet`, `hooks`, `call`, `error`, `event`, `origin`, `inherent`, `storage`, `genesis_config`, `genesis_build`, `validate_unsigned`, `type_value`, `extra_constants`, `composite_enum`",
            GrammarFault::UnexpectedToken => "unexpected token",
            GrammarFault::ExpectedWithDefault => "expected `with_default`",
            GrammarFault::ExpectedParenthesis => "expected parentheses",
            GrammarFault::ExpectedWeight => "expected `weight`",
            GrammarFault::ExpectedWeightValue => "expected parentheses or `=`",
            GrammarFault::InvalidType => "expected a type",
        }
    }
}

impl SectionError {
    /// What is said of the item.
    pub fn message(&self) -> (text: &'static str)
        ensures
            text@ == section_message(self.fault),
    {
        match self.fault {
            SectionFault::WrongItem => "Invalid item, it is not written as the section of its attribute",
            SectionFault::Malformed => "Invalid item, it breaks the grammar of its section",
            SectionFault::MissingWeight => "Invalid pallet::call, requires weight attribute i.e. `#[pallet::weight($expr)]` or an inherited weight `#[pallet::call(weight($type))]`",
        }
    }
}

impl CompositeKeyword {
    /// The name of the composite enum.
    pub fn name(&self) -> (text: &'static str)
        ensures
            text@ == composite_name(*self),
    {
        match self {
            CompositeKeyword::FreezeReason => "FreezeReason",
            CompositeKeyword::HoldReason => "HoldReason",
            CompositeKeyword::LockId => "LockId",
            CompositeKeyword::SlashReason => "SlashReason",
        }
    }
}

fn name_of_usage(used: bool) -> (text: &'static str)
    ensures
        text@ == usage_name(used),
{
    if used {
        "used"
    } else {
        "unused"
    }
}

impl DefError {
    /// What is said of the failure.
    pub fn message(&self) -> (text: String)
        ensures
            text@ == self@.message(),
    {
        match self {
            DefError::Grammar(error) => String::from_str(error.message()),
            DefError::Section(error) => String::from_str(error.message()),
            DefError::MissingRequiredSection(kind) => {
                if *kind == SectionKind::Config {
                    String::from_str("Missing `#[pallet::config]`")
                } else {
                    String::from_str("Missing `#[pallet::pallet]`")
                }
            },
            DefError::DuplicateSection { kind: _, keyword, span: _ } => {
                match keyword {
                    Some(keyword) => {
                        let mut text = String::from_str("Invalid duplicated `");
                        text.append(keyword.name());
                        text.append("` definition");
                        text
                    },
                    None => String::from_str("Invalid duplicated attribute"),
                }
            },
            DefError::MismatchedPairing { genesis_config, genesis_build } => {
                let mut text = String::from_str(
                    "`#[pallet::genesis_config]` and `#[pallet::genesis_build]` attributes must be either both used or both not used, instead genesis_config is ",
                );
                text.append(name_of_usage(*genesis_config));
                text.append(" and genesis_build is ");
                text.append(name_of_usage(*genesis_build));
                text
            },
            DefError::EventUsageMismatch(usage) => {
                match usage {
                    EventUsage::MissingEvent => String::from_str(
                        "Invalid usage of RuntimeEvent, `Config` contains associated type `RuntimeEvent`, but enum `Event` is not declared (i.e. no use of `#[pallet::event]`). Note that type `RuntimeEvent` in trait is reserved to work alongside pallet event.",
                    ),
                    EventUsage::MissingEventType => String::from_str(
                        "Invalid usage of RuntimeEvent, `Config` contains no associated type `RuntimeEvent`, but enum `Event` is declared (in use of `#[pallet::event]`). An RuntimeEvent associated type must be declare on trait `Config`.",
                    ),
                }
            },
            DefError::InstanceUsageMismatch { with_instance, findings: _ } => {
                if *with_instance {
                    String::from_str(
                        "Invalid generic declaration, trait is defined with instance but generic use none",
                    )
                } else {
                    String::from_str(
                        "Invalid generic declaration, trait is defined without instance but generic use some",
                    )
                }
            },
        }
    }

    /// Where the failure stands: at one place, at one for each section that
    /// disagrees with `Config`, or at no place of the module.
    pub fn spans(&self) -> (spans: Vec<Location>)
        ensures
            spans@ == self@.spans(),
    {
        let mut spans: Vec<Location> = Vec::new();
        match self {
            DefError::Grammar(error) => spans.push(error.span),
            DefError::Section(error) => spans.push(error.span),
            DefError::DuplicateSection { kind: _, keyword: _, span } => spans.push(*span),
            DefError::InstanceUsageMismatch { with_instance: _, findings } => {
                let mut at: usize = 0;
                while at < findings.len()
                    invariant
                        at <= findings.len(),
                        spans@ == Seq::new(at as nat, |i: int| findings@[i].span),
                    decreases findings.len() - at,
                {
                    spans.push(findings[at].span);
                    at = at + 1;
                }
            },
            DefError::MissingRequiredSection(_) => {},
            DefError::MismatchedPairing { .. } => {},
            DefError::EventUsageMismatch(_) => {},
        }
        spans
    }
}

} // verus!
