//! The definition of a pallet, and the checks that need all of it.

use vstd::prelude::*;
use crate::pallet::attr::SectionKind;
use crate::pallet::error::{DefError, DefErrorView, EventUsage, InstanceFinding};
use crate::pallet::generics::{derive_generics, generics_text, GenericsContext};
use crate::pallet::item::{InstanceUsage, ItemView, Module};
use crate::pallet::section::{
    distinct_composites, CallDef, CallDefView, CompositeDef, ConfigDef, SectionDef,
};
use crate::pallet::span::Location;

verus! {

/// Parsed definition of a pallet.
#[derive(Clone, PartialEq, Eq, Debug)]
pub struct Def {
    /// The module items, each without the attribute that marked it.
    /// (their order must not be modified because they are registered in individual definitions).
    pub item: Module,
    pub config: ConfigDef,
    pub pallet_struct: SectionDef,
    pub hooks: Option<SectionDef>,
    pub call: Option<CallDef>,
    pub storages: Vec<SectionDef>,
    pub error: Option<SectionDef>,
    pub event: Option<SectionDef>,
    pub origin: Option<SectionDef>,
    pub inherent: Option<SectionDef>,
    pub genesis_config: Option<SectionDef>,
    pub genesis_build: Option<SectionDef>,
    pub validate_unsigned: Option<SectionDef>,
    pub extra_constants: Option<SectionDef>,
    pub composites: Vec<CompositeDef>,
    pub type_values: Vec<SectionDef>,
    pub dev_mode: bool,
}

/// What a [`Def`] stands for in contracts.
pub struct DefView {
    pub item: Seq<ItemView>,
    pub config: ConfigDef,
    pub pallet_struct: SectionDef,
    pub hooks: Option<SectionDef>,
    pub call: Option<CallDefView>,
    pub storages: Seq<SectionDef>,
    pub error: Option<SectionDef>,
    pub event: Option<SectionDef>,
    pub origin: Option<SectionDef>,
    pub inherent: Option<SectionDef>,
    pub genesis_config: Option<SectionDef>,
    pub genesis_build: Option<SectionDef>,
    pub validate_unsigned: Option<SectionDef>,
    pub extra_constants: Option<SectionDef>,
    pub composites: Seq<CompositeDef>,
    pub type_values: Seq<SectionDef>,
    pub dev_mode: bool,
}

impl View for Def {
    type V = DefView;

    open spec fn view(&self) -> DefView {
        DefView {
            item: self.item@,
            config: self.config,
            pallet_struct: self.pallet_struct,
            hooks: self.hooks,
            call: match self.call {
                Some(call) => Some(call@),
                None => None,
            },
            storages: self.storages@,
            error: self.error,
            event: self.event,
            origin: self.origin,
            inherent: self.inherent,
            genesis_config: self.genesis_config,
            genesis_build: self.genesis_build,
            validate_unsigned: self.validate_unsigned,
            extra_constants: self.extra_constants,
            composites: self.composites@,
            type_values: self.type_values@,
            dev_mode: self.dev_mode,
        }
    }
}

/// How a section that may be absent uses the generics of the pallet.
pub open spec fn usage_of(section: Option<SectionDef>) -> Option<InstanceUsage> {
    match section {
        Some(def) => def.instance,
        None => None,
    }
}

/// Whether generics stand at `span` and name the instance where `Config` has
/// none, or the other way round.
pub open spec fn differs(
    usage: Option<InstanceUsage>,
    with_instance: bool,
    span: Location,
) -> bool {
    match usage {
        Some(usage) => usage.has_instance != with_instance && usage.span == span,
        None => false,
    }
}

/// What is found of one use of the generics: nothing where the section has
/// no generics or agrees with `Config`, which is generic over the instance
/// or not as `with_instance` says.
pub open spec fn finding_of(
    section: SectionKind,
    usage: Option<InstanceUsage>,
    with_instance: bool,
) -> Seq<InstanceFinding> {
    match usage {
        Some(usage) => if usage.has_instance != with_instance {
            seq![InstanceFinding { section, span: usage.span }]
        } else {
            Seq::empty()
        },
        None => Seq::empty(),
    }
}

/// What is found of the storages, in their order.
pub open spec fn storage_findings(storages: Seq<SectionDef>, with_instance: bool) -> Seq<
    InstanceFinding,
>
    decreases storages.len(),
{
    if storages.len() == 0 {
        Seq::empty()
    } else {
        storage_findings(storages.drop_last(), with_instance) + finding_of(
            SectionKind::Storage,
            storages.last().instance,
            with_instance,
        )
    }
}

impl DefView {
    /// How the section `call` uses the generics of the pallet.
    pub open spec fn call_usage(self) -> Option<InstanceUsage> {
        match self.call {
            Some(call) => call.instance,
            None => None,
        }
    }

    /// How the trait `Config` and the section `event` disagree, if they do.
    pub open spec fn event_usage(self) -> Option<EventUsage> {
        if self.config.has_event_type && self.event is None {
            Some(EventUsage::MissingEvent)
        } else if !self.config.has_event_type && self.event is Some {
            Some(EventUsage::MissingEventType)
        } else {
            None
        }
    }

    /// Every section that disagrees with `Config` on the instance. The
    /// sections are looked at in this order: the pallet struct, the storages,
    /// the calls, the hooks, the events, the errors, the inherents, the
    /// origin, the genesis config, the genesis build, the extra constants.
    pub open spec fn instance_findings(self) -> Seq<InstanceFinding> {
        let with = self.config.has_instance;
        finding_of(SectionKind::Pallet, self.pallet_struct.instance, with) + storage_findings(
            self.storages,
            with,
        ) + finding_of(SectionKind::Call, self.call_usage(), with) + finding_of(
            SectionKind::Hooks,
            usage_of(self.hooks),
            with,
        ) + finding_of(SectionKind::Event, usage_of(self.event), with) + finding_of(
            SectionKind::Error,
            usage_of(self.error),
            with,
        ) + finding_of(SectionKind::Inherent, usage_of(self.inherent), with) + finding_of(
            SectionKind::Origin,
            usage_of(self.origin),
            with,
        ) + finding_of(SectionKind::GenesisConfig, usage_of(self.genesis_config), with)
            + finding_of(SectionKind::GenesisBuild, usage_of(self.genesis_build), with)
            + finding_of(SectionKind::ExtraConstants, usage_of(self.extra_constants), with)
    }

    /// Whether the section `section` has generics that stand at `span` and
    /// disagree with `Config` on the instance. The sections `config`,
    /// `validate_unsigned`, `type_value` and `composite_enum` are not held to
    /// `Config`.
    pub open spec fn disagrees(self, section: SectionKind, span: Location) -> bool {
        let with = self.config.has_instance;
        match section {
            SectionKind::Pallet => differs(self.pallet_struct.instance, with, span),
            SectionKind::Storage => exists|i: int|
                0 <= i < self.storages.len() && differs(
                    (#[trigger] self.storages[i]).instance,
                    with,
                    span,
                ),
            SectionKind::Call => differs(self.call_usage(), with, span),
            SectionKind::Hooks => differs(usage_of(self.hooks), with, span),
            SectionKind::Event => differs(usage_of(self.event), with, span),
            SectionKind::Error => differs(usage_of(self.error), with, span),
            SectionKind::Inherent => differs(usage_of(self.inherent), with, span),
            SectionKind::Origin => differs(usage_of(self.origin), with, span),
            SectionKind::GenesisConfig => differs(usage_of(self.genesis_config), with, span),
            SectionKind::GenesisBuild => differs(usage_of(self.genesis_build), with, span),
            SectionKind::ExtraConstants => differs(usage_of(self.extra_constants), with, span),
            SectionKind::Config
            | SectionKind::ValidateUnsigned
            | SectionKind::TypeValue
            | SectionKind::Composite => false,
        }
    }

    /// Whether the definition is one that a module can compile into:
    /// `genesis_config` and `genesis_build` are both there or neither, no two
    /// composite enums have the same name, the section `event` is there
    /// exactly if `Config` declares the associated type `RuntimeEvent`, and
    /// no section disagrees with `Config` on the instance.
    pub open spec fn consistent(self) -> bool {
        &&& (self.genesis_config is Some) == (self.genesis_build is Some)
        &&& distinct_composites(self.composites)
        &&& self.config.has_event_type == (self.event is Some)
        &&& forall|section: SectionKind, span: Location| !self.disagrees(section, span)
    }

    /// What the checks of the whole definition say: the sections that
    /// disagree with `Config` on the instance come first, then the use of
    /// the event.
    pub open spec fn checked(self) -> Result<DefView, DefErrorView> {
        if self.instance_findings().len() > 0 {
            Err(
                DefErrorView::InstanceUsageMismatch {
                    with_instance: self.config.has_instance,
                    findings: self.instance_findings(),
                },
            )
        } else {
            match self.event_usage() {
                Some(usage) => Err(DefErrorView::EventUsageMismatch(usage)),
                None => Ok(self),
            }
        }
    }
}

/// The model of what a check of the definition gives.
pub open spec fn check_view(check: Result<(), DefError>) -> Result<(), DefErrorView> {
    match check {
        Ok(()) => Ok(()),
        Err(error) => Err(error@),
    }
}

/// Adds to the findings what is found of one use of the generics.
fn note_usage(
    findings: &mut Vec<InstanceFinding>,
    section: SectionKind,
    usage: Option<InstanceUsage>,
    with_instance: bool,
)
    ensures
        final(findings)@ == old(findings)@ + finding_of(section, usage, with_instance),
{
    match usage {
        Some(usage) => {
            if usage.has_instance != with_instance {
                findings.push(InstanceFinding { section, span: usage.span });
                assert(findings@ == old(findings)@ + seq![
                    InstanceFinding { section, span: usage.span },
                ]);
                return ;
            }
        },
        None => {},
    }
    assert(findings@ == old(findings)@ + Seq::<InstanceFinding>::empty());
}

/// How a section that may be absent uses the generics of the pallet.
fn usage(section: &Option<SectionDef>) -> (usage: Option<InstanceUsage>)
    ensures
        usage == usage_of(*section),
{
    match section {
        Some(def) => def.instance,
        None => None,
    }
}

impl Def {
    /// Check that usage of trait `Event` is consistent with the definition, i.e. it is declared
    /// and trait defines type RuntimeEvent, or not declared and no trait associated type.
    pub fn check_event_usage(&self) -> (check: Result<(), DefError>)
        ensures
            check_view(check) == match self@.event_usage() {
                Some(usage) => Err::<(), DefErrorView>(DefErrorView::EventUsageMismatch(usage)),
                None => Ok::<(), DefErrorView>(()),
            },
    {
        match (self.config.has_event_type, self.event.is_some()) {
            (true, false) => Err(DefError::EventUsageMismatch(EventUsage::MissingEvent)),
            (false, true) => Err(DefError::EventUsageMismatch(EventUsage::MissingEventType)),
            _ => Ok(()),
        }
    }

    /// Check that usage of trait `Config` is consistent with the definition, i.e. it is used with
    /// instance iff it is defined with instance.
    pub fn check_instance_usage(&self) -> (check: Result<(), DefError>)
        ensures
            check_view(check) == if self@.instance_findings().len() > 0 {
                Err::<(), DefErrorView>(
                    DefErrorView::InstanceUsageMismatch {
                        with_instance: self.config.has_instance,
                        findings: self@.instance_findings(),
                    },
                )
            } else {
                Ok::<(), DefErrorView>(())
            },
    {
        let with = self.config.has_instance;
        let mut findings: Vec<InstanceFinding> = Vec::new();
        note_usage(&mut findings, SectionKind::Pallet, self.pallet_struct.instance, with);
        let ghost first = findings@;
        let mut at: usize = 0;
        while at < self.storages.len()
            invariant
                at <= self.storages.len(),
                findings@ == first + storage_findings(self.storages@.take(at as int), with),
            decreases self.storages.len() - at,
        {
            let ghost before = findings@;
            assert(self.storages@.take(at + 1).drop_last() == self.storages@.take(at as int));
            note_usage(&mut findings, SectionKind::Storage, self.storages[at].instance, with);
            at = at + 1;
        }
        assert(self.storages@.take(at as int) == self.storages@);
        let call = match &self.call {
            Some(call) => call.instance,
            None => None,
        };
        note_usage(&mut findings, SectionKind::Call, call, with);
        note_usage(&mut findings, SectionKind::Hooks, usage(&self.hooks), with);
        note_usage(&mut findings, SectionKind::Event, usage(&self.event), with);
        note_usage(&mut findings, SectionKind::Error, usage(&self.error), with);
        note_usage(&mut findings, SectionKind::Inherent, usage(&self.inherent), with);
        note_usage(&mut findings, SectionKind::Origin, usage(&self.origin), with);
        note_usage(&mut findings, SectionKind::GenesisConfig, usage(&self.genesis_config), with);
        note_usage(&mut findings, SectionKind::GenesisBuild, usage(&self.genesis_build), with);
        note_usage(&mut findings, SectionKind::ExtraConstants, usage(&self.extra_constants), with);
        if findings.len() > 0 {
            Err(DefError::InstanceUsageMismatch { with_instance: with, findings })
        } else {
            Ok(())
        }
    }

    /// Depending on if pallet is instantiable:
    /// * either `T: Config`
    /// * or `T: Config<I>, I: 'static`
    pub fn type_impl_generics(&self) -> (text: &'static str)
        ensures
            text@ == generics_text(self.config.has_instance, GenericsContext::Impl),
    {
        derive_generics(self.config.has_instance, GenericsContext::Impl)
    }

    /// Depending on if pallet is instantiable:
    /// * either `T: Config`
    /// * or `T: Config<I>, I: 'static = ()`
    pub fn type_decl_bounded_generics(&self) -> (text: &'static str)
        ensures
            text@ == generics_text(self.config.has_instance, GenericsContext::DeclBounded),
    {
        derive_generics(self.config.has_instance, GenericsContext::DeclBounded)
    }

    /// Depending on if pallet is instantiable:
    /// * either `T`
    /// * or `T, I = ()`
    pub fn type_decl_generics(&self) -> (text: &'static str)
        ensures
            text@ == generics_text(self.config.has_instance, GenericsContext::Decl),
    {
        derive_generics(self.config.has_instance, GenericsContext::Decl)
    }

    /// Depending on if pallet is instantiable:
    /// * either ``
    /// * or `<I>`
    /// to be used when using pallet trait `Config`
    pub fn trait_use_generics(&self) -> (text: &'static str)
        ensures
            text@ == generics_text(self.config.has_instance, GenericsContext::TraitUse),
    {
        derive_generics(self.config.has_instance, GenericsContext::TraitUse)
    }

    /// Depending on if pallet is instantiable:
    /// * either `T`
    /// * or `T, I`
    pub fn type_use_generics(&self) -> (text: &'static str)
        ensures
            text@ == generics_text(self.config.has_instance, GenericsContext::TypeUse),
    {
        derive_generics(self.config.has_instance, GenericsContext::TypeUse)
    }
}

} // verus!
