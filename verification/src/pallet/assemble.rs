//! The assembly of a definition: the items of the module are taken in their
//! order, each marked one is read as its section, and the sections are
//! collected, until an item fails or the module ends.

use vstd::prelude::*;
use crate::pallet::attr::{PalletAttr, PalletAttrView, SectionKind};
use crate::pallet::def::{Def, DefView};
use crate::pallet::error::{DefError, DefErrorView};
use crate::pallet::item::{
    take_first_item_pallet_attr, views, CompositeKeyword, Item, ItemView, Module,
};
use crate::pallet::section::{
    call_of, composite_of, config_of, section_of, CallDef, CallDefView, CompositeDef, ConfigDef,
    SectionDef, SectionError,
};
use crate::pallet::laws::{filled_up, law_answers, law_definition, lemma_scan_fails};

verus! {

/// The sections collected from the items of a module that were taken so far.
pub struct Slots {
    pub items: Seq<ItemView>,
    pub config: Option<ConfigDef>,
    pub pallet_struct: Option<SectionDef>,
    pub hooks: Option<SectionDef>,
    pub call: Option<CallDefView>,
    pub storages: Seq<SectionDef>,
    pub error: Option<SectionDef>,
    pub event: Option<SectionDef>,
    pub origin: Option<SectionDef>,
    pub inherent: Option<SectionDef>,
    pub genesis_config: Option<SectionDef>,
    pub genesis_build: Option<SectionDef>,
    pub validate_unsigned: Option<SectionDef>,
    pub extra_constants: Option<SectionDef>,
    pub composites: Seq<CompositeDef>,
    pub type_values: Seq<SectionDef>,
}

impl Slots {
    /// Nothing collected.
    pub open spec fn empty() -> Slots {
        Slots {
            items: Seq::empty(),
            config: None,
            pallet_struct: None,
            hooks: None,
            call: None,
            storages: Seq::empty(),
            error: None,
            event: None,
            origin: None,
            inherent: None,
            genesis_config: None,
            genesis_build: None,
            validate_unsigned: None,
            extra_constants: None,
            composites: Seq::empty(),
            type_values: Seq::empty(),
        }
    }

    /// Whether no further item may be marked as `kind`: it is a section that
    /// occurs once, and it is there.
    pub open spec fn filled(self, kind: SectionKind) -> bool {
        match kind {
            SectionKind::Config => self.config is Some,
            SectionKind::Pallet => self.pallet_struct is Some,
            SectionKind::Hooks => self.hooks is Some,
            SectionKind::Call => self.call is Some,
            SectionKind::Error => self.error is Some,
            SectionKind::Event => self.event is Some,
            SectionKind::Origin => self.origin is Some,
            SectionKind::Inherent => self.inherent is Some,
            SectionKind::GenesisConfig => self.genesis_config is Some,
            SectionKind::GenesisBuild => self.genesis_build is Some,
            SectionKind::ValidateUnsigned => self.validate_unsigned is Some,
            SectionKind::ExtraConstants => self.extra_constants is Some,
            SectionKind::Storage | SectionKind::TypeValue | SectionKind::Composite => false,
        }
    }

    /// The section `kind`, if it is there and is one of those that occur once
    /// and keep a [`SectionDef`].
    pub open spec fn section(self, kind: SectionKind) -> Option<SectionDef> {
        match kind {
            SectionKind::Pallet => self.pallet_struct,
            SectionKind::Hooks => self.hooks,
            SectionKind::Error => self.error,
            SectionKind::Event => self.event,
            SectionKind::Origin => self.origin,
            SectionKind::Inherent => self.inherent,
            SectionKind::GenesisConfig => self.genesis_config,
            SectionKind::GenesisBuild => self.genesis_build,
            SectionKind::ValidateUnsigned => self.validate_unsigned,
            SectionKind::ExtraConstants => self.extra_constants,
            _ => None,
        }
    }

    /// Whether the section that a marked item is read as is collected. The
    /// item is `item` without its mark, and stands at the place `index` of
    /// the module.
    pub open spec fn holds(
        self,
        tag: PalletAttrView,
        index: usize,
        item: ItemView,
        dev_mode: bool,
    ) -> bool {
        match tag.kind {
            SectionKind::Config => self.config is Some && config_of(
                tag.span,
                index,
                item,
                tag.with_default,
            ) == Ok::<ConfigDef, SectionError>(self.config->0),
            SectionKind::Call => self.call is Some && call_of(
                tag.span,
                index,
                item,
                dev_mode,
                tag.weight,
            ) == Ok::<CallDefView, SectionError>(self.call->0),
            SectionKind::Composite => composite_of(tag.span, index, item) is Ok
                && self.composites.contains(composite_of(tag.span, index, item)->Ok_0),
            SectionKind::Storage => section_of(tag.kind, tag.span, index, item) is Ok
                && self.storages.contains(section_of(tag.kind, tag.span, index, item)->Ok_0),
            SectionKind::TypeValue => section_of(tag.kind, tag.span, index, item) is Ok
                && self.type_values.contains(section_of(tag.kind, tag.span, index, item)->Ok_0),
            kind => self.section(kind) is Some && section_of(kind, tag.span, index, item) == Ok::<
                SectionDef,
                SectionError,
            >(self.section(kind)->0),
        }
    }

    /// Whether a composite enum of this name is collected.
    pub open spec fn has_composite(self, keyword: CompositeKeyword) -> bool {
        exists|i: int|
            0 <= i < self.composites.len() && (#[trigger] self.composites[i]).composite_keyword
                == keyword
    }

    /// With one more item.
    pub open spec fn with_item(self, item: ItemView) -> Slots {
        Slots { items: self.items.push(item), ..self }
    }

    /// With one more section of those that keep a [`SectionDef`]: a storage
    /// or a type value is added to the others, any other takes its slot.
    pub open spec fn with_section(self, kind: SectionKind, def: SectionDef) -> Slots {
        match kind {
            SectionKind::Pallet => Slots { pallet_struct: Some(def), ..self },
            SectionKind::Hooks => Slots { hooks: Some(def), ..self },
            SectionKind::Error => Slots { error: Some(def), ..self },
            SectionKind::Event => Slots { event: Some(def), ..self },
            SectionKind::Origin => Slots { origin: Some(def), ..self },
            SectionKind::Inherent => Slots { inherent: Some(def), ..self },
            SectionKind::GenesisConfig => Slots { genesis_config: Some(def), ..self },
            SectionKind::GenesisBuild => Slots { genesis_build: Some(def), ..self },
            SectionKind::ValidateUnsigned => Slots { validate_unsigned: Some(def), ..self },
            SectionKind::ExtraConstants => Slots { extra_constants: Some(def), ..self },
            SectionKind::Storage => Slots { storages: self.storages.push(def), ..self },
            SectionKind::TypeValue => Slots { type_values: self.type_values.push(def), ..self },
            SectionKind::Config | SectionKind::Call | SectionKind::Composite => self,
        }
    }

    /// With the section that a marked item is read as. The item is `item`
    /// without its mark, and stands at the place `index` of the module.
    pub open spec fn with_marked(
        self,
        tag: PalletAttrView,
        index: usize,
        item: ItemView,
        dev_mode: bool,
    ) -> Result<Slots, DefErrorView> {
        match tag.kind {
            SectionKind::Config => match config_of(tag.span, index, item, tag.with_default) {
                Ok(def) => Ok(Slots { config: Some(def), ..self.with_item(item) }),
                Err(error) => Err(DefErrorView::Section(error)),
            },
            SectionKind::Call => match call_of(tag.span, index, item, dev_mode, tag.weight) {
                Ok(def) => Ok(Slots { call: Some(def), ..self.with_item(item) }),
                Err(error) => Err(DefErrorView::Section(error)),
            },
            SectionKind::Composite => match composite_of(tag.span, index, item) {
                Ok(def) => if self.has_composite(def.composite_keyword) {
                    Err(
                        DefErrorView::DuplicateSection {
                            kind: SectionKind::Composite,
                            keyword: Some(def.composite_keyword),
                            span: def.keyword_span,
                        },
                    )
                } else {
                    Ok(Slots { composites: self.composites.push(def), ..self.with_item(item) })
                },
                Err(error) => Err(DefErrorView::Section(error)),
            },
            kind => match section_of(kind, tag.span, index, item) {
                Ok(def) => Ok(self.with_item(item).with_section(kind, def)),
                Err(error) => Err(DefErrorView::Section(error)),
            },
        }
    }

    /// With the item that stands at the place `index` of the module: taken
    /// as it is where it is not marked, read as its section where it is. A
    /// second mark of a section that occurs once is refused before the item
    /// is read. `accepted` says whether the weight of `call`, where the mark
    /// of the item gives one, is accepted as a type.
    #[verifier::opaque]
    pub open spec fn accept(
        self,
        index: usize,
        item: ItemView,
        dev_mode: bool,
        accepted: bool,
    ) -> Result<Slots, DefErrorView> {
        match item.tag(accepted) {
            Err(error) => Err(DefErrorView::Grammar(error)),
            Ok(None) => Ok(self.with_item(item)),
            Ok(Some(tag)) => if self.filled(tag.kind) {
                Err(
                    DefErrorView::DuplicateSection { kind: tag.kind, keyword: None, span: tag.span },
                )
            } else {
                self.with_marked(tag, index, item.cleaned(), dev_mode)
            },
        }
    }

    /// The definition that the collected sections make, once the module has
    /// ended: `config` and `pallet` must be there, and `genesis_config` and
    /// `genesis_build` both or neither.
    pub open spec fn assembled(self, dev_mode: bool) -> Result<DefView, DefErrorView> {
        if self.config is None {
            Err(DefErrorView::MissingRequiredSection(SectionKind::Config))
        } else if self.pallet_struct is None {
            Err(DefErrorView::MissingRequiredSection(SectionKind::Pallet))
        } else if (self.genesis_config is Some) != (self.genesis_build is Some) {
            Err(
                DefErrorView::MismatchedPairing {
                    genesis_config: self.genesis_config is Some,
                    genesis_build: self.genesis_build is Some,
                },
            )
        } else {
            Ok(
                DefView {
                    item: self.items,
                    config: self.config->0,
                    pallet_struct: self.pallet_struct->0,
                    hooks: self.hooks,
                    call: self.call,
                    storages: self.storages,
                    error: self.error,
                    event: self.event,
                    origin: self.origin,
                    inherent: self.inherent,
                    genesis_config: self.genesis_config,
                    genesis_build: self.genesis_build,
                    validate_unsigned: self.validate_unsigned,
                    extra_constants: self.extra_constants,
                    composites: self.composites,
                    type_values: self.type_values,
                    dev_mode,
                },
            )
        }
    }
}

/// Whether the weight that the item at the place `at` gives is accepted as a
/// type, as the answers say that the parser of types gave, one for each item:
/// where no answer is given, the weight is not accepted.
pub open spec fn answer(accepted: Seq<bool>, at: int) -> bool {
    0 <= at < accepted.len() && accepted[at]
}

/// What is collected from the items of a module, taken in their order, or
/// the failure of the first item that fails, given the answers of the parser
/// of types.
pub open spec fn scan(items: Seq<ItemView>, accepted: Seq<bool>, dev_mode: bool) -> Result<
    Slots,
    DefErrorView,
>
    decreases items.len(),
{
    if items.len() == 0 {
        Ok(Slots::empty())
    } else {
        match scan(items.drop_last(), accepted, dev_mode) {
            Ok(slots) => slots.accept(
                (items.len() - 1) as usize,
                items.last(),
                dev_mode,
                answer(accepted, items.len() - 1),
            ),
            Err(error) => Err(error),
        }
    }
}

/// The definition that a module compiles into, or why it does not, given the
/// answers of the parser of types.
pub open spec fn compile(items: Seq<ItemView>, accepted: Seq<bool>, dev_mode: bool) -> Result<
    DefView,
    DefErrorView,
> {
    match scan(items, accepted, dev_mode) {
        Ok(slots) => match slots.assembled(dev_mode) {
            Ok(def) => def.checked(),
            Err(error) => Err(error),
        },
        Err(error) => Err(error),
    }
}

/// Whether no item of the module gives a weight: the parser of types is
/// then not asked.
pub open spec fn without_weight(items: Seq<ItemView>) -> bool {
    forall|i: int| 0 <= i < items.len() ==> (#[trigger] items[i]).weight_type() is None
}

/// The model of what compiling a module gives.
pub open spec fn def_view(def: Result<Def, DefError>) -> Result<DefView, DefErrorView> {
    match def {
        Ok(def) => Ok(def@),
        Err(error) => Err(error@),
    }
}


/// The sections collected so far, as the compiler holds them.
struct Assembly {
    items: Vec<Item>,
    config: Option<ConfigDef>,
    pallet_struct: Option<SectionDef>,
    hooks: Option<SectionDef>,
    call: Option<CallDef>,
    storages: Vec<SectionDef>,
    error: Option<SectionDef>,
    event: Option<SectionDef>,
    origin: Option<SectionDef>,
    inherent: Option<SectionDef>,
    genesis_config: Option<SectionDef>,
    genesis_build: Option<SectionDef>,
    validate_unsigned: Option<SectionDef>,
    extra_constants: Option<SectionDef>,
    composites: Vec<CompositeDef>,
    type_values: Vec<SectionDef>,
}

impl View for Assembly {
    type V = Slots;

    closed spec fn view(&self) -> Slots {
        Slots {
            items: views(self.items@),
            config: self.config,
            pallet_struct: self.pallet_struct,
            hooks: self.hooks,
            call: match self.call {
                Some(call) => Some(call@),
                None => None,
            },
            storages: self.storages@,
            error: self.error,
            event: self.event,
            origin: self.origin,
            inherent: self.inherent,
            genesis_config: self.genesis_config,
            genesis_build: self.genesis_build,
            validate_unsigned: self.validate_unsigned,
            extra_constants: self.extra_constants,
            composites: self.composites@,
            type_values: self.type_values@,
        }
    }
}

impl Assembly {
    fn new() -> (assembly: Self)
        ensures
            assembly@ == Slots::empty(),
    {
        let assembly = Assembly {
            items: Vec::new(),
            config: None,
            pallet_struct: None,
            hooks: None,
            call: None,
            storages: Vec::new(),
            error: None,
            event: None,
            origin: None,
            inherent: None,
            genesis_config: None,
            genesis_build: None,
            validate_unsigned: None,
            extra_constants: None,
            composites: Vec::new(),
            type_values: Vec::new(),
        };
        assert(views(assembly.items@) == Seq::<ItemView>::empty());
        assembly
    }

    fn filled(&self, kind: SectionKind) -> (filled: bool)
        ensures
            filled == self@.filled(kind),
    {
        match kind {
            SectionKind::Config => self.config.is_some(),
            SectionKind::Pallet => self.pallet_struct.is_some(),
            SectionKind::Hooks => self.hooks.is_some(),
            SectionKind::Call => self.call.is_some(),
            SectionKind::Error => self.error.is_some(),
            SectionKind::Event => self.event.is_some(),
            SectionKind::Origin => self.origin.is_some(),
            SectionKind::Inherent => self.inherent.is_some(),
            SectionKind::GenesisConfig => self.genesis_config.is_some(),
            SectionKind::GenesisBuild => self.genesis_build.is_some(),
            SectionKind::ValidateUnsigned => self.validate_unsigned.is_some(),
            SectionKind::ExtraConstants => self.extra_constants.is_some(),
            SectionKind::Storage | SectionKind::TypeValue | SectionKind::Composite => false,
        }
    }

    fn has_composite(&self, keyword: CompositeKeyword) -> (found: bool)
        ensures
            found == self@.has_composite(keyword),
    {
        let mut at: usize = 0;
        while at < self.composites.len()
            invariant
                at <= self.composites.len(),
                forall|i: int|
                    0 <= i < at ==> (#[trigger] self.composites@[i]).composite_keyword != keyword,
            decreases self.composites.len() - at,
        {
            if self.composites[at].composite_keyword == keyword {
                return true;
            }
            at = at + 1;
        }
        false
    }

    fn push_item(&mut self, item: Item)
        ensures
            final(self)@ == old(self)@.with_item(item@),
    {
        self.items.push(item);
        assert(views(self.items@) == views(old(self).items@).push(item@));
    }

    fn put(&mut self, kind: SectionKind, def: SectionDef)
        ensures
            final(self)@ == old(self)@.with_section(kind, def),
    {
        match kind {
            SectionKind::Pallet => self.pallet_struct = Some(def),
            SectionKind::Hooks => self.hooks = Some(def),
            SectionKind::Error => self.error = Some(def),
            SectionKind::Event => self.event = Some(def),
            SectionKind::Origin => self.origin = Some(def),
            SectionKind::Inherent => self.inherent = Some(def),
            SectionKind::GenesisConfig => self.genesis_config = Some(def),
            SectionKind::GenesisBuild => self.genesis_build = Some(def),
            SectionKind::ValidateUnsigned => self.validate_unsigned = Some(def),
            SectionKind::ExtraConstants => self.extra_constants = Some(def),
            SectionKind::Storage => self.storages.push(def),
            SectionKind::TypeValue => self.type_values.push(def),
            SectionKind::Config | SectionKind::Call | SectionKind::Composite => {},
        }
    }

    /// Reads a marked item, which is given without its mark, as its section
    /// and collects it.
    fn accept_marked(
        &mut self,
        attr: PalletAttr,
        index: usize,
        item: Item,
        dev_mode: bool,
    ) -> (done:
        Result<(), DefError>)
        ensures
            match old(self)@.with_marked(attr@, index, item@, dev_mode) {
                Ok(slots) => done is Ok && final(self)@ == slots,
                Err(error) => done matches Err(e) && e@ == error,
            },
    {
        let kind = attr.kind();
        match attr {
            PalletAttr::Config(span, with_default) => {
                match ConfigDef::try_from(span, index, &item, with_default) {
                    Ok(def) => {
                        self.push_item(item);
                        self.config = Some(def);
                        Ok(())
                    },
                    Err(error) => Err(DefError::Section(error)),
                }
            },
            PalletAttr::RuntimeCall(weight, span) => {
                match CallDef::try_from(span, index, &item, dev_mode, weight) {
                    Ok(def) => {
                        self.push_item(item);
                        self.call = Some(def);
                        Ok(())
                    },
                    Err(error) => Err(DefError::Section(error)),
                }
            },
            PalletAttr::Composite(span) => {
                match CompositeDef::try_from(span, index, &item) {
                    Ok(def) => {
                        if self.has_composite(def.composite_keyword) {
                            Err(
                                DefError::DuplicateSection {
                                    kind: SectionKind::Composite,
                                    keyword: Some(def.composite_keyword),
                                    span: def.keyword_span,
                                },
                            )
                        } else {
                            self.push_item(item);
                            self.composites.push(def);
                            Ok(())
                        }
                    },
                    Err(error) => Err(DefError::Section(error)),
                }
            },
            other => {
                match SectionDef::try_from(kind, other.span(), index, &item) {
                    Ok(def) => {
                        self.push_item(item);
                        self.put(kind, def);
                        Ok(())
                    },
                    Err(error) => Err(DefError::Section(error)),
                }
            },
        }
    }

    /// Whether taking an item has done what the model says, given the
    /// answer of the parser of types.
    spec fn took(
        before: Slots,
        index: usize,
        item: ItemView,
        dev_mode: bool,
        accepted: bool,
        after: Slots,
        done: Result<(), DefError>,
    ) -> bool {
        match before.accept(index, item, dev_mode, accepted) {
            Ok(slots) => done is Ok && after == slots,
            Err(error) => done matches Err(e) && e@ == error,
        }
    }

    /// Takes the item that stands at the place `index` of the module.
    fn accept(&mut self, index: usize, item: Item, dev_mode: bool) -> (done: Result<(), DefError>)
        ensures
            Self::took(old(self)@, index, item@, dev_mode, true, final(self)@, done) || Self::took(
                old(self)@,
                index,
                item@,
                dev_mode,
                false,
                final(self)@,
                done,
            ),
            item@.weight_type() is None ==> Self::took(
                old(self)@,
                index,
                item@,
                dev_mode,
                false,
                final(self)@,
                done,
            ),
    {
        let mut item = item;
        proof {
            reveal(Slots::accept);
            item@.lemma_tag_index(true);
            item@.lemma_tag_index(false);
        }
        match take_first_item_pallet_attr(&mut item) {
            Err(error) => Err(DefError::Grammar(error)),
            Ok(None) => {
                self.push_item(item);
                Ok(())
            },
            Ok(Some(attr)) => {
                if self.filled(attr.kind()) {
                    Err(
                        DefError::DuplicateSection {
                            kind: attr.kind(),
                            keyword: None,
                            span: attr.span(),
                        },
                    )
                } else {
                    self.accept_marked(attr, index, item, dev_mode)
                }
            },
        }
    }

    /// Makes the definition of what is collected, and checks it.
    fn finish(self, dev_mode: bool) -> (def: Result<Def, DefError>)
        ensures
            def_view(def) == match self@.assembled(dev_mode) {
                Ok(def) => def.checked(),
                Err(error) => Err(error),
            },
    {
        let (config, pallet_struct) = match (self.config, self.pallet_struct) {
            (None, _) => {
                return Err(DefError::MissingRequiredSection(SectionKind::Config));
            },
            (Some(_), None) => {
                return Err(DefError::MissingRequiredSection(SectionKind::Pallet));
            },
            (Some(config), Some(pallet_struct)) => (config, pallet_struct),
        };
        if self.genesis_config.is_some() != self.genesis_build.is_some() {
            return Err(
                DefError::MismatchedPairing {
                    genesis_config: self.genesis_config.is_some(),
                    genesis_build: self.genesis_build.is_some(),
                },
            );
        }
        let def = Def {
            item: Module { items: self.items },
            config,
            pallet_struct,
            hooks: self.hooks,
            call: self.call,
            storages: self.storages,
            error: self.error,
            event: self.event,
            origin: self.origin,
            inherent: self.inherent,
            genesis_config: self.genesis_config,
            genesis_build: self.genesis_build,
            validate_unsigned: self.validate_unsigned,
            extra_constants: self.extra_constants,
            composites: self.composites,
            type_values: self.type_values,
            dev_mode,
        };
        match def.check_instance_usage() {
            Err(error) => {
                return Err(error);
            },
            Ok(()) => {},
        }
        match def.check_event_usage() {
            Err(error) => {
                return Err(error);
            },
            Ok(()) => {},
        }
        Ok(def)
    }
}

impl Def {
    /// Compiles a module into the definition of its pallet. In dev mode a
    /// call may be written without a weight.
    ///
    /// The items are taken in their order, and the first that fails ends the
    /// compilation: with a malformed attribute, a section marked twice, or an
    /// item that cannot be read as its section. Then the sections `config` and
    /// `pallet` must be there, `genesis_config` and `genesis_build` both or
    /// neither, every section must agree with `Config` on the instance, and
    /// the section `event` must be there exactly if `Config` declares the
    /// associated type `RuntimeEvent`.
    ///
    /// Whether the weight that an attribute gives is a type is asked of
    /// `syn`, once for each item whose mark gives one. The result is what the
    /// module compiles into under the answers that were given, and under any
    /// answers where no item gives a weight.
    pub fn try_from(item: Module, dev_mode: bool) -> (def: Result<Self, DefError>)
        ensures
            exists|accepted: Seq<bool>|
                accepted.len() == item@.len() && def_view(def) == #[trigger] compile(
                    item@,
                    accepted,
                    dev_mode,
                ),
            without_weight(item@) ==> def_view(def) == compile(
                item@,
                Seq::<bool>::empty(),
                dev_mode,
            ),
            def matches Ok(def) ==> def@.consistent(),
    {
        let ghost all = views(item.items@);
        let len = item.items.len();
        let mut assembly = Assembly::new();
        let mut index: usize = 0;
        let ghost mut answers: Seq<bool> = Seq::empty();
        assert(all.take(0) == Seq::<ItemView>::empty());
        for taken in it: item.items
            invariant
                views(it.seq()) == all,
                all.len() == len,
                index == it.index(),
                answers.len() == index,
                scan(all.take(index as int), answers, dev_mode) == Ok::<Slots, DefErrorView>(
                    assembly@,
                ),
        {
            let ghost next = all.take(index + 1);
            let ghost before = assembly@;
            assert(next.drop_last() == all.take(index as int));
            assert(next.last() == taken@);
            let done = assembly.accept(index, taken, dev_mode);
            proof {
                let accepted = !Assembly::took(
                    before,
                    index,
                    taken@,
                    dev_mode,
                    false,
                    assembly@,
                    done,
                );
                law_answers(next.drop_last(), answers, answers.push(accepted), dev_mode);
                answers = answers.push(accepted);
            }
            match done {
                Ok(()) => {},
                Err(error) => {
                    proof {
                        lemma_scan_fails(all, answers, index as int, dev_mode);
                        law_answers(all, answers, filled_up(answers, all.len()), dev_mode);
                        if without_weight(all) {
                            law_answers(all, answers, Seq::<bool>::empty(), dev_mode);
                        }
                    }
                    return Err(error);
                },
            }
            index = index + 1;
        }
        assert(all.take(index as int) == all);
        let def = assembly.finish(dev_mode);
        proof {
            if def is Ok {
                law_definition(all, answers, dev_mode);
            }
            if without_weight(all) {
                law_answers(all, answers, Seq::<bool>::empty(), dev_mode);
            }
        }
        def
    }
}

} // verus!
