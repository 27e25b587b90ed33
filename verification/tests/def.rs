use substrate_verified::pallet::attr::{
    Attribute, GrammarError, GrammarFault, InheritedCallWeightAttr, SectionKind,
};
use substrate_verified::pallet::def::Def;
use substrate_verified::pallet::error::{DefError, EventUsage, InstanceFinding};
use substrate_verified::pallet::item::{
    Callable, CompositeKeyword, InstanceUsage, Item, ItemContent, Module,
};
use substrate_verified::pallet::section::{
    CallWeightDef, CompositeDef, ConfigDef, SectionDef, SectionError, SectionFault,
};
use substrate_verified::pallet::span::Location;

fn at(place: usize) -> Location {
    Location { item: place, offset: 1 }
}

fn generics(place: usize) -> Location {
    Location { item: place, offset: 20 }
}

fn attr(text: &str, place: usize) -> Attribute {
    Attribute { text: text.to_string(), span: at(place) }
}

fn uses(has_instance: bool, place: usize) -> Option<InstanceUsage> {
    Some(InstanceUsage { has_instance, span: generics(place) })
}

fn marked(text: &str, place: usize, content: ItemContent) -> Item {
    Item { attrs: vec![attr(text, place)], content }
}

fn config(place: usize, has_instance: bool, has_event_type: bool) -> Item {
    marked("#[pallet::config]", place, ItemContent::Config { has_instance, has_event_type })
}

fn section(word: &str, kind: SectionKind, place: usize, has_instance: bool) -> Item {
    let text = format!("#[pallet::{}]", word);
    marked(&text, place, ItemContent::Section { kind, instance: uses(has_instance, place) })
}

fn pallet(place: usize, has_instance: bool) -> Item {
    section("pallet", SectionKind::Pallet, place, has_instance)
}

fn hooks(place: usize, has_instance: bool) -> Item {
    section("hooks", SectionKind::Hooks, place, has_instance)
}

fn storage(place: usize, has_instance: bool) -> Item {
    section("storage", SectionKind::Storage, place, has_instance)
}

fn event(place: usize, has_instance: bool) -> Item {
    section("event", SectionKind::Event, place, has_instance)
}

fn composite(place: usize, keyword: CompositeKeyword) -> Item {
    marked("#[pallet::composite_enum]", place, ItemContent::Composite { keyword, span: generics(place) })
}

fn plain(place: usize) -> Item {
    Item { attrs: vec![attr("#[inline]", place)], content: ItemContent::Other }
}

fn compile(items: Vec<Item>) -> Result<Def, DefError> {
    Def::try_from(Module { items }, false)
}

fn def_of(place: usize, has_instance: bool) -> SectionDef {
    SectionDef { index: place - 1, attr_span: at(place), instance: uses(has_instance, place) }
}

fn stripped(mut item: Item) -> Item {
    item.attrs.clear();
    item
}

#[test]
fn a_module_with_config_and_pallet_compiles() {
    let def = compile(vec![config(1, false, false), pallet(2, false)]).unwrap();
    assert_eq!(
        def.config,
        ConfigDef {
            index: 0,
            attr_span: at(1),
            has_instance: false,
            has_event_type: false,
            with_default: false,
        }
    );
    assert_eq!(def.pallet_struct, def_of(2, false));
    assert_eq!(def.hooks, None);
    assert_eq!(def.call, None);
    assert_eq!(def.storages, vec![]);
    assert_eq!(def.error, None);
    assert_eq!(def.event, None);
    assert_eq!(def.origin, None);
    assert_eq!(def.inherent, None);
    assert_eq!(def.genesis_config, None);
    assert_eq!(def.genesis_build, None);
    assert_eq!(def.validate_unsigned, None);
    assert_eq!(def.extra_constants, None);
    assert_eq!(def.composites, vec![]);
    assert_eq!(def.type_values, vec![]);
    assert!(!def.dev_mode);
    assert_eq!(
        def.item,
        Module { items: vec![stripped(config(1, false, false)), stripped(pallet(2, false))] }
    );
}

#[test]
fn a_module_without_config_fails() {
    assert_eq!(
        compile(vec![pallet(1, false), hooks(2, false)]),
        Err(DefError::MissingRequiredSection(SectionKind::Config))
    );
    assert_eq!(compile(vec![]), Err(DefError::MissingRequiredSection(SectionKind::Config)));
    assert_eq!(compile(vec![plain(1)]), Err(DefError::MissingRequiredSection(SectionKind::Config)));
}

#[test]
fn a_module_without_pallet_fails() {
    assert_eq!(
        compile(vec![config(1, false, false), hooks(2, false)]),
        Err(DefError::MissingRequiredSection(SectionKind::Pallet))
    );
}

#[test]
fn the_missing_section_goes_before_the_genesis_pair() {
    let genesis = section("genesis_config", SectionKind::GenesisConfig, 2, false);
    assert_eq!(
        compile(vec![pallet(1, false), genesis.clone()]),
        Err(DefError::MissingRequiredSection(SectionKind::Config))
    );
    assert_eq!(
        compile(vec![config(1, false, false), genesis]),
        Err(DefError::MissingRequiredSection(SectionKind::Pallet))
    );
}

#[test]
fn two_hooks_fail_at_the_second() {
    assert_eq!(
        compile(vec![config(1, false, false), hooks(2, false), pallet(3, false), hooks(4, false)]),
        Err(DefError::DuplicateSection { kind: SectionKind::Hooks, keyword: None, span: at(4) })
    );
}

#[test]
fn every_section_that_occurs_once_is_refused_twice() {
    let kinds = [
        ("pallet", SectionKind::Pallet),
        ("hooks", SectionKind::Hooks),
        ("error", SectionKind::Error),
        ("event", SectionKind::Event),
        ("origin", SectionKind::Origin),
        ("inherent", SectionKind::Inherent),
        ("genesis_config", SectionKind::GenesisConfig),
        ("genesis_build", SectionKind::GenesisBuild),
        ("validate_unsigned", SectionKind::ValidateUnsigned),
        ("extra_constants", SectionKind::ExtraConstants),
    ];
    for (word, kind) in kinds {
        assert_eq!(
            compile(vec![section(word, kind, 1, false), plain(2), section(word, kind, 3, false)]),
            Err(DefError::DuplicateSection { kind, keyword: None, span: at(3) })
        );
    }
    assert_eq!(
        compile(vec![config(1, false, false), config(2, false, false)]),
        Err(DefError::DuplicateSection { kind: SectionKind::Config, keyword: None, span: at(2) })
    );
    let calls = marked("#[pallet::call]", 1, ItemContent::Call { instance: None, calls: vec![] });
    let more = marked("#[pallet::call(weight = W)]", 2, ItemContent::Call { instance: None, calls: vec![] });
    assert_eq!(
        compile(vec![calls, more]),
        Err(DefError::DuplicateSection { kind: SectionKind::Call, keyword: None, span: at(2) })
    );
}

#[test]
fn a_second_mark_is_refused_before_the_item_is_read() {
    let second = marked("#[pallet::hooks]", 2, ItemContent::Other);
    assert_eq!(
        compile(vec![hooks(1, false), second]),
        Err(DefError::DuplicateSection { kind: SectionKind::Hooks, keyword: None, span: at(2) })
    );
}

#[test]
fn storages_and_type_values_may_be_many() {
    let def = compile(vec![
        storage(1, false),
        section("type_value", SectionKind::TypeValue, 2, false),
        config(3, false, false),
        storage(4, false),
        pallet(5, false),
        section("type_value", SectionKind::TypeValue, 6, false),
        storage(7, false),
    ])
    .unwrap();
    assert_eq!(def.storages, vec![def_of(1, false), def_of(4, false), def_of(7, false)]);
    assert_eq!(def.type_values, vec![def_of(2, false), def_of(6, false)]);
}

#[test]
fn genesis_config_without_genesis_build_fails() {
    assert_eq!(
        compile(vec![
            config(1, false, false),
            pallet(2, false),
            section("genesis_config", SectionKind::GenesisConfig, 3, false),
        ]),
        Err(DefError::MismatchedPairing { genesis_config: true, genesis_build: false })
    );
}

#[test]
fn genesis_build_without_genesis_config_fails() {
    assert_eq!(
        compile(vec![
            config(1, false, false),
            section("genesis_build", SectionKind::GenesisBuild, 2, false),
            pallet(3, false),
        ]),
        Err(DefError::MismatchedPairing { genesis_config: false, genesis_build: true })
    );
}

#[test]
fn genesis_config_with_genesis_build_compiles() {
    let def = compile(vec![
        config(1, false, false),
        section("genesis_build", SectionKind::GenesisBuild, 2, false),
        pallet(3, false),
        section("genesis_config", SectionKind::GenesisConfig, 4, false),
    ])
    .unwrap();
    assert_eq!(def.genesis_build, Some(def_of(2, false)));
    assert_eq!(def.genesis_config, Some(def_of(4, false)));
}

#[test]
fn an_event_type_without_event_fails() {
    assert_eq!(
        compile(vec![config(1, false, true), pallet(2, false)]),
        Err(DefError::EventUsageMismatch(EventUsage::MissingEvent))
    );
}

#[test]
fn an_event_without_event_type_fails() {
    assert_eq!(
        compile(vec![config(1, false, false), pallet(2, false), event(3, false)]),
        Err(DefError::EventUsageMismatch(EventUsage::MissingEventType))
    );
}

#[test]
fn an_event_with_event_type_compiles() {
    let def = compile(vec![config(1, true, true), pallet(2, true), event(3, true)]).unwrap();
    assert_eq!(def.event, Some(def_of(3, true)));
    assert!(def.config.has_event_type);
}

#[test]
fn every_section_without_the_instance_is_found() {
    assert_eq!(
        compile(vec![
            config(1, true, false),
            pallet(2, true),
            hooks(3, false),
            storage(4, true),
            storage(5, false),
            storage(6, true),
        ]),
        Err(DefError::InstanceUsageMismatch {
            with_instance: true,
            findings: vec![
                InstanceFinding { section: SectionKind::Storage, span: generics(5) },
                InstanceFinding { section: SectionKind::Hooks, span: generics(3) },
            ],
        })
    );
}

#[test]
fn every_section_with_an_instance_too_many_is_found() {
    let call = marked(
        "#[pallet::call]",
        8,
        ItemContent::Call { instance: uses(true, 8), calls: vec![] },
    );
    assert_eq!(
        compile(vec![
            section("extra_constants", SectionKind::ExtraConstants, 1, true),
            section("genesis_build", SectionKind::GenesisBuild, 2, true),
            section("genesis_config", SectionKind::GenesisConfig, 3, true),
            section("origin", SectionKind::Origin, 4, true),
            section("inherent", SectionKind::Inherent, 5, true),
            section("error", SectionKind::Error, 6, true),
            event(7, true),
            call,
            hooks(9, true),
            storage(10, true),
            storage(11, true),
            pallet(12, true),
            config(13, false, true),
        ]),
        Err(DefError::InstanceUsageMismatch {
            with_instance: false,
            findings: vec![
                InstanceFinding { section: SectionKind::Pallet, span: generics(12) },
                InstanceFinding { section: SectionKind::Storage, span: generics(10) },
                InstanceFinding { section: SectionKind::Storage, span: generics(11) },
                InstanceFinding { section: SectionKind::Call, span: generics(8) },
                InstanceFinding { section: SectionKind::Hooks, span: generics(9) },
                InstanceFinding { section: SectionKind::Event, span: generics(7) },
                InstanceFinding { section: SectionKind::Error, span: generics(6) },
                InstanceFinding { section: SectionKind::Inherent, span: generics(5) },
                InstanceFinding { section: SectionKind::Origin, span: generics(4) },
                InstanceFinding { section: SectionKind::GenesisConfig, span: generics(3) },
                InstanceFinding { section: SectionKind::GenesisBuild, span: generics(2) },
                InstanceFinding { section: SectionKind::ExtraConstants, span: generics(1) },
            ],
        })
    );
}

#[test]
fn some_sections_are_not_held_to_config() {
    let def = compile(vec![
        config(1, false, false),
        pallet(2, false),
        section("validate_unsigned", SectionKind::ValidateUnsigned, 3, true),
        section("type_value", SectionKind::TypeValue, 4, true),
        composite(5, CompositeKeyword::FreezeReason),
    ])
    .unwrap();
    assert_eq!(def.validate_unsigned, Some(def_of(3, true)));
    assert_eq!(def.type_values, vec![def_of(4, true)]);
}

#[test]
fn a_section_without_generics_is_not_held_to_config() {
    let build = marked(
        "#[pallet::genesis_build]",
        3,
        ItemContent::Section { kind: SectionKind::GenesisBuild, instance: None },
    );
    let def = compile(vec![
        config(1, true, false),
        pallet(2, true),
        build,
        section("genesis_config", SectionKind::GenesisConfig, 4, true),
    ])
    .unwrap();
    assert_eq!(def.genesis_build, Some(SectionDef { index: 2, attr_span: at(3), instance: None }));
}

#[test]
fn the_instance_is_checked_before_the_event() {
    assert_eq!(
        compile(vec![config(1, true, true), pallet(2, false)]),
        Err(DefError::InstanceUsageMismatch {
            with_instance: true,
            findings: vec![InstanceFinding { section: SectionKind::Pallet, span: generics(2) }],
        })
    );
}

#[test]
fn the_same_composite_enum_twice_fails() {
    assert_eq!(
        compile(vec![
            config(1, false, false),
            composite(2, CompositeKeyword::HoldReason),
            pallet(3, false),
            composite(4, CompositeKeyword::HoldReason),
        ]),
        Err(DefError::DuplicateSection {
            kind: SectionKind::Composite,
            keyword: Some(CompositeKeyword::HoldReason),
            span: generics(4),
        })
    );
}

#[test]
fn two_composite_enums_compile() {
    let def = compile(vec![
        config(1, false, false),
        composite(2, CompositeKeyword::HoldReason),
        pallet(3, false),
        composite(4, CompositeKeyword::LockId),
    ])
    .unwrap();
    assert_eq!(
        def.composites,
        vec![
            CompositeDef {
                index: 1,
                attr_span: at(2),
                composite_keyword: CompositeKeyword::HoldReason,
                keyword_span: generics(2),
            },
            CompositeDef {
                index: 3,
                attr_span: at(4),
                composite_keyword: CompositeKeyword::LockId,
                keyword_span: generics(4),
            },
        ]
    );
}

#[test]
fn all_four_composite_enums_compile() {
    let def = compile(vec![
        composite(1, CompositeKeyword::SlashReason),
        composite(2, CompositeKeyword::FreezeReason),
        composite(3, CompositeKeyword::LockId),
        composite(4, CompositeKeyword::HoldReason),
        config(5, false, false),
        pallet(6, false),
    ])
    .unwrap();
    assert_eq!(def.composites.len(), 4);
    assert_eq!(
        compile(vec![
            composite(1, CompositeKeyword::SlashReason),
            composite(2, CompositeKeyword::FreezeReason),
            composite(3, CompositeKeyword::LockId),
            composite(4, CompositeKeyword::FreezeReason),
        ]),
        Err(DefError::DuplicateSection {
            kind: SectionKind::Composite,
            keyword: Some(CompositeKeyword::FreezeReason),
            span: generics(4),
        })
    );
}

#[test]
fn the_items_keep_their_order_and_lose_their_mark() {
    let storage_item = Item {
        attrs: vec![
            attr("#[doc = \"A value.\"]", 30),
            attr("#[pallet::storage]", 31),
            attr("#[pallet::getter(fn value)]", 32),
        ],
        content: ItemContent::Section { kind: SectionKind::Storage, instance: uses(false, 33) },
    };
    let def = compile(vec![
        plain(1),
        config(2, false, false),
        plain(3),
        pallet(4, false),
        storage_item.clone(),
        Item { attrs: vec![], content: ItemContent::Other },
    ])
    .unwrap();
    assert_eq!(
        def.item.items,
        vec![
            plain(1),
            stripped(config(2, false, false)),
            plain(3),
            stripped(pallet(4, false)),
            Item {
                attrs: vec![
                    attr("#[doc = \"A value.\"]", 30),
                    attr("#[pallet::getter(fn value)]", 32),
                ],
                content: storage_item.content.clone(),
            },
            Item { attrs: vec![], content: ItemContent::Other },
        ]
    );
    assert_eq!(
        def.storages,
        vec![SectionDef { index: 4, attr_span: at(31), instance: uses(false, 33) }]
    );
}

#[test]
fn a_malformed_attribute_ends_the_compilation() {
    let bad = marked("#[pallet::hook]", 2, ItemContent::Other);
    assert_eq!(
        compile(vec![config(1, false, false), bad, config(3, false, false)]),
        Err(DefError::Grammar(GrammarError {
            span: at(2),
            offset: 10,
            fault: GrammarFault::UnrecognizedKind,
        }))
    );
    let bad_weight = marked(
        "#[pallet::call(weight = 1 + 1)]",
        2,
        ItemContent::Call { instance: None, calls: vec![] },
    );
    assert_eq!(
        compile(vec![bad_weight]),
        Err(DefError::Grammar(GrammarError {
            span: at(2),
            offset: 24,
            fault: GrammarFault::InvalidType,
        }))
    );
}

#[test]
fn the_first_failure_is_reported() {
    let bad = marked("#[pallet::hooks(x)]", 4, ItemContent::Other);
    assert_eq!(
        compile(vec![hooks(1, false), plain(2), hooks(3, false), bad]),
        Err(DefError::DuplicateSection { kind: SectionKind::Hooks, keyword: None, span: at(3) })
    );
    let bad = marked("#[pallet::hooks(x)]", 2, ItemContent::Other);
    assert_eq!(
        compile(vec![hooks(1, false), bad, hooks(3, false)]),
        Err(DefError::Grammar(GrammarError {
            span: at(2),
            offset: 15,
            fault: GrammarFault::UnexpectedToken,
        }))
    );
}

#[test]
fn an_item_of_the_wrong_form_ends_the_compilation() {
    let wrong = marked("#[pallet::hooks]", 2, ItemContent::Other);
    assert_eq!(
        compile(vec![config(1, false, false), wrong, pallet(3, false)]),
        Err(DefError::Section(SectionError {
            kind: SectionKind::Hooks,
            index: 1,
            span: at(2),
            fault: SectionFault::WrongItem,
        }))
    );
    let as_config = marked(
        "#[pallet::config]",
        1,
        ItemContent::Section { kind: SectionKind::Pallet, instance: None },
    );
    assert_eq!(
        compile(vec![as_config]),
        Err(DefError::Section(SectionError {
            kind: SectionKind::Config,
            index: 0,
            span: at(1),
            fault: SectionFault::WrongItem,
        }))
    );
}

#[test]
fn config_with_default_is_kept() {
    let with_default = marked(
        "#[pallet::config(with_default)]",
        1,
        ItemContent::Config { has_instance: false, has_event_type: false },
    );
    let def = compile(vec![with_default, pallet(2, false)]).unwrap();
    assert!(def.config.with_default);
}

fn calls(text: &str, weights: &[bool]) -> Item {
    let calls = weights
        .iter()
        .enumerate()
        .map(|(n, has_weight)| Callable { has_weight: *has_weight, span: generics(50 + n) })
        .collect();
    marked(text, 3, ItemContent::Call { instance: uses(false, 3), calls })
}

#[test]
fn calls_inherit_the_weight_of_the_attribute() {
    let def = compile(vec![
        config(1, false, false),
        pallet(2, false),
        calls("#[pallet::call(weight(<T as Config>::WeightInfo))]", &[false, true]),
    ])
    .unwrap();
    let call = def.call.unwrap();
    assert_eq!(call.methods, vec![CallWeightDef::Inherited, CallWeightDef::Immediate]);
    assert_eq!(
        call.inherited_call_weight,
        Some(InheritedCallWeightAttr {
            typename: "<T as Config>::WeightInfo".to_string(),
            span: at(3),
        })
    );
    assert_eq!(call.index, 2);
    assert_eq!(call.attr_span, at(3));
    assert_eq!(call.instance, uses(false, 3));
}

#[test]
fn calls_need_a_weight_outside_dev_mode() {
    let items = vec![config(1, false, false), pallet(2, false), calls("#[pallet::call]", &[true, false])];
    assert_eq!(
        Def::try_from(Module { items: items.clone() }, false),
        Err(DefError::Section(SectionError {
            kind: SectionKind::Call,
            index: 2,
            span: generics(51),
            fault: SectionFault::MissingWeight,
        }))
    );
    let def = Def::try_from(Module { items }, true).unwrap();
    assert!(def.dev_mode);
    assert_eq!(
        def.call.unwrap().methods,
        vec![CallWeightDef::Immediate, CallWeightDef::DevModeDefault]
    );
}

#[test]
fn compiling_twice_gives_the_same() {
    let items = vec![
        plain(1),
        config(2, true, true),
        pallet(3, true),
        event(4, true),
        storage(5, true),
        calls("#[pallet::call(weight = W<T, I>)]", &[false, false]),
        composite(7, CompositeKeyword::SlashReason),
    ];
    let first = Def::try_from(Module { items: items.clone() }, false);
    let second = Def::try_from(Module { items: items.clone() }, false);
    assert!(first.is_err());
    assert_eq!(first, second);
    let mut fixed = items;
    fixed[5] = marked(
        "#[pallet::call(weight = W<T, I>)]",
        6,
        ItemContent::Call { instance: uses(true, 6), calls: vec![] },
    );
    let first = Def::try_from(Module { items: fixed.clone() }, false);
    let second = Def::try_from(Module { items: fixed }, false);
    assert!(first.is_ok());
    assert_eq!(first, second);
}

#[test]
fn a_compiled_module_has_lost_its_marks() {
    let def = compile(vec![config(1, false, false), pallet(2, false)]).unwrap();
    assert_eq!(
        Def::try_from(def.item, false),
        Err(DefError::MissingRequiredSection(SectionKind::Config))
    );
}

#[test]
fn the_checks_of_a_definition_can_be_made_again() {
    let mut def = compile(vec![config(1, false, false), pallet(2, false), hooks(3, false)]).unwrap();
    assert_eq!(def.check_instance_usage(), Ok(()));
    assert_eq!(def.check_event_usage(), Ok(()));
    def.config.has_instance = true;
    def.config.has_event_type = true;
    assert_eq!(
        def.check_instance_usage(),
        Err(DefError::InstanceUsageMismatch {
            with_instance: true,
            findings: vec![
                InstanceFinding { section: SectionKind::Pallet, span: generics(2) },
                InstanceFinding { section: SectionKind::Hooks, span: generics(3) },
            ],
        })
    );
    assert_eq!(def.check_event_usage(), Err(DefError::EventUsageMismatch(EventUsage::MissingEvent)));
}

#[test]
fn the_generics_of_a_definition() {
    let def = compile(vec![config(1, false, false), pallet(2, false)]).unwrap();
    assert_eq!(def.type_impl_generics(), "T: Config");
    assert_eq!(def.type_decl_bounded_generics(), "T: Config");
    assert_eq!(def.type_decl_generics(), "T");
    assert_eq!(def.trait_use_generics(), "");
    assert_eq!(def.type_use_generics(), "T");
    let def = compile(vec![config(1, true, false), pallet(2, true)]).unwrap();
    assert_eq!(def.type_impl_generics(), "T: Config<I>, I: 'static");
    assert_eq!(def.type_decl_bounded_generics(), "T: Config<I>, I: 'static = ()");
    assert_eq!(def.type_decl_generics(), "T, I = ()");
    assert_eq!(def.trait_use_generics(), "<I>");
    assert_eq!(def.type_use_generics(), "T, I");
}

#[test]
fn a_marked_item_that_breaks_its_grammar_ends_the_compilation() {
    let broken = marked("#[pallet::storage]", 2, ItemContent::Malformed { span: generics(2) });
    assert_eq!(
        compile(vec![config(1, false, false), broken, pallet(3, false)]),
        Err(DefError::Section(SectionError {
            kind: SectionKind::Storage,
            index: 1,
            span: generics(2),
            fault: SectionFault::Malformed,
        }))
    );
}

#[test]
fn an_item_without_mark_is_not_read() {
    let broken = Item {
        attrs: vec![attr("#[inline]", 2)],
        content: ItemContent::Malformed { span: generics(2) },
    };
    let def = compile(vec![config(1, false, false), broken.clone(), pallet(3, false)]).unwrap();
    assert_eq!(def.item.items[1], broken);
}

#[test]
fn an_attribute_for_the_module_ends_the_compilation() {
    let inner = marked("#![pallet::hooks]", 2, ItemContent::Other);
    assert_eq!(
        compile(vec![config(1, false, false), inner]),
        Err(DefError::Grammar(GrammarError {
            span: at(2),
            offset: 1,
            fault: GrammarFault::ExpectedBracket,
        }))
    );
}

#[test]
fn a_weight_that_is_no_type_ends_the_compilation_whatever_follows() {
    let bad = marked(
        "#[pallet::call(weight((/*ERROR*/) + 1))]",
        1,
        ItemContent::Call { instance: None, calls: vec![] },
    );
    assert_eq!(
        compile(vec![bad, hooks(2, false), hooks(3, false)]),
        Err(DefError::Grammar(GrammarError {
            span: at(1),
            offset: 22,
            fault: GrammarFault::InvalidType,
        }))
    );
}
