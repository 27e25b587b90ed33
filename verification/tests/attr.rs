use substrate_verified::pallet::attr::{
    Attribute, GrammarError, GrammarFault, InheritedCallWeightAttr, PalletAttr, SectionKind,
};
use substrate_verified::pallet::span::Location;

fn at(place: usize) -> Location {
    Location { item: place, offset: 5 }
}

fn attr(text: &str, place: usize) -> Attribute {
    Attribute { text: text.to_string(), span: at(place) }
}

fn parse(text: &str) -> Result<Option<PalletAttr>, GrammarError> {
    PalletAttr::parse(&attr(text, 1))
}

fn fault(text: &str) -> GrammarFault {
    match parse(text) {
        Err(error) => {
            assert_eq!(error.span, at(1));
            error.fault
        },
        Ok(tag) => panic!("{} was read as {:?}", text, tag),
    }
}

fn weight(typename: &str) -> PalletAttr {
    PalletAttr::RuntimeCall(
        Some(InheritedCallWeightAttr { typename: typename.to_string(), span: at(1) }),
        at(1),
    )
}

#[test]
fn an_attribute_outside_the_namespace_is_no_tag() {
    assert_eq!(parse("#[inline]"), Ok(None));
    assert_eq!(parse("#[doc = \"pallet::config\"]"), Ok(None));
    assert_eq!(parse("#[palletx::config]"), Ok(None));
    assert_eq!(parse("#[pallet_config]"), Ok(None));
    assert_eq!(parse("#[cfg(feature = \"std\")]"), Ok(None));
    assert_eq!(parse("pallet::config"), Ok(None));
    assert_eq!(parse(""), Ok(None));
    assert_eq!(parse("#"), Ok(None));
    assert_eq!(parse("#["), Ok(None));
    assert_eq!(parse("#!"), Ok(None));
    assert_eq!(parse("#![inline]"), Ok(None));
    assert_eq!(parse("#[::core::prelude::v1::test]"), Ok(None));
}

#[test]
fn a_longer_word_is_another_namespace() {
    assert_eq!(parse("#[pallet\u{e9}::x]"), Ok(None));
    assert_eq!(parse("#[pallet\u{e9}::hooks]"), Ok(None));
    assert_eq!(parse("#[pallets::hooks]"), Ok(None));
    assert_eq!(parse("#[pallet0::hooks]"), Ok(None));
    assert_eq!(parse("#[\u{e9}pallet::hooks]"), Ok(None));
    assert!(!PalletAttr::is_pallet_attr(&attr("#[pallet\u{e9}::x]", 1)));
}

#[test]
fn an_attribute_for_what_it_stands_in_is_refused() {
    assert_eq!(fault("#![pallet::config]"), GrammarFault::ExpectedBracket);
    assert_eq!(fault("# ! [ pallet :: hooks ]"), GrammarFault::ExpectedBracket);
    assert_eq!(fault("#![pallet]"), GrammarFault::ExpectedBracket);
    assert!(PalletAttr::is_pallet_attr(&attr("#![pallet::config]", 1)));
}

#[test]
fn a_path_that_starts_with_colons_is_refused() {
    assert_eq!(fault("#[::pallet::hooks]"), GrammarFault::ExpectedNamespace);
    assert_eq!(fault("#[ :: pallet :: call(weight = T)]"), GrammarFault::ExpectedNamespace);
    assert_eq!(fault("#![::pallet::hooks]"), GrammarFault::ExpectedBracket);
    assert!(PalletAttr::is_pallet_attr(&attr("#[::pallet::hooks]", 1)));
    assert_eq!(parse("#[: :pallet::hooks]"), Ok(None));
}

#[test]
fn every_blank_of_rust_is_a_blank() {
    assert_eq!(
        parse("#\u{b}[\u{c}pallet\u{85}::\u{200e}hooks\u{200f}]\u{2028}\u{2029}"),
        Ok(Some(PalletAttr::Hooks(at(1))))
    );
    assert_eq!(fault("#[pallet::ho\u{2028}oks]"), GrammarFault::UnrecognizedKind);
    assert_eq!(fault("#[pallet::hooks\u{a0}]"), GrammarFault::UnrecognizedKind);
}

#[test]
fn an_attribute_outside_the_namespace_is_not_a_pallet_attr() {
    assert!(!PalletAttr::is_pallet_attr(&attr("#[derive(Clone)]", 1)));
    assert!(PalletAttr::is_pallet_attr(&attr("#[pallet::storage]", 1)));
    assert!(PalletAttr::is_pallet_attr(&attr("#[pallet]", 1)));
    assert!(PalletAttr::is_pallet_attr(&attr("#[pallet::nothing_known]", 1)));
}

#[test]
fn every_kind_is_read() {
    assert_eq!(parse("#[pallet::config]"), Ok(Some(PalletAttr::Config(at(1), false))));
    assert_eq!(parse("#[pallet::pallet]"), Ok(Some(PalletAttr::Pallet(at(1)))));
    assert_eq!(parse("#[pallet::hooks]"), Ok(Some(PalletAttr::Hooks(at(1)))));
    assert_eq!(parse("#[pallet::call]"), Ok(Some(PalletAttr::RuntimeCall(None, at(1)))));
    assert_eq!(parse("#[pallet::error]"), Ok(Some(PalletAttr::Error(at(1)))));
    assert_eq!(parse("#[pallet::event]"), Ok(Some(PalletAttr::RuntimeEvent(at(1)))));
    assert_eq!(parse("#[pallet::origin]"), Ok(Some(PalletAttr::RuntimeOrigin(at(1)))));
    assert_eq!(parse("#[pallet::inherent]"), Ok(Some(PalletAttr::Inherent(at(1)))));
    assert_eq!(parse("#[pallet::storage]"), Ok(Some(PalletAttr::Storage(at(1)))));
    assert_eq!(parse("#[pallet::genesis_config]"), Ok(Some(PalletAttr::GenesisConfig(at(1)))));
    assert_eq!(parse("#[pallet::genesis_build]"), Ok(Some(PalletAttr::GenesisBuild(at(1)))));
    assert_eq!(
        parse("#[pallet::validate_unsigned]"),
        Ok(Some(PalletAttr::ValidateUnsigned(at(1))))
    );
    assert_eq!(parse("#[pallet::type_value]"), Ok(Some(PalletAttr::TypeValue(at(1)))));
    assert_eq!(parse("#[pallet::extra_constants]"), Ok(Some(PalletAttr::ExtraConstants(at(1)))));
    assert_eq!(parse("#[pallet::composite_enum]"), Ok(Some(PalletAttr::Composite(at(1)))));
}

#[test]
fn kind_and_span_of_an_attribute() {
    let tag = PalletAttr::parse(&attr("#[pallet::genesis_build]", 42)).unwrap().unwrap();
    assert_eq!(tag.kind(), SectionKind::GenesisBuild);
    assert_eq!(tag.span(), Location { item: 42, offset: 5 });
    let call = PalletAttr::parse(&attr("#[pallet::call(weight = W)]", 7)).unwrap().unwrap();
    assert_eq!(call.kind(), SectionKind::Call);
    assert_eq!(call.span(), at(7));
    let config = PalletAttr::parse(&attr("#[pallet::config(with_default)]", 8)).unwrap().unwrap();
    assert_eq!(config.kind(), SectionKind::Config);
    assert_eq!(config.span(), at(8));
}

#[test]
fn blanks_may_stand_between_tokens() {
    assert_eq!(parse("  # [ pallet :: hooks ]  "), Ok(Some(PalletAttr::Hooks(at(1)))));
    assert_eq!(parse("#[pallet::\n\tstorage\r\n]"), Ok(Some(PalletAttr::Storage(at(1)))));
    assert_eq!(
        parse("# [pallet :: config ( with_default ) ]"),
        Ok(Some(PalletAttr::Config(at(1), true)))
    );
    assert_eq!(
        parse("# [pallet :: call (weight (T :: WeightInfo))]"),
        Ok(Some(weight("T :: WeightInfo")))
    );
}

#[test]
fn config_with_default() {
    assert_eq!(parse("#[pallet::config(with_default)]"), Ok(Some(PalletAttr::Config(at(1), true))));
    assert_eq!(fault("#[pallet::config(with_default, more)]"), GrammarFault::UnexpectedToken);
    assert_eq!(fault("#[pallet::config(with_default) more]"), GrammarFault::UnexpectedToken);
    assert_eq!(fault("#[pallet::config(with_default]"), GrammarFault::UnexpectedToken);
    assert_eq!(fault("#[pallet::config(without_default)]"), GrammarFault::ExpectedWithDefault);
    assert_eq!(fault("#[pallet::config()]"), GrammarFault::ExpectedWithDefault);
    assert_eq!(fault("#[pallet::config = with_default]"), GrammarFault::UnexpectedToken);
}

#[test]
fn call_with_weight_in_parentheses() {
    assert_eq!(
        parse("#[pallet::call(weight(<T as crate::Config>::WeightInfo))]"),
        Ok(Some(weight("<T as crate::Config>::WeightInfo")))
    );
    assert_eq!(parse("#[pallet::call(weight(()))]"), Ok(Some(weight("()"))));
    assert_eq!(parse("#[pallet::call(weight((u8, u16)))]"), Ok(Some(weight("(u8, u16)"))));
    assert_eq!(parse("#[pallet::call(weight( [u8; 4] ))]"), Ok(Some(weight("[u8; 4]"))));
}

#[test]
fn call_with_weight_behind_equals() {
    assert_eq!(
        parse("#[pallet::call(weight = <T as crate::Config>::WeightInfo)]"),
        Ok(Some(weight("<T as crate::Config>::WeightInfo")))
    );
    assert_eq!(
        parse("#[pallet::call(weight=SubstrateWeight<T>)]"),
        Ok(Some(weight("SubstrateWeight<T>")))
    );
    assert_eq!(parse("#[pallet::call(weight = fn(u8) -> u8)]"), Ok(Some(weight("fn(u8) -> u8"))));
}

#[test]
fn a_weight_that_is_no_type_is_refused() {
    assert_eq!(fault("#[pallet::call(weight())]"), GrammarFault::InvalidType);
    assert_eq!(fault("#[pallet::call(weight = )]"), GrammarFault::InvalidType);
    assert_eq!(fault("#[pallet::call(weight(u32 u32))]"), GrammarFault::InvalidType);
    assert_eq!(fault("#[pallet::call(weight = T::WeightInfo, more)]"), GrammarFault::InvalidType);
    assert_eq!(fault("#[pallet::call(weight(A)(B))]"), GrammarFault::InvalidType);
    assert_eq!(fault("#[pallet::call(weight(1 + 2))]"), GrammarFault::InvalidType);
    assert_eq!(fault("#[pallet::call(weight == T)]"), GrammarFault::InvalidType);
    assert_eq!(fault("#[pallet::call(weight = \"unclosed)]"), GrammarFault::InvalidType);
}

#[test]
fn malformed_arguments_of_call() {
    assert_eq!(fault("#[pallet::call()]"), GrammarFault::ExpectedWeight);
    assert_eq!(fault("#[pallet::call(height(T))]"), GrammarFault::ExpectedWeight);
    assert_eq!(fault("#[pallet::call(weights(T))]"), GrammarFault::ExpectedWeight);
    assert_eq!(fault("#[pallet::call(weight)]"), GrammarFault::ExpectedWeightValue);
    assert_eq!(fault("#[pallet::call(weight: T)]"), GrammarFault::ExpectedWeightValue);
    assert_eq!(fault("#[pallet::call(weight(T) more)]"), GrammarFault::UnexpectedToken);
    assert_eq!(fault("#[pallet::call weight(T)]"), GrammarFault::ExpectedParenthesis);
    assert_eq!(fault("#[pallet::call = T]"), GrammarFault::ExpectedParenthesis);
    assert_eq!(fault("#[pallet::call(weight(T)) more]"), GrammarFault::ExpectedParenthesis);
    assert_eq!(fault("#[pallet::call(weight(T)]"), GrammarFault::UnexpectedToken);
}

#[test]
fn an_unknown_kind_is_refused() {
    assert_eq!(fault("#[pallet::unknown]"), GrammarFault::UnrecognizedKind);
    assert_eq!(fault("#[pallet::configuration]"), GrammarFault::UnrecognizedKind);
    assert_eq!(fault("#[pallet::Config]"), GrammarFault::UnrecognizedKind);
    assert_eq!(fault("#[pallet::weight(T)]"), GrammarFault::UnrecognizedKind);
    assert_eq!(fault("#[pallet::generate_store(pub(super) trait Store)]"), GrammarFault::UnrecognizedKind);
    assert_eq!(fault("#[pallet::]"), GrammarFault::UnrecognizedKind);
    assert_eq!(fault("#[pallet:::hooks]"), GrammarFault::UnrecognizedKind);
    assert_eq!(fault("#[pallet::r#hooks]"), GrammarFault::UnrecognizedKind);
}

#[test]
fn the_path_separator_is_one_token() {
    assert_eq!(fault("#[pallet]"), GrammarFault::ExpectedPathSeparator);
    assert_eq!(fault("#[pallet: :hooks]"), GrammarFault::ExpectedPathSeparator);
    assert_eq!(fault("#[pallet:hooks]"), GrammarFault::ExpectedPathSeparator);
    assert_eq!(fault("#[pallet hooks]"), GrammarFault::ExpectedPathSeparator);
    assert_eq!(fault("#[pallet(hooks)]"), GrammarFault::ExpectedPathSeparator);
}

#[test]
fn nothing_may_follow_the_kind() {
    assert_eq!(fault("#[pallet::hooks(more)]"), GrammarFault::UnexpectedToken);
    assert_eq!(fault("#[pallet::storage more]"), GrammarFault::UnexpectedToken);
    assert_eq!(fault("#[pallet::pallet::pallet]"), GrammarFault::UnexpectedToken);
    assert_eq!(fault("#[pallet::error = 3]"), GrammarFault::UnexpectedToken);
    assert_eq!(fault("#[pallet::event]]"), GrammarFault::UnexpectedToken);
}

#[test]
fn an_attribute_ends_with_its_bracket() {
    assert_eq!(fault("#[pallet::hooks"), GrammarFault::Unterminated);
    assert_eq!(fault("#[pallet::hooks] fn"), GrammarFault::Unterminated);
    assert_eq!(fault("#[pallet"), GrammarFault::Unterminated);
}

#[test]
fn the_weight_is_read_given_the_verdict_on_its_type() {
    let call = attr("#[pallet::call(weight(Anything At All))]", 1);
    assert_eq!(PalletAttr::parse_given(&call, true), Ok(Some(weight("Anything At All"))));
    assert_eq!(
        PalletAttr::parse_given(&call, false),
        Err(GrammarError { span: at(1), offset: 22, fault: GrammarFault::InvalidType })
    );
    let hooks = attr("#[pallet::hooks]", 1);
    assert_eq!(PalletAttr::parse_given(&hooks, false), Ok(Some(PalletAttr::Hooks(at(1)))));
    assert_eq!(PalletAttr::parse_given(&attr("#[inline]", 1), false), Ok(None));
}

#[test]
fn the_arguments_of_call_are_read_on_their_own() {
    assert_eq!(
        InheritedCallWeightAttr::parse("(weight(T::WeightInfo))", at(3)),
        Ok(InheritedCallWeightAttr { typename: "T::WeightInfo".to_string(), span: at(3) })
    );
    assert_eq!(
        InheritedCallWeightAttr::parse(" ( weight = T::WeightInfo ) ", at(3)),
        Ok(InheritedCallWeightAttr { typename: "T::WeightInfo".to_string(), span: at(3) })
    );
    assert_eq!(
        InheritedCallWeightAttr::parse("(weight = 7)", at(3)),
        Err(GrammarError { span: at(3), offset: 10, fault: GrammarFault::InvalidType })
    );
    assert_eq!(
        InheritedCallWeightAttr::parse("weight = T", at(3)),
        Err(GrammarError { span: at(3), offset: 0, fault: GrammarFault::ExpectedParenthesis })
    );
    assert_eq!(
        InheritedCallWeightAttr::parse("", at(3)),
        Err(GrammarError { span: at(3), offset: 0, fault: GrammarFault::ExpectedParenthesis })
    );
    assert_eq!(
        InheritedCallWeightAttr::parse("(wait(T))", at(3)),
        Err(GrammarError { span: at(3), offset: 1, fault: GrammarFault::ExpectedWeight })
    );
}

#[test]
fn a_checked_weight_keeps_the_type_as_written() {
    assert_eq!(
        InheritedCallWeightAttr::checked("Vec<u8>", at(9), 4, true),
        Ok(InheritedCallWeightAttr { typename: "Vec<u8>".to_string(), span: at(9) })
    );
    assert_eq!(
        InheritedCallWeightAttr::checked("Vec<u8>", at(9), 4, false),
        Err(GrammarError { span: at(9), offset: 4, fault: GrammarFault::InvalidType })
    );
}

#[test]
fn text_beyond_ascii_is_read_by_characters() {
    assert_eq!(fault("#[pallet::hööks]"), GrammarFault::UnrecognizedKind);
    assert_eq!(fault("#[pallet::hooksé]"), GrammarFault::UnrecognizedKind);
    assert_eq!(fault("#[pallet::config(with_defaulté)]"), GrammarFault::ExpectedWithDefault);
    assert_eq!(fault("#[pallet::call(weighté(T))]"), GrammarFault::ExpectedWeight);
    assert_eq!(parse("#[pallet::call(weight = Ünïcode<T>)]"), Ok(Some(weight("Ünïcode<T>"))));
    assert_eq!(parse("#[páллет::hooks]"), Ok(None));
}

#[test]
fn a_fault_stands_where_the_reading_stops() {
    let stops = [
        ("#[pallet::unknown]", GrammarFault::UnrecognizedKind, 10),
        ("#[pallet]", GrammarFault::ExpectedPathSeparator, 8),
        ("#[pallet: :hooks]", GrammarFault::ExpectedPathSeparator, 8),
        ("#[pallet::hooks", GrammarFault::Unterminated, 15),
        ("#[pallet::hooks] fn", GrammarFault::Unterminated, 19),
        ("#[pallet::storage more]", GrammarFault::UnexpectedToken, 18),
        ("#[pallet::config(other)]", GrammarFault::ExpectedWithDefault, 17),
        ("#[pallet::config(with_default, more)]", GrammarFault::UnexpectedToken, 29),
        ("#[pallet::config(with_default) more]", GrammarFault::UnexpectedToken, 31),
        ("#[pallet::config = with_default]", GrammarFault::UnexpectedToken, 17),
        ("#[pallet::call weight(T)]", GrammarFault::ExpectedParenthesis, 15),
        ("#[pallet::call(weight(T)) more]", GrammarFault::ExpectedParenthesis, 30),
        ("#[pallet::call(height(T))]", GrammarFault::ExpectedWeight, 15),
        ("#[pallet::call(weight: T)]", GrammarFault::ExpectedWeightValue, 21),
        ("#[pallet::call(weight(T) more)]", GrammarFault::UnexpectedToken, 29),
        ("#[pallet::call(weight = )]", GrammarFault::InvalidType, 24),
        ("#[pallet::call(weight(  u32 u32))]", GrammarFault::InvalidType, 24),
        ("#[::pallet::hooks]", GrammarFault::ExpectedNamespace, 2),
        ("# ! [pallet::hooks]", GrammarFault::ExpectedBracket, 2),
    ];
    for (text, fault, offset) in stops {
        assert_eq!(parse(text), Err(GrammarError { span: at(1), offset, fault }));
    }
    assert_eq!(
        parse("  #[pallet::h\u{f6}\u{f6}ks(\u{20ac})]"),
        Err(GrammarError { span: at(1), offset: 12, fault: GrammarFault::UnrecognizedKind })
    );
    assert_eq!(
        parse("#[pallet::call(weight = \u{20ac}\u{20ac} +)]"),
        Err(GrammarError { span: at(1), offset: 24, fault: GrammarFault::InvalidType })
    );
}
