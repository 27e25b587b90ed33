use substrate_verified::pallet::generics::{derive_generics, GenericKind, GenericsContext};

#[test]
fn generics_where_the_type_is_used() {
    assert_eq!(derive_generics(false, GenericsContext::TypeUse), "T");
    assert_eq!(derive_generics(true, GenericsContext::TypeUse), "T, I");
}

#[test]
fn generics_where_the_trait_is_used() {
    assert_eq!(derive_generics(true, GenericsContext::TraitUse), "<I>");
    assert_eq!(derive_generics(false, GenericsContext::TraitUse), "");
}

#[test]
fn generics_of_an_impl() {
    assert_eq!(derive_generics(false, GenericsContext::Impl), "T: Config");
    assert_eq!(derive_generics(true, GenericsContext::Impl), "T: Config<I>, I: 'static");
}

#[test]
fn generics_of_a_declaration() {
    assert_eq!(derive_generics(false, GenericsContext::DeclBounded), "T: Config");
    assert_eq!(derive_generics(true, GenericsContext::DeclBounded), "T: Config<I>, I: 'static = ()");
    assert_eq!(derive_generics(false, GenericsContext::Decl), "T");
    assert_eq!(derive_generics(true, GenericsContext::Decl), "T, I = ()");
}

#[test]
fn generic_kind_from_gens() {
    assert_eq!(GenericKind::from_gens(false, false), Ok(GenericKind::NotGeneric));
    assert_eq!(GenericKind::from_gens(true, false), Ok(GenericKind::Config));
    assert_eq!(GenericKind::from_gens(true, true), Ok(GenericKind::ConfigAndInstance));
    assert_eq!(GenericKind::from_gens(false, true), Err(()));
}

#[test]
fn generic_kind_is_generic() {
    assert!(!GenericKind::NotGeneric.is_generic());
    assert!(GenericKind::Config.is_generic());
    assert!(GenericKind::ConfigAndInstance.is_generic());
}

#[test]
fn generic_kind_where_the_type_is_used() {
    assert_eq!(GenericKind::NotGeneric.type_use_gen(), "");
    assert_eq!(GenericKind::Config.type_use_gen(), "T");
    assert_eq!(GenericKind::ConfigAndInstance.type_use_gen(), "T, I");
}

#[test]
fn generic_kind_of_an_impl() {
    assert_eq!(GenericKind::NotGeneric.type_impl_gen(), "");
    assert_eq!(GenericKind::Config.type_impl_gen(), "T: Config");
    assert_eq!(GenericKind::ConfigAndInstance.type_impl_gen(), "T: Config<I>, I: 'static");
}
