use quote::ToTokens;
use substrate_verified::pallet::attr::{Attribute, InheritedCallWeightAttr, PalletAttr};
use substrate_verified::pallet::span::Location;

fn at(place: usize) -> Location {
    Location { item: place, offset: 0 }
}

/// The attributes of an item, each printed from its tokens.
fn printed(item: &str) -> Vec<Attribute> {
    let item: syn::ItemStruct = syn::parse_str(item).unwrap();
    item.attrs
        .iter()
        .enumerate()
        .map(|(place, attr)| Attribute { text: attr.to_token_stream().to_string(), span: at(place) })
        .collect()
}

#[test]
fn printed_attributes_are_read() {
    let attrs = printed(
        "#[doc = \"A pallet.\"] #[pallet::pallet] #[pallet::config(with_default)] \
         #[pallet::storage] #[derive(Clone)] struct Pallet<T>(T);",
    );
    assert_eq!(PalletAttr::parse(&attrs[0]), Ok(None));
    assert_eq!(PalletAttr::parse(&attrs[1]), Ok(Some(PalletAttr::Pallet(at(1)))));
    assert_eq!(PalletAttr::parse(&attrs[2]), Ok(Some(PalletAttr::Config(at(2), true))));
    assert_eq!(PalletAttr::parse(&attrs[3]), Ok(Some(PalletAttr::Storage(at(3)))));
    assert_eq!(PalletAttr::parse(&attrs[4]), Ok(None));
}

#[test]
fn printed_weights_are_types_again() {
    let attrs = printed(
        "#[pallet::call(weight(<T as crate::Config>::WeightInfo))] \
         #[pallet::call(weight = SubstrateWeight<T, [u8; 4]>)] \
         #[pallet::call(weight = &'static dyn Fn(u8) -> (u8, u16))] struct Pallet;",
    );
    let wanted =
        ["<T as crate::Config>::WeightInfo", "SubstrateWeight<T, [u8; 4]>", "&'static dyn Fn(u8) -> (u8, u16)"];
    for (attr, wanted) in attrs.iter().zip(wanted) {
        match PalletAttr::parse(attr) {
            Ok(Some(PalletAttr::RuntimeCall(Some(InheritedCallWeightAttr { typename, span }), _))) => {
                assert_eq!(span, attr.span);
                let read: syn::Type = syn::parse_str(&typename).unwrap();
                let wanted: syn::Type = syn::parse_str(wanted).unwrap();
                assert_eq!(read, wanted);
            },
            other => panic!("{} was read as {:?}", attr.text, other),
        }
    }
}

#[test]
fn printed_attributes_with_faults_are_refused() {
    let attrs = printed(
        "#[pallet::call(weight(1 + 1))] #[pallet::call(weight = T, U)] #[pallet::hooks(x)] \
         #[pallet::nothing] #[pallet] struct Pallet;",
    );
    for attr in &attrs {
        assert!(PalletAttr::is_pallet_attr(attr));
        assert!(PalletAttr::parse(attr).is_err());
    }
}
