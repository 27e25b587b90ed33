//! The generic parameter lists that a pallet's items are written with.

use vstd::prelude::*;

verus! {

/// Some generic kind for type which can be not generic, or generic over config,
/// or generic over config and instance, but not generic only over instance.
#[derive(Clone, Copy, PartialEq, Eq, Structural, Debug)]
pub enum GenericKind {
    NotGeneric,
    Config,
    ConfigAndInstance,
}

/// Where a generic parameter list is written.
#[derive(Clone, Copy, PartialEq, Eq, Structural, Debug)]
pub enum GenericsContext {
    /// Behind `impl`, with bounds: `impl<T: Config<I>, I: 'static>`.
    Impl,
    /// In the declaration of a type, with bounds and the default instance.
    DeclBounded,
    /// In the declaration of a type, without bounds, with the default instance.
    Decl,
    /// Behind the trait `Config` where it is used.
    TraitUse,
    /// Behind a type where it is used.
    TypeUse,
}

/// The text of the generic parameter list of a pallet in a given context,
/// for a pallet that is instantiable or not.
pub open spec fn generics_text(is_instantiable: bool, context: GenericsContext) -> Seq<char> {
    match context {
        GenericsContext::Impl => if is_instantiable {
            "T: Config<I>, I: 'static"@
        } else {
            "T: Config"@
        },
        GenericsContext::DeclBounded => if is_instantiable {
            "T: Config<I>, I: 'static = ()"@
        } else {
            "T: Config"@
        },
        GenericsContext::Decl => if is_instantiable {
            "T, I = ()"@
        } else {
            "T"@
        },
        GenericsContext::TraitUse => if is_instantiable {
            "<I>"@
        } else {
            ""@
        },
        GenericsContext::TypeUse => if is_instantiable {
            "T, I"@
        } else {
            "T"@
        },
    }
}

/// The generic parameter list of a pallet in a given context.
pub fn derive_generics(is_instantiable: bool, context: GenericsContext) -> (text: &'static str)
    ensures
        text@ == generics_text(is_instantiable, context),
{
    match context {
        GenericsContext::Impl => if is_instantiable {
            "T: Config<I>, I: 'static"
        } else {
            "T: Config"
        },
        GenericsContext::DeclBounded => if is_instantiable {
            "T: Config<I>, I: 'static = ()"
        } else {
            "T: Config"
        },
        GenericsContext::Decl => if is_instantiable {
            "T, I = ()"
        } else {
            "T"
        },
        GenericsContext::TraitUse => if is_instantiable {
            "<I>"
        } else {
            ""
        },
        GenericsContext::TypeUse => if is_instantiable {
            "T, I"
        } else {
            "T"
        },
    }
}

impl GenericKind {
    /// The kind of a type that is generic over the config, over the instance,
    /// both or neither.
    pub open spec fn of(has_config: bool, has_instance: bool) -> Option<GenericKind> {
        if has_config {
            Some(if has_instance { GenericKind::ConfigAndInstance } else { GenericKind::Config })
        } else if has_instance {
            None
        } else {
            Some(GenericKind::NotGeneric)
        }
    }

    /// Return Err if it is only generics over instance but not over config.
    pub fn from_gens(has_config: bool, has_instance: bool) -> (kind: Result<Self, ()>)
        ensures
            kind.is_ok() <==> (has_config || !has_instance),
            kind.ok() == Self::of(has_config, has_instance),
    {
        match (has_config, has_instance) {
            (false, false) => Ok(GenericKind::NotGeneric),
            (true, false) => Ok(GenericKind::Config),
            (true, true) => Ok(GenericKind::ConfigAndInstance),
            (false, true) => Err(()),
        }
    }

    /// The text of the generics behind a type of this kind where it is used.
    pub open spec fn use_text(self) -> Seq<char> {
        match self {
            GenericKind::NotGeneric => ""@,
            GenericKind::Config => "T"@,
            GenericKind::ConfigAndInstance => "T, I"@,
        }
    }

    /// The text of the generics behind `impl` for a type of this kind.
    pub open spec fn impl_text(self) -> Seq<char> {
        match self {
            GenericKind::NotGeneric => ""@,
            GenericKind::Config => "T: Config"@,
            GenericKind::ConfigAndInstance => "T: Config<I>, I: 'static"@,
        }
    }

    /// Return the generic to be used when using the type.
    ///
    /// Depending on its definition it can be: ``, `T` or `T, I`
    pub fn type_use_gen(&self) -> (text: &'static str)
        ensures
            text@ == self.use_text(),
    {
        match self {
            GenericKind::NotGeneric => "",
            GenericKind::Config => "T",
            GenericKind::ConfigAndInstance => "T, I",
        }
    }

    /// Return the generic to be used in `impl<..>` when implementing on the type.
    pub fn type_impl_gen(&self) -> (text: &'static str)
        ensures
            text@ == self.impl_text(),
    {
        match self {
            GenericKind::NotGeneric => "",
            GenericKind::Config => "T: Config",
            GenericKind::ConfigAndInstance => "T: Config<I>, I: 'static",
        }
    }

    /// Return whereas the type has some generic.
    pub fn is_generic(&self) -> (generic: bool)
        ensures
            generic == (*self != GenericKind::NotGeneric),
    {
        match self {
            GenericKind::NotGeneric => false,
            GenericKind::Config | GenericKind::ConfigAndInstance => true,
        }
    }
}

} // verus!
