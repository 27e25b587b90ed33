//! The sections of a pallet: what is kept of each, and how a marked item is
//! read as the section that its attribute names.
//!
//! Every section parser takes the place of the item in the module, the item,
//! and what its attribute gives, and returns what is kept of the section or
//! the reason why the item cannot be read as that section.

use vstd::prelude::*;
use crate::pallet::attr::{InheritedCallWeightAttr, InheritedCallWeightAttrView, SectionKind};
use crate::pallet::item::{
    Callable, CompositeKeyword, InstanceUsage, Item, ItemContent, ItemContentView, ItemView,
};
use crate::pallet::span::Location;

verus! {

/// Why an item cannot be read as the section that it is marked as.
#[derive(Clone, Copy, PartialEq, Eq, Structural, Debug)]
pub enum SectionFault {
    /// The item is not written as this section.
    WrongItem,
    /// The body of the item breaks the grammar that it is written to.
    Malformed,
    /// A call has no weight of its own, the calls inherit none, and the
    /// module is not compiled in dev mode.
    MissingWeight,
}

/// An item that cannot be read as the section that it is marked as.
#[derive(Clone, Copy, PartialEq, Eq, Structural, Debug)]
pub struct SectionError {
    pub kind: SectionKind,
    /// The place of the item in the module.
    pub index: usize,
    /// Where the fault stands: the attribute for an item of the wrong form,
    /// the call for a missing weight, the place in the body for a body that
    /// breaks its grammar.
    pub span: Location,
    pub fault: SectionFault,
}

/// The section `config`.
#[derive(Clone, Copy, PartialEq, Eq, Structural, Debug)]
pub struct ConfigDef {
    /// The place of the item in the module.
    pub index: usize,
    pub attr_span: Location,
    /// Whether the trait is generic over the instance.
    pub has_instance: bool,
    /// Whether the trait declares the associated type `RuntimeEvent`.
    pub has_event_type: bool,
    /// Whether the attribute is written with `with_default`.
    pub with_default: bool,
}

/// A section of which the place and the use of the generics are kept.
#[derive(Clone, Copy, PartialEq, Eq, Structural, Debug)]
pub struct SectionDef {
    /// The place of the item in the module.
    pub index: usize,
    pub attr_span: Location,
    /// How the section uses the generics of the pallet, if it has generics.
    pub instance: Option<InstanceUsage>,
}

/// A composite enum of the pallet.
#[derive(Clone, Copy, PartialEq, Eq, Structural, Debug)]
pub struct CompositeDef {
    /// The place of the item in the module.
    pub index: usize,
    pub attr_span: Location,
    pub composite_keyword: CompositeKeyword,
    /// Where the name of the enum stands.
    pub keyword_span: Location,
}

/// Whether no two of the composite enums have the same name.
pub open spec fn distinct_composites(composites: Seq<CompositeDef>) -> bool {
    forall|i: int, j: int|
        0 <= i < j < composites.len() ==> (#[trigger] composites[i]).composite_keyword != (
        #[trigger] composites[j]).composite_keyword
}

/// Where the weight of a call comes from.
#[derive(Clone, Copy, PartialEq, Eq, Structural, Debug)]
pub enum CallWeightDef {
    /// The weight is written on the call.
    Immediate,
    /// No weight is written anywhere; in dev mode the weight is zero.
    DevModeDefault,
    /// The weight is taken from the type that `#[pallet::call]` names.
    Inherited,
}

/// The section `call`.
#[derive(Clone, PartialEq, Eq, Debug)]
pub struct CallDef {
    /// The place of the item in the module.
    pub index: usize,
    pub attr_span: Location,
    /// How the impl block uses the generics of the pallet, if it has generics.
    pub instance: Option<InstanceUsage>,
    /// The source of the weight of each call, in the order of the calls.
    pub methods: Vec<CallWeightDef>,
    /// The weight that `#[pallet::call]` names for the calls that have none.
    pub inherited_call_weight: Option<InheritedCallWeightAttr>,
}

/// What a [`CallDef`] stands for in contracts.
pub struct CallDefView {
    pub index: usize,
    pub attr_span: Location,
    pub instance: Option<InstanceUsage>,
    pub methods: Seq<CallWeightDef>,
    pub inherited_call_weight: Option<InheritedCallWeightAttrView>,
}

impl View for CallDef {
    type V = CallDefView;

    open spec fn view(&self) -> CallDefView {
        CallDefView {
            index: self.index,
            attr_span: self.attr_span,
            instance: self.instance,
            methods: self.methods@,
            inherited_call_weight: match self.inherited_call_weight {
                Some(weight) => Some(weight@),
                None => None,
            },
        }
    }
}

/// The fault of an item that is not written as the section `kind`: the fault
/// of its body where the body breaks its grammar.
pub open spec fn wrong_item(
    kind: SectionKind,
    attr_span: Location,
    index: usize,
    item: ItemView,
) -> SectionError {
    match item.content {
        ItemContentView::Malformed { span } => SectionError {
            kind,
            index,
            span,
            fault: SectionFault::Malformed,
        },
        _ => SectionError { kind, index, span: attr_span, fault: SectionFault::WrongItem },
    }
}

/// The fault of an item that is not written as the section `kind`.
fn refusal(kind: SectionKind, attr_span: Location, index: usize, item: &Item) -> (error:
    SectionError)
    ensures
        error == wrong_item(kind, attr_span, index, item@),
{
    match &item.content {
        ItemContent::Malformed { span } => SectionError {
            kind,
            index,
            span: *span,
            fault: SectionFault::Malformed,
        },
        _ => SectionError { kind, index, span: attr_span, fault: SectionFault::WrongItem },
    }
}

/// The section `config` of an item that is marked as such.
pub open spec fn config_of(
    attr_span: Location,
    index: usize,
    item: ItemView,
    with_default: bool,
) -> Result<ConfigDef, SectionError> {
    match item.content {
        ItemContentView::Config { has_instance, has_event_type } => Ok(
            ConfigDef { index, attr_span, has_instance, has_event_type, with_default },
        ),
        _ => Err(wrong_item(SectionKind::Config, attr_span, index, item)),
    }
}

/// The composite enum of an item that is marked as such.
pub open spec fn composite_of(attr_span: Location, index: usize, item: ItemView) -> Result<
    CompositeDef,
    SectionError,
> {
    match item.content {
        ItemContentView::Composite { keyword, span } => Ok(
            CompositeDef { index, attr_span, composite_keyword: keyword, keyword_span: span },
        ),
        _ => Err(wrong_item(SectionKind::Composite, attr_span, index, item)),
    }
}

/// The section `kind`, one of those without a grammar of their own in this
/// crate, of an item that is marked as such.
pub open spec fn section_of(
    kind: SectionKind,
    attr_span: Location,
    index: usize,
    item: ItemView,
) -> Result<SectionDef, SectionError> {
    match item.content {
        ItemContentView::Section { kind: written, instance } if written == kind => Ok(
            SectionDef { index, attr_span, instance },
        ),
        _ => Err(wrong_item(kind, attr_span, index, item)),
    }
}

/// Where the weight of a call comes from: from the call itself, else from
/// what the calls inherit, else from dev mode; from nowhere otherwise.
pub open spec fn call_weight(has_weight: bool, inherited: bool, dev_mode: bool) -> Option<
    CallWeightDef,
> {
    if has_weight {
        Some(CallWeightDef::Immediate)
    } else if inherited {
        Some(CallWeightDef::Inherited)
    } else if dev_mode {
        Some(CallWeightDef::DevModeDefault)
    } else {
        None
    }
}

/// The sources of the weights of the calls, or the first call that has none.
pub open spec fn call_weights(calls: Seq<Callable>, inherited: bool, dev_mode: bool) -> Result<
    Seq<CallWeightDef>,
    Location,
>
    decreases calls.len(),
{
    if calls.len() == 0 {
        Ok(Seq::empty())
    } else {
        match call_weights(calls.drop_last(), inherited, dev_mode) {
            Err(span) => Err(span),
            Ok(weights) => match call_weight(calls.last().has_weight, inherited, dev_mode) {
                Some(weight) => Ok(weights.push(weight)),
                None => Err(calls.last().span),
            },
        }
    }
}

/// The section `call` of an item that is marked as such.
pub open spec fn call_of(
    attr_span: Location,
    index: usize,
    item: ItemView,
    dev_mode: bool,
    inherited_call_weight: Option<InheritedCallWeightAttrView>,
) -> Result<CallDefView, SectionError> {
    match item.content {
        ItemContentView::Call { instance, calls } => match call_weights(
            calls,
            inherited_call_weight is Some,
            dev_mode,
        ) {
            Ok(methods) => Ok(
                CallDefView { index, attr_span, instance, methods, inherited_call_weight },
            ),
            Err(span) => Err(
                SectionError {
                    kind: SectionKind::Call,
                    index,
                    span,
                    fault: SectionFault::MissingWeight,
                },
            ),
        },
        _ => Err(wrong_item(SectionKind::Call, attr_span, index, item)),
    }
}

/// The model of what reading the section `call` gives.
pub open spec fn call_view(call: Result<CallDef, SectionError>) -> Result<CallDefView, SectionError> {
    match call {
        Ok(def) => Ok(def@),
        Err(error) => Err(error),
    }
}

impl ConfigDef {
    /// Reads an item as the section `config`.
    pub fn try_from(attr_span: Location, index: usize, item: &Item, with_default: bool) -> (def:
        Result<Self, SectionError>)
        ensures
            def == config_of(attr_span, index, item@, with_default),
    {
        match &item.content {
            ItemContent::Config { has_instance, has_event_type } => Ok(
                ConfigDef {
                    index,
                    attr_span,
                    has_instance: *has_instance,
                    has_event_type: *has_event_type,
                    with_default,
                },
            ),
            _ => Err(refusal(SectionKind::Config, attr_span, index, item)),
        }
    }
}

impl CompositeDef {
    /// Reads an item as a composite enum.
    pub fn try_from(attr_span: Location, index: usize, item: &Item) -> (def: Result<
        Self,
        SectionError,
    >)
        ensures
            def == composite_of(attr_span, index, item@),
    {
        match &item.content {
            ItemContent::Composite { keyword, span } => Ok(
                CompositeDef {
                    index,
                    attr_span,
                    composite_keyword: *keyword,
                    keyword_span: *span,
                },
            ),
            _ => Err(refusal(SectionKind::Composite, attr_span, index, item)),
        }
    }
}

impl SectionDef {
    /// Reads an item as the section `kind`.
    pub fn try_from(kind: SectionKind, attr_span: Location, index: usize, item: &Item) -> (def:
        Result<Self, SectionError>)
        ensures
            def == section_of(kind, attr_span, index, item@),
    {
        match &item.content {
            ItemContent::Section { kind: written, instance } => {
                if *written == kind {
                    return Ok(SectionDef { index, attr_span, instance: *instance });
                }
            },
            _ => {},
        }
        Err(refusal(kind, attr_span, index, item))
    }
}

impl CallDef {
    /// Reads an item as the section `call`. A call without a weight of its
    /// own takes the inherited one, or none at all in dev mode.
    pub fn try_from(
        attr_span: Location,
        index: usize,
        item: &Item,
        dev_mode: bool,
        inherited_call_weight: Option<InheritedCallWeightAttr>,
    ) -> (def: Result<Self, SectionError>)
        ensures
            call_view(def) == call_of(
                attr_span,
                index,
                item@,
                dev_mode,
                match inherited_call_weight {
                    Some(weight) => Some(weight@),
                    None => None,
                },
            ),
    {
        match &item.content {
            ItemContent::Call { instance, calls } => {
                let inherited = inherited_call_weight.is_some();
                let mut methods: Vec<CallWeightDef> = Vec::new();
                let mut at: usize = 0;
                while at < calls.len()
                    invariant
                        at <= calls.len(),
                        inherited == inherited_call_weight is Some,
                        item@.content == (ItemContentView::Call {
                            instance: *instance,
                            calls: calls@,
                        }),
                        call_weights(calls@.take(at as int), inherited, dev_mode) == Ok::<
                            Seq<CallWeightDef>,
                            Location,
                        >(methods@),
                    decreases calls.len() - at,
                {
                    let call = calls[at];
                    let ghost next = calls@.take(at + 1);
                    assert(next.drop_last() == calls@.take(at as int));
                    let weight = if call.has_weight {
                        CallWeightDef::Immediate
                    } else if inherited {
                        CallWeightDef::Inherited
                    } else if dev_mode {
                        CallWeightDef::DevModeDefault
                    } else {
                        proof {
                            assert(next.last() == call);
                            assert(call_weights(next, inherited, dev_mode) is Err);
                            lemma_call_weights_fail(calls@, at as int, inherited, dev_mode);
                        }
                        return Err(
                            SectionError {
                                kind: SectionKind::Call,
                                index,
                                span: call.span,
                                fault: SectionFault::MissingWeight,
                            },
                        );
                    };
                    assert(next.last() == call);
                    methods.push(weight);
                    at = at + 1;
                }
                assert(calls@.take(calls@.len() as int) == calls@);
                Ok(CallDef { index, attr_span, instance: *instance, methods, inherited_call_weight })
            },
            _ => Err(refusal(SectionKind::Call, attr_span, index, item)),
        }
    }
}

/// Once the calls up to a place have failed, all of them fail, and at the
/// same call.
proof fn lemma_call_weights_fail(calls: Seq<Callable>, at: int, inherited: bool, dev_mode: bool)
    requires
        0 <= at < calls.len(),
        call_weights(calls.take(at + 1), inherited, dev_mode) is Err,
    ensures
        call_weights(calls, inherited, dev_mode) == call_weights(
            calls.take(at + 1),
            inherited,
            dev_mode,
        ),
    decreases calls.len(),
{
    if at + 1 < calls.len() {
        assert(calls.drop_last().take(at + 1) == calls.take(at + 1));
        lemma_call_weights_fail(calls.drop_last(), at, inherited, dev_mode);
    } else {
        assert(calls.take(at + 1) == calls);
    }
}

} // verus!
