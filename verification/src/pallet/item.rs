//! The items of a pallet module, as far as the compiler reads them: the
//! attributes of each, and what its body holds for the section that it is
//! marked as.

use vstd::prelude::*;
use crate::pallet::attr::{
    Attribute, AttributeView, GrammarError, PalletAttr, PalletAttrView, SectionKind,
};
use crate::pallet::grammar::{
    given_weight_type, in_namespace, law_tag_without_weight, lemma_tag_namespace, tag_given,
    tag_view,
};
use crate::pallet::span::Location;

verus! {

/// The models of the values of a sequence, in their order.
pub open spec fn views<T: View>(s: Seq<T>) -> Seq<T::V> {
    Seq::new(s.len(), |i: int| s[i]@)
}

/// One use of the pallet's generics in a section: whether it names the
/// instance, and where it stands.
#[derive(Clone, Copy, PartialEq, Eq, Structural, Debug)]
pub struct InstanceUsage {
    pub has_instance: bool,
    pub span: Location,
}

/// The enums that a pallet can contribute to the runtime's composite enums.
#[derive(Clone, Copy, PartialEq, Eq, Structural, Debug)]
pub enum CompositeKeyword {
    FreezeReason,
    HoldReason,
    LockId,
    SlashReason,
}

/// A function of the `call` section: whether a weight is written on it, and
/// where it stands.
#[derive(Clone, Copy, PartialEq, Eq, Structural, Debug)]
pub struct Callable {
    pub has_weight: bool,
    pub span: Location,
}

/// What the body of an item holds.
#[derive(Clone, PartialEq, Eq, Debug)]
pub enum ItemContent {
    /// Code that is written as no section.
    Other,
    /// Code that breaks the grammar of the section that it is written as, at
    /// the given place.
    Malformed { span: Location },
    /// The trait `Config`: whether it is generic over the instance, and
    /// whether it declares the associated type `RuntimeEvent`.
    Config { has_instance: bool, has_event_type: bool },
    /// An enum that is named as one of the composite enums.
    Composite { keyword: CompositeKeyword, span: Location },
    /// The impl block of the calls, with its generics and its functions.
    Call { instance: Option<InstanceUsage>, calls: Vec<Callable> },
    /// An item written as another section, with its generics if it has any.
    Section { kind: SectionKind, instance: Option<InstanceUsage> },
}

/// What an [`ItemContent`] stands for in contracts.
pub enum ItemContentView {
    Other,
    Malformed { span: Location },
    Config { has_instance: bool, has_event_type: bool },
    Composite { keyword: CompositeKeyword, span: Location },
    Call { instance: Option<InstanceUsage>, calls: Seq<Callable> },
    Section { kind: SectionKind, instance: Option<InstanceUsage> },
}

impl View for ItemContent {
    type V = ItemContentView;

    open spec fn view(&self) -> ItemContentView {
        match self {
            ItemContent::Other => ItemContentView::Other,
            ItemContent::Malformed { span } => ItemContentView::Malformed { span: *span },
            ItemContent::Config { has_instance, has_event_type } => ItemContentView::Config {
                has_instance: *has_instance,
                has_event_type: *has_event_type,
            },
            ItemContent::Composite { keyword, span } => ItemContentView::Composite {
                keyword: *keyword,
                span: *span,
            },
            ItemContent::Call { instance, calls } => ItemContentView::Call {
                instance: *instance,
                calls: calls@,
            },
            ItemContent::Section { kind, instance } => ItemContentView::Section {
                kind: *kind,
                instance: *instance,
            },
        }
    }
}

/// An item of a pallet module.
#[derive(Clone, PartialEq, Eq, Debug)]
pub struct Item {
    /// The attributes of the item, in the order in which they are written.
    pub attrs: Vec<Attribute>,
    pub content: ItemContent,
}

/// What an [`Item`] stands for in contracts.
pub struct ItemView {
    pub attrs: Seq<AttributeView>,
    pub content: ItemContentView,
}

impl View for Item {
    type V = ItemView;

    open spec fn view(&self) -> ItemView {
        ItemView { attrs: views(self.attrs@), content: self.content@ }
    }
}

/// A pallet module: its items, in the order in which they are written.
#[derive(Clone, PartialEq, Eq, Debug)]
pub struct Module {
    pub items: Vec<Item>,
}

impl View for Module {
    type V = Seq<ItemView>;

    open spec fn view(&self) -> Seq<ItemView> {
        views(self.items@)
    }
}

/// The first attribute under `pallet` at or behind the place `from`.
pub open spec fn first_pallet_attr(attrs: Seq<AttributeView>, from: int) -> Option<int>
    decreases attrs.len() - from,
{
    if from < 0 || from >= attrs.len() {
        None
    } else if in_namespace(attrs[from].text) {
        Some(from)
    } else {
        first_pallet_attr(attrs, from + 1)
    }
}

impl ItemView {
    /// The place of the attribute that marks the item, which is its first
    /// attribute under `pallet`.
    pub open spec fn tag_index(self) -> Option<int> {
        first_pallet_attr(self.attrs, 0)
    }

    /// The type that the mark of the item gives as the weight of `call`, if
    /// it gives one: what the parser of types is asked about.
    pub open spec fn weight_type(self) -> Option<Seq<char>> {
        match self.tag_index() {
            Some(at) => given_weight_type(self.attrs[at].text),
            None => None,
        }
    }

    /// The section that the item is marked as, given whether the weight of
    /// `call`, where its mark gives one, is accepted as a type: none where no
    /// attribute of the item is under `pallet`.
    pub open spec fn tag(self, accepted: bool) -> Result<Option<PalletAttrView>, GrammarError> {
        match self.tag_index() {
            Some(at) => tag_given(self.attrs[at].text, self.attrs[at].span, accepted),
            None => Ok(None),
        }
    }

    /// The item without the attribute that marks it.
    pub open spec fn cleaned(self) -> ItemView {
        match self.tag_index() {
            Some(at) => ItemView { attrs: self.attrs.remove(at), content: self.content },
            None => self,
        }
    }

    /// The attribute that marks an item is one of its attributes, it is under
    /// `pallet`, and it always stands for a section or is malformed: an item
    /// is marked as nothing exactly if no attribute of it is under `pallet`.
    pub proof fn lemma_tag_index(self, accepted: bool)
        ensures
            self.tag_index() matches Some(at) ==> 0 <= at < self.attrs.len() && in_namespace(
                self.attrs[at].text,
            ),
            self.tag(accepted) == Ok::<Option<PalletAttrView>, GrammarError>(None)
                <==> self.tag_index() is None,
    {
        lemma_first_pallet_attr(self.attrs, 0);
        if let Some(at) = self.tag_index() {
            lemma_tag_namespace(self.attrs[at].text, self.attrs[at].span, accepted);
        }
    }

    /// Whether the weight is accepted as a type matters only for an item
    /// whose mark gives a weight.
    pub proof fn law_tag_without_weight(self)
        requires
            self.weight_type() is None,
        ensures
            self.tag(true) == self.tag(false),
    {
        if let Some(at) = self.tag_index() {
            law_tag_without_weight(self.attrs[at].text, self.attrs[at].span);
        }
    }
}

/// The first attribute under `pallet` behind a place is under `pallet`.
proof fn lemma_first_pallet_attr(attrs: Seq<AttributeView>, from: int)
    ensures
        first_pallet_attr(attrs, from) matches Some(at) ==> 0 <= from <= at < attrs.len()
            && in_namespace(attrs[at].text),
    decreases attrs.len() - from,
{
    if 0 <= from < attrs.len() && !in_namespace(attrs[from].text) {
        lemma_first_pallet_attr(attrs, from + 1);
    }
}

/// Takes the first attribute under `pallet` off an item and reads it, as
/// [`PalletAttr::parse`] does. The item is left as it is where it has none, or
/// where that attribute is malformed.
pub fn take_first_item_pallet_attr(item: &mut Item) -> (tag: Result<
    Option<PalletAttr>,
    GrammarError,
>)
    ensures
        tag_view(tag) == old(item)@.tag(true) || tag_view(tag) == old(item)@.tag(false),
        old(item)@.weight_type() is None ==> tag_view(tag) == old(item)@.tag(false),
        final(item)@ == if tag is Ok {
            old(item)@.cleaned()
        } else {
            old(item)@
        },
{
    let n = item.attrs.len();
    let mut at: usize = 0;
    while at < n
        invariant
            n == item.attrs@.len(),
            at <= n,
            *item == *old(item),
            first_pallet_attr(item@.attrs, at as int) == first_pallet_attr(item@.attrs, 0),
        decreases n - at,
    {
        let tag = PalletAttr::parse(&item.attrs[at]);
        proof {
            lemma_tag_namespace(item@.attrs[at as int].text, item@.attrs[at as int].span, true);
            lemma_tag_namespace(item@.attrs[at as int].text, item@.attrs[at as int].span, false);
        }
        match tag {
            Ok(None) => {},
            Ok(Some(attr)) => {
                let ghost before = item.attrs@;
                item.attrs.remove(at);
                assert(views(item.attrs@) == views(before).remove(at as int));
                return Ok(Some(attr));
            },
            Err(error) => {
                return Err(error);
            },
        }
        at = at + 1;
    }
    Ok(None)
}

} // verus!
