//! What holds of every module and of every definition.

use vstd::prelude::*;
use crate::pallet::assemble::{answer, compile, def_view, scan, without_weight, Slots};
use crate::pallet::attr::SectionKind;
use crate::pallet::def::{differs, finding_of, storage_findings, usage_of, Def, DefView};
use crate::pallet::error::{DefError, DefErrorView, EventUsage, InstanceFinding};
use crate::pallet::item::{CompositeKeyword, InstanceUsage, ItemContentView, ItemView};
use crate::pallet::section::{distinct_composites, SectionDef};
use crate::pallet::span::Location;

verus! {

/// Whether an item is marked as the section `kind`, given whether the weight
/// that its mark gives, if it gives one, is accepted as a type.
pub open spec fn marked_as(item: ItemView, accepted: bool, kind: SectionKind) -> bool {
    match item.tag(accepted) {
        Ok(Some(tag)) => tag.kind == kind,
        _ => false,
    }
}

/// Whether an item of the module is marked as the section `kind`.
pub open spec fn has_marked(items: Seq<ItemView>, accepted: Seq<bool>, kind: SectionKind) -> bool {
    exists|i: int| 0 <= i < items.len() && marked_as(#[trigger] items[i], answer(accepted, i), kind)
}

/// Whether the section `kind` may be marked once only.
pub open spec fn occurs_once(kind: SectionKind) -> bool {
    kind != SectionKind::Storage && kind != SectionKind::TypeValue && kind != SectionKind::Composite
}

/// Whether an item is marked as a composite enum and is the enum `keyword`.
pub open spec fn declares_composite(
    item: ItemView,
    accepted: bool,
    keyword: CompositeKeyword,
) -> bool {
    marked_as(item, accepted, SectionKind::Composite) && match item.content {
        ItemContentView::Composite { keyword: written, .. } => written == keyword,
        _ => false,
    }
}

/// Once the items up to a place have failed, the module fails in the same way.
pub proof fn lemma_scan_fails(items: Seq<ItemView>, accepted: Seq<bool>, at: int, dev_mode: bool)
    requires
        0 <= at < items.len(),
        scan(items.take(at + 1), accepted, dev_mode) is Err,
    ensures
        scan(items, accepted, dev_mode) == scan(items.take(at + 1), accepted, dev_mode),
    decreases items.len(),
{
    if at + 1 < items.len() {
        assert(items.drop_last().take(at + 1) == items.take(at + 1));
        lemma_scan_fails(items.drop_last(), accepted, at, dev_mode);
    } else {
        assert(items.take(at + 1) == items);
    }
}

/// What taking one more item changes for a section: the item marks its own
/// section as there, and leaves every other section as it was.
proof fn lemma_accept_fills(
    slots: Slots,
    index: usize,
    item: ItemView,
    dev_mode: bool,
    accepted: bool,
    kind: SectionKind,
)
    requires
        slots.accept(index, item, dev_mode, accepted) is Ok,
    ensures
        slots.accept(index, item, dev_mode, accepted)->Ok_0.filled(
            kind,
        ) <==> slots.filled(kind) || (
        occurs_once(kind) && marked_as(item, accepted, kind)),
{
    reveal(Slots::accept);
}

/// What taking one more item changes for the composite enums: the item adds
/// the one that it declares.
proof fn lemma_accept_declares(
    slots: Slots,
    index: usize,
    item: ItemView,
    dev_mode: bool,
    accepted: bool,
    keyword: CompositeKeyword,
)
    requires
        slots.accept(index, item, dev_mode, accepted) is Ok,
    ensures
        slots.accept(index, item, dev_mode, accepted)->Ok_0.has_composite(
            keyword,
        ) <==> slots.has_composite(
            keyword,
        ) || declares_composite(item, accepted, keyword),
{
    reveal(Slots::accept);
    let next = slots.accept(index, item, dev_mode, accepted)->Ok_0;
    item.lemma_tag_index(accepted);
    if marked_as(item, accepted, SectionKind::Composite) {
        let def = next.composites.last();
        assert(next.composites == slots.composites.push(def));
        if slots.has_composite(keyword) {
            let i = choose|i: int|
                0 <= i < slots.composites.len() && (
                #[trigger] slots.composites[i]).composite_keyword == keyword;
            assert(next.composites[i].composite_keyword == keyword);
        }
        if declares_composite(item, accepted, keyword) {
            assert(next.composites[next.composites.len() - 1].composite_keyword == keyword);
        }
        if next.has_composite(keyword) {
            let i = choose|i: int|
                0 <= i < next.composites.len() && (
                #[trigger] next.composites[i]).composite_keyword == keyword;
            if i < slots.composites.len() {
                assert(slots.composites[i].composite_keyword == keyword);
            }
        }
    } else {
        assert(next.composites == slots.composites);
    }
}

/// Of a module whose items are all taken, a section that occurs once is
/// there exactly if an item is marked as it.
proof fn lemma_scan_fills(
    items: Seq<ItemView>,
    accepted: Seq<bool>,
    dev_mode: bool,
    kind: SectionKind,
)
    requires
        scan(items, accepted, dev_mode) is Ok,
    ensures
        scan(items, accepted, dev_mode)->Ok_0.filled(kind) <==> occurs_once(
            kind,
        ) && has_marked(items, accepted, kind),
    decreases items.len(),
{
    if items.len() > 0 {
        let start = items.drop_last();
        let before = scan(start, accepted, dev_mode)->Ok_0;
        lemma_scan_fills(start, accepted, dev_mode, kind);
        lemma_accept_fills(
            before,
            (items.len() - 1) as usize,
            items.last(),
            dev_mode,
            answer(accepted, items.len() - 1),
            kind,
        );
        if has_marked(start, accepted, kind) {
            let i = choose|i: int| 0 <= i < start.len() && marked_as(
                #[trigger] start[i],
                answer(accepted, i),
                kind,
            );
            assert(marked_as(items[i], answer(accepted, i), kind));
        }
        if marked_as(items.last(), answer(accepted, items.len() - 1), kind) {
            assert(marked_as(items[items.len() - 1], answer(accepted, items.len() - 1), kind));
        }
        if has_marked(items, accepted, kind) {
            let i = choose|i: int| 0 <= i < items.len() && marked_as(
                #[trigger] items[i],
                answer(accepted, i),
                kind,
            );
            if i < start.len() {
                assert(marked_as(start[i], answer(accepted, i), kind));
            }
        }
    }
}

/// Whether an item of the module declares the composite enum `keyword`.
pub open spec fn has_declared(
    items: Seq<ItemView>,
    accepted: Seq<bool>,
    keyword: CompositeKeyword,
) -> bool {
    exists|i: int| 0 <= i < items.len() && declares_composite(
        #[trigger] items[i],
        answer(accepted, i),
        keyword,
    )
}

/// Of a module whose items are all taken, a composite enum is there exactly
/// if an item declares it.
proof fn lemma_scan_declares(
    items: Seq<ItemView>,
    accepted: Seq<bool>,
    dev_mode: bool,
    keyword: CompositeKeyword,
)
    requires
        scan(items, accepted, dev_mode) is Ok,
    ensures
        scan(items, accepted, dev_mode)->Ok_0.has_composite(keyword) <==> has_declared(
            items,
            accepted,
            keyword,
        ),
    decreases items.len(),
{
    if items.len() > 0 {
        let start = items.drop_last();
        let before = scan(start, accepted, dev_mode)->Ok_0;
        lemma_scan_declares(start, accepted, dev_mode, keyword);
        lemma_accept_declares(
            before,
            (items.len() - 1) as usize,
            items.last(),
            dev_mode,
            answer(accepted, items.len() - 1),
            keyword,
        );
        if has_declared(start, accepted, keyword) {
            let i = choose|i: int|
                0 <= i < start.len() && declares_composite(
                    #[trigger] start[i],
                    answer(accepted, i),
                    keyword,
                );
            assert(declares_composite(items[i], answer(accepted, i), keyword));
        }
        if declares_composite(items.last(), answer(accepted, items.len() - 1), keyword) {
            assert(
                declares_composite(
                    items[items.len() - 1],
                    answer(accepted, items.len() - 1),
                    keyword,
                )
            );
        }
        if has_declared(items, accepted, keyword) {
            let i = choose|i: int|
                0 <= i < items.len() && declares_composite(
                    #[trigger] items[i],
                    answer(accepted, i),
                    keyword,
                );
            if i < start.len() {
                assert(declares_composite(start[i], answer(accepted, i), keyword));
            }
        }
    }
}

/// Of a module whose items are all taken, no two composite enums have the
/// same name.
proof fn lemma_scan_distinct(items: Seq<ItemView>, accepted: Seq<bool>, dev_mode: bool)
    requires
        scan(items, accepted, dev_mode) is Ok,
    ensures
        distinct_composites(scan(items, accepted, dev_mode)->Ok_0.composites),
    decreases items.len(),
{
    reveal(Slots::accept);
    if items.len() > 0 {
        let before = scan(items.drop_last(), accepted, dev_mode)->Ok_0;
        let slots = scan(items, accepted, dev_mode)->Ok_0;
        lemma_scan_distinct(items.drop_last(), accepted, dev_mode);
        assert forall|i: int, j: int| 0 <= i < j < slots.composites.len() implies (
        #[trigger] slots.composites[i]).composite_keyword != (
        #[trigger] slots.composites[j]).composite_keyword by {
            assert(slots.composites[i] == before.composites[i]);
            if j < before.composites.len() {
                assert(slots.composites[j] == before.composites[j]);
            }
        }
    }
}

/// Of a module whose items are all taken, the items are kept in their order,
/// each without its mark.
proof fn lemma_scan_keeps(items: Seq<ItemView>, accepted: Seq<bool>, dev_mode: bool)
    requires
        scan(items, accepted, dev_mode) is Ok,
    ensures
        scan(items, accepted, dev_mode)->Ok_0.items == Seq::new(
            items.len(),
            |i: int| items[i].cleaned(),
        ),
    decreases items.len(),
{
    reveal(Slots::accept);
    let slots = scan(items, accepted, dev_mode)->Ok_0;
    if items.len() > 0 {
        lemma_scan_keeps(items.drop_last(), accepted, dev_mode);
        items.last().lemma_tag_index(answer(accepted, items.len() - 1));
    }
    assert(slots.items == Seq::new(items.len(), |i: int| items[i].cleaned()));
}

/// Of a module whose items are all taken: a section that occurs once is
/// there exactly if an item is marked as it, a composite enum exactly if an
/// item declares it and then once only, and the items are kept in their
/// order, each without its mark.
pub proof fn lemma_scan_collects(items: Seq<ItemView>, accepted: Seq<bool>, dev_mode: bool)
    requires
        scan(items, accepted, dev_mode) is Ok,
    ensures
        forall|kind: SectionKind| #[trigger]
            scan(items, accepted, dev_mode)->Ok_0.filled(kind) <==> occurs_once(
                kind,
            ) && has_marked(items, accepted,
                kind,
            ),
        forall|keyword: CompositeKeyword| #[trigger]
            scan(items, accepted, dev_mode)->Ok_0.has_composite(keyword) <==> has_declared(
                items,
                accepted,
                keyword,
            ),
        scan(items, accepted, dev_mode)->Ok_0.items == Seq::new(
            items.len(),
            |i: int| items[i].cleaned(),
        ),
        distinct_composites(scan(items, accepted, dev_mode)->Ok_0.composites),
{
    assert forall|kind: SectionKind| #[trigger]
        scan(items, accepted, dev_mode)->Ok_0.filled(kind) <==> occurs_once(
            kind,
        ) && has_marked(items, accepted,
            kind,
        ) by {
        lemma_scan_fills(items, accepted, dev_mode, kind);
    }
    assert forall|keyword: CompositeKeyword| #[trigger]
        scan(items, accepted, dev_mode)->Ok_0.has_composite(keyword) <==> has_declared(
            items,
            accepted,
            keyword,
        ) by {
        lemma_scan_declares(items, accepted, dev_mode, keyword);
    }
    lemma_scan_distinct(items, accepted, dev_mode);
    lemma_scan_keeps(items, accepted, dev_mode);
}

/// Of a module whose items are all taken, every marked item is collected as
/// the section that it is read as.
pub proof fn law_collected(items: Seq<ItemView>, accepted: Seq<bool>, dev_mode: bool, at: int)
    requires
        scan(items, accepted, dev_mode) is Ok,
        0 <= at < items.len(),
        items[at].tag(answer(accepted, at)) is Ok,
        items[at].tag(answer(accepted, at))->Ok_0 is Some,
    ensures
        scan(items, accepted, dev_mode)->Ok_0.holds(
            items[at].tag(answer(accepted, at))->Ok_0->0,
            at as usize,
            items[at].cleaned(),
            dev_mode,
        ),
    decreases items.len(),
{
    reveal(Slots::accept);
    let start = items.drop_last();
    let before = scan(start, accepted, dev_mode)->Ok_0;
    let slots = scan(items, accepted, dev_mode)->Ok_0;
    let last = items.last();
    let tag = items[at].tag(answer(accepted, at))->Ok_0->0;
    if at < start.len() {
        law_collected(start, accepted, dev_mode, at);
        assert(start[at] == items[at]);
        assert(before.holds(tag, at as usize, items[at].cleaned(), dev_mode));
        if last.tag(answer(accepted, items.len() - 1)) is Ok {
            assert(forall|i: int|
                0 <= i < before.composites.len() ==> slots.composites[i] == before.composites[i]);
            assert(forall|i: int|
                0 <= i < before.storages.len() ==> slots.storages[i] == before.storages[i]);
            assert(forall|i: int|
                0 <= i < before.type_values.len() ==> slots.type_values[i]
                    == before.type_values[i]);
        }
    } else {
        assert(items[at] == last);
        if tag.kind == SectionKind::Composite {
            assert(slots.composites[slots.composites.len() - 1] == slots.composites.last());
        } else if tag.kind == SectionKind::Storage {
            assert(slots.storages[slots.storages.len() - 1] == slots.storages.last());
        } else if tag.kind == SectionKind::TypeValue {
            assert(slots.type_values[slots.type_values.len() - 1] == slots.type_values.last());
        }
    }
}

/// Whether an item that stands at the place `index` of a module can be read
/// on its own: its mark, if it has one, is well formed, and it is written as
/// the section that it is marked as.
pub open spec fn readable(item: ItemView, accepted: bool, index: usize, dev_mode: bool) -> bool {
    match item.tag(accepted) {
        Err(_) => false,
        Ok(None) => true,
        Ok(Some(tag)) => Slots::empty().with_marked(tag, index, item.cleaned(), dev_mode) is Ok,
    }
}

/// Whether the item at the place `at` repeats an earlier one: it is marked
/// as a section that occurs once and that an earlier item is marked as, or it
/// declares a composite enum that an earlier item declares.
pub open spec fn repeats(items: Seq<ItemView>, accepted: Seq<bool>, at: int) -> bool {
    exists|i: int|
        0 <= i < at && same_section(
            #[trigger] items[i],
            answer(accepted, i),
            items[at],
            answer(accepted, at),
        )
}

/// Whether two items are marked as the same section that occurs once, or
/// declare the same composite enum.
pub open spec fn same_section(
    first: ItemView,
    first_accepted: bool,
    second: ItemView,
    second_accepted: bool,
) -> bool {
    ||| exists|kind: SectionKind|
        occurs_once(kind) && #[trigger] marked_as(first, first_accepted, kind) && marked_as(
            second,
            second_accepted,
            kind,
        )
    ||| exists|keyword: CompositeKeyword|
        #[trigger] declares_composite(first, first_accepted, keyword) && declares_composite(
            second,
            second_accepted,
            keyword,
        )
}

/// One more item is taken exactly if it can be read and repeats none.
proof fn lemma_accept(items: Seq<ItemView>, accepted: Seq<bool>, dev_mode: bool)
    requires
        items.len() > 0,
        scan(items.drop_last(), accepted, dev_mode) is Ok,
    ensures
        scan(items, accepted, dev_mode) is Ok <==> readable(
            items.last(),
            answer(accepted, items.len() - 1),
            (items.len() - 1) as usize,
            dev_mode,
        ) && !repeats(items, accepted, items.len() - 1),
{
    reveal(Slots::accept);
    let start = items.drop_last();
    let slots = scan(start, accepted, dev_mode)->Ok_0;
    let last = items.last();
    let at = items.len() - 1;
    let index = at as usize;
    lemma_scan_collects(start, accepted, dev_mode);
    last.lemma_tag_index(answer(accepted, at));
    if let Ok(Some(tag)) = last.tag(answer(accepted, at)) {
        let kind = tag.kind;
        assert(marked_as(last, answer(accepted, at), kind));
        if occurs_once(kind) {
            assert(
                forall|keyword: CompositeKeyword| !declares_composite(
                    last,
                    answer(accepted, at),
                    keyword,
                )
            );
            if slots.filled(kind) {
                let i = choose|i: int| 0 <= i < start.len() && marked_as(
                    #[trigger] start[i],
                    answer(accepted, i),
                    kind,
                );
                assert(marked_as(items[i], answer(accepted, i), kind));
                assert(
                    same_section(items[i], answer(accepted, i), items[at], answer(accepted, at))
                );
            }
            if repeats(items, accepted, at) {
                let i = choose|i: int| 0 <= i < at && same_section(
                    #[trigger] items[i],
                    answer(accepted, i),
                    items[at],
                    answer(accepted, at),
                );
                let twice = choose|twice: SectionKind|
                    occurs_once(twice) && #[trigger] marked_as(
                        items[i],
                        answer(accepted, i),
                        twice,
                    ) && marked_as(items[at], answer(accepted, at), twice);
                assert(twice == kind);
                assert(marked_as(start[i], answer(accepted, i), kind));
                assert(has_marked(start, accepted, kind));
            }
        } else if kind == SectionKind::Composite {
            assert(
                forall|other: SectionKind| occurs_once(other) ==> !marked_as(
                    last,
                    answer(accepted, at),
                    other,
                )
            );
            if let ItemContentView::Composite { keyword, .. } = last.content {
                assert(declares_composite(last, answer(accepted, at), keyword));
                if slots.has_composite(keyword) {
                    let i = choose|i: int|
                        0 <= i < start.len() && declares_composite(
                            #[trigger] start[i],
                            answer(accepted, i),
                            keyword,
                        );
                    assert(declares_composite(items[i], answer(accepted, i), keyword));
                    assert(
                        same_section(
                            items[i],
                            answer(accepted, i),
                            items[at],
                            answer(accepted, at),
                        )
                    );
                }
                if repeats(items, accepted, at) {
                    let i = choose|i: int|
                        0 <= i < at && same_section(
                            #[trigger] items[i],
                            answer(accepted, i),
                            items[at],
                            answer(accepted, at),
                        );
                    let twice = choose|twice: CompositeKeyword|
                        #[trigger] declares_composite(items[i], answer(accepted, i), twice)
                            && declares_composite(items[at], answer(accepted, at), twice);
                    assert(twice == keyword);
                    assert(declares_composite(start[i], answer(accepted, i), keyword));
                }
            } else {
                assert(
                    forall|keyword: CompositeKeyword| !declares_composite(
                        last,
                        answer(accepted, at),
                        keyword,
                    )
                );
            }
        } else {
            assert(
                forall|other: SectionKind| occurs_once(other) ==> !marked_as(
                    last,
                    answer(accepted, at),
                    other,
                )
            );
            assert(
                forall|keyword: CompositeKeyword| !declares_composite(
                    last,
                    answer(accepted, at),
                    keyword,
                )
            );
        }
    } else {
        assert(forall|other: SectionKind| !marked_as(last, answer(accepted, at), other));
        assert(
            forall|keyword: CompositeKeyword| !declares_composite(
                last,
                answer(accepted, at),
                keyword,
            )
        );
    }
}

/// All items of a module are taken exactly if each of them can be read on
/// its own and none repeats an earlier one.
pub proof fn law_scan(items: Seq<ItemView>, accepted: Seq<bool>, dev_mode: bool)
    ensures
        scan(items, accepted, dev_mode) is Ok <==> forall|at: int|
            0 <= at < items.len() ==> readable(
                #[trigger] items[at],
                answer(accepted, at),
                at as usize,
                dev_mode,
            )
                && !repeats(items, accepted, at),
    decreases items.len(),
{
    if items.len() > 0 {
        let start = items.drop_last();
        let last = items.len() - 1;
        law_scan(start, accepted, dev_mode);
        assert forall|at: int| 0 <= at < start.len() implies repeats(
            start,
            accepted,
            at,
        ) == repeats(items, accepted,
            at,
        ) by {
            if repeats(start, accepted, at) {
                let i = choose|i: int| 0 <= i < at && same_section(
                    #[trigger] start[i],
                    answer(accepted, i),
                    start[at],
                    answer(accepted, at),
                );
                assert(
                    same_section(items[i], answer(accepted, i), items[at], answer(accepted, at))
                );
            }
            if repeats(items, accepted, at) {
                let i = choose|i: int| 0 <= i < at && same_section(
                    #[trigger] items[i],
                    answer(accepted, i),
                    items[at],
                    answer(accepted, at),
                );
                assert(
                    same_section(start[i], answer(accepted, i), start[at], answer(accepted, at))
                );
            }
        }
        if scan(start, accepted, dev_mode) is Ok {
            lemma_accept(items, accepted, dev_mode);
            if scan(items, accepted, dev_mode) is Ok {
                assert forall|at: int| 0 <= at < items.len() implies readable(
                    #[trigger] items[at],
                    answer(accepted, at),
                    at as usize,
                    dev_mode,
                ) && !repeats(items, accepted, at) by {
                    if at < start.len() {
                        assert(items[at] == start[at]);
                    }
                }
            } else {
                assert(items[last] == items.last());
            }
        } else {
            let at = choose|at: int|
                0 <= at < start.len() && !(readable(
                    #[trigger] start[at],
                    answer(accepted, at),
                    at as usize,
                    dev_mode,
                )
                    && !repeats(start, accepted, at));
            assert(items[at] == start[at]);
        }
    }
}

/// A module compiles exactly if all its items are taken, `config` and
/// `pallet` are marked, `genesis_config` and `genesis_build` are marked both
/// or neither, and what is assembled is consistent.
pub proof fn law_compiles(items: Seq<ItemView>, accepted: Seq<bool>, dev_mode: bool)
    ensures
        compile(items, accepted, dev_mode) is Ok <==> scan(
            items,
            accepted,
            dev_mode,
        ) is Ok && has_marked(items, accepted,
            SectionKind::Config,
        ) && has_marked(items, accepted, SectionKind::Pallet) && has_marked(
            items,
            accepted,
            SectionKind::GenesisConfig,
        )
            == has_marked(
                items,
                accepted,
                SectionKind::GenesisBuild,
            ) && scan(items, accepted, dev_mode,
        )->Ok_0.assembled(dev_mode)->Ok_0.consistent(),
        compile(items, accepted, dev_mode) is Ok ==> compile(
            items,
            accepted,
            dev_mode,
        ) == scan(items, accepted, dev_mode,
        )->Ok_0.assembled(dev_mode),
{
    if scan(items, accepted, dev_mode) is Ok {
        lemma_scan_collects(items, accepted, dev_mode);
        let slots = scan(items, accepted, dev_mode)->Ok_0;
        assert(
            slots.filled(SectionKind::Config) == has_marked(items, accepted, SectionKind::Config)
        );
        assert(
            slots.filled(SectionKind::Pallet) == has_marked(items, accepted, SectionKind::Pallet)
        );
        assert(slots.filled(SectionKind::GenesisConfig) == has_marked(items, accepted,
            SectionKind::GenesisConfig,
        ));
        assert(slots.filled(SectionKind::GenesisBuild) == has_marked(items, accepted,
            SectionKind::GenesisBuild,
        ));
        if slots.assembled(dev_mode) is Ok {
            law_checked(slots.assembled(dev_mode)->Ok_0);
        }
    }
}

/// Where the name of the composite enum stands that an item declares.
pub open spec fn composite_span(item: ItemView) -> Location {
    match item.content {
        ItemContentView::Composite { span, .. } => span,
        _ => arbitrary(),
    }
}

/// A module none of whose items is marked as `config` does not compile. Where
/// all its items are taken, it fails for the missing section `config`.
pub proof fn law_missing_config(items: Seq<ItemView>, accepted: Seq<bool>, dev_mode: bool)
    requires
        !has_marked(items, accepted, SectionKind::Config),
    ensures
        compile(items, accepted, dev_mode) is Err,
        scan(items, accepted, dev_mode) is Ok ==> compile(
            items,
            accepted,
            dev_mode,
        ) == Err::<DefView, DefErrorView>(
            DefErrorView::MissingRequiredSection(SectionKind::Config),
        ),
{
    if scan(items, accepted, dev_mode) is Ok {
        lemma_scan_collects(items, accepted, dev_mode);
        assert(!scan(items, accepted, dev_mode)->Ok_0.filled(SectionKind::Config));
    }
}

/// A module with an item marked as `config` and none marked as `pallet` does
/// not compile. Where all its items are taken, it fails for the missing
/// section `pallet`.
pub proof fn law_missing_pallet(items: Seq<ItemView>, accepted: Seq<bool>, dev_mode: bool)
    requires
        has_marked(items, accepted, SectionKind::Config),
        !has_marked(items, accepted, SectionKind::Pallet),
    ensures
        compile(items, accepted, dev_mode) is Err,
        scan(items, accepted, dev_mode) is Ok ==> compile(
            items,
            accepted,
            dev_mode,
        ) == Err::<DefView, DefErrorView>(
            DefErrorView::MissingRequiredSection(SectionKind::Pallet),
        ),
{
    if scan(items, accepted, dev_mode) is Ok {
        lemma_scan_collects(items, accepted, dev_mode);
        assert(scan(items, accepted, dev_mode)->Ok_0.filled(SectionKind::Config));
        assert(!scan(items, accepted, dev_mode)->Ok_0.filled(SectionKind::Pallet));
    }
}

/// A module with two items marked as the same section, one that may occur
/// once, does not compile. Where the items before the second are all taken,
/// it fails for the duplicate, at the attribute of the second.
pub proof fn law_duplicate_section(
    items: Seq<ItemView>,
    accepted: Seq<bool>,
    dev_mode: bool,
    kind: SectionKind,
    first: int,
    second: int,
)
    requires
        0 <= first < second < items.len(),
        occurs_once(kind),
        marked_as(items[first], answer(accepted, first), kind),
        marked_as(items[second], answer(accepted, second), kind),
    ensures
        compile(items, accepted, dev_mode) is Err,
        scan(items.take(second), accepted, dev_mode) is Ok ==> compile(
            items,
            accepted,
            dev_mode,
        ) == Err::<
            DefView,
            DefErrorView,
        >(
            DefErrorView::DuplicateSection {
                kind,
                keyword: None,
                span: items[second].tag(answer(accepted, second))->Ok_0->0.span,
            },
        ),
{
    let start = items.take(second);
    if scan(start, accepted, dev_mode) is Ok {
        lemma_scan_collects(start, accepted, dev_mode);
        assert(marked_as(start[first], answer(accepted, first), kind));
        assert(scan(start, accepted, dev_mode)->Ok_0.filled(kind));
        let next = items.take(second + 1);
        assert(next.drop_last() == start);
        assert(next.last() == items[second]);
        reveal(Slots::accept);
        assert(scan(next, accepted, dev_mode) is Err);
        lemma_scan_fails(items, accepted, second, dev_mode);
    } else {
        assert(start == items.take(second - 1 + 1));
        lemma_scan_fails(items, accepted, second - 1, dev_mode);
    }
}

/// A module with two items that declare the same composite enum does not
/// compile. Where the items before the second are all taken, it fails for
/// the duplicate, at the name of the second enum.
pub proof fn law_duplicate_composite(
    items: Seq<ItemView>,
    accepted: Seq<bool>,
    dev_mode: bool,
    keyword: CompositeKeyword,
    first: int,
    second: int,
)
    requires
        0 <= first < second < items.len(),
        declares_composite(items[first], answer(accepted, first), keyword),
        declares_composite(items[second], answer(accepted, second), keyword),
    ensures
        compile(items, accepted, dev_mode) is Err,
        scan(items.take(second), accepted, dev_mode) is Ok ==> compile(
            items,
            accepted,
            dev_mode,
        ) == Err::<
            DefView,
            DefErrorView,
        >(
            DefErrorView::DuplicateSection {
                kind: SectionKind::Composite,
                keyword: Some(keyword),
                span: composite_span(items[second]),
            },
        ),
{
    let start = items.take(second);
    if scan(start, accepted, dev_mode) is Ok {
        lemma_scan_collects(start, accepted, dev_mode);
        assert(declares_composite(start[first], answer(accepted, first), keyword));
        assert(scan(start, accepted, dev_mode)->Ok_0.has_composite(keyword));
        let next = items.take(second + 1);
        assert(next.drop_last() == start);
        assert(next.last() == items[second]);
        items[second].lemma_tag_index(answer(accepted, second));
        reveal(Slots::accept);
        assert(scan(next, accepted, dev_mode) is Err);
        lemma_scan_fails(items, accepted, second, dev_mode);
    } else {
        assert(start == items.take(second - 1 + 1));
        lemma_scan_fails(items, accepted, second - 1, dev_mode);
    }
}

/// A module whose items are all taken, which has `config` and `pallet`, and
/// which has one of `genesis_config` and `genesis_build` without the other,
/// fails for the pair.
pub proof fn law_genesis_pairing(items: Seq<ItemView>, accepted: Seq<bool>, dev_mode: bool)
    requires
        scan(items, accepted, dev_mode) is Ok,
        has_marked(items, accepted, SectionKind::Config),
        has_marked(items, accepted, SectionKind::Pallet),
        has_marked(items, accepted, SectionKind::GenesisConfig) != has_marked(items, accepted,
            SectionKind::GenesisBuild,
        ),
    ensures
        compile(items, accepted, dev_mode) == Err::<DefView, DefErrorView>(
            DefErrorView::MismatchedPairing {
                genesis_config: has_marked(items, accepted, SectionKind::GenesisConfig),
                genesis_build: has_marked(items, accepted, SectionKind::GenesisBuild),
            },
        ),
{
    lemma_scan_collects(items, accepted, dev_mode);
    let slots = scan(items, accepted, dev_mode)->Ok_0;
    assert(slots.filled(SectionKind::Config));
    assert(slots.filled(SectionKind::Pallet));
    assert(
        slots.filled(SectionKind::GenesisConfig) == has_marked(
            items,
            accepted,
            SectionKind::GenesisConfig,
        )
    );
    assert(
        slots.filled(SectionKind::GenesisBuild) == has_marked(
            items,
            accepted,
            SectionKind::GenesisBuild,
        )
    );
}

/// A module that is assembled, and in which `Config` declares the associated
/// type `RuntimeEvent` while no item is marked as `event`, or the other way
/// round, does not compile. Where its sections agree on the instance, it
/// fails for the use of the event.
pub proof fn law_event_usage(items: Seq<ItemView>, accepted: Seq<bool>, dev_mode: bool)
    requires
        scan(items, accepted, dev_mode) is Ok,
        scan(items, accepted, dev_mode)->Ok_0.assembled(dev_mode) is Ok,
        scan(items, accepted, dev_mode)->Ok_0.assembled(dev_mode)->Ok_0.config.has_event_type
            != has_marked(items, accepted, SectionKind::Event),
    ensures
        compile(items, accepted, dev_mode) is Err,
        scan(items, accepted, dev_mode)->Ok_0.assembled(
            dev_mode,
        )->Ok_0.instance_findings().len() == 0
            ==> compile(items, accepted, dev_mode) == Err::<DefView, DefErrorView>(
            DefErrorView::EventUsageMismatch(
                if has_marked(items, accepted, SectionKind::Event) {
                    EventUsage::MissingEventType
                } else {
                    EventUsage::MissingEvent
                },
            ),
        ),
{
    lemma_scan_collects(items, accepted, dev_mode);
    let slots = scan(items, accepted, dev_mode)->Ok_0;
    assert(slots.filled(SectionKind::Event) == has_marked(items, accepted, SectionKind::Event));
}

/// What is found of the storages are the storages that disagree with `Config`.
proof fn lemma_storage_findings(
    storages: Seq<SectionDef>,
    with_instance: bool,
    finding: InstanceFinding,
)
    ensures
        storage_findings(storages, with_instance).contains(finding) <==> finding.section
            == SectionKind::Storage && exists|i: int|
            0 <= i < storages.len() && differs(
                (#[trigger] storages[i]).instance,
                with_instance,
                finding.span,
            ),
    decreases storages.len(),
{
    if storages.len() > 0 {
        let start = storages.drop_last();
        let last = finding_of(SectionKind::Storage, storages.last().instance, with_instance);
        lemma_storage_findings(start, with_instance, finding);
        lemma_contains_add(storage_findings(start, with_instance), last, finding);
        lemma_finding_of(SectionKind::Storage, storages.last().instance, with_instance, finding);
        if exists|i: int|
            0 <= i < start.len() && differs(
                (#[trigger] start[i]).instance,
                with_instance,
                finding.span,
            ) {
            let i = choose|i: int|
                0 <= i < start.len() && differs(
                    (#[trigger] start[i]).instance,
                    with_instance,
                    finding.span,
                );
            assert(differs(storages[i].instance, with_instance, finding.span));
        }
        if differs(storages.last().instance, with_instance, finding.span) {
            assert(differs(storages[storages.len() - 1].instance, with_instance, finding.span));
        }
        if exists|i: int|
            0 <= i < storages.len() && differs(
                (#[trigger] storages[i]).instance,
                with_instance,
                finding.span,
            ) {
            let i = choose|i: int|
                0 <= i < storages.len() && differs(
                    (#[trigger] storages[i]).instance,
                    with_instance,
                    finding.span,
                );
            if i < start.len() {
                assert(differs(start[i].instance, with_instance, finding.span));
            }
        }
    }
}

/// What is found of one use of the generics is that use, where it disagrees.
proof fn lemma_finding_of(
    section: SectionKind,
    usage: Option<InstanceUsage>,
    with_instance: bool,
    finding: InstanceFinding,
)
    ensures
        finding_of(section, usage, with_instance).contains(finding) <==> finding.section == section
            && differs(usage, with_instance, finding.span),
{
    let found = finding_of(section, usage, with_instance);
    if found.contains(finding) {
        let i = choose|i: int| 0 <= i < found.len() && found[i] == finding;
        assert(found[i] == finding);
    }
    if finding.section == section && differs(usage, with_instance, finding.span) {
        assert(found[0] == finding);
    }
}

/// A value is in two lists put together exactly if it is in one of them.
proof fn lemma_contains_add<T>(a: Seq<T>, b: Seq<T>, x: T)
    ensures
        (a + b).contains(x) <==> a.contains(x) || b.contains(x),
{
    if a.contains(x) {
        let i = choose|i: int| 0 <= i < a.len() && a[i] == x;
        assert((a + b)[i] == x);
    }
    if b.contains(x) {
        let i = choose|i: int| 0 <= i < b.len() && b[i] == x;
        assert((a + b)[a.len() + i] == x);
    }
    if (a + b).contains(x) {
        let i = choose|i: int| 0 <= i < (a + b).len() && (a + b)[i] == x;
        if i < a.len() {
            assert(a[i] == x);
        } else {
            assert(b[i - a.len()] == x);
        }
    }
}

/// The sections found to disagree with `Config` on the instance are all the
/// sections that do, and no others: a section is among the findings exactly
/// if it is one of the sections held to `Config`, has generics, and names
/// the instance where `Config` has none or the other way round.
pub proof fn law_instance_findings(def: DefView, section: SectionKind, span: Location)
    ensures
        def.instance_findings().contains(InstanceFinding { section, span }) <==> def.disagrees(
            section,
            span,
        ),
{
    let with = def.config.has_instance;
    let finding = InstanceFinding { section, span };
    let f0 = finding_of(SectionKind::Pallet, def.pallet_struct.instance, with);
    let f1 = f0 + storage_findings(def.storages, with);
    let f2 = f1 + finding_of(SectionKind::Call, def.call_usage(), with);
    let f3 = f2 + finding_of(SectionKind::Hooks, usage_of(def.hooks), with);
    let f4 = f3 + finding_of(SectionKind::Event, usage_of(def.event), with);
    let f5 = f4 + finding_of(SectionKind::Error, usage_of(def.error), with);
    let f6 = f5 + finding_of(SectionKind::Inherent, usage_of(def.inherent), with);
    let f7 = f6 + finding_of(SectionKind::Origin, usage_of(def.origin), with);
    let f8 = f7 + finding_of(SectionKind::GenesisConfig, usage_of(def.genesis_config), with);
    let f9 = f8 + finding_of(SectionKind::GenesisBuild, usage_of(def.genesis_build), with);
    let f10 = f9 + finding_of(SectionKind::ExtraConstants, usage_of(def.extra_constants), with);
    assert(def.instance_findings() == f10);
    lemma_finding_of(SectionKind::Pallet, def.pallet_struct.instance, with, finding);
    lemma_storage_findings(def.storages, with, finding);
    lemma_contains_add(f0, storage_findings(def.storages, with), finding);
    lemma_finding_of(SectionKind::Call, def.call_usage(), with, finding);
    lemma_contains_add(f1, finding_of(SectionKind::Call, def.call_usage(), with), finding);
    lemma_finding_of(SectionKind::Hooks, usage_of(def.hooks), with, finding);
    lemma_contains_add(f2, finding_of(SectionKind::Hooks, usage_of(def.hooks), with), finding);
    lemma_finding_of(SectionKind::Event, usage_of(def.event), with, finding);
    lemma_contains_add(f3, finding_of(SectionKind::Event, usage_of(def.event), with), finding);
    lemma_finding_of(SectionKind::Error, usage_of(def.error), with, finding);
    lemma_contains_add(f4, finding_of(SectionKind::Error, usage_of(def.error), with), finding);
    lemma_finding_of(SectionKind::Inherent, usage_of(def.inherent), with, finding);
    lemma_contains_add(
        f5,
        finding_of(SectionKind::Inherent, usage_of(def.inherent), with),
        finding,
    );
    lemma_finding_of(SectionKind::Origin, usage_of(def.origin), with, finding);
    lemma_contains_add(f6, finding_of(SectionKind::Origin, usage_of(def.origin), with), finding);
    lemma_finding_of(SectionKind::GenesisConfig, usage_of(def.genesis_config), with, finding);
    lemma_contains_add(
        f7,
        finding_of(SectionKind::GenesisConfig, usage_of(def.genesis_config), with),
        finding,
    );
    lemma_finding_of(SectionKind::GenesisBuild, usage_of(def.genesis_build), with, finding);
    lemma_contains_add(
        f8,
        finding_of(SectionKind::GenesisBuild, usage_of(def.genesis_build), with),
        finding,
    );
    lemma_finding_of(SectionKind::ExtraConstants, usage_of(def.extra_constants), with, finding);
    lemma_contains_add(
        f9,
        finding_of(SectionKind::ExtraConstants, usage_of(def.extra_constants), with),
        finding,
    );
}

/// A definition passes its checks exactly if no section disagrees with
/// `Config` on the instance and the section `event` is there exactly if
/// `Config` declares the associated type `RuntimeEvent`. Where a section
/// disagrees, the failure names all that do.
pub proof fn law_checked(def: DefView)
    ensures
        def.checked() is Ok <==> (forall|section: SectionKind, span: Location|
            !def.disagrees(section, span)) && def.config.has_event_type == (def.event is Some),
        def.checked() is Ok ==> def.checked() == Ok::<DefView, DefErrorView>(def),
        (exists|section: SectionKind, span: Location| def.disagrees(section, span))
            ==> def.checked() == Err::<DefView, DefErrorView>(
            DefErrorView::InstanceUsageMismatch {
                with_instance: def.config.has_instance,
                findings: def.instance_findings(),
            },
        ),
{
    let findings = def.instance_findings();
    if findings.len() > 0 {
        let first = findings[0];
        assert(findings.contains(first));
        law_instance_findings(def, first.section, first.span);
        assert(def.disagrees(first.section, first.span));
    }
    assert forall|section: SectionKind, span: Location| def.disagrees(section, span) implies
        findings.len() > 0 by {
        law_instance_findings(def, section, span);
    }
}

/// What holds of the definition that a module compiles into: its items are
/// those of the module in their order, each without its mark; `config` and
/// `pallet` are marked in the module; and the definition is consistent.
pub proof fn law_definition(items: Seq<ItemView>, accepted: Seq<bool>, dev_mode: bool)
    requires
        compile(items, accepted, dev_mode) is Ok,
    ensures
        compile(items, accepted, dev_mode)->Ok_0.item == Seq::new(
            items.len(),
            |i: int| items[i].cleaned(),
        ),
        compile(items, accepted, dev_mode)->Ok_0.dev_mode == dev_mode,
        compile(items, accepted, dev_mode)->Ok_0.consistent(),
        has_marked(items, accepted, SectionKind::Config),
        has_marked(items, accepted, SectionKind::Pallet),
{
    lemma_scan_collects(items, accepted, dev_mode);
    let slots = scan(items, accepted, dev_mode)->Ok_0;
    let def = slots.assembled(dev_mode)->Ok_0;
    assert(slots.filled(SectionKind::Config));
    assert(slots.filled(SectionKind::Pallet));
    law_checked(def);
}

/// Whether two lists of answers agree on every item of the module whose
/// mark gives a weight.
pub open spec fn same_answers(items: Seq<ItemView>, first: Seq<bool>, second: Seq<bool>) -> bool {
    forall|i: int|
        0 <= i < items.len() ==> (#[trigger] items[i]).weight_type() is None || answer(first, i)
            == answer(second, i)
}

/// The answers made as long as the module, with refusals where none is given.
pub open spec fn filled_up(accepted: Seq<bool>, len: nat) -> Seq<bool> {
    Seq::new(len, |i: int| answer(accepted, i))
}

/// Only the answers for the items whose mark gives a weight matter: answers
/// that agree on these give the same.
pub proof fn law_answers(items: Seq<ItemView>, first: Seq<bool>, second: Seq<bool>, dev_mode: bool)
    requires
        same_answers(items, first, second),
    ensures
        scan(items, first, dev_mode) == scan(items, second, dev_mode),
        compile(items, first, dev_mode) == compile(items, second, dev_mode),
    decreases items.len(),
{
    if items.len() > 0 {
        let start = items.drop_last();
        let last = items.len() - 1;
        assert forall|i: int| 0 <= i < start.len() implies (#[trigger] start[i]).weight_type()
            is None || answer(first, i) == answer(second, i) by {
            assert(start[i] == items[i]);
        }
        law_answers(start, first, second, dev_mode);
        reveal(Slots::accept);
        assert(items[last] == items.last());
        if items.last().weight_type() is None {
            items.last().law_tag_without_weight();
        }
    }
}

/// Compiling is a function of the module, of the mode and of the answers of
/// the parser of types: two results that are what compiling the same module
/// gives, under answers that agree on every item whose mark gives a weight,
/// stand for the same definition or for the same failure. For a module none
/// of whose items gives a weight this holds of any two results.
pub proof fn law_deterministic(
    first: Result<Def, DefError>,
    second: Result<Def, DefError>,
    items: Seq<ItemView>,
    first_accepted: Seq<bool>,
    second_accepted: Seq<bool>,
    dev_mode: bool,
)
    requires
        def_view(first) == compile(items, first_accepted, dev_mode),
        def_view(second) == compile(items, second_accepted, dev_mode),
        same_answers(items, first_accepted, second_accepted),
    ensures
        def_view(first) == def_view(second),
{
    law_answers(items, first_accepted, second_accepted, dev_mode);
}

/// Compiling a module none of whose items gives a weight is a function of
/// the module and of the mode alone: any two results that are what compiling
/// it gives, whatever the answers of the parser of types, stand for the same
/// definition or for the same failure.
pub proof fn law_deterministic_without_weight(
    first: Result<Def, DefError>,
    second: Result<Def, DefError>,
    items: Seq<ItemView>,
    first_accepted: Seq<bool>,
    second_accepted: Seq<bool>,
    dev_mode: bool,
)
    requires
        without_weight(items),
        def_view(first) == compile(items, first_accepted, dev_mode),
        def_view(second) == compile(items, second_accepted, dev_mode),
    ensures
        def_view(first) == def_view(second),
{
    law_answers(items, first_accepted, second_accepted, dev_mode);
}

} // verus!
