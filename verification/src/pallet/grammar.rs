//! The grammar of the attributes that mark the items of a pallet module.
//!
//! An attribute is written `#[pallet::kind]`. Two kinds take arguments:
//! `#[pallet::config(with_default)]`, and `#[pallet::call(weight(Type))]` or
//! `#[pallet::call(weight = Type)]`. An attribute whose path does not start
//! with `pallet` is none of this grammar's business.
//!
//! The grammar is stated over the characters of the attribute. Blanks may
//! stand between any two tokens; `::` is one token. What is written as the
//! type of a weight is found by the parentheses around it, counted from the
//! end of the attribute, and whether it is a type is left to `syn`.

use vstd::prelude::*;
use vstd::string::StrSliceExecFns;
use vstd::string::StringExecFns;
use crate::pallet::attr::{
    Attribute, GrammarError, GrammarFault, InheritedCallWeightAttr, InheritedCallWeightAttrView,
    PalletAttr, PalletAttrView, SectionKind,
};
use crate::pallet::span::Location;
use crate::pallet::text::{
    chars_of, end_of_word, skip_space, skip_spaces, trim_space, trim_spaces, window_is, word_end,
};

verus! {

/// Asks `syn::parse_str` to read the whole text as a `syn::Type`, and tells
/// whether it did. Nothing is claimed of the answer: `syn` has the text cut
/// into tokens by `proc_macro2`, which takes the compiler's lexer inside a
/// procedural macro and its own elsewhere, and the two do not agree on every
/// text, so that one text may be answered differently at different times.
/// `proc_macro2` documents that some texts may make it panic, without
/// naming them; in the version in use its own lexer holds no panic, and it
/// catches a panic of the compiler's lexer.
#[verifier::external_body]
fn parses_as_type(text: &str) -> (accepted: bool) {
    syn::parse_str::<syn::Type>(text).is_ok()
}

/// Where the reading of an attribute stops, and for which fault.
#[derive(Clone, Copy, PartialEq, Eq, Structural, Debug)]
pub struct Stop {
    pub fault: GrammarFault,
    /// The place in the text of the attribute, counted in characters.
    pub at: usize,
}

/// The reading stops at the place `at` for the fault `fault`.
pub open spec fn stop(fault: GrammarFault, at: int) -> Stop {
    Stop { fault, at: at as usize }
}

/// How an attribute under `pallet` starts.
pub struct Head {
    /// Whether `!` stands behind `#`: the attribute is written for what it
    /// stands in, not for what follows it.
    pub inner: bool,
    /// Whether `::` stands before `pallet`.
    pub global: bool,
    /// Where `!` stands, if it is written.
    pub bang: int,
    /// Where the path starts.
    pub path: int,
    /// Where the word `pallet` ends.
    pub end: int,
}

/// The start of an attribute whose path starts with `pallet`: `#`, `[` and
/// the word `pallet`, with `!` before the bracket or `::` before the word
/// where they are written.
pub open spec fn head(s: Seq<char>) -> Option<Head> {
    let len = s.len() as int;
    let hash = skip_space(s, 0, len);
    let bang = skip_space(s, hash + 1, len);
    let inner = bang < len && s[bang] == '!';
    let open = if inner {
        skip_space(s, bang + 1, len)
    } else {
        bang
    };
    let path = skip_space(s, open + 1, len);
    let global = path + 2 <= len && s[path] == ':' && s[path + 1] == ':';
    let word = if global {
        skip_space(s, path + 2, len)
    } else {
        path
    };
    let end = word_end(s, word, len);
    if hash < len && s[hash] == '#' && open < len && s[open] == '[' && s.subrange(word, end)
        == "pallet"@ {
        Some(Head { inner, global, bang, path, end })
    } else {
        None
    }
}

/// Where the word `pallet` ends that the path of an attribute starts with,
/// if it starts with it.
pub open spec fn namespace_end(s: Seq<char>) -> Option<int> {
    match head(s) {
        Some(head) => Some(head.end),
        None => None,
    }
}

/// Whether an attribute is one under `pallet`.
pub open spec fn in_namespace(s: Seq<char>) -> bool {
    namespace_end(s) is Some
}

/// The section that a word behind `pallet::` names.
pub open spec fn keyword_kind(word: Seq<char>) -> Option<SectionKind> {
    if word == "config"@ {
        Some(SectionKind::Config)
    } else if word == "pallet"@ {
        Some(SectionKind::Pallet)
    } else if word == "hooks"@ {
        Some(SectionKind::Hooks)
    } else if word == "call"@ {
        Some(SectionKind::Call)
    } else if word == "error"@ {
        Some(SectionKind::Error)
    } else if word == "event"@ {
        Some(SectionKind::Event)
    } else if word == "origin"@ {
        Some(SectionKind::Origin)
    } else if word == "inherent"@ {
        Some(SectionKind::Inherent)
    } else if word == "storage"@ {
        Some(SectionKind::Storage)
    } else if word == "genesis_config"@ {
        Some(SectionKind::GenesisConfig)
    } else if word == "genesis_build"@ {
        Some(SectionKind::GenesisBuild)
    } else if word == "validate_unsigned"@ {
        Some(SectionKind::ValidateUnsigned)
    } else if word == "type_value"@ {
        Some(SectionKind::TypeValue)
    } else if word == "extra_constants"@ {
        Some(SectionKind::ExtraConstants)
    } else if word == "composite_enum"@ {
        Some(SectionKind::Composite)
    } else {
        None
    }
}

/// The window `from..to` without the blanks at its two ends.
pub open spec fn trimmed(s: Seq<char>, from: int, to: int) -> (int, int) {
    let start = skip_space(s, from, to);
    (start, trim_space(s, start, to))
}

/// The arguments of `config`, which stand in the window `from..to` and start
/// at `from` if there are any: whether `with_default` is given.
pub open spec fn config_arguments(s: Seq<char>, from: int, to: int) -> Result<bool, Stop> {
    if from >= to {
        Ok(false)
    } else if s[from] != '(' {
        Err(stop(GrammarFault::UnexpectedToken, from))
    } else {
        let word = skip_space(s, from + 1, to);
        let end = word_end(s, word, to);
        let close = skip_space(s, end, to);
        if s.subrange(word, end) != "with_default"@ {
            Err(stop(GrammarFault::ExpectedWithDefault, word))
        } else if !(close < to && s[close] == ')') {
            Err(stop(GrammarFault::UnexpectedToken, close))
        } else if skip_space(s, close + 1, to) != to {
            Err(stop(GrammarFault::UnexpectedToken, skip_space(s, close + 1, to)))
        } else {
            Ok(true)
        }
    }
}

/// The arguments of `call`, which fill the window `from..to` and start at
/// `from`: the window of the type that is given as the weight, in one of the
/// forms `(weight(Type))` and `(weight = Type)`.
pub open spec fn weight_window(
    s: Seq<char>,
    from: int,
    to: int,
) -> Result<(int, int), Stop> {
    let end = trim_space(s, from + 1, to);
    let close = end - 1;
    let word = skip_space(s, from + 1, close);
    let word_to = word_end(s, word, close);
    let value = skip_space(s, word_to, close);
    let inner_end = trim_space(s, value + 1, close);
    if !(from < to && s[from] == '(') {
        Err(stop(GrammarFault::ExpectedParenthesis, from))
    } else if !(from + 1 < end && s[close] == ')') {
        Err(stop(GrammarFault::ExpectedParenthesis, end))
    } else if s.subrange(word, word_to) != "weight"@ {
        Err(stop(GrammarFault::ExpectedWeight, word))
    } else if value < close && s[value] == '(' {
        if value + 1 < inner_end && s[inner_end - 1] == ')' {
            Ok(trimmed(s, value + 1, inner_end - 1))
        } else {
            Err(stop(GrammarFault::UnexpectedToken, inner_end))
        }
    } else if value < close && s[value] == '=' {
        Ok(trimmed(s, value + 1, close))
    } else {
        Err(stop(GrammarFault::ExpectedWeightValue, value))
    }
}

/// What an attribute under `pallet` is made of, before the type of a weight
/// is looked at.
pub struct Outline {
    pub kind: SectionKind,
    pub with_default: bool,
    /// The window of the type that `call` gives as the weight.
    pub weight: Option<(int, int)>,
}

/// The outline of an attribute under `pallet`, whose word `pallet` ends at
/// `start`.
pub open spec fn outline_from(s: Seq<char>, start: int) -> Result<Outline, Stop> {
    let end = trim_space(s, start, s.len() as int);
    let close = end - 1;
    let colons = skip_space(s, start, close);
    let word = skip_space(s, colons + 2, close);
    let word_to = word_end(s, word, close);
    let rest = skip_space(s, word_to, close);
    if !(start < end && s[close] == ']') {
        Err(stop(GrammarFault::Unterminated, end))
    } else if !(colons + 2 <= close && s[colons] == ':' && s[colons + 1] == ':') {
        Err(stop(GrammarFault::ExpectedPathSeparator, colons))
    } else {
        match keyword_kind(s.subrange(word, word_to)) {
            None => Err(stop(GrammarFault::UnrecognizedKind, word)),
            Some(SectionKind::Config) => match config_arguments(s, rest, close) {
                Ok(with_default) => Ok(
                    Outline { kind: SectionKind::Config, with_default, weight: None },
                ),
                Err(fault) => Err(fault),
            },
            Some(SectionKind::Call) => if rest >= close {
                Ok(Outline { kind: SectionKind::Call, with_default: false, weight: None })
            } else {
                match weight_window(s, rest, close) {
                    Ok(window) => Ok(
                        Outline {
                            kind: SectionKind::Call,
                            with_default: false,
                            weight: Some(window),
                        },
                    ),
                    Err(fault) => Err(fault),
                }
            },
            Some(kind) => if rest >= close {
                Ok(Outline { kind, with_default: false, weight: None })
            } else {
                Err(stop(GrammarFault::UnexpectedToken, rest))
            },
        }
    }
}

/// The outline of an attribute: none where it is not under `pallet`. An
/// attribute under `pallet` must be written for the item that follows it,
/// and its path must start with `pallet` itself.
pub open spec fn outline(s: Seq<char>) -> Option<Result<Outline, Stop>> {
    match head(s) {
        None => None,
        Some(head) => Some(
            if head.inner {
                Err(stop(GrammarFault::ExpectedBracket, head.bang))
            } else if head.global {
                Err(stop(GrammarFault::ExpectedNamespace, head.path))
            } else {
                outline_from(s, head.end)
            },
        ),
    }
}

/// The type that the arguments `(weight(Type))` or `(weight = Type)` give,
/// if they are written in one of these forms.
pub open spec fn weight_type(s: Seq<char>) -> Result<Seq<char>, Stop> {
    match weight_type_window(s) {
        Ok((a, b)) => Ok(s.subrange(a, b)),
        Err(stop) => Err(stop),
    }
}

/// The window of the type that the arguments `(weight(Type))` or
/// `(weight = Type)` give.
pub open spec fn weight_type_window(s: Seq<char>) -> Result<(int, int), Stop> {
    let (from, to) = trimmed(s, 0, s.len() as int);
    weight_window(s, from, to)
}

/// The malformed attribute that stands at `span`, and where and why the
/// reading of it stops.
pub open spec fn malformed(span: Location, stop: Stop) -> GrammarError {
    GrammarError { span, offset: stop.at, fault: stop.fault }
}

/// What the arguments of `call` stand for, given whether the type that they
/// give is written as a type.
pub open spec fn weight_attr_given(
    s: Seq<char>,
    span: Location,
    accepted: bool,
) -> Result<InheritedCallWeightAttrView, GrammarError> {
    match weight_type_window(s) {
        Ok((a, b)) => if accepted {
            Ok(InheritedCallWeightAttrView { typename: s.subrange(a, b), span })
        } else {
            Err(malformed(span, stop(GrammarFault::InvalidType, a)))
        },
        Err(stop) => Err(malformed(span, stop)),
    }
}

/// The type that an attribute gives as the weight of `call`, if it is
/// `#[pallet::call(..)]` with arguments in one of the two forms.
pub open spec fn given_weight_type(s: Seq<char>) -> Option<Seq<char>> {
    match given_weight_window(s) {
        Some((a, b)) => Some(s.subrange(a, b)),
        None => None,
    }
}

/// Where the type starts that an attribute gives as the weight of `call`.
pub open spec fn given_weight_start(s: Seq<char>) -> int {
    match given_weight_window(s) {
        Some((a, _)) => a,
        None => 0,
    }
}

/// The window of the type that an attribute gives as the weight of `call`.
pub open spec fn given_weight_window(s: Seq<char>) -> Option<(int, int)> {
    match outline(s) {
        Some(Ok(outline)) => outline.weight,
        _ => None,
    }
}

/// What an attribute stands for, given whether the weight of `call`, where
/// one is written, is written as a type: nothing where the attribute is not
/// under `pallet`, else the section it marks or what is wrong with it.
#[verifier::opaque]
pub open spec fn tag_given(s: Seq<char>, span: Location, accepted: bool) -> Result<
    Option<PalletAttrView>,
    GrammarError,
> {
    match outline(s) {
        None => Ok(None),
        Some(outline) => match outline {
            Err(stop) => Err(malformed(span, stop)),
            Ok(outline) => match outline.weight {
                None => Ok(
                    Some(
                        PalletAttrView {
                            kind: outline.kind,
                            span,
                            with_default: outline.with_default,
                            weight: None,
                        },
                    ),
                ),
                Some((a, b)) => if accepted {
                    Ok(
                        Some(
                            PalletAttrView {
                                kind: SectionKind::Call,
                                span,
                                with_default: false,
                                weight: Some(
                                    InheritedCallWeightAttrView {
                                        typename: s.subrange(a, b),
                                        span,
                                    },
                                ),
                            },
                        ),
                    )
                } else {
                    Err(malformed(span, stop(GrammarFault::InvalidType, a)))
                },
            },
        },
    }
}

/// An attribute stands for nothing exactly if it is not under `pallet`: one
/// that is under `pallet` marks a section or is malformed.
pub proof fn lemma_tag_namespace(s: Seq<char>, span: Location, accepted: bool)
    ensures
        tag_given(s, span, accepted) == Ok::<Option<PalletAttrView>, GrammarError>(None)
            <==> !in_namespace(s),
{
    reveal(tag_given);
}

/// What an attribute stands for stands where the attribute stands. Only
/// `config` is written with `with_default`, and only `call` with a weight,
/// which is then the type that the attribute gives and has been accepted as
/// a type.
pub proof fn law_tag(s: Seq<char>, span: Location, accepted: bool)
    ensures
        match tag_given(s, span, accepted) {
            Ok(Some(tag)) => {
                &&& in_namespace(s)
                &&& tag.span == span
                &&& tag.with_default ==> tag.kind == SectionKind::Config
                &&& tag.weight matches Some(weight) ==> tag.kind == SectionKind::Call && weight.span
                    == span && given_weight_type(s) == Some(weight.typename) && accepted
            },
            Ok(None) => !in_namespace(s),
            Err(error) => in_namespace(s) && error.span == span,
        },
{
    reveal(tag_given);
}

/// Whether the weight of `call` is accepted as a type matters only where a
/// weight is written.
pub proof fn law_tag_without_weight(s: Seq<char>, span: Location)
    requires
        given_weight_type(s) is None,
    ensures
        tag_given(s, span, true) == tag_given(s, span, false),
{
    reveal(tag_given);
}

/// Where a weight is written, the attribute marks `call` with that weight if
/// the weight is accepted as a type, and is malformed if it is not.
pub proof fn law_tag_with_weight(s: Seq<char>, span: Location)
    requires
        given_weight_type(s) is Some,
    ensures
        tag_given(s, span, true) == Ok::<Option<PalletAttrView>, GrammarError>(
            Some(
                PalletAttrView {
                    kind: SectionKind::Call,
                    span,
                    with_default: false,
                    weight: Some(
                        InheritedCallWeightAttrView { typename: given_weight_type(s)->0, span },
                    ),
                },
            ),
        ),
        tag_given(s, span, false) == Err::<Option<PalletAttrView>, GrammarError>(
            malformed(span, stop(GrammarFault::InvalidType, given_weight_start(s))),
        ),
{
    reveal(tag_given);
}

/// The model of what reading an attribute gives.
pub open spec fn tag_view(tag: Result<Option<PalletAttr>, GrammarError>) -> Result<
    Option<PalletAttrView>,
    GrammarError,
> {
    match tag {
        Ok(Some(attr)) => Ok(Some(attr@)),
        Ok(None) => Ok(None),
        Err(error) => Err(error),
    }
}

/// The model of what reading the arguments of `call` gives.
pub open spec fn weight_view(weight: Result<InheritedCallWeightAttr, GrammarError>) -> Result<
    InheritedCallWeightAttrView,
    GrammarError,
> {
    match weight {
        Ok(attr) => Ok(attr@),
        Err(error) => Err(error),
    }
}


/// The start of an attribute as the scanner holds it.
struct Start {
    inner: bool,
    global: bool,
    bang: usize,
    path: usize,
    end: usize,
}

fn head_of(chars: &Vec<char>) -> (start: Option<Start>)
    ensures
        match start {
            Some(start) => head(chars@) == Some(
                Head {
                    inner: start.inner,
                    global: start.global,
                    bang: start.bang as int,
                    path: start.path as int,
                    end: start.end as int,
                },
            ) && start.end <= chars.len(),
            None => head(chars@) is None,
        },
{
    let len = chars.len();
    let hash = skip_spaces(chars, 0, len);
    if !(hash < len && chars[hash] == '#') {
        return None;
    }
    let bang = skip_spaces(chars, hash + 1, len);
    let inner = bang < len && chars[bang] == '!';
    let open = if inner {
        skip_spaces(chars, bang + 1, len)
    } else {
        bang
    };
    if !(open < len && chars[open] == '[') {
        return None;
    }
    let path = skip_spaces(chars, open + 1, len);
    let global = len - path >= 2 && chars[path] == ':' && chars[path + 1] == ':';
    let word = if global {
        skip_spaces(chars, path + 2, len)
    } else {
        path
    };
    let end = end_of_word(chars, word, len);
    if window_is(chars, word, end, "pallet") {
        Some(Start { inner, global, bang, path, end })
    } else {
        None
    }
}

fn kind_of_keyword(chars: &Vec<char>, from: usize, to: usize) -> (kind: Option<SectionKind>)
    requires
        from <= to <= chars.len(),
    ensures
        kind == keyword_kind(chars@.subrange(from as int, to as int)),
{
    if window_is(chars, from, to, "config") {
        Some(SectionKind::Config)
    } else if window_is(chars, from, to, "pallet") {
        Some(SectionKind::Pallet)
    } else if window_is(chars, from, to, "hooks") {
        Some(SectionKind::Hooks)
    } else if window_is(chars, from, to, "call") {
        Some(SectionKind::Call)
    } else if window_is(chars, from, to, "error") {
        Some(SectionKind::Error)
    } else if window_is(chars, from, to, "event") {
        Some(SectionKind::Event)
    } else if window_is(chars, from, to, "origin") {
        Some(SectionKind::Origin)
    } else if window_is(chars, from, to, "inherent") {
        Some(SectionKind::Inherent)
    } else if window_is(chars, from, to, "storage") {
        Some(SectionKind::Storage)
    } else if window_is(chars, from, to, "genesis_config") {
        Some(SectionKind::GenesisConfig)
    } else if window_is(chars, from, to, "genesis_build") {
        Some(SectionKind::GenesisBuild)
    } else if window_is(chars, from, to, "validate_unsigned") {
        Some(SectionKind::ValidateUnsigned)
    } else if window_is(chars, from, to, "type_value") {
        Some(SectionKind::TypeValue)
    } else if window_is(chars, from, to, "extra_constants") {
        Some(SectionKind::ExtraConstants)
    } else if window_is(chars, from, to, "composite_enum") {
        Some(SectionKind::Composite)
    } else {
        None
    }
}

fn arguments_of_config(chars: &Vec<char>, from: usize, to: usize) -> (with_default: Result<
    bool,
    Stop,
>)
    requires
        from <= to <= chars.len(),
    ensures
        with_default == config_arguments(chars@, from as int, to as int),
{
    if from >= to {
        return Ok(false);
    }
    if chars[from] != '(' {
        return Err(Stop { fault: GrammarFault::UnexpectedToken, at: from });
    }
    let word = skip_spaces(chars, from + 1, to);
    let end = end_of_word(chars, word, to);
    let close = skip_spaces(chars, end, to);
    if !window_is(chars, word, end, "with_default") {
        Err(Stop { fault: GrammarFault::ExpectedWithDefault, at: word })
    } else if !(close < to && chars[close] == ')') {
        Err(Stop { fault: GrammarFault::UnexpectedToken, at: close })
    } else {
        let rest = skip_spaces(chars, close + 1, to);
        if rest != to {
            Err(Stop { fault: GrammarFault::UnexpectedToken, at: rest })
        } else {
            Ok(true)
        }
    }
}

fn trimmed_window(chars: &Vec<char>, from: usize, to: usize) -> (window: (usize, usize))
    requires
        from <= to <= chars.len(),
    ensures
        trimmed(chars@, from as int, to as int) == (window.0 as int, window.1 as int),
        from <= window.0 <= window.1 <= to,
{
    let start = skip_spaces(chars, from, to);
    (start, trim_spaces(chars, start, to))
}

fn window_of_weight(chars: &Vec<char>, from: usize, to: usize) -> (window: Result<
    (usize, usize),
    Stop,
>)
    requires
        from <= to <= chars.len(),
    ensures
        match window {
            Ok((a, b)) => weight_window(chars@, from as int, to as int) == Ok::<
                (int, int),
                Stop,
            >((a as int, b as int)) && from <= a <= b <= to,
            Err(fault) => weight_window(chars@, from as int, to as int) == Err::<
                (int, int),
                Stop,
            >(fault),
        },
{
    if !(from < to && chars[from] == '(') {
        return Err(Stop { fault: GrammarFault::ExpectedParenthesis, at: from });
    }
    let end = trim_spaces(chars, from + 1, to);
    if !(from + 1 < end && chars[end - 1] == ')') {
        return Err(Stop { fault: GrammarFault::ExpectedParenthesis, at: end });
    }
    let close = end - 1;
    let word = skip_spaces(chars, from + 1, close);
    let word_to = end_of_word(chars, word, close);
    if !window_is(chars, word, word_to, "weight") {
        return Err(Stop { fault: GrammarFault::ExpectedWeight, at: word });
    }
    let value = skip_spaces(chars, word_to, close);
    if value < close && chars[value] == '(' {
        let inner_end = trim_spaces(chars, value + 1, close);
        if value + 1 < inner_end && chars[inner_end - 1] == ')' {
            Ok(trimmed_window(chars, value + 1, inner_end - 1))
        } else {
            Err(Stop { fault: GrammarFault::UnexpectedToken, at: inner_end })
        }
    } else if value < close && chars[value] == '=' {
        Ok(trimmed_window(chars, value + 1, close))
    } else {
        Err(Stop { fault: GrammarFault::ExpectedWeightValue, at: value })
    }
}

/// The outline of an attribute as the scanner holds it: the section, whether
/// `with_default` is given, and the window of the weight's type.
struct Scanned {
    kind: SectionKind,
    with_default: bool,
    weight: Option<(usize, usize)>,
}

impl Scanned {
    spec fn outline(self) -> Outline {
        Outline {
            kind: self.kind,
            with_default: self.with_default,
            weight: match self.weight {
                Some((a, b)) => Some((a as int, b as int)),
                None => None,
            },
        }
    }
}

fn scan_from(chars: &Vec<char>, start: usize) -> (scanned: Result<Scanned, Stop>)
    requires
        start <= chars.len(),
    ensures
        match scanned {
            Ok(found) => outline_from(chars@, start as int) == Ok::<Outline, Stop>(
                found.outline(),
            ) && (found.weight matches Some((a, b)) ==> a <= b <= chars.len()),
            Err(fault) => outline_from(chars@, start as int) == Err::<Outline, Stop>(fault),
        },
{
    let end = trim_spaces(chars, start, chars.len());
    if !(start < end && chars[end - 1] == ']') {
        return Err(Stop { fault: GrammarFault::Unterminated, at: end });
    }
    let close = end - 1;
    let colons = skip_spaces(chars, start, close);
    if !(close - colons >= 2 && chars[colons] == ':' && chars[colons + 1] == ':') {
        return Err(Stop { fault: GrammarFault::ExpectedPathSeparator, at: colons });
    }
    let word = skip_spaces(chars, colons + 2, close);
    let word_to = end_of_word(chars, word, close);
    let rest = skip_spaces(chars, word_to, close);
    match kind_of_keyword(chars, word, word_to) {
        None => Err(Stop { fault: GrammarFault::UnrecognizedKind, at: word }),
        Some(SectionKind::Config) => match arguments_of_config(chars, rest, close) {
            Ok(with_default) => Ok(
                Scanned { kind: SectionKind::Config, with_default, weight: None },
            ),
            Err(fault) => Err(fault),
        },
        Some(SectionKind::Call) => if rest >= close {
            Ok(Scanned { kind: SectionKind::Call, with_default: false, weight: None })
        } else {
            match window_of_weight(chars, rest, close) {
                Ok(window) => Ok(
                    Scanned { kind: SectionKind::Call, with_default: false, weight: Some(window) },
                ),
                Err(fault) => Err(fault),
            }
        },
        Some(kind) => if rest >= close {
            Ok(Scanned { kind, with_default: false, weight: None })
        } else {
            Err(Stop { fault: GrammarFault::UnexpectedToken, at: rest })
        },
    }
}

/// The attribute of a section that takes no weight.
fn attr_without_weight(kind: SectionKind, span: Location, with_default: bool) -> (attr: PalletAttr)
    requires
        with_default ==> kind == SectionKind::Config,
    ensures
        attr@ == (PalletAttrView { kind, span, with_default, weight: None }),
{
    match kind {
        SectionKind::Config => PalletAttr::Config(span, with_default),
        SectionKind::Pallet => PalletAttr::Pallet(span),
        SectionKind::Hooks => PalletAttr::Hooks(span),
        SectionKind::Call => PalletAttr::RuntimeCall(None, span),
        SectionKind::Error => PalletAttr::Error(span),
        SectionKind::Event => PalletAttr::RuntimeEvent(span),
        SectionKind::Origin => PalletAttr::RuntimeOrigin(span),
        SectionKind::Inherent => PalletAttr::Inherent(span),
        SectionKind::Storage => PalletAttr::Storage(span),
        SectionKind::GenesisConfig => PalletAttr::GenesisConfig(span),
        SectionKind::GenesisBuild => PalletAttr::GenesisBuild(span),
        SectionKind::ValidateUnsigned => PalletAttr::ValidateUnsigned(span),
        SectionKind::TypeValue => PalletAttr::TypeValue(span),
        SectionKind::ExtraConstants => PalletAttr::ExtraConstants(span),
        SectionKind::Composite => PalletAttr::Composite(span),
    }
}

impl InheritedCallWeightAttr {
    /// The weight annotation that gives `typename`, once it is known whether
    /// `typename` is written as a type. `offset` is where `typename` stands
    /// in the attribute.
    pub fn checked(typename: &str, span: Location, offset: usize, accepted: bool) -> (weight:
        Result<Self, GrammarError>)
        ensures
            weight_view(weight) == if accepted {
                Ok::<InheritedCallWeightAttrView, GrammarError>(
                    InheritedCallWeightAttrView { typename: typename@, span },
                )
            } else {
                Err::<InheritedCallWeightAttrView, GrammarError>(
                    GrammarError { span, offset, fault: GrammarFault::InvalidType },
                )
            },
    {
        if accepted {
            Ok(InheritedCallWeightAttr { typename: String::from_str(typename), span })
        } else {
            Err(GrammarError { span, offset, fault: GrammarFault::InvalidType })
        }
    }

    /// Parses `(weight($type))` or `(weight = $type)`. Whether `$type` is a
    /// type is asked of `syn`, and the arguments are read as that answer
    /// says; it is not asked where the arguments are in neither form.
    pub fn parse(text: &str, span: Location) -> (weight: Result<Self, GrammarError>)
        ensures
            weight_view(weight) == weight_attr_given(text@, span, true) || weight_view(weight)
                == weight_attr_given(text@, span, false),
            weight_type_window(text@) is Err ==> weight_view(weight) == weight_attr_given(
                text@,
                span,
                false,
            ),
    {
        let chars = chars_of(text);
        let (from, to) = trimmed_window(&chars, 0, chars.len());
        match window_of_weight(&chars, from, to) {
            Ok((a, b)) => {
                let typename = text.substring_char(a, b);
                Self::checked(typename, span, a, parses_as_type(typename))
            },
            Err(stop) => Err(GrammarError { span, offset: stop.at, fault: stop.fault }),
        }
    }
}

/// Scans an attribute: nothing where it is not under `pallet`, else its
/// outline or what is wrong with it.
fn scan(text: &str) -> (scanned: Result<Option<Scanned>, Stop>)
    ensures
        match scanned {
            Ok(None) => outline(text@) is None,
            Ok(Some(found)) => outline(text@) == Some(
                Ok::<Outline, Stop>(found.outline()),
            ) && (found.weight matches Some((a, b)) ==> a <= b <= text@.len()),
            Err(fault) => outline(text@) == Some(Err::<Outline, Stop>(fault)),
        },
{
    let chars = chars_of(text);
    match head_of(&chars) {
        None => Ok(None),
        Some(start) => {
            if start.inner {
                Err(Stop { fault: GrammarFault::ExpectedBracket, at: start.bang })
            } else if start.global {
                Err(Stop { fault: GrammarFault::ExpectedNamespace, at: start.path })
            } else {
                match scan_from(&chars, start.end) {
                    Ok(found) => Ok(Some(found)),
                    Err(fault) => Err(fault),
                }
            }
        },
    }
}

/// The attribute that an outline stands for, given whether the weight of
/// `call`, where one is written, is written as a type.
fn attr_of_outline(text: &str, span: Location, found: Scanned, accepted: bool) -> (tag: Result<
    Option<PalletAttr>,
    GrammarError,
>)
    requires
        outline(text@) == Some(Ok::<Outline, Stop>(found.outline())),
        found.weight matches Some((a, b)) ==> a <= b <= text@.len(),
    ensures
        tag_view(tag) == tag_given(text@, span, accepted),
{
    reveal(tag_given);
    match found.weight {
        None => {
            // No outline has `with_default` on another section than `config`.
            assert(found.with_default ==> found.kind == SectionKind::Config);
            Ok(Some(attr_without_weight(found.kind, span, found.with_default)))
        },
        Some((a, b)) => {
            match InheritedCallWeightAttr::checked(text.substring_char(a, b), span, a, accepted) {
                Ok(weight) => Ok(Some(PalletAttr::RuntimeCall(Some(weight), span))),
                Err(error) => Err(error),
            }
        },
    }
}

impl PalletAttr {
    /// Whether an attribute is one under `pallet`.
    pub fn is_pallet_attr(attr: &Attribute) -> (under: bool)
        ensures
            under == in_namespace(attr@.text),
    {
        let chars = chars_of(attr.text.as_str());
        head_of(&chars).is_some()
    }

    /// What an attribute stands for, given whether the weight of `call`,
    /// where one is written, is written as a type.
    pub fn parse_given(attr: &Attribute, accepted: bool) -> (tag: Result<
        Option<PalletAttr>,
        GrammarError,
    >)
        ensures
            tag_view(tag) == tag_given(attr@.text, attr@.span, accepted),
    {
        let text = attr.text.as_str();
        proof {
            reveal(tag_given);
        }
        match scan(text) {
            Ok(None) => Ok(None),
            Ok(Some(found)) => attr_of_outline(text, attr.span, found, accepted),
            Err(stop) => Err(
                GrammarError { span: attr.span, offset: stop.at, fault: stop.fault },
            ),
        }
    }

    /// What an attribute stands for: nothing where it is not under `pallet`,
    /// else the section that it marks, or what is wrong with it. Where the
    /// attribute gives a weight, `syn` is asked whether it is a type, and the
    /// attribute is read as that answer says.
    pub fn parse(attr: &Attribute) -> (tag: Result<Option<PalletAttr>, GrammarError>)
        ensures
            tag_view(tag) == tag_given(attr@.text, attr@.span, true) || tag_view(tag) == tag_given(
                attr@.text,
                attr@.span,
                false,
            ),
            given_weight_type(attr@.text) is None ==> tag_view(tag) == tag_given(
                attr@.text,
                attr@.span,
                false,
            ),
    {
        let text = attr.text.as_str();
        proof {
            reveal(tag_given);
        }
        match scan(text) {
            Ok(None) => Ok(None),
            Ok(Some(found)) => {
                let accepted = match found.weight {
                    Some((a, b)) => parses_as_type(text.substring_char(a, b)),
                    None => false,
                };
                attr_of_outline(text, attr.span, found, accepted)
            },
            Err(stop) => Err(
                GrammarError { span: attr.span, offset: stop.at, fault: stop.fault },
            ),
        }
    }
}

} // verus!
