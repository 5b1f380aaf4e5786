//! Reading the options out of attributes.
//!
//! An option is a name, alone or with a literal: `clone`, `clone = false`,
//! `reference = "'a, 'b"`. The options of one scope are collected from all
//! its attributes of one name. Reading stops at the first problem of the
//! scope, which is returned.

use crate::diagnostic::{problem, Diagnostic, DiagnosticView, ErrorKind};
use crate::model::{AttributeView, LitKindView, LitView, MetaView, NestedMetaView};
use crate::syntax::{Attribute, Lit, LitKind, Meta, NestedMeta, Path, Span};
use crate::text::same;
use vstd::prelude::*;
use vstd::string::StringExecFns;

verus! {

/// What can be wrong with the options of a scope.
#[derive(Debug, PartialEq, Eq)]
pub enum Error<'a> {
    /// What stands between the brackets is no list of items; the parser's
    /// message is carried along.
    MetaParseError(String),
    /// The same option stands twice.
    DuplicateFeature,
    /// An attribute that is no list, or an item that is neither a name nor
    /// a name with a literal.
    UnsupportedAttributeType,
    /// An option that nobody asked for.
    UnknownFeature,
    /// The name of an option is no plain identifier.
    UnsupportedPath,
    /// The literal is of another kind than the one named here.
    ExpectedLiteral(&'a str),
    /// The option needs a literal of the kind named here.
    MissingLiteral(&'a str),
}

impl Error<'_> {
    /// The message for this problem.
    pub open spec fn text(self) -> Seq<char> {
        match self {
            Error::MetaParseError(e) => "meta parse error: "@ + e@,
            Error::DuplicateFeature => "duplicate feature"@,
            Error::UnsupportedAttributeType => "unsupported attribute type"@,
            Error::UnknownFeature => "unknown feature"@,
            Error::UnsupportedPath => "unsupported path"@,
            Error::ExpectedLiteral(p) => "expected literal: "@ + p@ + " (or no literal)"@,
            Error::MissingLiteral(p) => "missing literal: "@ + p@,
        }
    }

    /// The kind of diagnostic that this problem is reported as.
    pub open spec fn spec_kind(self) -> ErrorKind {
        match self {
            Error::DuplicateFeature => ErrorKind::DuplicateOption,
            Error::UnknownFeature => ErrorKind::UnknownOption,
            _ => ErrorKind::MalformedValue,
        }
    }

    /// What is reported of this problem at the place `span`.
    pub open spec fn report(self, span: Span) -> DiagnosticView {
        problem(span, self.spec_kind(), self.text())
    }

    /// The kind of diagnostic that this problem is reported as.
    pub fn kind(&self) -> (kind: ErrorKind)
        ensures
            kind == self.spec_kind(),
    {
        match self {
            Error::DuplicateFeature => ErrorKind::DuplicateOption,
            Error::UnknownFeature => ErrorKind::UnknownOption,
            _ => ErrorKind::MalformedValue,
        }
    }

    /// Writes the message for this problem.
    pub fn message(&self) -> (message: String)
        ensures
            message@ == self.text(),
    {
        match self {
            Error::MetaParseError(e) => {
                let mut message = String::from_str("meta parse error: ");
                message.append(e.as_str());
                message
            },
            Error::DuplicateFeature => String::from_str("duplicate feature"),
            Error::UnsupportedAttributeType => String::from_str("unsupported attribute type"),
            Error::UnknownFeature => String::from_str("unknown feature"),
            Error::UnsupportedPath => String::from_str("unsupported path"),
            Error::ExpectedLiteral(p) => {
                let mut message = String::from_str("expected literal: ");
                message.append(p);
                message.append(" (or no literal)");
                message
            },
            Error::MissingLiteral(p) => {
                let mut message = String::from_str("missing literal: ");
                message.append(p);
                message
            },
        }
    }

    /// Reports this problem at the place `span`.
    pub fn at(&self, span: Span) -> (d: Diagnostic)
        ensures
            d@ == self.report(span),
    {
        Diagnostic { span, kind: self.kind(), message: self.message() }
    }
}

/// What stands for one option: its place, and its literal if it has one.
#[derive(Debug, PartialEq, Eq)]
pub struct Param {
    pub span: Span,
    pub lit: Option<Lit>,
}

/// The mathematical content of a [`Param`].
pub struct ParamView {
    pub span: Span,
    pub lit: Option<LitView>,
}

impl View for Param {
    type V = ParamView;

    open spec fn view(&self) -> ParamView {
        ParamView { span: self.span, lit: self.lit.deep_view() }
    }
}

/// One option with its name.
#[derive(Debug, PartialEq, Eq)]
pub struct Entry {
    pub name: String,
    pub param: Param,
}

/// The mathematical content of an [`Entry`].
pub struct EntryView {
    pub name: Seq<char>,
    pub param: ParamView,
}

impl View for Entry {
    type V = EntryView;

    open spec fn view(&self) -> EntryView {
        EntryView { name: self.name@, param: self.param@ }
    }
}

impl DeepView for Entry {
    type V = EntryView;

    open spec fn deep_view(&self) -> EntryView {
        self@
    }
}

/// The options of one scope that have not been asked for yet, in the order
/// in which they were written. No name occurs twice.
///
/// They are kept in a list and not in a hash map. What a hash map with keys
/// of type `String` holds is not known to the verifier, and which of several
/// options that nobody asked for is reported would be up to the order in
/// which the map is walked.
#[derive(Debug, PartialEq, Eq)]
pub struct Features(Vec<Entry>);

impl View for Features {
    type V = Seq<EntryView>;

    closed spec fn view(&self) -> Seq<EntryView> {
        self.0.deep_view()
    }
}

/// The index of the first entry named `name`.
pub open spec fn position(entries: Seq<EntryView>, name: Seq<char>) -> Option<int>
    decreases entries.len(),
{
    if entries.len() == 0 {
        None
    } else {
        match position(entries.drop_last(), name) {
            Some(i) => Some(i),
            None => if entries.last().name == name {
                Some(entries.len() - 1)
            } else {
                None
            },
        }
    }
}

/// Whether no name occurs twice in `entries`.
pub open spec fn distinct(entries: Seq<EntryView>) -> bool {
    forall|i: int, j: int|
        0 <= i < j < entries.len() ==> (#[trigger] entries[i]).name != (#[trigger] entries[j]).name
}

/// `entries` without the first entry named `name`.
pub open spec fn without(entries: Seq<EntryView>, name: Seq<char>) -> Seq<EntryView> {
    match position(entries, name) {
        Some(i) => entries.remove(i),
        None => entries,
    }
}

/// The option that one item of an attribute's list stands for.
pub open spec fn read_item(item: NestedMetaView) -> Result<EntryView, DiagnosticView> {
    match item {
        NestedMetaView::Path { path, span } => match path.ident {
            Some(name) => Ok(EntryView { name, param: ParamView { span, lit: None } }),
            None => Err(Error::UnsupportedPath.report(path.span)),
        },
        NestedMetaView::NameValue { path, value: Some(lit), span } => match path.ident {
            Some(name) => Ok(EntryView { name, param: ParamView { span, lit: Some(lit) } }),
            None => Err(Error::UnsupportedPath.report(path.span)),
        },
        NestedMetaView::NameValue { path, value: None, span } => Err(
            Error::UnsupportedAttributeType.report(span),
        ),
        NestedMetaView::List { path, span } => Err(Error::UnsupportedAttributeType.report(span)),
    }
}

/// `entries` with `entry` added; a second option of one name is reported at
/// the place of the first.
pub open spec fn add_entry(entries: Seq<EntryView>, entry: EntryView) -> Result<
    Seq<EntryView>,
    DiagnosticView,
> {
    match position(entries, entry.name) {
        Some(i) => Err(Error::DuplicateFeature.report(entries[i].param.span)),
        None => Ok(entries.push(entry)),
    }
}

/// `entries` with the options of `items` added, or the first problem.
pub open spec fn add_items(entries: Seq<EntryView>, items: Seq<NestedMetaView>) -> Result<
    Seq<EntryView>,
    DiagnosticView,
>
    decreases items.len(),
{
    if items.len() == 0 {
        Ok(entries)
    } else {
        match add_items(entries, items.drop_last()) {
            Err(e) => Err(e),
            Ok(before) => match read_item(items.last()) {
                Err(e) => Err(e),
                Ok(entry) => add_entry(before, entry),
            },
        }
    }
}

/// What is reported of a list that the parser could not read.
pub open spec fn unreadable(message: Seq<char>, span: Span) -> DiagnosticView {
    problem(span, ErrorKind::MalformedValue, "meta parse error: "@ + message)
}

/// `entries` with the options of one attribute added, or the first problem.
pub open spec fn add_meta(entries: Seq<EntryView>, meta: MetaView, span: Span) -> Result<
    Seq<EntryView>,
    DiagnosticView,
> {
    match meta {
        MetaView::List { nested: Ok(items) } => add_items(entries, items),
        MetaView::List { nested: Err(message) } => Err(unreadable(message, span)),
        _ => Err(Error::UnsupportedAttributeType.report(span)),
    }
}

/// The options that the attributes named `name` among `attrs` hold, or the
/// first problem.
pub open spec fn parsed(name: Seq<char>, attrs: Seq<AttributeView>) -> Result<
    Seq<EntryView>,
    DiagnosticView,
>
    decreases attrs.len(),
{
    if attrs.len() == 0 {
        Ok(Seq::empty())
    } else {
        match parsed(name, attrs.drop_last()) {
            Err(e) => Err(e),
            Ok(before) => if attrs.last().path.ident == Some(name) {
                add_meta(before, attrs.last().meta, attrs.last().span)
            } else {
                Ok(before)
            },
        }
    }
}

/// The boolean that `param` stands for: `true` without a literal.
pub open spec fn bool_of(param: ParamView) -> Result<bool, DiagnosticView> {
    match param.lit {
        None => Ok(true),
        Some(lit) => match lit.kind {
            LitKindView::Bool(b) => Ok(b),
            _ => Err(Error::ExpectedLiteral("bool").report(lit.span)),
        },
    }
}

/// The string that `param` stands for, if it has a literal.
pub open spec fn str_of(param: ParamView) -> Result<Option<Seq<char>>, DiagnosticView> {
    match param.lit {
        None => Ok(None),
        Some(lit) => match lit.kind {
            LitKindView::Str(s) => Ok(Some(s)),
            _ => Err(Error::ExpectedLiteral("str").report(lit.span)),
        },
    }
}

/// The string that `param` stands for; it must have one.
pub open spec fn required_str_of(param: ParamView) -> Result<Seq<char>, DiagnosticView> {
    match str_of(param) {
        Err(e) => Err(e),
        Ok(Some(s)) => Ok(s),
        Ok(None) => Err(Error::MissingLiteral("str").report(param.span)),
    }
}

/// Removing one entry keeps the names distinct.
pub proof fn lemma_without_distinct(entries: Seq<EntryView>, name: Seq<char>)
    requires
        distinct(entries),
    ensures
        distinct(without(entries, name)),
{
    match position(entries, name) {
        Some(i) => {
            lemma_position(entries, name);
            let rest = entries.remove(i);
            assert forall|a: int, b: int| 0 <= a < b < rest.len() implies (#[trigger] rest[a]).name
                != (#[trigger] rest[b]).name by {
                let a0 = if a < i {
                    a
                } else {
                    a + 1
                };
                let b0 = if b < i {
                    b
                } else {
                    b + 1
                };
                assert(rest[a] == entries[a0]);
                assert(rest[b] == entries[b0]);
            }
        },
        None => {},
    }
}

/// `position` finds the first entry of the name, and none where there is
/// none.
pub proof fn lemma_position(entries: Seq<EntryView>, name: Seq<char>)
    ensures
        match position(entries, name) {
            Some(i) => 0 <= i < entries.len() && entries[i].name == name && forall|j: int|
                0 <= j < i ==> (#[trigger] entries[j]).name != name,
            None => forall|j: int| 0 <= j < entries.len() ==> (#[trigger] entries[j]).name != name,
        },
    decreases entries.len(),
{
    if entries.len() > 0 {
        lemma_position(entries.drop_last(), name);
        assert forall|j: int| 0 <= j < entries.len() - 1 implies entries[j]
            == entries.drop_last()[j] by {}
    }
}

impl Features {
    /// The index of the first entry named `key`.
    fn find(&self, key: &str) -> (found: Option<usize>)
        ensures
            match found {
                Some(i) => position(self@, key@) == Some(i as int) && i < self@.len(),
                None => position(self@, key@) is None,
            },
    {
        let mut i: usize = 0;
        proof {
            assert(self@.take(0) == Seq::<EntryView>::empty());
        }
        while i < self.0.len()
            invariant
                i <= self.0.len(),
                self@.len() == self.0.len(),
                position(self@.take(i as int), key@) is None,
            decreases self.0.len() - i,
        {
            proof {
                assert(self@.take(i + 1).drop_last() == self@.take(i as int));
                assert(self@.take(i + 1).last() == self.0@[i as int]@);
            }
            if same(self.0[i].name.as_str(), key) {
                proof {
                    lemma_position_extends(self@, i + 1, key@);
                }
                return Some(i);
            }
            i += 1;
        }
        proof {
            assert(self@.take(self@.len() as int) == self@);
        }
        None
    }

    /// Collects the options that the attributes named `name` hold.
    pub fn parse(name: &str, attrs: &Vec<Attribute>) -> (r: Result<Features, Diagnostic>)
        ensures
            match r {
                Ok(features) => parsed(name@, attrs.deep_view()) == Ok::<
                    Seq<EntryView>,
                    DiagnosticView,
                >(features@) && distinct(features@),
                Err(d) => parsed(name@, attrs.deep_view()) == Err::<Seq<EntryView>, DiagnosticView>(
                    d@,
                ),
            },
    {
        let mut features = Features(Vec::new());
        let mut i: usize = 0;
        proof {
            assert(attrs.deep_view().take(0) == Seq::<AttributeView>::empty());
            assert(features@ == Seq::<EntryView>::empty());
        }
        while i < attrs.len()
            invariant
                i <= attrs.len(),
                parsed(name@, attrs.deep_view().take(i as int)) == Ok::<
                    Seq<EntryView>,
                    DiagnosticView,
                >(features@),
                distinct(features@),
            decreases attrs.len() - i,
        {
            let a = &attrs[i];
            proof {
                assert(attrs.deep_view().take(i + 1).drop_last() == attrs.deep_view().take(
                    i as int,
                ));
                assert(attrs.deep_view().take(i + 1).last() == a@);
            }
            let named = match &a.path.ident {
                Some(ident) => same(ident.as_str(), name),
                None => false,
            };
            if named {
                match features.parse_meta(&a.meta, a.span) {
                    Ok(()) => {},
                    Err(d) => {
                        proof {
                            lemma_parsed_fails(name@, attrs.deep_view(), i + 1);
                        }
                        return Err(d);
                    },
                }
            }
            i += 1;
        }
        proof {
            assert(attrs.deep_view().take(attrs@.len() as int) == attrs.deep_view());
        }
        Ok(features)
    }

    /// Adds the options of one attribute. `span` is the attribute's place.
    pub fn parse_meta(&mut self, meta: &Meta, span: Span) -> (r: Result<(), Diagnostic>)
        ensures
            distinct(old(self)@) ==> distinct(final(self)@),
            match r {
                Ok(_) => add_meta(old(self)@, meta@, span) == Ok::<Seq<EntryView>, DiagnosticView>(
                    final(self)@,
                ),
                Err(d) => add_meta(old(self)@, meta@, span) == Err::<
                    Seq<EntryView>,
                    DiagnosticView,
                >(d@),
            },
    {
        match meta {
            Meta::List { nested: Ok(items) } => self.parse_items(items),
            Meta::List { nested: Err(message) } => Err(
                Error::MetaParseError(message.clone()).at(span),
            ),
            _ => Err(Error::UnsupportedAttributeType.at(span)),
        }
    }

    /// Adds the options that the items of one attribute's list stand for.
    fn parse_items(&mut self, items: &Vec<NestedMeta>) -> (r: Result<(), Diagnostic>)
        ensures
            distinct(old(self)@) ==> distinct(final(self)@),
            match r {
                Ok(_) => add_items(old(self)@, items.deep_view()) == Ok::<
                    Seq<EntryView>,
                    DiagnosticView,
                >(final(self)@),
                Err(d) => add_items(old(self)@, items.deep_view()) == Err::<
                    Seq<EntryView>,
                    DiagnosticView,
                >(d@),
            },
    {
        let mut i: usize = 0;
        proof {
            assert(items.deep_view().take(0) == Seq::<NestedMetaView>::empty());
        }
        while i < items.len()
            invariant
                i <= items.len(),
                add_items(old(self)@, items.deep_view().take(i as int)) == Ok::<
                    Seq<EntryView>,
                    DiagnosticView,
                >(self@),
                distinct(old(self)@) ==> distinct(self@),
            decreases items.len() - i,
        {
            proof {
                assert(items.deep_view().take(i + 1).drop_last() == items.deep_view().take(
                    i as int,
                ));
                assert(items.deep_view().take(i + 1).last() == items@[i as int]@);
            }
            match Features::read(&items[i]) {
                Err(d) => {
                    proof {
                        lemma_add_items_fails(old(self)@, items.deep_view(), i + 1);
                    }
                    return Err(d);
                },
                Ok(entry) => match self.find(entry.name.as_str()) {
                    Some(first) => {
                        proof {
                            lemma_add_items_fails(old(self)@, items.deep_view(), i + 1);
                            assert(self@[first as int] == self.0@[first as int]@);
                        }
                        return Err(Error::DuplicateFeature.at(self.0[first].param.span));
                    },
                    None => {
                        proof {
                            lemma_position(self@, entry.name@);
                        }
                        let ghost before = self@;
                        self.0.push(entry);
                        assert(self@ == before.push(entry@));
                    },
                },
            }
            i += 1;
        }
        proof {
            assert(items.deep_view().take(items@.len() as int) == items.deep_view());
        }
        Ok(())
    }

    /// Reads one item of an attribute's list.
    fn read(item: &NestedMeta) -> (r: Result<Entry, Diagnostic>)
        ensures
            match r {
                Ok(entry) => read_item(item@) == Ok::<EntryView, DiagnosticView>(entry@),
                Err(d) => read_item(item@) == Err::<EntryView, DiagnosticView>(d@),
            },
    {
        match item {
            NestedMeta::Path { path, span } => {
                match Features::path_to_name(path) {
                    Ok(name) => Ok(Entry { name, param: Param { span: *span, lit: None } }),
                    Err(d) => Err(d),
                }
            },
            NestedMeta::NameValue { path, value: Some(lit), span } => {
                match Features::path_to_name(path) {
                    Ok(name) => Ok(
                        Entry { name, param: Param { span: *span, lit: Some(lit.clone()) } },
                    ),
                    Err(d) => Err(d),
                }
            },
            NestedMeta::NameValue { path: _, value: None, span } => Err(
                Error::UnsupportedAttributeType.at(*span),
            ),
            NestedMeta::List { path: _, span } => Err(Error::UnsupportedAttributeType.at(*span)),
        }
    }

    /// The name that `path` gives an option.
    pub fn path_to_name(path: &Path) -> (r: Result<String, Diagnostic>)
        ensures
            match r {
                Ok(name) => path@.ident == Some(name@),
                Err(d) => path@.ident is None && d@ == Error::UnsupportedPath.report(path.span),
            },
    {
        match &path.ident {
            Some(ident) => Ok(ident.clone()),
            None => Err(Error::UnsupportedPath.at(path.span)),
        }
    }

    /// Takes the option named `key` out, if there is one.
    pub fn get(&mut self, key: &str) -> (param: Option<Param>)
        ensures
            final(self)@ == without(old(self)@, key@),
            match position(old(self)@, key@) {
                Some(i) => param is Some && param->0@ == old(self)@[i].param,
                None => param is None,
            },
            distinct(old(self)@) ==> distinct(final(self)@),
    {
        proof {
            if distinct(self@) {
                lemma_without_distinct(self@, key@);
            }
        }
        match self.find(key) {
            Some(i) => {
                let ghost before = self@;
                let entry = self.0.remove(i);
                assert(self@ == before.remove(i as int));
                assert(entry@ == before[i as int]);
                Some(entry.param)
            },
            None => None,
        }
    }

    /// Hands `value` on if every option was asked for, and reports the first
    /// that was not.
    pub fn finish<T>(self, value: T) -> (r: Result<T, Diagnostic>)
        ensures
            match r {
                Ok(v) => self@.len() == 0 && v == value,
                Err(d) => self@.len() > 0 && d@ == Error::UnknownFeature.report(
                    self@[0].param.span,
                ),
            },
    {
        if self.0.len() > 0 {
            assert(self@[0] == self.0@[0]@);
            Err(Error::UnknownFeature.at(self.0[0].param.span))
        } else {
            Ok(value)
        }
    }
}

/// An entry of the name in a prefix is found in the whole list too.
proof fn lemma_position_extends(entries: Seq<EntryView>, n: int, name: Seq<char>)
    requires
        0 <= n <= entries.len(),
        position(entries.take(n), name) is Some,
    ensures
        position(entries, name) == position(entries.take(n), name),
    decreases entries.len() - n,
{
    if n < entries.len() {
        assert(entries.take(n + 1).drop_last() == entries.take(n));
        lemma_position_extends(entries, n + 1, name);
    } else {
        assert(entries.take(n) == entries);
    }
}

/// A problem among the first `n` items is the problem of the whole list.
proof fn lemma_add_items_fails(entries: Seq<EntryView>, items: Seq<NestedMetaView>, n: int)
    requires
        0 <= n <= items.len(),
        add_items(entries, items.take(n)) is Err,
    ensures
        add_items(entries, items) == add_items(entries, items.take(n)),
    decreases items.len() - n,
{
    if n < items.len() {
        assert(items.take(n + 1).drop_last() == items.take(n));
        lemma_add_items_fails(entries, items, n + 1);
    } else {
        assert(items.take(n) == items);
    }
}

/// A problem among the first `n` attributes is the problem of the whole
/// list.
proof fn lemma_parsed_fails(name: Seq<char>, attrs: Seq<AttributeView>, n: int)
    requires
        0 <= n <= attrs.len(),
        parsed(name, attrs.take(n)) is Err,
    ensures
        parsed(name, attrs) == parsed(name, attrs.take(n)),
    decreases attrs.len() - n,
{
    if n < attrs.len() {
        assert(attrs.take(n + 1).drop_last() == attrs.take(n));
        lemma_parsed_fails(name, attrs, n + 1);
    } else {
        assert(attrs.take(n) == attrs);
    }
}

impl Param {
    /// The boolean that the option stands for: `true` where it has no
    /// literal.
    pub fn get_bool(&self) -> (r: Result<bool, Diagnostic>)
        ensures
            match r {
                Ok(b) => bool_of(self@) == Ok::<bool, DiagnosticView>(b),
                Err(d) => bool_of(self@) == Err::<bool, DiagnosticView>(d@),
            },
    {
        match &self.lit {
            None => Ok(true),
            Some(lit) => match &lit.kind {
                LitKind::Bool(b) => Ok(*b),
                _ => Err(Error::ExpectedLiteral("bool").at(lit.span)),
            },
        }
    }

    /// The string that the option stands for, if it has a literal.
    pub fn opt_str(&self) -> (r: Result<Option<String>, Diagnostic>)
        ensures
            match r {
                Ok(Some(s)) => str_of(self@) == Ok::<Option<Seq<char>>, DiagnosticView>(Some(s@)),
                Ok(None) => str_of(self@) == Ok::<Option<Seq<char>>, DiagnosticView>(None),
                Err(d) => str_of(self@) == Err::<Option<Seq<char>>, DiagnosticView>(d@),
            },
    {
        match &self.lit {
            None => Ok(None),
            Some(lit) => match &lit.kind {
                LitKind::Str(s) => Ok(Some(s.clone())),
                _ => Err(Error::ExpectedLiteral("str").at(lit.span)),
            },
        }
    }

    /// The string that the option stands for; it must have one.
    pub fn req_str(&self) -> (r: Result<String, Diagnostic>)
        ensures
            match r {
                Ok(s) => required_str_of(self@) == Ok::<Seq<char>, DiagnosticView>(s@),
                Err(d) => required_str_of(self@) == Err::<Seq<char>, DiagnosticView>(d@),
            },
    {
        match self.opt_str() {
            Err(d) => Err(d),
            Ok(Some(s)) => Ok(s),
            Ok(None) => Err(Error::MissingLiteral("str").at(self.span)),
        }
    }
}

} // verus!
