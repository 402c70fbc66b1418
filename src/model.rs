use vstd::prelude::*;

verus! {

/// The five kinds of qualifier that a callable declaration carries.
#[derive(Clone, Copy, Debug, PartialEq, Eq, Structural)]
pub enum QualifierKind {
    Visibility,
    Constness,
    Asyncness,
    Unsafety,
    Abi,
}

/// A visibility: none written, `pub`, `pub(crate)` / `pub(self)` /
/// `pub(super)` (the word is kept), or `pub(in path)` with an optional
/// leading `::` and the path's segments.
#[derive(Clone, Debug, PartialEq, Eq)]
pub enum Visibility {
    Inherited,
    Public,
    Restricted(String),
    InPath(bool, Vec<String>),
}

pub enum VisibilityView {
    Inherited,
    Public,
    Restricted(Seq<char>),
    InPath(bool, Seq<Seq<char>>),
}

impl View for Visibility {
    type V = VisibilityView;

    open spec fn view(&self) -> VisibilityView {
        match self {
            Visibility::Inherited => VisibilityView::Inherited,
            Visibility::Public => VisibilityView::Public,
            Visibility::Restricted(w) => VisibilityView::Restricted(w@),
            Visibility::InPath(lead, segs) => VisibilityView::InPath(
                *lead,
                segs@.map_values(|s: String| s@),
            ),
        }
    }
}

/// One qualifier with its payload; an ABI keeps its string literal as written.
#[derive(Clone, Debug, PartialEq, Eq)]
pub enum Qualifier {
    Visibility(Visibility),
    Constness,
    Asyncness,
    Unsafety,
    Abi(String),
}

pub enum QualifierView {
    Visibility(VisibilityView),
    Constness,
    Asyncness,
    Unsafety,
    Abi(Seq<char>),
}

pub open spec fn opt_str_view(o: Option<String>) -> Option<Seq<char>> {
    match o {
        Some(s) => Some(s@),
        None => None,
    }
}

pub open spec fn opt_vis_view(o: Option<Visibility>) -> Option<VisibilityView> {
    match o {
        Some(v) => Some(v@),
        None => None,
    }
}

impl View for Qualifier {
    type V = QualifierView;

    open spec fn view(&self) -> QualifierView {
        match self {
            Qualifier::Visibility(v) => QualifierView::Visibility(v@),
            Qualifier::Constness => QualifierView::Constness,
            Qualifier::Asyncness => QualifierView::Asyncness,
            Qualifier::Unsafety => QualifierView::Unsafety,
            Qualifier::Abi(a) => QualifierView::Abi(a@),
        }
    }
}

pub open spec fn kind_of(q: QualifierView) -> QualifierKind {
    match q {
        QualifierView::Visibility(_) => QualifierKind::Visibility,
        QualifierView::Constness => QualifierKind::Constness,
        QualifierView::Asyncness => QualifierKind::Asyncness,
        QualifierView::Unsafety => QualifierKind::Unsafety,
        QualifierView::Abi(_) => QualifierKind::Abi,
    }
}

impl Qualifier {
    pub fn kind(&self) -> (k: QualifierKind)
        ensures
            k == kind_of(self@),
    {
        match self {
            Qualifier::Visibility(_) => QualifierKind::Visibility,
            Qualifier::Constness => QualifierKind::Constness,
            Qualifier::Asyncness => QualifierKind::Asyncness,
            Qualifier::Unsafety => QualifierKind::Unsafety,
            Qualifier::Abi(_) => QualifierKind::Abi,
        }
    }
}

/// At most one value of each kind: a slot per kind.
#[derive(Clone, Debug, PartialEq, Eq)]
pub struct QualifierSet {
    pub visibility: Option<Visibility>,
    pub constness: bool,
    pub asyncness: bool,
    pub unsafety: bool,
    pub abi: Option<String>,
}

pub struct QualifierSetView {
    pub visibility: Option<VisibilityView>,
    pub constness: bool,
    pub asyncness: bool,
    pub unsafety: bool,
    pub abi: Option<Seq<char>>,
}

impl View for QualifierSet {
    type V = QualifierSetView;

    open spec fn view(&self) -> QualifierSetView {
        QualifierSetView {
            visibility: opt_vis_view(self.visibility),
            constness: self.constness,
            asyncness: self.asyncness,
            unsafety: self.unsafety,
            abi: opt_str_view(self.abi),
        }
    }
}

pub open spec fn empty_set() -> QualifierSetView {
    QualifierSetView {
        visibility: None,
        constness: false,
        asyncness: false,
        unsafety: false,
        abi: None,
    }
}

/// Whether the slot of kind `k` is taken.
pub open spec fn set_has(s: QualifierSetView, k: QualifierKind) -> bool {
    match k {
        QualifierKind::Visibility => s.visibility is Some,
        QualifierKind::Constness => s.constness,
        QualifierKind::Asyncness => s.asyncness,
        QualifierKind::Unsafety => s.unsafety,
        QualifierKind::Abi => s.abi is Some,
    }
}

/// `s` with the slot of `q`'s kind filled by `q`.
pub open spec fn set_insert(s: QualifierSetView, q: QualifierView) -> QualifierSetView {
    match q {
        QualifierView::Visibility(v) => QualifierSetView { visibility: Some(v), ..s },
        QualifierView::Constness => QualifierSetView { constness: true, ..s },
        QualifierView::Asyncness => QualifierSetView { asyncness: true, ..s },
        QualifierView::Unsafety => QualifierSetView { unsafety: true, ..s },
        QualifierView::Abi(a) => QualifierSetView { abi: Some(a), ..s },
    }
}

impl QualifierSet {
    pub fn empty() -> (s: QualifierSet)
        ensures
            s@ == empty_set(),
    {
        QualifierSet {
            visibility: None,
            constness: false,
            asyncness: false,
            unsafety: false,
            abi: None,
        }
    }

    pub fn has(&self, k: QualifierKind) -> (r: bool)
        ensures
            r == set_has(self@, k),
    {
        match k {
            QualifierKind::Visibility => self.visibility.is_some(),
            QualifierKind::Constness => self.constness,
            QualifierKind::Asyncness => self.asyncness,
            QualifierKind::Unsafety => self.unsafety,
            QualifierKind::Abi => self.abi.is_some(),
        }
    }

    /// Fills the slot of `q`'s kind; the caller has checked that it was free.
    pub fn insert(&mut self, q: Qualifier)
        requires
            !set_has(old(self)@, kind_of(q@)),
        ensures
            final(self)@ == set_insert(old(self)@, q@),
    {
        match q {
            Qualifier::Visibility(v) => self.visibility = Some(v),
            Qualifier::Constness => self.constness = true,
            Qualifier::Asyncness => self.asyncness = true,
            Qualifier::Unsafety => self.unsafety = true,
            Qualifier::Abi(a) => self.abi = Some(a),
        }
    }
}

/// What an attribute asks for: one qualifier, or a bracketed list of them.
#[derive(Clone, Debug, PartialEq, Eq)]
pub enum QualifierSpec {
    Single(Qualifier),
    Multiple(QualifierSet),
}

pub enum QualifierSpecView {
    Single(QualifierView),
    Multiple(QualifierSetView),
}

impl View for QualifierSpec {
    type V = QualifierSpecView;

    open spec fn view(&self) -> QualifierSpecView {
        match self {
            QualifierSpec::Single(q) => QualifierSpecView::Single(q@),
            QualifierSpec::Multiple(s) => QualifierSpecView::Multiple(s@),
        }
    }
}

#[derive(Clone, Copy, Debug, PartialEq, Eq, Structural)]
pub enum ErrorKind {
    /// The token names none of the five qualifiers.
    UnrecognizedQualifier,
    /// A bracketed list names this kind a second time.
    DuplicateQualifier(QualifierKind),
    /// A missing comma, or tokens left over where the grammar ends.
    MalformedBracketList,
    /// `extern` without a string literal, or a `pub(in ...)` whose path is not
    /// a module path.
    MalformedQualifierPayload,
}

/// A parse failure, anchored at token `at` of the attribute's arguments, or
/// of the bracketed list's contents when `in_brackets` holds.
#[derive(Clone, Copy, Debug, PartialEq, Eq, Structural)]
pub struct QualifierError {
    pub kind: ErrorKind,
    pub in_brackets: bool,
    pub at: usize,
}

} // verus!
