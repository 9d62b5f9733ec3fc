//! Identifiers of files, syntax nodes, declarations, members and signatures.

use crate::text::{after_last, integer_text, integer_to_string, text_after_last};
use vstd::prelude::*;

verus! {

/// A source file of the workspace.
#[derive(Clone, Copy, PartialEq, Eq, Structural, Debug, Hash)]
pub struct FileId {
    pub id: u32,
}

/// A span of a source file, from `start` up to `end`, in bytes.
#[derive(Clone, Copy, PartialEq, Eq, Structural, Debug, Hash)]
pub struct SourceRange {
    pub start: u32,
    pub end: u32,
}

impl SourceRange {
    /// A range never ends before it starts.
    pub open spec fn well_formed(&self) -> bool {
        self.start <= self.end
    }

    /// The range from `start` to `end`; `None` where `end` lies before `start`.
    pub fn new(start: u32, end: u32) -> (r: Option<SourceRange>)
        ensures
            start <= end ==> r == Some(SourceRange { start, end }),
            start > end ==> r is None,
            r matches Some(range) ==> range.well_formed(),
    {
        if start <= end {
            Some(SourceRange { start, end })
        } else {
            None
        }
    }

    /// The number of bytes the range covers.
    pub fn len(&self) -> (n: u32)
        requires
            self.well_formed(),
        ensures
            n == self.end - self.start,
    {
        self.end - self.start
    }
}

/// The kinds of syntax node that the engine tells apart.
#[derive(Clone, Copy, PartialEq, Eq, Structural, Debug, Hash)]
pub enum SyntaxKind {
    CallExpr,
    IndexExpr,
    NameExpr,
    LiteralExpr,
    TableExpr,
    ClosureExpr,
    LocalStat,
    DocTagType,
    DocType,
    Other,
}

/// A stable name for a syntax node: its kind and where it stands.
#[derive(Clone, Copy, PartialEq, Eq, Structural, Debug, Hash)]
pub struct SyntaxId {
    pub kind: SyntaxKind,
    pub range: SourceRange,
}

/// A variable, parameter or local declaration, by file and position.
#[derive(Clone, Copy, PartialEq, Eq, Structural, Debug, Hash)]
pub struct DeclId {
    pub file_id: FileId,
    pub position: u32,
}

/// A member, by file and declaring syntax node.
#[derive(Clone, Copy, PartialEq, Eq, Structural, Debug, Hash)]
pub struct MemberId {
    pub file_id: FileId,
    pub syntax_id: SyntaxId,
}

/// A function declaration, by file and position.
#[derive(Clone, Copy, PartialEq, Eq, Structural, Debug, Hash)]
pub struct SignatureId {
    pub file_id: FileId,
    pub position: u32,
}

/// A generic parameter slot: of a function or of a type, by index.
#[derive(Clone, Copy, PartialEq, Eq, Structural, Debug, Hash)]
pub enum GenericTplId {
    Func(u32),
    Type(u32),
}

impl GenericTplId {
    /// The slot's index in its owner's parameter list.
    pub fn get_idx(&self) -> (i: usize)
        ensures
            i == match *self {
                GenericTplId::Func(n) => n,
                GenericTplId::Type(n) => n,
            },
    {
        match *self {
            GenericTplId::Func(n) => n as usize,
            GenericTplId::Type(n) => n as usize,
        }
    }

    /// Whether the slot belongs to a function.
    pub fn is_func(&self) -> (r: bool)
        ensures
            r == (*self is Func),
    {
        match *self {
            GenericTplId::Func(_) => true,
            GenericTplId::Type(_) => false,
        }
    }
}

/// What a syntax node can refer to.
#[derive(Clone, Copy, PartialEq, Eq, Structural, Debug, Hash)]
pub enum SemanticDeclId {
    LuaDecl(DeclId),
    Member(MemberId),
    Signature(SignatureId),
}

/// A type declaration, named by its full name.
#[derive(Debug, Hash)]
pub struct TypeDeclId {
    pub name: String,
}

impl View for TypeDeclId {
    type V = Seq<char>;

    open spec fn view(&self) -> Seq<char> {
        self.name@
    }
}

impl Clone for TypeDeclId {
    fn clone(&self) -> (r: Self)
        ensures
            r@ == self@,
    {
        TypeDeclId { name: self.name.clone() }
    }
}

impl PartialEq for TypeDeclId {
    fn eq(&self, other: &Self) -> (r: bool) {
        self.name == other.name
    }
}

impl Eq for TypeDeclId {

}

impl vstd::std_specs::cmp::PartialEqSpecImpl for TypeDeclId {
    open spec fn obeys_eq_spec() -> bool {
        true
    }

    open spec fn eq_spec(&self, other: &Self) -> bool {
        self@ == other@
    }
}

impl TypeDeclId {
    /// The id of the declaration named `name`.
    pub fn new(name: &str) -> (r: TypeDeclId)
        ensures
            r@ == name@,
    {
        TypeDeclId { name: String::from_str(name) }
    }

    /// The full name, namespaces included.
    pub fn get_name(&self) -> (r: &str)
        ensures
            r@ == self@,
    {
        self.name.as_str()
    }

    /// The name without its namespaces: what follows the last dot.
    pub fn get_simple_name(&self) -> (r: &str)
        ensures
            r@ == after_last(self@, '.'),
    {
        text_after_last(self.name.as_str(), '.')
    }
}

/// The key under which an owner holds a member.
#[derive(Debug, Hash)]
pub enum MemberKey {
    Name(String),
    Integer(i64),
}

/// The mathematical value of a [`MemberKey`].
pub enum MemberKeyView {
    Name(Seq<char>),
    Integer(int),
}

impl View for MemberKey {
    type V = MemberKeyView;

    open spec fn view(&self) -> MemberKeyView {
        match self {
            MemberKey::Name(n) => MemberKeyView::Name(n@),
            MemberKey::Integer(i) => MemberKeyView::Integer(*i as int),
        }
    }
}

impl MemberKeyView {
    /// The key as it is written in an access path.
    pub open spec fn path(self) -> Seq<char> {
        match self {
            MemberKeyView::Name(n) => n,
            MemberKeyView::Integer(i) => seq!['['] + integer_text(i) + seq![']'],
        }
    }

    /// The key's name, where it is a name.
    pub open spec fn name(self) -> Option<Seq<char>> {
        match self {
            MemberKeyView::Name(n) => Some(n),
            MemberKeyView::Integer(_) => None,
        }
    }
}

impl Clone for MemberKey {
    fn clone(&self) -> (r: Self)
        ensures
            r@ == self@,
    {
        match self {
            MemberKey::Name(n) => MemberKey::Name(n.clone()),
            MemberKey::Integer(i) => MemberKey::Integer(*i),
        }
    }
}

impl MemberKey {
    /// The key as it is written in an access path: a name as it is, an
    /// index in square brackets.
    pub fn to_path(&self) -> (r: String)
        ensures
            r@ == self@.path(),
    {
        match self {
            MemberKey::Name(n) => n.clone(),
            MemberKey::Integer(i) => {
                let mut out = String::from_str("[");
                let digits = integer_to_string(*i);
                out.append(digits.as_str());
                out.append("]");
                proof {
                    reveal_strlit("[");
                    reveal_strlit("]");
                    assert(out@ =~= self@.path());
                }
                out
            },
        }
    }

    /// The key's name, where it is a name.
    pub fn get_name(&self) -> (r: Option<&str>)
        ensures
            match r {
                Some(n) => self@.name() == Some(n@),
                None => self@.name() is None,
            },
    {
        match self {
            MemberKey::Name(n) => Some(n.as_str()),
            MemberKey::Integer(_) => None,
        }
    }
}

/// Who holds a member: a type declaration, or a syntactic element such as
/// a table literal, found by file and range.
#[derive(Debug, Hash)]
pub enum MemberOwner {
    Type(TypeDeclId),
    Element(FileId, SourceRange),
}

/// The mathematical value of a [`MemberOwner`].
pub enum MemberOwnerView {
    Type(Seq<char>),
    Element(FileId, SourceRange),
}

impl View for MemberOwner {
    type V = MemberOwnerView;

    open spec fn view(&self) -> MemberOwnerView {
        match self {
            MemberOwner::Type(id) => MemberOwnerView::Type(id@),
            MemberOwner::Element(file, range) => MemberOwnerView::Element(*file, *range),
        }
    }
}

impl Clone for MemberOwner {
    fn clone(&self) -> (r: Self)
        ensures
            r@ == self@,
    {
        match self {
            MemberOwner::Type(id) => MemberOwner::Type(id.clone()),
            MemberOwner::Element(file, range) => MemberOwner::Element(*file, *range),
        }
    }
}

} // verus!
