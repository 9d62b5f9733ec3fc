//! What the engine reads of a file's syntax tree: the nodes it acts on, as
//! plain values, in document order.

use crate::ids::{SourceRange, SyntaxId};
use crate::text::views;
use crate::types::{Type, TypeView};
use vstd::prelude::*;

verus! {

/// A call: what is called, how, and with which arguments.
#[derive(Debug)]
pub struct CallExpr {
    pub id: SyntaxId,
    /// The expression that is called.
    pub prefix: Option<SyntaxId>,
    /// Called with a colon, that is, with an implicit receiver.
    pub is_colon_call: bool,
    /// The argument expressions, where the call has an argument list.
    pub args: Option<Vec<SyntaxId>>,
}

/// The mathematical value of a [`CallExpr`].
pub struct CallExprView {
    pub id: SyntaxId,
    pub prefix: Option<SyntaxId>,
    pub is_colon_call: bool,
    pub args: Option<Seq<SyntaxId>>,
}

impl View for CallExpr {
    type V = CallExprView;

    open spec fn view(&self) -> CallExprView {
        CallExprView {
            id: self.id,
            prefix: self.prefix,
            is_colon_call: self.is_colon_call,
            args: match self.args {
                Some(a) => Some(a@),
                None => None,
            },
        }
    }
}

impl CallExprView {
    /// The argument at position `i`, where the call has one there.
    pub open spec fn arg(self, i: int) -> Option<SyntaxId> {
        match self.args {
            Some(a) => if 0 <= i < a.len() {
                Some(a[i])
            } else {
                None
            },
            None => None,
        }
    }
}

impl CallExpr {
    pub fn get_prefix_expr(&self) -> (r: Option<SyntaxId>)
        ensures
            r == self@.prefix,
    {
        self.prefix
    }

    pub fn is_colon_call(&self) -> (r: bool)
        ensures
            r == self@.is_colon_call,
    {
        self.is_colon_call
    }

    /// The argument at position `i`, where the call has one there.
    pub fn get_arg(&self, i: usize) -> (r: Option<SyntaxId>)
        ensures
            r == self@.arg(i as int),
    {
        match &self.args {
            Some(a) => if i < a.len() {
                Some(a[i])
            } else {
                None
            },
            None => None,
        }
    }
}

/// A type written in a doc comment: where it stands and what it denotes.
#[derive(Debug)]
pub struct DocType {
    pub range: SourceRange,
    pub ty: Type,
}

/// The mathematical value of a [`DocType`].
pub struct DocTypeView {
    pub range: SourceRange,
    pub ty: TypeView,
}

impl View for DocType {
    type V = DocTypeView;

    open spec fn view(&self) -> DocTypeView {
        DocTypeView { range: self.range, ty: self.ty@ }
    }
}

/// A doc tag that annotates a value with types.
#[derive(Debug)]
pub struct DocTagType {
    pub id: SyntaxId,
    pub types: Vec<DocType>,
}

/// The mathematical value of a [`DocTagType`].
pub struct DocTagTypeView {
    pub id: SyntaxId,
    pub types: Seq<DocTypeView>,
}

impl View for DocTagType {
    type V = DocTagTypeView;

    open spec fn view(&self) -> DocTagTypeView {
        DocTagTypeView { id: self.id, types: self.types@.map_values(|t: DocType| t@) }
    }
}

/// An index expression `prefix.name` or `prefix[key]`.
#[derive(Debug)]
pub struct IndexExpr {
    pub id: SyntaxId,
    pub prefix: Option<SyntaxId>,
}

/// A doc tag that declares a field. Where the field's type is written as a
/// function type, `func_position` is where that function type stands.
#[derive(Debug)]
pub struct DocTagField {
    pub id: SyntaxId,
    pub func_position: Option<u32>,
}

/// A local statement: the names it declares and the expressions it binds
/// them to, position by position.
#[derive(Debug)]
pub struct LocalStat {
    pub id: SyntaxId,
    pub names: Vec<String>,
    pub values: Vec<SyntaxId>,
}

/// The mathematical value of a [`LocalStat`].
pub struct LocalStatView {
    pub id: SyntaxId,
    pub names: Seq<Seq<char>>,
    pub values: Seq<SyntaxId>,
}

impl View for LocalStat {
    type V = LocalStatView;

    open spec fn view(&self) -> LocalStatView {
        LocalStatView { id: self.id, names: views(self.names@), values: self.values@ }
    }
}

/// The position in `values` of the first value that spans `range`;
/// `values.len()` where there is none.
pub open spec fn value_position(values: Seq<SyntaxId>, range: SourceRange) -> int
    decreases values.len(),
{
    if values.len() == 0 {
        0
    } else if values[0].range == range {
        0
    } else {
        1 + value_position(values.drop_first(), range)
    }
}

impl LocalStatView {
    /// The name bound to the value that spans `range`.
    pub open spec fn name_of_value(self, range: SourceRange) -> Option<Seq<char>> {
        let i = value_position(self.values, range);
        if i < self.values.len() && i < self.names.len() {
            Some(self.names[i])
        } else {
            None
        }
    }

    /// Whether one of the values spans `range`.
    pub open spec fn has_value(self, range: SourceRange) -> bool {
        value_position(self.values, range) < self.values.len()
    }
}

pub proof fn lemma_value_position_bounds(values: Seq<SyntaxId>, range: SourceRange)
    ensures
        0 <= value_position(values, range) <= values.len(),
    decreases values.len(),
{
    if values.len() > 0 && values[0].range != range {
        lemma_value_position_bounds(values.drop_first(), range);
    }
}

impl LocalStat {
    /// The position of the first value that spans `range`.
    pub fn find_value(&self, range: SourceRange) -> (r: Option<usize>)
        ensures
            match r {
                Some(i) => i == value_position(self@.values, range) && i < self.values.len(),
                None => value_position(self@.values, range) >= self.values.len(),
            },
    {
        let mut i: usize = 0;
        assert(self.values@.skip(0) =~= self.values@);
        while i < self.values.len()
            invariant
                i <= self.values.len(),
                value_position(self.values@, range) == i + value_position(
                    self.values@.skip(i as int),
                    range,
                ),
            decreases self.values.len() - i,
        {
            proof {
                assert(self.values@.skip(i as int).drop_first() =~= self.values@.skip(i as int + 1));
            }
            if self.values[i].range == range {
                return Some(i);
            }
            i += 1;
        }
        proof {
            lemma_value_position_bounds(self.values@.skip(i as int), range);
        }
        None
    }

    /// The name bound to the value that spans `range`.
    pub fn get_local_name_by_value(&self, range: SourceRange) -> (r: Option<&str>)
        ensures
            match r {
                Some(n) => self@.name_of_value(range) == Some(n@),
                None => self@.name_of_value(range) is None,
            },
    {
        match self.find_value(range) {
            Some(i) => if i < self.names.len() {
                Some(self.names[i].as_str())
            } else {
                None
            },
            None => None,
        }
    }
}

/// A syntax node, as far as the engine tells nodes apart.
#[derive(Debug)]
pub enum SyntaxNode {
    Call(CallExpr),
    DocTagType(DocTagType),
    DocTagField(DocTagField),
    Index(IndexExpr),
    LocalStat(LocalStat),
    Other(SyntaxId),
}

/// The mathematical value of a [`SyntaxNode`].
pub enum SyntaxNodeView {
    Call(CallExprView),
    DocTagType(DocTagTypeView),
    DocTagField(DocTagField),
    Index(IndexExpr),
    LocalStat(LocalStatView),
    Other(SyntaxId),
}

impl View for SyntaxNode {
    type V = SyntaxNodeView;

    open spec fn view(&self) -> SyntaxNodeView {
        match self {
            SyntaxNode::Call(c) => SyntaxNodeView::Call(c@),
            SyntaxNode::DocTagType(d) => SyntaxNodeView::DocTagType(d@),
            SyntaxNode::DocTagField(f) => SyntaxNodeView::DocTagField(*f),
            SyntaxNode::Index(e) => SyntaxNodeView::Index(*e),
            SyntaxNode::LocalStat(l) => SyntaxNodeView::LocalStat(l@),
            SyntaxNode::Other(id) => SyntaxNodeView::Other(*id),
        }
    }
}

impl SyntaxNodeView {
    /// The node's stable name.
    pub open spec fn id(self) -> SyntaxId {
        match self {
            SyntaxNodeView::Call(c) => c.id,
            SyntaxNodeView::DocTagType(d) => d.id,
            SyntaxNodeView::DocTagField(f) => f.id,
            SyntaxNodeView::Index(e) => e.id,
            SyntaxNodeView::LocalStat(l) => l.id,
            SyntaxNodeView::Other(id) => id,
        }
    }
}

impl SyntaxNode {
    /// The node's stable name.
    pub fn get_syntax_id(&self) -> (r: SyntaxId)
        ensures
            r == self@.id(),
    {
        match self {
            SyntaxNode::Call(c) => c.id,
            SyntaxNode::DocTagType(d) => d.id,
            SyntaxNode::DocTagField(f) => f.id,
            SyntaxNode::Index(e) => e.id,
            SyntaxNode::LocalStat(l) => l.id,
            SyntaxNode::Other(id) => *id,
        }
    }
}

/// The first node with the id `id`.
pub open spec fn find_node(nodes: Seq<SyntaxNodeView>, id: SyntaxId) -> Option<SyntaxNodeView>
    decreases nodes.len(),
{
    if nodes.len() == 0 {
        None
    } else if nodes[0].id() == id {
        Some(nodes[0])
    } else {
        find_node(nodes.drop_first(), id)
    }
}

/// The name that the first local statement with a value spanning `range`
/// binds to that value.
pub open spec fn find_local_name(nodes: Seq<SyntaxNodeView>, range: SourceRange) -> Option<
    Seq<char>,
>
    decreases nodes.len(),
{
    if nodes.len() == 0 {
        None
    } else if nodes[0] matches SyntaxNodeView::LocalStat(l) && l.has_value(range) {
        nodes[0]->LocalStat_0.name_of_value(range)
    } else {
        find_local_name(nodes.drop_first(), range)
    }
}

/// The nodes of one file, in document order.
#[derive(Debug)]
pub struct SyntaxTree {
    pub nodes: Vec<SyntaxNode>,
}

impl View for SyntaxTree {
    type V = Seq<SyntaxNodeView>;

    open spec fn view(&self) -> Seq<SyntaxNodeView> {
        self.nodes@.map_values(|n: SyntaxNode| n@)
    }
}

impl SyntaxTree {
    /// The node with the id `id`.
    pub fn get_node(&self, id: &SyntaxId) -> (r: Option<&SyntaxNode>)
        ensures
            match r {
                Some(n) => find_node(self@, *id) == Some(n@),
                None => find_node(self@, *id) is None,
            },
    {
        let mut i: usize = 0;
        assert(self@.skip(0) =~= self@);
        while i < self.nodes.len()
            invariant
                i <= self.nodes.len(),
                find_node(self@, *id) == find_node(self@.skip(i as int), *id),
            decreases self.nodes.len() - i,
        {
            proof {
                assert(self@.skip(i as int).drop_first() =~= self@.skip(i as int + 1));
                assert(self@.skip(i as int)[0] == self.nodes@[i as int]@);
            }
            if self.nodes[i].get_syntax_id() == *id {
                return Some(&self.nodes[i]);
            }
            i += 1;
        }
        None
    }

    /// The name that a local statement binds to the value spanning `range`.
    pub fn get_local_name(&self, range: SourceRange) -> (r: Option<&str>)
        ensures
            match r {
                Some(n) => find_local_name(self@, range) == Some(n@),
                None => find_local_name(self@, range) is None,
            },
    {
        let mut i: usize = 0;
        assert(self@.skip(0) =~= self@);
        while i < self.nodes.len()
            invariant
                i <= self.nodes.len(),
                find_local_name(self@, range) == find_local_name(self@.skip(i as int), range),
            decreases self.nodes.len() - i,
        {
            proof {
                assert(self@.skip(i as int).drop_first() =~= self@.skip(i as int + 1));
                assert(self@.skip(i as int)[0] == self.nodes@[i as int]@);
            }
            match &self.nodes[i] {
                SyntaxNode::LocalStat(l) => {
                    if l.find_value(range).is_some() {
                        return l.get_local_name_by_value(range);
                    }
                },
                _ => {},
            }
            i += 1;
        }
        None
    }
}

} // verus!
