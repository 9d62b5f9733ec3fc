//! The per-file facade: one file's syntax tree and inference cache over
//! the shared database.

use crate::db::{
    find_decl, find_type_decl, Database, DatabaseView, DeclKind, Signature, TypeDeclKind,
};
use crate::ids::{DeclId, FileId, SemanticDeclId, SignatureId, SyntaxId};
use crate::syntax::{find_node, IndexExpr, SyntaxNodeView, SyntaxTree};
use crate::type_check::{result_view, type_check, type_check_spec, TypeCheckResult};
use crate::text::{last_position, last_position_of, str_eq, views};
use crate::types::{clone_type, opt_type_view, params_view, FunctionType, Type, TypeView};
use vstd::prelude::*;

verus! {

/// The results of inference for one file: the types of expressions and
/// what nodes refer to. A node is named by its file and its syntax id.
#[derive(Debug)]
pub struct InferCache {
    pub file_id: FileId,
    pub expr_types: Vec<(FileId, SyntaxId, Type)>,
    pub decl_refs: Vec<(FileId, SyntaxId, SemanticDeclId)>,
}

/// The mathematical value of an [`InferCache`].
pub struct InferCacheView {
    pub file_id: FileId,
    pub expr_types: Seq<(FileId, SyntaxId, TypeView)>,
    pub decl_refs: Seq<(FileId, SyntaxId, SemanticDeclId)>,
}

impl View for InferCache {
    type V = InferCacheView;

    open spec fn view(&self) -> InferCacheView {
        InferCacheView {
            file_id: self.file_id,
            expr_types: self.expr_types@.map_values(
                |e: (FileId, SyntaxId, Type)| (e.0, e.1, e.2@),
            ),
            decl_refs: self.decl_refs@,
        }
    }
}

/// The type recorded first for the expression `expr` of the file `file`.
pub open spec fn find_expr_type(
    s: Seq<(FileId, SyntaxId, TypeView)>,
    file: FileId,
    expr: SyntaxId,
) -> Option<TypeView>
    decreases s.len(),
{
    if s.len() == 0 {
        None
    } else if s[0].0 == file && s[0].1 == expr {
        Some(s[0].2)
    } else {
        find_expr_type(s.drop_first(), file, expr)
    }
}

/// What was recorded first as the referent of the node `node` of the file
/// `file`.
pub open spec fn find_decl_ref(
    s: Seq<(FileId, SyntaxId, SemanticDeclId)>,
    file: FileId,
    node: SyntaxId,
) -> Option<SemanticDeclId>
    decreases s.len(),
{
    if s.len() == 0 {
        None
    } else if s[0].0 == file && s[0].1 == node {
        Some(s[0].2)
    } else {
        find_decl_ref(s.drop_first(), file, node)
    }
}

impl InferCacheView {
    /// The inferred type of `expr` in `file`.
    pub open spec fn expr_type(self, file: FileId, expr: SyntaxId) -> Option<TypeView> {
        find_expr_type(self.expr_types, file, expr)
    }

    /// What `node` in `file` refers to.
    pub open spec fn decl_ref(self, file: FileId, node: SyntaxId) -> Option<SemanticDeclId> {
        find_decl_ref(self.decl_refs, file, node)
    }
}

impl InferCache {
    /// An empty cache for the file `file_id`.
    pub fn new(file_id: FileId) -> (cache: InferCache)
        ensures
            cache@.file_id == file_id,
            cache@.expr_types.len() == 0,
            cache@.decl_refs.len() == 0,
    {
        InferCache { file_id, expr_types: Vec::new(), decl_refs: Vec::new() }
    }

    pub fn get_file_id(&self) -> (r: FileId)
        ensures
            r == self@.file_id,
    {
        self.file_id
    }

    /// The inferred type of `expr` in `file`.
    pub fn get_expr_type(&self, file: FileId, expr: SyntaxId) -> (r: Option<&Type>)
        ensures
            match r {
                Some(t) => self@.expr_type(file, expr) == Some(t@),
                None => self@.expr_type(file, expr) is None,
            },
    {
        let mut i: usize = 0;
        assert(self@.expr_types.skip(0) =~= self@.expr_types);
        while i < self.expr_types.len()
            invariant
                i <= self.expr_types.len(),
                find_expr_type(self@.expr_types, file, expr) == find_expr_type(
                    self@.expr_types.skip(i as int),
                    file,
                    expr,
                ),
            decreases self.expr_types.len() - i,
        {
            proof {
                assert(self@.expr_types.skip(i as int).drop_first() =~= self@.expr_types.skip(
                    i as int + 1,
                ));
            }
            if self.expr_types[i].0 == file && self.expr_types[i].1 == expr {
                return Some(&self.expr_types[i].2);
            }
            i += 1;
        }
        None
    }

    /// What `node` in `file` refers to.
    pub fn get_decl_ref(&self, file: FileId, node: SyntaxId) -> (r: Option<SemanticDeclId>)
        ensures
            r == self@.decl_ref(file, node),
    {
        let mut i: usize = 0;
        assert(self@.decl_refs.skip(0) =~= self@.decl_refs);
        while i < self.decl_refs.len()
            invariant
                i <= self.decl_refs.len(),
                find_decl_ref(self@.decl_refs, file, node) == find_decl_ref(
                    self@.decl_refs.skip(i as int),
                    file,
                    node,
                ),
            decreases self.decl_refs.len() - i,
        {
            proof {
                assert(self@.decl_refs.skip(i as int).drop_first() =~= self@.decl_refs.skip(
                    i as int + 1,
                ));
            }
            if self.decl_refs[i].0 == file && self.decl_refs[i].1 == node {
                return Some(self.decl_refs[i].2);
            }
            i += 1;
        }
        None
    }

    /// Records the type of `expr` in `file`, unless one is recorded
    /// already; says whether it was recorded.
    pub fn record_expr_type(&mut self, file: FileId, expr: SyntaxId, ty: Type) -> (added: bool)
        ensures
            added == (old(self)@.expr_type(file, expr) is None),
            added ==> final(self)@.expr_types == old(self)@.expr_types.push((file, expr, ty@)),
            !added ==> final(self)@.expr_types == old(self)@.expr_types,
            final(self)@.decl_refs == old(self)@.decl_refs,
            final(self)@.file_id == old(self)@.file_id,
    {
        if self.get_expr_type(file, expr).is_some() {
            false
        } else {
            self.expr_types.push((file, expr, ty));
            assert(self@.expr_types =~= old(self)@.expr_types.push((file, expr, ty@)));
            true
        }
    }

    /// Records what `node` in `file` refers to, unless that is recorded
    /// already; says whether it was recorded.
    pub fn record_decl_ref(&mut self, file: FileId, node: SyntaxId, decl: SemanticDeclId) -> (added:
        bool)
        ensures
            added == (old(self)@.decl_ref(file, node) is None),
            added ==> final(self)@.decl_refs == old(self)@.decl_refs.push((file, node, decl)),
            !added ==> final(self)@.decl_refs == old(self)@.decl_refs,
            final(self)@.expr_types == old(self)@.expr_types,
            final(self)@.file_id == old(self)@.file_id,
    {
        if self.get_decl_ref(file, node).is_some() {
            false
        } else {
            self.decl_refs.push((file, node, decl));
            true
        }
    }
}

/// The values of a list of functions known by name.
pub open spec fn functions_view(s: Seq<(String, SignatureId)>) -> Seq<(Seq<char>, SignatureId)> {
    s.map_values(|f: (String, SignatureId)| (f.0@, f.1))
}

/// The signature that was declared first under the name `name`.
pub open spec fn find_function(functions: Seq<(Seq<char>, SignatureId)>, name: Seq<char>) -> Option<
    SignatureId,
>
    decreases functions.len(),
{
    if functions.len() == 0 {
        None
    } else if functions[0].0 == name {
        Some(functions[0].1)
    } else {
        find_function(functions.drop_first(), name)
    }
}

/// The signature that was declared first under the name `name`.
pub fn lookup_function(functions: &Vec<(String, SignatureId)>, name: &str) -> (r: Option<
    SignatureId,
>)
    ensures
        r == find_function(functions_view(functions@), name@),
{
    let ghost all = functions_view(functions@);
    let mut i: usize = 0;
    assert(all.skip(0) =~= all);
    while i < functions.len()
        invariant
            i <= functions.len(),
            all == functions_view(functions@),
            find_function(all, name@) == find_function(all.skip(i as int), name@),
        decreases functions.len() - i,
    {
        proof {
            assert(all.skip(i as int).drop_first() =~= all.skip(i as int + 1));
            assert(all.skip(i as int)[0] == (functions@[i as int].0@, functions@[i as int].1));
        }
        if str_eq(functions[i].0.as_str(), name) {
            return Some(functions[i].1);
        }
        i += 1;
    }
    None
}

impl InferCache {
    /// Records that the expression `prefix` of `file`, which names `name`,
    /// has the type of the function declared under that name, where there is
    /// one and no type is recorded for the expression yet; says whether it
    /// was recorded.
    pub fn record_call_target(
        &mut self,
        file: FileId,
        prefix: SyntaxId,
        name: &str,
        functions: &Vec<(String, SignatureId)>,
    ) -> (added: bool)
        ensures
            added == (find_function(functions_view(functions@), name@) is Some && old(
                self,
            )@.expr_type(file, prefix) is None),
            added ==> final(self)@.expr_types == old(self)@.expr_types.push(
                (
                    file,
                    prefix,
                    TypeView::Signature(
                        find_function(functions_view(functions@), name@).unwrap(),
                    ),
                ),
            ),
            !added ==> final(self)@.expr_types == old(self)@.expr_types,
            final(self)@.decl_refs == old(self)@.decl_refs,
            final(self)@.file_id == old(self)@.file_id,
    {
        match lookup_function(functions, name) {
            Some(id) => self.record_expr_type(file, prefix, Type::Signature(id)),
            None => false,
        }
    }
}

/// The declaration that `name` refers to: the one declared last under
/// that name, among `names` with the ids `ids` at the same positions.
pub open spec fn latest_decl(names: Seq<Seq<char>>, ids: Seq<DeclId>, name: Seq<char>) -> Option<
    DeclId,
> {
    let i = last_position_of(names, name);
    if 0 <= i < ids.len() {
        Some(ids[i])
    } else {
        None
    }
}

impl InferCache {
    /// Records that the node `node` of `file`, which names `name`, refers
    /// to the declaration declared last under that name, where there is one
    /// and nothing is recorded for the node yet; says whether it was recorded.
    pub fn record_name_ref(
        &mut self,
        file: FileId,
        node: SyntaxId,
        name: &str,
        names: &Vec<String>,
        ids: &Vec<DeclId>,
    ) -> (added: bool)
        ensures
            added == (latest_decl(views(names@), ids@, name@) is Some && old(self)@.decl_ref(
                file,
                node,
            ) is None),
            added ==> final(self)@.decl_refs == old(self)@.decl_refs.push(
                (
                    file,
                    node,
                    SemanticDeclId::LuaDecl(latest_decl(views(names@), ids@, name@).unwrap()),
                ),
            ),
            !added ==> final(self)@.decl_refs == old(self)@.decl_refs,
            final(self)@.expr_types == old(self)@.expr_types,
            final(self)@.file_id == old(self)@.file_id,
    {
        match last_position(names, name) {
            Some(i) => {
                if i < ids.len() {
                    self.record_decl_ref(file, node, SemanticDeclId::LuaDecl(ids[i]))
                } else {
                    false
                }
            },
            None => false,
        }
    }
}

/// One file seen through the database: its syntax tree and what inference
/// found in it.
#[derive(Debug)]
pub struct SemanticModel<'a> {
    pub db: &'a Database,
    pub root: &'a SyntaxTree,
    pub cache: InferCache,
}

/// The mathematical value of a [`SemanticModel`].
pub struct SemanticModelView {
    pub db: DatabaseView,
    pub root: Seq<SyntaxNodeView>,
    pub cache: InferCacheView,
}

impl<'a> View for SemanticModel<'a> {
    type V = SemanticModelView;

    open spec fn view(&self) -> SemanticModelView {
        SemanticModelView { db: self.db@, root: self.root@, cache: self.cache@ }
    }
}

impl SemanticModelView {
    /// The file that the model is bound to.
    pub open spec fn file_id(self) -> FileId {
        self.cache.file_id
    }

    /// The inferred type of the expression `expr` of the model's file.
    pub open spec fn infer(self, expr: SyntaxId) -> Option<TypeView> {
        self.cache.expr_type(self.cache.file_id, expr)
    }

    /// What the node `node` of the model's file refers to.
    pub open spec fn decl_of(self, node: SyntaxId) -> Option<SemanticDeclId> {
        self.cache.decl_ref(self.cache.file_id, node)
    }
}

impl<'a> SemanticModel<'a> {
    /// The model of the file that `cache` belongs to; `None` where the
    /// database holds no syntax tree for that file.
    pub fn new(db: &'a Database, cache: InferCache) -> (r: Option<SemanticModel<'a>>)
        ensures
            match r {
                Some(m) => db@.vfs.syntax_tree(cache@.file_id) == Some(m@.root) && m@.db == db@
                    && m@.cache == cache@,
                None => db@.vfs.syntax_tree(cache@.file_id) is None,
            },
    {
        match db.get_vfs().get_syntax_tree(&cache.file_id) {
            Some(root) => Some(SemanticModel { db, root, cache }),
            None => None,
        }
    }

    pub fn get_db(&self) -> (r: &'a Database)
        ensures
            r@ == self@.db,
    {
        self.db
    }

    pub fn get_root(&self) -> (r: &'a SyntaxTree)
        ensures
            r@ == self@.root,
    {
        self.root
    }

    pub fn get_file_id(&self) -> (r: FileId)
        ensures
            r == self@.file_id(),
    {
        self.cache.file_id
    }

    /// The inferred type of the expression `expr` of this file.
    pub fn infer_expr(&self, expr: SyntaxId) -> (r: Option<Type>)
        ensures
            match r {
                Some(t) => self@.infer(expr) == Some(t@),
                None => self@.infer(expr) is None,
            },
    {
        match self.cache.get_expr_type(self.cache.file_id, expr) {
            Some(t) => Some(clone_type(t)),
            None => None,
        }
    }

    /// What the node `node` of this file refers to.
    pub fn find_decl(&self, node: SyntaxId) -> (r: Option<SemanticDeclId>)
        ensures
            r == self@.decl_of(node),
    {
        self.cache.get_decl_ref(self.cache.file_id, node)
    }

    /// What the node `node` of the file `file` refers to.
    pub fn find_decl_in(&self, file: FileId, node: SyntaxId) -> (r: Option<SemanticDeclId>)
        ensures
            r == self@.cache.decl_ref(file, node),
    {
        self.cache.get_decl_ref(file, node)
    }

    /// Checks that `actual` is accepted where `expected` is asked for.
    pub fn type_check(&self, expected: &Type, actual: &Type) -> (r: TypeCheckResult)
        ensures
            result_view(r) == type_check_spec(self@.db, expected@, actual@),
    {
        type_check(self.db, expected, actual)
    }
}

/// Whether a function with the parameters `params` is a method of
/// `owner`: it is declared with a receiver, or its first parameter is typed
/// as the receiver, or is typed as something that `owner` is accepted for,
/// or, where its type or the owner is unknown, is named `self`.
pub open spec fn is_method_of(
    db: DatabaseView,
    is_colon_define: bool,
    params: Seq<(Seq<char>, Option<TypeView>)>,
    owner: Option<TypeView>,
) -> bool {
    is_colon_define || (params.len() > 0 && match params[0].1 {
        Some(t) => t is SelfInfer || match owner {
            Some(o) => type_check_spec(db, o, t) is Ok,
            None => params[0].0 == "self"@,
        },
        None => params[0].0 == "self"@,
    })
}

/// Whether a function with the parameters `params` is a method of `owner`.
pub fn params_are_method(
    semantic_model: &SemanticModel,
    is_colon_define: bool,
    params: &Vec<(String, Option<Type>)>,
    owner: Option<&Type>,
) -> (r: bool)
    ensures
        r == is_method_of(
            semantic_model@.db,
            is_colon_define,
            params_view(params@),
            match owner {
                Some(o) => Some(o@),
                None => None,
            },
        ),
{
    if is_colon_define {
        return true;
    }
    if params.len() == 0 {
        return false;
    }
    assert(params_view(params@)[0] == (params@[0].0@, opt_type_view(params@[0].1)));
    match &params[0].1 {
        Some(t) => {
            if t.is_self_infer() {
                return true;
            }
            match owner {
                Some(o) => semantic_model.type_check(o, t).is_ok(),
                None => str_eq(params[0].0.as_str(), "self"),
            }
        },
        None => str_eq(params[0].0.as_str(), "self"),
    }
}

impl FunctionType {
    /// Whether the function is a method of `owner_type`.
    pub fn is_method(&self, semantic_model: &SemanticModel, owner_type: Option<&Type>) -> (r: bool)
        ensures
            r == is_method_of(
                semantic_model@.db,
                self@.is_colon_define,
                self@.params,
                match owner_type {
                    Some(o) => Some(o@),
                    None => None,
                },
            ),
    {
        params_are_method(semantic_model, self.is_colon_define, &self.params, owner_type)
    }
}

impl Signature {
    /// Whether the function is a method of `owner_type`.
    pub fn is_method(&self, semantic_model: &SemanticModel, owner_type: Option<&Type>) -> (r: bool)
        ensures
            r == is_method_of(
                semantic_model@.db,
                self@.is_colon_define,
                self@.params,
                match owner_type {
                    Some(o) => Some(o@),
                    None => None,
                },
            ),
    {
        params_are_method(semantic_model, self.is_colon_define, &self.params, owner_type)
    }
}

/// The declaration that the value of the declaration `id` refers to: the
/// next link of the chain of assignments. There is one where the file of
/// `id` has a syntax tree, `id` is declared with a value, the tree holds the
/// value's node, the node refers to a declaration, and that declaration is
/// known.
pub open spec fn origin_step(db: DatabaseView, cache: InferCacheView, id: DeclId) -> Option<DeclId> {
    match (db.vfs.syntax_tree(id.file_id), find_decl(db.decls, id)) {
        (Some(tree), Some(decl)) => match decl.value_syntax_id {
            Some(value) => if find_node(tree, value) is Some {
                match cache.decl_ref(id.file_id, value) {
                    Some(SemanticDeclId::LuaDecl(next)) => if find_decl(db.decls, next) is Some {
                        Some(next)
                    } else {
                        None
                    },
                    _ => None,
                }
            } else {
                None
            },
            None => None,
        },
        _ => None,
    }
}

/// The end of the chain of assignments that starts at `id`: the links are
/// followed until one is missing, leads back to a declaration of the chain
/// (those in `visited`, and `id`), or `fuel` runs out.
pub open spec fn chain_end(
    db: DatabaseView,
    cache: InferCacheView,
    id: DeclId,
    visited: Seq<DeclId>,
    fuel: nat,
) -> DeclId
    decreases fuel,
{
    if fuel == 0 {
        id
    } else {
        match origin_step(db, cache, id) {
            Some(next) => if visited.push(id).contains(next) {
                id
            } else {
                chain_end(db, cache, next, visited.push(id), (fuel - 1) as nat)
            },
            None => id,
        }
    }
}

/// The declaration at the end of the chain of assignments that starts at
/// `id`; `None` where the chain has no link at all.
pub open spec fn enum_origin(db: DatabaseView, cache: InferCacheView, id: DeclId) -> Option<DeclId> {
    match origin_step(db, cache, id) {
        Some(_) => Some(chain_end(db, cache, id, Seq::empty(), db.decls.len())),
        None => None,
    }
}

/// Whether the prefix of `index_expr` is a variable of the enum type
/// `prefix_typ` that, followed through its assignments, is a parameter.
pub open spec fn is_enum_param(
    db: DatabaseView,
    cache: InferCacheView,
    index_expr: IndexExpr,
    prefix_typ: TypeView,
) -> bool {
    &&& prefix_typ matches TypeView::Ref(name)
    &&& find_type_decl(db.types, name) matches Some(type_decl)
    &&& type_decl.kind == TypeDeclKind::Enum
    &&& index_expr.prefix matches Some(prefix)
    &&& cache.decl_ref(cache.file_id, prefix) matches Some(SemanticDeclId::LuaDecl(decl_id))
    &&& find_decl(
        db.decls,
        chain_end(db, cache, decl_id, Seq::empty(), db.decls.len()),
    ) matches Some(decl)
    &&& decl.kind == DeclKind::Param
}

/// Whether `id` occurs in `v`.
fn contains_decl(v: &Vec<DeclId>, id: DeclId) -> (r: bool)
    ensures
        r == v@.contains(id),
{
    let mut i: usize = 0;
    while i < v.len()
        invariant
            i <= v.len(),
            forall|j: int| 0 <= j < i ==> v@[j] != id,
        decreases v.len() - i,
    {
        if v[i] == id {
            return true;
        }
        i += 1;
    }
    false
}

/// The next link of the chain of assignments that starts at `id`.
pub fn find_origin_step(db: &Database, cache: &InferCache, id: DeclId) -> (r: Option<DeclId>)
    ensures
        r == origin_step(db@, cache@, id),
{
    let tree = match db.get_vfs().get_syntax_tree(&id.file_id) {
        Some(t) => t,
        None => {
            return None;
        },
    };
    let decl = match db.get_decl_index().get_decl(&id) {
        Some(d) => d,
        None => {
            return None;
        },
    };
    let value = match decl.get_value_syntax_id() {
        Some(v) => v,
        None => {
            return None;
        },
    };
    if tree.get_node(&value).is_none() {
        return None;
    }
    match cache.get_decl_ref(id.file_id, value) {
        Some(SemanticDeclId::LuaDecl(next)) => {
            if db.get_decl_index().get_decl(&next).is_some() {
                Some(next)
            } else {
                None
            }
        },
        _ => None,
    }
}

/// Follows the chain of assignments from `id` to its end.
pub fn find_chain_end(db: &Database, cache: &InferCache, id: DeclId) -> (r: DeclId)
    ensures
        r == chain_end(db@, cache@, id, Seq::empty(), db@.decls.len()),
{
    let limit = db.get_decl_index().decls.len();
    let mut visited: Vec<DeclId> = Vec::new();
    let mut current = id;
    let mut steps: usize = 0;
    while steps < limit
        invariant
            steps <= limit,
            limit == db@.decls.len(),
            chain_end(db@, cache@, id, Seq::empty(), db@.decls.len()) == chain_end(
                db@,
                cache@,
                current,
                visited@,
                (limit - steps) as nat,
            ),
        decreases limit - steps,
    {
        match find_origin_step(db, cache, current) {
            Some(next) => {
                visited.push(current);
                if contains_decl(&visited, next) {
                    return current;
                }
                current = next;
            },
            None => {
                return current;
            },
        }
        steps += 1;
    }
    current
}

/// The declaration at the end of the chain of assignments that starts at
/// `decl_id`; `None` where the chain has no link at all.
pub fn find_enum_origin(db: &Database, cache: &InferCache, decl_id: DeclId) -> (r: Option<DeclId>)
    ensures
        r == enum_origin(db@, cache@, decl_id),
{
    match find_origin_step(db, cache, decl_id) {
        Some(_) => Some(find_chain_end(db, cache, decl_id)),
        None => None,
    }
}

/// Says whether the prefix of `index_expr`, a variable of the enum type
/// `prefix_typ`, is a parameter once followed through its assignments.
pub fn enum_variable_is_param(
    db: &Database,
    cache: &InferCache,
    index_expr: &IndexExpr,
    prefix_typ: &Type,
) -> (r: Option<()>)
    ensures
        r is Some <==> is_enum_param(db@, cache@, *index_expr, prefix_typ@),
{
    let id = match prefix_typ {
        Type::Ref(id) => id,
        _ => {
            return None;
        },
    };
    let type_decl = match db.get_type_index().get_type_decl(id) {
        Some(d) => d,
        None => {
            return None;
        },
    };
    if !type_decl.is_enum() {
        return None;
    }
    let prefix = match index_expr.prefix {
        Some(p) => p,
        None => {
            return None;
        },
    };
    let decl_id = match cache.get_decl_ref(cache.file_id, prefix) {
        Some(SemanticDeclId::LuaDecl(d)) => d,
        _ => {
            return None;
        },
    };
    let origin = find_chain_end(db, cache, decl_id);
    match db.get_decl_index().get_decl(&origin) {
        Some(decl) => if decl.is_param() {
            Some(())
        } else {
            None
        },
        None => None,
    }
}

} // verus!
