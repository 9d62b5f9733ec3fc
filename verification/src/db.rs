//! The database: the indices of type declarations, signatures, members,
//! declarations, properties and files that analysis fills and the checkers
//! read.

use crate::ids::{
    DeclId, FileId, MemberId, MemberKey, MemberKeyView, MemberOwner, MemberOwnerView,
    SemanticDeclId, SignatureId, SyntaxId, TypeDeclId,
};
use crate::syntax::{SyntaxNodeView, SyntaxTree};
use crate::text::{after_last, opt_view, str_eq, views};
use crate::types::{
    clone_params, opt_type_view, params_view, FunctionType, FunctionTypeView, Type, TypeView,
};
use vstd::prelude::*;

verus! {

/// What a type declaration declares.
#[derive(Clone, Copy, PartialEq, Eq, Structural, Debug)]
pub enum TypeDeclKind {
    Class,
    Alias,
    Enum,
}

/// A named type declaration.
#[derive(Debug)]
pub struct TypeDecl {
    pub id: TypeDeclId,
    pub kind: TypeDeclKind,
    /// The generic parameters, each with its optional bound.
    pub generic_params: Vec<(String, Option<Type>)>,
    /// What an alias stands for.
    pub alias_origin: Option<Type>,
    /// The declarations that this one extends.
    pub supers: Vec<TypeDeclId>,
}

/// The mathematical value of a [`TypeDecl`].
pub struct TypeDeclView {
    pub name: Seq<char>,
    pub kind: TypeDeclKind,
    pub generic_params: Seq<(Seq<char>, Option<TypeView>)>,
    pub alias_origin: Option<TypeView>,
    pub supers: Seq<Seq<char>>,
}

impl View for TypeDecl {
    type V = TypeDeclView;

    open spec fn view(&self) -> TypeDeclView {
        TypeDeclView {
            name: self.id@,
            kind: self.kind,
            generic_params: params_view(self.generic_params@),
            alias_origin: opt_type_view(self.alias_origin),
            supers: self.supers@.map_values(|id: TypeDeclId| id@),
        }
    }
}

impl TypeDeclView {
    /// What the declaration stands for, where it is an alias with an origin.
    pub open spec fn origin(self) -> Option<TypeView> {
        if self.kind == TypeDeclKind::Alias {
            self.alias_origin
        } else {
            None
        }
    }
}

impl TypeDecl {
    /// The full name, namespaces included.
    pub fn get_full_name(&self) -> (r: &str)
        ensures
            r@ == self@.name,
    {
        self.id.get_name()
    }

    /// The name without its namespaces.
    pub fn get_name(&self) -> (r: &str)
        ensures
            r@ == after_last(self@.name, '.'),
    {
        self.id.get_simple_name()
    }

    /// Whether an enum is declared.
    pub fn is_enum(&self) -> (r: bool)
        ensures
            r == (self@.kind == TypeDeclKind::Enum),
    {
        self.kind == TypeDeclKind::Enum
    }

    /// Whether an alias is declared.
    pub fn is_alias(&self) -> (r: bool)
        ensures
            r == (self@.kind == TypeDeclKind::Alias),
    {
        self.kind == TypeDeclKind::Alias
    }

    /// What the declaration stands for, where it is an alias with an origin.
    pub fn get_alias_origin(&self) -> (r: Option<&Type>)
        ensures
            match r {
                Some(t) => self@.origin() == Some(t@),
                None => self@.origin() is None,
            },
    {
        if self.kind == TypeDeclKind::Alias {
            match &self.alias_origin {
                Some(t) => Some(t),
                None => None,
            }
        } else {
            None
        }
    }
}

/// One documented return value of a function.
#[derive(Debug)]
pub struct DocReturnInfo {
    pub name: Option<String>,
    pub type_ref: Type,
    pub description: Option<String>,
}

/// The mathematical value of a [`DocReturnInfo`].
pub struct DocReturnInfoView {
    pub name: Option<Seq<char>>,
    pub type_ref: TypeView,
    pub description: Option<Seq<char>>,
}

impl View for DocReturnInfo {
    type V = DocReturnInfoView;

    open spec fn view(&self) -> DocReturnInfoView {
        DocReturnInfoView {
            name: opt_view(self.name),
            type_ref: self.type_ref@,
            description: opt_view(self.description),
        }
    }
}

/// The static shape of one function declaration.
#[derive(Debug)]
pub struct Signature {
    pub id: SignatureId,
    pub params: Vec<(String, Option<Type>)>,
    pub return_docs: Vec<DocReturnInfo>,
    /// Declared with a receiver.
    pub is_colon_define: bool,
    pub is_async: bool,
    pub overloads: Vec<FunctionType>,
    /// The function's own generic parameters, each with its optional bound.
    pub generic_params: Vec<(String, Option<Type>)>,
}

/// The mathematical value of a [`Signature`].
pub struct SignatureView {
    pub id: SignatureId,
    pub params: Seq<(Seq<char>, Option<TypeView>)>,
    pub return_docs: Seq<DocReturnInfoView>,
    pub is_colon_define: bool,
    pub is_async: bool,
    pub overloads: Seq<FunctionTypeView>,
    pub generic_params: Seq<(Seq<char>, Option<TypeView>)>,
}

impl View for Signature {
    type V = SignatureView;

    open spec fn view(&self) -> SignatureView {
        SignatureView {
            id: self.id,
            params: params_view(self.params@),
            return_docs: self.return_docs@.map_values(|r: DocReturnInfo| r@),
            is_colon_define: self.is_colon_define,
            is_async: self.is_async,
            overloads: self.overloads@.map_values(|f: FunctionType| f@),
            generic_params: params_view(self.generic_params@),
        }
    }
}

impl SignatureView {
    /// Whether the function returns nothing: no documented return, or a
    /// single one of type `nil`.
    pub open spec fn returns_nil(self) -> bool {
        self.return_docs.len() == 0 || (self.return_docs.len() == 1
            && self.return_docs[0].type_ref is Nil)
    }
}

impl Signature {
    /// A copy of the typed parameters, in order.
    pub fn get_type_params(&self) -> (r: Vec<(String, Option<Type>)>)
        ensures
            params_view(r@) == self@.params,
    {
        clone_params(&self.params)
    }

    /// Whether the function returns nothing.
    pub fn returns_nil(&self) -> (r: bool)
        ensures
            r == self@.returns_nil(),
    {
        self.return_docs.len() == 0 || (self.return_docs.len() == 1
            && self.return_docs[0].type_ref.is_nil())
    }
}

/// A named or positional field or method of an owner.
#[derive(Debug)]
pub struct Member {
    pub id: MemberId,
    pub key: MemberKey,
    /// Declared as a field rather than as a method.
    pub is_field: bool,
    pub owner: MemberOwner,
}

/// The mathematical value of a [`Member`].
pub struct MemberView {
    pub id: MemberId,
    pub key: MemberKeyView,
    pub is_field: bool,
    pub owner: MemberOwnerView,
}

impl View for Member {
    type V = MemberView;

    open spec fn view(&self) -> MemberView {
        MemberView { id: self.id, key: self.key@, is_field: self.is_field, owner: self.owner@ }
    }
}

impl Member {
    pub fn get_id(&self) -> (r: MemberId)
        ensures
            r == self@.id,
    {
        self.id
    }

    pub fn get_file_id(&self) -> (r: FileId)
        ensures
            r == self@.id.file_id,
    {
        self.id.file_id
    }

    pub fn get_syntax_id(&self) -> (r: SyntaxId)
        ensures
            r == self@.id.syntax_id,
    {
        self.id.syntax_id
    }

    pub fn get_key(&self) -> (r: &MemberKey)
        ensures
            r@ == self@.key,
    {
        &self.key
    }

    pub fn is_field(&self) -> (r: bool)
        ensures
            r == self@.is_field,
    {
        self.is_field
    }
}

/// How a declaration binds its name.
#[derive(Clone, Copy, PartialEq, Eq, Structural, Debug)]
pub enum DeclKind {
    Local,
    Global,
    Param,
}

/// A variable, parameter or local declaration.
#[derive(Debug)]
pub struct Decl {
    pub id: DeclId,
    pub name: String,
    pub kind: DeclKind,
    /// The expression whose value the declaration is bound to.
    pub value_syntax_id: Option<SyntaxId>,
}

/// The mathematical value of a [`Decl`].
pub struct DeclView {
    pub id: DeclId,
    pub name: Seq<char>,
    pub kind: DeclKind,
    pub value_syntax_id: Option<SyntaxId>,
}

impl View for Decl {
    type V = DeclView;

    open spec fn view(&self) -> DeclView {
        DeclView {
            id: self.id,
            name: self.name@,
            kind: self.kind,
            value_syntax_id: self.value_syntax_id,
        }
    }
}

impl Decl {
    pub fn get_name(&self) -> (r: &str)
        ensures
            r@ == self@.name,
    {
        self.name.as_str()
    }

    pub fn get_file_id(&self) -> (r: FileId)
        ensures
            r == self@.id.file_id,
    {
        self.id.file_id
    }

    pub fn is_local(&self) -> (r: bool)
        ensures
            r == (self@.kind == DeclKind::Local),
    {
        self.kind == DeclKind::Local
    }

    pub fn is_global(&self) -> (r: bool)
        ensures
            r == (self@.kind == DeclKind::Global),
    {
        self.kind == DeclKind::Global
    }

    pub fn is_param(&self) -> (r: bool)
        ensures
            r == (self@.kind == DeclKind::Param),
    {
        self.kind == DeclKind::Param
    }

    pub fn get_value_syntax_id(&self) -> (r: Option<SyntaxId>)
        ensures
            r == self@.value_syntax_id,
    {
        self.value_syntax_id
    }
}

/// The documentation attached to a declaration, member or signature.
#[derive(Debug)]
pub struct Property {
    pub owner: SemanticDeclId,
    pub description: Option<String>,
    pub see_content: Option<String>,
    pub other_content: Option<String>,
}

/// The mathematical value of a [`Property`].
pub struct PropertyView {
    pub owner: SemanticDeclId,
    pub description: Option<Seq<char>>,
    pub see_content: Option<Seq<char>>,
    pub other_content: Option<Seq<char>>,
}

impl View for Property {
    type V = PropertyView;

    open spec fn view(&self) -> PropertyView {
        PropertyView {
            owner: self.owner,
            description: opt_view(self.description),
            see_content: opt_view(self.see_content),
            other_content: opt_view(self.other_content),
        }
    }
}

/// A file of the workspace: its path, as components from the root down,
/// whether it belongs to the standard library, and its syntax tree.
#[derive(Debug)]
pub struct FileEntry {
    pub id: FileId,
    pub path: Option<Vec<String>>,
    pub is_std: bool,
    pub tree: Option<SyntaxTree>,
}

/// The mathematical value of a [`FileEntry`].
pub struct FileEntryView {
    pub id: FileId,
    pub path: Option<Seq<Seq<char>>>,
    pub is_std: bool,
    pub tree: Option<Seq<SyntaxNodeView>>,
}

impl View for FileEntry {
    type V = FileEntryView;

    open spec fn view(&self) -> FileEntryView {
        FileEntryView {
            id: self.id,
            path: match self.path {
                Some(p) => Some(views(p@)),
                None => None,
            },
            is_std: self.is_std,
            tree: match self.tree {
                Some(t) => Some(t@),
                None => None,
            },
        }
    }
}

/// The description that the standard library's documentation gives of a
/// global or of a member of a type.
#[derive(Debug)]
pub struct StdDescription {
    pub owner_name: String,
    pub member_name: Option<String>,
    pub text: String,
}

/// The mathematical value of a [`StdDescription`].
pub struct StdDescriptionView {
    pub owner_name: Seq<char>,
    pub member_name: Option<Seq<char>>,
    pub text: Seq<char>,
}

impl View for StdDescription {
    type V = StdDescriptionView;

    open spec fn view(&self) -> StdDescriptionView {
        StdDescriptionView {
            owner_name: self.owner_name@,
            member_name: opt_view(self.member_name),
            text: self.text@,
        }
    }
}

/// The first type declaration named `name`.
pub open spec fn find_type_decl(s: Seq<TypeDeclView>, name: Seq<char>) -> Option<TypeDeclView>
    decreases s.len(),
{
    if s.len() == 0 {
        None
    } else if s[0].name == name {
        Some(s[0])
    } else {
        find_type_decl(s.drop_first(), name)
    }
}

/// The first signature with the id `id`.
pub open spec fn find_signature(s: Seq<SignatureView>, id: SignatureId) -> Option<SignatureView>
    decreases s.len(),
{
    if s.len() == 0 {
        None
    } else if s[0].id == id {
        Some(s[0])
    } else {
        find_signature(s.drop_first(), id)
    }
}

/// The first member with the id `id`.
pub open spec fn find_member(s: Seq<MemberView>, id: MemberId) -> Option<MemberView>
    decreases s.len(),
{
    if s.len() == 0 {
        None
    } else if s[0].id == id {
        Some(s[0])
    } else {
        find_member(s.drop_first(), id)
    }
}

/// The first declaration with the id `id`.
pub open spec fn find_decl(s: Seq<DeclView>, id: DeclId) -> Option<DeclView>
    decreases s.len(),
{
    if s.len() == 0 {
        None
    } else if s[0].id == id {
        Some(s[0])
    } else {
        find_decl(s.drop_first(), id)
    }
}

/// The first property whose owner is `owner`.
pub open spec fn find_property(s: Seq<PropertyView>, owner: SemanticDeclId) -> Option<PropertyView>
    decreases s.len(),
{
    if s.len() == 0 {
        None
    } else if s[0].owner == owner {
        Some(s[0])
    } else {
        find_property(s.drop_first(), owner)
    }
}

/// The first file with the id `id`.
pub open spec fn find_file(s: Seq<FileEntryView>, id: FileId) -> Option<FileEntryView>
    decreases s.len(),
{
    if s.len() == 0 {
        None
    } else if s[0].id == id {
        Some(s[0])
    } else {
        find_file(s.drop_first(), id)
    }
}

/// The text of the first standard description for `owner_name` and
/// `member_name`; empty where there is none.
pub open spec fn find_std_description(
    s: Seq<StdDescriptionView>,
    owner_name: Seq<char>,
    member_name: Option<Seq<char>>,
) -> Seq<char>
    decreases s.len(),
{
    if s.len() == 0 {
        Seq::empty()
    } else if s[0].owner_name == owner_name && s[0].member_name == member_name {
        s[0].text
    } else {
        find_std_description(s.drop_first(), owner_name, member_name)
    }
}

/// What is found once `added` stands behind the entries `s`: what was
/// found in `s` before, else `added` where it is what is looked for.
pub proof fn lemma_find_type_decl_push(s: Seq<TypeDeclView>, added: TypeDeclView, name: Seq<char>)
    ensures
        find_type_decl(s.push(added), name) == match find_type_decl(s, name) {
            Some(found) => Some(found),
            None => if added.name == name {
                Some(added)
            } else {
                None
            },
        },
    decreases s.len(),
{
    if s.len() == 0 {
        assert(s.push(added).drop_first() =~= s);
    } else {
        assert(s.push(added).drop_first() =~= s.drop_first().push(added));
        lemma_find_type_decl_push(s.drop_first(), added, name);
    }
}

/// What is found once `added` stands behind the entries `s`: what was
/// found in `s` before, else `added` where it is what is looked for.
pub proof fn lemma_find_signature_push(s: Seq<SignatureView>, added: SignatureView, id: SignatureId)
    ensures
        find_signature(s.push(added), id) == match find_signature(s, id) {
            Some(found) => Some(found),
            None => if added.id == id {
                Some(added)
            } else {
                None
            },
        },
    decreases s.len(),
{
    if s.len() == 0 {
        assert(s.push(added).drop_first() =~= s);
    } else {
        assert(s.push(added).drop_first() =~= s.drop_first().push(added));
        lemma_find_signature_push(s.drop_first(), added, id);
    }
}

/// What is found once `added` stands behind the entries `s`: what was
/// found in `s` before, else `added` where it is what is looked for.
pub proof fn lemma_find_member_push(s: Seq<MemberView>, added: MemberView, id: MemberId)
    ensures
        find_member(s.push(added), id) == match find_member(s, id) {
            Some(found) => Some(found),
            None => if added.id == id {
                Some(added)
            } else {
                None
            },
        },
    decreases s.len(),
{
    if s.len() == 0 {
        assert(s.push(added).drop_first() =~= s);
    } else {
        assert(s.push(added).drop_first() =~= s.drop_first().push(added));
        lemma_find_member_push(s.drop_first(), added, id);
    }
}

/// What is found once `added` stands behind the entries `s`: what was
/// found in `s` before, else `added` where it is what is looked for.
pub proof fn lemma_find_decl_push(s: Seq<DeclView>, added: DeclView, id: DeclId)
    ensures
        find_decl(s.push(added), id) == match find_decl(s, id) {
            Some(found) => Some(found),
            None => if added.id == id {
                Some(added)
            } else {
                None
            },
        },
    decreases s.len(),
{
    if s.len() == 0 {
        assert(s.push(added).drop_first() =~= s);
    } else {
        assert(s.push(added).drop_first() =~= s.drop_first().push(added));
        lemma_find_decl_push(s.drop_first(), added, id);
    }
}

/// What is found once `added` stands behind the entries `s`: what was
/// found in `s` before, else `added` where it is what is looked for.
pub proof fn lemma_find_property_push(s: Seq<PropertyView>, added: PropertyView, owner: SemanticDeclId)
    ensures
        find_property(s.push(added), owner) == match find_property(s, owner) {
            Some(found) => Some(found),
            None => if added.owner == owner {
                Some(added)
            } else {
                None
            },
        },
    decreases s.len(),
{
    if s.len() == 0 {
        assert(s.push(added).drop_first() =~= s);
    } else {
        assert(s.push(added).drop_first() =~= s.drop_first().push(added));
        lemma_find_property_push(s.drop_first(), added, owner);
    }
}

/// The index of type declarations.
#[derive(Debug)]
pub struct TypeIndex {
    pub decls: Vec<TypeDecl>,
}

impl View for TypeIndex {
    type V = Seq<TypeDeclView>;

    open spec fn view(&self) -> Seq<TypeDeclView> {
        self.decls@.map_values(|d: TypeDecl| d@)
    }
}

impl TypeIndex {
    /// The declaration named by `id`.
    pub fn get_type_decl(&self, id: &TypeDeclId) -> (r: Option<&TypeDecl>)
        ensures
            match r {
                Some(d) => find_type_decl(self@, id@) == Some(d@),
                None => find_type_decl(self@, id@) is None,
            },
    {
        let mut i: usize = 0;
        assert(self@.skip(0) =~= self@);
        while i < self.decls.len()
            invariant
                i <= self.decls.len(),
                find_type_decl(self@, id@) == find_type_decl(self@.skip(i as int), id@),
            decreases self.decls.len() - i,
        {
            proof {
                assert(self@.skip(i as int).drop_first() =~= self@.skip(i as int + 1));
                assert(self@.skip(i as int)[0] == self.decls@[i as int]@);
            }
            if self.decls[i].id.name == id.name {
                return Some(&self.decls[i]);
            }
            i += 1;
        }
        None
    }

    /// The generic parameters of the declaration named by `id`.
    pub fn get_generic_params(&self, id: &TypeDeclId) -> (r: Option<&Vec<(String, Option<Type>)>>)
        ensures
            match r {
                Some(p) => find_type_decl(self@, id@) matches Some(d) && d.generic_params
                    == params_view(p@),
                None => find_type_decl(self@, id@) is None,
            },
    {
        match self.get_type_decl(id) {
            Some(d) => Some(&d.generic_params),
            None => None,
        }
    }

    /// Adds `decl` unless a declaration of its name is there already;
    /// says whether it was added.
    pub fn add_type_decl(&mut self, decl: TypeDecl) -> (added: bool)
        ensures
            added == (find_type_decl(old(self)@, decl@.name) is None),
            added ==> final(self)@ == old(self)@.push(decl@),
            !added ==> final(self)@ == old(self)@,
            added ==> find_type_decl(final(self)@, decl@.name) == Some(decl@),
    {
        proof {
            lemma_find_type_decl_push(self@, decl@, decl@.name);
        }
        if self.get_type_decl(&decl.id).is_some() {
            false
        } else {
            self.decls.push(decl);
            assert(self@ =~= old(self)@.push(decl@));
            true
        }
    }
}

/// The index of signatures.
#[derive(Debug)]
pub struct SignatureIndex {
    pub signatures: Vec<Signature>,
}

impl View for SignatureIndex {
    type V = Seq<SignatureView>;

    open spec fn view(&self) -> Seq<SignatureView> {
        self.signatures@.map_values(|s: Signature| s@)
    }
}

impl SignatureIndex {
    /// The signature with the id `id`.
    pub fn get(&self, id: &SignatureId) -> (r: Option<&Signature>)
        ensures
            match r {
                Some(s) => find_signature(self@, *id) == Some(s@),
                None => find_signature(self@, *id) is None,
            },
    {
        let mut i: usize = 0;
        assert(self@.skip(0) =~= self@);
        while i < self.signatures.len()
            invariant
                i <= self.signatures.len(),
                find_signature(self@, *id) == find_signature(self@.skip(i as int), *id),
            decreases self.signatures.len() - i,
        {
            proof {
                assert(self@.skip(i as int).drop_first() =~= self@.skip(i as int + 1));
                assert(self@.skip(i as int)[0] == self.signatures@[i as int]@);
            }
            if self.signatures[i].id == *id {
                return Some(&self.signatures[i]);
            }
            i += 1;
        }
        None
    }

    /// Adds `signature` unless one with its id is there already; says
    /// whether it was added.
    pub fn add_signature(&mut self, signature: Signature) -> (added: bool)
        ensures
            added == (find_signature(old(self)@, signature@.id) is None),
            added ==> final(self)@ == old(self)@.push(signature@),
            !added ==> final(self)@ == old(self)@,
            added ==> find_signature(final(self)@, signature@.id) == Some(signature@),
    {
        proof {
            lemma_find_signature_push(self@, signature@, signature@.id);
        }
        if self.get(&signature.id).is_some() {
            false
        } else {
            self.signatures.push(signature);
            assert(self@ =~= old(self)@.push(signature@));
            true
        }
    }
}

/// The index of members.
#[derive(Debug)]
pub struct MemberIndex {
    pub members: Vec<Member>,
}

impl View for MemberIndex {
    type V = Seq<MemberView>;

    open spec fn view(&self) -> Seq<MemberView> {
        self.members@.map_values(|m: Member| m@)
    }
}

/// The owner of the first member with the id `id`.
pub open spec fn find_owner(s: Seq<MemberView>, id: MemberId) -> Option<MemberOwnerView> {
    match find_member(s, id) {
        Some(m) => Some(m.owner),
        None => None,
    }
}

/// The first member that the type `owner` holds under the name `key`.
pub open spec fn find_method(s: Seq<MemberView>, owner: Seq<char>, key: Seq<char>) -> Option<
    MemberView,
>
    decreases s.len(),
{
    if s.len() == 0 {
        None
    } else if s[0].owner == MemberOwnerView::Type(owner) && s[0].key == MemberKeyView::Name(key) {
        Some(s[0])
    } else {
        find_method(s.drop_first(), owner, key)
    }
}

impl MemberIndex {
    /// The member that the type `owner` holds under the name `key`.
    pub fn get_member_of(&self, owner: &TypeDeclId, key: &str) -> (r: Option<&Member>)
        ensures
            match r {
                Some(m) => find_method(self@, owner@, key@) == Some(m@),
                None => find_method(self@, owner@, key@) is None,
            },
    {
        let mut i: usize = 0;
        assert(self@.skip(0) =~= self@);
        while i < self.members.len()
            invariant
                i <= self.members.len(),
                find_method(self@, owner@, key@) == find_method(
                    self@.skip(i as int),
                    owner@,
                    key@,
                ),
            decreases self.members.len() - i,
        {
            proof {
                assert(self@.skip(i as int).drop_first() =~= self@.skip(i as int + 1));
                assert(self@.skip(i as int)[0] == self.members@[i as int]@);
            }
            let member = &self.members[i];
            let same_owner = match &member.owner {
                MemberOwner::Type(id) => id.name == owner.name,
                MemberOwner::Element(_, _) => false,
            };
            let same_key = match &member.key {
                MemberKey::Name(n) => str_eq(n.as_str(), key),
                MemberKey::Integer(_) => false,
            };
            if same_owner && same_key {
                return Some(member);
            }
            i += 1;
        }
        None
    }

    /// The member with the id `id`.
    pub fn get_member(&self, id: &MemberId) -> (r: Option<&Member>)
        ensures
            match r {
                Some(m) => find_member(self@, *id) == Some(m@),
                None => find_member(self@, *id) is None,
            },
    {
        let mut i: usize = 0;
        assert(self@.skip(0) =~= self@);
        while i < self.members.len()
            invariant
                i <= self.members.len(),
                find_member(self@, *id) == find_member(self@.skip(i as int), *id),
            decreases self.members.len() - i,
        {
            proof {
                assert(self@.skip(i as int).drop_first() =~= self@.skip(i as int + 1));
                assert(self@.skip(i as int)[0] == self.members@[i as int]@);
            }
            if self.members[i].id == *id {
                return Some(&self.members[i]);
            }
            i += 1;
        }
        None
    }

    /// Who holds the member with the id `id`.
    pub fn get_current_owner(&self, id: &MemberId) -> (r: Option<&MemberOwner>)
        ensures
            match r {
                Some(o) => find_owner(self@, *id) == Some(o@),
                None => find_owner(self@, *id) is None,
            },
    {
        match self.get_member(id) {
            Some(m) => Some(&m.owner),
            None => None,
        }
    }

    /// Adds `member` unless one with its id is there already; says whether
    /// it was added.
    pub fn add_member(&mut self, member: Member) -> (added: bool)
        ensures
            added == (find_member(old(self)@, member@.id) is None),
            added ==> final(self)@ == old(self)@.push(member@),
            !added ==> final(self)@ == old(self)@,
            added ==> find_member(final(self)@, member@.id) == Some(member@),
    {
        proof {
            lemma_find_member_push(self@, member@, member@.id);
        }
        if self.get_member(&member.id).is_some() {
            false
        } else {
            self.members.push(member);
            assert(self@ =~= old(self)@.push(member@));
            true
        }
    }
}

/// The index of declarations.
#[derive(Debug)]
pub struct DeclIndex {
    pub decls: Vec<Decl>,
}

impl View for DeclIndex {
    type V = Seq<DeclView>;

    open spec fn view(&self) -> Seq<DeclView> {
        self.decls@.map_values(|d: Decl| d@)
    }
}

impl DeclIndex {
    /// The declaration with the id `id`.
    pub fn get_decl(&self, id: &DeclId) -> (r: Option<&Decl>)
        ensures
            match r {
                Some(d) => find_decl(self@, *id) == Some(d@),
                None => find_decl(self@, *id) is None,
            },
    {
        let mut i: usize = 0;
        assert(self@.skip(0) =~= self@);
        while i < self.decls.len()
            invariant
                i <= self.decls.len(),
                find_decl(self@, *id) == find_decl(self@.skip(i as int), *id),
            decreases self.decls.len() - i,
        {
            proof {
                assert(self@.skip(i as int).drop_first() =~= self@.skip(i as int + 1));
                assert(self@.skip(i as int)[0] == self.decls@[i as int]@);
            }
            if self.decls[i].id == *id {
                return Some(&self.decls[i]);
            }
            i += 1;
        }
        None
    }

    /// Adds `decl` unless one with its id is there already; says whether it
    /// was added.
    pub fn add_decl(&mut self, decl: Decl) -> (added: bool)
        ensures
            added == (find_decl(old(self)@, decl@.id) is None),
            added ==> final(self)@ == old(self)@.push(decl@),
            !added ==> final(self)@ == old(self)@,
            added ==> find_decl(final(self)@, decl@.id) == Some(decl@),
    {
        proof {
            lemma_find_decl_push(self@, decl@, decl@.id);
        }
        if self.get_decl(&decl.id).is_some() {
            false
        } else {
            self.decls.push(decl);
            assert(self@ =~= old(self)@.push(decl@));
            true
        }
    }
}

/// The index of properties, keyed by what they document.
#[derive(Debug)]
pub struct PropertyIndex {
    pub properties: Vec<Property>,
}

impl View for PropertyIndex {
    type V = Seq<PropertyView>;

    open spec fn view(&self) -> Seq<PropertyView> {
        self.properties@.map_values(|p: Property| p@)
    }
}

impl PropertyIndex {
    /// The property that documents `owner`.
    pub fn get_property(&self, owner: &SemanticDeclId) -> (r: Option<&Property>)
        ensures
            match r {
                Some(p) => find_property(self@, *owner) == Some(p@),
                None => find_property(self@, *owner) is None,
            },
    {
        let mut i: usize = 0;
        assert(self@.skip(0) =~= self@);
        while i < self.properties.len()
            invariant
                i <= self.properties.len(),
                find_property(self@, *owner) == find_property(self@.skip(i as int), *owner),
            decreases self.properties.len() - i,
        {
            proof {
                assert(self@.skip(i as int).drop_first() =~= self@.skip(i as int + 1));
                assert(self@.skip(i as int)[0] == self.properties@[i as int]@);
            }
            if self.properties[i].owner == *owner {
                return Some(&self.properties[i]);
            }
            i += 1;
        }
        None
    }

    /// Adds `property` unless its owner is documented already; says whether
    /// it was added.
    pub fn add_property(&mut self, property: Property) -> (added: bool)
        ensures
            added == (find_property(old(self)@, property@.owner) is None),
            added ==> final(self)@ == old(self)@.push(property@),
            !added ==> final(self)@ == old(self)@,
            added ==> find_property(final(self)@, property@.owner) == Some(property@),
    {
        proof {
            lemma_find_property_push(self@, property@, property@.owner);
        }
        if self.get_property(&property.owner).is_some() {
            false
        } else {
            self.properties.push(property);
            assert(self@ =~= old(self)@.push(property@));
            true
        }
    }
}

/// The files of the workspace and the standard library's descriptions.
#[derive(Debug)]
pub struct Vfs {
    pub files: Vec<FileEntry>,
    pub std_descriptions: Vec<StdDescription>,
}

/// The mathematical value of a [`Vfs`].
pub struct VfsView {
    pub files: Seq<FileEntryView>,
    pub std_descriptions: Seq<StdDescriptionView>,
}

impl View for Vfs {
    type V = VfsView;

    open spec fn view(&self) -> VfsView {
        VfsView {
            files: self.files@.map_values(|f: FileEntry| f@),
            std_descriptions: self.std_descriptions@.map_values(|d: StdDescription| d@),
        }
    }
}

impl VfsView {
    /// The path of the file `id`, where the file is known and has one.
    pub open spec fn file_path(self, id: FileId) -> Option<Seq<Seq<char>>> {
        match find_file(self.files, id) {
            Some(f) => f.path,
            None => None,
        }
    }

    /// Whether the file `id` is known and belongs to the standard library.
    pub open spec fn is_std(self, id: FileId) -> bool {
        match find_file(self.files, id) {
            Some(f) => f.is_std,
            None => false,
        }
    }

    /// The syntax tree of the file `id`, where the file is known and has one.
    pub open spec fn syntax_tree(self, id: FileId) -> Option<Seq<SyntaxNodeView>> {
        match find_file(self.files, id) {
            Some(f) => f.tree,
            None => None,
        }
    }
}

impl Vfs {
    /// The entry of the file `id`.
    pub fn get_file(&self, id: &FileId) -> (r: Option<&FileEntry>)
        ensures
            match r {
                Some(f) => find_file(self@.files, *id) == Some(f@),
                None => find_file(self@.files, *id) is None,
            },
    {
        let mut i: usize = 0;
        assert(self@.files.skip(0) =~= self@.files);
        while i < self.files.len()
            invariant
                i <= self.files.len(),
                find_file(self@.files, *id) == find_file(self@.files.skip(i as int), *id),
            decreases self.files.len() - i,
        {
            proof {
                assert(self@.files.skip(i as int).drop_first() =~= self@.files.skip(i as int + 1));
                assert(self@.files.skip(i as int)[0] == self.files@[i as int]@);
            }
            if self.files[i].id == *id {
                return Some(&self.files[i]);
            }
            i += 1;
        }
        None
    }

    /// The path of the file `id`, as components from the root down.
    pub fn get_file_path(&self, id: &FileId) -> (r: Option<&Vec<String>>)
        ensures
            match r {
                Some(p) => self@.file_path(*id) == Some(views(p@)),
                None => self@.file_path(*id) is None,
            },
    {
        match self.get_file(id) {
            Some(f) => match &f.path {
                Some(p) => Some(p),
                None => None,
            },
            None => None,
        }
    }

    /// The syntax tree of the file `id`.
    pub fn get_syntax_tree(&self, id: &FileId) -> (r: Option<&SyntaxTree>)
        ensures
            match r {
                Some(t) => self@.syntax_tree(*id) == Some(t@),
                None => self@.syntax_tree(*id) is None,
            },
    {
        match self.get_file(id) {
            Some(f) => match &f.tree {
                Some(t) => Some(t),
                None => None,
            },
            None => None,
        }
    }

    /// Adds `file` unless a file with its id is there already; says whether
    /// it was added.
    pub fn add_file(&mut self, file: FileEntry) -> (added: bool)
        ensures
            added == (find_file(old(self)@.files, file@.id) is None),
            added ==> final(self)@.files == old(self)@.files.push(file@),
            !added ==> final(self)@.files == old(self)@.files,
            final(self)@.std_descriptions == old(self)@.std_descriptions,
    {
        if self.get_file(&file.id).is_some() {
            false
        } else {
            self.files.push(file);
            assert(self@.files =~= old(self)@.files.push(file@));
            true
        }
    }

    /// Adds a description of the standard library. Of two descriptions of
    /// one thing the one added first is found.
    pub fn add_std_description(&mut self, description: StdDescription)
        ensures
            final(self)@.std_descriptions == old(self)@.std_descriptions.push(description@),
            final(self)@.files == old(self)@.files,
    {
        self.std_descriptions.push(description);
        assert(self@.std_descriptions =~= old(self)@.std_descriptions.push(description@));
    }

    /// Whether the file `id` belongs to the standard library.
    pub fn is_std(&self, id: &FileId) -> (r: bool)
        ensures
            r == self@.is_std(*id),
    {
        match self.get_file(id) {
            Some(f) => f.is_std,
            None => false,
        }
    }

    /// The ids of all files, in the order in which they were added.
    pub fn get_all_file_ids(&self) -> (r: Vec<FileId>)
        ensures
            r@ == self@.files.map_values(|f: FileEntryView| f.id),
    {
        let mut out: Vec<FileId> = Vec::new();
        let mut i: usize = 0;
        while i < self.files.len()
            invariant
                i <= self.files.len(),
                out@ == self@.files.take(i as int).map_values(|f: FileEntryView| f.id),
            decreases self.files.len() - i,
        {
            out.push(self.files[i].id);
            assert(out@ =~= self@.files.take(i as int + 1).map_values(|f: FileEntryView| f.id));
            i += 1;
        }
        assert(self@.files.take(self.files.len() as int) =~= self@.files);
        out
    }

    /// The standard library's description of `member_name` of `owner_name`,
    /// or of the global `owner_name` where no member is named; empty where
    /// it has none.
    pub fn std_description(&self, owner_name: &str, member_name: Option<&str>) -> (r: String)
        ensures
            r@ == find_std_description(
                self@.std_descriptions,
                owner_name@,
                match member_name {
                    Some(m) => Some(m@),
                    None => None,
                },
            ),
    {
        let ghost wanted: Option<Seq<char>> = match member_name {
            Some(m) => Some(m@),
            None => None,
        };
        let mut i: usize = 0;
        assert(self@.std_descriptions.skip(0) =~= self@.std_descriptions);
        while i < self.std_descriptions.len()
            invariant
                i <= self.std_descriptions.len(),
                wanted == match member_name {
                    Some(m) => Some(m@),
                    None => None,
                },
                find_std_description(self@.std_descriptions, owner_name@, wanted)
                    == find_std_description(
                    self@.std_descriptions.skip(i as int),
                    owner_name@,
                    wanted,
                ),
            decreases self.std_descriptions.len() - i,
        {
            proof {
                assert(self@.std_descriptions.skip(i as int).drop_first()
                    =~= self@.std_descriptions.skip(i as int + 1));
                assert(self@.std_descriptions.skip(i as int)[0] == self.std_descriptions@[i as int]@);
            }
            let entry = &self.std_descriptions[i];
            let same_member = match (&entry.member_name, member_name) {
                (Some(a), Some(b)) => str_eq(a.as_str(), b),
                (None, None) => true,
                _ => false,
            };
            if str_eq(entry.owner_name.as_str(), owner_name) && same_member {
                return entry.text.clone();
            }
            i += 1;
        }
        String::new()
    }
}

/// The database of one workspace.
#[derive(Debug)]
pub struct Database {
    pub type_index: TypeIndex,
    pub signature_index: SignatureIndex,
    pub member_index: MemberIndex,
    pub decl_index: DeclIndex,
    pub property_index: PropertyIndex,
    pub vfs: Vfs,
}

/// The mathematical value of a [`Database`].
pub struct DatabaseView {
    pub types: Seq<TypeDeclView>,
    pub signatures: Seq<SignatureView>,
    pub members: Seq<MemberView>,
    pub decls: Seq<DeclView>,
    pub properties: Seq<PropertyView>,
    pub vfs: VfsView,
}

impl View for Database {
    type V = DatabaseView;

    open spec fn view(&self) -> DatabaseView {
        DatabaseView {
            types: self.type_index@,
            signatures: self.signature_index@,
            members: self.member_index@,
            decls: self.decl_index@,
            properties: self.property_index@,
            vfs: self.vfs@,
        }
    }
}

impl DatabaseView {
    /// The generic parameters of the type declaration named `name`.
    pub open spec fn generic_params(self, name: Seq<char>) -> Option<
        Seq<(Seq<char>, Option<TypeView>)>,
    > {
        match find_type_decl(self.types, name) {
            Some(d) => Some(d.generic_params),
            None => None,
        }
    }
}

impl Database {
    /// A database that holds nothing.
    pub fn new() -> (db: Database)
        ensures
            db@.types.len() == 0,
            db@.signatures.len() == 0,
            db@.members.len() == 0,
            db@.decls.len() == 0,
            db@.properties.len() == 0,
            db@.vfs.files.len() == 0,
            db@.vfs.std_descriptions.len() == 0,
    {
        Database {
            type_index: TypeIndex { decls: Vec::new() },
            signature_index: SignatureIndex { signatures: Vec::new() },
            member_index: MemberIndex { members: Vec::new() },
            decl_index: DeclIndex { decls: Vec::new() },
            property_index: PropertyIndex { properties: Vec::new() },
            vfs: Vfs { files: Vec::new(), std_descriptions: Vec::new() },
        }
    }

    pub fn get_type_index(&self) -> (r: &TypeIndex)
        ensures
            r@ == self@.types,
    {
        &self.type_index
    }

    pub fn get_signature_index(&self) -> (r: &SignatureIndex)
        ensures
            r@ == self@.signatures,
    {
        &self.signature_index
    }

    pub fn get_member_index(&self) -> (r: &MemberIndex)
        ensures
            r@ == self@.members,
    {
        &self.member_index
    }

    pub fn get_decl_index(&self) -> (r: &DeclIndex)
        ensures
            r@ == self@.decls,
    {
        &self.decl_index
    }

    pub fn get_property_index(&self) -> (r: &PropertyIndex)
        ensures
            r@ == self@.properties,
    {
        &self.property_index
    }

    pub fn get_vfs(&self) -> (r: &Vfs)
        ensures
            r@ == self@.vfs,
    {
        &self.vfs
    }
}

} // verus!
