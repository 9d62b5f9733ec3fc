//! The builder of a hover: the primary line, the overloads, the
//! descriptions and the expansions of types that are gathered while the
//! hovered symbol is rendered.

use crate::semantic::{SemanticModel, SemanticModelView};
use crate::text::{lemma_views_push, opt_view, views};
use crate::types::{clone_function, FunctionType, FunctionTypeView};
use vstd::prelude::*;

verus! {

/// What the documentation says of a declaration.
#[derive(Debug)]
pub struct DescriptionInfo {
    pub description: Option<String>,
    pub see_content: Option<String>,
    pub other_content: Option<String>,
}

/// The mathematical value of a [`DescriptionInfo`].
pub struct DescriptionInfoView {
    pub description: Option<Seq<char>>,
    pub see_content: Option<Seq<char>>,
    pub other_content: Option<Seq<char>>,
}

impl View for DescriptionInfo {
    type V = DescriptionInfoView;

    open spec fn view(&self) -> DescriptionInfoView {
        DescriptionInfoView {
            description: opt_view(self.description),
            see_content: opt_view(self.see_content),
            other_content: opt_view(self.other_content),
        }
    }
}

impl DescriptionInfoView {
    /// Whether nothing is said.
    pub open spec fn is_empty(self) -> bool {
        self.description is None && self.see_content is None && self.other_content is None
    }
}

impl Clone for DescriptionInfo {
    fn clone(&self) -> (r: Self)
        ensures
            r@ == self@,
    {
        DescriptionInfo {
            description: crate::types::clone_opt_string(&self.description),
            see_content: crate::types::clone_opt_string(&self.see_content),
            other_content: crate::types::clone_opt_string(&self.other_content),
        }
    }
}

impl DescriptionInfo {
    /// A description that says nothing.
    pub fn new() -> (r: Self)
        ensures
            r@.description is None,
            r@.see_content is None,
            r@.other_content is None,
    {
        Self { description: None, see_content: None, other_content: None }
    }

    /// Whether nothing is said.
    pub fn is_empty(&self) -> (r: bool)
        ensures
            r == self@.is_empty(),
    {
        self.description.is_none() && self.see_content.is_none() && self.other_content.is_none()
    }
}

/// The view of an optional description.
pub open spec fn opt_description_view(o: Option<DescriptionInfo>) -> Option<DescriptionInfoView> {
    match o {
        Some(d) => Some(d@),
        None => None,
    }
}

/// A copy of an optional description.
pub fn clone_opt_description(o: &Option<DescriptionInfo>) -> (r: Option<DescriptionInfo>)
    ensures
        opt_description_view(r) == opt_description_view(*o),
{
    match o {
        Some(d) => Some(d.clone()),
        None => None,
    }
}

/// The hover under construction.
#[derive(Debug)]
pub struct HoverBuilder<'a> {
    pub semantic_model: &'a SemanticModel<'a>,
    /// Rendered for a completion item: returns on one line.
    pub is_completion: bool,
    /// The function that the hovered call resolves to, where a call is
    /// hovered.
    pub call_function: Option<FunctionType>,
    /// The primary line.
    pub type_description: String,
    pub signature_overload: Option<Vec<String>>,
    pub annotation_description: Vec<String>,
    pub see_content: Option<String>,
    pub other_content: Option<String>,
    /// Expansions of types, kept beside the primary line.
    pub type_expansion: Option<Vec<String>>,
}

/// The mathematical value of a [`HoverBuilder`].
pub struct HoverBuilderView {
    pub model: SemanticModelView,
    pub is_completion: bool,
    pub call_function: Option<FunctionTypeView>,
    pub type_description: Seq<char>,
    pub signature_overload: Option<Seq<Seq<char>>>,
    pub annotation_description: Seq<Seq<char>>,
    pub see_content: Option<Seq<char>>,
    pub other_content: Option<Seq<char>>,
    pub type_expansion: Option<Seq<Seq<char>>>,
}

impl<'a> View for HoverBuilder<'a> {
    type V = HoverBuilderView;

    open spec fn view(&self) -> HoverBuilderView {
        HoverBuilderView {
            model: self.semantic_model@,
            is_completion: self.is_completion,
            call_function: match self.call_function {
                Some(f) => Some(f@),
                None => None,
            },
            type_description: self.type_description@,
            signature_overload: match self.signature_overload {
                Some(v) => Some(views(v@)),
                None => None,
            },
            annotation_description: views(self.annotation_description@),
            see_content: opt_view(self.see_content),
            other_content: opt_view(self.other_content),
            type_expansion: match self.type_expansion {
                Some(v) => Some(views(v@)),
                None => None,
            },
        }
    }
}

impl HoverBuilderView {
    /// The expansions gathered so far.
    pub open spec fn expansions(self) -> Seq<Seq<char>> {
        match self.type_expansion {
            Some(e) => e,
            None => Seq::empty(),
        }
    }

    /// The builder after the expansion `text` was added.
    pub open spec fn add_expansion(self, text: Seq<char>) -> HoverBuilderView {
        HoverBuilderView { type_expansion: Some(self.expansions().push(text)), ..self }
    }

    /// The builder after the expansions `texts` were added, in order.
    pub open spec fn add_expansions(self, texts: Seq<Seq<char>>) -> HoverBuilderView {
        if texts.len() == 0 {
            self
        } else {
            HoverBuilderView { type_expansion: Some(self.expansions() + texts), ..self }
        }
    }

    /// The builder after the overload `text` was added.
    pub open spec fn add_overload(self, text: Seq<char>) -> HoverBuilderView {
        HoverBuilderView {
            signature_overload: Some(
                match self.signature_overload {
                    Some(o) => o.push(text),
                    None => seq![text],
                },
            ),
            ..self
        }
    }

    /// The builder after the overloads `texts` were added, in order.
    pub open spec fn add_overloads(self, texts: Seq<Seq<char>>) -> HoverBuilderView
        decreases texts.len(),
    {
        if texts.len() == 0 {
            self
        } else {
            self.add_overloads(texts.drop_last()).add_overload(texts.last())
        }
    }

    /// The builder after a description was added: its text joins the
    /// descriptions; its references and its other tags replace those held.
    pub open spec fn add_description(self, info: Option<DescriptionInfoView>) -> HoverBuilderView {
        match info {
            Some(i) => HoverBuilderView {
                annotation_description: match i.description {
                    Some(d) => self.annotation_description.push(d),
                    None => self.annotation_description,
                },
                see_content: match i.see_content {
                    Some(s) => Some(s),
                    None => self.see_content,
                },
                other_content: match i.other_content {
                    Some(o) => Some(o),
                    None => self.other_content,
                },
                ..self
            },
            None => self,
        }
    }
}

/// Adding expansions in two goes is adding them in one.
pub proof fn lemma_add_expansions_twice(b: HoverBuilderView, first: Seq<Seq<char>>, second: Seq<Seq<char>>)
    ensures
        b.add_expansions(first).add_expansions(second) == b.add_expansions(first + second),
{
    if first.len() == 0 {
        assert(first + second =~= second);
    } else if second.len() == 0 {
        assert(first + second =~= first);
    } else {
        assert((b.expansions() + first) + second =~= b.expansions() + (first + second));
    }
}

/// Adding one expansion is adding a list of one.
pub proof fn lemma_add_expansion_is_list(b: HoverBuilderView, text: Seq<char>)
    ensures
        b.add_expansion(text) == b.add_expansions(seq![text]),
{
    assert(b.expansions().push(text) =~= b.expansions() + seq![text]);
}

impl<'a> HoverBuilder<'a> {
    /// A builder with nothing gathered yet.
    pub fn new(
        semantic_model: &'a SemanticModel<'a>,
        call_function: Option<FunctionType>,
        is_completion: bool,
    ) -> (r: HoverBuilder<'a>)
        ensures
            r@.model == semantic_model@,
            r@.is_completion == is_completion,
            r@.call_function == match call_function {
                Some(f) => Some(f@),
                None => None,
            },
            r@.type_description.len() == 0,
            r@.signature_overload is None,
            r@.annotation_description.len() == 0,
            r@.see_content is None,
            r@.other_content is None,
            r@.type_expansion is None,
    {
        HoverBuilder {
            semantic_model,
            is_completion,
            call_function,
            type_description: String::new(),
            signature_overload: None,
            annotation_description: Vec::new(),
            see_content: None,
            other_content: None,
            type_expansion: None,
        }
    }

    /// The function that the hovered call resolves to.
    pub fn get_call_function(&self) -> (r: Option<FunctionType>)
        ensures
            match r {
                Some(f) => self@.call_function == Some(f@),
                None => self@.call_function is None,
            },
    {
        match &self.call_function {
            Some(f) => Some(clone_function(f)),
            None => None,
        }
    }

    /// Sets the primary line.
    pub fn set_type_description(&mut self, type_description: String)
        ensures
            final(self)@ == (HoverBuilderView {
                type_description: type_description@,
                ..old(self)@
            }),
    {
        self.type_description = type_description;
    }

    /// Forgets the overloads gathered so far.
    pub fn clear_signature_overload(&mut self)
        ensures
            final(self)@ == (HoverBuilderView { signature_overload: None, ..old(self)@ }),
    {
        self.signature_overload = None;
    }

    /// Adds an overload after those gathered so far.
    pub fn add_signature_overload(&mut self, signature_overload: String)
        ensures
            final(self)@ == old(self)@.add_overload(signature_overload@),
    {
        let mut list = match self.signature_overload.take() {
            Some(v) => v,
            None => Vec::new(),
        };
        proof {
            lemma_views_push(list@, signature_overload);
            if old(self).signature_overload is None {
                assert(views(list@).push(signature_overload@) =~= seq![signature_overload@]);
            }
        }
        list.push(signature_overload);
        self.signature_overload = Some(list);
    }

    /// Adds overloads after those gathered so far, in order.
    pub fn add_signature_overloads(&mut self, overloads: &Vec<String>)
        ensures
            final(self)@ == old(self)@.add_overloads(views(overloads@)),
    {
        let ghost texts = views(overloads@);
        let mut i: usize = 0;
        assert(texts.take(0).len() == 0);
        while i < overloads.len()
            invariant
                i <= overloads.len(),
                texts == views(overloads@),
                self@ == old(self)@.add_overloads(texts.take(i as int)),
            decreases overloads.len() - i,
        {
            proof {
                assert(texts.take(i as int + 1).drop_last() =~= texts.take(i as int));
                assert(texts.take(i as int + 1).last() == overloads@[i as int]@);
            }
            self.add_signature_overload(overloads[i].clone());
            i += 1;
        }
        assert(texts.take(overloads.len() as int) =~= texts);
    }

    /// Adds what a description says: its text after the descriptions
    /// gathered so far, its references and other tags in place of those held.
    pub fn add_description_from_info(&mut self, info: Option<DescriptionInfo>)
        ensures
            final(self)@ == old(self)@.add_description(opt_description_view(info)),
    {
        match info {
            Some(i) => {
                match i.description {
                    Some(d) => {
                        proof {
                            lemma_views_push(self.annotation_description@, d);
                        }
                        self.annotation_description.push(d);
                    },
                    None => {},
                }
                match i.see_content {
                    Some(s) => {
                        self.see_content = Some(s);
                    },
                    None => {},
                }
                match i.other_content {
                    Some(o) => {
                        self.other_content = Some(o);
                    },
                    None => {},
                }
            },
            None => {},
        }
    }

    /// How many expansions are gathered.
    pub fn get_type_expansion_count(&self) -> (r: usize)
        ensures
            r == self@.expansions().len(),
    {
        match &self.type_expansion {
            Some(v) => v.len(),
            None => 0,
        }
    }

    /// Adds an expansion after those gathered so far.
    pub fn add_type_expansion(&mut self, type_expansion: String)
        ensures
            final(self)@ == old(self)@.add_expansion(type_expansion@),
    {
        let mut list = match self.type_expansion.take() {
            Some(v) => v,
            None => Vec::new(),
        };
        proof {
            lemma_views_push(list@, type_expansion);
            if old(self).type_expansion is None {
                assert(views(list@) =~= Seq::<Seq<char>>::empty());
            }
        }
        list.push(type_expansion);
        self.type_expansion = Some(list);
    }

    /// Takes the expansions from position `start` on out of the builder
    /// and hands them over; `None` where no expansion was ever gathered.
    pub fn pop_type_expansion(&mut self, start: usize) -> (r: Option<Vec<String>>)
        requires
            start <= old(self)@.expansions().len(),
        ensures
            match r {
                Some(taken) => old(self)@.type_expansion is Some && views(taken@) == old(
                    self,
                )@.expansions().skip(start as int) && final(self)@ == (HoverBuilderView {
                    type_expansion: Some(old(self)@.expansions().take(start as int)),
                    ..old(self)@
                }),
                None => old(self)@.type_expansion is None && final(self)@ == old(self)@,
            },
    {
        match self.type_expansion.take() {
            Some(list) => {
                let mut list = list;
                let taken = list.split_off(start);
                proof {
                    assert(views(taken@) =~= old(self)@.expansions().skip(start as int));
                    assert(views(list@) =~= old(self)@.expansions().take(start as int));
                }
                self.type_expansion = Some(list);
                Some(taken)
            },
            None => None,
        }
    }
}

} // verus!
