//! The setting library: tags, categories and templates, kept per story and
//! once for the whole project.

use vstd::prelude::*;
use crate::text::{clone_opt_text, clone_texts, opt_text, texts};

verus! {

/// A named, coloured tag.
#[derive(Debug, PartialEq, Eq)]
pub struct SettingTag {
    pub name: String,
    pub color: String,
}

pub struct SettingTagView {
    pub name: Seq<char>,
    pub color: Seq<char>,
}

impl View for SettingTag {
    type V = SettingTagView;

    open spec fn view(&self) -> SettingTagView {
        SettingTagView { name: self.name@, color: self.color@ }
    }
}

impl Clone for SettingTag {
    fn clone(&self) -> (r: Self)
        ensures
            r@ == self@,
    {
        SettingTag { name: self.name.clone(), color: self.color.clone() }
    }
}

/// The views of a list of tags.
pub open spec fn tag_views(s: Seq<SettingTag>) -> Seq<SettingTagView> {
    s.map_values(|t: SettingTag| t@)
}

/// A copy of a list of tags.
pub fn clone_tags(v: &Vec<SettingTag>) -> (r: Vec<SettingTag>)
    ensures
        tag_views(r@) == tag_views(v@),
{
    let mut out: Vec<SettingTag> = Vec::new();
    let mut i: usize = 0;
    while i < v.len()
        invariant
            i <= v.len(),
            out@.len() == i,
            forall|j: int| 0 <= j < i ==> out@[j]@ == v@[j]@,
        decreases v.len() - i,
    {
        out.push(v[i].clone());
        i += 1;
    }
    assert(tag_views(out@) =~= tag_views(v@));
    out
}

/// A free-form field of a template.
#[derive(Debug, PartialEq, Eq)]
pub struct SettingCustomField {
    pub name: String,
    pub value: String,
    pub size: Option<String>,
}

pub struct SettingCustomFieldView {
    pub name: Seq<char>,
    pub value: Seq<char>,
    pub size: Option<Seq<char>>,
}

impl View for SettingCustomField {
    type V = SettingCustomFieldView;

    open spec fn view(&self) -> SettingCustomFieldView {
        SettingCustomFieldView { name: self.name@, value: self.value@, size: opt_text(self.size) }
    }
}

impl Clone for SettingCustomField {
    fn clone(&self) -> (r: Self)
        ensures
            r@ == self@,
    {
        SettingCustomField {
            name: self.name.clone(),
            value: self.value.clone(),
            size: clone_opt_text(&self.size),
        }
    }
}

/// The views of a list of fields.
pub open spec fn custom_field_views(s: Seq<SettingCustomField>) -> Seq<SettingCustomFieldView> {
    s.map_values(|f: SettingCustomField| f@)
}

/// A copy of a list of fields.
pub fn clone_custom_fields(v: &Vec<SettingCustomField>) -> (r: Vec<SettingCustomField>)
    ensures
        custom_field_views(r@) == custom_field_views(v@),
{
    let mut out: Vec<SettingCustomField> = Vec::new();
    let mut i: usize = 0;
    while i < v.len()
        invariant
            i <= v.len(),
            out@.len() == i,
            forall|j: int| 0 <= j < i ==> out@[j]@ == v@[j]@,
        decreases v.len() - i,
    {
        out.push(v[i].clone());
        i += 1;
    }
    assert(custom_field_views(out@) =~= custom_field_views(v@));
    out
}

/// What a template fills in when a setting is made from it.
#[derive(Debug, PartialEq, Eq)]
pub struct SettingTemplatePreset {
    pub kind: String,
    pub summary: Option<String>,
    pub content: Option<String>,
    pub image_url: Option<String>,
    pub category: Option<String>,
    pub tags: Vec<SettingTag>,
    pub custom_fields: Vec<SettingCustomField>,
    pub color: Option<String>,
}

pub struct SettingTemplatePresetView {
    pub kind: Seq<char>,
    pub summary: Option<Seq<char>>,
    pub content: Option<Seq<char>>,
    pub image_url: Option<Seq<char>>,
    pub category: Option<Seq<char>>,
    pub tags: Seq<SettingTagView>,
    pub custom_fields: Seq<SettingCustomFieldView>,
    pub color: Option<Seq<char>>,
}

impl View for SettingTemplatePreset {
    type V = SettingTemplatePresetView;

    open spec fn view(&self) -> SettingTemplatePresetView {
        SettingTemplatePresetView {
            kind: self.kind@,
            summary: opt_text(self.summary),
            content: opt_text(self.content),
            image_url: opt_text(self.image_url),
            category: opt_text(self.category),
            tags: tag_views(self.tags@),
            custom_fields: custom_field_views(self.custom_fields@),
            color: opt_text(self.color),
        }
    }
}

impl Clone for SettingTemplatePreset {
    fn clone(&self) -> (r: Self)
        ensures
            r@ == self@,
    {
        SettingTemplatePreset {
            kind: self.kind.clone(),
            summary: clone_opt_text(&self.summary),
            content: clone_opt_text(&self.content),
            image_url: clone_opt_text(&self.image_url),
            category: clone_opt_text(&self.category),
            tags: clone_tags(&self.tags),
            custom_fields: clone_custom_fields(&self.custom_fields),
            color: clone_opt_text(&self.color),
        }
    }
}

/// A named preset.
#[derive(Debug, PartialEq, Eq)]
pub struct SettingTemplate {
    pub id: String,
    pub name: String,
    pub preset: SettingTemplatePreset,
}

pub struct SettingTemplateView {
    pub id: Seq<char>,
    pub name: Seq<char>,
    pub preset: SettingTemplatePresetView,
}

impl View for SettingTemplate {
    type V = SettingTemplateView;

    open spec fn view(&self) -> SettingTemplateView {
        SettingTemplateView { id: self.id@, name: self.name@, preset: self.preset@ }
    }
}

impl Clone for SettingTemplate {
    fn clone(&self) -> (r: Self)
        ensures
            r@ == self@,
    {
        SettingTemplate {
            id: self.id.clone(),
            name: self.name.clone(),
            preset: self.preset.clone(),
        }
    }
}

/// The views of a list of templates.
pub open spec fn template_views(s: Seq<SettingTemplate>) -> Seq<SettingTemplateView> {
    s.map_values(|t: SettingTemplate| t@)
}

/// A copy of a list of templates.
pub fn clone_templates(v: &Vec<SettingTemplate>) -> (r: Vec<SettingTemplate>)
    ensures
        template_views(r@) == template_views(v@),
{
    let mut out: Vec<SettingTemplate> = Vec::new();
    let mut i: usize = 0;
    while i < v.len()
        invariant
            i <= v.len(),
            out@.len() == i,
            forall|j: int| 0 <= j < i ==> out@[j]@ == v@[j]@,
        decreases v.len() - i,
    {
        out.push(v[i].clone());
        i += 1;
    }
    assert(template_views(out@) =~= template_views(v@));
    out
}

/// Tags, categories and templates.
#[derive(Debug, PartialEq, Eq)]
pub struct SettingLibrary {
    pub tags: Vec<SettingTag>,
    pub categories: Vec<String>,
    pub templates: Vec<SettingTemplate>,
}

pub struct SettingLibraryView {
    pub tags: Seq<SettingTagView>,
    pub categories: Seq<Seq<char>>,
    pub templates: Seq<SettingTemplateView>,
}

impl View for SettingLibrary {
    type V = SettingLibraryView;

    open spec fn view(&self) -> SettingLibraryView {
        SettingLibraryView {
            tags: tag_views(self.tags@),
            categories: texts(self.categories@),
            templates: template_views(self.templates@),
        }
    }
}

impl Clone for SettingLibrary {
    fn clone(&self) -> (r: Self)
        ensures
            r@ == self@,
    {
        SettingLibrary {
            tags: clone_tags(&self.tags),
            categories: clone_texts(&self.categories),
            templates: clone_templates(&self.templates),
        }
    }
}

/// The library of a new story or project: no tags, no templates, and the
/// three stock categories.
pub open spec fn default_library_view() -> SettingLibraryView {
    SettingLibraryView {
        tags: Seq::empty(),
        categories: seq!["世界观"@, "角色"@, "道具"@],
        templates: Seq::empty(),
    }
}

/// The library of a new story or project.
pub fn default_library() -> (r: SettingLibrary)
    ensures
        r@ == default_library_view(),
{
    let mut categories: Vec<String> = Vec::new();
    categories.push("世界观".to_owned());
    categories.push("角色".to_owned());
    categories.push("道具".to_owned());
    let r = SettingLibrary { tags: Vec::new(), categories, templates: Vec::new() };
    assert(r@.tags =~= default_library_view().tags);
    assert(r@.categories =~= default_library_view().categories);
    assert(r@.templates =~= default_library_view().templates);
    r
}

} // verus!
