//! Stories: titled units of writing, known by their id.

use vstd::prelude::*;

verus! {

/// A story. Its id never changes; the other fields do.
#[derive(Debug, PartialEq, Eq)]
pub struct Story {
    pub id: String,
    pub title: String,
    pub description: String,
    pub updated_at: String,
    pub cover_color: String,
}

pub struct StoryView {
    pub id: Seq<char>,
    pub title: Seq<char>,
    pub description: Seq<char>,
    pub updated_at: Seq<char>,
    pub cover_color: Seq<char>,
}

impl View for Story {
    type V = StoryView;

    open spec fn view(&self) -> StoryView {
        StoryView {
            id: self.id@,
            title: self.title@,
            description: self.description@,
            updated_at: self.updated_at@,
            cover_color: self.cover_color@,
        }
    }
}

impl Clone for Story {
    fn clone(&self) -> (r: Self)
        ensures
            r@ == self@,
    {
        Story {
            id: self.id.clone(),
            title: self.title.clone(),
            description: self.description.clone(),
            updated_at: self.updated_at.clone(),
            cover_color: self.cover_color.clone(),
        }
    }
}

/// The views of a list of stories.
pub open spec fn story_views(s: Seq<Story>) -> Seq<StoryView> {
    s.map_values(|t: Story| t@)
}

/// A copy of a list of stories.
pub fn clone_stories(v: &Vec<Story>) -> (r: Vec<Story>)
    ensures
        story_views(r@) == story_views(v@),
{
    let mut out: Vec<Story> = Vec::new();
    let mut i: usize = 0;
    while i < v.len()
        invariant
            i <= v.len(),
            out@.len() == i,
            forall|j: int| 0 <= j < i ==> out@[j]@ == v@[j]@,
        decreases v.len() - i,
    {
        out.push(v[i].clone());
        i += 1;
    }
    assert(story_views(out@) =~= story_views(v@));
    out
}

/// What the user gives to make a story.
#[derive(Debug, PartialEq, Eq)]
pub struct CreateStoryInput {
    pub title: String,
    pub description: String,
}

pub struct CreateStoryInputView {
    pub title: Seq<char>,
    pub description: Seq<char>,
}

impl View for CreateStoryInput {
    type V = CreateStoryInputView;

    open spec fn view(&self) -> CreateStoryInputView {
        CreateStoryInputView { title: self.title@, description: self.description@ }
    }
}

impl Clone for CreateStoryInput {
    fn clone(&self) -> (r: Self)
        ensures
            r@ == self@,
    {
        CreateStoryInput { title: self.title.clone(), description: self.description.clone() }
    }
}

} // verus!
