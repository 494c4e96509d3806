//! Request bodies of the skill endpoints, and the skills an import holds.
use vstd::prelude::*;

verus! {

/// An import of skills in any of its three shapes: one skill, a list of
/// skills, or a list wrapped as `{skills: [...]}`.
pub enum ImportBody<T> {
    One(T),
    Many(Vec<T>),
    Wrapped { skills: Vec<T> },
}

impl<T> ImportBody<T> {
    /// The skills the import holds, in order, whatever its shape.
    pub fn into_items(self) -> (r: Vec<T>)
        ensures
            r@ == match self {
                ImportBody::One(x) => seq![x],
                ImportBody::Many(v) => v@,
                ImportBody::Wrapped { skills } => skills@,
            },
    {
        match self {
            ImportBody::One(x) => {
                let mut v: Vec<T> = Vec::new();
                v.push(x);
                v
            },
            ImportBody::Many(v) => v,
            ImportBody::Wrapped { skills } => skills,
        }
    }
}

/// A partial update of a skill (absent fields are kept).
pub struct UpdateSkillBody {
    pub enabled: Option<bool>,
    pub name: Option<String>,
    pub description: Option<String>,
    pub content: Option<String>,
    pub allowed_tools: Option<String>,
    pub run_as_subagent: Option<bool>,
    pub model: Option<String>,
}

} // verus!
