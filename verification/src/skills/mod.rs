//! The registry of skills loaded from subscribed repositories.

use vstd::prelude::*;

verus! {

/// A loaded skill.
pub struct Skill {
    pub name: String,
    pub content: String,
    pub source_repo: String,
}

/// The skills loaded so far.
pub struct SkillRegistry {
    skills: Vec<Skill>,
}

impl SkillRegistry {
    /// The loaded skills, in load order.
    pub closed spec fn skills(self) -> Seq<Skill> {
        self.skills@
    }

    /// An empty registry.
    pub fn new() -> (r: Self)
        ensures
            r.skills().len() == 0,
    {
        SkillRegistry { skills: Vec::new() }
    }

    /// Subscribes to the skills of a GitHub repository (`owner/repo`). Fetching
    /// is not available yet: the call succeeds and loads nothing.
    pub fn load_from_github(&mut self, owner_repo: &str) -> (r: Result<(), String>)
        ensures
            r is Ok,
            final(self).skills() == old(self).skills(),
    {
        Ok(())
    }

    /// The loaded skills.
    pub fn list(&self) -> (r: &[Skill])
        ensures
            r@ == self.skills(),
    {
        self.skills.as_slice()
    }

    /// The loaded skills (the name the tools use).
    pub fn list_skills(&self) -> (r: &[Skill])
        ensures
            r@ == self.skills(),
    {
        self.list()
    }
}

} // verus!
