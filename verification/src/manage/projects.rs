//! What can be changed of a project.

use vstd::prelude::*;
use crate::text::owned;

verus! {

/// What an [`Options`] holds.
pub struct OptionsView {
    /// The new name of the project, if it gets one.
    pub name: Option<Seq<char>>,
    /// The new company of the project, if it gets one.
    pub company: Option<Seq<char>>,
}

/// The changes to make to a project. Built with an [`OptionsBuilder`].
#[derive(Debug, PartialEq, Eq, Clone, Hash)]
pub struct Options {
    name: Option<String>,
    company: Option<String>,
}

/// Builds an [`Options`] value, one change at a time.
#[derive(Debug, PartialEq, Clone)]
pub struct OptionsBuilder(Options);

impl View for Options {
    type V = OptionsView;

    closed spec fn view(&self) -> OptionsView {
        OptionsView {
            name: match self.name {
                Some(n) => Some(n@),
                None => None,
            },
            company: match self.company {
                Some(c) => Some(c@),
                None => None,
            },
        }
    }
}

impl View for OptionsBuilder {
    type V = OptionsView;

    closed spec fn view(&self) -> OptionsView {
        self.0@
    }
}

impl Options {
    /// Starts a builder that changes nothing.
    pub fn builder() -> (r: OptionsBuilder)
        ensures
            r@ == (OptionsView { name: None, company: None }),
    {
        OptionsBuilder::new()
    }

    /// The new name of the project, if it gets one.
    pub fn name(&self) -> (r: Option<&str>)
        ensures
            match r {
                Some(n) => self@.name == Some(n@),
                None => self@.name is None,
            },
    {
        match &self.name {
            Some(n) => Some(n.as_str()),
            None => None,
        }
    }

    /// The new company of the project, if it gets one.
    pub fn company(&self) -> (r: Option<&str>)
        ensures
            match r {
                Some(c) => self@.company == Some(c@),
                None => self@.company is None,
            },
    {
        match &self.company {
            Some(c) => Some(c.as_str()),
            None => None,
        }
    }
}

impl OptionsBuilder {
    /// Starts a builder that changes nothing.
    pub fn new() -> (r: Self)
        ensures
            r@ == (OptionsView { name: None, company: None }),
    {
        OptionsBuilder(Options { name: None, company: None })
    }

    /// Sets the new name of the project.
    pub fn name(self, name: &str) -> (r: Self)
        ensures
            r@ == (OptionsView { name: Some(name@), ..self@ }),
    {
        let mut inner = self.0;
        inner.name = Some(owned(name));
        OptionsBuilder(inner)
    }

    /// Sets the new company of the project.
    pub fn company(self, company: &str) -> (r: Self)
        ensures
            r@ == (OptionsView { company: Some(company@), ..self@ }),
    {
        let mut inner = self.0;
        inner.company = Some(owned(company));
        OptionsBuilder(inner)
    }

    /// Finishes building.
    pub fn build(self) -> (r: Options)
        ensures
            r@ == self@,
    {
        self.0
    }
}

impl Default for OptionsBuilder {
    fn default() -> (r: Self)
        ensures
            r@ == (OptionsView { name: None, company: None }),
    {
        Self::new()
    }
}

} // verus!
