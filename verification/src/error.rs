//! What can go wrong in a render.

use vstd::prelude::*;

verus! {

/// A setting that is present with a value of the wrong kind.
#[derive(Debug, Clone, PartialEq, Eq)]
pub struct ConfigError {
    /// The key of the setting, nested keys joined by dots.
    pub key: String,
}

/// A template of the theme that the engine cannot take.
#[derive(Debug, Clone, PartialEq, Eq)]
pub enum TemplateLoadError {
    /// The template's bytes are not UTF-8 text.
    Encoding { template: String, detail: String },
    /// The template's text is not a template.
    Syntax { template: String, detail: String },
}

/// A chapter whose page the engine failed to render.
#[derive(Debug, Clone, PartialEq, Eq)]
pub struct RenderFailure {
    /// The chapter's name.
    pub chapter: String,
    /// The chapter's path.
    pub path: String,
    /// What the engine said.
    pub detail: String,
}

/// Why a render failed.
#[derive(Debug, Clone, PartialEq, Eq)]
pub enum Error {
    Config(ConfigError),
    TemplateLoad(TemplateLoadError),
    Render(RenderFailure),
}

impl ConfigError {
    /// The error as a line of text.
    pub fn to_string(&self) -> (s: String)
        ensures
            s@ == "invalid type for the setting "@ + self.key@,
    {
        let mut s = String::from_str("invalid type for the setting ");
        s.append(self.key.as_str());
        s
    }
}

impl TemplateLoadError {
    /// The name of the template that was refused.
    pub fn template(&self) -> (name: &String)
        ensures
            name@ == (match *self {
                TemplateLoadError::Encoding { template, .. } => template@,
                TemplateLoadError::Syntax { template, .. } => template@,
            }),
    {
        match self {
            TemplateLoadError::Encoding { template, .. } => template,
            TemplateLoadError::Syntax { template, .. } => template,
        }
    }

    /// The error as a line of text.
    pub fn to_string(&self) -> (s: String)
        ensures
            s@ == (match *self {
                TemplateLoadError::Encoding { template, detail } => "the template "@ + template@
                    + " is not valid UTF-8: "@ + detail@,
                TemplateLoadError::Syntax { template, detail } => "the template "@ + template@
                    + " does not parse: "@ + detail@,
            }),
    {
        let mut s = String::from_str("the template ");
        match self {
            TemplateLoadError::Encoding { template, detail } => {
                s.append(template.as_str());
                s.append(" is not valid UTF-8: ");
                s.append(detail.as_str());
            },
            TemplateLoadError::Syntax { template, detail } => {
                s.append(template.as_str());
                s.append(" does not parse: ");
                s.append(detail.as_str());
            },
        }
        s
    }
}

impl RenderFailure {
    /// The error as a line of text.
    pub fn to_string(&self) -> (s: String)
        ensures
            s@ == "Unable to render \""@ + self.chapter@ + "\" ("@ + self.path@ + "): "@
                + self.detail@,
    {
        let mut s = String::from_str("Unable to render \"");
        s.append(self.chapter.as_str());
        s.append("\" (");
        s.append(self.path.as_str());
        s.append("): ");
        s.append(self.detail.as_str());
        s
    }
}

impl Error {
    /// The error as a line of text.
    pub fn to_string(&self) -> (s: String)
        ensures
            s@ == (match *self {
                Error::Config(e) => "invalid type for the setting "@ + e.key@,
                Error::TemplateLoad(TemplateLoadError::Encoding { template, detail }) =>
                    "the template "@ + template@ + " is not valid UTF-8: "@ + detail@,
                Error::TemplateLoad(TemplateLoadError::Syntax { template, detail }) =>
                    "the template "@ + template@ + " does not parse: "@ + detail@,
                Error::Render(e) => "Unable to render \""@ + e.chapter@ + "\" ("@ + e.path@
                    + "): "@ + e.detail@,
            }),
    {
        match self {
            Error::Config(e) => e.to_string(),
            Error::TemplateLoad(e) => e.to_string(),
            Error::Render(e) => e.to_string(),
        }
    }
}

} // verus!
