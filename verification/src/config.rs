//! The settings of one journal.

use vstd::prelude::*;
use vstd::string::StringExecFns;

verus! {

/// The settings of one journal, as its settings file holds them.
#[derive(Clone, Debug)]
pub struct EchoConfig {
    /// The title of the generated site.
    pub title: String,
    /// Who writes the journal.
    pub author: String,
    /// One line about the journal.
    pub description: String,
}

impl Default for EchoConfig {
    /// The settings of a journal that has not been given any.
    fn default() -> (config: EchoConfig)
        ensures
            config.title@ == "echo"@,
            config.author@ == "anonymous"@,
            config.description@ == "Echo - a microblog generator for your web zone"@,
    {
        EchoConfig {
            title: String::from_str("echo"),
            author: String::from_str("anonymous"),
            description: String::from_str("Echo - a microblog generator for your web zone"),
        }
    }
}

impl EchoConfig {
    /// The settings of a new journal: the given title, or `echo` where
    /// none is given, and the default author and description.
    pub fn for_project(project_name: Option<&str>) -> (config: EchoConfig)
        ensures
            config.title@ == (match project_name {
                Some(name) => name@,
                None => "echo"@,
            }),
            config.author@ == "anonymous"@,
            config.description@ == "Echo - a microblog generator for your web zone"@,
    {
        let mut config = EchoConfig::default();
        if let Some(name) = project_name {
            config.title = String::from_str(name);
        }
        config
    }
}

} // verus!
