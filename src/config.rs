use vstd::prelude::*;

verus! {

/// The launch configuration of one server, as given to its last start.
#[derive(Clone, Debug)]
pub struct ServerConfig {
    pub id: String,
    pub path: String,
    pub jar_file: String,
    pub ram: u32,
    pub java_path: Option<String>,
    pub startup_flags: Option<String>,
    pub auto_restart: bool,
}

/// A copy of an optional string that is provably equal to it.
pub fn copy_opt(s: &Option<String>) -> (r: Option<String>)
    ensures
        r == *s,
{
    match s {
        Some(t) => Some(t.clone()),
        None => None,
    }
}

impl ServerConfig {
    /// The configuration of a start request; auto-restart is off unless asked for.
    pub fn new(
        id: String,
        path: String,
        jar_file: String,
        ram: u32,
        java_path: Option<String>,
        startup_flags: Option<String>,
        auto_restart: Option<bool>,
    ) -> (r: ServerConfig)
        ensures
            r.id == id,
            r.path == path,
            r.jar_file == jar_file,
            r.ram == ram,
            r.java_path == java_path,
            r.startup_flags == startup_flags,
            r.auto_restart == (auto_restart == Some(true)),
    {
        let flag = match auto_restart {
            Some(b) => b,
            None => false,
        };
        ServerConfig { id, path, jar_file, ram, java_path, startup_flags, auto_restart: flag }
    }

    /// A field-by-field copy.
    pub fn duplicate(&self) -> (r: ServerConfig)
        ensures
            r == *self,
    {
        ServerConfig {
            id: self.id.clone(),
            path: self.path.clone(),
            jar_file: self.jar_file.clone(),
            ram: self.ram,
            java_path: copy_opt(&self.java_path),
            startup_flags: copy_opt(&self.startup_flags),
            auto_restart: self.auto_restart,
        }
    }
}

} // verus!
