//! What the library is told of the host: variable values and the state of directories.
use vstd::prelude::*;

verus! {

/// One variable of the process environment.
pub struct Variable {
    pub name: String,
    pub value: String,
}

/// What the filesystem said of one path when it was asked.
pub struct DirectoryStatus {
    /// The path as it was asked about.
    pub path: String,
    pub exists: bool,
    pub is_dir: bool,
    /// Whether the directory's children could be listed.
    pub readable: bool,
    /// The canonical absolute form of the path, where the filesystem could give one.
    pub canonical: Option<String>,
}

/// A snapshot of the host, as far as path handling needs it.
pub struct Host {
    /// The entry separator that is conventional on the host.
    pub separator: char,
    pub variables: Vec<Variable>,
    pub directories: Vec<DirectoryStatus>,
}

/// The value of the first variable called `name`, if any.
pub open spec fn variable_value(vars: Seq<Variable>, name: Seq<char>) -> Option<Seq<char>>
    decreases vars.len(),
{
    if vars.len() == 0 {
        None
    } else if vars[0].name@ == name {
        Some(vars[0].value@)
    } else {
        variable_value(vars.drop_first(), name)
    }
}

/// The first status recorded for `path`, if any. A path that nobody asked about counts
/// as one that does not exist.
pub open spec fn status_of(dirs: Seq<DirectoryStatus>, path: Seq<char>) -> Option<DirectoryStatus>
    decreases dirs.len(),
{
    if dirs.len() == 0 {
        None
    } else if dirs[0].path@ == path {
        Some(dirs[0])
    } else {
        status_of(dirs.drop_first(), path)
    }
}

/// A directory is admitted when it exists, is a directory, can be listed, and has a
/// canonical form; what is admitted is that canonical form.
pub open spec fn admitted_form(status: Option<DirectoryStatus>) -> Option<Seq<char>> {
    match status {
        Some(st) => if st.exists && st.is_dir && st.readable && st.canonical is Some {
            Some(st.canonical->0@)
        } else {
            None
        },
        None => None,
    }
}

impl Host {
    /// The value of the variable `name`, if the host has one.
    pub fn variable(&self, name: &str) -> (r: Option<&String>)
        ensures
            r matches Some(v) ==> variable_value(self.variables@, name@) == Some(v@),
            r is None ==> variable_value(self.variables@, name@) is None,
    {
        let key = String::from_str(name);
        let mut i: usize = 0;
        assert(self.variables@.skip(0) =~= self.variables@);
        while i < self.variables.len()
            invariant
                i <= self.variables@.len(),
                key@ == name@,
                variable_value(self.variables@, name@) == variable_value(self.variables@.skip(i as int), name@),
            decreases self.variables@.len() - i,
        {
            let ghost rest = self.variables@.skip(i as int);
            assert(rest.drop_first() =~= self.variables@.skip(i + 1));
            if self.variables[i].name == key {
                return Some(&self.variables[i].value);
            }
            i = i + 1;
        }
        None
    }

    /// What the host said of `path`, if it was asked.
    pub fn directory(&self, path: &str) -> (r: Option<&DirectoryStatus>)
        ensures
            r matches Some(st) ==> status_of(self.directories@, path@) == Some(*st),
            r is None ==> status_of(self.directories@, path@) is None,
    {
        let key = String::from_str(path);
        let mut i: usize = 0;
        assert(self.directories@.skip(0) =~= self.directories@);
        while i < self.directories.len()
            invariant
                i <= self.directories@.len(),
                key@ == path@,
                status_of(self.directories@, path@) == status_of(self.directories@.skip(i as int), path@),
            decreases self.directories@.len() - i,
        {
            let ghost rest = self.directories@.skip(i as int);
            assert(rest.drop_first() =~= self.directories@.skip(i + 1));
            if self.directories[i].path == key {
                return Some(&self.directories[i]);
            }
            i = i + 1;
        }
        None
    }

    /// The form in which the directory `path` is admitted, if it is.
    pub fn admitted(&self, path: &str) -> (r: Option<String>)
        ensures
            r matches Some(c) ==> admitted_form(status_of(self.directories@, path@)) == Some(c@),
            r is None ==> admitted_form(status_of(self.directories@, path@)) is None,
    {
        match self.directory(path) {
            Some(st) => if st.exists && st.is_dir && st.readable {
                match &st.canonical {
                    Some(c) => Some(c.clone()),
                    None => None,
                }
            } else {
                None
            },
            None => None,
        }
    }
}

} // verus!
