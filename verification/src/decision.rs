//! The decision whether a kernel is compiled before it is measured.
//!
//! The decision is a function of what the user asked for and, in one case, of
//! two time stamps of the file system. Nothing here touches the file system:
//! the caller looks the time stamps up where [`BuildRequest::needs_probe`]
//! says so and hands them in.

use vstd::prelude::*;

verus! {

/// What the user asked for.
#[derive(Debug, PartialEq, Eq)]
pub struct BuildRequest {
    /// `Some(true)`: compile in any case. `Some(false)`: never compile.
    /// `None`: compile where that is needed.
    pub explicit_flag: Option<bool>,
    /// The path of the kernel's source.
    pub source_path: String,
    /// The path of the compiled kernel, where the user named one.
    pub requested_out: Option<String>,
}

/// What the file system says of the compiled kernel.
#[derive(Clone, Copy, Debug, PartialEq, Eq, Structural)]
pub enum Artifact {
    /// It cannot be opened.
    Absent,
    /// It can be opened. Both times are counted in nanoseconds from one
    /// common origin.
    Present {
        /// When the compiled kernel was created.
        created: i128,
        /// When the kernel's source was last accessed.
        source_accessed: i128,
    },
}

impl Artifact {
    /// Whether the compiled kernel is missing or older than the last access
    /// to its source.
    pub open spec fn stale(self) -> bool {
        match self {
            Artifact::Absent => true,
            Artifact::Present { created, source_accessed } => source_accessed > created,
        }
    }

    /// Whether the compiled kernel is missing or older than the last access
    /// to its source.
    pub fn is_stale(&self) -> (answer: bool)
        ensures
            answer == self.stale(),
    {
        match self {
            Artifact::Absent => true,
            Artifact::Present { created, source_accessed } => *source_accessed > *created,
        }
    }
}

/// The outcome of the decision, with the path of the file that is loaded.
#[derive(Debug, PartialEq, Eq)]
pub enum BuildState {
    /// The file at the path is loaded as it is.
    Reuse(String),
    /// The kernel is compiled to the path first.
    Rebuild(String),
}

impl BuildState {
    /// Whether the kernel is compiled first.
    pub open spec fn rebuilds(self) -> bool {
        self is Rebuild
    }

    /// The path of the file that is loaded.
    pub open spec fn path(self) -> Seq<char> {
        match self {
            BuildState::Reuse(path) => path@,
            BuildState::Rebuild(path) => path@,
        }
    }

    /// Whether the kernel is compiled first.
    pub fn is_rebuild(&self) -> (answer: bool)
        ensures
            answer == self.rebuilds(),
    {
        match self {
            BuildState::Reuse(_) => false,
            BuildState::Rebuild(_) => true,
        }
    }

    /// The path of the file that is loaded.
    pub fn target(&self) -> (path: &String)
        ensures
            path@ == self.path(),
    {
        match self {
            BuildState::Reuse(path) => path,
            BuildState::Rebuild(path) => path,
        }
    }
}

impl BuildRequest {
    /// Whether the decision depends on the file system: an output path is
    /// named and the user left the decision open.
    pub open spec fn probes(self) -> bool {
        self.requested_out is Some && self.explicit_flag is None
    }

    /// Whether the kernel is compiled to the scratch path: no output path is
    /// named and compiling is not ruled out.
    pub open spec fn scratch_used(self) -> bool {
        self.requested_out is None && self.explicit_flag != Some(false)
    }

    /// Whether the kernel is compiled, given what the file system says.
    pub open spec fn compiles(self, artifact: Artifact) -> bool {
        match self.explicit_flag {
            Some(flag) => flag,
            None => self.requested_out is None || artifact.stale(),
        }
    }

    /// The path of the file that is loaded: the output path where one is
    /// named; else the scratch path, or the source itself where compiling is
    /// ruled out.
    pub open spec fn loaded_path(self, scratch: Seq<char>) -> Seq<char> {
        match self.requested_out {
            Some(out) => out@,
            None => if self.explicit_flag == Some(false) {
                self.source_path@
            } else {
                scratch
            },
        }
    }

    /// Whether the decision depends on the file system. Where it does not,
    /// [`BuildRequest::decide`] ignores what it is told of the artifact.
    pub fn needs_probe(&self) -> (answer: bool)
        ensures
            answer == self.probes(),
    {
        self.requested_out.is_some() && self.explicit_flag.is_none()
    }

    /// Whether the kernel is compiled to the scratch path, which the caller
    /// removes when the measurement is over.
    pub fn uses_scratch(&self) -> (answer: bool)
        ensures
            answer == self.scratch_used(),
    {
        match self.explicit_flag {
            Some(false) => false,
            _ => self.requested_out.is_none(),
        }
    }

    /// Decides whether the kernel is compiled, and which file is loaded.
    ///
    /// | output path | flag  | decision                                     |
    /// |-------------|-------|----------------------------------------------|
    /// | named       | true  | compile to it                                |
    /// | named       | false | load it                                      |
    /// | named       | open  | load it unless it is stale; else compile     |
    /// | none        | true  | compile to the scratch path                  |
    /// | none        | false | load the source itself                       |
    /// | none        | open  | compile to the scratch path                  |
    pub fn decide(&self, scratch: &String, artifact: Artifact) -> (state: BuildState)
        ensures
            state.rebuilds() == self.compiles(artifact),
            state.path() == self.loaded_path(scratch@),
    {
        let compile = match self.explicit_flag {
            Some(flag) => flag,
            None => self.requested_out.is_none() || artifact.is_stale(),
        };
        let path = match &self.requested_out {
            Some(out) => out.clone(),
            None => match self.explicit_flag {
                Some(false) => self.source_path.clone(),
                _ => scratch.clone(),
            },
        };
        if compile {
            BuildState::Rebuild(path)
        } else {
            BuildState::Reuse(path)
        }
    }
}

/// Without an output path and with the decision left open, the kernel is
/// compiled to the scratch path, whatever the file system says.
pub proof fn lemma_auto_without_output(request: BuildRequest, scratch: Seq<char>, artifact: Artifact)
    requires
        request.requested_out is None,
        request.explicit_flag is None,
    ensures
        request.compiles(artifact),
        request.loaded_path(scratch) == scratch,
        request.scratch_used(),
{
}

/// With an output path that is not stale and with the decision left open,
/// the output path is loaded as it is.
pub proof fn lemma_auto_with_fresh_output(request: BuildRequest, scratch: Seq<char>, artifact: Artifact)
    requires
        request.requested_out is Some,
        request.explicit_flag is None,
        !artifact.stale(),
    ensures
        !request.compiles(artifact),
        request.loaded_path(scratch) == request.requested_out->0@,
        !request.scratch_used(),
{
}

} // verus!
