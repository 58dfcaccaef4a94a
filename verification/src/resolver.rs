//! Which pager to run: the answer is read off a snapshot of the process
//! environment, taken by the caller before the launch.

use crate::search::{
    bytes_equal, bytes_of, candidates, contents, find_first_existing, first_existing, owned,
    search_candidates,
};
use vstd::prelude::*;
use vstd::string::*;

verus! {

/// The variable whose mere presence switches paging off.
pub const DISABLE_MARKER: &'static str = "NOPAGER";

/// The variable that holds the executable search path.
pub const SEARCH_PATH: &'static str = "PATH";

/// The program that serves as pager where none is configured.
pub const DEFAULT_PAGER: &'static str = "more";

/// One variable of the process environment.
#[derive(Clone, Debug)]
pub struct Variable {
    pub name: Vec<u8>,
    pub value: Vec<u8>,
}

/// What the resolver may know of the world: the variables of the process
/// environment, and which of the paths that a search looks at exist.
#[derive(Clone, Debug)]
pub struct Environment {
    /// The variables, as the process holds them. Of two with one name the
    /// first counts.
    pub variables: Vec<Variable>,
    /// The paths that are known to exist on the filesystem. A path that is
    /// not listed counts as missing, so the list has to cover the paths at
    /// which a search looks: `search_paths` names them.
    pub existing: Vec<Vec<u8>>,
}

/// The mathematical content of an `Environment`.
pub struct EnvironmentView {
    pub variables: Seq<(Seq<u8>, Seq<u8>)>,
    pub existing: Seq<Seq<u8>>,
}

impl View for Variable {
    type V = (Seq<u8>, Seq<u8>);

    open spec fn view(&self) -> (Seq<u8>, Seq<u8>) {
        (self.name@, self.value@)
    }
}

impl View for Environment {
    type V = EnvironmentView;

    open spec fn view(&self) -> EnvironmentView {
        EnvironmentView {
            variables: Seq::new(self.variables@.len(), |i: int| self.variables@[i]@),
            existing: contents(self.existing@),
        }
    }
}

/// Whether `variables[i]` is named `name` and no variable before it is.
pub open spec fn is_first_named(variables: Seq<(Seq<u8>, Seq<u8>)>, name: Seq<u8>, i: int) -> bool {
    &&& 0 <= i < variables.len()
    &&& variables[i].0 == name
    &&& forall|j: int| 0 <= j < i ==> (#[trigger] variables[j]).0 != name
}

impl EnvironmentView {
    /// The value of the variable `name`: `None` where it is unset.
    pub open spec fn value_of(self, name: Seq<u8>) -> Option<Seq<u8>> {
        if exists|i: int| is_first_named(self.variables, name, i) {
            Some(self.variables[choose|i: int| is_first_named(self.variables, name, i)].1)
        } else {
            None
        }
    }

    /// Whether paging is switched off.
    pub open spec fn disabled(self) -> bool {
        self.value_of(DISABLE_MARKER.spec_bytes()) is Some
    }

    /// The first path among those that the search path gives for `name`
    /// that exists: `None` where there is none, or no search path.
    pub open spec fn which(self, name: Seq<u8>) -> Option<Seq<u8>> {
        match self.value_of(SEARCH_PATH.spec_bytes()) {
            Some(path) => first_existing(candidates(path, name), self.existing),
            None => None,
        }
    }

    /// The pager that the variable `variable` and the search path give.
    pub open spec fn resolve(self, variable: Seq<u8>) -> Option<Seq<u8>> {
        if self.disabled() {
            None
        } else {
            match self.value_of(variable) {
                Some(value) if value.len() > 0 => Some(value),
                _ => self.which(DEFAULT_PAGER.spec_bytes()),
            }
        }
    }
}

impl Environment {
    /// Looks a variable up by its name.
    pub fn var_os(&self, name: &str) -> (value: Option<&Vec<u8>>)
        ensures
            match value {
                Some(bytes) => self@.value_of(name.spec_bytes()) == Some(bytes@),
                None => self@.value_of(name.spec_bytes()) is None,
            },
    {
        let wanted = name.as_bytes();
        let mut i: usize = 0;
        while i < self.variables.len()
            invariant
                i <= self.variables.len(),
                wanted@ == name.spec_bytes(),
                forall|k: int| 0 <= k < i ==> (#[trigger] self@.variables[k]).0 != wanted@,
            decreases self.variables.len() - i,
        {
            if bytes_equal(self.variables[i].name.as_slice(), wanted) {
                assert(is_first_named(self@.variables, wanted@, i as int));
                return Some(&self.variables[i].value);
            }
            i += 1;
        }
        None
    }
}

/// The value of the variable `var`, as a string that a C interface can
/// take: `None` where the variable is unset, and where its value holds a
/// zero byte.
pub fn getenv(var: &str, environment: &Environment) -> (value: Option<Vec<u8>>)
    ensures
        bytes_of(value) == match environment@.value_of(var.spec_bytes()) {
            Some(bytes) if !bytes.contains(0u8) => Some(bytes),
            _ => None,
        },
{
    match environment.var_os(var) {
        Some(bytes) => {
            let mut i: usize = 0;
            while i < bytes.len()
                invariant
                    i <= bytes.len(),
                    environment@.value_of(var.spec_bytes()) == Some(bytes@),
                    forall|k: int| 0 <= k < i ==> bytes@[k] != 0u8,
                decreases bytes.len() - i,
            {
                if bytes[i] == 0u8 {
                    return None;
                }
                i += 1;
            }
            Some(owned(bytes.as_slice()))
        },
        None => None,
    }
}

/// The paths at which a search for `exec` looks, in order: what the caller
/// is to probe before it fills in `Environment::existing`.
pub fn search_paths(exec: &str, environment: &Environment) -> (paths: Vec<Vec<u8>>)
    ensures
        contents(paths@) == match environment@.value_of(SEARCH_PATH.spec_bytes()) {
            Some(path) => candidates(path, exec.spec_bytes()),
            None => Seq::<Seq<u8>>::empty(),
        },
{
    match environment.var_os(SEARCH_PATH) {
        Some(path) => search_candidates(path.as_slice(), exec.as_bytes()),
        None => Vec::new(),
    }
}

/// Searches the directories of the search path, in the order listed, for
/// `exec`, and returns the first path that exists.
pub fn which(exec: &str, environment: &Environment) -> (found: Option<Vec<u8>>)
    ensures
        bytes_of(found) == environment@.which(exec.spec_bytes()),
{
    match environment.var_os(SEARCH_PATH) {
        Some(path) => {
            let paths = search_candidates(path.as_slice(), exec.as_bytes());
            find_first_existing(paths, &environment.existing)
        },
        None => None,
    }
}

/// Whether a search for `exec` finds anything.
pub fn found_in_path(exec: &str, environment: &Environment) -> (found: bool)
    ensures
        found == environment@.which(exec.spec_bytes()) is Some,
{
    which(exec, environment).is_some()
}

/// The bare name of the default pager, where a search finds that program.
pub fn default_pager(environment: &Environment) -> (pager: Option<Vec<u8>>)
    ensures
        bytes_of(pager) == if environment@.which(DEFAULT_PAGER.spec_bytes()) is Some {
            Some(DEFAULT_PAGER.spec_bytes())
        } else {
            None
        },
{
    if found_in_path(DEFAULT_PAGER, environment) {
        Some(owned(DEFAULT_PAGER.as_bytes()))
    } else {
        None
    }
}

/// Resolves the pager. Where paging is switched off there is none. Else a
/// value of the variable `env` that is not empty is the pager, word for
/// word, whether or not such a program exists. Else the pager is the first
/// path that a search for the default pager finds, if it finds one.
pub fn find_pager(env: &str, environment: &Environment) -> (pager: Option<Vec<u8>>)
    ensures
        bytes_of(pager) == environment@.resolve(env.spec_bytes()),
        environment@.disabled() ==> pager is None,
        environment@.value_of(env.spec_bytes()) matches Some(value) ==> (!environment@.disabled()
            && value.len() > 0 ==> bytes_of(pager) == Some(value)),
        !environment@.disabled() && environment@.value_of(env.spec_bytes()) is None ==> bytes_of(
            pager,
        ) == environment@.which(DEFAULT_PAGER.spec_bytes()),
{
    if environment.var_os(DISABLE_MARKER).is_some() {
        return None;
    }
    match environment.var_os(env) {
        Some(value) => {
            if value.len() > 0 {
                return Some(owned(value.as_slice()));
            }
        },
        None => {},
    }
    which(DEFAULT_PAGER, environment)
}

/// Where a variable of the name is present, one of them is the first.
proof fn lemma_some_named_is_first(variables: Seq<(Seq<u8>, Seq<u8>)>, name: Seq<u8>, i: int)
    requires
        0 <= i < variables.len(),
        variables[i].0 == name,
    ensures
        exists|j: int| is_first_named(variables, name, j),
    decreases i,
{
    if exists|j: int| 0 <= j < i && (#[trigger] variables[j]).0 == name {
        let j = choose|j: int| 0 <= j < i && (#[trigger] variables[j]).0 == name;
        lemma_some_named_is_first(variables, name, j);
    } else {
        assert(is_first_named(variables, name, i));
    }
}

/// A variable has a value exactly where the environment holds a variable
/// of that name, and the value is that of the first of them.
pub proof fn lemma_value_of(environment: EnvironmentView, name: Seq<u8>)
    ensures
        match environment.value_of(name) {
            Some(value) => exists|i: int|
                is_first_named(environment.variables, name, i) && environment.variables[i].1
                    == value,
            None => forall|i: int|
                0 <= i < environment.variables.len() ==> (#[trigger] environment.variables[i]).0
                    != name,
        },
{
    if environment.value_of(name) is None {
        assert forall|i: int| 0 <= i < environment.variables.len() implies (
        #[trigger] environment.variables[i]).0 != name by {
            if environment.variables[i].0 == name {
                lemma_some_named_is_first(environment.variables, name, i);
            }
        }
    }
}

/// Resolver precedence. Where the environment holds the disable marker,
/// there is no pager, whatever else it holds.
pub proof fn lemma_disable_marker_wins(environment: EnvironmentView, variable: Seq<u8>, i: int)
    requires
        0 <= i < environment.variables.len(),
        environment.variables[i].0 == DISABLE_MARKER.spec_bytes(),
    ensures
        environment.resolve(variable) is None,
{
    lemma_some_named_is_first(environment.variables, DISABLE_MARKER.spec_bytes(), i);
}

} // verus!
