//! The environment of an analysis: variable types and function signatures by
//! name, and the source file that diagnostics point into.

use crate::tree::{members_view, Fn, FnView, Type, TypeView};
use vstd::prelude::*;
use vstd::string::*;

verus! {

/// What a list of bindings gives for a name: the value of the last binding of
/// that name, if there is one. A later binding hides an earlier one.
pub open spec fn lookup<T>(entries: Seq<(Seq<char>, T)>, key: Seq<char>) -> Option<T>
    decreases entries.len(),
{
    if entries.len() == 0 {
        None
    } else if entries.last().0 == key {
        Some(entries.last().1)
    } else {
        lookup(entries.drop_last(), key)
    }
}

/// The map that a list of bindings stands for.
pub open spec fn bindings<T>(entries: Seq<(Seq<char>, T)>) -> Map<Seq<char>, T> {
    Map::new(|k: Seq<char>| lookup(entries, k) is Some, |k: Seq<char>| lookup(entries, k)->0)
}

/// Binding a name at the end of a list is an insertion into its map.
pub proof fn lemma_bindings_push<T>(entries: Seq<(Seq<char>, T)>, name: Seq<char>, value: T)
    ensures
        bindings(entries.push((name, value))) == bindings(entries).insert(name, value),
{
    let longer = entries.push((name, value));
    assert(longer.drop_last() =~= entries);
    assert(longer.last() == (name, value));
    assert forall|k: Seq<char>| lookup(longer, k) == (if k == name {
        Some(value)
    } else {
        lookup(entries, k)
    }) by {}
    assert(bindings(longer) =~= bindings(entries).insert(name, value));
}

/// An empty list of bindings stands for the empty map.
pub proof fn lemma_bindings_empty<T>()
    ensures
        bindings(Seq::<(Seq<char>, T)>::empty()) == Map::<Seq<char>, T>::empty(),
{
    assert(bindings(Seq::<(Seq<char>, T)>::empty()) =~= Map::<Seq<char>, T>::empty());
}

/// A name whose last binding stands at `at` is looked up as that binding's value.
proof fn lemma_lookup_at<T>(entries: Seq<(Seq<char>, T)>, key: Seq<char>, at: int)
    requires
        0 <= at < entries.len(),
        entries[at].0 == key,
        forall|j: int| at < j < entries.len() ==> entries[j].0 != key,
    ensures
        lookup(entries, key) == Some(entries[at].1),
    decreases entries.len(),
{
    if at < entries.len() - 1 {
        lemma_lookup_at(entries.drop_last(), key, at);
    }
}

/// A name that no binding has is not found.
proof fn lemma_lookup_absent<T>(entries: Seq<(Seq<char>, T)>, key: Seq<char>)
    requires
        forall|j: int| 0 <= j < entries.len() ==> entries[j].0 != key,
    ensures
        lookup(entries, key) is None,
    decreases entries.len(),
{
    if entries.len() > 0 {
        lemma_lookup_absent(entries.drop_last(), key);
    }
}

/// The place of the last binding of a name.
fn find<V>(entries: &Vec<(String, V)>, key: &str) -> (r: Option<usize>)
    ensures
        match r {
            Some(at) => at < entries@.len() && entries@[at as int].0@ == key@ && forall|j: int|
                at < j < entries@.len() ==> (#[trigger] entries@[j]).0@ != key@,
            None => forall|j: int| 0 <= j < entries@.len() ==> (#[trigger] entries@[j]).0@ != key@,
        },
{
    let wanted = String::from_str(key);
    let mut i: usize = entries.len();
    while i > 0
        invariant
            i <= entries.len(),
            wanted@ == key@,
            forall|j: int| i <= j < entries@.len() ==> (#[trigger] entries@[j]).0@ != key@,
        decreases i,
    {
        i -= 1;
        if entries[i].0 == wanted {
            return Some(i);
        }
    }
    None
}

/// The views of a list of function bindings, element by element.
pub open spec fn signatures_view(entries: Seq<(String, Fn)>) -> Seq<(Seq<char>, FnView)> {
    Seq::new(entries.len(), |i: int| (entries[i].0@, entries[i].1@))
}

/// The names in scope: variables (and type names) with their types, functions
/// with their signatures, and the source file.
pub struct Scope {
    vars: Vec<(String, Type)>,
    funcs: Vec<(String, Fn)>,
    file: (String, String),
}

/// The mathematical value of a [`Scope`].
pub struct ScopeView {
    pub vars: Map<Seq<char>, TypeView>,
    pub funcs: Map<Seq<char>, FnView>,
    pub text: Seq<char>,
    pub path: Seq<char>,
}

impl ScopeView {
    /// The scope in which a function's body is checked: the parameters are the
    /// only variables, the functions stay.
    pub open spec fn fork(self, params: Map<Seq<char>, TypeView>) -> ScopeView {
        ScopeView { vars: params, ..self }
    }

    /// The scope after a variable or type name was bound.
    pub open spec fn bind(self, name: Seq<char>, ty: TypeView) -> ScopeView {
        ScopeView { vars: self.vars.insert(name, ty), ..self }
    }

    /// The scope after a function was registered.
    pub open spec fn register(self, name: Seq<char>, f: FnView) -> ScopeView {
        ScopeView { funcs: self.funcs.insert(name, f), ..self }
    }
}

impl View for Scope {
    type V = ScopeView;

    closed spec fn view(&self) -> ScopeView {
        ScopeView {
            vars: bindings(members_view(self.vars@)),
            funcs: bindings(signatures_view(self.funcs@)),
            text: self.file.0@,
            path: self.file.1@,
        }
    }
}

/// The parameter types of a list of named parameters.
pub open spec fn param_types(params: Seq<(Seq<char>, TypeView)>) -> Seq<TypeView> {
    Seq::new(params.len(), |i: int| params[i].1)
}

impl Scope {
    /// A scope with the given bindings and no file. Where a name is bound
    /// twice, the later binding counts.
    pub fn new(current_scope: Vec<(String, Type)>, current_functions: Vec<(String, Fn)>) -> (s:
        Scope)
        ensures
            s@.vars == bindings(members_view(current_scope@)),
            s@.funcs == bindings(signatures_view(current_functions@)),
            s@.text == Seq::<char>::empty(),
            s@.path == Seq::<char>::empty(),
    {
        Scope { vars: current_scope, funcs: current_functions, file: (String::new(), String::new()) }
    }

    /// The type bound to a variable or type name.
    pub fn get(&self, name: &str) -> (r: Option<&Type>)
        ensures
            match r {
                Some(t) => self@.vars.contains_key(name@) && self@.vars[name@] == t@,
                None => !self@.vars.contains_key(name@),
            },
    {
        let ghost entries = members_view(self.vars@);
        match find(&self.vars, name) {
            Some(at) => {
                proof {
                    lemma_lookup_at(entries, name@, at as int);
                }
                Some(&self.vars[at].1)
            },
            None => {
                proof {
                    lemma_lookup_absent(entries, name@);
                }
                None
            },
        }
    }

    /// Binds a variable or type name, hiding an earlier binding of that name.
    pub fn insert(&mut self, name: String, ty: Type)
        ensures
            final(self)@ == old(self)@.bind(name@, ty@),
    {
        proof {
            lemma_bindings_push(members_view(self.vars@), name@, ty@);
            assert(members_view(self.vars@.push((name, ty))) =~= members_view(self.vars@).push(
                (name@, ty@),
            ));
        }
        self.vars.push((name, ty));
    }

    /// The signature of a function.
    pub fn get_fn(&self, name: &str) -> (r: Option<&Fn>)
        ensures
            match r {
                Some(f) => self@.funcs.contains_key(name@) && self@.funcs[name@] == f@,
                None => !self@.funcs.contains_key(name@),
            },
    {
        let ghost entries = signatures_view(self.funcs@);
        match find(&self.funcs, name) {
            Some(at) => {
                proof {
                    lemma_lookup_at(entries, name@, at as int);
                }
                Some(&self.funcs[at].1)
            },
            None => {
                proof {
                    lemma_lookup_absent(entries, name@);
                }
                None
            },
        }
    }

    /// The return type of a function, or the error type where there is no such function.
    pub fn get_fn_type(&self, name: &str) -> (t: Type)
        ensures
            t@ == (if self@.funcs.contains_key(name@) {
                self@.funcs[name@].ty
            } else {
                TypeView::Error
            }),
    {
        match self.get_fn(name) {
            Some(f) => f.ty.clone(),
            None => Type::Error,
        }
    }

    /// Registers a function under its name, with its return type and the types
    /// of its parameters; the parameter names are dropped. Says whether a
    /// function of that name was registered before; the new signature replaces it.
    pub fn insert_fn(&mut self, name: String, ty: Type, args: &[(String, Type)]) -> (existed: bool)
        ensures
            existed == old(self)@.funcs.contains_key(name@),
            final(self)@ == old(self)@.register(
                name@,
                FnView { ty: ty@, args: param_types(members_view(args@)) },
            ),
    {
        let existed = self.get_fn(name.as_str()).is_some();
        let mut types: Vec<Type> = Vec::new();
        let mut i: usize = 0;
        while i < args.len()
            invariant
                i <= args.len(),
                types@.len() == i,
                forall|k: int| 0 <= k < i ==> types@[k]@ == args@[k].1@,
            decreases args.len() - i,
        {
            types.push(args[i].1.clone());
            i += 1;
        }
        let f = Fn { ty, args: types };
        proof {
            assert(f@.args =~= param_types(members_view(args@)));
            lemma_bindings_push(signatures_view(self.funcs@), name@, f@);
            assert(signatures_view(self.funcs@.push((name, f))) =~= signatures_view(
                self.funcs@,
            ).push((name@, f@)));
        }
        self.funcs.push((name, f));
        existed
    }

    /// Sets the source file: its path and its text.
    pub fn set_file(&mut self, name: String, contents: String)
        ensures
            final(self)@ == (ScopeView { text: contents@, path: name@, ..old(self)@ }),
    {
        self.file = (contents, name);
    }

    /// The text of the source file.
    pub fn file_as_str(&self) -> (text: &str)
        ensures
            text@ == self@.text,
    {
        self.file.0.as_str()
    }

    /// The path of the source file.
    pub fn file_path(&self) -> (path: &str)
        ensures
            path@ == self@.path,
    {
        self.file.1.as_str()
    }

    /// The scope for a function's body: the given parameters are its only
    /// variables, and it knows the functions that this scope knows.
    pub fn clone_into_new_scope(&self, new_scope_variables: Vec<(String, Type)>) -> (s: Scope)
        ensures
            s@ == self@.fork(bindings(members_view(new_scope_variables@))),
    {
        let mut funcs: Vec<(String, Fn)> = Vec::new();
        let mut i: usize = 0;
        while i < self.funcs.len()
            invariant
                i <= self.funcs.len(),
                funcs@.len() == i,
                forall|k: int|
                    0 <= k < i ==> funcs@[k].0@ == self.funcs@[k].0@ && funcs@[k].1@
                        == self.funcs@[k].1@,
            decreases self.funcs.len() - i,
        {
            let entry = &self.funcs[i];
            funcs.push((entry.0.clone(), entry.1.clone()));
            i += 1;
        }
        proof {
            assert(signatures_view(funcs@) =~= signatures_view(self.funcs@));
        }
        Scope {
            vars: new_scope_variables,
            funcs,
            file: (self.file.0.clone(), self.file.1.clone()),
        }
    }
}

} // verus!
