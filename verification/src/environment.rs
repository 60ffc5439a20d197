use vstd::prelude::*;

use crate::error::{RuntimeError, RuntimeErrorKind};
use crate::expr::{Value, ValueV};
use crate::func::CallableV;
use crate::token::Token;

verus! {

/// One lexical scope: its bindings, newest last, and the index of the
/// enclosing scope (`None` only for the global scope). Scopes live in an
/// arena ([`Environment`]) and are linked by index, so a scope captured by a
/// closure stays reachable for as long as the arena lives.
pub struct Scope {
    entries: Vec<(String, Value)>,
    parent: Option<usize>,
}

/// The mathematical model of a scope.
#[verifier::ext_equal]
pub struct ScopeV {
    pub bindings: Seq<(Seq<char>, ValueV)>,
    pub parent: Option<int>,
}

impl View for Scope {
    type V = ScopeV;

    closed spec fn view(&self) -> ScopeV {
        ScopeV {
            bindings: self.entries@.map_values(|e: (String, Value)| (e.0@, e.1@)),
            parent: match self.parent {
                Some(p) => Some(p as int),
                None => None,
            },
        }
    }
}

/// What `name` is bound to among `bindings`, the newest binding winning.
pub open spec fn scope_lookup(bindings: Seq<(Seq<char>, ValueV)>, name: Seq<char>) -> Option<ValueV>
    decreases bindings.len(),
{
    if bindings.len() == 0 {
        None
    } else if bindings.last().0 == name {
        Some(bindings.last().1)
    } else {
        scope_lookup(bindings.drop_last(), name)
    }
}

/// A value is well formed for an arena of `n` scopes when any scope it
/// captures is one of those `n`.
pub open spec fn value_wf(v: ValueV, n: int) -> bool {
    match v {
        ValueV::Callable(CallableV::Function { closure, .. }) => 0 <= closure < n,
        _ => true,
    }
}

/// A scope at position `i` of an arena of `n` scopes is well formed when
/// its parent comes strictly before it and every bound value is well
/// formed. Parents coming strictly earlier makes every chain walk reach the
/// global scope.
pub open spec fn scope_wf(s: ScopeV, i: int, n: int) -> bool {
    &&& match s.parent {
        Some(p) => 0 <= p < i,
        None => true,
    }
    &&& forall|j: int| 0 <= j < s.bindings.len() ==> value_wf(#[trigger] s.bindings[j].1, n)
}

/// Well-formedness of a whole arena.
pub open spec fn env_wf(env: Seq<ScopeV>) -> bool {
    forall|i: int| 0 <= i < env.len() ==> scope_wf(#[trigger] env[i], i, env.len() as int)
}

/// What `name` resolves to, walking outward from scope `scope` through the
/// parent chain.
pub open spec fn env_lookup(env: Seq<ScopeV>, scope: int, name: Seq<char>) -> Option<ValueV>
    decreases scope,
{
    if 0 <= scope < env.len() {
        match scope_lookup(env[scope].bindings, name) {
            Some(v) => Some(v),
            None => match env[scope].parent {
                Some(p) => if 0 <= p < scope {
                    env_lookup(env, p, name)
                } else {
                    None
                },
                None => None,
            },
        }
    } else {
        None
    }
}

/// The index of the scope, walking outward from `scope`, in which `name` is
/// bound; `None` when the chain is exhausted.
pub open spec fn env_resolve(env: Seq<ScopeV>, scope: int, name: Seq<char>) -> Option<int>
    decreases scope,
{
    if 0 <= scope < env.len() {
        if scope_lookup(env[scope].bindings, name) is Some {
            Some(scope)
        } else {
            match env[scope].parent {
                Some(p) => if 0 <= p < scope {
                    env_resolve(env, p, name)
                } else {
                    None
                },
                None => None,
            }
        }
    } else {
        None
    }
}

/// The arena after binding `name` to `v` in scope `scope` alone: no chain
/// walk, and an existing binding of the same name in that scope is simply
/// superseded.
pub open spec fn env_define(env: Seq<ScopeV>, scope: int, name: Seq<char>, v: ValueV) -> Seq<ScopeV> {
    env.update(scope, ScopeV {
        bindings: env[scope].bindings.push((name, v)),
        parent: env[scope].parent,
    })
}

/// The arena after assigning to `name` starting from scope `scope`: the
/// binding changes in the scope where the chain walk found it, or the
/// assignment fails (`None`) when no scope binds the name. Assignment never
/// creates a binding.
pub open spec fn env_assign(env: Seq<ScopeV>, scope: int, name: Seq<char>, v: ValueV) -> Option<
    Seq<ScopeV>,
> {
    match env_resolve(env, scope, name) {
        Some(target) => Some(env_define(env, target, name, v)),
        None => None,
    }
}

/// The arena after opening a fresh, empty scope whose enclosing scope is
/// `parent`; the new scope's index is the old length.
pub open spec fn env_push(env: Seq<ScopeV>, parent: int) -> Seq<ScopeV> {
    env.push(ScopeV { bindings: Seq::empty(), parent: Some(parent) })
}

/// A value found among well-formed bindings is itself well formed.
pub proof fn lemma_scope_lookup_wf(bindings: Seq<(Seq<char>, ValueV)>, name: Seq<char>, n: int)
    requires
        forall|j: int| 0 <= j < bindings.len() ==> value_wf(#[trigger] bindings[j].1, n),
    ensures
        scope_lookup(bindings, name) matches Some(v) ==> value_wf(v, n),
    decreases bindings.len(),
{
    if bindings.len() == 0 {
    } else if bindings.last().0 == name {
        assert(bindings[bindings.len() - 1].1 == bindings.last().1);
    } else {
        assert(forall|j: int|
            0 <= j < bindings.drop_last().len() ==> #[trigger] bindings.drop_last()[j]
                == bindings[j]);
        lemma_scope_lookup_wf(bindings.drop_last(), name, n);
    }
}

/// A value read out of a well-formed arena is well formed for that arena.
pub proof fn lemma_env_lookup_wf(env: Seq<ScopeV>, scope: int, name: Seq<char>)
    requires
        env_wf(env),
    ensures
        env_lookup(env, scope, name) matches Some(v) ==> value_wf(v, env.len() as int),
    decreases scope,
{
    if 0 <= scope < env.len() {
        assert(scope_wf(env[scope], scope, env.len() as int));
        if scope_lookup(env[scope].bindings, name) is Some {
            lemma_scope_lookup_wf(env[scope].bindings, name, env.len() as int);
        } else {
            match env[scope].parent {
                Some(p) => {
                    if 0 <= p < scope {
                        lemma_env_lookup_wf(env, p, name);
                    }
                },
                None => {},
            }
        }
    }
}

/// The chained mapping from names to values that implements lexical
/// scoping: an arena of scopes linked outward by parent indices. Scope 0 is
/// the global scope; it exists from construction on and has no parent.
pub struct Environment {
    scopes: Vec<Scope>,
}

impl View for Environment {
    type V = Seq<ScopeV>;

    closed spec fn view(&self) -> Seq<ScopeV> {
        self.scopes@.map_values(|s: Scope| s@)
    }
}

/// Finds `name` among `entries`, newest binding first, and hands back a
/// duplicate of the bound value.
fn find_local(entries: &Vec<(String, Value)>, name: &String) -> (r: Option<Value>)
    ensures
        ({
            let bs = entries@.map_values(|e: (String, Value)| (e.0@, e.1@));
            match r {
                Some(v) => scope_lookup(bs, name@) == Some(v@),
                None => scope_lookup(bs, name@) is None,
            }
        }),
{
    let ghost bs = entries@.map_values(|e: (String, Value)| (e.0@, e.1@));
    let mut i: usize = entries.len();
    assert(bs.take(i as int) =~= bs);
    while i > 0
        invariant
            i <= entries.len(),
            bs == entries@.map_values(|e: (String, Value)| (e.0@, e.1@)),
            scope_lookup(bs, name@) == scope_lookup(bs.take(i as int), name@),
        decreases i,
    {
        i = i - 1;
        let e = &entries[i];
        if e.0 == *name {
            proof {
                assert(bs.take(i + 1).last() == bs[i as int]);
                assert(scope_lookup(bs.take(i + 1), name@) == Some(bs[i as int].1));
            }
            return Some(e.1.clone());
        }
        proof {
            assert(bs.take(i + 1).drop_last() =~= bs.take(i as int));
            assert(scope_lookup(bs.take(i + 1), name@) == scope_lookup(bs.take(i as int), name@));
        }
    }
    proof {
        assert(bs.take(0) =~= Seq::<(Seq<char>, ValueV)>::empty());
    }
    None
}

impl Environment {
    /// A fresh environment holding only the empty global scope.
    pub fn new() -> (env: Environment)
        ensures
            env@.len() == 1,
            env@[0].bindings == Seq::<(Seq<char>, ValueV)>::empty(),
            env@[0].parent is None,
            env_wf(env@),
    {
        let mut scopes: Vec<Scope> = Vec::new();
        scopes.push(Scope { entries: Vec::new(), parent: None });
        let env = Environment { scopes };
        proof {
            assert(env@ =~~= seq![ScopeV { bindings: Seq::empty(), parent: None }]);
        }
        env
    }

    /// Opens a fresh scope enclosed by `parent` and returns its index.
    pub fn push_scope(&mut self, parent: usize) -> (idx: usize)
        requires
            env_wf(old(self)@),
            parent < old(self)@.len(),
        ensures
            idx == old(self)@.len(),
            final(self)@ == env_push(old(self)@, parent as int),
            env_wf(final(self)@),
            final(self)@.len() == old(self)@.len() + 1,
    {
        let idx = self.scopes.len();
        self.scopes.push(Scope { entries: Vec::new(), parent: Some(parent) });
        proof {
            assert(self@ =~~= env_push(old(self)@, parent as int));
            assert forall|i: int| 0 <= i < self@.len() implies scope_wf(
                #[trigger] self@[i],
                i,
                self@.len() as int,
            ) by {
                if i < old(self)@.len() {
                    assert(scope_wf(old(self)@[i], i, old(self)@.len() as int));
                    assert forall|j: int| 0 <= j < self@[i].bindings.len() implies value_wf(
                        #[trigger] self@[i].bindings[j].1,
                        self@.len() as int,
                    ) by {
                        assert(value_wf(old(self)@[i].bindings[j].1, old(self)@.len() as int));
                    }
                }
            }
        }
        idx
    }

    /// Inserts or supersedes a binding in scope `scope` alone; the handed-in
    /// value is returned unchanged.
    pub fn update_values(&mut self, scope: usize, name: String, value: Value) -> (r: Result<
        Value,
        RuntimeError,
    >)
        requires
            env_wf(old(self)@),
            scope < old(self)@.len(),
            value_wf(value@, old(self)@.len() as int),
        ensures
            final(self)@ == env_define(old(self)@, scope as int, name@, value@),
            env_wf(final(self)@),
            final(self)@.len() == old(self)@.len(),
            r matches Ok(v) && v == value,
    {
        let ghost old_env = self@;
        let ghost vv = value@;
        let stored = value.clone();
        let sc = &mut self.scopes[scope];
        sc.entries.push((name, stored));
        proof {
            assert(self@ =~= env_define(old_env, scope as int, name@, vv)) by {
                assert forall|i: int| 0 <= i < self@.len() implies self@[i] == env_define(
                    old_env,
                    scope as int,
                    name@,
                    vv,
                )[i] by {
                    if i == scope {
                        assert(self@[i].bindings =~= old_env[i].bindings.push((name@, vv)));
                    }
                }
            }
            assert forall|i: int| 0 <= i < self@.len() implies scope_wf(
                #[trigger] self@[i],
                i,
                self@.len() as int,
            ) by {
                assert(scope_wf(old_env[i], i, old_env.len() as int));
                if i == scope {
                    assert forall|j: int| 0 <= j < self@[i].bindings.len() implies value_wf(
                        #[trigger] self@[i].bindings[j].1,
                        self@.len() as int,
                    ) by {
                        if j < old_env[i].bindings.len() {
                            assert(value_wf(old_env[i].bindings[j].1, old_env.len() as int));
                        }
                    }
                }
            }
        }
        Ok(value)
    }

    /// Declares `name` in the current scope: inserts or supersedes, with no
    /// chain walk. Declaring the same name twice in one scope is allowed and
    /// simply rebinds.
    pub fn define(&mut self, scope: usize, name: String, value: Value) -> (r: Result<
        Value,
        RuntimeError,
    >)
        requires
            env_wf(old(self)@),
            scope < old(self)@.len(),
            value_wf(value@, old(self)@.len() as int),
        ensures
            final(self)@ == env_define(old(self)@, scope as int, name@, value@),
            env_wf(final(self)@),
            final(self)@.len() == old(self)@.len(),
            r matches Ok(v) && v == value,
    {
        self.update_values(scope, name, value)
    }

    /// Assigns to an existing binding, walking the chain outward from
    /// `scope`; the binding changes in the scope where it was found. When no
    /// scope binds the name, fails with `UndefinedVariable` naming the
    /// identifier and its line, and changes nothing.
    pub fn assign(&mut self, scope: usize, name: &Token, value: Value) -> (r: Result<
        Value,
        RuntimeError,
    >)
        requires
            env_wf(old(self)@),
            scope < old(self)@.len(),
            value_wf(value@, old(self)@.len() as int),
        ensures
            match r {
                Ok(v) => env_assign(old(self)@, scope as int, name.lexeme@, value@)
                    == Some(final(self)@) && v == value,
                Err(e) => {
                    &&& env_assign(old(self)@, scope as int, name.lexeme@, value@) is None
                    &&& final(self)@ == old(self)@
                    &&& e == (RuntimeError {
                        kind: RuntimeErrorKind::UndefinedVariable { name: name.lexeme },
                        line: name.line,
                    })
                },
            },
            env_wf(final(self)@),
            final(self)@.len() == old(self)@.len(),
        decreases scope,
    {
        let found = {
            let sc = &self.scopes[scope];
            find_local(&sc.entries, &name.lexeme)
        };
        match found {
            Some(_) => self.update_values(scope, name.lexeme.clone(), value),
            None => {
                let parent_opt = self.scopes[scope].parent;
                match parent_opt {
                    Some(p) => {
                        proof {
                            assert(scope_wf(self@[scope as int], scope as int, self@.len() as int));
                        }
                        self.assign(p, name, value)
                    },
                    None => Err(RuntimeError {
                        kind: RuntimeErrorKind::UndefinedVariable { name: name.lexeme.clone() },
                        line: name.line,
                    }),
                }
            },
        }
    }

    /// Reads the value bound to `name`, walking the chain outward from
    /// `scope`. When no scope binds the name, fails with
    /// `UndefinedVariable` naming the identifier and its line.
    pub fn get(&self, scope: usize, name: &Token) -> (r: Result<Value, RuntimeError>)
        requires
            env_wf(self@),
            scope < self@.len(),
        ensures
            match r {
                Ok(v) => env_lookup(self@, scope as int, name.lexeme@) == Some(v@),
                Err(e) => {
                    &&& env_lookup(self@, scope as int, name.lexeme@) is None
                    &&& e == (RuntimeError {
                        kind: RuntimeErrorKind::UndefinedVariable { name: name.lexeme },
                        line: name.line,
                    })
                },
            },
        decreases scope,
    {
        let sc = &self.scopes[scope];
        match find_local(&sc.entries, &name.lexeme) {
            Some(v) => Ok(v),
            None => {
                match sc.parent {
                    Some(p) => {
                        proof {
                            assert(scope_wf(self@[scope as int], scope as int, self@.len() as int));
                        }
                        self.get(p, name)
                    },
                    None => Err(RuntimeError {
                        kind: RuntimeErrorKind::UndefinedVariable { name: name.lexeme.clone() },
                        line: name.line,
                    }),
                }
            },
        }
    }

    /// How many scopes the arena holds.
    pub fn scope_count(&self) -> (n: usize)
        ensures
            n == self@.len(),
    {
        self.scopes.len()
    }
}

impl Default for Environment {
    /// The default environment is a fresh one: only the empty global scope.
    fn default() -> (env: Environment)
        ensures
            env@.len() == 1,
            env@[0].bindings == Seq::<(Seq<char>, ValueV)>::empty(),
            env@[0].parent is None,
            env_wf(env@),
    {
        Environment::new()
    }
}

} // verus!
