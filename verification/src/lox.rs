use vstd::prelude::*;

use crate::environment::env_wf;
use crate::error::ReefError;
use crate::interpreter::{spec_execute, Interpreter, DEFAULT_FUEL};
use crate::stmt::StmtKind;

verus! {

/// The top-level driver state: one persistent interpreter, so that
/// declarations made by one run survive into the next, as a REPL needs.
/// The host around it scans, parses and prints; this type only executes.
pub struct Lox {
    pub interpreter: Interpreter,
}

impl Lox {
    /// A fresh driver with an empty global environment.
    pub fn new() -> (lox: Lox)
        ensures
            env_wf(lox.interpreter@),
            0 < lox.interpreter@.len(),
    {
        Lox { interpreter: Interpreter::new() }
    }

    /// Executes one parsed unit against the persistent global environment,
    /// with the default step budget. A failure halts that unit but leaves
    /// every binding made before the failure in place, so the next run sees
    /// them.
    pub fn run(&mut self, statements: &Vec<StmtKind>) -> (r: Result<(), ReefError>)
        requires
            env_wf(old(self).interpreter@),
            0 < old(self).interpreter@.len(),
        ensures
            ({
                let (sr, senv) = spec_execute(
                    old(self).interpreter@,
                    statements@,
                    DEFAULT_FUEL as nat,
                );
                &&& final(self).interpreter@ == senv
                &&& match r {
                    Ok(u) => sr == Ok::<(), crate::error::RuntimeError>(u),
                    Err(ReefError::RuntimeError(e1)) => sr == Err::<
                        (),
                        crate::error::RuntimeError,
                    >(e1),
                    Err(_) => false,
                }
                &&& env_wf(final(self).interpreter@)
                &&& 0 < final(self).interpreter@.len()
            }),
    {
        match self.interpreter.execute(statements, DEFAULT_FUEL) {
            Ok(()) => Ok(()),
            Err(e1) => Err(ReefError::RuntimeError(e1)),
        }
    }
}

} // verus!
